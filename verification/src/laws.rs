//! Laws of the emission engine: the cross-file guarantees that hold of
//! every wrapped type, stated over the same spec functions the emitters'
//! contracts use.

use vstd::prelude::*;
use crate::ir::{Method, Parameter, WrappedType, IrType};
use crate::buffers::appended;
use crate::hpp::{decl_method_text, decl_path_text};
use crate::cpp::{decl_ref_line, def_method_text, def_path_text};
use crate::files::{decl_text, def_text};
use crate::mapper::return_text;
use crate::params::{arg_renders, args_text, params_text, receiver_count, retained_renders};

verus! {

/// The forwarding call passes one argument per parameter.
proof fn lemma_arg_count(low: Seq<char>, ps: Seq<Parameter>)
    ensures
        arg_renders(low, ps).len() == ps.len(),
    decreases ps.len(),
{
    if ps.len() > 0 {
        lemma_arg_count(low, ps.drop_last());
    }
}

/// The kept declarations number the parameters minus those bearing the
/// receiver name.
proof fn lemma_retained_count(low: Seq<char>, ps: Seq<Parameter>)
    ensures
        retained_renders(low, ps).len() == ps.len() - receiver_count(low, ps),
        0 <= receiver_count(low, ps) <= ps.len(),
    decreases ps.len(),
{
    if ps.len() > 0 {
        lemma_retained_count(low, ps.drop_last());
    }
}

/// Some parameter bears the receiver name exactly when the receiver
/// count is positive.
proof fn lemma_receiver_exists(low: Seq<char>, ps: Seq<Parameter>)
    ensures
        receiver_count(low, ps) > 0 <==> exists|i: int|
            0 <= i < ps.len() && (#[trigger] ps[i]).name@ == low,
    decreases ps.len(),
{
    if ps.len() > 0 {
        let prefix = ps.drop_last();
        lemma_receiver_exists(low, prefix);
        lemma_retained_count(low, prefix);
        assert(forall|i: int| 0 <= i < prefix.len() ==> prefix[i] == ps[i]);
        if ps.last().name@ == low {
            assert(ps[ps.len() - 1].name@ == low);
            assert(receiver_count(low, ps) > 0);
        } else {
            assert(receiver_count(low, ps) == receiver_count(low, prefix));
            if receiver_count(low, ps) > 0 {
                let i = choose|i: int|
                    0 <= i < prefix.len() && (#[trigger] prefix[i]).name@ == low;
                assert(ps[i].name@ == low);
            }
            if exists|i: int| 0 <= i < ps.len() && (#[trigger] ps[i]).name@ == low {
                let i = choose|i: int| 0 <= i < ps.len() && (#[trigger] ps[i]).name@ == low;
                assert(ps[ps.len() - 1] == ps.last());
                assert(i != ps.len() - 1);
                assert(prefix[i].name@ == low);
                assert(receiver_count(low, prefix) > 0);
            }
        }
    }
}

/// Generating one wrapped type produces exactly two new buffers, at the
/// derived declaration and definition paths, and the two reference each
/// other by name: the definition text opens with the line naming the
/// declaration file's base name, which is the base name of the
/// declaration path.
pub proof fn lemma_two_buffers(m: Map<Seq<char>, Seq<char>>, ty: WrappedType)
    requires
        !m.contains_key(decl_path_text(ty.name@)),
        !m.contains_key(def_path_text(ty.name@)),
    ensures
        ({
            let out = appended(
                appended(m, decl_path_text(ty.name@), decl_text(ty)),
                def_path_text(ty.name@),
                def_text(ty),
            );
            &&& out.dom() == m.dom().insert(decl_path_text(ty.name@)).insert(
                def_path_text(ty.name@),
            )
            &&& decl_path_text(ty.name@) != def_path_text(ty.name@)
            &&& out[decl_path_text(ty.name@)] == decl_text(ty)
            &&& out[def_path_text(ty.name@)] == def_text(ty)
            &&& def_text(ty).take(decl_ref_line(ty.name@).len() as int) == decl_ref_line(
                ty.name@,
            )
            &&& decl_ref_line(ty.name@).subrange(10, 14 + ty.name@.len() as int) == ty.name@ + ".hpp"@
            &&& decl_path_text(ty.name@).subrange(8, 12 + ty.name@.len() as int) == ty.name@ + ".hpp"@
        }),
{
    crate::buffers::lemma_paths_distinct(ty.name@);
    reveal_strlit("in");
    reveal_strlit("clude/");
    reveal_strlit("#in");
    reveal_strlit("clude <");
    reveal_strlit(".hpp");
    reveal_strlit(".hpp>\n");
    reveal_strlit(".hpp>\n\n");
    let n = ty.name@;
    let dp = decl_path_text(n);
    let sp = def_path_text(n);
    let out = appended(appended(m, dp, decl_text(ty)), def_path_text(n), def_text(ty));
    assert(Seq::empty() + decl_text(ty) =~= decl_text(ty));
    assert(Seq::empty() + def_text(ty) =~= def_text(ty));
    assert(out.dom() =~= m.dom().insert(dp).insert(sp));
    assert(def_text(ty).take(decl_ref_line(n).len() as int) =~= decl_ref_line(n));
    assert(decl_ref_line(n).subrange(10, 14 + n.len() as int) =~= n + ".hpp"@);
    assert(dp.subrange(8, 12 + n.len() as int) =~= n + ".hpp"@);
}

/// For every method with at most one parameter bearing the receiver
/// name, the declaration file's kept parameter declarations and the
/// definition file's forwarding arguments differ in number exactly by
/// the elided receiver: by one when a receiver parameter is present,
/// otherwise not at all.
pub proof fn lemma_parameter_argument_counts(low: Seq<char>, ps: Seq<Parameter>)
    requires
        receiver_count(low, ps) <= 1,
    ensures
        arg_renders(low, ps).len() == ps.len(),
        retained_renders(low, ps).len() == arg_renders(low, ps).len() - (if exists|i: int|
            0 <= i < ps.len() && (#[trigger] ps[i]).name@ == low {
            1int
        } else {
            0int
        }),
{
    lemma_arg_count(low, ps);
    lemma_retained_count(low, ps);
    lemma_receiver_exists(low, ps);
}

/// A public method named `new` yields the constructor pattern in both
/// files — the bare class name as declaration opener, the qualified
/// constructor with a delegating member-initializer as definition —
/// whatever output type it declares.
pub proof fn lemma_constructor_pattern(n: Seq<char>, low: Seq<char>, m: Method)
    requires
        m.visibility is Public,
        m.name@ == "new"@,
    ensures
        decl_method_text(n, low, m) == "\t"@ + n + "("@ + params_text(low, m.parameters@)
            + ");\n"@,
        def_method_text(n, low, m) == n + "::"@ + n + "("@ + params_text(low, m.parameters@) + (
        ") : "@ + n + "("@ + n + "_"@ + m.name@ + "("@ + args_text(low, m.parameters@)
            + ")) {\n}\n"@),
{
}

/// A public method returning the owned-string compound type renders its
/// return type as the renamed string spelling, identically in the
/// declaration and in the definition.
pub proof fn lemma_string_return(n: Seq<char>, low: Seq<char>, m: Method)
    requires
        m.visibility is Public,
        m.name@ != "new"@,
        m.output matches Some(IrType::Compound { name, pointer }) && name@ == "String"@,
    ensures
        return_text(m.output) == Some("RString"@ + " "@),
        decl_method_text(n, low, m) == "\t"@ + ("RString"@ + " "@) + m.name@ + "("@ + params_text(
            low,
            m.parameters@,
        ) + ");\n"@,
        def_method_text(n, low, m) == ("RString"@ + " "@) + n + "::"@ + m.name@ + "("@
            + params_text(low, m.parameters@) + (") {\n\t"@ + "return "@ + n + "_"@ + m.name@
            + "("@ + args_text(low, m.parameters@) + ");\n}\n"@),
{
}

/// A private method contributes no text to either file.
pub proof fn lemma_private_silent(n: Seq<char>, low: Seq<char>, m: Method)
    requires
        m.visibility is Private,
    ensures
        decl_method_text(n, low, m) == Seq::<char>::empty(),
        def_method_text(n, low, m) == Seq::<char>::empty(),
{
}

} // verus!
