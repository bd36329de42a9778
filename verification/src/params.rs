//! Parameter-list and argument-list rendering, shared by the declaration
//! and the definition emitters. The receiver parameter — the one whose
//! name equals the lowercased owner name — is left out of parameter
//! lists and rewritten to the current instance in argument lists.
//! Fragments are joined with one separator between neighbours, so no list
//! carries a trailing separator.

use vstd::prelude::*;
use vstd::string::StringExecFns;
use crate::ir::Parameter;
use crate::mapper::{map_parameter, param_spelling};

verus! {

/// Views of a sequence of strings.
pub open spec fn views_of(items: Seq<String>) -> Seq<Seq<char>> {
    items.map_values(|s: String| s@)
}

/// Rendered declaration of one parameter: mapped type, a space, the name.
pub open spec fn param_decl_text(p: Parameter) -> Seq<char> {
    (match param_spelling(p.type_) {
        Some(s) => s,
        None => Seq::empty(),
    }) + " "@ + p.name@
}

/// The rendered declarations of the parameters that are kept: every
/// parameter whose name differs from `low`, in declaration order.
pub open spec fn retained_renders(low: Seq<char>, ps: Seq<Parameter>) -> Seq<Seq<char>>
    decreases ps.len(),
{
    if ps.len() == 0 {
        Seq::empty()
    } else {
        let rest = retained_renders(low, ps.drop_last());
        if ps.last().name@ == low {
            rest
        } else {
            rest.push(param_decl_text(ps.last()))
        }
    }
}

/// How many parameters bear the receiver name `low`.
pub open spec fn receiver_count(low: Seq<char>, ps: Seq<Parameter>) -> int
    decreases ps.len(),
{
    if ps.len() == 0 {
        0
    } else {
        receiver_count(low, ps.drop_last()) + if ps.last().name@ == low {
            1int
        } else {
            0int
        }
    }
}

/// Fragments joined with one `, ` between neighbours.
pub open spec fn comma_join(items: Seq<Seq<char>>) -> Seq<char>
    decreases items.len(),
{
    if items.len() == 0 {
        Seq::empty()
    } else if items.len() == 1 {
        items[0]
    } else {
        comma_join(items.drop_last()) + ", "@ + items.last()
    }
}

/// Full parameter-list text of a method.
pub open spec fn params_text(low: Seq<char>, ps: Seq<Parameter>) -> Seq<char> {
    comma_join(retained_renders(low, ps))
}

/// One forwarding argument: the parameter's name, with the receiver
/// rewritten to the current instance.
pub open spec fn arg_text(low: Seq<char>, p: Parameter) -> Seq<char> {
    if p.name@ == low {
        "*this"@
    } else {
        p.name@
    }
}

/// The forwarding arguments of a method, one per parameter, in order.
pub open spec fn arg_renders(low: Seq<char>, ps: Seq<Parameter>) -> Seq<Seq<char>>
    decreases ps.len(),
{
    if ps.len() == 0 {
        Seq::empty()
    } else {
        arg_renders(low, ps.drop_last()).push(arg_text(low, ps.last()))
    }
}

/// Full argument-list text of a forwarding call.
pub open spec fn args_text(low: Seq<char>, ps: Seq<Parameter>) -> Seq<char> {
    comma_join(arg_renders(low, ps))
}

/// Renders the kept parameters of a method, in order; `None` when a kept
/// parameter's type has no mapping rule.
pub fn rendered_params(low: &String, ps: &Vec<Parameter>) -> (r: Option<Vec<String>>)
    ensures
        match r {
            Some(v) => views_of(v@) == retained_renders(low@, ps@),
            None => exists|i: int|
                0 <= i < ps@.len() && ps@[i].name@ != low@ && param_spelling(ps@[i].type_) is None,
        },
{
    let mut v: Vec<String> = Vec::new();
    let mut k: usize = 0;
    while k < ps.len()
        invariant
            0 <= k <= ps@.len(),
            views_of(v@) == retained_renders(low@, ps@.take(k as int)),
        decreases ps@.len() - k,
    {
        proof {
            assert(ps@.take(k + 1).drop_last() =~= ps@.take(k as int));
            assert(ps@.take(k + 1).last() == ps@[k as int]);
        }
        if !(ps[k].name == *low) {
            match map_parameter(&ps[k].type_) {
                None => {
                    return None;
                },
                Some(spelled) => {
                    let mut s = spelled;
                    s.append(" ");
                    s.append(ps[k].name.as_str());
                    let ghost old_v = v@;
                    v.push(s);
                    proof {
                        assert(views_of(v@) =~= views_of(old_v).push(s@));
                    }
                },
            }
        }
        k = k + 1;
    }
    proof {
        assert(ps@.take(ps@.len() as int) =~= ps@);
    }
    Some(v)
}

/// The forwarding arguments of a method, one per parameter, in order.
pub fn rendered_args(low: &String, ps: &Vec<Parameter>) -> (r: Vec<String>)
    ensures
        views_of(r@) == arg_renders(low@, ps@),
{
    let mut v: Vec<String> = Vec::new();
    let mut k: usize = 0;
    while k < ps.len()
        invariant
            0 <= k <= ps@.len(),
            views_of(v@) == arg_renders(low@, ps@.take(k as int)),
        decreases ps@.len() - k,
    {
        proof {
            assert(ps@.take(k + 1).drop_last() =~= ps@.take(k as int));
            assert(ps@.take(k + 1).last() == ps@[k as int]);
        }
        let s = if ps[k].name == *low {
            String::from_str("*this")
        } else {
            ps[k].name.clone()
        };
        let ghost old_v = v@;
        v.push(s);
        proof {
            assert(views_of(v@) =~= views_of(old_v).push(s@));
        }
        k = k + 1;
    }
    proof {
        assert(ps@.take(ps@.len() as int) =~= ps@);
    }
    v
}

/// Joins fragments with one `, ` between neighbours.
pub fn join_fragments(v: &Vec<String>) -> (r: String)
    ensures
        r@ == comma_join(views_of(v@)),
{
    let mut s = String::new();
    let mut k: usize = 0;
    while k < v.len()
        invariant
            0 <= k <= v@.len(),
            s@ == comma_join(views_of(v@).take(k as int)),
        decreases v@.len() - k,
    {
        proof {
            assert(views_of(v@).take(k + 1).drop_last() =~= views_of(v@).take(k as int));
            assert(views_of(v@).take(k + 1).last() == v@[k as int]@);
        }
        if k > 0 {
            s.append(", ");
        } else {
            proof {
                assert(s@ + v@[k as int]@ =~= v@[k as int]@);
            }
        }
        s.append(v[k].as_str());
        k = k + 1;
    }
    proof {
        assert(views_of(v@).take(v@.len() as int) =~= views_of(v@));
    }
    s
}

/// Renders a method's parameter-list text; `None` when a kept parameter's
/// type has no mapping rule.
pub fn render_parameter_list(low: &String, ps: &Vec<Parameter>) -> (r: Option<String>)
    ensures
        match r {
            Some(s) => s@ == params_text(low@, ps@),
            None => exists|i: int|
                0 <= i < ps@.len() && ps@[i].name@ != low@ && param_spelling(ps@[i].type_) is None,
        },
{
    match rendered_params(low, ps) {
        None => None,
        Some(v) => Some(join_fragments(&v)),
    }
}

/// Renders a method's forwarding argument-list text.
pub fn render_argument_list(low: &String, ps: &Vec<Parameter>) -> (r: String)
    ensures
        r@ == args_text(low@, ps@),
{
    let v = rendered_args(low, ps);
    join_fragments(&v)
}

} // verus!
