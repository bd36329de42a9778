//! The generation driver: validates a wrapped type, then walks its
//! methods once, advancing the declaration buffer and the definition
//! buffer in lockstep, and appends the two finished texts to the output
//! buffer set. A run over several wrapped types isolates failures: a
//! refused type contributes nothing, the others are still generated, and
//! the run reports the refused types with their errors.

use vstd::prelude::*;
use vstd::string::StringExecFns;
use vstd::string::StrSliceExecFns;
use crate::ir::{Method, Parameter, Visibility, WrappedType};
use crate::mapper::{map_parameter, map_return, param_spelling, return_text};
use crate::params::{params_text, receiver_count};
use crate::casing::{lower_of, lowercase};
use crate::buffers::{appended, fs_contents, fs_write, lemma_decl_path_wf, lemma_def_path_wf,
    name_ok};
use crate::hpp;
use crate::hpp::{decl_method_close, decl_method_open, decl_method_text, decl_methods_text,
    decl_open_text, decl_path_text, decl_text_with};
use crate::cpp;
use crate::cpp::{def_method_close, def_method_open, def_method_text, def_methods_text,
    def_open_text, def_path_text, def_text_with};
use ligen::generator::file_generator::FileSet;

verus! {

/// Why generation of one wrapped type was refused.
#[derive(Clone, Copy, Debug, PartialEq, Eq, Structural)]
pub enum GenError {
    /// The type's name cannot form an output file name.
    InvalidTypeName,
    /// Two public methods share one name, so their forwarding targets
    /// would collide.
    DuplicateMethod,
    /// A public method other than `new` has no parameter, or more than
    /// one, bearing the receiver name.
    AmbiguousReceiver,
    /// A type in a public method's rendered surface has no mapping rule.
    UnsupportedType,
    /// An earlier wrapped type of the same run bears the same name, so
    /// the output paths would collide.
    DuplicateWrappedType,
}

/// Every type a public method renders is covered by a mapping rule: the
/// type of each kept parameter, and the return type.
pub open spec fn method_types_ok(low: Seq<char>, m: Method) -> bool {
    &&& forall|i: int|
        0 <= i < m.parameters@.len() && m.parameters@[i].name@ != low ==> (#[trigger] param_spelling(
            m.parameters@[i].type_,
        )) is Some
    &&& return_text(m.output) is Some
}

/// An earlier public method already bears the name of method `j`.
pub open spec fn dup_method_before(ms: Seq<Method>, j: int) -> bool {
    exists|i: int|
        0 <= i < j && (#[trigger] ms[i]).visibility is Public && ms[i].name@ == ms[j].name@
}

/// The first broken rule of method `j`, checked in this order: a name an
/// earlier public method already bears; a missing or ambiguous receiver
/// for an ordinary method; a type with no mapping rule. Private methods
/// break no rule, since they contribute no text.
pub open spec fn method_error(low: Seq<char>, ms: Seq<Method>, j: int) -> Option<GenError> {
    if ms[j].visibility is Private {
        None
    } else if dup_method_before(ms, j) {
        Some(GenError::DuplicateMethod)
    } else if ms[j].name@ != "new"@ && receiver_count(low, ms[j].parameters@) != 1 {
        Some(GenError::AmbiguousReceiver)
    } else if !method_types_ok(low, ms[j]) {
        Some(GenError::UnsupportedType)
    } else {
        None
    }
}

/// The error of the first faulty method at or after `j`, in declaration
/// order.
pub open spec fn first_method_error(low: Seq<char>, ms: Seq<Method>, j: int) -> Option<GenError>
    decreases ms.len() - j,
{
    if j < 0 || j >= ms.len() {
        None
    } else if method_error(low, ms, j) is Some {
        method_error(low, ms, j)
    } else {
        first_method_error(low, ms, j + 1)
    }
}

/// The error that validation of one wrapped type reports, if any: an
/// unusable name first, then the first faulty method.
pub open spec fn type_error(ty: WrappedType) -> Option<GenError> {
    if !name_ok(ty.name@) {
        Some(GenError::InvalidTypeName)
    } else {
        first_method_error(lower_of(ty.name@), ty.methods@, 0)
    }
}

/// Whole declaration-file text of a wrapped type.
pub open spec fn decl_text(ty: WrappedType) -> Seq<char> {
    decl_text_with(ty.name@, lower_of(ty.name@), ty.methods@)
}

/// Whole definition-file text of a wrapped type.
pub open spec fn def_text(ty: WrappedType) -> Seq<char> {
    def_text_with(ty.name@, lower_of(ty.name@), ty.methods@)
}

/// A name is usable as an output file name: no separator, no character a
/// path cannot carry.
fn check_name(name: &String) -> (r: bool)
    ensures
        r == name_ok(name@),
{
    let s = name.as_str();
    let n = s.unicode_len();
    let mut k: usize = 0;
    while k < n
        invariant
            n == name@.len(),
            s@ == name@,
            0 <= k <= n,
            forall|i: int| 0 <= i < k ==> name@[i] != '/' && name@[i] != '\\' && name@[i] != '\u{0}',
        decreases n - k,
    {
        let c = s.get_char(k);
        if c == '/' || c == '\\' || c == '\u{0}' {
            return false;
        }
        k = k + 1;
    }
    true
}

/// How many parameters bear the receiver name.
fn count_receivers(low: &String, ps: &Vec<Parameter>) -> (r: usize)
    ensures
        r as int == receiver_count(low@, ps@),
{
    let mut count: usize = 0;
    let mut k: usize = 0;
    while k < ps.len()
        invariant
            0 <= k <= ps@.len(),
            count <= k,
            count as int == receiver_count(low@, ps@.take(k as int)),
        decreases ps@.len() - k,
    {
        proof {
            assert(ps@.take(k + 1).drop_last() =~= ps@.take(k as int));
            assert(ps@.take(k + 1).last() == ps@[k as int]);
        }
        if ps[k].name == *low {
            count = count + 1;
        }
        k = k + 1;
    }
    proof {
        assert(ps@.take(ps@.len() as int) =~= ps@);
    }
    count
}

/// Every rendered type of the method has a mapping rule.
fn check_method_types(low: &String, m: &Method) -> (r: bool)
    ensures
        r == method_types_ok(low@, *m),
{
    let mut k: usize = 0;
    while k < m.parameters.len()
        invariant
            0 <= k <= m.parameters@.len(),
            forall|i: int|
                0 <= i < k && m.parameters@[i].name@ != low@ ==> (#[trigger] param_spelling(
                    m.parameters@[i].type_,
                )) is Some,
        decreases m.parameters@.len() - k,
    {
        if !(m.parameters[k].name == *low) {
            if map_parameter(&m.parameters[k].type_).is_none() {
                return false;
            }
        }
        k = k + 1;
    }
    map_return(&m.output).is_some()
}

/// The first broken rule of method `j`, if any.
fn check_method(low: &String, ms: &Vec<Method>, j: usize) -> (r: Option<GenError>)
    requires
        j < ms@.len(),
    ensures
        r == method_error(low@, ms@, j as int),
{
    match ms[j].visibility {
        Visibility::Private => None,
        Visibility::Public => {
            let mut i: usize = 0;
            while i < j
                invariant
                    0 <= i <= j < ms@.len(),
                    ms@[j as int].visibility is Public,
                    forall|x: int|
                        0 <= x < i ==> !((#[trigger] ms@[x]).visibility is Public && ms@[x].name@
                            == ms@[j as int].name@),
                decreases j - i,
            {
                let earlier_public = match ms[i].visibility {
                    Visibility::Public => true,
                    Visibility::Private => false,
                };
                if earlier_public && ms[i].name == ms[j].name {
                    return Some(GenError::DuplicateMethod);
                }
                i = i + 1;
            }
            if !(ms[j].name == String::from_str("new")) {
                let count = count_receivers(low, &ms[j].parameters);
                if count != 1 {
                    return Some(GenError::AmbiguousReceiver);
                }
            }
            if !check_method_types(low, &ms[j]) {
                Some(GenError::UnsupportedType)
            } else {
                None
            }
        },
    }
}

/// Validates one wrapped type against the rules whose breach would make
/// the generated pair of files collide, miscompile or drop an argument.
pub fn validate(ty: &WrappedType) -> (r: Result<(), GenError>)
    ensures
        match r {
            Ok(()) => type_error(*ty) is None,
            Err(e) => type_error(*ty) == Some(e),
        },
{
    if !check_name(&ty.name) {
        return Err(GenError::InvalidTypeName);
    }
    let low = lowercase(ty.name.as_str());
    let mut j: usize = 0;
    while j < ty.methods.len()
        invariant
            0 <= j <= ty.methods@.len(),
            name_ok(ty.name@),
            low@ == lower_of(ty.name@),
            first_method_error(low@, ty.methods@, 0) == first_method_error(
                low@,
                ty.methods@,
                j as int,
            ),
        decreases ty.methods@.len() - j,
    {
        match check_method(&low, &ty.methods, j) {
            Some(e) => {
                return Err(e);
            },
            None => {},
        }
        j = j + 1;
    }
    Ok(())
}

/// No method at or after `j` is faulty when no first fault exists there.
proof fn lemma_no_method_error(low: Seq<char>, ms: Seq<Method>, j: int)
    requires
        0 <= j <= ms.len(),
        first_method_error(low, ms, j) is None,
    ensures
        forall|k: int| j <= k < ms.len() ==> method_error(low, ms, k) is None,
    decreases ms.len() - j,
{
    if j < ms.len() {
        lemma_no_method_error(low, ms, j + 1);
    }
}

/// Emits the fixed opening and closing of both files, advancing the two
/// buffers in lockstep.
#[derive(Clone, Copy, Debug, Default)]
pub struct ImplementationProcessor {
    pub hpp: hpp::ImplementationProcessor,
    pub cpp: cpp::ImplementationProcessor,
}

impl ImplementationProcessor {
    /// Opening texts of the declaration file and the definition file.
    pub fn process(&self, name: &String, name_lower: &String) -> (r: (String, String))
        ensures
            r.0@ == decl_open_text(name@, name_lower@),
            r.1@ == def_open_text(name@, name_lower@),
    {
        (self.hpp.process(name, name_lower), self.cpp.process(name, name_lower))
    }

    /// Closing texts of the two files.
    pub fn post_process(&self) -> (r: (String, String))
        ensures
            r.0@ == "};\n"@,
            r.1@ == Seq::<char>::empty(),
    {
        (self.hpp.post_process(), self.cpp.post_process())
    }
}

/// Emits the opener and closer of one method in both files, advancing
/// the two buffers in lockstep.
#[derive(Clone, Copy, Debug, Default)]
pub struct FunctionProcessor {
    pub hpp: hpp::FunctionProcessor,
    pub cpp: cpp::FunctionProcessor,
}

impl FunctionProcessor {
    /// Openers of one method in both files; empty for a private method,
    /// `None` when the method's return type has no mapping rule.
    pub fn process(&self, name: &String, m: &Method) -> (r: Option<(String, String)>)
        ensures
            match r {
                Some(p) => p.0@ == decl_method_open(name@, *m) && p.1@ == def_method_open(
                    name@,
                    *m,
                ),
                None => m.visibility is Public && m.name@ != "new"@ && return_text(m.output)
                    is None,
            },
    {
        match (self.hpp.process(name, m), self.cpp.process(name, m)) {
            (Some(d), Some(s)) => Some((d, s)),
            _ => None,
        }
    }

    /// Closers of one method in both files; empty for a private method.
    pub fn post_process(&self, name: &String, low: &String, m: &Method) -> (r: (String, String))
        ensures
            r.0@ == decl_method_close(*m),
            r.1@ == def_method_close(name@, low@, *m),
    {
        (self.hpp.post_process(m), self.cpp.post_process(name, low, m))
    }
}

/// Emits the parameter lists of one method in both files, advancing the
/// two buffers in lockstep.
#[derive(Clone, Copy, Debug, Default)]
pub struct ParameterProcessor {
    pub hpp: hpp::ParameterProcessor,
    pub cpp: cpp::ParameterProcessor,
}

impl ParameterProcessor {
    /// The parameter-list texts of one method, identical in both files;
    /// `None` when a kept parameter's type has no mapping rule.
    pub fn render_list(&self, low: &String, ps: &Vec<Parameter>) -> (r: Option<(String, String)>)
        ensures
            match r {
                Some(p) => p.0@ == params_text(low@, ps@) && p.1@ == params_text(low@, ps@),
                None => exists|i: int|
                    0 <= i < ps@.len() && ps@[i].name@ != low@ && param_spelling(ps@[i].type_)
                        is None,
            },
    {
        match (self.hpp.render_list(low, ps), self.cpp.render_list(low, ps)) {
            (Some(d), Some(s)) => Some((d, s)),
            _ => None,
        }
    }
}

/// Both file texts of one validated wrapped type, built in one pass over
/// its methods with both buffers advanced in lockstep.
fn emit_texts(name: &String, low: &String, ty: &WrappedType) -> (r: (String, String))
    requires
        first_method_error(low@, ty.methods@, 0) is None,
    ensures
        r.0@ == decl_text_with(name@, low@, ty.methods@),
        r.1@ == def_text_with(name@, low@, ty.methods@),
{
    proof {
        lemma_no_method_error(low@, ty.methods@, 0);
    }
    let imp = ImplementationProcessor { hpp: hpp::ImplementationProcessor, cpp: cpp::ImplementationProcessor };
    let fp = FunctionProcessor { hpp: hpp::FunctionProcessor, cpp: cpp::FunctionProcessor };
    let pp = ParameterProcessor { hpp: hpp::ParameterProcessor, cpp: cpp::ParameterProcessor };
    let (mut d, mut s) = imp.process(name, low);
    let mut k: usize = 0;
    while k < ty.methods.len()
        invariant
            0 <= k <= ty.methods@.len(),
            forall|j: int|
                0 <= j < ty.methods@.len() ==> method_error(low@, ty.methods@, j) is None,
            d@ == decl_open_text(name@, low@) + decl_methods_text(
                name@,
                low@,
                ty.methods@.take(k as int),
            ),
            s@ == def_open_text(name@, low@) + def_methods_text(
                name@,
                low@,
                ty.methods@.take(k as int),
            ),
        decreases ty.methods@.len() - k,
    {
        let m = &ty.methods[k];
        proof {
            assert(ty.methods@.take(k + 1).drop_last() =~= ty.methods@.take(k as int));
            assert(ty.methods@.take(k + 1).last() == ty.methods@[k as int]);
            assert(method_error(low@, ty.methods@, k as int) is None);
        }
        let ghost d_prefix = d@;
        let ghost s_prefix = s@;
        match m.visibility {
            Visibility::Private => {
                proof {
                    assert(d@ =~= decl_open_text(name@, low@) + decl_methods_text(
                        name@,
                        low@,
                        ty.methods@.take(k + 1),
                    ));
                    assert(s@ =~= def_open_text(name@, low@) + def_methods_text(
                        name@,
                        low@,
                        ty.methods@.take(k + 1),
                    ));
                }
            },
            Visibility::Public => {
                let (d_open, s_open) = match fp.process(name, m) {
                    Some(p) => p,
                    None => vstd::pervasive::unreached(),
                };
                let (d_params, s_params) = match pp.render_list(low, &m.parameters) {
                    Some(p) => p,
                    None => vstd::pervasive::unreached(),
                };
                let (d_close, s_close) = fp.post_process(name, low, m);
                d.append(d_open.as_str());
                d.append(d_params.as_str());
                d.append(d_close.as_str());
                s.append(s_open.as_str());
                s.append(s_params.as_str());
                s.append(s_close.as_str());
                proof {
                    assert(d@ =~= d_prefix + decl_method_text(
                        name@,
                        low@,
                        ty.methods@[k as int],
                    ));
                    assert(s@ =~= s_prefix + def_method_text(name@, low@, ty.methods@[k as int]));
                    assert(d@ =~= decl_open_text(name@, low@) + decl_methods_text(
                        name@,
                        low@,
                        ty.methods@.take(k + 1),
                    ));
                    assert(s@ =~= def_open_text(name@, low@) + def_methods_text(
                        name@,
                        low@,
                        ty.methods@.take(k + 1),
                    ));
                }
            },
        }
        k = k + 1;
    }
    let (d_end, s_end) = imp.post_process();
    d.append(d_end.as_str());
    s.append(s_end.as_str());
    proof {
        assert(ty.methods@.take(ty.methods@.len() as int) =~= ty.methods@);
        assert(d@ =~= decl_text_with(name@, low@, ty.methods@));
        assert(s@ =~= def_text_with(name@, low@, ty.methods@));
    }
    (d, s)
}

/// Validates one wrapped type and, when it is sound, appends its two
/// output files — the declaration first — to the buffer set; a refused
/// type leaves the buffer set untouched.
pub fn generate_type(fs: &mut FileSet, ty: &WrappedType) -> (r: Result<(), GenError>)
    ensures
        match r {
            Ok(()) => type_error(*ty) is None && fs_contents(*final (fs)) == appended(
                appended(fs_contents(*old(fs)), decl_path_text(ty.name@), decl_text(*ty)),
                def_path_text(ty.name@),
                def_text(*ty),
            ),
            Err(e) => type_error(*ty) == Some(e) && fs_contents(*final (fs)) == fs_contents(
                *old(fs),
            ),
        },
{
    match validate(ty) {
        Err(e) => Err(e),
        Ok(()) => {
            let low = lowercase(ty.name.as_str());
            let (d, s) = emit_texts(&ty.name, &low, ty);
            let d_path = hpp::path(&ty.name);
            let s_path = cpp::path(&ty.name);
            proof {
                lemma_decl_path_wf(ty.name@);
                lemma_def_path_wf(ty.name@);
            }
            fs_write(fs, d_path.as_str(), d.as_str());
            fs_write(fs, s_path.as_str(), s.as_str());
            Ok(())
        },
    }
}

/// An earlier wrapped type of the run bears the same name as type `k`.
pub open spec fn dup_type_before(ts: Seq<WrappedType>, k: int) -> bool {
    exists|i: int| 0 <= i < k && (#[trigger] ts[i]).name@ == ts[k].name@
}

/// The error reported for type `k` of a run: a name collision with an
/// earlier type of the run first, then the type's own validation error.
pub open spec fn run_error(ts: Seq<WrappedType>, k: int) -> Option<GenError> {
    if dup_type_before(ts, k) {
        Some(GenError::DuplicateWrappedType)
    } else {
        type_error(ts[k])
    }
}

/// The buffer map after generating the first `k` types of a run on top
/// of `m`: each sound type appends its two files, a refused one nothing.
pub open spec fn run_contents(
    m: Map<Seq<char>, Seq<char>>,
    ts: Seq<WrappedType>,
    k: int,
) -> Map<Seq<char>, Seq<char>>
    decreases k,
{
    if k <= 0 {
        m
    } else {
        let prev = run_contents(m, ts, k - 1);
        if run_error(ts, k - 1) is None {
            appended(
                appended(prev, decl_path_text(ts[k - 1].name@), decl_text(ts[k - 1])),
                def_path_text(ts[k - 1].name@),
                def_text(ts[k - 1]),
            )
        } else {
            prev
        }
    }
}

/// The refused types among the first `k` of a run, each with its error,
/// in run order.
pub open spec fn run_failures(ts: Seq<WrappedType>, k: int) -> Seq<(Seq<char>, GenError)>
    decreases k,
{
    if k <= 0 {
        Seq::empty()
    } else {
        let prev = run_failures(ts, k - 1);
        match run_error(ts, k - 1) {
            Some(e) => prev.push((ts[k - 1].name@, e)),
            None => prev,
        }
    }
}

/// Views of a reported failure list.
pub open spec fn failure_views(r: Seq<(String, GenError)>) -> Seq<(Seq<char>, GenError)> {
    r.map_values(|p: (String, GenError)| (p.0@, p.1))
}

/// Generates every wrapped type of a run into the buffer set, two files
/// per sound type. Failures stay local to their type: the other types
/// are still generated, and the returned report lists each refused
/// type's name with its error.
pub fn generate(fs: &mut FileSet, types: &Vec<WrappedType>) -> (r: Vec<(String, GenError)>)
    ensures
        fs_contents(*final (fs)) == run_contents(
            fs_contents(*old(fs)),
            types@,
            types@.len() as int,
        ),
        failure_views(r@) == run_failures(types@, types@.len() as int),
{
    let mut failures: Vec<(String, GenError)> = Vec::new();
    let mut k: usize = 0;
    while k < types.len()
        invariant
            0 <= k <= types@.len(),
            fs_contents(*fs) == run_contents(fs_contents(*old(fs)), types@, k as int),
            failure_views(failures@) == run_failures(types@, k as int),
        decreases types@.len() - k,
    {
        let ghost old_failures = failures@;
        let mut dup = false;
        let mut i: usize = 0;
        while i < k
            invariant
                0 <= i <= k < types@.len(),
                dup <==> exists|x: int|
                    0 <= x < i && (#[trigger] types@[x]).name@ == types@[k as int].name@,
            decreases k - i,
        {
            if types[i].name == types[k].name {
                dup = true;
            }
            i = i + 1;
        }
        if dup {
            failures.push((types[k].name.clone(), GenError::DuplicateWrappedType));
            proof {
                assert(failure_views(failures@) =~= failure_views(old_failures).push(
                    (types@[k as int].name@, GenError::DuplicateWrappedType),
                ));
            }
        } else {
            match generate_type(fs, &types[k]) {
                Ok(()) => {},
                Err(e) => {
                    failures.push((types[k].name.clone(), e));
                    proof {
                        assert(failure_views(failures@) =~= failure_views(old_failures).push(
                            (types@[k as int].name@, e),
                        ));
                    }
                },
            }
        }
        k = k + 1;
    }
    failures
}

} // verus!
