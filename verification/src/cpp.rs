//! The definition emitter: produces the definition-file text for one
//! wrapped type — destructor and converting-constructor bodies, and one
//! forwarding definition per public method, each calling the
//! conventionally named C free function.

use vstd::prelude::*;
use vstd::string::StringExecFns;
use crate::ir::{IrType, Method, Parameter, Visibility};
use crate::mapper::{map_return, param_spelling, return_text, text_or_empty};
use crate::params::{args_text, param_decl_text, params_text, render_argument_list,
    render_parameter_list};

verus! {

/// Path of the definition file of the wrapped type named `n`.
pub open spec fn def_path_text(n: Seq<char>) -> Seq<char> {
    "src/"@ + n + ".cpp"@
}

/// The line referring to the matching declaration file by name.
pub open spec fn decl_ref_line(n: Seq<char>) -> Seq<char> {
    "#in"@ + "clude <"@ + n + ".hpp>\n"@
}

/// Opening text of the definition file: the reference to the matching
/// declaration file, the destructor body calling the conventional drop
/// function, and the converting-constructor body copying the underlying
/// handle field.
pub open spec fn def_open_text(n: Seq<char>, low: Seq<char>) -> Seq<char> {
    "#in"@ + "clude <"@ + n + ".hpp>\n\n"@ + n + "::~"@ + n + "() {\n\t"@ + n
        + "_drop(*this);\n}\n"@ + n + "::"@ + n + "(C"@ + n + " "@ + low + ") {\n\tself = "@
        + low + ".self;\n}\n"@
}

/// Opener of one method's definition: the qualified constructor name for
/// the designated constructor `new`, otherwise the return-type text and
/// the qualified method name; then the opening parenthesis. Empty for a
/// private method.
pub open spec fn def_method_open(n: Seq<char>, m: Method) -> Seq<char> {
    if m.visibility is Private {
        Seq::empty()
    } else if m.name@ == "new"@ {
        n + "::"@ + n + "("@
    } else {
        text_or_empty(return_text(m.output)) + n + "::"@ + m.name@ + "("@
    }
}

/// The `return ` prefix of a forwarding body, present exactly when the
/// method declares an output.
pub open spec fn return_kw(out: Option<IrType>) -> Seq<char> {
    match out {
        Some(_) => "return "@,
        None => Seq::empty(),
    }
}

/// Closer of one method's definition: for the designated constructor, a
/// member-initializer list delegating to the converting constructor with
/// the C-level constructor's result; otherwise the forwarding body.
/// Empty for a private method.
pub open spec fn def_method_close(n: Seq<char>, low: Seq<char>, m: Method) -> Seq<char> {
    if m.visibility is Private {
        Seq::empty()
    } else if m.name@ == "new"@ {
        ") : "@ + n + "("@ + n + "_"@ + m.name@ + "("@ + args_text(low, m.parameters@)
            + ")) {\n}\n"@
    } else {
        ") {\n\t"@ + return_kw(m.output) + n + "_"@ + m.name@ + "("@ + args_text(
            low,
            m.parameters@,
        ) + ");\n}\n"@
    }
}

/// Whole definition of one method; empty for a private method.
pub open spec fn def_method_text(n: Seq<char>, low: Seq<char>, m: Method) -> Seq<char> {
    if m.visibility is Private {
        Seq::empty()
    } else {
        def_method_open(n, m) + params_text(low, m.parameters@) + def_method_close(n, low, m)
    }
}

/// Definitions of a method sequence, in declaration order.
pub open spec fn def_methods_text(n: Seq<char>, low: Seq<char>, ms: Seq<Method>) -> Seq<char>
    decreases ms.len(),
{
    if ms.len() == 0 {
        Seq::empty()
    } else {
        def_methods_text(n, low, ms.drop_last()) + def_method_text(n, low, ms.last())
    }
}

/// Whole definition-file text of a wrapped type named `n`, with `low`
/// its lowercased name and `ms` its methods.
pub open spec fn def_text_with(n: Seq<char>, low: Seq<char>, ms: Seq<Method>) -> Seq<char> {
    def_open_text(n, low) + def_methods_text(n, low, ms)
}

/// Path of the definition file of the wrapped type named `name`.
pub fn path(name: &String) -> (r: String)
    ensures
        r@ == def_path_text(name@),
{
    let mut s = String::from_str("src/");
    s.append(name.as_str());
    s.append(".cpp");
    s
}

/// Emits the fixed opening of the definition file. Nothing closes it.
#[derive(Clone, Copy, Debug, Default)]
pub struct ImplementationProcessor;

impl ImplementationProcessor {
    /// Opening text of the definition file for one wrapped type.
    pub fn process(&self, name: &String, name_lower: &String) -> (r: String)
        ensures
            r@ == def_open_text(name@, name_lower@),
    {
        let mut s = String::from_str("#in");
        s.append("clude <");
        s.append(name.as_str());
        s.append(".hpp>\n\n");
        s.append(name.as_str());
        s.append("::~");
        s.append(name.as_str());
        s.append("() {\n\t");
        s.append(name.as_str());
        s.append("_drop(*this);\n}\n");
        s.append(name.as_str());
        s.append("::");
        s.append(name.as_str());
        s.append("(C");
        s.append(name.as_str());
        s.append(" ");
        s.append(name_lower.as_str());
        s.append(") {\n\tself = ");
        s.append(name_lower.as_str());
        s.append(".self;\n}\n");
        s
    }

    /// The definition file needs no closing text.
    pub fn post_process(&self) -> (r: String)
        ensures
            r@ == Seq::<char>::empty(),
    {
        String::new()
    }
}

/// Emits the opener and closer of one method's definition.
#[derive(Clone, Copy, Debug, Default)]
pub struct FunctionProcessor;

impl FunctionProcessor {
    /// The qualified name under which a method is defined.
    pub fn generate_function_name(&self, name: &String, m: &Method) -> (r: String)
        ensures
            r@ == name@ + "::"@ + m.name@,
    {
        let mut s = name.clone();
        s.append("::");
        s.append(m.name.as_str());
        s
    }

    /// Return-type text of a method output; `None` when no mapping rule
    /// covers it.
    pub fn generate_function_output(&self, output: &Option<IrType>) -> (r: Option<String>)
        ensures
            match r {
                Some(s) => return_text(*output) == Some(s@),
                None => return_text(*output) is None,
            },
    {
        map_return(output)
    }

    /// Opener of one method's definition; empty for a private method,
    /// `None` when the method's return type has no mapping rule.
    pub fn process(&self, name: &String, m: &Method) -> (r: Option<String>)
        ensures
            match r {
                Some(s) => s@ == def_method_open(name@, *m),
                None => m.visibility is Public && m.name@ != "new"@ && return_text(m.output)
                    is None,
            },
    {
        match m.visibility {
            Visibility::Private => Some(String::new()),
            Visibility::Public => {
                if m.name == String::from_str("new") {
                    let mut s = name.clone();
                    s.append("::");
                    s.append(name.as_str());
                    s.append("(");
                    Some(s)
                } else {
                    match self.generate_function_output(&m.output) {
                        None => None,
                        Some(out) => {
                            let mut s = out;
                            let qualified = self.generate_function_name(name, m);
                            s.append(qualified.as_str());
                            s.append("(");
                            proof {
                                assert(s@ =~= def_method_open(name@, *m));
                            }
                            Some(s)
                        },
                    }
                }
            },
        }
    }

    /// Closer of one method's definition: the forwarding call to the
    /// conventional C free function, with the receiver argument rewritten
    /// to the current instance; empty for a private method.
    pub fn post_process(&self, name: &String, low: &String, m: &Method) -> (r: String)
        ensures
            r@ == def_method_close(name@, low@, *m),
    {
        match m.visibility {
            Visibility::Private => String::new(),
            Visibility::Public => {
                let args = render_argument_list(low, &m.parameters);
                if m.name == String::from_str("new") {
                    let mut s = String::from_str(") : ");
                    s.append(name.as_str());
                    s.append("(");
                    s.append(name.as_str());
                    s.append("_");
                    s.append(m.name.as_str());
                    s.append("(");
                    s.append(args.as_str());
                    s.append(")) {\n}\n");
                    s
                } else {
                    let mut s = String::from_str(") {\n\t");
                    if m.output.is_some() {
                        s.append("return ");
                    }
                    s.append(name.as_str());
                    s.append("_");
                    s.append(m.name.as_str());
                    s.append("(");
                    s.append(args.as_str());
                    s.append(");\n}\n");
                    proof {
                        assert(s@ =~= def_method_close(name@, low@, *m));
                    }
                    s
                }
            },
        }
    }
}

/// Emits the parameter-list fragments of a method definition.
#[derive(Clone, Copy, Debug, Default)]
pub struct ParameterProcessor;

impl ParameterProcessor {
    /// Text one parameter contributes to the defined parameter list:
    /// its mapped type and its name. `None` for the receiver parameter,
    /// whose name equals `low`, and for a type with no mapping rule.
    pub fn process(&self, low: &String, p: &Parameter) -> (r: Option<String>)
        ensures
            match r {
                Some(s) => p.name@ != low@ && s@ == param_decl_text(*p),
                None => p.name@ == low@ || param_spelling(p.type_) is None,
            },
    {
        if p.name == *low {
            None
        } else {
            match crate::mapper::map_parameter(&p.type_) {
                None => None,
                Some(spelled) => {
                    let mut s = spelled;
                    s.append(" ");
                    s.append(p.name.as_str());
                    Some(s)
                },
            }
        }
    }

    /// Whole defined parameter list of a method, separators placed
    /// between kept parameters; `None` when a kept parameter's type has
    /// no mapping rule.
    pub fn render_list(&self, low: &String, ps: &Vec<Parameter>) -> (r: Option<String>)
        ensures
            match r {
                Some(s) => s@ == params_text(low@, ps@),
                None => exists|i: int|
                    0 <= i < ps@.len() && ps@[i].name@ != low@ && param_spelling(ps@[i].type_)
                        is None,
            },
    {
        render_parameter_list(low, ps)
    }
}

} // verus!
