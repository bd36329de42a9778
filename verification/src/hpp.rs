//! The declaration emitter: produces the declaration-file text for one
//! wrapped type — preamble, class opening, destructor and converting
//! constructor, one declaration line per public method, class closing.

use vstd::prelude::*;
use vstd::string::StringExecFns;
use crate::ir::{IrType, Method, Parameter, Visibility};
use crate::mapper::{map_return, param_spelling, return_text, text_or_empty};
use crate::params::{param_decl_text, params_text, render_parameter_list};

verus! {

/// Path of the declaration file of the wrapped type named `n`.
pub open spec fn decl_path_text(n: Seq<char>) -> Seq<char> {
    "in"@ + "clude/"@ + n + ".hpp"@
}

/// Opening text of the declaration file: the preamble aliasing the
/// wrapper class name to the underlying C struct name, the class opening,
/// and the destructor and converting-constructor declarations.
pub open spec fn decl_open_text(n: Seq<char>, low: Seq<char>) -> Seq<char> {
    "#pragma once\n\n#in"@ + "clude <RString.hpp>\n#in"@ + "clude <stdint.h>\n#define "@ + n
        + " C"@ + n + "\n#in"@ + "clude <"@ + n + ".h>\n#undef "@ + n + "\n\nclass "@ + n
        + ": public C"@ + n + " {\npublic:\n\t~"@ + n + "();\n\t"@ + n + "(C"@ + n + " "@ + low
        + ");\n"@
}

/// Opener of one method's declaration line: tab, then the class name for
/// the designated constructor `new`, otherwise the return-type text and
/// the method name; then the opening parenthesis. Empty for a private
/// method.
pub open spec fn decl_method_open(n: Seq<char>, m: Method) -> Seq<char> {
    if m.visibility is Private {
        Seq::empty()
    } else if m.name@ == "new"@ {
        "\t"@ + n + "("@
    } else {
        "\t"@ + text_or_empty(return_text(m.output)) + m.name@ + "("@
    }
}

/// Closer of one method's declaration line. Empty for a private method.
pub open spec fn decl_method_close(m: Method) -> Seq<char> {
    if m.visibility is Private {
        Seq::empty()
    } else {
        ");\n"@
    }
}

/// Whole declaration line of one method; empty for a private method.
pub open spec fn decl_method_text(n: Seq<char>, low: Seq<char>, m: Method) -> Seq<char> {
    if m.visibility is Private {
        Seq::empty()
    } else {
        decl_method_open(n, m) + params_text(low, m.parameters@) + decl_method_close(m)
    }
}

/// Declaration lines of a method sequence, in declaration order.
pub open spec fn decl_methods_text(n: Seq<char>, low: Seq<char>, ms: Seq<Method>) -> Seq<char>
    decreases ms.len(),
{
    if ms.len() == 0 {
        Seq::empty()
    } else {
        decl_methods_text(n, low, ms.drop_last()) + decl_method_text(n, low, ms.last())
    }
}

/// Whole declaration-file text of a wrapped type named `n`, with `low`
/// its lowercased name and `ms` its methods.
pub open spec fn decl_text_with(n: Seq<char>, low: Seq<char>, ms: Seq<Method>) -> Seq<char> {
    decl_open_text(n, low) + decl_methods_text(n, low, ms) + "};\n"@
}

/// Path of the declaration file of the wrapped type named `name`.
pub fn path(name: &String) -> (r: String)
    ensures
        r@ == decl_path_text(name@),
{
    let mut s = String::from_str("in");
    s.append("clude/");
    s.append(name.as_str());
    s.append(".hpp");
    s
}

/// Emits the fixed opening and closing of the declaration file.
#[derive(Clone, Copy, Debug, Default)]
pub struct ImplementationProcessor;

impl ImplementationProcessor {
    /// Opening text of the declaration file for one wrapped type.
    pub fn process(&self, name: &String, name_lower: &String) -> (r: String)
        ensures
            r@ == decl_open_text(name@, name_lower@),
    {
        let mut s = String::from_str("#pragma once\n\n#in");
        s.append("clude <RString.hpp>\n#in");
        s.append("clude <stdint.h>\n#define ");
        s.append(name.as_str());
        s.append(" C");
        s.append(name.as_str());
        s.append("\n#in");
        s.append("clude <");
        s.append(name.as_str());
        s.append(".h>\n#undef ");
        s.append(name.as_str());
        s.append("\n\nclass ");
        s.append(name.as_str());
        s.append(": public C");
        s.append(name.as_str());
        s.append(" {\npublic:\n\t~");
        s.append(name.as_str());
        s.append("();\n\t");
        s.append(name.as_str());
        s.append("(C");
        s.append(name.as_str());
        s.append(" ");
        s.append(name_lower.as_str());
        s.append(");\n");
        s
    }

    /// Closing text of the declaration file: the end of the class body.
    pub fn post_process(&self) -> (r: String)
        ensures
            r@ == "};\n"@,
    {
        String::from_str("};\n")
    }
}

/// Emits the opener and closer of one method's declaration line.
#[derive(Clone, Copy, Debug, Default)]
pub struct FunctionProcessor;

impl FunctionProcessor {
    /// The name under which a method is declared in the class body.
    pub fn generate_function_name(&self, m: &Method) -> (r: String)
        ensures
            r@ == m.name@,
    {
        m.name.clone()
    }

    /// Return-type text of a method output; `None` when no mapping rule
    /// covers it.
    pub fn generate_function_output(&self, output: &Option<IrType>) -> (r: Option<String>)
        ensures
            match r {
                Some(s) => return_text(*output) == Some(s@),
                None => return_text(*output) is None,
            },
    {
        map_return(output)
    }

    /// Opener of one method's declaration line; empty for a private
    /// method, `None` when the method's return type has no mapping rule.
    pub fn process(&self, name: &String, m: &Method) -> (r: Option<String>)
        ensures
            match r {
                Some(s) => s@ == decl_method_open(name@, *m),
                None => m.visibility is Public && m.name@ != "new"@ && return_text(m.output)
                    is None,
            },
    {
        match m.visibility {
            Visibility::Private => Some(String::new()),
            Visibility::Public => {
                if m.name == String::from_str("new") {
                    let mut s = String::from_str("\t");
                    s.append(name.as_str());
                    s.append("(");
                    Some(s)
                } else {
                    match self.generate_function_output(&m.output) {
                        None => None,
                        Some(out) => {
                            let mut s = String::from_str("\t");
                            s.append(out.as_str());
                            let fname = self.generate_function_name(m);
                            s.append(fname.as_str());
                            s.append("(");
                            Some(s)
                        },
                    }
                }
            },
        }
    }

    /// Closer of one method's declaration line; empty for a private
    /// method.
    pub fn post_process(&self, m: &Method) -> (r: String)
        ensures
            r@ == decl_method_close(*m),
    {
        match m.visibility {
            Visibility::Private => String::new(),
            Visibility::Public => String::from_str(");\n"),
        }
    }
}

/// Emits the parameter-list fragments of a method declaration.
#[derive(Clone, Copy, Debug, Default)]
pub struct ParameterProcessor;

impl ParameterProcessor {
    /// Text one parameter contributes to the declared parameter list:
    /// its mapped type and its name. `None` for the receiver parameter,
    /// whose name equals `low`, and for a type with no mapping rule.
    pub fn process(&self, low: &String, p: &Parameter) -> (r: Option<String>)
        ensures
            match r {
                Some(s) => p.name@ != low@ && s@ == param_decl_text(*p),
                None => p.name@ == low@ || param_spelling(p.type_) is None,
            },
    {
        if p.name == *low {
            None
        } else {
            match crate::mapper::map_parameter(&p.type_) {
                None => None,
                Some(spelled) => {
                    let mut s = spelled;
                    s.append(" ");
                    s.append(p.name.as_str());
                    Some(s)
                },
            }
        }
    }

    /// Whole declared parameter list of a method, separators placed
    /// between kept parameters; `None` when a kept parameter's type has
    /// no mapping rule.
    pub fn render_list(&self, low: &String, ps: &Vec<Parameter>) -> (r: Option<String>)
        ensures
            match r {
                Some(s) => s@ == params_text(low@, ps@),
                None => exists|i: int|
                    0 <= i < ps@.len() && ps@[i].name@ != low@ && param_spelling(ps@[i].type_)
                        is None,
            },
    {
        render_parameter_list(low, ps)
    }
}

} // verus!
