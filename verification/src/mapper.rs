//! The type mapper: spells an interface-representation type in the target
//! language. Primitives map to fixed-width C spellings; a compound type
//! named `String` renames to the reference-counted string type in return
//! position; a pointer to a compound type is presented as a plain value in
//! parameter position.

use vstd::prelude::*;
use vstd::string::StringExecFns;
use crate::ir::IrType;

verus! {

/// Target spelling of a primitive type name, or `None` when no mapping
/// rule covers the name.
pub open spec fn primitive_spelling(name: Seq<char>) -> Option<Seq<char>> {
    if name == "bool"@ {
        Some("bool"@)
    } else if name == "char"@ {
        Some("char"@)
    } else if name == "i8"@ {
        Some("int8_t"@)
    } else if name == "i16"@ {
        Some("int16_t"@)
    } else if name == "i32"@ {
        Some("int32_t"@)
    } else if name == "i64"@ {
        Some("int64_t"@)
    } else if name == "u8"@ {
        Some("uint8_t"@)
    } else if name == "u16"@ {
        Some("uint16_t"@)
    } else if name == "u32"@ {
        Some("uint32_t"@)
    } else if name == "u64"@ {
        Some("uint64_t"@)
    } else if name == "f32"@ {
        Some("float"@)
    } else if name == "f64"@ {
        Some("double"@)
    } else {
        None
    }
}

/// A type the mapper covers: every compound type, and every primitive
/// with a spelling rule.
pub open spec fn type_supported(t: IrType) -> bool {
    match t {
        IrType::Primitive { name } => primitive_spelling(name@) is Some,
        IrType::Compound { .. } => true,
    }
}

/// Spelling of a type in parameter position: a pointer to a compound type
/// is stripped to the plain value, so every compound spells as its name.
pub open spec fn param_spelling(t: IrType) -> Option<Seq<char>> {
    match t {
        IrType::Primitive { name } => primitive_spelling(name@),
        IrType::Compound { name, pointer: _ } => Some(name@),
    }
}

/// Spelling of a type in return position: the compound type `String`
/// renames to `RString`; other compounds keep their name, with a `*` when
/// reached through a pointer.
pub open spec fn return_spelling(t: IrType) -> Option<Seq<char>> {
    match t {
        IrType::Primitive { name } => primitive_spelling(name@),
        IrType::Compound { name, pointer } => if name@ == "String"@ {
            Some("RString"@)
        } else if pointer {
            Some(name@ + "*"@)
        } else {
            Some(name@)
        },
    }
}

/// Return-type text placed before a method name: the spelling followed by
/// one separating space, or `void ` when the method returns nothing.
pub open spec fn return_text(out: Option<IrType>) -> Option<Seq<char>> {
    match out {
        None => Some("void "@),
        Some(t) => match return_spelling(t) {
            Some(s) => Some(s + " "@),
            None => None,
        },
    }
}

/// The carried text of an optional spelling, empty when there is none.
pub open spec fn text_or_empty(o: Option<Seq<char>>) -> Seq<char> {
    match o {
        Some(s) => s,
        None => Seq::empty(),
    }
}

/// Equality of a string against a literal.
fn eq_lit(name: &String, lit: &str) -> (r: bool)
    ensures
        r == (name@ == lit@),
{
    let other = String::from_str(lit);
    *name == other
}

/// Target spelling of a primitive type name, or `None` when no mapping
/// rule covers it.
pub fn spell_primitive(name: &String) -> (r: Option<String>)
    ensures
        match r {
            Some(s) => primitive_spelling(name@) == Some(s@),
            None => primitive_spelling(name@) is None,
        },
{
    if eq_lit(name, "bool") {
        Some(String::from_str("bool"))
    } else if eq_lit(name, "char") {
        Some(String::from_str("char"))
    } else if eq_lit(name, "i8") {
        Some(String::from_str("int8_t"))
    } else if eq_lit(name, "i16") {
        Some(String::from_str("int16_t"))
    } else if eq_lit(name, "i32") {
        Some(String::from_str("int32_t"))
    } else if eq_lit(name, "i64") {
        Some(String::from_str("int64_t"))
    } else if eq_lit(name, "u8") {
        Some(String::from_str("uint8_t"))
    } else if eq_lit(name, "u16") {
        Some(String::from_str("uint16_t"))
    } else if eq_lit(name, "u32") {
        Some(String::from_str("uint32_t"))
    } else if eq_lit(name, "u64") {
        Some(String::from_str("uint64_t"))
    } else if eq_lit(name, "f32") {
        Some(String::from_str("float"))
    } else if eq_lit(name, "f64") {
        Some(String::from_str("double"))
    } else {
        None
    }
}

/// Maps a type in parameter position: strips the pointer from a pointer
/// to a compound type, otherwise spells the type unchanged. `None` when
/// no rule covers a primitive name.
pub fn map_parameter(t: &IrType) -> (r: Option<String>)
    ensures
        match r {
            Some(s) => param_spelling(*t) == Some(s@),
            None => param_spelling(*t) is None,
        },
{
    match t {
        IrType::Primitive { name } => spell_primitive(name),
        IrType::Compound { name, pointer: _ } => Some(name.clone()),
    }
}

/// Maps a method output in return position: `void ` when absent, the
/// renamed string type for the compound `String`, otherwise the default
/// spelling; always with one trailing separator space. `None` when no
/// rule covers a primitive name.
pub fn map_return(out: &Option<IrType>) -> (r: Option<String>)
    ensures
        match r {
            Some(s) => return_text(*out) == Some(s@),
            None => return_text(*out) is None,
        },
{
    match out {
        None => Some(String::from_str("void ")),
        Some(t) => match t {
            IrType::Primitive { name } => match spell_primitive(name) {
                None => None,
                Some(mut s) => {
                    s.append(" ");
                    Some(s)
                },
            },
            IrType::Compound { name, pointer } => {
                if eq_lit(name, "String") {
                    let mut s = String::from_str("RString");
                    s.append(" ");
                    Some(s)
                } else {
                    let mut s = name.clone();
                    if *pointer {
                        s.append("*");
                    }
                    s.append(" ");
                    Some(s)
                }
            },
        },
    }
}

} // verus!
