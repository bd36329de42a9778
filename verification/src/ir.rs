//! The interface representation this crate consumes: a wrapped type with
//! its methods, each method with its parameters and optional output type.

use vstd::prelude::*;

verus! {

/// Whether a method belongs to the wrapped type's public surface.
/// Only public methods contribute text to the generated files.
#[derive(Clone, Copy, Debug, PartialEq, Eq, Structural)]
pub enum Visibility {
    Public,
    Private,
}

/// A type as the interface representation spells it: a primitive carries
/// its source-language name (such as `i32`), a compound carries the name
/// of a user-defined type and whether it is reached through a pointer.
#[derive(Clone, Debug)]
pub enum IrType {
    Primitive { name: String },
    Compound { name: String, pointer: bool },
}

/// One method parameter: its name and its type. A parameter is the
/// receiver of its method exactly when its name equals the lowercased
/// name of the owning wrapped type.
#[derive(Clone, Debug)]
pub struct Parameter {
    pub name: String,
    pub type_: IrType,
}

/// One method of the wrapped type, in declaration order. A method named
/// `new` is the designated constructor. `output` is absent for a method
/// that returns nothing.
#[derive(Clone, Debug)]
pub struct Method {
    pub name: String,
    pub visibility: Visibility,
    pub parameters: Vec<Parameter>,
    pub output: Option<IrType>,
}

/// The struct being wrapped: its name and its methods in declaration
/// order. One pair of output files is produced per wrapped type.
#[derive(Clone, Debug)]
pub struct WrappedType {
    pub name: String,
    pub methods: Vec<Method>,
}

} // verus!
