use ligen_cpp::mapper::{map_parameter, map_return};
use ligen_cpp::ir::IrType;

fn prim(name: &str) -> IrType {
    IrType::Primitive { name: name.to_string() }
}

fn comp(name: &str, pointer: bool) -> IrType {
    IrType::Compound { name: name.to_string(), pointer }
}

#[test]
fn primitive_parameter_spellings() {
    let cases = [
        ("bool", "bool"),
        ("char", "char"),
        ("i8", "int8_t"),
        ("i16", "int16_t"),
        ("i32", "int32_t"),
        ("i64", "int64_t"),
        ("u8", "uint8_t"),
        ("u16", "uint16_t"),
        ("u32", "uint32_t"),
        ("u64", "uint64_t"),
        ("f32", "float"),
        ("f64", "double"),
    ];
    for (name, spelled) in cases {
        assert_eq!(map_parameter(&prim(name)), Some(spelled.to_string()));
    }
}

#[test]
fn unsupported_primitive_has_no_spelling() {
    assert_eq!(map_parameter(&prim("usize")), None);
    assert_eq!(map_parameter(&prim("i128")), None);
    assert_eq!(map_return(&Some(prim("isize"))), None);
}

#[test]
fn pointer_stripped_in_parameter_position() {
    assert_eq!(map_parameter(&comp("Rect", true)), Some("Rect".to_string()));
    assert_eq!(map_parameter(&comp("Rect", false)), Some("Rect".to_string()));
}

#[test]
fn return_spellings() {
    assert_eq!(map_return(&None), Some("void ".to_string()));
    assert_eq!(map_return(&Some(prim("i32"))), Some("int32_t ".to_string()));
    assert_eq!(map_return(&Some(comp("Rect", false))), Some("Rect ".to_string()));
    assert_eq!(map_return(&Some(comp("Rect", true))), Some("Rect* ".to_string()));
}

#[test]
fn owned_string_renames_in_return_position_only() {
    assert_eq!(map_return(&Some(comp("String", false))), Some("RString ".to_string()));
    assert_eq!(map_return(&Some(comp("String", true))), Some("RString ".to_string()));
    assert_eq!(map_parameter(&comp("String", false)), Some("String".to_string()));
}
