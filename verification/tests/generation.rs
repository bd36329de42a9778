use ligen::generator::file_generator::FileSet;
use ligen_cpp::files::{generate, generate_type, validate, GenError};
use ligen_cpp::ir::{IrType, Method, Parameter, Visibility, WrappedType};

fn prim(name: &str) -> IrType {
    IrType::Primitive { name: name.to_string() }
}

fn comp(name: &str, pointer: bool) -> IrType {
    IrType::Compound { name: name.to_string(), pointer }
}

fn param(name: &str, type_: IrType) -> Parameter {
    Parameter { name: name.to_string(), type_ }
}

fn method(name: &str, visibility: Visibility, parameters: Vec<Parameter>, output: Option<IrType>) -> Method {
    Method { name: name.to_string(), visibility, parameters, output }
}

fn point_type() -> WrappedType {
    WrappedType {
        name: "Point".to_string(),
        methods: vec![
            method(
                "new",
                Visibility::Public,
                vec![param("x", prim("i32")), param("y", prim("i32"))],
                Some(comp("Point", false)),
            ),
            method(
                "get_x",
                Visibility::Public,
                vec![param("point", comp("Point", false))],
                Some(prim("i32")),
            ),
        ],
    }
}

fn decl_path(name: &str) -> String {
    format!("{}clude/{}.hpp", "in", name)
}

fn def_path(name: &str) -> String {
    format!("src/{}.cpp", name)
}

#[test]
fn point_end_to_end() {
    let mut fs = FileSet::new();
    let ty = point_type();
    assert!(generate_type(&mut fs, &ty).is_ok());
    let decl = fs.entry(decl_path("Point")).to_string();
    let def = fs.entry(def_path("Point")).to_string();
    let expected_decl = format!(
        "#pragma once\n\n{i}clude <RString.hpp>\n{i}clude <stdint.h>\n#define Point CPoint\n{i}clude <Point.h>\n#undef Point\n\nclass Point: public CPoint {{\npublic:\n\t~Point();\n\tPoint(CPoint point);\n\tPoint(int32_t x, int32_t y);\n\tint32_t get_x();\n}};\n",
        i = "#in"
    );
    let expected_def = format!(
        "{i}clude <Point.hpp>\n\nPoint::~Point() {{\n\tPoint_drop(*this);\n}}\nPoint::Point(CPoint point) {{\n\tself = point.self;\n}}\nPoint::Point(int32_t x, int32_t y) : Point(Point_new(x, y)) {{\n}}\nint32_t Point::get_x() {{\n\treturn Point_get_x(*this);\n}}\n",
        i = "#in"
    );
    assert_eq!(decl, expected_decl);
    assert_eq!(def, expected_def);
    assert!(decl.contains("Point("));
    assert!(decl.contains("int32_t get_x("));
    assert!(def.contains("Point_new(x, y)"));
    assert!(def.contains("return Point_get_x(*this);"));
}

#[test]
fn string_return_renames_in_both_files() {
    let mut fs = FileSet::new();
    let ty = WrappedType {
        name: "Point".to_string(),
        methods: vec![method(
            "to_string",
            Visibility::Public,
            vec![param("point", comp("Point", false))],
            Some(comp("String", false)),
        )],
    };
    assert!(generate_type(&mut fs, &ty).is_ok());
    let decl = fs.entry(decl_path("Point")).to_string();
    let def = fs.entry(def_path("Point")).to_string();
    assert!(decl.contains("\tRString to_string();\n"));
    assert!(def.contains("RString Point::to_string() {\n\treturn Point_to_string(*this);\n}\n"));
    assert!(!decl.contains("String to_string(") || decl.contains("RString to_string("));
    assert!(!def.contains("\nString Point::to_string("));
}

#[test]
fn private_method_contributes_nothing() {
    let mut fs_with = FileSet::new();
    let with_private = WrappedType {
        name: "Rect".to_string(),
        methods: vec![method(
            "area",
            Visibility::Private,
            vec![param("rect", comp("Rect", false))],
            Some(prim("i32")),
        )],
    };
    assert!(generate_type(&mut fs_with, &with_private).is_ok());
    let mut fs_without = FileSet::new();
    let without = WrappedType { name: "Rect".to_string(), methods: vec![] };
    assert!(generate_type(&mut fs_without, &without).is_ok());
    assert_eq!(
        fs_with.entry(decl_path("Rect")).to_string(),
        fs_without.entry(decl_path("Rect")).to_string()
    );
    assert_eq!(
        fs_with.entry(def_path("Rect")).to_string(),
        fs_without.entry(def_path("Rect")).to_string()
    );
}

#[test]
fn pointer_to_compound_parameter_passed_as_value() {
    let mut fs = FileSet::new();
    let ty = WrappedType {
        name: "Rect".to_string(),
        methods: vec![method(
            "contains",
            Visibility::Public,
            vec![param("rect", comp("Rect", false)), param("other", comp("Rect", true))],
            Some(prim("bool")),
        )],
    };
    assert!(generate_type(&mut fs, &ty).is_ok());
    let decl = fs.entry(decl_path("Rect")).to_string();
    assert!(decl.contains("\tbool contains(Rect other);\n"));
    assert!(!decl.contains("Rect* other"));
}

#[test]
fn receiver_detection_is_case_sensitive_on_lowercased_name() {
    let mut fs = FileSet::new();
    // a parameter named exactly like the type (not lowercased) is kept
    let ty = WrappedType {
        name: "Point".to_string(),
        methods: vec![method(
            "shift",
            Visibility::Public,
            vec![param("point", comp("Point", false)), param("Point", prim("i32"))],
            None,
        )],
    };
    assert!(generate_type(&mut fs, &ty).is_ok());
    let decl = fs.entry(decl_path("Point")).to_string();
    let def = fs.entry(def_path("Point")).to_string();
    assert!(decl.contains("\tvoid shift(int32_t Point);\n"));
    assert!(def.contains("void Point::shift(int32_t Point) {\n\tPoint_shift(*this, Point);\n}\n"));
}

#[test]
fn invalid_type_name_refused() {
    let ty = WrappedType { name: "a/b".to_string(), methods: vec![] };
    assert_eq!(validate(&ty), Err(GenError::InvalidTypeName));
    let mut fs = FileSet::new();
    assert_eq!(generate_type(&mut fs, &ty), Err(GenError::InvalidTypeName));
}

#[test]
fn duplicate_method_refused() {
    let ty = WrappedType {
        name: "Point".to_string(),
        methods: vec![
            method("get_x", Visibility::Public, vec![param("point", comp("Point", false))], Some(prim("i32"))),
            method("get_x", Visibility::Public, vec![param("point", comp("Point", false))], Some(prim("i64"))),
        ],
    };
    assert_eq!(validate(&ty), Err(GenError::DuplicateMethod));
}

#[test]
fn method_without_receiver_refused() {
    let ty = WrappedType {
        name: "Point".to_string(),
        methods: vec![method("origin", Visibility::Public, vec![], Some(comp("Point", false)))],
    };
    assert_eq!(validate(&ty), Err(GenError::AmbiguousReceiver));
}

#[test]
fn method_with_two_receivers_refused() {
    let ty = WrappedType {
        name: "Point".to_string(),
        methods: vec![method(
            "max",
            Visibility::Public,
            vec![param("point", comp("Point", false)), param("point", comp("Point", false))],
            Some(comp("Point", false)),
        )],
    };
    assert_eq!(validate(&ty), Err(GenError::AmbiguousReceiver));
}

#[test]
fn unsupported_primitive_refused() {
    let ty = WrappedType {
        name: "Point".to_string(),
        methods: vec![method(
            "take",
            Visibility::Public,
            vec![param("point", comp("Point", false)), param("n", prim("usize"))],
            None,
        )],
    };
    assert_eq!(validate(&ty), Err(GenError::UnsupportedType));
}

#[test]
fn constructor_pattern_regardless_of_output() {
    // `new` declaring no output still yields the constructor pattern
    let mut fs = FileSet::new();
    let ty = WrappedType {
        name: "Point".to_string(),
        methods: vec![method("new", Visibility::Public, vec![param("x", prim("i32"))], None)],
    };
    assert!(generate_type(&mut fs, &ty).is_ok());
    let decl = fs.entry(decl_path("Point")).to_string();
    let def = fs.entry(def_path("Point")).to_string();
    assert!(decl.contains("\tPoint(int32_t x);\n"));
    assert!(!decl.contains("void Point(") && !decl.contains("void new("));
    assert!(def.contains("Point::Point(int32_t x) : Point(Point_new(x)) {\n}\n"));
}

#[test]
fn run_isolates_failures_and_reports_them() {
    let mut fs = FileSet::new();
    let good = point_type();
    let dup = WrappedType { name: "Point".to_string(), methods: vec![] };
    let bad = WrappedType {
        name: "Blob".to_string(),
        methods: vec![method("len", Visibility::Public, vec![], Some(prim("i32")))],
    };
    let report = generate(&mut fs, &vec![good, dup, bad]);
    assert_eq!(report.len(), 2);
    assert_eq!(report[0].0, "Point");
    assert_eq!(report[0].1, GenError::DuplicateWrappedType);
    assert_eq!(report[1].0, "Blob");
    assert_eq!(report[1].1, GenError::AmbiguousReceiver);
    // the sound type's two files are still produced and untouched
    let decl = fs.entry(decl_path("Point")).to_string();
    assert!(decl.contains("class Point: public CPoint {"));
    assert!(decl.contains("int32_t get_x();"));
    // the refused type produced nothing
    assert_eq!(fs.entry(decl_path("Blob")).to_string(), "");
    assert_eq!(fs.entry(def_path("Blob")).to_string(), "");
}
