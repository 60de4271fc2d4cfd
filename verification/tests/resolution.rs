use typegen::model::{Class, Enum, FnParam, Function, Gadget, Property, Signal, TypeMapping, TypeSpec, Variant};
use typegen::outform::{Flag, PropertyType, Type, TypeInfo, TypeSource};
use typegen::resolve_types;
use typegen::resolver::ResolveError;

fn prop(name: &str, ty: &str) -> Property {
    Property {
        name: name.to_string(),
        type_: ty.to_string(),
        readable: true,
        writable: true,
        default: false,
        details: String::new(),
    }
}

fn class(name: &str, superclass: &str) -> Class {
    Class {
        name: name.to_string(),
        superclass: superclass.to_string(),
        description: String::new(),
        details: String::new(),
        singleton: false,
        uncreatable: false,
        properties: Vec::new(),
        functions: Vec::new(),
        signals: Vec::new(),
    }
}

fn mapping(cname: &str, module: &str, name: &str) -> TypeMapping {
    TypeMapping {
        cname: cname.to_string(),
        module: Some(module.to_string()),
        name: name.to_string(),
    }
}

fn empty_spec() -> TypeSpec {
    TypeSpec { typemap: Vec::new(), classes: Vec::new(), enums: Vec::new(), gadgets: Vec::new() }
}

fn unknown() -> Type {
    Type { type_: TypeSource::Unknown, module: String::new(), name: String::new(), of: None }
}

fn local(module: &str, name: &str) -> Type {
    Type { type_: TypeSource::Local, module: module.to_string(), name: name.to_string(), of: None }
}

fn list_of(inner: Type) -> Type {
    Type {
        type_: TypeSource::Qt,
        module: "qml".to_string(),
        name: "list".to_string(),
        of: Some(Box::new(inner)),
    }
}

fn widget_spec() -> TypeSpec {
    // A class `Base` (native, unmapped, no superclass) with property `x: int`;
    // a class `Derived` mapped into module "ui" as "Widget" with property
    // `y: Base`, where `Base` is also a registered gadget with property `x: int`.
    let mut base = class("Base", "");
    base.properties.push(prop("x", "int"));
    let mut derived = class("Derived", "Base");
    derived.properties.push(prop("y", "Base"));
    TypeSpec {
        typemap: vec![mapping("Derived", "ui", "Widget")],
        classes: vec![base, derived],
        enums: Vec::new(),
        gadgets: vec![Gadget { cname: "Base".to_string(), properties: vec![prop("x", "int")] }],
    }
}

#[test]
fn end_to_end_widget_example() {
    let spec = widget_spec();
    let catalog = resolve_types("ui", &spec).unwrap();
    assert_eq!(catalog.entries.len(), 1);
    let info = catalog.get("Widget").expect("Widget must be in the catalog");
    let ci = match info {
        TypeInfo::Class(ci) => ci,
        TypeInfo::Enum(_) => panic!("Widget must be a class"),
    };
    assert_eq!(ci.superclass, unknown());
    let x = ci.property("x").expect("x is inherited from Base");
    assert_eq!(x.type_, PropertyType::Type(unknown()));
    let y = ci.property("y").expect("y is declared on Derived");
    assert_eq!(
        y.type_,
        PropertyType::Gadget(vec![("x".to_string(), PropertyType::Type(unknown()))])
    );
    assert!(ci.property("z").is_none());
}

#[test]
fn resolution_is_idempotent() {
    let spec = widget_spec();
    let first = resolve_types("ui", &spec).unwrap();
    let second = resolve_types("ui", &spec).unwrap();
    assert_eq!(first, second);
}

#[test]
fn own_property_overrides_inherited() {
    let mut base = class("Base", "");
    base.properties.push(Property {
        name: "n".to_string(),
        type_: "int".to_string(),
        readable: true,
        writable: false,
        default: false,
        details: "ancestor details".to_string(),
    });
    let mut derived = class("Derived", "Base");
    derived.properties.push(Property {
        name: "n".to_string(),
        type_: "int".to_string(),
        readable: true,
        writable: true,
        default: true,
        details: "own details".to_string(),
    });
    let spec = TypeSpec {
        typemap: vec![mapping("Derived", "m", "D")],
        classes: vec![base, derived],
        enums: Vec::new(),
        gadgets: Vec::new(),
    };
    let catalog = resolve_types("m", &spec).unwrap();
    let ci = match catalog.get("D").unwrap() {
        TypeInfo::Class(ci) => ci,
        _ => panic!("D must be a class"),
    };
    let n = ci.property("n").unwrap();
    assert_eq!(n.details, "own details".to_string());
    assert_eq!(n.flags, vec![Flag::Default]);
}

#[test]
fn list_wrappers_unwrap() {
    let mut c = class("C", "");
    c.properties.push(prop("a", "QList<Foo>"));
    c.properties.push(prop("b", "QQmlListProperty<Foo>"));
    let spec = TypeSpec {
        typemap: vec![mapping("C", "ui", "C"), mapping("Foo", "ui", "Foo")],
        classes: vec![c, class("Foo", "")],
        enums: Vec::new(),
        gadgets: Vec::new(),
    };
    let catalog = resolve_types("ui", &spec).unwrap();
    let ci = match catalog.get("C").unwrap() {
        TypeInfo::Class(ci) => ci,
        _ => panic!("C must be a class"),
    };
    let expected = PropertyType::Type(list_of(local("ui", "Foo")));
    assert_eq!(ci.property("a").unwrap().type_, expected);
    assert_eq!(ci.property("b").unwrap().type_, expected);
}

#[test]
fn nested_list_wrappers_unwrap_recursively() {
    let mut c = class("C", "");
    c.properties.push(prop("a", "QList<QList<Foo>>"));
    let spec = TypeSpec {
        typemap: vec![mapping("C", "ui", "C"), mapping("Foo", "ui", "Foo")],
        classes: vec![c, class("Foo", "")],
        enums: Vec::new(),
        gadgets: Vec::new(),
    };
    let catalog = resolve_types("ui", &spec).unwrap();
    let ci = match catalog.get("C").unwrap() {
        TypeInfo::Class(ci) => ci,
        _ => panic!("C must be a class"),
    };
    let expected = PropertyType::Type(list_of(list_of(local("ui", "Foo"))));
    assert_eq!(ci.property("a").unwrap().type_, expected);
}

#[test]
fn unknown_type_falls_back_without_error() {
    let mut c = class("C", "");
    c.properties.push(prop("a", "Mystery"));
    let spec = TypeSpec {
        typemap: vec![mapping("C", "ui", "C")],
        classes: vec![c],
        enums: Vec::new(),
        gadgets: Vec::new(),
    };
    let catalog = resolve_types("ui", &spec).unwrap();
    let ci = match catalog.get("C").unwrap() {
        TypeInfo::Class(ci) => ci,
        _ => panic!("C must be a class"),
    };
    assert_eq!(ci.property("a").unwrap().type_, PropertyType::Type(unknown()));
}

#[test]
fn gadget_named_like_a_list_wins_over_unwrapping() {
    // The gadget table is consulted before list unwrapping, so a gadget
    // registered under the literal name "QList<Foo>" is expanded inline.
    let mut c = class("C", "");
    c.properties.push(prop("a", "QList<Foo>"));
    let spec = TypeSpec {
        typemap: vec![mapping("C", "ui", "C")],
        classes: vec![c],
        enums: Vec::new(),
        gadgets: vec![Gadget {
            cname: "QList<Foo>".to_string(),
            properties: vec![prop("v", "int")],
        }],
    };
    let catalog = resolve_types("ui", &spec).unwrap();
    let ci = match catalog.get("C").unwrap() {
        TypeInfo::Class(ci) => ci,
        _ => panic!("C must be a class"),
    };
    assert_eq!(
        ci.property("a").unwrap().type_,
        PropertyType::Gadget(vec![("v".to_string(), PropertyType::Type(unknown()))])
    );
}

#[test]
fn other_modules_are_filtered_out() {
    let spec = TypeSpec {
        typemap: vec![mapping("A", "a", "A"), mapping("B", "b", "B")],
        classes: vec![class("A", ""), class("B", "")],
        enums: vec![Enum {
            name: "E".to_string(),
            module: Some("b".to_string()),
            cname: None,
            description: String::new(),
            details: String::new(),
            variants: Vec::new(),
        }],
        gadgets: Vec::new(),
    };
    let catalog = resolve_types("a", &spec).unwrap();
    assert!(catalog.get("A").is_some());
    assert!(catalog.get("B").is_none());
    assert!(catalog.get("E").is_none());
}

#[test]
fn enums_are_packaged() {
    let spec = TypeSpec {
        typemap: Vec::new(),
        classes: Vec::new(),
        enums: vec![Enum {
            name: "Color".to_string(),
            module: Some("ui".to_string()),
            cname: Some("QColorKind".to_string()),
            description: "a color".to_string(),
            details: "details".to_string(),
            variants: vec![
                Variant { name: "Red".to_string(), details: "warm".to_string() },
                Variant { name: "Blue".to_string(), details: "cold".to_string() },
            ],
        }],
        gadgets: Vec::new(),
    };
    let catalog = resolve_types("ui", &spec).unwrap();
    let ei = match catalog.get("Color").unwrap() {
        TypeInfo::Enum(ei) => ei,
        _ => panic!("Color must be an enum"),
    };
    assert_eq!(ei.description, "a color".to_string());
    assert_eq!(ei.details, "details".to_string());
    assert_eq!(
        ei.variants,
        vec![
            ("Red".to_string(), "warm".to_string()),
            ("Blue".to_string(), "cold".to_string()),
        ]
    );
}

#[test]
fn mapping_without_class_is_skipped() {
    let spec = TypeSpec {
        typemap: vec![mapping("Ghost", "ui", "Ghost")],
        classes: Vec::new(),
        enums: Vec::new(),
        gadgets: Vec::new(),
    };
    let catalog = resolve_types("ui", &spec).unwrap();
    assert!(catalog.get("Ghost").is_none());
    assert_eq!(catalog.entries.len(), 0);
}

#[test]
fn cyclic_gadget_is_an_error() {
    let mut c = class("C", "");
    c.properties.push(prop("a", "G"));
    let spec = TypeSpec {
        typemap: vec![mapping("C", "ui", "C")],
        classes: vec![c],
        enums: Vec::new(),
        gadgets: vec![Gadget { cname: "G".to_string(), properties: vec![prop("again", "G")] }],
    };
    assert_eq!(resolve_types("ui", &spec), Err(ResolveError::CyclicTypeReference));
}

#[test]
fn cyclic_superclass_is_an_error() {
    let spec = TypeSpec {
        typemap: vec![mapping("A", "ui", "A")],
        classes: vec![class("A", "B"), class("B", "C"), class("C", "B")],
        enums: Vec::new(),
        gadgets: Vec::new(),
    };
    assert_eq!(resolve_types("ui", &spec), Err(ResolveError::CyclicTypeReference));
}

#[test]
fn property_flags_follow_the_access_marks() {
    let mut c = class("C", "");
    c.properties.push(Property {
        name: "d".to_string(),
        type_: "int".to_string(),
        readable: true,
        writable: true,
        default: true,
        details: String::new(),
    });
    c.properties.push(Property {
        name: "w".to_string(),
        type_: "int".to_string(),
        readable: false,
        writable: true,
        default: false,
        details: String::new(),
    });
    c.properties.push(Property {
        name: "r".to_string(),
        type_: "int".to_string(),
        readable: true,
        writable: false,
        default: false,
        details: String::new(),
    });
    c.properties.push(prop("plain", "int"));
    let spec = TypeSpec {
        typemap: vec![mapping("C", "ui", "C")],
        classes: vec![c],
        enums: Vec::new(),
        gadgets: Vec::new(),
    };
    let catalog = resolve_types("ui", &spec).unwrap();
    let ci = match catalog.get("C").unwrap() {
        TypeInfo::Class(ci) => ci,
        _ => panic!("C must be a class"),
    };
    assert_eq!(ci.property("d").unwrap().flags, vec![Flag::Default]);
    assert_eq!(ci.property("w").unwrap().flags, vec![Flag::Writeonly]);
    assert_eq!(ci.property("r").unwrap().flags, vec![Flag::Readonly]);
    assert_eq!(ci.property("plain").unwrap().flags, Vec::<Flag>::new());
}

#[test]
fn class_flags_singleton_wins() {
    let mut s = class("S", "");
    s.singleton = true;
    s.uncreatable = true;
    let mut u = class("U", "");
    u.uncreatable = true;
    let spec = TypeSpec {
        typemap: vec![mapping("S", "ui", "S"), mapping("U", "ui", "U"), mapping("P", "ui", "P")],
        classes: vec![s, u, class("P", "")],
        enums: Vec::new(),
        gadgets: Vec::new(),
    };
    let catalog = resolve_types("ui", &spec).unwrap();
    let flags_of = |name: &str| match catalog.get(name).unwrap() {
        TypeInfo::Class(ci) => ci.flags.clone(),
        _ => panic!("must be a class"),
    };
    assert_eq!(flags_of("S"), vec![Flag::Singleton]);
    assert_eq!(flags_of("U"), vec![Flag::Uncreatable]);
    assert_eq!(flags_of("P"), Vec::<Flag>::new());
}

#[test]
fn functions_and_signals_resolve_params_in_order() {
    let mut c = class("C", "");
    c.functions.push(Function {
        name: "f".to_string(),
        ret: "Foo".to_string(),
        params: vec![
            FnParam { name: "first".to_string(), type_: "Foo".to_string() },
            FnParam { name: "second".to_string(), type_: "Nope".to_string() },
        ],
        details: "does things".to_string(),
    });
    c.signals.push(Signal {
        name: "s".to_string(),
        params: vec![FnParam { name: "value".to_string(), type_: "QList<Foo>".to_string() }],
        details: String::new(),
    });
    let spec = TypeSpec {
        typemap: vec![mapping("C", "ui", "C"), mapping("Foo", "ui", "Foo")],
        classes: vec![c, class("Foo", "")],
        enums: Vec::new(),
        gadgets: Vec::new(),
    };
    let catalog = resolve_types("ui", &spec).unwrap();
    let ci = match catalog.get("C").unwrap() {
        TypeInfo::Class(ci) => ci,
        _ => panic!("C must be a class"),
    };
    let f = ci.function("f").unwrap();
    assert_eq!(f.ret, local("ui", "Foo"));
    assert_eq!(f.details, "does things".to_string());
    assert_eq!(
        f.params,
        vec![
            ("first".to_string(), local("ui", "Foo")),
            ("second".to_string(), unknown()),
        ]
    );
    let s = ci.signal("s").unwrap();
    assert_eq!(s.params, vec![("value".to_string(), list_of(local("ui", "Foo")))]);
}

#[test]
fn exposed_ancestor_stops_the_walk() {
    let mut b = class("B", "");
    b.properties.push(prop("hidden", "int"));
    let spec = TypeSpec {
        typemap: vec![mapping("C", "ui", "C"), mapping("B", "ui", "BView")],
        classes: vec![class("C", "B"), b],
        enums: Vec::new(),
        gadgets: Vec::new(),
    };
    let catalog = resolve_types("ui", &spec).unwrap();
    let ci = match catalog.get("C").unwrap() {
        TypeInfo::Class(ci) => ci,
        _ => panic!("C must be a class"),
    };
    assert_eq!(ci.superclass, local("ui", "BView"));
    // B is exposed, so its members are not absorbed into C.
    assert!(ci.property("hidden").is_none());
}

#[test]
fn unmodulated_mapping_resolves_as_native_provided() {
    let mut c = class("C", "");
    c.properties.push(prop("o", "QObject"));
    let spec = TypeSpec {
        typemap: vec![
            mapping("C", "ui", "C"),
            TypeMapping {
                cname: "QObject".to_string(),
                module: None,
                name: "QtObject".to_string(),
            },
        ],
        classes: vec![c],
        enums: Vec::new(),
        gadgets: Vec::new(),
    };
    let catalog = resolve_types("ui", &spec).unwrap();
    let ci = match catalog.get("C").unwrap() {
        TypeInfo::Class(ci) => ci,
        _ => panic!("C must be a class"),
    };
    assert_eq!(
        ci.property("o").unwrap().type_,
        PropertyType::Type(Type {
            type_: TypeSource::Qt,
            module: String::new(),
            name: "QtObject".to_string(),
            of: None,
        })
    );
}

#[test]
fn enum_native_names_resolve_as_type_references() {
    let mut c = class("C", "");
    c.properties.push(prop("kind", "QColorKind"));
    let spec = TypeSpec {
        typemap: vec![mapping("C", "ui", "C")],
        classes: vec![c],
        enums: vec![Enum {
            name: "Color".to_string(),
            module: Some("palette".to_string()),
            cname: Some("QColorKind".to_string()),
            description: String::new(),
            details: String::new(),
            variants: Vec::new(),
        }],
        gadgets: Vec::new(),
    };
    let catalog = resolve_types("ui", &spec).unwrap();
    let ci = match catalog.get("C").unwrap() {
        TypeInfo::Class(ci) => ci,
        _ => panic!("C must be a class"),
    };
    assert_eq!(
        ci.property("kind").unwrap().type_,
        PropertyType::Type(local("palette", "Color"))
    );
}

#[test]
fn empty_specification_resolves_to_an_empty_catalog() {
    let catalog = resolve_types("ui", &empty_spec()).unwrap();
    assert_eq!(catalog.entries.len(), 0);
    assert!(catalog.get("anything").is_none());
}

#[test]
fn deep_but_acyclic_gadget_chains_resolve() {
    let mut c = class("C", "");
    c.properties.push(prop("a", "G1"));
    let spec = TypeSpec {
        typemap: vec![mapping("C", "ui", "C")],
        classes: vec![c],
        enums: Vec::new(),
        gadgets: vec![
            Gadget { cname: "G1".to_string(), properties: vec![prop("inner", "G2")] },
            Gadget { cname: "G2".to_string(), properties: vec![prop("leaf", "int")] },
        ],
    };
    let catalog = resolve_types("ui", &spec).unwrap();
    let ci = match catalog.get("C").unwrap() {
        TypeInfo::Class(ci) => ci,
        _ => panic!("C must be a class"),
    };
    assert_eq!(
        ci.property("a").unwrap().type_,
        PropertyType::Gadget(vec![(
            "inner".to_string(),
            PropertyType::Gadget(vec![("leaf".to_string(), PropertyType::Type(unknown()))]),
        )])
    );
}
