//! The raw specification model: the parsed universe of classes, properties,
//! functions, signals, enums, gadgets, and the type-mapping table. Produced
//! by an upstream extractor; read-only during resolution.

use vstd::prelude::*;

verus! {

/// One entry of the type-mapping table: the native class `cname` is exposed
/// to the target language under `name`, owned by `module` if one is given.
pub struct TypeMapping {
    pub cname: String,
    pub module: Option<String>,
    pub name: String,
}

/// A declared property: a name, a native type-name string, access flags,
/// and free-form details text.
pub struct Property {
    pub name: String,
    pub type_: String,
    pub readable: bool,
    pub writable: bool,
    pub default: bool,
    pub details: String,
}

/// One parameter of a function or signal declaration.
pub struct FnParam {
    pub name: String,
    pub type_: String,
}

/// A declared function: a name, a native return-type string, ordered
/// parameters, and details text.
pub struct Function {
    pub name: String,
    pub ret: String,
    pub params: Vec<FnParam>,
    pub details: String,
}

/// A declared signal: a name, ordered parameters, and details text.
pub struct Signal {
    pub name: String,
    pub params: Vec<FnParam>,
    pub details: String,
}

/// A native class declaration with its direct members.
pub struct Class {
    pub name: String,
    pub superclass: String,
    pub description: String,
    pub details: String,
    pub singleton: bool,
    pub uncreatable: bool,
    pub properties: Vec<Property>,
    pub functions: Vec<Function>,
    pub signals: Vec<Signal>,
}

/// One variant of an enum declaration.
pub struct Variant {
    pub name: String,
    pub details: String,
}

/// An enum declaration, exposed under `name` in `module` if one is given;
/// `cname` is the native name under which type references find it.
pub struct Enum {
    pub name: String,
    pub module: Option<String>,
    pub cname: Option<String>,
    pub description: String,
    pub details: String,
    pub variants: Vec<Variant>,
}

/// A value type with no identity: wherever a property's native type names a
/// gadget, the gadget's own properties are expanded inline.
pub struct Gadget {
    pub cname: String,
    pub properties: Vec<Property>,
}

/// The whole raw specification, constructed once upstream and immutable
/// during resolution.
pub struct TypeSpec {
    pub typemap: Vec<TypeMapping>,
    pub classes: Vec<Class>,
    pub enums: Vec<Enum>,
    pub gadgets: Vec<Gadget>,
}

} // verus!
