//! The resolved output model, and its mathematical counterpart. Each
//! executable output type views into a ghost structure over `Seq<char>`,
//! `Seq` and `Map`, which is what every contract of the resolver speaks of.

use vstd::prelude::*;

use crate::assoc::assoc_map_full;

verus! {

broadcast use vstd::seq::axiom_seq_index_decreases;

/// Provenance of a resolved type reference: provided by the native library
/// (`Qt`), declared in a target-language module (`Local`), or unresolvable
/// (`Unknown`).
#[derive(Clone, Copy, PartialEq, Eq, Structural, Debug)]
pub enum TypeSource {
    Qt,
    Local,
    Unknown,
}

/// Flags of a resolved property or class.
#[derive(Clone, Copy, PartialEq, Eq, Structural, Debug)]
pub enum Flag {
    Default,
    Writeonly,
    Readonly,
    Singleton,
    Uncreatable,
}

/// A resolved type reference. `of` is the element type when this reference
/// is the built-in list construct wrapped around another type.
#[derive(PartialEq, Eq, Debug)]
pub struct Type {
    pub type_: TypeSource,
    pub module: String,
    pub name: String,
    pub of: Option<Box<Type>>,
}

/// Ghost counterpart of [`Type`].
pub struct SpecType {
    pub type_: TypeSource,
    pub module: Seq<char>,
    pub name: Seq<char>,
    pub of: Option<Box<SpecType>>,
}

impl View for Type {
    type V = SpecType;

    open spec fn view(&self) -> SpecType
        decreases self,
    {
        SpecType {
            type_: self.type_,
            module: self.module@,
            name: self.name@,
            of: match self.of {
                Option::None => Option::None,
                Option::Some(b) => Option::Some(Box::new((*b).view())),
            },
        }
    }
}

/// The shape of a resolved property: a plain type reference, or a value type
/// expanded inline into a mapping from member name to its resolved shape.
#[derive(PartialEq, Eq, Debug)]
pub enum PropertyType {
    Type(Type),
    Gadget(Vec<(String, PropertyType)>),
}

/// Ghost counterpart of [`PropertyType`].
pub enum SpecPropertyType {
    Type(SpecType),
    Gadget(Map<Seq<char>, SpecPropertyType>),
}

impl View for PropertyType {
    type V = SpecPropertyType;

    open spec fn view(&self) -> SpecPropertyType
        decreases self,
    {
        match self {
            PropertyType::Type(t) => SpecPropertyType::Type(t@),
            PropertyType::Gadget(entries) => SpecPropertyType::Gadget(
                gadget_entries_view(entries@, entries@.len() as int),
            ),
        }
    }
}

/// The map described by the first `i` gadget entries, later entries winning.
/// This fold is spelled out (rather than shared with [`assoc_map_full`])
/// because it recurses back into [`PropertyType::view`].
pub open spec fn gadget_entries_view(s: Seq<(String, PropertyType)>, i: int) -> Map<
    Seq<char>,
    SpecPropertyType,
>
    decreases s, i,
{
    if i <= 0 || i > s.len() {
        Map::empty()
    } else {
        gadget_entries_view(s, i - 1).insert(s[i - 1].0@, s[i - 1].1.view())
    }
}

/// Appending a gadget entry leaves every shorter prefix's map unchanged.
pub proof fn lemma_gadget_entries_view_push(
    s: Seq<(String, PropertyType)>,
    p: (String, PropertyType),
    i: int,
)
    requires
        0 <= i <= s.len(),
    ensures
        gadget_entries_view(s.push(p), i) == gadget_entries_view(s, i),
    decreases i,
{
    if i > 0 {
        lemma_gadget_entries_view_push(s, p, i - 1);
        assert(s.push(p)[i - 1] == s[i - 1]);
    }
}

/// A resolved property: its shape, details text, and flags.
#[derive(PartialEq, Eq, Debug)]
pub struct Property {
    pub type_: PropertyType,
    pub details: String,
    pub flags: Vec<Flag>,
}

/// Ghost counterpart of [`Property`].
pub struct SpecProperty {
    pub type_: SpecPropertyType,
    pub details: Seq<char>,
    pub flags: Seq<Flag>,
}

impl View for Property {
    type V = SpecProperty;

    open spec fn view(&self) -> SpecProperty {
        SpecProperty { type_: self.type_@, details: self.details@, flags: self.flags@ }
    }
}

/// A resolved function: return type, name, details, and resolved parameters
/// in declaration order.
#[derive(PartialEq, Eq, Debug)]
pub struct Function {
    pub ret: Type,
    pub name: String,
    pub details: String,
    pub params: Vec<(String, Type)>,
}

/// Ghost counterpart of [`Function`].
pub struct SpecFunction {
    pub ret: SpecType,
    pub name: Seq<char>,
    pub details: Seq<char>,
    pub params: Seq<(Seq<char>, SpecType)>,
}

/// The view of a resolved parameter list.
pub open spec fn params_view(params: Seq<(String, Type)>) -> Seq<(Seq<char>, SpecType)> {
    params.map_values(|p: (String, Type)| (p.0@, p.1@))
}

impl View for Function {
    type V = SpecFunction;

    open spec fn view(&self) -> SpecFunction {
        SpecFunction {
            ret: self.ret@,
            name: self.name@,
            details: self.details@,
            params: params_view(self.params@),
        }
    }
}

/// A resolved signal: name, details, and resolved parameters in declaration
/// order.
#[derive(PartialEq, Eq, Debug)]
pub struct Signal {
    pub name: String,
    pub details: String,
    pub params: Vec<(String, Type)>,
}

/// Ghost counterpart of [`Signal`].
pub struct SpecSignal {
    pub name: Seq<char>,
    pub details: Seq<char>,
    pub params: Seq<(Seq<char>, SpecType)>,
}

impl View for Signal {
    type V = SpecSignal;

    open spec fn view(&self) -> SpecSignal {
        SpecSignal { name: self.name@, details: self.details@, params: params_view(self.params@) }
    }
}

/// A resolved class: its first exposed ancestor (or the unknown marker),
/// description, details, flags, and its three name-keyed member tables.
/// In each table a later entry shadows an earlier one; members are inserted
/// ancestors first, so a class's own member wins over an inherited one.
#[derive(PartialEq, Eq, Debug)]
pub struct ClassInfo {
    pub superclass: Type,
    pub description: String,
    pub details: String,
    pub flags: Vec<Flag>,
    pub properties: Vec<(String, Property)>,
    pub functions: Vec<(String, Function)>,
    pub signals: Vec<(String, Signal)>,
}

/// Ghost counterpart of [`ClassInfo`].
pub struct SpecClassInfo {
    pub superclass: SpecType,
    pub description: Seq<char>,
    pub details: Seq<char>,
    pub flags: Seq<Flag>,
    pub properties: Map<Seq<char>, SpecProperty>,
    pub functions: Map<Seq<char>, SpecFunction>,
    pub signals: Map<Seq<char>, SpecSignal>,
}

impl View for ClassInfo {
    type V = SpecClassInfo;

    open spec fn view(&self) -> SpecClassInfo {
        SpecClassInfo {
            superclass: self.superclass@,
            description: self.description@,
            details: self.details@,
            flags: self.flags@,
            properties: assoc_map_full(self.properties@),
            functions: assoc_map_full(self.functions@),
            signals: assoc_map_full(self.signals@),
        }
    }
}

impl ClassInfo {
    /// The resolved property of the given name, if any.
    pub fn property<'a>(&'a self, name: &str) -> (r: Option<&'a Property>)
        ensures
            match r {
                Some(p) => self@.properties.contains_key(name@) && p@ == self@.properties[name@],
                None => !self@.properties.contains_key(name@),
            },
    {
        crate::assoc::assoc_get(&self.properties, name)
    }

    /// The resolved function of the given name, if any.
    pub fn function<'a>(&'a self, name: &str) -> (r: Option<&'a Function>)
        ensures
            match r {
                Some(f) => self@.functions.contains_key(name@) && f@ == self@.functions[name@],
                None => !self@.functions.contains_key(name@),
            },
    {
        crate::assoc::assoc_get(&self.functions, name)
    }

    /// The resolved signal of the given name, if any.
    pub fn signal<'a>(&'a self, name: &str) -> (r: Option<&'a Signal>)
        ensures
            match r {
                Some(s) => self@.signals.contains_key(name@) && s@ == self@.signals[name@],
                None => !self@.signals.contains_key(name@),
            },
    {
        crate::assoc::assoc_get(&self.signals, name)
    }
}

/// A packaged enum: description, details, and a mapping from variant name to
/// variant details.
#[derive(PartialEq, Eq, Debug)]
pub struct EnumInfo {
    pub description: String,
    pub details: String,
    pub variants: Vec<(String, String)>,
}

/// Ghost counterpart of [`EnumInfo`].
pub struct SpecEnumInfo {
    pub description: Seq<char>,
    pub details: Seq<char>,
    pub variants: Map<Seq<char>, Seq<char>>,
}

impl View for EnumInfo {
    type V = SpecEnumInfo;

    open spec fn view(&self) -> SpecEnumInfo {
        SpecEnumInfo {
            description: self.description@,
            details: self.details@,
            variants: assoc_map_full(self.variants@),
        }
    }
}

/// One resolved catalog entry: a class or an enum.
#[derive(PartialEq, Eq, Debug)]
pub enum TypeInfo {
    Class(ClassInfo),
    Enum(EnumInfo),
}

/// Ghost counterpart of [`TypeInfo`].
pub enum SpecTypeInfo {
    Class(SpecClassInfo),
    Enum(SpecEnumInfo),
}

impl View for TypeInfo {
    type V = SpecTypeInfo;

    open spec fn view(&self) -> SpecTypeInfo {
        match self {
            TypeInfo::Class(c) => SpecTypeInfo::Class(c@),
            TypeInfo::Enum(e) => SpecTypeInfo::Enum(e@),
        }
    }
}

/// The resolved catalog: a mapping from exposed type name to its resolved
/// description. A later entry shadows an earlier one of the same name, as
/// the map view records; consumers must not rely on entry order.
#[derive(PartialEq, Eq, Debug)]
pub struct Catalog {
    pub entries: Vec<(String, TypeInfo)>,
}

impl View for Catalog {
    type V = Map<Seq<char>, SpecTypeInfo>;

    open spec fn view(&self) -> Map<Seq<char>, SpecTypeInfo> {
        assoc_map_full(self.entries@)
    }
}

impl Catalog {
    /// The catalog entry exposed under the given name, if any.
    pub fn get<'a>(&'a self, name: &str) -> (r: Option<&'a TypeInfo>)
        ensures
            match r {
                Some(t) => self@.contains_key(name@) && t@ == self@[name@],
                None => !self@.contains_key(name@),
            },
    {
        crate::assoc::assoc_get(&self.entries, name)
    }
}

} // verus!
