//! The type-resolution engine: given a raw specification and a target module
//! name, compute the resolved classes and enums belonging to that module.
//!
//! The whole computation is stated first as spec functions over the raw
//! specification; every executable function then carries a contract pinning
//! its result to those functions. Resolution is total except for one failure
//! mode: a cyclic gadget or superclass reference, which is detected by a
//! fuel bound (a chain of distinct gadgets can be at most as long as the
//! gadget table, and a superclass walk can absorb at most as many classes as
//! are declared, so running out of fuel proves a repeat and hence a cycle).

use vstd::prelude::*;

use crate::model::Class;
use crate::model::Enum;
use crate::model::FnParam;
use crate::model::Function;
use crate::model::Gadget;
use crate::model::Property;
use crate::model::Signal;
use crate::model::TypeMapping;
use crate::model::TypeSpec;
use crate::model::Variant;
use crate::outform::gadget_entries_view;
use crate::outform::lemma_gadget_entries_view_push;
use crate::outform::params_view;
use crate::outform::Catalog;
use crate::outform::ClassInfo;
use crate::outform::EnumInfo;
use crate::outform::Flag;
use crate::outform::PropertyType;
use crate::outform::TypeInfo;
use crate::outform::SpecClassInfo;
use crate::outform::SpecEnumInfo;
use crate::outform::SpecFunction;
use crate::outform::SpecProperty;
use crate::outform::SpecPropertyType;
use crate::outform::SpecSignal;
use crate::outform::SpecType;
use crate::outform::SpecTypeInfo;
use crate::outform::Type;
use crate::outform::TypeSource;

verus! {

/// The one fatal failure mode of resolution: a cyclic gadget or superclass
/// reference, which would otherwise recurse without bound.
#[derive(Clone, Copy, PartialEq, Eq, Structural, Debug)]
pub enum ResolveError {
    CyclicTypeReference,
}

// ---------------------------------------------------------------------------
// Lookups in the raw specification: first match by native name.
// ---------------------------------------------------------------------------

/// The first mapping at or after `i` whose native name is `cname`.
pub open spec fn find_mapping_from(typemap: Seq<TypeMapping>, cname: Seq<char>, i: int) -> Option<
    TypeMapping,
>
    decreases typemap.len() - i,
{
    if i < 0 || i >= typemap.len() {
        None
    } else if typemap[i].cname@ == cname {
        Some(typemap[i])
    } else {
        find_mapping_from(typemap, cname, i + 1)
    }
}

/// The first mapping whose native name is `cname`.
pub open spec fn find_mapping(typemap: Seq<TypeMapping>, cname: Seq<char>) -> Option<TypeMapping> {
    find_mapping_from(typemap, cname, 0)
}

/// The first class at or after `i` named `name`.
pub open spec fn find_class_from(classes: Seq<Class>, name: Seq<char>, i: int) -> Option<Class>
    decreases classes.len() - i,
{
    if i < 0 || i >= classes.len() {
        None
    } else if classes[i].name@ == name {
        Some(classes[i])
    } else {
        find_class_from(classes, name, i + 1)
    }
}

/// The first class named `name`.
pub open spec fn find_class(classes: Seq<Class>, name: Seq<char>) -> Option<Class> {
    find_class_from(classes, name, 0)
}

/// Whether an enum declaration's native name is `cname`.
pub open spec fn enum_cname_matches(e: Enum, cname: Seq<char>) -> bool {
    match e.cname {
        Some(c) => c@ == cname,
        None => false,
    }
}

/// The first enum at or after `i` whose native name is `cname`.
pub open spec fn find_enum_from(enums: Seq<Enum>, cname: Seq<char>, i: int) -> Option<Enum>
    decreases enums.len() - i,
{
    if i < 0 || i >= enums.len() {
        None
    } else if enum_cname_matches(enums[i], cname) {
        Some(enums[i])
    } else {
        find_enum_from(enums, cname, i + 1)
    }
}

/// The first enum whose native name is `cname`.
pub open spec fn find_enum(enums: Seq<Enum>, cname: Seq<char>) -> Option<Enum> {
    find_enum_from(enums, cname, 0)
}

/// The first gadget at or after `i` whose native name is `cname`.
pub open spec fn find_gadget_from(gadgets: Seq<Gadget>, cname: Seq<char>, i: int) -> Option<Gadget>
    decreases gadgets.len() - i,
{
    if i < 0 || i >= gadgets.len() {
        None
    } else if gadgets[i].cname@ == cname {
        Some(gadgets[i])
    } else {
        find_gadget_from(gadgets, cname, i + 1)
    }
}

/// The first gadget whose native name is `cname`.
pub open spec fn find_gadget(gadgets: Seq<Gadget>, cname: Seq<char>) -> Option<Gadget> {
    find_gadget_from(gadgets, cname, 0)
}

// ---------------------------------------------------------------------------
// Bare type references.
// ---------------------------------------------------------------------------

/// The "unknown" marker: unresolvable provenance, empty module and name.
pub open spec fn spec_unknown_type() -> SpecType {
    SpecType { type_: TypeSource::Unknown, module: Seq::empty(), name: Seq::empty(), of: None }
}

/// The type reference for a mapped type or enum: one that carries a module
/// is declared locally under that module; one without is provided by the
/// native library itself and carries an empty module name.
pub open spec fn spec_type_resolve(module: Option<String>, name: String) -> SpecType {
    match module {
        Some(m) => SpecType { type_: TypeSource::Local, module: m@, name: name@, of: None },
        None => SpecType { type_: TypeSource::Qt, module: Seq::empty(), name: name@, of: None },
    }
}

/// The wrapper syntax the target language uses for list properties.
pub open spec fn qml_list_prefix() -> Seq<char> {
    "QQmlListProperty<"@
}

/// The generic native list wrapper.
pub open spec fn qlist_prefix() -> Seq<char> {
    "QList<"@
}

/// Strips one recognized list wrapper: the name of the element type, when
/// `t` begins with a list wrapper and has at least one character after it
/// (the trailing delimiter is dropped).
pub open spec fn strip_list_wrapper(t: Seq<char>) -> Option<Seq<char>> {
    if t.len() > qml_list_prefix().len() && t.subrange(
        0,
        qml_list_prefix().len() as int,
    ) == qml_list_prefix() {
        Some(t.subrange(qml_list_prefix().len() as int, t.len() - 1))
    } else if t.len() > qlist_prefix().len() && t.subrange(
        0,
        qlist_prefix().len() as int,
    ) == qlist_prefix() {
        Some(t.subrange(qlist_prefix().len() as int, t.len() - 1))
    } else {
        None
    }
}

/// A type name looked up in the mapping table, then among enums by native
/// name, degrading to the unknown marker.
pub open spec fn spec_param_type(ts: TypeSpec, ctype: Seq<char>) -> SpecType {
    match find_mapping(ts.typemap@, ctype) {
        Some(m) => spec_type_resolve(m.module, m.name),
        None => match find_enum(ts.enums@, ctype) {
            Some(e) => spec_type_resolve(e.module, e.name),
            None => spec_unknown_type(),
        },
    }
}

/// Resolution of a bare type name: list wrappers are unwrapped (recursively)
/// and the result re-wrapped as the target language's own built-in list
/// construct; everything else goes through [`spec_param_type`]. Never fails.
pub open spec fn spec_resolve_bare_type(ts: TypeSpec, ctype: Seq<char>) -> SpecType
    decreases ctype.len(),
{
    match strip_list_wrapper(ctype) {
        Some(inner) => SpecType {
            type_: TypeSource::Qt,
            module: "qml"@,
            name: "list"@,
            of: Some(Box::new(spec_resolve_bare_type(ts, inner))),
        },
        None => spec_param_type(ts, ctype),
    }
}

// ---------------------------------------------------------------------------
// Properties, with inline gadget expansion.
// ---------------------------------------------------------------------------

/// The shape a property's native type name resolves to, given `fuel`
/// remaining gadget expansions. `None` means the gadget table is cyclic.
pub open spec fn spec_resolve_property_type(ts: TypeSpec, ctype: Seq<char>, fuel: nat) -> Option<
    SpecPropertyType,
>
    decreases fuel, 0int, 0int,
{
    match find_gadget(ts.gadgets@, ctype) {
        Some(g) => {
            if fuel == 0 {
                None
            } else {
                match spec_gadget_members(
                    ts,
                    g.properties@,
                    (fuel - 1) as nat,
                    g.properties@.len() as int,
                ) {
                    Some(m) => Some(SpecPropertyType::Gadget(m)),
                    None => None,
                }
            }
        },
        None => Some(SpecPropertyType::Type(spec_resolve_bare_type(ts, ctype))),
    }
}

/// The inline expansion of the first `i` properties of a gadget: a mapping
/// from member name to resolved shape, later declarations winning. `None`
/// means some member's expansion ran out of fuel.
pub open spec fn spec_gadget_members(
    ts: TypeSpec,
    props: Seq<Property>,
    fuel: nat,
    i: int,
) -> Option<Map<Seq<char>, SpecPropertyType>>
    decreases fuel, 1int, i,
{
    if i <= 0 {
        Some(Map::empty())
    } else {
        match spec_gadget_members(ts, props, fuel, i - 1) {
            None => None,
            Some(m) => match spec_resolve_property_type(ts, props[i - 1].type_@, fuel) {
                None => None,
                Some(t) => Some(m.insert(props[i - 1].name@, t)),
            },
        }
    }
}

/// A property's flags: `Default` when marked default-valued, then
/// `Writeonly` when not readable, else `Readonly` when not writable.
pub open spec fn spec_property_flags(p: Property) -> Seq<Flag> {
    let base = if p.default {
        seq![Flag::Default]
    } else {
        Seq::empty()
    };
    if !p.readable {
        base.push(Flag::Writeonly)
    } else if !p.writable {
        base.push(Flag::Readonly)
    } else {
        base
    }
}

/// A fully resolved property declaration, or `None` on a cyclic gadget.
pub open spec fn spec_resolve_property(ts: TypeSpec, p: Property, fuel: nat) -> Option<
    SpecProperty,
> {
    match spec_resolve_property_type(ts, p.type_@, fuel) {
        Some(t) => Some(
            SpecProperty { type_: t, details: p.details@, flags: spec_property_flags(p) },
        ),
        None => None,
    }
}

// ---------------------------------------------------------------------------
// Functions and signals.
// ---------------------------------------------------------------------------

/// The first `i` parameters resolved in declaration order.
pub open spec fn spec_resolve_params(ts: TypeSpec, params: Seq<FnParam>, i: int) -> Seq<
    (Seq<char>, SpecType),
>
    decreases i,
{
    if i <= 0 {
        Seq::empty()
    } else {
        spec_resolve_params(ts, params, i - 1).push(
            (params[i - 1].name@, spec_resolve_bare_type(ts, params[i - 1].type_@)),
        )
    }
}

/// A fully resolved function declaration. Gadget expansion does not apply to
/// return types or parameters; they resolve as bare type references.
pub open spec fn spec_resolve_function(ts: TypeSpec, f: Function) -> SpecFunction {
    SpecFunction {
        ret: spec_resolve_bare_type(ts, f.ret@),
        name: f.name@,
        details: f.details@,
        params: spec_resolve_params(ts, f.params@, f.params@.len() as int),
    }
}

/// A fully resolved signal declaration.
pub open spec fn spec_resolve_signal(ts: TypeSpec, s: Signal) -> SpecSignal {
    SpecSignal {
        name: s.name@,
        details: s.details@,
        params: spec_resolve_params(ts, s.params@, s.params@.len() as int),
    }
}

// ---------------------------------------------------------------------------
// The superclass walk.
// ---------------------------------------------------------------------------

/// What the walk up the superclass chain produces: the first exposed
/// ancestor as the superclass reference (or the unknown marker when the
/// chain ends), and the members declared by the non-exposed ancestors that
/// were passed over, nearest ancestor first.
pub struct SpecInherited {
    pub superclass: SpecType,
    pub properties: Seq<Property>,
    pub functions: Seq<Function>,
    pub signals: Seq<Signal>,
}

/// Walks the chain starting at ancestor name `current`: a name in the
/// mapping table stops the walk as the exposed superclass; a name matching
/// another class absorbs that class's members and continues at its declared
/// superclass; any other name ends the chain with the unknown marker.
/// `None` means the chain absorbed more classes than `fuel`, which proves a
/// repeat and hence a cycle when `fuel` is the number of declared classes.
pub open spec fn spec_walk_superclass(ts: TypeSpec, current: Seq<char>, fuel: nat) -> Option<
    SpecInherited,
>
    decreases fuel,
{
    match find_mapping(ts.typemap@, current) {
        Some(m) => Some(
            SpecInherited {
                superclass: spec_type_resolve(m.module, m.name),
                properties: Seq::empty(),
                functions: Seq::empty(),
                signals: Seq::empty(),
            },
        ),
        None => match find_class(ts.classes@, current) {
            Some(c) => {
                if fuel == 0 {
                    None
                } else {
                    match spec_walk_superclass(ts, c.superclass@, (fuel - 1) as nat) {
                        None => None,
                        Some(rest) => Some(
                            SpecInherited {
                                superclass: rest.superclass,
                                properties: c.properties@ + rest.properties,
                                functions: c.functions@ + rest.functions,
                                signals: c.signals@ + rest.signals,
                            },
                        ),
                    }
                }
            },
            None => Some(
                SpecInherited {
                    superclass: spec_unknown_type(),
                    properties: Seq::empty(),
                    functions: Seq::empty(),
                    signals: Seq::empty(),
                },
            ),
        },
    }
}

// ---------------------------------------------------------------------------
// Classes.
// ---------------------------------------------------------------------------

/// The member tables of a resolved class, built from the first `i` entries
/// of the inherited-then-own member list; a later entry for a name shadows
/// an earlier one, so a class's own member wins over an inherited one.
pub open spec fn spec_property_map(ts: TypeSpec, props: Seq<Property>, fuel: nat, i: int) -> Option<
    Map<Seq<char>, SpecProperty>,
>
    decreases i,
{
    if i <= 0 {
        Some(Map::empty())
    } else {
        match spec_property_map(ts, props, fuel, i - 1) {
            None => None,
            Some(m) => match spec_resolve_property(ts, props[i - 1], fuel) {
                None => None,
                Some(p) => Some(m.insert(props[i - 1].name@, p)),
            },
        }
    }
}

/// The function table over the first `i` entries, later entries winning.
pub open spec fn spec_function_map(ts: TypeSpec, funcs: Seq<Function>, i: int) -> Map<
    Seq<char>,
    SpecFunction,
>
    decreases i,
{
    if i <= 0 {
        Map::empty()
    } else {
        spec_function_map(ts, funcs, i - 1).insert(
            funcs[i - 1].name@,
            spec_resolve_function(ts, funcs[i - 1]),
        )
    }
}

/// The signal table over the first `i` entries, later entries winning.
pub open spec fn spec_signal_map(ts: TypeSpec, sigs: Seq<Signal>, i: int) -> Map<
    Seq<char>,
    SpecSignal,
>
    decreases i,
{
    if i <= 0 {
        Map::empty()
    } else {
        spec_signal_map(ts, sigs, i - 1).insert(
            sigs[i - 1].name@,
            spec_resolve_signal(ts, sigs[i - 1]),
        )
    }
}

/// A class's flags: `Singleton` when marked singleton, else `Uncreatable`
/// when marked uncreatable; the two are mutually exclusive.
pub open spec fn spec_class_flags(c: Class) -> Seq<Flag> {
    if c.singleton {
        seq![Flag::Singleton]
    } else if c.uncreatable {
        seq![Flag::Uncreatable]
    } else {
        Seq::empty()
    }
}

/// A fully resolved class: the superclass walk, then every inherited and
/// own member resolved into the name-keyed tables. `None` on a cyclic
/// superclass chain or gadget reference.
pub open spec fn spec_resolve_class(ts: TypeSpec, c: Class) -> Option<SpecClassInfo> {
    match spec_walk_superclass(ts, c.superclass@, ts.classes@.len() as nat) {
        None => None,
        Some(inh) => {
            let props = inh.properties + c.properties@;
            let funcs = inh.functions + c.functions@;
            let sigs = inh.signals + c.signals@;
            match spec_property_map(ts, props, ts.gadgets@.len() as nat, props.len() as int) {
                None => None,
                Some(pm) => Some(
                    SpecClassInfo {
                        superclass: inh.superclass,
                        description: c.description@,
                        details: c.details@,
                        flags: spec_class_flags(c),
                        properties: pm,
                        functions: spec_function_map(ts, funcs, funcs.len() as int),
                        signals: spec_signal_map(ts, sigs, sigs.len() as int),
                    },
                ),
            }
        },
    }
}

// ---------------------------------------------------------------------------
// Enums and the module catalog.
// ---------------------------------------------------------------------------

/// The variant table of an enum over its first `i` variants.
pub open spec fn spec_variant_map(vs: Seq<Variant>, i: int) -> Map<Seq<char>, Seq<char>>
    decreases i,
{
    if i <= 0 {
        Map::empty()
    } else {
        spec_variant_map(vs, i - 1).insert(vs[i - 1].name@, vs[i - 1].details@)
    }
}

/// An enum packaged for the catalog; variants need no further resolution.
pub open spec fn spec_enum_info(e: Enum) -> SpecEnumInfo {
    SpecEnumInfo {
        description: e.description@,
        details: e.details@,
        variants: spec_variant_map(e.variants@, e.variants@.len() as int),
    }
}

/// Whether a declaration's optional module is exactly the target module.
pub open spec fn module_matches(module: Option<String>, target: Seq<char>) -> bool {
    match module {
        Some(m) => m@ == target,
        None => false,
    }
}

/// The class entries of the catalog, from the first `i` type mappings:
/// a mapping in the target module whose native name matches a class
/// contributes that class under the mapping's exposed name; one matching no
/// class is skipped silently.
pub open spec fn spec_resolve_classes(ts: TypeSpec, target: Seq<char>, i: int) -> Option<
    Map<Seq<char>, SpecTypeInfo>,
>
    decreases i,
{
    if i <= 0 {
        Some(Map::empty())
    } else {
        match spec_resolve_classes(ts, target, i - 1) {
            None => None,
            Some(m) => {
                let tm = ts.typemap@[i - 1];
                if module_matches(tm.module, target) {
                    match find_class(ts.classes@, tm.cname@) {
                        Some(c) => match spec_resolve_class(ts, c) {
                            None => None,
                            Some(ci) => Some(m.insert(tm.name@, SpecTypeInfo::Class(ci))),
                        },
                        None => Some(m),
                    }
                } else {
                    Some(m)
                }
            },
        }
    }
}

/// The catalog after adding the first `i` enum declarations of the target
/// module on top of `base`, keyed by exposed enum name.
pub open spec fn spec_add_enums(
    ts: TypeSpec,
    target: Seq<char>,
    base: Map<Seq<char>, SpecTypeInfo>,
    i: int,
) -> Map<Seq<char>, SpecTypeInfo>
    decreases i,
{
    if i <= 0 {
        base
    } else {
        let m = spec_add_enums(ts, target, base, i - 1);
        let e = ts.enums@[i - 1];
        if module_matches(e.module, target) {
            m.insert(e.name@, SpecTypeInfo::Enum(spec_enum_info(e)))
        } else {
            m
        }
    }
}

/// The whole resolution: every mapping of the target module resolved as a
/// class, then every enum of the target module packaged, or `None` exactly
/// when a cyclic type reference was found.
pub open spec fn spec_resolve_types(ts: TypeSpec, target: Seq<char>) -> Option<
    Map<Seq<char>, SpecTypeInfo>,
> {
    match spec_resolve_classes(ts, target, ts.typemap@.len() as int) {
        None => None,
        Some(m) => Some(spec_add_enums(ts, target, m, ts.enums@.len() as int)),
    }
}

// ---------------------------------------------------------------------------
// Executable lookups.
// ---------------------------------------------------------------------------

fn exec_find_mapping<'a>(typemap: &'a Vec<TypeMapping>, cname: &str) -> (r: Option<
    &'a TypeMapping,
>)
    ensures
        match r {
            Some(m) => find_mapping(typemap@, cname@) == Some(*m),
            None => find_mapping(typemap@, cname@) is None,
        },
{
    let n = typemap.len();
    let mut i: usize = 0;
    while i < n
        invariant
            i <= n,
            n == typemap@.len(),
            find_mapping(typemap@, cname@) == find_mapping_from(typemap@, cname@, i as int),
        decreases n - i,
    {
        if crate::text::str_eq(typemap[i].cname.as_str(), cname) {
            return Some(&typemap[i]);
        }
        i += 1;
    }
    None
}

fn exec_find_class<'a>(classes: &'a Vec<Class>, name: &str) -> (r: Option<&'a Class>)
    ensures
        match r {
            Some(c) => find_class(classes@, name@) == Some(*c),
            None => find_class(classes@, name@) is None,
        },
{
    let n = classes.len();
    let mut i: usize = 0;
    while i < n
        invariant
            i <= n,
            n == classes@.len(),
            find_class(classes@, name@) == find_class_from(classes@, name@, i as int),
        decreases n - i,
    {
        if crate::text::str_eq(classes[i].name.as_str(), name) {
            return Some(&classes[i]);
        }
        i += 1;
    }
    None
}

fn exec_find_enum<'a>(enums: &'a Vec<Enum>, cname: &str) -> (r: Option<&'a Enum>)
    ensures
        match r {
            Some(e) => find_enum(enums@, cname@) == Some(*e),
            None => find_enum(enums@, cname@) is None,
        },
{
    let n = enums.len();
    let mut i: usize = 0;
    while i < n
        invariant
            i <= n,
            n == enums@.len(),
            find_enum(enums@, cname@) == find_enum_from(enums@, cname@, i as int),
        decreases n - i,
    {
        let matches = match &enums[i].cname {
            Some(c) => crate::text::str_eq(c.as_str(), cname),
            None => false,
        };
        if matches {
            return Some(&enums[i]);
        }
        i += 1;
    }
    None
}

fn exec_find_gadget<'a>(gadgets: &'a Vec<Gadget>, cname: &str) -> (r: Option<&'a Gadget>)
    ensures
        match r {
            Some(g) => find_gadget(gadgets@, cname@) == Some(*g),
            None => find_gadget(gadgets@, cname@) is None,
        },
{
    let n = gadgets.len();
    let mut i: usize = 0;
    while i < n
        invariant
            i <= n,
            n == gadgets@.len(),
            find_gadget(gadgets@, cname@) == find_gadget_from(gadgets@, cname@, i as int),
        decreases n - i,
    {
        if crate::text::str_eq(gadgets[i].cname.as_str(), cname) {
            return Some(&gadgets[i]);
        }
        i += 1;
    }
    None
}

// ---------------------------------------------------------------------------
// Executable type-reference resolution.
// ---------------------------------------------------------------------------

/// The "unknown" marker value.
pub fn unknown_type() -> (r: Type)
    ensures
        r@ == spec_unknown_type(),
{
    Type {
        type_: TypeSource::Unknown,
        module: String::new(),
        name: String::new(),
        of: None,
    }
}

fn exec_type_resolve(module: &Option<String>, name: &String) -> (r: Type)
    ensures
        r@ == spec_type_resolve(*module, *name),
{
    match module {
        Some(m) => Type {
            type_: TypeSource::Local,
            module: m.clone(),
            name: name.clone(),
            of: None,
        },
        None => Type {
            type_: TypeSource::Qt,
            module: String::new(),
            name: name.clone(),
            of: None,
        },
    }
}

fn exec_param_type(ts: &TypeSpec, ctype: &str) -> (r: Type)
    ensures
        r@ == spec_param_type(*ts, ctype@),
{
    match exec_find_mapping(&ts.typemap, ctype) {
        Some(m) => exec_type_resolve(&m.module, &m.name),
        None => match exec_find_enum(&ts.enums, ctype) {
            Some(e) => exec_type_resolve(&e.module, &e.name),
            None => unknown_type(),
        },
    }
}

/// Resolves a bare type name, unwrapping list wrappers recursively.
fn exec_resolve_bare_type(ts: &TypeSpec, ctype: &str) -> (r: Type)
    ensures
        r@ == spec_resolve_bare_type(*ts, ctype@),
    decreases ctype@.len(),
{
    let n = ctype.unicode_len();
    let qml_list = "QQmlListProperty<";
    let qlist = "QList<";
    let qml_list_len = qml_list.unicode_len();
    let qlist_len = qlist.unicode_len();
    if n > qml_list_len && crate::text::has_prefix(ctype, qml_list) {
        let inner = ctype.substring_char(qml_list_len, n - 1);
        let element = exec_resolve_bare_type(ts, inner);
        Type {
            type_: TypeSource::Qt,
            module: qml_module_name(),
            name: list_type_name(),
            of: Some(Box::new(element)),
        }
    } else if n > qlist_len && crate::text::has_prefix(ctype, qlist) {
        let inner = ctype.substring_char(qlist_len, n - 1);
        let element = exec_resolve_bare_type(ts, inner);
        Type {
            type_: TypeSource::Qt,
            module: qml_module_name(),
            name: list_type_name(),
            of: Some(Box::new(element)),
        }
    } else {
        proof {
            assert(strip_list_wrapper(ctype@) is None);
        }
        exec_param_type(ts, ctype)
    }
}

fn qml_module_name() -> (r: String)
    ensures
        r@ == "qml"@,
{
    "qml".to_owned()
}

fn list_type_name() -> (r: String)
    ensures
        r@ == "list"@,
{
    "list".to_owned()
}

// ---------------------------------------------------------------------------
// Executable property resolution with gadget expansion.
// ---------------------------------------------------------------------------

/// Once a member list fails to expand within its fuel, longer prefixes of it
/// fail too.
proof fn lemma_gadget_members_none(ts: TypeSpec, props: Seq<Property>, fuel: nat, i: int, j: int)
    requires
        spec_gadget_members(ts, props, fuel, i) is None,
        i <= j,
    ensures
        spec_gadget_members(ts, props, fuel, j) is None,
    decreases j - i,
{
    if i < j {
        lemma_gadget_members_none(ts, props, fuel, i, j - 1);
    }
}

fn exec_resolve_property_type(ts: &TypeSpec, ctype: &str, fuel: usize) -> (r: Result<
    PropertyType,
    ResolveError,
>)
    ensures
        match r {
            Ok(pt) => spec_resolve_property_type(*ts, ctype@, fuel as nat) == Some(pt@),
            Err(e) => spec_resolve_property_type(*ts, ctype@, fuel as nat) is None && e
                == ResolveError::CyclicTypeReference,
        },
    decreases fuel, 0int,
{
    match exec_find_gadget(&ts.gadgets, ctype) {
        Some(g) => {
            if fuel == 0 {
                Err(ResolveError::CyclicTypeReference)
            } else {
                match exec_gadget_members(ts, &g.properties, fuel - 1) {
                    Ok(entries) => Ok(PropertyType::Gadget(entries)),
                    Err(e) => Err(e),
                }
            }
        },
        None => Ok(PropertyType::Type(exec_resolve_bare_type(ts, ctype))),
    }
}

fn exec_gadget_members(ts: &TypeSpec, props: &Vec<Property>, fuel: usize) -> (r: Result<
    Vec<(String, PropertyType)>,
    ResolveError,
>)
    ensures
        match r {
            Ok(v) => spec_gadget_members(*ts, props@, fuel as nat, props@.len() as int) == Some(
                gadget_entries_view(v@, v@.len() as int),
            ),
            Err(e) => spec_gadget_members(*ts, props@, fuel as nat, props@.len() as int) is None
                && e == ResolveError::CyclicTypeReference,
        },
    decreases fuel, 1int,
{
    let n = props.len();
    let mut out: Vec<(String, PropertyType)> = Vec::new();
    let mut i: usize = 0;
    while i < n
        invariant
            i <= n,
            n == props@.len(),
            spec_gadget_members(*ts, props@, fuel as nat, i as int) == Some(
                gadget_entries_view(out@, out@.len() as int),
            ),
        decreases n - i,
    {
        let p = &props[i];
        match exec_resolve_property_type(ts, p.type_.as_str(), fuel) {
            Ok(pt) => {
                let ghost prev = out@;
                out.push((p.name.clone(), pt));
                proof {
                    lemma_gadget_entries_view_push(prev, out@[prev.len() as int], prev.len() as int);
                }
            },
            Err(e) => {
                proof {
                    lemma_gadget_members_none(*ts, props@, fuel as nat, i + 1, n as int);
                }
                return Err(e);
            },
        }
        i += 1;
    }
    Ok(out)
}

fn exec_resolve_property(ts: &TypeSpec, p: &Property, fuel: usize) -> (r: Result<
    crate::outform::Property,
    ResolveError,
>)
    ensures
        match r {
            Ok(rp) => spec_resolve_property(*ts, *p, fuel as nat) == Some(rp@),
            Err(e) => spec_resolve_property(*ts, *p, fuel as nat) is None && e
                == ResolveError::CyclicTypeReference,
        },
{
    match exec_resolve_property_type(ts, p.type_.as_str(), fuel) {
        Ok(t) => {
            let mut flags: Vec<Flag> = Vec::new();
            if p.default {
                flags.push(Flag::Default);
            }
            if !p.readable {
                flags.push(Flag::Writeonly);
            } else if !p.writable {
                flags.push(Flag::Readonly);
            }
            proof {
                assert(flags@ =~= spec_property_flags(*p));
            }
            Ok(crate::outform::Property { type_: t, details: p.details.clone(), flags })
        },
        Err(e) => Err(e),
    }
}

// ---------------------------------------------------------------------------
// Executable function and signal resolution.
// ---------------------------------------------------------------------------

fn exec_resolve_params(ts: &TypeSpec, params: &Vec<FnParam>) -> (r: Vec<(String, Type)>)
    ensures
        params_view(r@) == spec_resolve_params(*ts, params@, params@.len() as int),
{
    let n = params.len();
    let mut out: Vec<(String, Type)> = Vec::new();
    let mut i: usize = 0;
    while i < n
        invariant
            i <= n,
            n == params@.len(),
            params_view(out@) == spec_resolve_params(*ts, params@, i as int),
        decreases n - i,
    {
        let t = exec_resolve_bare_type(ts, params[i].type_.as_str());
        out.push((params[i].name.clone(), t));
        proof {
            assert(params_view(out@) =~= spec_resolve_params(*ts, params@, i + 1));
        }
        i += 1;
    }
    out
}

fn exec_resolve_function(ts: &TypeSpec, f: &Function) -> (r: crate::outform::Function)
    ensures
        r@ == spec_resolve_function(*ts, *f),
{
    crate::outform::Function {
        ret: exec_resolve_bare_type(ts, f.ret.as_str()),
        name: f.name.clone(),
        details: f.details.clone(),
        params: exec_resolve_params(ts, &f.params),
    }
}

fn exec_resolve_signal(ts: &TypeSpec, s: &Signal) -> (r: crate::outform::Signal)
    ensures
        r@ == spec_resolve_signal(*ts, *s),
{
    crate::outform::Signal {
        name: s.name.clone(),
        details: s.details.clone(),
        params: exec_resolve_params(ts, &s.params),
    }
}

// ---------------------------------------------------------------------------
// The superclass walk.
// ---------------------------------------------------------------------------

/// The members a class inherits from its non-exposed ancestors, borrowed
/// from the specification, together with the resolved superclass reference.
struct Inherited<'a> {
    superclass: Type,
    properties: Vec<&'a Property>,
    functions: Vec<&'a Function>,
    signals: Vec<&'a Signal>,
}

pub open spec fn deref_props(s: Seq<&Property>) -> Seq<Property> {
    s.map_values(|p: &Property| *p)
}

pub open spec fn deref_funcs(s: Seq<&Function>) -> Seq<Function> {
    s.map_values(|f: &Function| *f)
}

pub open spec fn deref_sigs(s: Seq<&Signal>) -> Seq<Signal> {
    s.map_values(|s_: &Signal| *s_)
}

impl<'a> Inherited<'a> {
    spec fn model(self) -> SpecInherited {
        SpecInherited {
            superclass: self.superclass@,
            properties: deref_props(self.properties@),
            functions: deref_funcs(self.functions@),
            signals: deref_sigs(self.signals@),
        }
    }
}

/// `base` with a borrow of every element of `src` appended.
fn append_refs<'a, T>(base: Vec<&'a T>, src: &'a Vec<T>) -> (r: Vec<&'a T>)
    ensures
        r@.len() == base@.len() + src@.len(),
        forall|q: int| 0 <= q < base@.len() ==> r@[q] == base@[q],
        forall|q: int| 0 <= q < src@.len() ==> *r@[base@.len() + q] == src@[q],
{
    let ghost base0 = base@;
    let mut out = base;
    let n = src.len();
    let mut j: usize = 0;
    while j < n
        invariant
            j <= n,
            n == src@.len(),
            out@.len() == base0.len() + j,
            forall|q: int| 0 <= q < base0.len() ==> out@[q] == base0[q],
            forall|q: int| 0 <= q < j ==> *out@[base0.len() + q] == src@[q],
        decreases n - j,
    {
        out.push(&src[j]);
        j += 1;
    }
    out
}

/// `base` with every borrow held by `src` appended.
fn append_ref_slice<'a, T>(base: Vec<&'a T>, src: &Vec<&'a T>) -> (r: Vec<&'a T>)
    ensures
        r@.len() == base@.len() + src@.len(),
        forall|q: int| 0 <= q < base@.len() ==> r@[q] == base@[q],
        forall|q: int| 0 <= q < src@.len() ==> r@[base@.len() + q] == src@[q],
{
    let ghost base0 = base@;
    let mut out = base;
    let n = src.len();
    let mut j: usize = 0;
    while j < n
        invariant
            j <= n,
            n == src@.len(),
            out@.len() == base0.len() + j,
            forall|q: int| 0 <= q < base0.len() ==> out@[q] == base0[q],
            forall|q: int| 0 <= q < j ==> out@[base0.len() + q] == src@[q],
        decreases n - j,
    {
        let r = src[j];
        out.push(r);
        j += 1;
    }
    out
}

fn exec_walk_superclass<'a>(ts: &'a TypeSpec, current: &str, fuel: usize) -> (r: Result<
    Inherited<'a>,
    ResolveError,
>)
    ensures
        match r {
            Ok(inh) => spec_walk_superclass(*ts, current@, fuel as nat) == Some(inh.model()),
            Err(e) => spec_walk_superclass(*ts, current@, fuel as nat) is None && e
                == ResolveError::CyclicTypeReference,
        },
    decreases fuel,
{
    match exec_find_mapping(&ts.typemap, current) {
        Some(m) => {
            let inh = Inherited {
                superclass: exec_type_resolve(&m.module, &m.name),
                properties: Vec::new(),
                functions: Vec::new(),
                signals: Vec::new(),
            };
            proof {
                assert(inh.model().properties =~= Seq::<Property>::empty());
                assert(inh.model().functions =~= Seq::<Function>::empty());
                assert(inh.model().signals =~= Seq::<Signal>::empty());
            }
            Ok(inh)
        },
        None => match exec_find_class(&ts.classes, current) {
            Some(c) => {
                if fuel == 0 {
                    return Err(ResolveError::CyclicTypeReference);
                }
                match exec_walk_superclass(ts, c.superclass.as_str(), fuel - 1) {
                    Err(e) => Err(e),
                    Ok(rest) => {
                        let ghost rest_model = rest.model();
                        let properties = append_ref_slice(
                            append_refs(Vec::new(), &c.properties),
                            &rest.properties,
                        );
                        let functions = append_ref_slice(
                            append_refs(Vec::new(), &c.functions),
                            &rest.functions,
                        );
                        let signals = append_ref_slice(
                            append_refs(Vec::new(), &c.signals),
                            &rest.signals,
                        );
                        let inh = Inherited {
                            superclass: rest.superclass,
                            properties,
                            functions,
                            signals,
                        };
                        proof {
                            assert(inh.model().properties =~= c.properties@ + rest_model.properties);
                            assert(inh.model().functions =~= c.functions@ + rest_model.functions);
                            assert(inh.model().signals =~= c.signals@ + rest_model.signals);
                        }
                        Ok(inh)
                    },
                }
            },
            None => {
                let inh = Inherited {
                    superclass: unknown_type(),
                    properties: Vec::new(),
                    functions: Vec::new(),
                    signals: Vec::new(),
                };
                proof {
                    assert(inh.model().properties =~= Seq::<Property>::empty());
                    assert(inh.model().functions =~= Seq::<Function>::empty());
                    assert(inh.model().signals =~= Seq::<Signal>::empty());
                }
                Ok(inh)
            },
        },
    }
}

// ---------------------------------------------------------------------------
// Class resolution and the catalog.
// ---------------------------------------------------------------------------

/// Once the member list fails to resolve, longer prefixes of it fail too.
proof fn lemma_property_map_none(ts: TypeSpec, props: Seq<Property>, fuel: nat, i: int, j: int)
    requires
        spec_property_map(ts, props, fuel, i) is None,
        i <= j,
    ensures
        spec_property_map(ts, props, fuel, j) is None,
    decreases j - i,
{
    if i < j {
        lemma_property_map_none(ts, props, fuel, i, j - 1);
    }
}

#[verifier::loop_isolation(false)]
fn exec_resolve_class(ts: &TypeSpec, class: &Class) -> (r: Result<ClassInfo, ResolveError>)
    ensures
        match r {
            Ok(ci) => spec_resolve_class(*ts, *class) == Some(ci@),
            Err(e) => spec_resolve_class(*ts, *class) is None && e
                == ResolveError::CyclicTypeReference,
        },
{
    let inherited = match exec_walk_superclass(ts, class.superclass.as_str(), ts.classes.len()) {
        Ok(inh) => inh,
        Err(e) => {
            return Err(e);
        },
    };
    let ghost inh_model = inherited.model();
    let Inherited { superclass, properties: inh_props, functions: inh_funcs, signals: inh_sigs } =
        inherited;
    let prop_refs = append_refs(inh_props, &class.properties);
    let func_refs = append_refs(inh_funcs, &class.functions);
    let sig_refs = append_refs(inh_sigs, &class.signals);
    let ghost props_seq = inh_model.properties + class.properties@;
    let ghost funcs_seq = inh_model.functions + class.functions@;
    let ghost sigs_seq = inh_model.signals + class.signals@;
    proof {
        assert(deref_props(prop_refs@) =~= props_seq);
        assert(deref_funcs(func_refs@) =~= funcs_seq);
        assert(deref_sigs(sig_refs@) =~= sigs_seq);
    }

    let fuel = ts.gadgets.len();
    let mut properties: Vec<(String, crate::outform::Property)> = Vec::new();
    let pn = prop_refs.len();
    let mut i: usize = 0;
    while i < pn
        invariant
            i <= pn,
            pn == prop_refs@.len(),
            pn == props_seq.len(),
            fuel == ts.gadgets@.len(),
            forall|q: int| 0 <= q < pn ==> *prop_refs@[q] == props_seq[q],
            spec_property_map(*ts, props_seq, fuel as nat, i as int) == Some(
                crate::assoc::assoc_map_full(properties@),
            ),
        decreases pn - i,
    {
        let p = prop_refs[i];
        match exec_resolve_property(ts, p, fuel) {
            Ok(rp) => {
                let ghost prev = properties@;
                properties.push((p.name.clone(), rp));
                proof {
                    crate::assoc::lemma_assoc_map_push(prev, properties@[prev.len() as int]);
                }
            },
            Err(e) => {
                proof {
                    lemma_property_map_none(*ts, props_seq, fuel as nat, i + 1, pn as int);
                }
                return Err(e);
            },
        }
        i += 1;
    }

    let mut functions: Vec<(String, crate::outform::Function)> = Vec::new();
    let fnn = func_refs.len();
    let mut i: usize = 0;
    while i < fnn
        invariant
            i <= fnn,
            fnn == func_refs@.len(),
            fnn == funcs_seq.len(),
            forall|q: int| 0 <= q < fnn ==> *func_refs@[q] == funcs_seq[q],
            spec_function_map(*ts, funcs_seq, i as int) == crate::assoc::assoc_map_full(
                functions@,
            ),
        decreases fnn - i,
    {
        let f = func_refs[i];
        let rf = exec_resolve_function(ts, f);
        let ghost prev = functions@;
        functions.push((f.name.clone(), rf));
        proof {
            crate::assoc::lemma_assoc_map_push(prev, functions@[prev.len() as int]);
        }
        i += 1;
    }

    let mut signals: Vec<(String, crate::outform::Signal)> = Vec::new();
    let sn = sig_refs.len();
    let mut i: usize = 0;
    while i < sn
        invariant
            i <= sn,
            sn == sig_refs@.len(),
            sn == sigs_seq.len(),
            forall|q: int| 0 <= q < sn ==> *sig_refs@[q] == sigs_seq[q],
            spec_signal_map(*ts, sigs_seq, i as int) == crate::assoc::assoc_map_full(signals@),
        decreases sn - i,
    {
        let s = sig_refs[i];
        let rs = exec_resolve_signal(ts, s);
        let ghost prev = signals@;
        signals.push((s.name.clone(), rs));
        proof {
            crate::assoc::lemma_assoc_map_push(prev, signals@[prev.len() as int]);
        }
        i += 1;
    }

    let mut flags: Vec<Flag> = Vec::new();
    if class.singleton {
        flags.push(Flag::Singleton);
    } else if class.uncreatable {
        flags.push(Flag::Uncreatable);
    }
    proof {
        assert(flags@ =~= spec_class_flags(*class));
    }

    Ok(
        ClassInfo {
            superclass,
            description: class.description.clone(),
            details: class.details.clone(),
            flags,
            properties,
            functions,
            signals,
        },
    )
}

/// Once a mapping fails to resolve, longer prefixes of the table fail too.
proof fn lemma_resolve_classes_none(ts: TypeSpec, target: Seq<char>, i: int, j: int)
    requires
        spec_resolve_classes(ts, target, i) is None,
        i <= j,
    ensures
        spec_resolve_classes(ts, target, j) is None,
    decreases j - i,
{
    if i < j {
        lemma_resolve_classes_none(ts, target, i, j - 1);
    }
}

/// Resolves every class and enum of the target module into a fresh catalog.
///
/// On success the catalog's map view is exactly the resolution the spec
/// functions describe; the one error, a cyclic gadget or superclass
/// reference, is returned exactly when that resolution has no value.
pub fn resolve_types(module: &str, typespec: &TypeSpec) -> (r: Result<Catalog, ResolveError>)
    ensures
        match r {
            Ok(catalog) => spec_resolve_types(*typespec, module@) == Some(catalog@),
            Err(e) => spec_resolve_types(*typespec, module@) is None && e
                == ResolveError::CyclicTypeReference,
        },
{
    let mut entries: Vec<(String, TypeInfo)> = Vec::new();
    let tn = typespec.typemap.len();
    let mut i: usize = 0;
    while i < tn
        invariant
            i <= tn,
            tn == typespec.typemap@.len(),
            spec_resolve_classes(*typespec, module@, i as int) == Some(
                crate::assoc::assoc_map_full(entries@),
            ),
        decreases tn - i,
    {
        let mapping = &typespec.typemap[i];
        let in_module = match &mapping.module {
            Some(m) => crate::text::str_eq(m.as_str(), module),
            None => false,
        };
        if in_module {
            match exec_find_class(&typespec.classes, mapping.cname.as_str()) {
                Some(class) => match exec_resolve_class(typespec, class) {
                    Ok(ci) => {
                        let ghost prev = entries@;
                        entries.push((mapping.name.clone(), TypeInfo::Class(ci)));
                        proof {
                            crate::assoc::lemma_assoc_map_push(prev, entries@[prev.len() as int]);
                        }
                    },
                    Err(e) => {
                        proof {
                            lemma_resolve_classes_none(*typespec, module@, i + 1, tn as int);
                        }
                        return Err(e);
                    },
                },
                None => {},
            }
        }
        i += 1;
    }

    let ghost class_map = crate::assoc::assoc_map_full(entries@);
    let en = typespec.enums.len();
    let mut i: usize = 0;
    while i < en
        invariant
            i <= en,
            en == typespec.enums@.len(),
            spec_resolve_classes(*typespec, module@, typespec.typemap@.len() as int) == Some(
                class_map,
            ),
            spec_add_enums(*typespec, module@, class_map, i as int) == crate::assoc::assoc_map_full(
                entries@,
            ),
        decreases en - i,
    {
        let enum_ = &typespec.enums[i];
        let in_module = match &enum_.module {
            Some(m) => crate::text::str_eq(m.as_str(), module),
            None => false,
        };
        if in_module {
            let vn = enum_.variants.len();
            let mut variants: Vec<(String, String)> = Vec::new();
            let mut j: usize = 0;
            while j < vn
                invariant
                    j <= vn,
                    vn == enum_.variants@.len(),
                    spec_variant_map(enum_.variants@, j as int) == crate::assoc::assoc_map_full(
                        variants@,
                    ),
                decreases vn - j,
            {
                let v = &enum_.variants[j];
                let ghost prev = variants@;
                variants.push((v.name.clone(), v.details.clone()));
                proof {
                    crate::assoc::lemma_assoc_map_push(prev, variants@[prev.len() as int]);
                }
                j += 1;
            }
            let info = EnumInfo {
                description: enum_.description.clone(),
                details: enum_.details.clone(),
                variants,
            };
            let ghost prev = entries@;
            entries.push((enum_.name.clone(), TypeInfo::Enum(info)));
            proof {
                crate::assoc::lemma_assoc_map_push(prev, entries@[prev.len() as int]);
            }
        }
        i += 1;
    }

    Ok(Catalog { entries })
}

} // verus!
