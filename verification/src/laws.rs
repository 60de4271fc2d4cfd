//! Laws of the resolution engine, each stated over the spec functions that
//! the executable resolver's contracts are pinned to, and proved once and
//! for all.

use vstd::prelude::*;

use crate::model::Class;
use crate::model::Gadget;
use crate::model::Property;
use crate::model::TypeSpec;
use crate::outform::Catalog;
use crate::outform::SpecClassInfo;
use crate::outform::SpecPropertyType;
use crate::outform::SpecType;
use crate::outform::SpecTypeInfo;
use crate::outform::TypeSource;
use crate::resolver::find_enum;
use crate::resolver::find_gadget;
use crate::resolver::find_mapping;
use crate::resolver::module_matches;
use crate::resolver::qlist_prefix;
use crate::resolver::qml_list_prefix;
use crate::resolver::spec_add_enums;
use crate::resolver::spec_gadget_members;
use crate::resolver::spec_property_flags;
use crate::resolver::spec_property_map;
use crate::resolver::spec_resolve_bare_type;
use crate::resolver::spec_resolve_class;
use crate::resolver::spec_resolve_classes;
use crate::resolver::spec_resolve_property;
use crate::resolver::spec_resolve_property_type;
use crate::resolver::spec_resolve_types;
use crate::resolver::spec_unknown_type;
use crate::resolver::spec_walk_superclass;
use crate::resolver::strip_list_wrapper;

verus! {

// ---------------------------------------------------------------------------
// Idempotence.
// ---------------------------------------------------------------------------

/// Resolution is a pure function of the target module and the immutable
/// specification: any two catalogs obtained for the same module from the
/// same specification are structurally equal.
pub proof fn lemma_resolution_idempotent(ts: TypeSpec, target: Seq<char>, c1: Catalog, c2: Catalog)
    requires
        spec_resolve_types(ts, target) == Some(c1@),
        spec_resolve_types(ts, target) == Some(c2@),
    ensures
        c1@ == c2@,
{
}

// ---------------------------------------------------------------------------
// Override precedence.
// ---------------------------------------------------------------------------

/// In a member table built left to right, the binding for a name is the
/// resolution of the last entry declaring that name.
pub proof fn lemma_property_map_last(ts: TypeSpec, props: Seq<Property>, fuel: nat, i: int, n: int)
    requires
        0 <= i < n <= props.len(),
        forall|j: int| i < j < n ==> props[j].name@ != props[i].name@,
        spec_property_map(ts, props, fuel, n) is Some,
    ensures
        spec_property_map(ts, props, fuel, n)->Some_0.contains_key(props[i].name@),
        Some(spec_property_map(ts, props, fuel, n)->Some_0[props[i].name@]) == spec_resolve_property(
            ts,
            props[i],
            fuel,
        ),
    decreases n,
{
    if i < n - 1 {
        lemma_property_map_last(ts, props, fuel, i, n - 1);
    }
}

/// A class's own declaration of a property always wins over an inherited
/// declaration of the same name: the resolved table binds the name to the
/// resolution of the class's own (last) declaration, with its details and
/// flags, never an ancestor's.
pub proof fn lemma_override_precedence(ts: TypeSpec, c: Class, ci: SpecClassInfo, i: int)
    requires
        spec_resolve_class(ts, c) == Some(ci),
        0 <= i < c.properties@.len(),
        forall|j: int| i < j < c.properties@.len() ==> c.properties@[j].name@ != c.properties@[
            i
        ].name@,
    ensures
        ci.properties.contains_key(c.properties@[i].name@),
        Some(ci.properties[c.properties@[i].name@]) == spec_resolve_property(
            ts,
            c.properties@[i],
            ts.gadgets@.len() as nat,
        ),
        ci.properties[c.properties@[i].name@].details == c.properties@[i].details@,
        ci.properties[c.properties@[i].name@].flags == spec_property_flags(c.properties@[i]),
{
    let inh = spec_walk_superclass(ts, c.superclass@, ts.classes@.len() as nat)->Some_0;
    let props = inh.properties + c.properties@;
    let pos = inh.properties.len() as int + i;
    assert(props[pos] == c.properties@[i]);
    assert forall|j: int| pos < j < props.len() implies props[j].name@ != props[pos].name@ by {
        assert(props[j] == c.properties@[j - inh.properties.len()]);
    }
    lemma_property_map_last(ts, props, ts.gadgets@.len() as nat, pos, props.len() as int);
}

// ---------------------------------------------------------------------------
// List unwrapping.
// ---------------------------------------------------------------------------

/// The list-property wrapper around an element name strips to that name.
pub proof fn lemma_strip_qml_list(inner: Seq<char>)
    ensures
        strip_list_wrapper(qml_list_prefix() + inner + seq!['>']) == Some(inner),
{
    reveal_strlit("QQmlListProperty<");
    let t = qml_list_prefix() + inner + seq!['>'];
    assert(t.subrange(0, qml_list_prefix().len() as int) =~= qml_list_prefix());
    assert(t.subrange(qml_list_prefix().len() as int, t.len() - 1) =~= inner);
}

/// The generic list wrapper around an element name strips to that name.
pub proof fn lemma_strip_qlist(inner: Seq<char>)
    ensures
        strip_list_wrapper(qlist_prefix() + inner + seq!['>']) == Some(inner),
{
    reveal_strlit("QQmlListProperty<");
    reveal_strlit("QList<");
    let t = qlist_prefix() + inner + seq!['>'];
    if t.len() > qml_list_prefix().len() {
        assert(t[1] == 'L');
        assert(qml_list_prefix()[1] == 'Q');
        assert(t.subrange(0, qml_list_prefix().len() as int)[1] == t[1]);
    }
    assert(t.subrange(0, qlist_prefix().len() as int) =~= qlist_prefix());
    assert(t.subrange(qlist_prefix().len() as int, t.len() - 1) =~= inner);
}

/// A property type written with a list wrapper (and not naming a gadget)
/// resolves to the built-in list construct of the target language's own
/// module, wrapped around the resolution of the bare element name.
pub proof fn lemma_list_unwrapping(ts: TypeSpec, ctype: Seq<char>, inner: Seq<char>, fuel: nat)
    requires
        strip_list_wrapper(ctype) == Some(inner),
        find_gadget(ts.gadgets@, ctype) is None,
    ensures
        spec_resolve_property_type(ts, ctype, fuel) == Some(
            SpecPropertyType::Type(
                SpecType {
                    type_: TypeSource::Qt,
                    module: "qml"@,
                    name: "list"@,
                    of: Some(Box::new(spec_resolve_bare_type(ts, inner))),
                },
            ),
        ),
{
}

// ---------------------------------------------------------------------------
// Gadget inlining.
// ---------------------------------------------------------------------------

/// Whether entry `j` of a property list declares the name `k`.
pub open spec fn prop_named(props: Seq<Property>, j: int, k: Seq<char>) -> bool {
    0 <= j < props.len() && props[j].name@ == k
}

/// The domain of a gadget expansion is exactly the names of the expanded
/// properties.
pub proof fn lemma_gadget_members_dom(
    ts: TypeSpec,
    props: Seq<Property>,
    fuel: nat,
    i: int,
    m: Map<Seq<char>, SpecPropertyType>,
)
    requires
        0 <= i <= props.len(),
        spec_gadget_members(ts, props, fuel, i) == Some(m),
    ensures
        forall|k: Seq<char>| #[trigger]
            m.contains_key(k) <==> exists|j: int| j < i && #[trigger] prop_named(props, j, k),
    decreases i,
{
    if i > 0 {
        let prev = spec_gadget_members(ts, props, fuel, i - 1)->Some_0;
        lemma_gadget_members_dom(ts, props, fuel, i - 1, prev);
        assert forall|k: Seq<char>| #[trigger] m.contains_key(k) implies exists|j: int|
            j < i && #[trigger] prop_named(props, j, k) by {
            if k == props[i - 1].name@ {
                assert(prop_named(props, i - 1, k));
            } else {
                assert(prev.contains_key(k));
            }
        }
        assert forall|k: Seq<char>|
            exists|j: int| j < i && #[trigger] prop_named(props, j, k) implies #[trigger]
            m.contains_key(k) by {
            let j = choose|j: int| j < i && #[trigger] prop_named(props, j, k);
            if j < i - 1 {
                assert(prev.contains_key(k));
            }
        }
    }
}

/// In a gadget expansion, the binding for a name is the resolution of the
/// last expanded property declaring that name.
pub proof fn lemma_gadget_members_last(
    ts: TypeSpec,
    props: Seq<Property>,
    fuel: nat,
    i: int,
    n: int,
)
    requires
        0 <= i < n <= props.len(),
        forall|j: int| i < j < n ==> props[j].name@ != props[i].name@,
        spec_gadget_members(ts, props, fuel, n) is Some,
    ensures
        spec_gadget_members(ts, props, fuel, n)->Some_0.contains_key(props[i].name@),
        Some(spec_gadget_members(ts, props, fuel, n)->Some_0[props[i].name@])
            == spec_resolve_property_type(ts, props[i].type_@, fuel),
    decreases n,
{
    if i < n - 1 {
        lemma_gadget_members_last(ts, props, fuel, i, n - 1);
    }
}

/// A property whose native type names a gadget resolves to the gadget's
/// inline expansion, whose entries are exactly the gadget's property names.
pub proof fn lemma_gadget_inlining_shape(ts: TypeSpec, ctype: Seq<char>, g: Gadget, fuel: nat)
    requires
        find_gadget(ts.gadgets@, ctype) == Some(g),
        spec_resolve_property_type(ts, ctype, fuel) is Some,
    ensures
        fuel >= 1,
        spec_gadget_members(
            ts,
            g.properties@,
            (fuel - 1) as nat,
            g.properties@.len() as int,
        ) is Some,
        spec_resolve_property_type(ts, ctype, fuel) == Some(
            SpecPropertyType::Gadget(
                spec_gadget_members(
                    ts,
                    g.properties@,
                    (fuel - 1) as nat,
                    g.properties@.len() as int,
                )->Some_0,
            ),
        ),
        forall|k: Seq<char>| #[trigger]
            spec_gadget_members(
                ts,
                g.properties@,
                (fuel - 1) as nat,
                g.properties@.len() as int,
            )->Some_0.contains_key(k) <==> exists|j: int| #[trigger]
                prop_named(g.properties@, j, k),
{
    let m = spec_gadget_members(
        ts,
        g.properties@,
        (fuel - 1) as nat,
        g.properties@.len() as int,
    )->Some_0;
    lemma_gadget_members_dom(ts, g.properties@, (fuel - 1) as nat, g.properties@.len() as int, m);
    assert forall|k: Seq<char>| #[trigger] m.contains_key(k) implies exists|j: int| #[trigger]
        prop_named(g.properties@, j, k) by {
        let j = choose|j: int| j < g.properties@.len() && #[trigger] prop_named(g.properties@, j, k);
        assert(prop_named(g.properties@, j, k));
    }
    assert forall|k: Seq<char>|
        exists|j: int| #[trigger] prop_named(g.properties@, j, k) implies m.contains_key(k) by {
        let j = choose|j: int| #[trigger] prop_named(g.properties@, j, k);
        assert(j < g.properties@.len() && prop_named(g.properties@, j, k));
    }
}

/// Each entry of a gadget expansion is the independent resolution of that
/// gadget property's own native type: the expansion of the last property
/// declaring a name equals the resolution of its type name at any fuel that
/// succeeds.
pub proof fn lemma_gadget_inlining_member(
    ts: TypeSpec,
    ctype: Seq<char>,
    g: Gadget,
    fuel: nat,
    i: int,
)
    requires
        find_gadget(ts.gadgets@, ctype) == Some(g),
        spec_resolve_property_type(ts, ctype, fuel) is Some,
        0 <= i < g.properties@.len(),
        forall|j: int|
            i < j < g.properties@.len() ==> g.properties@[j].name@ != g.properties@[i].name@,
    ensures
        ({
            let m = spec_resolve_property_type(ts, ctype, fuel)->Some_0->Gadget_0;
            &&& spec_resolve_property_type(ts, ctype, fuel) matches Some(
                SpecPropertyType::Gadget(_),
            )
            &&& m.contains_key(g.properties@[i].name@)
            &&& Some(m[g.properties@[i].name@]) == spec_resolve_property_type(
                ts,
                g.properties@[i].type_@,
                (fuel - 1) as nat,
            )
        }),
{
    lemma_gadget_inlining_shape(ts, ctype, g, fuel);
    lemma_gadget_members_last(
        ts,
        g.properties@,
        (fuel - 1) as nat,
        i,
        g.properties@.len() as int,
    );
}

/// Resolution does not depend on the exact fuel: any fuel that suffices
/// gives the same result, so each gadget entry is the resolution of its
/// type name independently of where in a gadget chain it was expanded.
pub proof fn lemma_resolution_fuel_monotone(ts: TypeSpec, ctype: Seq<char>, f1: nat, f2: nat)
    requires
        f1 <= f2,
        spec_resolve_property_type(ts, ctype, f1) is Some,
    ensures
        spec_resolve_property_type(ts, ctype, f2) == spec_resolve_property_type(ts, ctype, f1),
    decreases f1, 0int, 0int,
{
    match find_gadget(ts.gadgets@, ctype) {
        Some(g) => {
            lemma_members_fuel_monotone(
                ts,
                g.properties@,
                (f1 - 1) as nat,
                (f2 - 1) as nat,
                g.properties@.len() as int,
            );
        },
        None => {},
    }
}

/// Companion of [`lemma_resolution_fuel_monotone`] for member lists.
pub proof fn lemma_members_fuel_monotone(
    ts: TypeSpec,
    props: Seq<Property>,
    f1: nat,
    f2: nat,
    i: int,
)
    requires
        f1 <= f2,
        spec_gadget_members(ts, props, f1, i) is Some,
    ensures
        spec_gadget_members(ts, props, f2, i) == spec_gadget_members(ts, props, f1, i),
    decreases f1, 1int, i,
{
    if i > 0 {
        lemma_members_fuel_monotone(ts, props, f1, f2, i - 1);
        lemma_resolution_fuel_monotone(ts, props[i - 1].type_@, f1, f2);
    }
}

// ---------------------------------------------------------------------------
// Unknown fallback.
// ---------------------------------------------------------------------------

/// A property type that names no gadget, no mapping, no enum, and carries no
/// list wrapper resolves to the unknown marker — with no error, whatever the
/// fuel.
pub proof fn lemma_unknown_fallback(ts: TypeSpec, ctype: Seq<char>, fuel: nat)
    requires
        find_gadget(ts.gadgets@, ctype) is None,
        find_mapping(ts.typemap@, ctype) is None,
        find_enum(ts.enums@, ctype) is None,
        strip_list_wrapper(ctype) is None,
    ensures
        spec_resolve_property_type(ts, ctype, fuel) == Some(
            SpecPropertyType::Type(spec_unknown_type()),
        ),
{
}

// ---------------------------------------------------------------------------
// Module filtering.
// ---------------------------------------------------------------------------

/// Whether type-mapping entry `j` exposes the name `k` in module `target`.
pub open spec fn mapping_provides(ts: TypeSpec, target: Seq<char>, k: Seq<char>, j: int) -> bool {
    0 <= j < ts.typemap@.len() && module_matches(ts.typemap@[j].module, target)
        && ts.typemap@[j].name@ == k
}

/// Whether enum declaration `j` exposes the name `k` in module `target`.
pub open spec fn enum_provides(ts: TypeSpec, target: Seq<char>, k: Seq<char>, j: int) -> bool {
    0 <= j < ts.enums@.len() && module_matches(ts.enums@[j].module, target) && ts.enums@[j].name@
        == k
}

/// Every key of the class part of the catalog comes from a mapping of the
/// target module.
pub proof fn lemma_resolve_classes_dom(
    ts: TypeSpec,
    target: Seq<char>,
    i: int,
    m: Map<Seq<char>, SpecTypeInfo>,
)
    requires
        0 <= i <= ts.typemap@.len(),
        spec_resolve_classes(ts, target, i) == Some(m),
    ensures
        forall|k: Seq<char>| #[trigger]
            m.contains_key(k) ==> exists|j: int| j < i && #[trigger] mapping_provides(
                ts,
                target,
                k,
                j,
            ),
    decreases i,
{
    if i > 0 {
        let prev = spec_resolve_classes(ts, target, i - 1)->Some_0;
        lemma_resolve_classes_dom(ts, target, i - 1, prev);
        assert forall|k: Seq<char>| #[trigger] m.contains_key(k) implies exists|j: int|
            j < i && #[trigger] mapping_provides(ts, target, k, j) by {
            if m == prev.insert(ts.typemap@[i - 1].name@, m[ts.typemap@[i - 1].name@]) && k
                == ts.typemap@[i - 1].name@ && module_matches(ts.typemap@[i - 1].module, target) {
                assert(mapping_provides(ts, target, k, i - 1));
            } else {
                assert(prev.contains_key(k));
            }
        }
    }
}

/// Adding enums adds only keys exposed by enums of the target module.
pub proof fn lemma_add_enums_dom(
    ts: TypeSpec,
    target: Seq<char>,
    base: Map<Seq<char>, SpecTypeInfo>,
    i: int,
)
    requires
        0 <= i <= ts.enums@.len(),
    ensures
        forall|k: Seq<char>| #[trigger]
            spec_add_enums(ts, target, base, i).contains_key(k) ==> base.contains_key(k) || exists|
                j: int,
            | j < i && #[trigger] enum_provides(ts, target, k, j),
    decreases i,
{
    if i > 0 {
        lemma_add_enums_dom(ts, target, base, i - 1);
        let prev = spec_add_enums(ts, target, base, i - 1);
        assert forall|k: Seq<char>| #[trigger]
            spec_add_enums(ts, target, base, i).contains_key(k) implies base.contains_key(k)
            || exists|j: int| j < i && #[trigger] enum_provides(ts, target, k, j) by {
            if module_matches(ts.enums@[i - 1].module, target) && k == ts.enums@[i - 1].name@ {
                assert(enum_provides(ts, target, k, i - 1));
            } else {
                assert(prev.contains_key(k));
            }
        }
    }
}

/// The catalog for a module holds entries only under names exposed in that
/// module: no mapping or enum declared under another module contributes an
/// entry.
pub proof fn lemma_module_filtering(
    ts: TypeSpec,
    target: Seq<char>,
    catalog: Map<Seq<char>, SpecTypeInfo>,
)
    requires
        spec_resolve_types(ts, target) == Some(catalog),
    ensures
        forall|k: Seq<char>| #[trigger]
            catalog.contains_key(k) ==> (exists|j: int| #[trigger] mapping_provides(
                ts,
                target,
                k,
                j,
            )) || (exists|j: int| #[trigger] enum_provides(ts, target, k, j)),
{
    let classes = spec_resolve_classes(ts, target, ts.typemap@.len() as int)->Some_0;
    lemma_resolve_classes_dom(ts, target, ts.typemap@.len() as int, classes);
    lemma_add_enums_dom(ts, target, classes, ts.enums@.len() as int);
}

} // verus!

