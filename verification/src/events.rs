//! The ghost model of one traversal: the sequence of "enter" events that
//! walking a document emits, in order.
//!
//! A document's event sequence is, for each type definition in declaration
//! order, the type-level enter event followed by one member-level event per
//! member in declaration order. Union and Scalar types contribute only
//! their type-level event.

use vstd::prelude::*;

use crate::schema::{
    EnumType, EnumValue, Field, InputObjectType, InputValue, InterfaceType, ObjectType,
    ScalarType, TypeDefinition, UnionType,
};

verus! {

/// One dispatched callback: the node it carries and, for member-level
/// events, the owning type definition.
pub enum SchemaEvent {
    EnterObjectType(ObjectType),
    EnterObjectTypeField(Field, ObjectType),
    EnterInterfaceType(InterfaceType),
    EnterInterfaceTypeField(Field, InterfaceType),
    EnterUnionType(UnionType),
    EnterScalarType(ScalarType),
    EnterEnumType(EnumType),
    EnterEnumValue(EnumValue, EnumType),
    EnterInputObjectType(InputObjectType),
    EnterInputObjectTypeField(InputValue, InputObjectType),
}

/// The type-level enter event of one type definition.
pub open spec fn enter_event(td: TypeDefinition) -> SchemaEvent {
    match td {
        TypeDefinition::Object(o) => SchemaEvent::EnterObjectType(o),
        TypeDefinition::Interface(t) => SchemaEvent::EnterInterfaceType(t),
        TypeDefinition::Union(u) => SchemaEvent::EnterUnionType(u),
        TypeDefinition::Enum(e) => SchemaEvent::EnterEnumType(e),
        TypeDefinition::Scalar(s) => SchemaEvent::EnterScalarType(s),
        TypeDefinition::InputObject(io) => SchemaEvent::EnterInputObjectType(io),
    }
}

/// The member-level events of one type definition, in declaration order.
pub open spec fn member_events(td: TypeDefinition) -> Seq<SchemaEvent> {
    match td {
        TypeDefinition::Object(o) => o.fields@.map(
            |i: int, f: Field| SchemaEvent::EnterObjectTypeField(f, o),
        ),
        TypeDefinition::Interface(t) => t.fields@.map(
            |i: int, f: Field| SchemaEvent::EnterInterfaceTypeField(f, t),
        ),
        TypeDefinition::Union(u) => Seq::empty(),
        TypeDefinition::Enum(e) => e.values@.map(
            |i: int, v: EnumValue| SchemaEvent::EnterEnumValue(v, e),
        ),
        TypeDefinition::Scalar(s) => Seq::empty(),
        TypeDefinition::InputObject(io) => io.fields@.map(
            |i: int, f: InputValue| SchemaEvent::EnterInputObjectTypeField(f, io),
        ),
    }
}

/// All events of one type definition: its enter event, then its member
/// events.
pub open spec fn type_events(td: TypeDefinition) -> Seq<SchemaEvent> {
    seq![enter_event(td)] + member_events(td)
}

/// All events of a document: the events of each type definition, in
/// declaration order.
pub open spec fn doc_events(defs: Seq<TypeDefinition>) -> Seq<SchemaEvent>
    decreases defs.len(),
{
    if defs.len() == 0 {
        Seq::empty()
    } else {
        type_events(defs[0]) + doc_events(defs.drop_first())
    }
}

/// Whether an event is a type-level enter event.
pub open spec fn is_type_level(e: SchemaEvent) -> bool {
    match e {
        SchemaEvent::EnterObjectType(_) => true,
        SchemaEvent::EnterInterfaceType(_) => true,
        SchemaEvent::EnterUnionType(_) => true,
        SchemaEvent::EnterEnumType(_) => true,
        SchemaEvent::EnterScalarType(_) => true,
        SchemaEvent::EnterInputObjectType(_) => true,
        _ => false,
    }
}

/// Whether an event is a member-level enter event.
pub open spec fn is_member_level(e: SchemaEvent) -> bool {
    !is_type_level(e)
}

/// The member-level events of a document, in order: each definition's
/// member events, concatenated in declaration order.
pub open spec fn doc_member_events(defs: Seq<TypeDefinition>) -> Seq<SchemaEvent>
    decreases defs.len(),
{
    if defs.len() == 0 {
        Seq::empty()
    } else {
        member_events(defs[0]) + doc_member_events(defs.drop_first())
    }
}

/// The events of a one-longer prefix of the document are the events of the
/// shorter prefix followed by the events of the added definition.
pub proof fn lemma_doc_events_take_succ(defs: Seq<TypeDefinition>, i: int)
    requires
        0 <= i < defs.len(),
    ensures
        doc_events(defs.take(i + 1)) == doc_events(defs.take(i)) + type_events(defs[i]),
    decreases i,
{
    if i == 0 {
        let s1 = defs.take(1);
        assert(s1[0] == defs[0]);
        assert(s1.drop_first() =~= Seq::<TypeDefinition>::empty());
        assert(doc_events(s1.drop_first()) == Seq::<SchemaEvent>::empty());
        assert(doc_events(s1) == type_events(defs[0]) + Seq::<SchemaEvent>::empty());
        assert(defs.take(0) =~= Seq::<TypeDefinition>::empty());
        assert(doc_events(defs.take(0)) == Seq::<SchemaEvent>::empty());
        assert(type_events(defs[0]) + Seq::<SchemaEvent>::empty() =~= Seq::<
            SchemaEvent,
        >::empty() + type_events(defs[0]));
    } else {
        let dd = defs.drop_first();
        lemma_doc_events_take_succ(dd, i - 1);
        assert(defs.take(i + 1).drop_first() =~= dd.take(i));
        assert(defs.take(i + 1)[0] == defs[0]);
        assert(defs.take(i).drop_first() =~= dd.take(i - 1));
        assert(defs.take(i)[0] == defs[0]);
        assert(dd[i - 1] == defs[i]);
        assert(doc_events(defs.take(i + 1)) == type_events(defs[0]) + (doc_events(dd.take(i - 1))
            + type_events(defs[i])));
        assert(type_events(defs[0]) + (doc_events(dd.take(i - 1)) + type_events(defs[i])) =~= (
        type_events(defs[0]) + doc_events(dd.take(i - 1))) + type_events(defs[i]));
    }
}

/// Every member-level event of a type definition matches that definition's
/// kind and carries that very definition as the owner: an Object's fields
/// are routed only to the Object field event, an Interface's only to the
/// Interface field event, an Enum's values only to the enum value event, an
/// Input-Object's fields only to the input field event, and Union and
/// Scalar types have no member-level events at all.
pub proof fn lemma_kind_routing(td: TypeDefinition)
    ensures
        td matches TypeDefinition::Object(o) ==> forall|i: int|
            0 <= i < member_events(td).len() ==> member_events(td)[i]
                == SchemaEvent::EnterObjectTypeField(o.fields@[i], o),
        td matches TypeDefinition::Interface(t) ==> forall|i: int|
            0 <= i < member_events(td).len() ==> member_events(td)[i]
                == SchemaEvent::EnterInterfaceTypeField(t.fields@[i], t),
        td matches TypeDefinition::Enum(e) ==> forall|i: int|
            0 <= i < member_events(td).len() ==> member_events(td)[i]
                == SchemaEvent::EnterEnumValue(e.values@[i], e),
        td matches TypeDefinition::InputObject(io) ==> forall|i: int|
            0 <= i < member_events(td).len() ==> member_events(td)[i]
                == SchemaEvent::EnterInputObjectTypeField(io.fields@[i], io),
        td is Union || td is Scalar ==> member_events(td).len() == 0,
{
}

/// Order preservation and completeness at the type level: the type-level
/// events of a document, in emission order, are exactly one enter event per
/// type definition, in declaration order.
pub proof fn lemma_type_event_order(defs: Seq<TypeDefinition>)
    ensures
        doc_events(defs).filter(|e: SchemaEvent| is_type_level(e)) == defs.map(
            |i: int, td: TypeDefinition| enter_event(td),
        ),
    decreases defs.len(),
{
    let pred = |e: SchemaEvent| is_type_level(e);
    broadcast use vstd::seq_lib::group_filter_ensures;

    if defs.len() == 0 {
        reveal(Seq::filter);
        assert(doc_events(defs).filter(pred) =~= defs.map(
            |i: int, td: TypeDefinition| enter_event(td),
        ));
    } else {
        lemma_type_event_order(defs.drop_first());
        Seq::filter_distributes_over_add(type_events(defs[0]), doc_events(defs.drop_first()), pred);
        lemma_type_events_filter(defs[0]);
        assert(seq![enter_event(defs[0])] + defs.drop_first().map(
            |i: int, td: TypeDefinition| enter_event(td),
        ) =~= defs.map(|i: int, td: TypeDefinition| enter_event(td)));
    }
}

/// The type-level events of one definition's event block: exactly its one
/// enter event; its member events are all member-level.
proof fn lemma_type_events_filter(td: TypeDefinition)
    ensures
        type_events(td).filter(|e: SchemaEvent| is_type_level(e)) == seq![enter_event(td)],
        member_events(td).filter(|e: SchemaEvent| is_type_level(e)) == Seq::<
            SchemaEvent,
        >::empty(),
        member_events(td).filter(|e: SchemaEvent| is_member_level(e)) == member_events(td),
{
    let pred = |e: SchemaEvent| is_type_level(e);
    lemma_all_member_filter(member_events(td));
    Seq::filter_distributes_over_add(seq![enter_event(td)], member_events(td), pred);
    reveal(Seq::filter);
    assert(seq![enter_event(td)].drop_last() =~= Seq::<SchemaEvent>::empty());
    assert(seq![enter_event(td)].filter(pred) =~= seq![enter_event(td)]);
    assert(type_events(td).filter(pred) =~= seq![enter_event(td)]);
}

/// Filtering a sequence of member-level events keeps all of them, and
/// filtering it for type-level events keeps none.
proof fn lemma_all_member_filter(es: Seq<SchemaEvent>)
    requires
        forall|i: int| 0 <= i < es.len() ==> is_member_level(#[trigger] es[i]),
    ensures
        es.filter(|e: SchemaEvent| is_type_level(e)) == Seq::<SchemaEvent>::empty(),
        es.filter(|e: SchemaEvent| is_member_level(e)) == es,
    decreases es.len(),
{
    reveal(Seq::filter);
    if es.len() == 0 {
        assert(es.filter(|e: SchemaEvent| is_type_level(e)) =~= Seq::<SchemaEvent>::empty());
        assert(es.filter(|e: SchemaEvent| is_member_level(e)) =~= es);
    } else {
        lemma_all_member_filter(es.drop_last());
        assert(es.drop_last().filter(|e: SchemaEvent| is_member_level(e)).push(es.last()) =~= es);
    }
}

/// Order preservation and completeness at the member level: the
/// member-level events of a document, in emission order, are exactly each
/// definition's member events, one per member, grouped by definition in
/// declaration order.
pub proof fn lemma_member_event_order(defs: Seq<TypeDefinition>)
    ensures
        doc_events(defs).filter(|e: SchemaEvent| is_member_level(e)) == doc_member_events(defs),
    decreases defs.len(),
{
    let mpred = |e: SchemaEvent| is_member_level(e);
    if defs.len() == 0 {
        reveal(Seq::filter);
        assert(doc_events(defs).filter(mpred) =~= doc_member_events(defs));
    } else {
        lemma_member_event_order(defs.drop_first());
        Seq::filter_distributes_over_add(
            type_events(defs[0]),
            doc_events(defs.drop_first()),
            mpred,
        );
        Seq::filter_distributes_over_add(seq![enter_event(defs[0])], member_events(defs[0]), mpred);
        lemma_type_events_filter(defs[0]);
        reveal(Seq::filter);
        assert(seq![enter_event(defs[0])].drop_last() =~= Seq::<SchemaEvent>::empty());
        assert(seq![enter_event(defs[0])].filter(mpred) =~= Seq::<SchemaEvent>::empty());
        assert(type_events(defs[0]).filter(mpred) =~= member_events(defs[0]));
    }
}

/// Completeness, counted: a document emits exactly one type-level event per
/// type definition, and exactly one member-level event per member.
pub proof fn lemma_completeness(defs: Seq<TypeDefinition>)
    ensures
        doc_events(defs).filter(|e: SchemaEvent| is_type_level(e)).len() == defs.len(),
        doc_events(defs).filter(|e: SchemaEvent| is_member_level(e)).len() == total_members(defs),
    decreases defs.len(),
{
    lemma_type_event_order(defs);
    lemma_member_event_order(defs);
    if defs.len() > 0 {
        lemma_completeness(defs.drop_first());
        lemma_member_event_order(defs.drop_first());
    }
}

/// How many members a document declares, over all its type definitions.
pub open spec fn total_members(defs: Seq<TypeDefinition>) -> nat
    decreases defs.len(),
{
    if defs.len() == 0 {
        0
    } else {
        member_events(defs[0]).len() + total_members(defs.drop_first())
    }
}

} // verus!
