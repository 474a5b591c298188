//! The traversal engine: a stateless driver that walks a document's type
//! definitions in declaration order, and for each kind of node dispatches
//! the matching observer callback, threading one mutable context through
//! the whole walk.
//!
//! The engine's contract: the final context is the spec-level fold of the
//! observer's callback models over the document's event sequence
//! ([`crate::events::doc_events`]), applied to the initial context. Every
//! property of a concrete walk follows from that fold.

use vstd::prelude::*;

use crate::events::{doc_events, enter_event, member_events, type_events, SchemaEvent};
use crate::schema::{
    Document, EnumType, EnumValue, Field, InputObjectType, InputValue, InterfaceType, ObjectType,
    ScalarType, TypeDefinition, UnionType,
};

verus! {

/// The observer capability: one callback per (container kind, node kind)
/// pair, plus one spec function per callback that models what the callback
/// does to the context's view. Each callback's contract ties it to its
/// model, so the engine's contract can speak of a whole walk as a fold of
/// the models. A collector that does not care about some node kind
/// implements that callback as a no-op and its model as the identity.
pub trait SchemaObserver<C: View>: Sized {
    /// Model of `enter_object_type` on the context's view.
    spec fn on_object_type(&self, node: ObjectType, ctx: C::V) -> C::V;

    /// Model of `enter_object_type_field` on the context's view.
    spec fn on_object_type_field(&self, node: Field, owner: ObjectType, ctx: C::V) -> C::V;

    /// Model of `enter_interface_type` on the context's view.
    spec fn on_interface_type(&self, node: InterfaceType, ctx: C::V) -> C::V;

    /// Model of `enter_interface_type_field` on the context's view.
    spec fn on_interface_type_field(&self, node: Field, owner: InterfaceType, ctx: C::V) -> C::V;

    /// Model of `enter_union_type` on the context's view.
    spec fn on_union_type(&self, node: UnionType, ctx: C::V) -> C::V;

    /// Model of `enter_scalar_type` on the context's view.
    spec fn on_scalar_type(&self, node: ScalarType, ctx: C::V) -> C::V;

    /// Model of `enter_enum_type` on the context's view.
    spec fn on_enum_type(&self, node: EnumType, ctx: C::V) -> C::V;

    /// Model of `enter_enum_value` on the context's view.
    spec fn on_enum_value(&self, node: EnumValue, owner: EnumType, ctx: C::V) -> C::V;

    /// Model of `enter_input_object_type` on the context's view.
    spec fn on_input_object_type(&self, node: InputObjectType, ctx: C::V) -> C::V;

    /// Model of `enter_input_object_type_field` on the context's view.
    spec fn on_input_object_type_field(
        &self,
        node: InputValue,
        owner: InputObjectType,
        ctx: C::V,
    ) -> C::V;

    /// Called once for each Object type definition, in declaration order.
    fn enter_object_type(&self, node: &ObjectType, ctx: &mut C)
        ensures
            final(ctx)@ == self.on_object_type(*node, old(ctx)@),
    ;

    /// Called once for each field of an Object type, in declaration order,
    /// with the owning type.
    fn enter_object_type_field(&self, node: &Field, owner: &ObjectType, ctx: &mut C)
        ensures
            final(ctx)@ == self.on_object_type_field(*node, *owner, old(ctx)@),
    ;

    /// Called once for each Interface type definition, in declaration
    /// order.
    fn enter_interface_type(&self, node: &InterfaceType, ctx: &mut C)
        ensures
            final(ctx)@ == self.on_interface_type(*node, old(ctx)@),
    ;

    /// Called once for each field of an Interface type, in declaration
    /// order, with the owning type.
    fn enter_interface_type_field(&self, node: &Field, owner: &InterfaceType, ctx: &mut C)
        ensures
            final(ctx)@ == self.on_interface_type_field(*node, *owner, old(ctx)@),
    ;

    /// Called once for each Union type definition, in declaration order.
    fn enter_union_type(&self, node: &UnionType, ctx: &mut C)
        ensures
            final(ctx)@ == self.on_union_type(*node, old(ctx)@),
    ;

    /// Called once for each Scalar type definition, in declaration order.
    fn enter_scalar_type(&self, node: &ScalarType, ctx: &mut C)
        ensures
            final(ctx)@ == self.on_scalar_type(*node, old(ctx)@),
    ;

    /// Called once for each Enum type definition, in declaration order.
    fn enter_enum_type(&self, node: &EnumType, ctx: &mut C)
        ensures
            final(ctx)@ == self.on_enum_type(*node, old(ctx)@),
    ;

    /// Called once for each value of an Enum type, in declaration order,
    /// with the owning type.
    fn enter_enum_value(&self, node: &EnumValue, owner: &EnumType, ctx: &mut C)
        ensures
            final(ctx)@ == self.on_enum_value(*node, *owner, old(ctx)@),
    ;

    /// Called once for each Input-Object type definition, in declaration
    /// order.
    fn enter_input_object_type(&self, node: &InputObjectType, ctx: &mut C)
        ensures
            final(ctx)@ == self.on_input_object_type(*node, old(ctx)@),
    ;

    /// Called once for each input field of an Input-Object type, in
    /// declaration order, with the owning type.
    fn enter_input_object_type_field(
        &self,
        node: &InputValue,
        owner: &InputObjectType,
        ctx: &mut C,
    )
        ensures
            final(ctx)@ == self.on_input_object_type_field(*node, *owner, old(ctx)@),
    ;
}

/// What one dispatched event does to the context's view, by the observer's
/// models.
pub open spec fn apply_event<C: View, V: SchemaObserver<C>>(
    v: V,
    e: SchemaEvent,
    c: C::V,
) -> C::V {
    match e {
        SchemaEvent::EnterObjectType(o) => v.on_object_type(o, c),
        SchemaEvent::EnterObjectTypeField(f, o) => v.on_object_type_field(f, o, c),
        SchemaEvent::EnterInterfaceType(t) => v.on_interface_type(t, c),
        SchemaEvent::EnterInterfaceTypeField(f, t) => v.on_interface_type_field(f, t, c),
        SchemaEvent::EnterUnionType(u) => v.on_union_type(u, c),
        SchemaEvent::EnterScalarType(s) => v.on_scalar_type(s, c),
        SchemaEvent::EnterEnumType(e) => v.on_enum_type(e, c),
        SchemaEvent::EnterEnumValue(val, e) => v.on_enum_value(val, e, c),
        SchemaEvent::EnterInputObjectType(io) => v.on_input_object_type(io, c),
        SchemaEvent::EnterInputObjectTypeField(f, io) => v.on_input_object_type_field(f, io, c),
    }
}

/// What a whole event sequence does to the context's view: the fold of
/// [`apply_event`] over the sequence, first event first.
pub open spec fn apply_events<C: View, V: SchemaObserver<C>>(
    v: V,
    es: Seq<SchemaEvent>,
    c: C::V,
) -> C::V
    decreases es.len(),
{
    if es.len() == 0 {
        c
    } else {
        apply_events(v, es.drop_first(), apply_event(v, es.first(), c))
    }
}

/// Folding a concatenation is folding the first part, then the second.
pub proof fn lemma_apply_events_concat<C: View, V: SchemaObserver<C>>(
    v: V,
    s1: Seq<SchemaEvent>,
    s2: Seq<SchemaEvent>,
    c: C::V,
)
    ensures
        apply_events::<C, V>(v, s1 + s2, c) == apply_events::<C, V>(
            v,
            s2,
            apply_events::<C, V>(v, s1, c),
        ),
    decreases s1.len(),
{
    if s1.len() == 0 {
        assert(s1 + s2 =~= s2);
    } else {
        assert((s1 + s2).first() == s1.first());
        assert((s1 + s2).drop_first() =~= s1.drop_first() + s2);
        lemma_apply_events_concat::<C, V>(v, s1.drop_first(), s2, apply_event::<C, V>(
            v,
            s1.first(),
            c,
        ));
    }
}

/// Folding one more event at the end applies that event to the fold of the
/// rest.
pub proof fn lemma_apply_events_push<C: View, V: SchemaObserver<C>>(
    v: V,
    es: Seq<SchemaEvent>,
    e: SchemaEvent,
    c: C::V,
)
    ensures
        apply_events::<C, V>(v, es.push(e), c) == apply_event::<C, V>(
            v,
            e,
            apply_events::<C, V>(v, es, c),
        ),
{
    assert(es.push(e) =~= es + seq![e]);
    lemma_apply_events_concat::<C, V>(v, es, seq![e], c);
    let rest = apply_events::<C, V>(v, es, c);
    assert(seq![e].first() == e);
    assert(seq![e].drop_first() =~= Seq::<SchemaEvent>::empty());
    assert(apply_events::<C, V>(v, seq![e].drop_first(), apply_event::<C, V>(v, e, rest))
        == apply_event::<C, V>(v, e, rest));
}

/// Walk the document: for each type definition in declaration order,
/// dispatch its type-level callback, then one member-level callback per
/// member in declaration order; Union and Scalar types get only the
/// type-level callback. The final context is exactly the fold of the
/// observer's models over the document's event sequence, applied to the
/// initial context — so a walk is a pure function of the document, the
/// observer and the initial context.
pub fn traverse<C: View, V: SchemaObserver<C>>(document: &Document, observer: &V, context: &mut C)
    ensures
        final(context)@ == apply_events::<C, V>(
            *observer,
            doc_events(document.definitions@),
            old(context)@,
        ),
{
    let ghost defs = document.definitions@;
    let ghost c0 = context@;
    let n = document.definitions.len();
    let mut i: usize = 0;
    while i < n
        invariant
            n == defs.len(),
            i <= n,
            defs == document.definitions@,
            c0 == old(context)@,
            context@ == apply_events::<C, V>(*observer, doc_events(defs.take(i as int)), c0),
        decreases n - i,
    {
        let td = &document.definitions[i];
        let ghost c_before = context@;
        proof {
            crate::events::lemma_doc_events_take_succ(defs, i as int);
        }
        match td {
            TypeDefinition::Object(o) => {
                observer.enter_object_type(o, context);
                traverse_object_fields(o, observer, context);
                proof {
                    lemma_type_block::<C, V>(*observer, *td, c_before);
                }
            },
            TypeDefinition::Interface(t) => {
                observer.enter_interface_type(t, context);
                traverse_interface_fields(t, observer, context);
                proof {
                    lemma_type_block::<C, V>(*observer, *td, c_before);
                }
            },
            TypeDefinition::Union(u) => {
                observer.enter_union_type(u, context);
                proof {
                    lemma_single_block::<C, V>(*observer, *td, c_before);
                }
            },
            TypeDefinition::Enum(e) => {
                observer.enter_enum_type(e, context);
                traverse_enum_values(e, observer, context);
                proof {
                    lemma_type_block::<C, V>(*observer, *td, c_before);
                }
            },
            TypeDefinition::Scalar(s) => {
                observer.enter_scalar_type(s, context);
                proof {
                    lemma_single_block::<C, V>(*observer, *td, c_before);
                }
            },
            TypeDefinition::InputObject(io) => {
                observer.enter_input_object_type(io, context);
                traverse_input_fields(io, observer, context);
                proof {
                    lemma_type_block::<C, V>(*observer, *td, c_before);
                }
            },
        }
        proof {
            lemma_apply_events_concat::<C, V>(
                *observer,
                doc_events(defs.take(i as int)),
                type_events(defs[i as int]),
                c0,
            );
        }
        i = i + 1;
    }
    proof {
        assert(defs.take(n as int) =~= defs);
    }
}

/// Folding one definition's event block applies its enter event, then its
/// member events.
pub proof fn lemma_type_block<C: View, V: SchemaObserver<C>>(v: V, td: TypeDefinition, c: C::V)
    ensures
        apply_events::<C, V>(v, type_events(td), c) == apply_events::<C, V>(
            v,
            member_events(td),
            apply_event::<C, V>(v, enter_event(td), c),
        ),
{
    assert(type_events(td).len() > 0);
    assert(type_events(td).first() == enter_event(td));
    assert(type_events(td).drop_first() =~= member_events(td));
}

/// The events of a type with no members are its enter event alone, so the
/// fold over its block is one application of that event.
proof fn lemma_single_block<C: View, V: SchemaObserver<C>>(v: V, td: TypeDefinition, c: C::V)
    requires
        member_events(td).len() == 0,
    ensures
        apply_events::<C, V>(v, type_events(td), c) == apply_event::<C, V>(v, enter_event(td), c),
{
    lemma_type_block::<C, V>(v, td, c);
    let entered = apply_event::<C, V>(v, enter_event(td), c);
    assert(apply_events::<C, V>(v, member_events(td), entered) == entered);
}

/// Dispatch the member-level callbacks of one Object type, in declaration
/// order, after its type-level callback has run.
fn traverse_object_fields<C: View, V: SchemaObserver<C>>(o: &ObjectType, observer: &V, ctx: &mut C)
    ensures
        final(ctx)@ == apply_events::<C, V>(
            *observer,
            member_events(TypeDefinition::Object(*o)),
            old(ctx)@,
        ),
{
    let ghost td = TypeDefinition::Object(*o);
    let ghost c0 = ctx@;
    let n = o.fields.len();
    let mut j: usize = 0;
    while j < n
        invariant
            n == o.fields@.len(),
            j <= n,
            c0 == old(ctx)@,
            ctx@ == apply_events::<C, V>(*observer, member_events(td).take(j as int), c0),
            td == TypeDefinition::Object(*o),
        decreases n - j,
    {
        let f = &o.fields[j];
        observer.enter_object_type_field(f, o, ctx);
        proof {
            assert(member_events(td)[j as int] == SchemaEvent::EnterObjectTypeField(
                o.fields@[j as int],
                *o,
            ));
            assert(member_events(td).take(j + 1) =~= member_events(td).take(j as int).push(
                member_events(td)[j as int],
            ));
            lemma_apply_events_push::<C, V>(
                *observer,
                member_events(td).take(j as int),
                member_events(td)[j as int],
                c0,
            );
        }
        j = j + 1;
    }
    proof {
        assert(member_events(td).take(n as int) =~= member_events(td));
    }
}

/// Dispatch the member-level callbacks of one Interface type, in
/// declaration order, after its type-level callback has run.
fn traverse_interface_fields<C: View, V: SchemaObserver<C>>(
    t: &InterfaceType,
    observer: &V,
    ctx: &mut C,
)
    ensures
        final(ctx)@ == apply_events::<C, V>(
            *observer,
            member_events(TypeDefinition::Interface(*t)),
            old(ctx)@,
        ),
{
    let ghost td = TypeDefinition::Interface(*t);
    let ghost c0 = ctx@;
    let n = t.fields.len();
    let mut j: usize = 0;
    while j < n
        invariant
            n == t.fields@.len(),
            j <= n,
            c0 == old(ctx)@,
            ctx@ == apply_events::<C, V>(*observer, member_events(td).take(j as int), c0),
            td == TypeDefinition::Interface(*t),
        decreases n - j,
    {
        let f = &t.fields[j];
        observer.enter_interface_type_field(f, t, ctx);
        proof {
            assert(member_events(td)[j as int] == SchemaEvent::EnterInterfaceTypeField(
                t.fields@[j as int],
                *t,
            ));
            assert(member_events(td).take(j + 1) =~= member_events(td).take(j as int).push(
                member_events(td)[j as int],
            ));
            lemma_apply_events_push::<C, V>(
                *observer,
                member_events(td).take(j as int),
                member_events(td)[j as int],
                c0,
            );
        }
        j = j + 1;
    }
    proof {
        assert(member_events(td).take(n as int) =~= member_events(td));
    }
}

/// Dispatch the member-level callbacks of one Enum type, in declaration
/// order, after its type-level callback has run.
fn traverse_enum_values<C: View, V: SchemaObserver<C>>(e: &EnumType, observer: &V, ctx: &mut C)
    ensures
        final(ctx)@ == apply_events::<C, V>(
            *observer,
            member_events(TypeDefinition::Enum(*e)),
            old(ctx)@,
        ),
{
    let ghost td = TypeDefinition::Enum(*e);
    let ghost c0 = ctx@;
    let n = e.values.len();
    let mut j: usize = 0;
    while j < n
        invariant
            n == e.values@.len(),
            j <= n,
            c0 == old(ctx)@,
            ctx@ == apply_events::<C, V>(*observer, member_events(td).take(j as int), c0),
            td == TypeDefinition::Enum(*e),
        decreases n - j,
    {
        let v = &e.values[j];
        observer.enter_enum_value(v, e, ctx);
        proof {
            assert(member_events(td)[j as int] == SchemaEvent::EnterEnumValue(
                e.values@[j as int],
                *e,
            ));
            assert(member_events(td).take(j + 1) =~= member_events(td).take(j as int).push(
                member_events(td)[j as int],
            ));
            lemma_apply_events_push::<C, V>(
                *observer,
                member_events(td).take(j as int),
                member_events(td)[j as int],
                c0,
            );
        }
        j = j + 1;
    }
    proof {
        assert(member_events(td).take(n as int) =~= member_events(td));
    }
}

/// Dispatch the member-level callbacks of one Input-Object type, in
/// declaration order, after its type-level callback has run.
fn traverse_input_fields<C: View, V: SchemaObserver<C>>(
    io: &InputObjectType,
    observer: &V,
    ctx: &mut C,
)
    ensures
        final(ctx)@ == apply_events::<C, V>(
            *observer,
            member_events(TypeDefinition::InputObject(*io)),
            old(ctx)@,
        ),
{
    let ghost td = TypeDefinition::InputObject(*io);
    let ghost c0 = ctx@;
    let n = io.fields.len();
    let mut j: usize = 0;
    while j < n
        invariant
            n == io.fields@.len(),
            j <= n,
            c0 == old(ctx)@,
            ctx@ == apply_events::<C, V>(*observer, member_events(td).take(j as int), c0),
            td == TypeDefinition::InputObject(*io),
        decreases n - j,
    {
        let f = &io.fields[j];
        observer.enter_input_object_type_field(f, io, ctx);
        proof {
            assert(member_events(td)[j as int] == SchemaEvent::EnterInputObjectTypeField(
                io.fields@[j as int],
                *io,
            ));
            assert(member_events(td).take(j + 1) =~= member_events(td).take(j as int).push(
                member_events(td)[j as int],
            ));
            lemma_apply_events_push::<C, V>(
                *observer,
                member_events(td).take(j as int),
                member_events(td)[j as int],
                c0,
            );
        }
        j = j + 1;
    }
    proof {
        assert(member_events(td).take(n as int) =~= member_events(td));
    }
}

/// Determinism: a walk is a pure function of the document, the observer
/// and the initial context, so two walks of one document by one observer
/// from equal initial contexts end in equal contexts.
pub proof fn lemma_traversal_deterministic<C: View, V: SchemaObserver<C>>(
    v: V,
    defs: Seq<TypeDefinition>,
    c1: C::V,
    c2: C::V,
)
    requires
        c1 == c2,
    ensures
        apply_events::<C, V>(v, doc_events(defs), c1) == apply_events::<C, V>(
            v,
            doc_events(defs),
            c2,
        ),
{
}

/// The observer that implements no callback: every callback is a no-op and
/// every model is the identity.
pub struct NoOpObserver;

impl<C: View> SchemaObserver<C> for NoOpObserver {
    open spec fn on_object_type(&self, node: ObjectType, ctx: C::V) -> C::V {
        ctx
    }

    open spec fn on_object_type_field(&self, node: Field, owner: ObjectType, ctx: C::V) -> C::V {
        ctx
    }

    open spec fn on_interface_type(&self, node: InterfaceType, ctx: C::V) -> C::V {
        ctx
    }

    open spec fn on_interface_type_field(
        &self,
        node: Field,
        owner: InterfaceType,
        ctx: C::V,
    ) -> C::V {
        ctx
    }

    open spec fn on_union_type(&self, node: UnionType, ctx: C::V) -> C::V {
        ctx
    }

    open spec fn on_scalar_type(&self, node: ScalarType, ctx: C::V) -> C::V {
        ctx
    }

    open spec fn on_enum_type(&self, node: EnumType, ctx: C::V) -> C::V {
        ctx
    }

    open spec fn on_enum_value(&self, node: EnumValue, owner: EnumType, ctx: C::V) -> C::V {
        ctx
    }

    open spec fn on_input_object_type(&self, node: InputObjectType, ctx: C::V) -> C::V {
        ctx
    }

    open spec fn on_input_object_type_field(
        &self,
        node: InputValue,
        owner: InputObjectType,
        ctx: C::V,
    ) -> C::V {
        ctx
    }

    fn enter_object_type(&self, node: &ObjectType, ctx: &mut C) {
    }

    fn enter_object_type_field(&self, node: &Field, owner: &ObjectType, ctx: &mut C) {
    }

    fn enter_interface_type(&self, node: &InterfaceType, ctx: &mut C) {
    }

    fn enter_interface_type_field(&self, node: &Field, owner: &InterfaceType, ctx: &mut C) {
    }

    fn enter_union_type(&self, node: &UnionType, ctx: &mut C) {
    }

    fn enter_scalar_type(&self, node: &ScalarType, ctx: &mut C) {
    }

    fn enter_enum_type(&self, node: &EnumType, ctx: &mut C) {
    }

    fn enter_enum_value(&self, node: &EnumValue, owner: &EnumType, ctx: &mut C) {
    }

    fn enter_input_object_type(&self, node: &InputObjectType, ctx: &mut C) {
    }

    fn enter_input_object_type_field(
        &self,
        node: &InputValue,
        owner: &InputObjectType,
        ctx: &mut C,
    ) {
    }
}

/// No-op default: an observer whose every model is the identity leaves any
/// context it is given unchanged, over any event sequence — so a
/// [`NoOpObserver`] walk of any document ends in the context it started
/// from.
pub proof fn lemma_noop_leaves_context<C: View>(es: Seq<SchemaEvent>, c: C::V)
    ensures
        apply_events::<C, NoOpObserver>(NoOpObserver, es, c) == c,
    decreases es.len(),
{
    if es.len() > 0 {
        lemma_noop_leaves_context::<C>(es.drop_first(), c);
    }
}

} // verus!
