//! The example collector: an observer that records, per node kind, the
//! names it saw, in visit order. Type-level events record the bare type
//! name; object fields, enum values and input fields record the qualified
//! id `"<OwningTypeName>.<MemberName>"`; interface fields record the bare
//! field name.

use vstd::prelude::*;
use vstd::string::StringExecFns;

use crate::events::{doc_events, member_events, type_events, SchemaEvent};
use crate::schema::{
    Document, EnumType, EnumValue, Field, InputObjectType, InputValue, InterfaceType, ObjectType,
    ScalarType, TypeDefinition, UnionType,
};
use crate::traversal::{
    apply_event, apply_events, lemma_apply_events_concat, lemma_type_block, traverse,
    SchemaObserver,
};

verus! {

/// What the collector has accumulated: one list of recorded names per node
/// kind, each in visit order.
#[derive(Debug)]
pub struct UserContext {
    pub collected_object_type: Vec<String>,
    pub collected_scalar_type: Vec<String>,
    pub collected_union_type: Vec<String>,
    pub collected_input_type: Vec<String>,
    pub collected_enum_type: Vec<String>,
    pub collected_enum_value: Vec<String>,
    pub collected_interface_type: Vec<String>,
    pub collected_object_type_field: Vec<String>,
    pub collected_interface_type_field: Vec<String>,
    pub collected_input_type_fields: Vec<String>,
}

/// The mathematical value of a [`UserContext`]: each list as a sequence of
/// character sequences.
#[verifier::ext_equal]
pub ghost struct UserContextSnapshot {
    pub collected_object_type: Seq<Seq<char>>,
    pub collected_scalar_type: Seq<Seq<char>>,
    pub collected_union_type: Seq<Seq<char>>,
    pub collected_input_type: Seq<Seq<char>>,
    pub collected_enum_type: Seq<Seq<char>>,
    pub collected_enum_value: Seq<Seq<char>>,
    pub collected_interface_type: Seq<Seq<char>>,
    pub collected_object_type_field: Seq<Seq<char>>,
    pub collected_interface_type_field: Seq<Seq<char>>,
    pub collected_input_type_fields: Seq<Seq<char>>,
}

impl View for UserContext {
    type V = UserContextSnapshot;

    open spec fn view(&self) -> UserContextSnapshot {
        UserContextSnapshot {
            collected_object_type: self.collected_object_type.deep_view(),
            collected_scalar_type: self.collected_scalar_type.deep_view(),
            collected_union_type: self.collected_union_type.deep_view(),
            collected_input_type: self.collected_input_type.deep_view(),
            collected_enum_type: self.collected_enum_type.deep_view(),
            collected_enum_value: self.collected_enum_value.deep_view(),
            collected_interface_type: self.collected_interface_type.deep_view(),
            collected_object_type_field: self.collected_object_type_field.deep_view(),
            collected_interface_type_field: self.collected_interface_type_field.deep_view(),
            collected_input_type_fields: self.collected_input_type_fields.deep_view(),
        }
    }
}

/// The snapshot of a context with nothing collected yet.
pub open spec fn empty_snapshot() -> UserContextSnapshot {
    UserContextSnapshot {
        collected_object_type: Seq::empty(),
        collected_scalar_type: Seq::empty(),
        collected_union_type: Seq::empty(),
        collected_input_type: Seq::empty(),
        collected_enum_type: Seq::empty(),
        collected_enum_value: Seq::empty(),
        collected_interface_type: Seq::empty(),
        collected_object_type_field: Seq::empty(),
        collected_interface_type_field: Seq::empty(),
        collected_input_type_fields: Seq::empty(),
    }
}

impl UserContext {
    /// A context with nothing collected yet.
    pub fn new() -> (r: UserContext)
        ensures
            r@ == empty_snapshot(),
    {
        let r = UserContext {
            collected_object_type: Vec::new(),
            collected_scalar_type: Vec::new(),
            collected_union_type: Vec::new(),
            collected_input_type: Vec::new(),
            collected_enum_type: Vec::new(),
            collected_enum_value: Vec::new(),
            collected_interface_type: Vec::new(),
            collected_object_type_field: Vec::new(),
            collected_interface_type_field: Vec::new(),
            collected_input_type_fields: Vec::new(),
        };
        proof {
            assert(r@ =~= empty_snapshot());
        }
        r
    }
}

/// The qualified id a member is recorded under: the owning type's name, a
/// dot, the member's name.
pub open spec fn member_id(owner: Seq<char>, member: Seq<char>) -> Seq<char> {
    owner + "."@ + member
}

/// Build the qualified id `"<owner>.<member>"`.
fn qualify(owner: &String, member: &String) -> (r: String)
    ensures
        r@ == member_id(owner@, member@),
{
    let mut id = owner.clone();
    id.append(".");
    id.append(member.as_str());
    id
}

/// The collector observer: it overrides every callback and records a name
/// for each event it receives.
pub struct Visitor;

impl SchemaObserver<UserContext> for Visitor {
    open spec fn on_object_type(&self, node: ObjectType, ctx: UserContextSnapshot) -> UserContextSnapshot {
        UserContextSnapshot {
            collected_object_type: ctx.collected_object_type.push(node.name@),
            ..ctx
        }
    }

    open spec fn on_object_type_field(
        &self,
        node: Field,
        owner: ObjectType,
        ctx: UserContextSnapshot,
    ) -> UserContextSnapshot {
        UserContextSnapshot {
            collected_object_type_field: ctx.collected_object_type_field.push(
                member_id(owner.name@, node.name@),
            ),
            ..ctx
        }
    }

    open spec fn on_interface_type(
        &self,
        node: InterfaceType,
        ctx: UserContextSnapshot,
    ) -> UserContextSnapshot {
        UserContextSnapshot {
            collected_interface_type: ctx.collected_interface_type.push(node.name@),
            ..ctx
        }
    }

    open spec fn on_interface_type_field(
        &self,
        node: Field,
        owner: InterfaceType,
        ctx: UserContextSnapshot,
    ) -> UserContextSnapshot {
        UserContextSnapshot {
            collected_interface_type_field: ctx.collected_interface_type_field.push(node.name@),
            ..ctx
        }
    }

    open spec fn on_union_type(&self, node: UnionType, ctx: UserContextSnapshot) -> UserContextSnapshot {
        UserContextSnapshot { collected_union_type: ctx.collected_union_type.push(node.name@), ..ctx }
    }

    open spec fn on_scalar_type(&self, node: ScalarType, ctx: UserContextSnapshot) -> UserContextSnapshot {
        UserContextSnapshot {
            collected_scalar_type: ctx.collected_scalar_type.push(node.name@),
            ..ctx
        }
    }

    open spec fn on_enum_type(&self, node: EnumType, ctx: UserContextSnapshot) -> UserContextSnapshot {
        UserContextSnapshot { collected_enum_type: ctx.collected_enum_type.push(node.name@), ..ctx }
    }

    open spec fn on_enum_value(
        &self,
        node: EnumValue,
        owner: EnumType,
        ctx: UserContextSnapshot,
    ) -> UserContextSnapshot {
        UserContextSnapshot {
            collected_enum_value: ctx.collected_enum_value.push(
                member_id(owner.name@, node.name@),
            ),
            ..ctx
        }
    }

    open spec fn on_input_object_type(
        &self,
        node: InputObjectType,
        ctx: UserContextSnapshot,
    ) -> UserContextSnapshot {
        UserContextSnapshot { collected_input_type: ctx.collected_input_type.push(node.name@), ..ctx }
    }

    open spec fn on_input_object_type_field(
        &self,
        node: InputValue,
        owner: InputObjectType,
        ctx: UserContextSnapshot,
    ) -> UserContextSnapshot {
        UserContextSnapshot {
            collected_input_type_fields: ctx.collected_input_type_fields.push(
                member_id(owner.name@, node.name@),
            ),
            ..ctx
        }
    }

    fn enter_object_type(&self, node: &ObjectType, ctx: &mut UserContext) {
        ctx.collected_object_type.push(node.name.clone());
        proof {
            assert(ctx@ =~= self.on_object_type(*node, old(ctx)@));
        }
    }

    fn enter_object_type_field(&self, node: &Field, owner: &ObjectType, ctx: &mut UserContext) {
        let id = qualify(&owner.name, &node.name);
        let ghost idv = id@;
        ctx.collected_object_type_field.push(id);
        proof {
            assert(ctx@ =~= self.on_object_type_field(*node, *owner, old(ctx)@));
        }
    }

    fn enter_interface_type(&self, node: &InterfaceType, ctx: &mut UserContext) {
        ctx.collected_interface_type.push(node.name.clone());
        proof {
            assert(ctx@ =~= self.on_interface_type(*node, old(ctx)@));
        }
    }

    fn enter_interface_type_field(
        &self,
        node: &Field,
        owner: &InterfaceType,
        ctx: &mut UserContext,
    ) {
        ctx.collected_interface_type_field.push(node.name.clone());
        proof {
            assert(ctx@ =~= self.on_interface_type_field(*node, *owner, old(ctx)@));
        }
    }

    fn enter_union_type(&self, node: &UnionType, ctx: &mut UserContext) {
        ctx.collected_union_type.push(node.name.clone());
        proof {
            assert(ctx@ =~= self.on_union_type(*node, old(ctx)@));
        }
    }

    fn enter_scalar_type(&self, node: &ScalarType, ctx: &mut UserContext) {
        ctx.collected_scalar_type.push(node.name.clone());
        proof {
            assert(ctx@ =~= self.on_scalar_type(*node, old(ctx)@));
        }
    }

    fn enter_enum_type(&self, node: &EnumType, ctx: &mut UserContext) {
        ctx.collected_enum_type.push(node.name.clone());
        proof {
            assert(ctx@ =~= self.on_enum_type(*node, old(ctx)@));
        }
    }

    fn enter_enum_value(&self, node: &EnumValue, owner: &EnumType, ctx: &mut UserContext) {
        let id = qualify(&owner.name, &node.name);
        let ghost idv = id@;
        ctx.collected_enum_value.push(id);
        proof {
            assert(ctx@ =~= self.on_enum_value(*node, *owner, old(ctx)@));
        }
    }

    fn enter_input_object_type(&self, node: &InputObjectType, ctx: &mut UserContext) {
        ctx.collected_input_type.push(node.name.clone());
        proof {
            assert(ctx@ =~= self.on_input_object_type(*node, old(ctx)@));
        }
    }

    fn enter_input_object_type_field(
        &self,
        node: &InputValue,
        owner: &InputObjectType,
        ctx: &mut UserContext,
    ) {
        let id = qualify(&owner.name, &node.name);
        let ghost idv = id@;
        ctx.collected_input_type_fields.push(id);
        proof {
            assert(ctx@ =~= self.on_input_object_type_field(*node, *owner, old(ctx)@));
        }
    }
}

/// Two snapshots, the second's lists appended to the first's.
pub open spec fn snapshot_concat(
    a: UserContextSnapshot,
    b: UserContextSnapshot,
) -> UserContextSnapshot {
    UserContextSnapshot {
        collected_object_type: a.collected_object_type + b.collected_object_type,
        collected_scalar_type: a.collected_scalar_type + b.collected_scalar_type,
        collected_union_type: a.collected_union_type + b.collected_union_type,
        collected_input_type: a.collected_input_type + b.collected_input_type,
        collected_enum_type: a.collected_enum_type + b.collected_enum_type,
        collected_enum_value: a.collected_enum_value + b.collected_enum_value,
        collected_interface_type: a.collected_interface_type + b.collected_interface_type,
        collected_object_type_field: a.collected_object_type_field + b.collected_object_type_field,
        collected_interface_type_field: a.collected_interface_type_field
            + b.collected_interface_type_field,
        collected_input_type_fields: a.collected_input_type_fields + b.collected_input_type_fields,
    }
}

/// What the collector records for one type definition: its name in the
/// list of its kind, and one entry per member in the matching member list.
pub open spec fn collected_of_def(td: TypeDefinition) -> UserContextSnapshot {
    match td {
        TypeDefinition::Object(o) => UserContextSnapshot {
            collected_object_type: seq![o.name@],
            collected_object_type_field: o.fields@.map(
                |i: int, f: Field| member_id(o.name@, f.name@),
            ),
            ..empty_snapshot()
        },
        TypeDefinition::Interface(t) => UserContextSnapshot {
            collected_interface_type: seq![t.name@],
            collected_interface_type_field: t.fields@.map(|i: int, f: Field| f.name@),
            ..empty_snapshot()
        },
        TypeDefinition::Union(u) => UserContextSnapshot {
            collected_union_type: seq![u.name@],
            ..empty_snapshot()
        },
        TypeDefinition::Enum(e) => UserContextSnapshot {
            collected_enum_type: seq![e.name@],
            collected_enum_value: e.values@.map(
                |i: int, v: EnumValue| member_id(e.name@, v.name@),
            ),
            ..empty_snapshot()
        },
        TypeDefinition::Scalar(s) => UserContextSnapshot {
            collected_scalar_type: seq![s.name@],
            ..empty_snapshot()
        },
        TypeDefinition::InputObject(io) => UserContextSnapshot {
            collected_input_type: seq![io.name@],
            collected_input_type_fields: io.fields@.map(
                |i: int, f: InputValue| member_id(io.name@, f.name@),
            ),
            ..empty_snapshot()
        },
    }
}

/// Everything the collector records for a document: each definition's
/// record, in declaration order.
pub open spec fn collected_of(defs: Seq<TypeDefinition>) -> UserContextSnapshot
    decreases defs.len(),
{
    if defs.len() == 0 {
        empty_snapshot()
    } else {
        snapshot_concat(collected_of_def(defs[0]), collected_of(defs.drop_first()))
    }
}

/// Folding the collector over an Object type's field events appends that
/// type's qualified field ids, and touches nothing else.
proof fn lemma_object_member_fold(o: ObjectType, fs: Seq<Field>, c: UserContextSnapshot)
    ensures
        apply_events::<UserContext, Visitor>(
            Visitor,
            fs.map(|i: int, f: Field| SchemaEvent::EnterObjectTypeField(f, o)),
            c,
        ) == (UserContextSnapshot {
            collected_object_type_field: c.collected_object_type_field + fs.map(
                |i: int, f: Field| member_id(o.name@, f.name@),
            ),
            ..c
        }),
    decreases fs.len(),
{
    let evs = fs.map(|i: int, f: Field| SchemaEvent::EnterObjectTypeField(f, o));
    let ids = fs.map(|i: int, f: Field| member_id(o.name@, f.name@));
    if fs.len() == 0 {
        assert((UserContextSnapshot {
            collected_object_type_field: c.collected_object_type_field + ids,
            ..c
        }) =~= c);
    } else {
        let rest = fs.drop_first();
        let c1 = (Visitor {}).on_object_type_field(fs.first(), o, c);
        assert(evs.first() == SchemaEvent::EnterObjectTypeField(fs.first(), o));
        assert(evs.drop_first() =~= rest.map(
            |i: int, f: Field| SchemaEvent::EnterObjectTypeField(f, o),
        ));
        lemma_object_member_fold(o, rest, c1);
        assert(c1.collected_object_type_field + rest.map(
            |i: int, f: Field| member_id(o.name@, f.name@),
        ) =~= c.collected_object_type_field + ids);
        assert(apply_events::<UserContext, Visitor>(Visitor, evs, c) =~= (UserContextSnapshot {
            collected_object_type_field: c.collected_object_type_field + ids,
            ..c
        }));
    }
}

/// Folding the collector over an Interface type's field events appends the
/// bare field names, and touches nothing else.
proof fn lemma_interface_member_fold(t: InterfaceType, fs: Seq<Field>, c: UserContextSnapshot)
    ensures
        apply_events::<UserContext, Visitor>(
            Visitor,
            fs.map(|i: int, f: Field| SchemaEvent::EnterInterfaceTypeField(f, t)),
            c,
        ) == (UserContextSnapshot {
            collected_interface_type_field: c.collected_interface_type_field + fs.map(
                |i: int, f: Field| f.name@,
            ),
            ..c
        }),
    decreases fs.len(),
{
    let evs = fs.map(|i: int, f: Field| SchemaEvent::EnterInterfaceTypeField(f, t));
    let ids = fs.map(|i: int, f: Field| f.name@);
    if fs.len() == 0 {
        assert((UserContextSnapshot {
            collected_interface_type_field: c.collected_interface_type_field + ids,
            ..c
        }) =~= c);
    } else {
        let rest = fs.drop_first();
        let c1 = (Visitor {}).on_interface_type_field(fs.first(), t, c);
        assert(evs.first() == SchemaEvent::EnterInterfaceTypeField(fs.first(), t));
        assert(evs.drop_first() =~= rest.map(
            |i: int, f: Field| SchemaEvent::EnterInterfaceTypeField(f, t),
        ));
        lemma_interface_member_fold(t, rest, c1);
        assert(c1.collected_interface_type_field + rest.map(|i: int, f: Field| f.name@)
            =~= c.collected_interface_type_field + ids);
        assert(apply_events::<UserContext, Visitor>(Visitor, evs, c) =~= (UserContextSnapshot {
            collected_interface_type_field: c.collected_interface_type_field + ids,
            ..c
        }));
    }
}

/// Folding the collector over an Enum type's value events appends that
/// type's qualified value ids, and touches nothing else.
proof fn lemma_enum_member_fold(e: EnumType, vs: Seq<EnumValue>, c: UserContextSnapshot)
    ensures
        apply_events::<UserContext, Visitor>(
            Visitor,
            vs.map(|i: int, v: EnumValue| SchemaEvent::EnterEnumValue(v, e)),
            c,
        ) == (UserContextSnapshot {
            collected_enum_value: c.collected_enum_value + vs.map(
                |i: int, v: EnumValue| member_id(e.name@, v.name@),
            ),
            ..c
        }),
    decreases vs.len(),
{
    let evs = vs.map(|i: int, v: EnumValue| SchemaEvent::EnterEnumValue(v, e));
    let ids = vs.map(|i: int, v: EnumValue| member_id(e.name@, v.name@));
    if vs.len() == 0 {
        assert((UserContextSnapshot { collected_enum_value: c.collected_enum_value + ids, ..c })
            =~= c);
    } else {
        let rest = vs.drop_first();
        let c1 = (Visitor {}).on_enum_value(vs.first(), e, c);
        assert(evs.first() == SchemaEvent::EnterEnumValue(vs.first(), e));
        assert(evs.drop_first() =~= rest.map(
            |i: int, v: EnumValue| SchemaEvent::EnterEnumValue(v, e),
        ));
        lemma_enum_member_fold(e, rest, c1);
        assert(c1.collected_enum_value + rest.map(
            |i: int, v: EnumValue| member_id(e.name@, v.name@),
        ) =~= c.collected_enum_value + ids);
        assert(apply_events::<UserContext, Visitor>(Visitor, evs, c) =~= (UserContextSnapshot {
            collected_enum_value: c.collected_enum_value + ids,
            ..c
        }));
    }
}

/// Folding the collector over an Input-Object type's field events appends
/// that type's qualified field ids, and touches nothing else.
proof fn lemma_input_member_fold(io: InputObjectType, fs: Seq<InputValue>, c: UserContextSnapshot)
    ensures
        apply_events::<UserContext, Visitor>(
            Visitor,
            fs.map(|i: int, f: InputValue| SchemaEvent::EnterInputObjectTypeField(f, io)),
            c,
        ) == (UserContextSnapshot {
            collected_input_type_fields: c.collected_input_type_fields + fs.map(
                |i: int, f: InputValue| member_id(io.name@, f.name@),
            ),
            ..c
        }),
    decreases fs.len(),
{
    let evs = fs.map(|i: int, f: InputValue| SchemaEvent::EnterInputObjectTypeField(f, io));
    let ids = fs.map(|i: int, f: InputValue| member_id(io.name@, f.name@));
    if fs.len() == 0 {
        assert((UserContextSnapshot {
            collected_input_type_fields: c.collected_input_type_fields + ids,
            ..c
        }) =~= c);
    } else {
        let rest = fs.drop_first();
        let c1 = (Visitor {}).on_input_object_type_field(fs.first(), io, c);
        assert(evs.first() == SchemaEvent::EnterInputObjectTypeField(fs.first(), io));
        assert(evs.drop_first() =~= rest.map(
            |i: int, f: InputValue| SchemaEvent::EnterInputObjectTypeField(f, io),
        ));
        lemma_input_member_fold(io, rest, c1);
        assert(c1.collected_input_type_fields + rest.map(
            |i: int, f: InputValue| member_id(io.name@, f.name@),
        ) =~= c.collected_input_type_fields + ids);
        assert(apply_events::<UserContext, Visitor>(Visitor, evs, c) =~= (UserContextSnapshot {
            collected_input_type_fields: c.collected_input_type_fields + ids,
            ..c
        }));
    }
}

/// Folding the collector over one definition's event block appends exactly
/// that definition's record.
proof fn lemma_collector_def_block(td: TypeDefinition, c: UserContextSnapshot)
    ensures
        apply_events::<UserContext, Visitor>(Visitor, type_events(td), c) == snapshot_concat(
            c,
            collected_of_def(td),
        ),
{
    lemma_type_block::<UserContext, Visitor>(Visitor, td, c);
    let c1 = apply_event::<UserContext, Visitor>(Visitor, crate::events::enter_event(td), c);
    match td {
        TypeDefinition::Object(o) => {
            lemma_object_member_fold(o, o.fields@, c1);
            assert(apply_events::<UserContext, Visitor>(Visitor, type_events(td), c)
                =~= snapshot_concat(c, collected_of_def(td)));
        },
        TypeDefinition::Interface(t) => {
            lemma_interface_member_fold(t, t.fields@, c1);
            assert(apply_events::<UserContext, Visitor>(Visitor, type_events(td), c)
                =~= snapshot_concat(c, collected_of_def(td)));
        },
        TypeDefinition::Union(u) => {
            assert(apply_events::<UserContext, Visitor>(Visitor, member_events(td), c1) == c1);
            assert(c1 =~= snapshot_concat(c, collected_of_def(td)));
        },
        TypeDefinition::Enum(e) => {
            lemma_enum_member_fold(e, e.values@, c1);
            assert(apply_events::<UserContext, Visitor>(Visitor, type_events(td), c)
                =~= snapshot_concat(c, collected_of_def(td)));
        },
        TypeDefinition::Scalar(s) => {
            assert(apply_events::<UserContext, Visitor>(Visitor, member_events(td), c1) == c1);
            assert(c1 =~= snapshot_concat(c, collected_of_def(td)));
        },
        TypeDefinition::InputObject(io) => {
            lemma_input_member_fold(io, io.fields@, c1);
            assert(apply_events::<UserContext, Visitor>(Visitor, type_events(td), c)
                =~= snapshot_concat(c, collected_of_def(td)));
        },
    }
}

/// What the collector computes, in closed form: walking a document from
/// any starting snapshot appends, list by list, exactly the document's
/// record — each type's name in the list of its kind and each member's
/// entry in the matching member list, all in declaration order.
pub proof fn lemma_collector_characterization(defs: Seq<TypeDefinition>, c: UserContextSnapshot)
    ensures
        apply_events::<UserContext, Visitor>(Visitor, doc_events(defs), c) == snapshot_concat(
            c,
            collected_of(defs),
        ),
    decreases defs.len(),
{
    if defs.len() == 0 {
        assert(snapshot_concat(c, empty_snapshot()) =~= c);
    } else {
        let rest = defs.drop_first();
        lemma_apply_events_concat::<UserContext, Visitor>(
            Visitor,
            type_events(defs[0]),
            doc_events(rest),
            c,
        );
        lemma_collector_def_block(defs[0], c);
        let mid = snapshot_concat(c, collected_of_def(defs[0]));
        lemma_collector_characterization(rest, mid);
        assert(snapshot_concat(mid, collected_of(rest)) =~= snapshot_concat(
            c,
            snapshot_concat(collected_of_def(defs[0]), collected_of(rest)),
        ));
    }
}

impl Visitor {
    /// Walk the document with a fresh context and hand back what was
    /// collected: the collector's models folded over the document's event
    /// sequence from the empty snapshot — in closed form, exactly the
    /// document's record, [`collected_of`].
    pub fn collect_visited_info(&self, document: &Document) -> (r: UserContext)
        ensures
            r@ == apply_events::<UserContext, Visitor>(
                *self,
                doc_events(document.definitions@),
                empty_snapshot(),
            ),
            r@ == collected_of(document.definitions@),
    {
        let mut collected = UserContext::new();
        traverse(document, self, &mut collected);
        proof {
            assert(*self == (Visitor {}));
            lemma_collector_characterization(document.definitions@, empty_snapshot());
            assert(snapshot_concat(empty_snapshot(), collected_of(document.definitions@))
                =~= collected_of(document.definitions@));
        }
        collected
    }
}

} // verus!
