use vstd::prelude::*;

use crate::text::same_text;

verus! {

/// The semantic type of a field.
#[derive(Clone, Copy, Debug, PartialEq, Eq)]
pub enum FieldType {
    /// The entity's own key.
    Id,
    Text,
    /// The key of a row of another entity.
    Reference,
}

#[derive(Clone, Debug)]
pub struct Field {
    pub name: String,
    pub ty: FieldType,
    pub nullable: bool,
}

#[derive(Clone, Copy, Debug, PartialEq, Eq)]
pub enum RelationKind {
    /// This entity holds `foreign_key`, which refers to the key of `target`.
    BelongsTo,
    /// Rows of `target` hold `foreign_key`, which refers back to this entity's key.
    HasMany,
}

/// A relation names its target entity by tag; the registry resolves the tag.
#[derive(Clone, Debug)]
pub struct Relation {
    pub name: String,
    pub kind: RelationKind,
    pub target: String,
    pub foreign_key: String,
}

/// What is declared of one entity: its fields, key, constraints and relations.
#[derive(Clone, Debug)]
pub struct EntityDescriptor {
    pub name: String,
    pub fields: Vec<Field>,
    pub key: String,
    pub auto_key: bool,
    pub unique: Vec<String>,
    pub indexed: Vec<String>,
    pub relations: Vec<Relation>,
}

#[derive(Clone, Debug)]
pub enum SchemaError {
    /// The registry has been sealed by a connection.
    Sealed,
    /// An entity of this name is already registered.
    DuplicateEntity(String),
    /// The named entity's key is not one of its non-nullable fields.
    InvalidKey(String),
    /// The named entity constrains an undeclared field, or has a relation that does not resolve.
    Unresolved(String),
}

pub open spec fn field_declared(d: EntityDescriptor, name: Seq<char>) -> bool {
    exists|i: int| 0 <= i < d.fields@.len() && (#[trigger] d.fields@[i]).name@ == name
}

pub open spec fn key_valid(d: EntityDescriptor) -> bool {
    exists|i: int|
        0 <= i < d.fields@.len() && (#[trigger] d.fields@[i]).name@ == d.key@ && !d.fields@[i].nullable
}

pub open spec fn entity_registered(es: Seq<EntityDescriptor>, name: Seq<char>) -> bool {
    exists|i: int| 0 <= i < es.len() && (#[trigger] es[i]).name@ == name
}

/// A `belongs_to` relation needs its foreign key among the entity's own fields; a
/// `has_many` one needs it among the fields of a registered target.
pub open spec fn relation_resolves(
    es: Seq<EntityDescriptor>,
    d: EntityDescriptor,
    r: Relation,
) -> bool {
    match r.kind {
        RelationKind::BelongsTo => entity_registered(es, r.target@) && field_declared(
            d,
            r.foreign_key@,
        ),
        RelationKind::HasMany => exists|j: int|
            0 <= j < es.len() && (#[trigger] es[j]).name@ == r.target@ && field_declared(
                es[j],
                r.foreign_key@,
            ),
    }
}

pub open spec fn entity_resolves(es: Seq<EntityDescriptor>, d: EntityDescriptor) -> bool {
    &&& forall|i: int| 0 <= i < d.unique@.len() ==> field_declared(d, (#[trigger] d.unique@[i])@)
    &&& forall|i: int|
        0 <= i < d.indexed@.len() ==> field_declared(d, (#[trigger] d.indexed@[i])@)
    &&& forall|i: int|
        0 <= i < d.relations@.len() ==> relation_resolves(es, d, #[trigger] d.relations@[i])
}

pub open spec fn schema_resolves(es: Seq<EntityDescriptor>) -> bool {
    forall|i: int| 0 <= i < es.len() ==> entity_resolves(es, #[trigger] es[i])
}

pub open spec fn names_distinct(es: Seq<EntityDescriptor>) -> bool {
    forall|i: int, j: int| 0 <= i < j < es.len() ==> (#[trigger] es[i]).name@ != (#[trigger] es[j]).name@
}

/// The registered entities, in registration order; sealed once a connection is prepared.
pub struct SchemaRegistry {
    entities: Vec<EntityDescriptor>,
    sealed: bool,
}

fn find_field(d: &EntityDescriptor, name: &String) -> (r: Option<usize>)
    ensures
        r is Some <==> field_declared(*d, name@),
        r matches Some(i) ==> i < d.fields@.len() && d.fields@[i as int].name@ == name@,
{
    let mut i: usize = 0;
    while i < d.fields.len()
        invariant
            i <= d.fields@.len(),
            forall|j: int| 0 <= j < i ==> d.fields@[j].name@ != name@,
        decreases d.fields@.len() - i,
    {
        if same_text(d.fields[i].name.as_str(), name.as_str()) {
            return Some(i);
        }
        i = i + 1;
    }
    None
}

fn find_entity(es: &Vec<EntityDescriptor>, name: &str) -> (r: Option<usize>)
    ensures
        r is Some <==> entity_registered(es@, name@),
        r matches Some(i) ==> i < es@.len() && es@[i as int].name@ == name@,
{
    let mut i: usize = 0;
    while i < es.len()
        invariant
            i <= es@.len(),
            forall|j: int| 0 <= j < i ==> es@[j].name@ != name@,
        decreases es@.len() - i,
    {
        if same_text(es[i].name.as_str(), name) {
            return Some(i);
        }
        i = i + 1;
    }
    None
}

fn key_ok(d: &EntityDescriptor) -> (r: bool)
    ensures
        r == key_valid(*d),
{
    let mut i: usize = 0;
    while i < d.fields.len()
        invariant
            i <= d.fields@.len(),
            forall|j: int| 0 <= j < i ==> !(d.fields@[j].name@ == d.key@ && !d.fields@[j].nullable),
        decreases d.fields@.len() - i,
    {
        if !d.fields[i].nullable && same_text(d.fields[i].name.as_str(), d.key.as_str()) {
            return true;
        }
        i = i + 1;
    }
    false
}

fn all_declared(d: &EntityDescriptor, names: &Vec<String>) -> (r: bool)
    ensures
        r == forall|i: int| 0 <= i < names@.len() ==> field_declared(*d, (#[trigger] names@[i])@),
{
    let mut i: usize = 0;
    while i < names.len()
        invariant
            i <= names@.len(),
            forall|j: int| 0 <= j < i ==> field_declared(*d, (#[trigger] names@[j])@),
        decreases names@.len() - i,
    {
        if find_field(d, &names[i]).is_none() {
            return false;
        }
        i = i + 1;
    }
    true
}

fn relation_ok(es: &Vec<EntityDescriptor>, d: &EntityDescriptor, r: &Relation) -> (ok: bool)
    ensures
        ok == relation_resolves(es@, *d, *r),
{
    match r.kind {
        RelationKind::BelongsTo => find_entity(es, r.target.as_str()).is_some() && find_field(
            d,
            &r.foreign_key,
        ).is_some(),
        RelationKind::HasMany => {
            let mut j: usize = 0;
            while j < es.len()
                invariant
                    j <= es@.len(),
                    r.kind == RelationKind::HasMany,
                    forall|k: int|
                        0 <= k < j ==> !(es@[k].name@ == r.target@ && field_declared(
                            es@[k],
                            r.foreign_key@,
                        )),
                decreases es@.len() - j,
            {
                if same_text(es[j].name.as_str(), r.target.as_str()) && find_field(
                    &es[j],
                    &r.foreign_key,
                ).is_some() {
                    assert(es@[j as int].name@ == r.target@ && field_declared(
                        es@[j as int],
                        r.foreign_key@,
                    ));
                    return true;
                }
                j = j + 1;
            }
            false
        },
    }
}

fn entity_ok(es: &Vec<EntityDescriptor>, d: &EntityDescriptor) -> (ok: bool)
    ensures
        ok == entity_resolves(es@, *d),
{
    if !all_declared(d, &d.unique) || !all_declared(d, &d.indexed) {
        return false;
    }
    let mut i: usize = 0;
    while i < d.relations.len()
        invariant
            i <= d.relations@.len(),
            forall|j: int| 0 <= j < i ==> relation_resolves(es@, *d, #[trigger] d.relations@[j]),
        decreases d.relations@.len() - i,
    {
        if !relation_ok(es, d, &d.relations[i]) {
            return false;
        }
        i = i + 1;
    }
    true
}

impl SchemaRegistry {
    pub closed spec fn entities(&self) -> Seq<EntityDescriptor> {
        self.entities@
    }

    pub closed spec fn is_sealed(&self) -> bool {
        self.sealed
    }

    /// Entity names are distinct, and a sealed registry resolves.
    pub open spec fn wf(&self) -> bool {
        names_distinct(self.entities()) && (self.is_sealed() ==> schema_resolves(self.entities()))
    }

    pub fn new() -> (r: SchemaRegistry)
        ensures
            r.wf(),
            r.entities() == Seq::<EntityDescriptor>::empty(),
            !r.is_sealed(),
    {
        SchemaRegistry { entities: Vec::new(), sealed: false }
    }

    /// Adds one entity; fails when sealed, when the name is taken, or when the key is
    /// not one of the entity's non-nullable fields.
    pub fn register(&mut self, d: EntityDescriptor) -> (r: Result<(), SchemaError>)
        requires
            old(self).wf(),
        ensures
            final(self).wf(),
            final(self).is_sealed() == old(self).is_sealed(),
            r is Ok <==> !old(self).is_sealed() && !entity_registered(old(self).entities(), d.name@)
                && key_valid(d),
            r is Ok ==> final(self).entities() == old(self).entities().push(d),
            r is Err ==> final(self).entities() == old(self).entities(),
            r matches Err(e) ==> match e {
                SchemaError::Sealed => old(self).is_sealed(),
                SchemaError::DuplicateEntity(n) => !old(self).is_sealed() && n@ == d.name@
                    && entity_registered(old(self).entities(), d.name@),
                SchemaError::InvalidKey(n) => !old(self).is_sealed() && n@ == d.name@
                    && !entity_registered(old(self).entities(), d.name@) && !key_valid(d),
                SchemaError::Unresolved(_) => false,
            },
    {
        if self.sealed {
            return Err(SchemaError::Sealed);
        }
        if find_entity(&self.entities, d.name.as_str()).is_some() {
            return Err(SchemaError::DuplicateEntity(d.name.clone()));
        }
        if !key_ok(&d) {
            return Err(SchemaError::InvalidKey(d.name.clone()));
        }
        let ghost before = self.entities@;
        self.entities.push(d);
        assert(self.entities@ =~= before.push(d));
        Ok(())
    }

    /// Checks that every entity's constraints name declared fields and that every
    /// relation resolves, then seals the registry.
    pub fn finalize(&mut self) -> (r: Result<(), SchemaError>)
        requires
            old(self).wf(),
        ensures
            final(self).wf(),
            final(self).entities() == old(self).entities(),
            r is Ok <==> schema_resolves(old(self).entities()),
            r is Ok ==> final(self).is_sealed(),
            r is Err ==> final(self).is_sealed() == old(self).is_sealed(),
            r matches Err(e) ==> match e {
                SchemaError::Unresolved(n) => exists|i: int|
                    0 <= i < old(self).entities().len() && (#[trigger] old(
                        self,
                    ).entities()[i]).name@ == n@ && !entity_resolves(
                        old(self).entities(),
                        old(self).entities()[i],
                    ),
                _ => false,
            },
    {
        let mut i: usize = 0;
        while i < self.entities.len()
            invariant
                i <= self.entities@.len(),
                self.entities@ == old(self).entities@,
                self.sealed == old(self).sealed,
                old(self).wf(),
                forall|j: int|
                    0 <= j < i ==> entity_resolves(self.entities@, #[trigger] self.entities@[j]),
            decreases self.entities@.len() - i,
        {
            if !entity_ok(&self.entities, &self.entities[i]) {
                assert(old(self).entities()[i as int] == self.entities@[i as int]);
                return Err(SchemaError::Unresolved(self.entities[i].name.clone()));
            }
            i = i + 1;
        }
        self.sealed = true;
        Ok(())
    }

    /// Looks an entity up by its tag.
    pub fn descriptor(&self, name: &str) -> (r: Option<&EntityDescriptor>)
        ensures
            r is Some <==> entity_registered(self.entities(), name@),
            r matches Some(d) ==> d.name@ == name@ && self.entities().contains(*d),
    {
        match find_entity(&self.entities, name) {
            Some(i) => {
                assert(self.entities@[i as int] == self.entities@[i as int]);
                Some(&self.entities[i])
            },
            None => None,
        }
    }
}

} // verus!
