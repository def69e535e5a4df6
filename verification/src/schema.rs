//! Record shapes as data: which members a JSON object must carry, and of
//! which type. The description of the service is made of these, and a
//! document can be held against them.

use vstd::prelude::*;
use crate::json::{locate, pairs_of, values_named, Json, JsonDoc, Member};

verus! {

/// The type of a member's value.
#[derive(Debug, Clone, Copy, PartialEq, Eq, Structural)]
pub enum FieldKind {
    /// A JSON string.
    String,
    /// An integer from 0 to 2^64 - 1.
    UnsignedInteger,
}

/// One required member of a record.
#[derive(Debug, Clone, Copy, PartialEq, Eq)]
pub struct Field {
    pub name: &'static str,
    pub kind: FieldKind,
}

/// The shape of a record: its name and its members, all of them required.
#[derive(Debug, PartialEq, Eq)]
pub struct Schema {
    pub name: &'static str,
    pub fields: Vec<Field>,
}

/// The mathematical value of a [`Field`].
pub struct FieldView {
    pub name: Seq<char>,
    pub kind: FieldKind,
}

/// The mathematical value of a [`Schema`].
pub struct SchemaView {
    pub name: Seq<char>,
    pub fields: Seq<FieldView>,
}

impl View for Field {
    type V = FieldView;

    open spec fn view(&self) -> FieldView {
        FieldView { name: self.name@, kind: self.kind }
    }
}

/// The values of fields, in their order.
pub open spec fn fields_of(fields: Seq<Field>) -> Seq<FieldView> {
    Seq::new(fields.len(), |i: int| fields[i]@)
}

impl View for Schema {
    type V = SchemaView;

    open spec fn view(&self) -> SchemaView {
        SchemaView { name: self.name@, fields: fields_of(self.fields@) }
    }
}

/// Whether a value is of the given type.
pub open spec fn fits(value: JsonDoc, kind: FieldKind) -> bool {
    match kind {
        FieldKind::String => value is String,
        FieldKind::UnsignedInteger => value matches JsonDoc::Integer(i) && 0 <= i <= u64::MAX,
    }
}

/// Whether an object's members carry the field: exactly one member of its
/// name, with a value of its type.
pub open spec fn carries(members: Seq<(Seq<char>, JsonDoc)>, field: FieldView) -> bool {
    let values = values_named(members, field.name);
    values.len() == 1 && fits(values[0], field.kind)
}

/// Whether a document has the shape: it is an object that carries every
/// field. Members of other names are allowed.
pub open spec fn conforms(doc: JsonDoc, schema: SchemaView) -> bool {
    doc matches JsonDoc::Object(members) && forall|k: int|
        0 <= k < schema.fields.len() ==> carries(members, #[trigger] schema.fields[k])
}

impl FieldKind {
    /// Tests a value against the type.
    pub fn admits(self, value: &Json) -> (yes: bool)
        ensures
            yes == fits(value@, self),
    {
        match self {
            FieldKind::String => match value {
                Json::String(_) => true,
                _ => false,
            },
            FieldKind::UnsignedInteger => match value {
                Json::Integer(i) => 0 <= *i && *i <= 0xffff_ffff_ffff_ffff,
                _ => false,
            },
        }
    }
}

impl Field {
    /// Tests the members of an object for the field.
    pub fn carried_by(&self, members: &Vec<Member>) -> (yes: bool)
        ensures
            yes == carries(pairs_of(members@), self@),
    {
        let (first, again) = locate(members, self.name);
        match first {
            None => false,
            Some(at) => !again && self.kind.admits(&members[at].value),
        }
    }
}

impl Schema {
    /// Holds a document against the shape.
    pub fn accepts(&self, doc: &Json) -> (yes: bool)
        ensures
            yes == conforms(doc@, self@),
    {
        match doc {
            Json::Object(members) => {
                proof {
                    Json::object_view(*members);
                }
                let mut k: usize = 0;
                while k < self.fields.len()
                    invariant
                        k <= self.fields@.len(),
                        doc@ == JsonDoc::Object(pairs_of(members@)),
                        forall|j: int|
                            0 <= j < k ==> carries(pairs_of(members@), #[trigger] self@.fields[j]),
                    decreases self.fields@.len() - k,
                {
                    if !self.fields[k].carried_by(members) {
                        assert(!carries(pairs_of(members@), self@.fields[k as int]));
                        return false;
                    }
                    k += 1;
                }
                true
            },
            _ => false,
        }
    }
}

} // verus!
