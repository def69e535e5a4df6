//! JSON documents as values, and what they stand for.

use vstd::prelude::*;
use crate::text::text_eq;

verus! {

/// A JSON document, as a request carries it or a response returns it.
///
/// Numbers are kept without floating point: an integer by its value, any
/// other number by its text.
#[derive(Debug, PartialEq, Eq)]
pub enum Json {
    Null,
    Bool(bool),
    Integer(i128),
    Decimal(String),
    String(String),
    Array(Vec<Json>),
    Object(Vec<Member>),
}

/// One `name: value` pair of a JSON object.
#[derive(Debug, PartialEq, Eq)]
pub struct Member {
    pub name: String,
    pub value: Json,
}

/// The mathematical value of a [`Json`]: texts are character sequences,
/// integers are unbounded, arrays and objects are sequences.
pub enum JsonDoc {
    Null,
    Bool(bool),
    Integer(int),
    Decimal(Seq<char>),
    String(Seq<char>),
    Array(Seq<JsonDoc>),
    Object(Seq<(Seq<char>, JsonDoc)>),
}

impl View for Json {
    type V = JsonDoc;

    open spec fn view(&self) -> JsonDoc
        decreases self,
    {
        match self {
            Json::Null => JsonDoc::Null,
            Json::Bool(b) => JsonDoc::Bool(*b),
            Json::Integer(i) => JsonDoc::Integer(*i as int),
            Json::Decimal(t) => JsonDoc::Decimal(t@),
            Json::String(t) => JsonDoc::String(t@),
            Json::Array(items) => JsonDoc::Array(
                Seq::new(
                    items@.len(),
                    |i: int|
                        if 0 <= i < items@.len() {
                            items@[i]@
                        } else {
                            JsonDoc::Null
                        },
                ),
            ),
            Json::Object(members) => JsonDoc::Object(
                Seq::new(
                    members@.len(),
                    |i: int|
                        if 0 <= i < members@.len() {
                            (members@[i].name@, members@[i].value@)
                        } else {
                            (Seq::empty(), JsonDoc::Null)
                        },
                ),
            ),
        }
    }
}

/// The pairs of an object's members, name and value, in their order.
pub open spec fn pairs_of(members: Seq<Member>) -> Seq<(Seq<char>, JsonDoc)> {
    Seq::new(members.len(), |i: int| (members[i].name@, members[i].value@))
}

impl Json {
    /// An object stands for the pairs of its members.
    pub proof fn object_view(members: Vec<Member>)
        ensures
            Json::Object(members)@ == JsonDoc::Object(pairs_of(members@)),
    {
        reveal_with_fuel(<Json as View>::view, 2);
        assert(Json::Object(members)@->Object_0 =~= pairs_of(members@));
    }
}

/// The values of the members called `name`, in the order of the object.
pub open spec fn values_named(members: Seq<(Seq<char>, JsonDoc)>, name: Seq<char>) -> Seq<JsonDoc>
    decreases members.len(),
{
    if members.len() == 0 {
        Seq::empty()
    } else {
        let before = values_named(members.drop_last(), name);
        if members.last().0 == name {
            before.push(members.last().1)
        } else {
            before
        }
    }
}

proof fn values_named_step(members: Seq<(Seq<char>, JsonDoc)>, name: Seq<char>, i: int)
    requires
        0 <= i < members.len(),
    ensures
        values_named(members.take(i + 1), name) == if members[i].0 == name {
            values_named(members.take(i), name).push(members[i].1)
        } else {
            values_named(members.take(i), name)
        },
{
    assert(members.take(i + 1).drop_last() =~= members.take(i));
}

/// Finds the members called `name`: the index of the first one, and whether
/// further ones follow it.
pub fn locate(members: &Vec<Member>, name: &str) -> (found: (Option<usize>, bool))
    ensures
        found.0 is None <==> values_named(pairs_of(members@), name@).len() == 0,
        found.0 matches Some(at) ==> at < members@.len() && members@[at as int].name@ == name@
            && members@[at as int].value@ == values_named(pairs_of(members@), name@)[0]
            && forall|k: int| 0 <= k < at ==> (#[trigger] members@[k]).name@ != name@,
        found.1 <==> values_named(pairs_of(members@), name@).len() > 1,
{
    let ghost pairs = pairs_of(members@);
    let mut first: Option<usize> = None;
    let mut again: bool = false;
    let mut i: usize = 0;
    while i < members.len()
        invariant
            i <= members@.len(),
            pairs == pairs_of(members@),
            first is None <==> values_named(pairs.take(i as int), name@).len() == 0,
            first matches Some(at) ==> at < i && members@[at as int].name@ == name@
                && members@[at as int].value@ == values_named(pairs.take(i as int), name@)[0],
            forall|k: int|
                0 <= k < (if first is Some { first->0 } else { i }) ==> (
                #[trigger] members@[k]).name@ != name@,
            again <==> values_named(pairs.take(i as int), name@).len() > 1,
        decreases members@.len() - i,
    {
        proof {
            values_named_step(pairs, name@, i as int);
        }
        if text_eq(members[i].name.as_str(), name) {
            if first.is_some() {
                again = true;
            } else {
                first = Some(i);
            }
        }
        i += 1;
    }
    assert(pairs.take(i as int) =~= pairs);
    (first, again)
}

} // verus!
