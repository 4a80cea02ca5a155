//! The untyped document that every reply passes through before it becomes a
//! typed record.

use crate::decimal::{decimal_text, format_unsigned};
use crate::text::same_text;
use vstd::prelude::*;

verus! {

/// A JSON document held as plain values. A number keeps its decimal text, so
/// that the library never computes with floating point.
#[derive(Debug, PartialEq, Eq)]
pub enum Json {
    Null,
    Bool(bool),
    Number(String),
    Text(String),
    Array(Vec<Json>),
    /// The members in document order.
    Object(Vec<Member>),
}

/// One member of an object: a name and the value under it.
#[derive(Debug, PartialEq, Eq)]
pub struct Member {
    pub name: String,
    pub value: Json,
}

/// The mathematical value of a [`Json`] document.
pub enum JsonView {
    Null,
    Bool(bool),
    Number(Seq<char>),
    Text(Seq<char>),
    Array(Seq<JsonView>),
    Object(Seq<(Seq<char>, JsonView)>),
}

impl View for Json {
    type V = JsonView;

    open spec fn view(&self) -> JsonView
        decreases self,
    {
        match self {
            Json::Null => JsonView::Null,
            Json::Bool(b) => JsonView::Bool(*b),
            Json::Number(text) => JsonView::Number(text@),
            Json::Text(text) => JsonView::Text(text@),
            Json::Array(items) => JsonView::Array(
                Seq::new(
                    items@.len(),
                    |i: int|
                        if 0 <= i < items@.len() {
                            items@[i]@
                        } else {
                            JsonView::Null
                        },
                ),
            ),
            Json::Object(members) => JsonView::Object(
                Seq::new(
                    members@.len(),
                    |i: int|
                        (members@[i].name@, if 0 <= i < members@.len() {
                            members@[i].value@
                        } else {
                            JsonView::Null
                        }),
                ),
            ),
        }
    }
}

/// The value of the last member called `name`, if there is one: where a name
/// occurs twice, the later member stands.
pub open spec fn find_member(members: Seq<(Seq<char>, JsonView)>, name: Seq<char>) -> Option<
    JsonView,
>
    decreases members.len(),
{
    if members.len() == 0 {
        None
    } else if members.last().0 == name {
        Some(members.last().1)
    } else {
        find_member(members.drop_last(), name)
    }
}

/// Looking a name up after one more member was added: the new member if it
/// has that name, else what was found before.
pub proof fn lemma_find_member_push(
    members: Seq<(Seq<char>, JsonView)>,
    name: Seq<char>,
    value: JsonView,
)
    ensures
        forall|wanted: Seq<char>| #[trigger]
            find_member(members.push((name, value)), wanted) == if name == wanted {
                Some(value)
            } else {
                find_member(members, wanted)
            },
{
    assert(members.push((name, value)).drop_last() =~= members);
}

impl JsonView {
    /// The member `name` of an object; `None` for any other document.
    pub open spec fn member(self, name: Seq<char>) -> Option<JsonView> {
        match self {
            JsonView::Object(members) => find_member(members, name),
            _ => None,
        }
    }

    /// The text a scalar arrived as; empty for arrays and objects.
    pub open spec fn raw_text(self) -> Seq<char> {
        match self {
            JsonView::Null => "null"@,
            JsonView::Bool(b) => if b {
                "true"@
            } else {
                "false"@
            },
            JsonView::Number(text) => text,
            JsonView::Text(text) => text,
            _ => Seq::empty(),
        }
    }
}

/// The view of an optional reference to a document.
pub open spec fn optional_view(v: Option<&Json>) -> Option<JsonView> {
    match v {
        Some(doc) => Some(doc@),
        None => None,
    }
}

impl Json {
    /// Looks up the member `name` of an object.
    pub fn member(&self, name: &str) -> (r: Option<&Json>)
        ensures
            optional_view(r) == self@.member(name@),
    {
        match self {
            Json::Object(members) => {
                let mut i: usize = members.len();
                proof {
                    let all = self@->Object_0;
                    assert(all.take(i as int) =~= all);
                }
                while i > 0
                    invariant
                        0 <= i <= members.len(),
                        self@ is Object,
                        self@->Object_0.len() == members.len(),
                        forall|k: int|
                            0 <= k < members.len() ==> (#[trigger] self@->Object_0[k]) == (
                                members[k].name@,
                                members[k].value@,
                            ),
                        find_member(self@->Object_0, name@) == find_member(
                            self@->Object_0.take(i as int),
                            name@,
                        ),
                    decreases i,
                {
                    i = i - 1;
                    proof {
                        let all = self@->Object_0;
                        assert(all.take(i as int + 1).drop_last() =~= all.take(i as int));
                        assert(all.take(i as int + 1).last() == all[i as int]);
                    }
                    if same_text(members[i].name.as_str(), name) {
                        return Some(&members[i].value);
                    }
                }
                None
            },
            _ => None,
        }
    }
}

/// The members of an object as names and values.
pub open spec fn member_views(members: Seq<Member>) -> Seq<(Seq<char>, JsonView)> {
    Seq::new(members.len(), |i: int| (members[i].name@, members[i].value@))
}

/// The views of the items of an array.
pub open spec fn item_views(items: Seq<Json>) -> Seq<JsonView> {
    Seq::new(items.len(), |i: int| items[i]@)
}

impl Json {
    /// True for an object.
    pub fn is_object(&self) -> (b: bool)
        ensures
            b == (self@ is Object),
    {
        match self {
            Json::Object(_) => true,
            _ => false,
        }
    }

    /// The object that holds `members`, in their order.
    pub fn object(members: Vec<Member>) -> (doc: Json)
        ensures
            doc@ == JsonView::Object(member_views(members@)),
    {
        let doc = Json::Object(members);
        proof {
            assert(doc@->Object_0 =~= member_views(members@));
        }
        doc
    }

    /// The array that holds `items`, in their order.
    pub fn array(items: Vec<Json>) -> (doc: Json)
        ensures
            doc@ == JsonView::Array(item_views(items@)),
    {
        let doc = Json::Array(items);
        proof {
            assert(doc@->Array_0 =~= item_views(items@));
        }
        doc
    }

    /// The number `n`, written in digits.
    pub fn count(n: u64) -> (doc: Json)
        ensures
            doc@ == JsonView::Number(decimal_text(n as nat)),
    {
        Json::Number(format_unsigned(n))
    }

    /// The string that holds `text`.
    pub fn text(text: &str) -> (doc: Json)
        ensures
            doc@ == JsonView::Text(text@),
    {
        Json::Text(text.to_owned())
    }
}

/// Adds the member `name` with `value` at the end of `members`.
pub fn push_member(members: &mut Vec<Member>, name: &str, value: Json)
    ensures
        member_views(final(members)@) == member_views(old(members)@).push((name@, value@)),
{
    members.push(Member { name: name.to_owned(), value });
    proof {
        assert(member_views(final(members)@) =~= member_views(old(members)@).push(
            (name@, value@),
        ));
    }
}

/// `serde_json::Value`, the tree that the outside parser builds.
#[verifier::external_type_specification]
#[verifier::external_body]
pub struct ExValue(serde_json::Value);

/// What `serde_json::from_slice` makes of `bytes`: the document they spell,
/// or the line and column at which they stop being JSON.
pub uninterp spec fn json_document(bytes: Seq<u8>) -> Result<JsonView, (usize, usize)>;

/// Copies a `serde_json::Value` into a [`Json`], variant by variant. A number
/// is written out by `serde_json::Number`'s `Display`; the members of an
/// object come in the order in which `serde_json::Map` hands them out.
#[verifier::external_body]
fn lift(value: serde_json::Value) -> Json {
    match value {
        serde_json::Value::Null => Json::Null,
        serde_json::Value::Bool(b) => Json::Bool(b),
        serde_json::Value::Number(n) => Json::Number(n.to_string()),
        serde_json::Value::String(s) => Json::Text(s),
        serde_json::Value::Array(items) => Json::Array(items.into_iter().map(lift).collect()),
        serde_json::Value::Object(map) => Json::Object(
            map.into_iter().map(|(name, v)| Member { name, value: lift(v) }).collect(),
        ),
    }
}

/// Calls `serde_json::from_slice` for a `serde_json::Value`. The claim is
/// that the outcome depends on the bytes alone: the same bytes always give
/// the same document, or the same position of the first error, as reported
/// by `serde_json::Error::line` and `column`.
#[verifier::external_body]
fn read_document(bytes: &[u8]) -> (r: Result<Json, (usize, usize)>)
    ensures
        match r {
            Ok(doc) => json_document(bytes@) == Ok::<JsonView, (usize, usize)>(doc@),
            Err(at) => json_document(bytes@) == Err::<JsonView, (usize, usize)>(at),
        },
{
    match serde_json::from_slice::<serde_json::Value>(bytes) {
        Ok(value) => Ok(lift(value)),
        Err(e) => Err((e.line(), e.column())),
    }
}

impl Json {
    /// Reads a document from the bytes of a reply.
    pub fn parse(bytes: &[u8]) -> (r: Result<Json, (usize, usize)>)
        ensures
            match r {
                Ok(doc) => json_document(bytes@) == Ok::<JsonView, (usize, usize)>(doc@),
                Err(at) => json_document(bytes@) == Err::<JsonView, (usize, usize)>(at),
            },
    {
        read_document(bytes)
    }
}

} // verus!
