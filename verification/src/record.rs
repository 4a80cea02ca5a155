//! What it takes to be a record: a mathematical value, a wire form, and a
//! decoder that reads the wire form back.

use crate::error::{ErrorView, MyError};
use crate::fields::{shape_error, wrong_shape};
use crate::json::{item_views, Json, JsonView};
use vstd::prelude::*;

verus! {

/// A typed value that the service sends as a JSON document.
pub trait Record: Sized {
    /// The mathematical value of a record.
    type Model;

    /// The value this record stands for.
    spec fn model(&self) -> Self::Model;

    /// What decoding `doc` gives: the record's value, or the error for the
    /// first field, in the record's own order, that does not fit.
    spec fn decoded(doc: JsonView) -> Result<Self::Model, ErrorView>;

    /// The wire form of a record.
    spec fn encoded(model: Self::Model) -> JsonView;

    /// Decodes a record from a document.
    fn from_json(doc: &Json) -> (r: Result<Self, MyError>)
        ensures
            match r {
                Ok(record) => Self::decoded(doc@) == Ok::<Self::Model, ErrorView>(record.model()),
                Err(e) => Self::decoded(doc@) == Err::<Self::Model, ErrorView>(e@),
            },
    ;

    /// Encodes the record in its wire form. Decoding that form gives the
    /// record back.
    fn to_json(&self) -> (doc: Json)
        ensures
            doc@ == Self::encoded(self.model()),
            Self::decoded(doc@) == Ok::<Self::Model, ErrorView>(self.model()),
    ;
}

/// What decoding each of `items` as an `R` gives: the records in order, or
/// the error of the first item that does not decode.
pub open spec fn decoded_items<R: Record>(items: Seq<JsonView>) -> Result<
    Seq<R::Model>,
    ErrorView,
>
    decreases items.len(),
{
    if items.len() == 0 {
        Ok(Seq::empty())
    } else {
        match decoded_items::<R>(items.drop_last()) {
            Err(e) => Err(e),
            Ok(front) => match R::decoded(items.last()) {
                Err(e) => Err(e),
                Ok(m) => Ok(front.push(m)),
            },
        }
    }
}

/// The values that a list of records stands for.
pub open spec fn models<R: Record>(records: Seq<R>) -> Seq<R::Model> {
    Seq::new(records.len(), |i: int| records[i].model())
}

/// The wire forms of a list of values.
pub open spec fn encoded_items<R: Record>(values: Seq<R::Model>) -> Seq<JsonView> {
    Seq::new(values.len(), |i: int| R::encoded(values[i]))
}

/// Where every item decodes to the value at its place, the items decode to
/// the values.
pub proof fn lemma_decoded_items<R: Record>(items: Seq<JsonView>, values: Seq<R::Model>)
    requires
        items.len() == values.len(),
        forall|i: int|
            0 <= i < items.len() ==> R::decoded(#[trigger] items[i]) == Ok::<R::Model, ErrorView>(
                values[i],
            ),
    ensures
        decoded_items::<R>(items) == Ok::<Seq<R::Model>, ErrorView>(values),
    decreases items.len(),
{
    if items.len() == 0 {
        assert(values =~= Seq::empty());
    } else {
        lemma_decoded_items::<R>(items.drop_last(), values.drop_last());
        assert(values.drop_last().push(values.last()) =~= values);
    }
}

/// A JSON array of records.
impl<R: Record> Record for Vec<R> {
    type Model = Seq<R::Model>;

    open spec fn model(&self) -> Seq<R::Model> {
        models::<R>(self@)
    }

    open spec fn decoded(doc: JsonView) -> Result<Seq<R::Model>, ErrorView> {
        match doc {
            JsonView::Array(items) => decoded_items::<R>(items),
            _ => Err(wrong_shape(doc)),
        }
    }

    open spec fn encoded(model: Seq<R::Model>) -> JsonView {
        JsonView::Array(encoded_items::<R>(model))
    }

    fn from_json(doc: &Json) -> (r: Result<Vec<R>, MyError>) {
        match doc {
            Json::Array(items) => {
                let mut records: Vec<R> = Vec::new();
                let mut i: usize = 0;
                proof {
                    assert(doc@->Array_0.take(0) =~= Seq::<JsonView>::empty());
                    assert(models::<R>(records@) =~= Seq::<R::Model>::empty());
                }
                while i < items.len()
                    invariant
                        0 <= i <= items.len(),
                        doc@ is Array,
                        doc@->Array_0.len() == items.len(),
                        forall|k: int|
                            0 <= k < items.len() ==> (#[trigger] doc@->Array_0[k]) == items[k]@,
                        decoded_items::<R>(doc@->Array_0.take(i as int)) == Ok::<
                            Seq<R::Model>,
                            ErrorView,
                        >(models::<R>(records@)),
                    decreases items.len() - i,
                {
                    let ghost all = doc@->Array_0;
                    let ghost before = models::<R>(records@);
                    proof {
                        assert(all.take(i as int + 1).drop_last() =~= all.take(i as int));
                        assert(all.take(i as int + 1).last() == items[i as int]@);
                    }
                    match R::from_json(&items[i]) {
                        Ok(record) => {
                            records.push(record);
                            proof {
                                assert(models::<R>(records@) =~= before.push(record.model()));
                            }
                        },
                        Err(e) => {
                            proof {
                                lemma_decoded_items_stops::<R>(all, i as int + 1);
                            }
                            return Err(e);
                        },
                    }
                    i = i + 1;
                }
                proof {
                    assert(doc@->Array_0.take(i as int) =~= doc@->Array_0);
                }
                Ok(records)
            },
            _ => Err(shape_error(doc)),
        }
    }

    fn to_json(&self) -> (doc: Json) {
        let mut items: Vec<Json> = Vec::new();
        let mut i: usize = 0;
        while i < self.len()
            invariant
                0 <= i <= self.len(),
                items.len() == i,
                forall|k: int|
                    0 <= k < i ==> (#[trigger] items[k])@ == R::encoded(self[k].model())
                        && R::decoded(items[k]@) == Ok::<R::Model, ErrorView>(self[k].model()),
            decreases self.len() - i,
        {
            let item = self[i].to_json();
            items.push(item);
            i = i + 1;
        }
        proof {
            let views = item_views(items@);
            assert(views =~= encoded_items::<R>(models::<R>(self@)));
            lemma_decoded_items::<R>(views, models::<R>(self@));
        }
        Json::array(items)
    }
}

/// Once a prefix of the items fails to decode, the items fail with the same
/// error.
pub proof fn lemma_decoded_items_stops<R: Record>(items: Seq<JsonView>, k: int)
    requires
        0 <= k <= items.len(),
        decoded_items::<R>(items.take(k)) is Err,
    ensures
        decoded_items::<R>(items) == decoded_items::<R>(items.take(k)),
    decreases items.len() - k,
{
    if k == items.len() {
        assert(items.take(k) =~= items);
    } else {
        assert(items.drop_last().take(k) =~= items.take(k));
        lemma_decoded_items_stops::<R>(items.drop_last(), k);
    }
}

} // verus!
