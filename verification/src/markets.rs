//! Near real-time traded volume on the markets, venue by venue.

use crate::decimal::{decimal_text, lemma_decimal_round_trip};
use crate::error::{ErrorView, MyError};
use crate::fields::{
    count_field, decimal_field, read_count, read_decimal, read_text, shape_error, text_field,
    wrong_shape,
};
use crate::json::{
    find_member, lemma_find_member_push, member_views, push_member, Json, JsonView, Member,
};
use crate::record::Record;
use vstd::prelude::*;

verus! {

/// The volume that one venue reported. The market share keeps the decimal
/// text it arrived as.
#[derive(Debug, PartialEq, Eq)]
pub struct MarketData {
    /// Market Identifier Code (MIC).
    pub mic: String,
    /// Tape id of the venue.
    pub tape_id: String,
    /// Name of the venue.
    pub venue_name: String,
    /// Amount of traded shares reported by the venue.
    pub volume: u64,
    /// Amount of Tape A traded shares reported by the venue.
    pub tape_a: u64,
    /// Amount of Tape B traded shares reported by the venue.
    pub tape_b: u64,
    /// Amount of Tape C traded shares reported by the venue.
    pub tape_c: u64,
    /// The venue's percentage of shares traded in the market.
    pub market_percent: String,
    /// Time of the last update, in milliseconds since the Unix epoch.
    pub last_updated: u64,
}

/// The mathematical value of a [`MarketData`].
pub struct MarketView {
    pub mic: Seq<char>,
    pub tape_id: Seq<char>,
    pub venue_name: Seq<char>,
    pub volume: u64,
    pub tape_a: u64,
    pub tape_b: u64,
    pub tape_c: u64,
    pub market_percent: Seq<char>,
    pub last_updated: u64,
}

impl View for MarketData {
    type V = MarketView;

    open spec fn view(&self) -> MarketView {
        MarketView {
            mic: self.mic@,
            tape_id: self.tape_id@,
            venue_name: self.venue_name@,
            volume: self.volume,
            tape_a: self.tape_a,
            tape_b: self.tape_b,
            tape_c: self.tape_c,
            market_percent: self.market_percent@,
            last_updated: self.last_updated,
        }
    }
}

/// What decoding a venue's volume from `doc` gives: the record, or the error of the
/// first field below that does not fit.
pub open spec fn market_decoded(doc: JsonView) -> Result<MarketView, ErrorView> {
    let mic = text_field(doc, "mic"@);
    let tape_id = text_field(doc, "tapeId"@);
    let venue_name = text_field(doc, "venueName"@);
    let volume = count_field(doc, "volume"@);
    let tape_a = count_field(doc, "tapeA"@);
    let tape_b = count_field(doc, "tapeB"@);
    let tape_c = count_field(doc, "tapeC"@);
    let market_percent = decimal_field(doc, "marketPercent"@);
    let last_updated = count_field(doc, "lastUpdated"@);
    if !(doc is Object) {
        Err(wrong_shape(doc))
    } else if mic is Err {
        Err(mic->Err_0)
    } else if tape_id is Err {
        Err(tape_id->Err_0)
    } else if venue_name is Err {
        Err(venue_name->Err_0)
    } else if volume is Err {
        Err(volume->Err_0)
    } else if tape_a is Err {
        Err(tape_a->Err_0)
    } else if tape_b is Err {
        Err(tape_b->Err_0)
    } else if tape_c is Err {
        Err(tape_c->Err_0)
    } else if market_percent is Err {
        Err(market_percent->Err_0)
    } else if last_updated is Err {
        Err(last_updated->Err_0)
    } else {
        Ok(
            MarketView {
                mic: mic->Ok_0,
                tape_id: tape_id->Ok_0,
                venue_name: venue_name->Ok_0,
                volume: volume->Ok_0,
                tape_a: tape_a->Ok_0,
                tape_b: tape_b->Ok_0,
                tape_c: tape_c->Ok_0,
                market_percent: market_percent->Ok_0,
                last_updated: last_updated->Ok_0,
            },
        )
    }
}

/// The members of the wire form of a venue's volume, in the order they are written.
pub open spec fn market_members(m: MarketView) -> Seq<(Seq<char>, JsonView)> {
    Seq::empty()
        .push(("mic"@, JsonView::Text(m.mic)))
        .push(("tapeId"@, JsonView::Text(m.tape_id)))
        .push(("venueName"@, JsonView::Text(m.venue_name)))
        .push(("volume"@, JsonView::Number(decimal_text(m.volume as nat))))
        .push(("tapeA"@, JsonView::Number(decimal_text(m.tape_a as nat))))
        .push(("tapeB"@, JsonView::Number(decimal_text(m.tape_b as nat))))
        .push(("tapeC"@, JsonView::Number(decimal_text(m.tape_c as nat))))
        .push(("marketPercent"@, JsonView::Number(m.market_percent)))
        .push(("lastUpdated"@, JsonView::Number(decimal_text(m.last_updated as nat))))
}

/// The wire form of a venue's volume.
pub open spec fn market_encoded(m: MarketView) -> JsonView {
    JsonView::Object(market_members(m))
}

/// Each name of the wire form finds the value that was written under it.
proof fn lemma_market_members(m: MarketView)
    ensures
        find_member(market_members(m), "mic"@) == Some(JsonView::Text(m.mic)),
        find_member(market_members(m), "tapeId"@) == Some(JsonView::Text(m.tape_id)),
        find_member(market_members(m), "venueName"@) == Some(JsonView::Text(m.venue_name)),
        find_member(market_members(m), "volume"@) == Some(
            JsonView::Number(decimal_text(m.volume as nat)),
        ),
        find_member(market_members(m), "tapeA"@) == Some(
            JsonView::Number(decimal_text(m.tape_a as nat)),
        ),
        find_member(market_members(m), "tapeB"@) == Some(
            JsonView::Number(decimal_text(m.tape_b as nat)),
        ),
        find_member(market_members(m), "tapeC"@) == Some(
            JsonView::Number(decimal_text(m.tape_c as nat)),
        ),
        find_member(market_members(m), "marketPercent"@) == Some(
            JsonView::Number(m.market_percent),
        ),
        find_member(market_members(m), "lastUpdated"@) == Some(
            JsonView::Number(decimal_text(m.last_updated as nat)),
        ),
{
    let s0 = Seq::<(Seq<char>, JsonView)>::empty();
    lemma_find_member_push(s0, "mic"@, JsonView::Text(m.mic));
    let s1 = s0.push(("mic"@, JsonView::Text(m.mic)));
    lemma_find_member_push(s1, "tapeId"@, JsonView::Text(m.tape_id));
    let s2 = s1.push(("tapeId"@, JsonView::Text(m.tape_id)));
    lemma_find_member_push(s2, "venueName"@, JsonView::Text(m.venue_name));
    let s3 = s2.push(("venueName"@, JsonView::Text(m.venue_name)));
    lemma_find_member_push(s3, "volume"@, JsonView::Number(decimal_text(m.volume as nat)));
    let s4 = s3.push(("volume"@, JsonView::Number(decimal_text(m.volume as nat))));
    lemma_find_member_push(s4, "tapeA"@, JsonView::Number(decimal_text(m.tape_a as nat)));
    let s5 = s4.push(("tapeA"@, JsonView::Number(decimal_text(m.tape_a as nat))));
    lemma_find_member_push(s5, "tapeB"@, JsonView::Number(decimal_text(m.tape_b as nat)));
    let s6 = s5.push(("tapeB"@, JsonView::Number(decimal_text(m.tape_b as nat))));
    lemma_find_member_push(s6, "tapeC"@, JsonView::Number(decimal_text(m.tape_c as nat)));
    let s7 = s6.push(("tapeC"@, JsonView::Number(decimal_text(m.tape_c as nat))));
    lemma_find_member_push(s7, "marketPercent"@, JsonView::Number(m.market_percent));
    let s8 = s7.push(("marketPercent"@, JsonView::Number(m.market_percent)));
    lemma_find_member_push(
        s8, "lastUpdated"@, JsonView::Number(decimal_text(m.last_updated as nat)),
    );
    let s9 = s8.push(("lastUpdated"@, JsonView::Number(decimal_text(m.last_updated as nat))));
    reveal_strlit("mic");
    reveal_strlit("tapeId");
    reveal_strlit("venueName");
    reveal_strlit("volume");
    reveal_strlit("tapeA");
    reveal_strlit("tapeB");
    reveal_strlit("tapeC");
    reveal_strlit("marketPercent");
    reveal_strlit("lastUpdated");
    assert("mic"@.len() == 3);
    assert("tapeId"@.len() == 6);
    assert("venueName"@.len() == 9);
    assert("volume"@.len() == 6);
    assert("tapeA"@.len() == 5);
    assert("tapeB"@.len() == 5);
    assert("tapeC"@.len() == 5);
    assert("marketPercent"@.len() == 13);
    assert("lastUpdated"@.len() == 11);
    assert("tapeId"@[0] != "volume"@[0]);
    assert("tapeA"@[4] != "tapeB"@[4]);
    assert("tapeA"@[4] != "tapeC"@[4]);
    assert("tapeB"@[4] != "tapeC"@[4]);
}

/// Encoding a venue's volume and decoding the result gives the record back.
pub proof fn lemma_market_round_trip(m: MarketView)
    ensures
        market_decoded(market_encoded(m)) == Ok::<MarketView, ErrorView>(m),
{
    lemma_market_members(m);
    let doc = market_encoded(m);
    lemma_decimal_round_trip(m.volume);
    lemma_decimal_round_trip(m.tape_a);
    lemma_decimal_round_trip(m.tape_b);
    lemma_decimal_round_trip(m.tape_c);
    lemma_decimal_round_trip(m.last_updated);
    assert(text_field(doc, "mic"@) == Ok::<Seq<char>, ErrorView>(m.mic));
    assert(text_field(doc, "tapeId"@) == Ok::<Seq<char>, ErrorView>(m.tape_id));
    assert(text_field(doc, "venueName"@) == Ok::<Seq<char>, ErrorView>(m.venue_name));
    assert(count_field(doc, "volume"@) == Ok::<u64, ErrorView>(m.volume));
    assert(count_field(doc, "tapeA"@) == Ok::<u64, ErrorView>(m.tape_a));
    assert(count_field(doc, "tapeB"@) == Ok::<u64, ErrorView>(m.tape_b));
    assert(count_field(doc, "tapeC"@) == Ok::<u64, ErrorView>(m.tape_c));
    assert(decimal_field(doc, "marketPercent"@) == Ok::<Seq<char>, ErrorView>(m.market_percent));
    assert(count_field(doc, "lastUpdated"@) == Ok::<u64, ErrorView>(m.last_updated));
}

impl Record for MarketData {
    type Model = MarketView;

    open spec fn model(&self) -> MarketView {
        self@
    }

    open spec fn decoded(doc: JsonView) -> Result<MarketView, ErrorView> {
        market_decoded(doc)
    }

    open spec fn encoded(model: MarketView) -> JsonView {
        market_encoded(model)
    }

    fn from_json(doc: &Json) -> (r: Result<MarketData, MyError>) {
        if !doc.is_object() {
            return Err(shape_error(doc));
        }
        let mic = read_text(doc, "mic")?;
        let tape_id = read_text(doc, "tapeId")?;
        let venue_name = read_text(doc, "venueName")?;
        let volume = read_count(doc, "volume")?;
        let tape_a = read_count(doc, "tapeA")?;
        let tape_b = read_count(doc, "tapeB")?;
        let tape_c = read_count(doc, "tapeC")?;
        let market_percent = read_decimal(doc, "marketPercent")?;
        let last_updated = read_count(doc, "lastUpdated")?;
        Ok(
            MarketData {
                mic,
                tape_id,
                venue_name,
                volume,
                tape_a,
                tape_b,
                tape_c,
                market_percent,
                last_updated,
            },
        )
    }

    fn to_json(&self) -> (doc: Json) {
        let mut members: Vec<Member> = Vec::new();
        assert(member_views(members@) =~= Seq::empty());
        push_member(&mut members, "mic", Json::text(self.mic.as_str()));
        push_member(&mut members, "tapeId", Json::text(self.tape_id.as_str()));
        push_member(&mut members, "venueName", Json::text(self.venue_name.as_str()));
        push_member(&mut members, "volume", Json::count(self.volume));
        push_member(&mut members, "tapeA", Json::count(self.tape_a));
        push_member(&mut members, "tapeB", Json::count(self.tape_b));
        push_member(&mut members, "tapeC", Json::count(self.tape_c));
        push_member(&mut members, "marketPercent", Json::Number(self.market_percent.clone()));
        push_member(&mut members, "lastUpdated", Json::count(self.last_updated));
        proof {
            lemma_market_round_trip(self@);
        }
        Json::object(members)
    }
}

/// The volumes of all venues, as the service sends them.
pub type Market = Vec<MarketData>;

/// The handle for the market-volume product.
#[derive(Debug, Clone, Copy, PartialEq, Eq)]
pub struct Markets;

impl Markets {
    /// The volumes known without a request: none.
    pub fn market(&self) -> (r: Result<Market, MyError>)
        ensures
            r matches Ok(venues) && venues@.len() == 0,
    {
        Ok(Vec::new())
    }
}

} // verus!
