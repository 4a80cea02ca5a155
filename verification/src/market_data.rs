//! Market data: the auction snapshots of listed securities, keyed by symbol,
//! and the handle for the real-time feeds.

use crate::decimal::{decimal_text, lemma_decimal_round_trip};
use crate::error::{ErrorView, MyError};
use crate::fields::{
    count_field, decimal_field, read_count, read_decimal, read_text, shape_error, text_field,
    wrong_shape,
};
use crate::json::{
    find_member, lemma_find_member_push, member_views, push_member, Json, JsonView, Member,
};
use crate::record::Record;
use crate::text::same_text;
use vstd::prelude::*;

verus! {

/// The state of one auction, as broadcast every second between the lock-in
/// time and the auction match. A collar price keeps the decimal text it
/// arrived as.
#[derive(Debug, PartialEq, Eq)]
pub struct AuctionData {
    /// Auction type (Open, Close, Halt, Volatility, IPO).
    pub auction_type: String,
    /// Number of shares paired at the reference price using orders on the
    /// auction book.
    pub paired_shares: u64,
    /// Number of unpaired shares at the reference price using orders on the
    /// auction book.
    pub imbalance_shares: u64,
    /// Which side is unbalanced using orders on the auction book.
    pub imbalance_side: String,
    /// Clearing price at or within the reference price range using orders on
    /// the auction book.
    pub reference_price: u64,
    /// Clearing price using eligible auction orders.
    pub indicative_price: u64,
    /// Clearing price using orders on the auction book.
    pub auction_book_price: u64,
    /// Reference price used for the auction collar, if any.
    pub collar_reference_price: u64,
    /// Lower threshold price of the auction collar, if any.
    pub lower_collar_price: String,
    /// Upper threshold price of the auction collar, if any.
    pub upper_collar_price: String,
    /// Number of extensions an auction has received.
    pub extension_number: u64,
    /// Projected time of the auction match, in milliseconds since the Unix
    /// epoch.
    pub start_time: u64,
    /// Time of the snapshot, in milliseconds since the Unix epoch.
    pub timestamp: u64,
}

/// The mathematical value of a [`AuctionData`].
pub struct AuctionView {
    pub auction_type: Seq<char>,
    pub paired_shares: u64,
    pub imbalance_shares: u64,
    pub imbalance_side: Seq<char>,
    pub reference_price: u64,
    pub indicative_price: u64,
    pub auction_book_price: u64,
    pub collar_reference_price: u64,
    pub lower_collar_price: Seq<char>,
    pub upper_collar_price: Seq<char>,
    pub extension_number: u64,
    pub start_time: u64,
    pub timestamp: u64,
}

impl View for AuctionData {
    type V = AuctionView;

    open spec fn view(&self) -> AuctionView {
        AuctionView {
            auction_type: self.auction_type@,
            paired_shares: self.paired_shares,
            imbalance_shares: self.imbalance_shares,
            imbalance_side: self.imbalance_side@,
            reference_price: self.reference_price,
            indicative_price: self.indicative_price,
            auction_book_price: self.auction_book_price,
            collar_reference_price: self.collar_reference_price,
            lower_collar_price: self.lower_collar_price@,
            upper_collar_price: self.upper_collar_price@,
            extension_number: self.extension_number,
            start_time: self.start_time,
            timestamp: self.timestamp,
        }
    }
}

/// What decoding an auction snapshot from `doc` gives: the record, or the error of the
/// first field below that does not fit.
pub open spec fn auction_decoded(doc: JsonView) -> Result<AuctionView, ErrorView> {
    let auction_type = text_field(doc, "auctionType"@);
    let paired_shares = count_field(doc, "pairedShares"@);
    let imbalance_shares = count_field(doc, "imbalanceShares"@);
    let imbalance_side = text_field(doc, "imbalanceSide"@);
    let reference_price = count_field(doc, "referencePrice"@);
    let indicative_price = count_field(doc, "indicativePrice"@);
    let auction_book_price = count_field(doc, "auctionBookPrice"@);
    let collar_reference_price = count_field(doc, "collarReferencePrice"@);
    let lower_collar_price = decimal_field(doc, "lowerCollarPrice"@);
    let upper_collar_price = decimal_field(doc, "upperCollarPrice"@);
    let extension_number = count_field(doc, "extensionNumber"@);
    let start_time = count_field(doc, "startTime"@);
    let timestamp = count_field(doc, "timestamp"@);
    if !(doc is Object) {
        Err(wrong_shape(doc))
    } else if auction_type is Err {
        Err(auction_type->Err_0)
    } else if paired_shares is Err {
        Err(paired_shares->Err_0)
    } else if imbalance_shares is Err {
        Err(imbalance_shares->Err_0)
    } else if imbalance_side is Err {
        Err(imbalance_side->Err_0)
    } else if reference_price is Err {
        Err(reference_price->Err_0)
    } else if indicative_price is Err {
        Err(indicative_price->Err_0)
    } else if auction_book_price is Err {
        Err(auction_book_price->Err_0)
    } else if collar_reference_price is Err {
        Err(collar_reference_price->Err_0)
    } else if lower_collar_price is Err {
        Err(lower_collar_price->Err_0)
    } else if upper_collar_price is Err {
        Err(upper_collar_price->Err_0)
    } else if extension_number is Err {
        Err(extension_number->Err_0)
    } else if start_time is Err {
        Err(start_time->Err_0)
    } else if timestamp is Err {
        Err(timestamp->Err_0)
    } else {
        Ok(
            AuctionView {
                auction_type: auction_type->Ok_0,
                paired_shares: paired_shares->Ok_0,
                imbalance_shares: imbalance_shares->Ok_0,
                imbalance_side: imbalance_side->Ok_0,
                reference_price: reference_price->Ok_0,
                indicative_price: indicative_price->Ok_0,
                auction_book_price: auction_book_price->Ok_0,
                collar_reference_price: collar_reference_price->Ok_0,
                lower_collar_price: lower_collar_price->Ok_0,
                upper_collar_price: upper_collar_price->Ok_0,
                extension_number: extension_number->Ok_0,
                start_time: start_time->Ok_0,
                timestamp: timestamp->Ok_0,
            },
        )
    }
}

/// The members of the wire form of an auction snapshot, in the order they are written.
pub open spec fn auction_members(m: AuctionView) -> Seq<(Seq<char>, JsonView)> {
    Seq::empty()
        .push(("auctionType"@, JsonView::Text(m.auction_type)))
        .push(("pairedShares"@, JsonView::Number(decimal_text(m.paired_shares as nat))))
        .push(("imbalanceShares"@, JsonView::Number(decimal_text(m.imbalance_shares as nat))))
        .push(("imbalanceSide"@, JsonView::Text(m.imbalance_side)))
        .push(("referencePrice"@, JsonView::Number(decimal_text(m.reference_price as nat))))
        .push(("indicativePrice"@, JsonView::Number(decimal_text(m.indicative_price as nat))))
        .push(("auctionBookPrice"@, JsonView::Number(decimal_text(m.auction_book_price as nat))))
        .push(
            (
                "collarReferencePrice"@,
                JsonView::Number(decimal_text(m.collar_reference_price as nat)),
            ),
        )
        .push(("lowerCollarPrice"@, JsonView::Number(m.lower_collar_price)))
        .push(("upperCollarPrice"@, JsonView::Number(m.upper_collar_price)))
        .push(("extensionNumber"@, JsonView::Number(decimal_text(m.extension_number as nat))))
        .push(("startTime"@, JsonView::Number(decimal_text(m.start_time as nat))))
        .push(("timestamp"@, JsonView::Number(decimal_text(m.timestamp as nat))))
}

/// The wire form of an auction snapshot.
pub open spec fn auction_encoded(m: AuctionView) -> JsonView {
    JsonView::Object(auction_members(m))
}

/// Each name of the wire form finds the value that was written under it.
proof fn lemma_auction_members(m: AuctionView)
    ensures
        find_member(auction_members(m), "auctionType"@) == Some(JsonView::Text(m.auction_type)),
        find_member(auction_members(m), "pairedShares"@) == Some(
            JsonView::Number(decimal_text(m.paired_shares as nat)),
        ),
        find_member(auction_members(m), "imbalanceShares"@) == Some(
            JsonView::Number(decimal_text(m.imbalance_shares as nat)),
        ),
        find_member(auction_members(m), "imbalanceSide"@) == Some(JsonView::Text(m.imbalance_side)),
        find_member(auction_members(m), "referencePrice"@) == Some(
            JsonView::Number(decimal_text(m.reference_price as nat)),
        ),
        find_member(auction_members(m), "indicativePrice"@) == Some(
            JsonView::Number(decimal_text(m.indicative_price as nat)),
        ),
        find_member(auction_members(m), "auctionBookPrice"@) == Some(
            JsonView::Number(decimal_text(m.auction_book_price as nat)),
        ),
        find_member(auction_members(m), "collarReferencePrice"@) == Some(
            JsonView::Number(decimal_text(m.collar_reference_price as nat)),
        ),
        find_member(auction_members(m), "lowerCollarPrice"@) == Some(
            JsonView::Number(m.lower_collar_price),
        ),
        find_member(auction_members(m), "upperCollarPrice"@) == Some(
            JsonView::Number(m.upper_collar_price),
        ),
        find_member(auction_members(m), "extensionNumber"@) == Some(
            JsonView::Number(decimal_text(m.extension_number as nat)),
        ),
        find_member(auction_members(m), "startTime"@) == Some(
            JsonView::Number(decimal_text(m.start_time as nat)),
        ),
        find_member(auction_members(m), "timestamp"@) == Some(
            JsonView::Number(decimal_text(m.timestamp as nat)),
        ),
{
    let s0 = Seq::<(Seq<char>, JsonView)>::empty();
    lemma_find_member_push(s0, "auctionType"@, JsonView::Text(m.auction_type));
    let s1 = s0.push(("auctionType"@, JsonView::Text(m.auction_type)));
    lemma_find_member_push(
        s1, "pairedShares"@, JsonView::Number(decimal_text(m.paired_shares as nat)),
    );
    let s2 = s1.push(("pairedShares"@, JsonView::Number(decimal_text(m.paired_shares as nat))));
    lemma_find_member_push(
        s2, "imbalanceShares"@, JsonView::Number(decimal_text(m.imbalance_shares as nat)),
    );
    let s3 = s2.push(
        ("imbalanceShares"@, JsonView::Number(decimal_text(m.imbalance_shares as nat))),
    );
    lemma_find_member_push(s3, "imbalanceSide"@, JsonView::Text(m.imbalance_side));
    let s4 = s3.push(("imbalanceSide"@, JsonView::Text(m.imbalance_side)));
    lemma_find_member_push(
        s4, "referencePrice"@, JsonView::Number(decimal_text(m.reference_price as nat)),
    );
    let s5 = s4.push(("referencePrice"@, JsonView::Number(decimal_text(m.reference_price as nat))));
    lemma_find_member_push(
        s5, "indicativePrice"@, JsonView::Number(decimal_text(m.indicative_price as nat)),
    );
    let s6 = s5.push(
        ("indicativePrice"@, JsonView::Number(decimal_text(m.indicative_price as nat))),
    );
    lemma_find_member_push(
        s6, "auctionBookPrice"@, JsonView::Number(decimal_text(m.auction_book_price as nat)),
    );
    let s7 = s6.push(
        ("auctionBookPrice"@, JsonView::Number(decimal_text(m.auction_book_price as nat))),
    );
    lemma_find_member_push(
        s7,
        "collarReferencePrice"@,
        JsonView::Number(decimal_text(m.collar_reference_price as nat)),
    );
    let s8 = s7.push(
        ("collarReferencePrice"@, JsonView::Number(decimal_text(m.collar_reference_price as nat))),
    );
    lemma_find_member_push(s8, "lowerCollarPrice"@, JsonView::Number(m.lower_collar_price));
    let s9 = s8.push(("lowerCollarPrice"@, JsonView::Number(m.lower_collar_price)));
    lemma_find_member_push(s9, "upperCollarPrice"@, JsonView::Number(m.upper_collar_price));
    let s10 = s9.push(("upperCollarPrice"@, JsonView::Number(m.upper_collar_price)));
    lemma_find_member_push(
        s10, "extensionNumber"@, JsonView::Number(decimal_text(m.extension_number as nat)),
    );
    let s11 = s10.push(
        ("extensionNumber"@, JsonView::Number(decimal_text(m.extension_number as nat))),
    );
    lemma_find_member_push(s11, "startTime"@, JsonView::Number(decimal_text(m.start_time as nat)));
    let s12 = s11.push(("startTime"@, JsonView::Number(decimal_text(m.start_time as nat))));
    lemma_find_member_push(s12, "timestamp"@, JsonView::Number(decimal_text(m.timestamp as nat)));
    let s13 = s12.push(("timestamp"@, JsonView::Number(decimal_text(m.timestamp as nat))));
    reveal_strlit("auctionType");
    reveal_strlit("pairedShares");
    reveal_strlit("imbalanceShares");
    reveal_strlit("imbalanceSide");
    reveal_strlit("referencePrice");
    reveal_strlit("indicativePrice");
    reveal_strlit("auctionBookPrice");
    reveal_strlit("collarReferencePrice");
    reveal_strlit("lowerCollarPrice");
    reveal_strlit("upperCollarPrice");
    reveal_strlit("extensionNumber");
    reveal_strlit("startTime");
    reveal_strlit("timestamp");
    assert("auctionType"@.len() == 11);
    assert("pairedShares"@.len() == 12);
    assert("imbalanceShares"@.len() == 15);
    assert("imbalanceSide"@.len() == 13);
    assert("referencePrice"@.len() == 14);
    assert("indicativePrice"@.len() == 15);
    assert("auctionBookPrice"@.len() == 16);
    assert("collarReferencePrice"@.len() == 20);
    assert("lowerCollarPrice"@.len() == 16);
    assert("upperCollarPrice"@.len() == 16);
    assert("extensionNumber"@.len() == 15);
    assert("startTime"@.len() == 9);
    assert("timestamp"@.len() == 9);
    assert("imbalanceShares"@[1] != "indicativePrice"@[1]);
    assert("imbalanceShares"@[0] != "extensionNumber"@[0]);
    assert("indicativePrice"@[0] != "extensionNumber"@[0]);
    assert("auctionBookPrice"@[0] != "lowerCollarPrice"@[0]);
    assert("auctionBookPrice"@[0] != "upperCollarPrice"@[0]);
    assert("lowerCollarPrice"@[0] != "upperCollarPrice"@[0]);
    assert("startTime"@[0] != "timestamp"@[0]);
}

/// Encoding an auction snapshot and decoding the result gives the record back.
pub proof fn lemma_auction_round_trip(m: AuctionView)
    ensures
        auction_decoded(auction_encoded(m)) == Ok::<AuctionView, ErrorView>(m),
{
    lemma_auction_members(m);
    let doc = auction_encoded(m);
    lemma_decimal_round_trip(m.paired_shares);
    lemma_decimal_round_trip(m.imbalance_shares);
    lemma_decimal_round_trip(m.reference_price);
    lemma_decimal_round_trip(m.indicative_price);
    lemma_decimal_round_trip(m.auction_book_price);
    lemma_decimal_round_trip(m.collar_reference_price);
    lemma_decimal_round_trip(m.extension_number);
    lemma_decimal_round_trip(m.start_time);
    lemma_decimal_round_trip(m.timestamp);
    assert(text_field(doc, "auctionType"@) == Ok::<Seq<char>, ErrorView>(m.auction_type));
    assert(count_field(doc, "pairedShares"@) == Ok::<u64, ErrorView>(m.paired_shares));
    assert(count_field(doc, "imbalanceShares"@) == Ok::<u64, ErrorView>(m.imbalance_shares));
    assert(text_field(doc, "imbalanceSide"@) == Ok::<Seq<char>, ErrorView>(m.imbalance_side));
    assert(count_field(doc, "referencePrice"@) == Ok::<u64, ErrorView>(m.reference_price));
    assert(count_field(doc, "indicativePrice"@) == Ok::<u64, ErrorView>(m.indicative_price));
    assert(count_field(doc, "auctionBookPrice"@) == Ok::<u64, ErrorView>(m.auction_book_price));
    assert(count_field(doc, "collarReferencePrice"@) == Ok::<u64, ErrorView>(
        m.collar_reference_price,
    ));
    assert(decimal_field(doc, "lowerCollarPrice"@) == Ok::<Seq<char>, ErrorView>(
        m.lower_collar_price,
    ));
    assert(decimal_field(doc, "upperCollarPrice"@) == Ok::<Seq<char>, ErrorView>(
        m.upper_collar_price,
    ));
    assert(count_field(doc, "extensionNumber"@) == Ok::<u64, ErrorView>(m.extension_number));
    assert(count_field(doc, "startTime"@) == Ok::<u64, ErrorView>(m.start_time));
    assert(count_field(doc, "timestamp"@) == Ok::<u64, ErrorView>(m.timestamp));
}

impl Record for AuctionData {
    type Model = AuctionView;

    open spec fn model(&self) -> AuctionView {
        self@
    }

    open spec fn decoded(doc: JsonView) -> Result<AuctionView, ErrorView> {
        auction_decoded(doc)
    }

    open spec fn encoded(model: AuctionView) -> JsonView {
        auction_encoded(model)
    }

    fn from_json(doc: &Json) -> (r: Result<AuctionData, MyError>) {
        if !doc.is_object() {
            return Err(shape_error(doc));
        }
        let auction_type = read_text(doc, "auctionType")?;
        let paired_shares = read_count(doc, "pairedShares")?;
        let imbalance_shares = read_count(doc, "imbalanceShares")?;
        let imbalance_side = read_text(doc, "imbalanceSide")?;
        let reference_price = read_count(doc, "referencePrice")?;
        let indicative_price = read_count(doc, "indicativePrice")?;
        let auction_book_price = read_count(doc, "auctionBookPrice")?;
        let collar_reference_price = read_count(doc, "collarReferencePrice")?;
        let lower_collar_price = read_decimal(doc, "lowerCollarPrice")?;
        let upper_collar_price = read_decimal(doc, "upperCollarPrice")?;
        let extension_number = read_count(doc, "extensionNumber")?;
        let start_time = read_count(doc, "startTime")?;
        let timestamp = read_count(doc, "timestamp")?;
        Ok(
            AuctionData {
                auction_type,
                paired_shares,
                imbalance_shares,
                imbalance_side,
                reference_price,
                indicative_price,
                auction_book_price,
                collar_reference_price,
                lower_collar_price,
                upper_collar_price,
                extension_number,
                start_time,
                timestamp,
            },
        )
    }

    fn to_json(&self) -> (doc: Json) {
        let mut members: Vec<Member> = Vec::new();
        assert(member_views(members@) =~= Seq::empty());
        push_member(&mut members, "auctionType", Json::text(self.auction_type.as_str()));
        push_member(&mut members, "pairedShares", Json::count(self.paired_shares));
        push_member(&mut members, "imbalanceShares", Json::count(self.imbalance_shares));
        push_member(&mut members, "imbalanceSide", Json::text(self.imbalance_side.as_str()));
        push_member(&mut members, "referencePrice", Json::count(self.reference_price));
        push_member(&mut members, "indicativePrice", Json::count(self.indicative_price));
        push_member(&mut members, "auctionBookPrice", Json::count(self.auction_book_price));
        push_member(&mut members, "collarReferencePrice", Json::count(self.collar_reference_price));
        push_member(
            &mut members, "lowerCollarPrice", Json::Number(self.lower_collar_price.clone()),
        );
        push_member(
            &mut members, "upperCollarPrice", Json::Number(self.upper_collar_price.clone()),
        );
        push_member(&mut members, "extensionNumber", Json::count(self.extension_number));
        push_member(&mut members, "startTime", Json::count(self.start_time));
        push_member(&mut members, "timestamp", Json::count(self.timestamp));
        proof {
            lemma_auction_round_trip(self@);
        }
        Json::object(members)
    }
}

/// One auction snapshot under the symbol it belongs to.
#[derive(Debug, PartialEq, Eq)]
pub struct AuctionEntry {
    pub symbol: String,
    pub data: AuctionData,
}

/// Auction snapshots keyed by symbol: no symbol occurs twice, and the
/// entries keep the order in which their symbols first came.
#[derive(Debug, PartialEq, Eq)]
pub struct Auctions {
    entries: Vec<AuctionEntry>,
}

/// The symbols and snapshots of a list of entries.
pub open spec fn entry_views(entries: Seq<AuctionEntry>) -> Seq<(Seq<char>, AuctionView)> {
    Seq::new(entries.len(), |i: int| (entries[i].symbol@, entries[i].data@))
}

impl View for Auctions {
    type V = Seq<(Seq<char>, AuctionView)>;

    closed spec fn view(&self) -> Seq<(Seq<char>, AuctionView)> {
        entry_views(self.entries@)
    }
}

/// True when no symbol occurs twice among `entries`.
pub open spec fn no_repeat(entries: Seq<(Seq<char>, AuctionView)>) -> bool {
    forall|i: int, j: int|
        0 <= i < j < entries.len() ==> (#[trigger] entries[i]).0 != (#[trigger] entries[j]).0
}

/// Where the last entry for `symbol` stands, if there is one.
pub open spec fn position(entries: Seq<(Seq<char>, AuctionView)>, symbol: Seq<char>) -> Option<int>
    decreases entries.len(),
{
    if entries.len() == 0 {
        None
    } else if entries.last().0 == symbol {
        Some(entries.len() - 1)
    } else {
        position(entries.drop_last(), symbol)
    }
}

/// The snapshot for `symbol`, if there is one.
pub open spec fn find_auction(
    entries: Seq<(Seq<char>, AuctionView)>,
    symbol: Seq<char>,
) -> Option<AuctionView> {
    match position(entries, symbol) {
        Some(i) => Some(entries[i].1),
        None => None,
    }
}

/// The entries once `data` is put under `symbol`: in the place of the entry
/// for that symbol where there is one, else at the end.
pub open spec fn put(
    entries: Seq<(Seq<char>, AuctionView)>,
    symbol: Seq<char>,
    data: AuctionView,
) -> Seq<(Seq<char>, AuctionView)> {
    match position(entries, symbol) {
        Some(i) => entries.update(i, (symbol, data)),
        None => entries.push((symbol, data)),
    }
}

/// A position that is found holds the symbol, and no later entry does; where
/// none is found, no entry holds the symbol.
pub proof fn lemma_position(entries: Seq<(Seq<char>, AuctionView)>, symbol: Seq<char>)
    ensures
        match position(entries, symbol) {
            Some(i) => 0 <= i < entries.len() && entries[i].0 == symbol && forall|j: int|
                i < j < entries.len() ==> (#[trigger] entries[j]).0 != symbol,
            None => forall|j: int| 0 <= j < entries.len() ==> (#[trigger] entries[j]).0 != symbol,
        },
    decreases entries.len(),
{
    if entries.len() > 0 && entries.last().0 != symbol {
        let front = entries.drop_last();
        lemma_position(front, symbol);
        assert forall|j: int| 0 <= j < front.len() implies (#[trigger] entries[j]) == front[j] by {}
        match position(front, symbol) {
            Some(i) => {
                assert forall|j: int| i < j < entries.len() implies (#[trigger] entries[j]).0
                    != symbol by {
                    if j < front.len() {
                        assert(front[j].0 != symbol);
                    }
                }
            },
            None => {
                assert forall|j: int| 0 <= j < entries.len() implies (#[trigger] entries[j]).0
                    != symbol by {
                    if j < front.len() {
                        assert(front[j].0 != symbol);
                    }
                }
            },
        }
    }
}

/// Putting a snapshot under a symbol leaves no symbol twice, and makes it
/// the snapshot found for that symbol.
pub proof fn lemma_put(
    entries: Seq<(Seq<char>, AuctionView)>,
    symbol: Seq<char>,
    data: AuctionView,
)
    requires
        no_repeat(entries),
    ensures
        no_repeat(put(entries, symbol, data)),
        find_auction(put(entries, symbol, data), symbol) == Some(data),
{
    lemma_position(entries, symbol);
    let after = put(entries, symbol, data);
    lemma_position(after, symbol);
    match position(entries, symbol) {
        Some(i) => {
            assert(after[i].0 == symbol);
        },
        None => {
            assert(after[entries.len() as int].0 == symbol);
        },
    }
}

/// What decoding each member as an auction snapshot gives: each snapshot put
/// under its member's name, in document order, or the error of the first
/// member that does not decode.
pub open spec fn decoded_auctions(members: Seq<(Seq<char>, JsonView)>) -> Result<
    Seq<(Seq<char>, AuctionView)>,
    ErrorView,
>
    decreases members.len(),
{
    if members.len() == 0 {
        Ok(Seq::empty())
    } else {
        match decoded_auctions(members.drop_last()) {
            Err(e) => Err(e),
            Ok(front) => match auction_decoded(members.last().1) {
                Err(e) => Err(e),
                Ok(m) => Ok(put(front, members.last().0, m)),
            },
        }
    }
}

/// The members that a list of entries is written as.
pub open spec fn encoded_auctions(entries: Seq<(Seq<char>, AuctionView)>) -> Seq<
    (Seq<char>, JsonView),
> {
    Seq::new(entries.len(), |i: int| (entries[i].0, auction_encoded(entries[i].1)))
}

/// Once a prefix of the members fails to decode, the members fail with the
/// same error.
pub proof fn lemma_decoded_auctions_stops(members: Seq<(Seq<char>, JsonView)>, k: int)
    requires
        0 <= k <= members.len(),
        decoded_auctions(members.take(k)) is Err,
    ensures
        decoded_auctions(members) == decoded_auctions(members.take(k)),
    decreases members.len() - k,
{
    if k == members.len() {
        assert(members.take(k) =~= members);
    } else {
        assert(members.drop_last().take(k) =~= members.take(k));
        lemma_decoded_auctions_stops(members.drop_last(), k);
    }
}

/// Encoding entries in which no symbol occurs twice, and decoding the
/// members, gives the entries back.
pub proof fn lemma_auctions_round_trip(entries: Seq<(Seq<char>, AuctionView)>)
    requires
        no_repeat(entries),
    ensures
        decoded_auctions(encoded_auctions(entries)) == Ok::<
            Seq<(Seq<char>, AuctionView)>,
            ErrorView,
        >(entries),
    decreases entries.len(),
{
    let members = encoded_auctions(entries);
    if entries.len() == 0 {
        assert(entries =~= Seq::empty());
    } else {
        let front = entries.drop_last();
        assert(forall|j: int| 0 <= j < front.len() ==> entries[j] == (#[trigger] front[j]));
        lemma_auctions_round_trip(front);
        lemma_auction_round_trip(entries.last().1);
        lemma_position(front, entries.last().0);
        assert(members.drop_last() =~= encoded_auctions(front));
        assert(front.push(entries.last()) =~= entries);
    }
}

impl Auctions {
    /// No symbol occurs twice.
    #[verifier::type_invariant]
    pub open spec fn wf(self) -> bool {
        no_repeat(self@)
    }

    /// No snapshots at all.
    pub fn new() -> (r: Auctions)
        ensures
            r@ == Seq::<(Seq<char>, AuctionView)>::empty(),
    {
        let entries: Vec<AuctionEntry> = Vec::new();
        proof {
            assert(entry_views(entries@) =~= Seq::empty());
        }
        Auctions { entries }
    }

    /// The number of symbols.
    pub fn len(&self) -> (n: usize)
        ensures
            n == self@.len(),
    {
        self.entries.len()
    }

    /// The entry at place `i`, in the order in which the symbols first came.
    pub fn entry(&self, i: usize) -> (r: Option<&AuctionEntry>)
        ensures
            match r {
                Some(e) => i < self@.len() && self@[i as int] == (e.symbol@, e.data@),
                None => i >= self@.len(),
            },
    {
        if i < self.entries.len() {
            Some(&self.entries[i])
        } else {
            None
        }
    }

    /// Where the entry for `symbol` stands.
    fn find(&self, symbol: &str) -> (r: Option<usize>)
        ensures
            match r {
                Some(i) => position(self@, symbol@) == Some(i as int),
                None => position(self@, symbol@) is None,
            },
    {
        let mut i: usize = self.entries.len();
        proof {
            assert(self@.take(i as int) =~= self@);
        }
        while i > 0
            invariant
                0 <= i <= self.entries.len(),
                self@ == entry_views(self.entries@),
                position(self@, symbol@) == position(self@.take(i as int), symbol@),
            decreases i,
        {
            i = i - 1;
            proof {
                assert(self@.take(i as int + 1).drop_last() =~= self@.take(i as int));
                assert(self@.take(i as int + 1).last() == self@[i as int]);
            }
            if same_text(self.entries[i].symbol.as_str(), symbol) {
                return Some(i);
            }
        }
        None
    }

    /// The snapshot for `symbol`.
    pub fn get(&self, symbol: &str) -> (r: Option<&AuctionData>)
        ensures
            match r {
                Some(data) => find_auction(self@, symbol@) == Some(data@),
                None => find_auction(self@, symbol@) is None,
            },
    {
        proof {
            lemma_position(self@, symbol@);
        }
        match self.find(symbol) {
            Some(i) => Some(&self.entries[i].data),
            None => None,
        }
    }

    /// Puts `data` under `symbol`, in the place of the snapshot that was
    /// there, if any.
    pub fn insert(self, symbol: String, data: AuctionData) -> (r: Auctions)
        ensures
            r@ == put(self@, symbol@, data@),
    {
        proof {
            use_type_invariant(&self);
            lemma_position(self@, symbol@);
            lemma_put(self@, symbol@, data@);
        }
        let found = self.find(symbol.as_str());
        let ghost before = self@;
        let mut entries = self.entries;
        match found {
            Some(i) => {
                entries.set(i, AuctionEntry { symbol, data });
                proof {
                    assert(entry_views(entries@) =~= put(before, symbol@, data@));
                }
            },
            None => {
                entries.push(AuctionEntry { symbol, data });
                proof {
                    assert(entry_views(entries@) =~= put(before, symbol@, data@));
                }
            },
        }
        Auctions { entries }
    }
}

/// A JSON object whose members are auction snapshots under their symbols.
impl Record for Auctions {
    type Model = Seq<(Seq<char>, AuctionView)>;

    open spec fn model(&self) -> Seq<(Seq<char>, AuctionView)> {
        self@
    }

    open spec fn decoded(doc: JsonView) -> Result<Seq<(Seq<char>, AuctionView)>, ErrorView> {
        match doc {
            JsonView::Object(members) => decoded_auctions(members),
            _ => Err(wrong_shape(doc)),
        }
    }

    open spec fn encoded(model: Seq<(Seq<char>, AuctionView)>) -> JsonView {
        JsonView::Object(encoded_auctions(model))
    }

    fn from_json(doc: &Json) -> (r: Result<Auctions, MyError>) {
        match doc {
            Json::Object(members) => {
                let mut found = Auctions::new();
                let mut i: usize = 0;
                let ghost all = doc@->Object_0;
                proof {
                    assert(all.take(0) =~= Seq::<(Seq<char>, JsonView)>::empty());
                }
                while i < members.len()
                    invariant
                        0 <= i <= members.len(),
                        doc@ is Object,
                        all == doc@->Object_0,
                        all.len() == members.len(),
                        forall|k: int|
                            0 <= k < members.len() ==> (#[trigger] all[k]) == (
                                members[k].name@,
                                members[k].value@,
                            ),
                        decoded_auctions(all.take(i as int)) == Ok::<
                            Seq<(Seq<char>, AuctionView)>,
                            ErrorView,
                        >(found@),
                    decreases members.len() - i,
                {
                    proof {
                        assert(all.take(i as int + 1).drop_last() =~= all.take(i as int));
                        assert(all.take(i as int + 1).last() == all[i as int]);
                    }
                    match AuctionData::from_json(&members[i].value) {
                        Ok(data) => {
                            found = found.insert(members[i].name.clone(), data);
                        },
                        Err(e) => {
                            proof {
                                lemma_decoded_auctions_stops(all, i as int + 1);
                            }
                            return Err(e);
                        },
                    }
                    i = i + 1;
                }
                proof {
                    assert(all.take(i as int) =~= all);
                }
                Ok(found)
            },
            _ => Err(shape_error(doc)),
        }
    }

    fn to_json(&self) -> (doc: Json) {
        let mut members: Vec<Member> = Vec::new();
        let mut i: usize = 0;
        while i < self.entries.len()
            invariant
                0 <= i <= self.entries.len(),
                members.len() == i,
                forall|k: int|
                    0 <= k < i ==> (#[trigger] members[k]).name@ == self.entries[k].symbol@
                        && members[k].value@ == auction_encoded(self.entries[k].data@),
            decreases self.entries.len() - i,
        {
            let value = self.entries[i].data.to_json();
            push_entry(&mut members, self.entries[i].symbol.as_str(), value);
            i = i + 1;
        }
        proof {
            use_type_invariant(self);
            assert(member_views(members@) =~= encoded_auctions(self@));
            lemma_auctions_round_trip(self@);
        }
        Json::object(members)
    }
}

/// Adds the member `name` with `value` at the end of `members`, leaving the
/// members before it as they are.
fn push_entry(members: &mut Vec<Member>, name: &str, value: Json)
    ensures
        final(members)@.len() == old(members)@.len() + 1,
        forall|k: int| 0 <= k < old(members)@.len() ==> final(members)@[k] == old(members)@[k],
        final(members)@[old(members)@.len() as int].name@ == name@,
        final(members)@[old(members)@.len() as int].value == value,
{
    members.push(Member { name: name.to_owned(), value });
}

/// The handle for the real-time feeds.
#[derive(Debug, Clone, Copy, PartialEq, Eq)]
pub struct MarketData;

impl MarketData {
    /// Top-of-book quotes. This surface sends no request for them: the call
    /// succeeds with nothing.
    pub fn tops(&self) -> (r: Result<(), MyError>)
        ensures
            r is Ok,
    {
        Ok(())
    }

    /// Last-sale prices; succeeds with nothing.
    pub fn last(&self) -> (r: Result<(), MyError>)
        ensures
            r is Ok,
    {
        Ok(())
    }

    /// Historical feed files; succeeds with nothing.
    pub fn hist(&self) -> (r: Result<(), MyError>)
        ensures
            r is Ok,
    {
        Ok(())
    }

    /// Depth of book; succeeds with nothing.
    pub fn deep(&self) -> (r: Result<(), MyError>)
        ensures
            r is Ok,
    {
        Ok(())
    }

    /// Book of bids and asks; succeeds with nothing.
    pub fn book(&self) -> (r: Result<(), MyError>)
        ensures
            r is Ok,
    {
        Ok(())
    }

    /// Trade reports; succeeds with nothing.
    pub fn trades(&self) -> (r: Result<(), MyError>)
        ensures
            r is Ok,
    {
        Ok(())
    }

    /// System events; succeeds with nothing.
    pub fn system_event(&self) -> (r: Result<(), MyError>)
        ensures
            r is Ok,
    {
        Ok(())
    }

    /// Trading status; succeeds with nothing.
    pub fn trading_status(&self) -> (r: Result<(), MyError>)
        ensures
            r is Ok,
    {
        Ok(())
    }

    /// Operational halt status; succeeds with nothing.
    pub fn operational_halt_status(&self) -> (r: Result<(), MyError>)
        ensures
            r is Ok,
    {
        Ok(())
    }

    /// Short-sale price test status; succeeds with nothing.
    pub fn short_sale_price_test_status(&self) -> (r: Result<(), MyError>)
        ensures
            r is Ok,
    {
        Ok(())
    }

    /// Security events; succeeds with nothing.
    pub fn security_event(&self) -> (r: Result<(), MyError>)
        ensures
            r is Ok,
    {
        Ok(())
    }

    /// Trade breaks; succeeds with nothing.
    pub fn trade_break(&self) -> (r: Result<(), MyError>)
        ensures
            r is Ok,
    {
        Ok(())
    }

    /// Auction information; succeeds with nothing.
    pub fn auction(&self) -> (r: Result<(), MyError>)
        ensures
            r is Ok,
    {
        Ok(())
    }

    /// Official prices; succeeds with nothing.
    pub fn official_price(&self) -> (r: Result<(), MyError>)
        ensures
            r is Ok,
    {
        Ok(())
    }
}

} // verus!
