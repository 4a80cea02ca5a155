//! Reference data: the symbols the exchange trades, and the corporate actions
//! of its daily list.

use crate::coercion::{flag_letter, flag_text, lemma_flag_round_trip, lemma_number_round_trip};
use crate::date::{date_text, iso_date, Date, Ymd};
use crate::decimal::{decimal_text, format_unsigned};
use crate::error::{ErrorView, MyError};
use crate::fields::{
    bool_field, date_field, letter_field, number_text_field, read_bool, read_date, read_letter,
    read_number_text, read_text, shape_error, text_field, wrong_shape,
};
use crate::json::{
    find_member, lemma_find_member_push, member_views, push_member, Json, JsonView, Member,
};
use crate::record::Record;
use vstd::prelude::*;

verus! {

/// One symbol that the exchange supports for trading.
#[derive(Debug, PartialEq, Eq)]
pub struct SymbolData {
    /// The symbol in Nasdaq Integrated symbology (INET).
    pub symbol: String,
    /// The name of the company or security.
    pub name: String,
    /// The date the reference data was generated.
    pub date: Date,
    /// True if the symbol is enabled for trading.
    pub is_enabled: bool,
    /// The common issue type, as its two-letter code.
    pub issue_type: String,
    /// The identifier that follows a security through symbol changes; zero
    /// where the service sent none.
    pub iex_id: u64,
}

/// The mathematical value of a [`SymbolData`].
pub struct SymbolView {
    pub symbol: Seq<char>,
    pub name: Seq<char>,
    pub date: Ymd,
    pub is_enabled: bool,
    pub issue_type: Seq<char>,
    pub iex_id: u64,
}

impl View for SymbolData {
    type V = SymbolView;

    open spec fn view(&self) -> SymbolView {
        SymbolView {
            symbol: self.symbol@,
            name: self.name@,
            date: self.date@,
            is_enabled: self.is_enabled,
            issue_type: self.issue_type@,
            iex_id: self.iex_id,
        }
    }
}

/// What decoding a symbol from `doc` gives: the record, or the error of the
/// first field below that does not fit.
pub open spec fn symbol_decoded(doc: JsonView) -> Result<SymbolView, ErrorView> {
    let symbol = text_field(doc, "symbol"@);
    let name = text_field(doc, "name"@);
    let date = date_field(doc, "date"@);
    let is_enabled = bool_field(doc, "isEnabled"@);
    let issue_type = text_field(doc, "type"@);
    let iex_id = number_text_field(doc, "iexId"@);
    if !(doc is Object) {
        Err(wrong_shape(doc))
    } else if symbol is Err {
        Err(symbol->Err_0)
    } else if name is Err {
        Err(name->Err_0)
    } else if date is Err {
        Err(date->Err_0)
    } else if is_enabled is Err {
        Err(is_enabled->Err_0)
    } else if issue_type is Err {
        Err(issue_type->Err_0)
    } else if iex_id is Err {
        Err(iex_id->Err_0)
    } else {
        Ok(
            SymbolView {
                symbol: symbol->Ok_0,
                name: name->Ok_0,
                date: date->Ok_0,
                is_enabled: is_enabled->Ok_0,
                issue_type: issue_type->Ok_0,
                iex_id: iex_id->Ok_0,
            },
        )
    }
}

/// The members of the wire form of a symbol, in the order they are written.
pub open spec fn symbol_members(m: SymbolView) -> Seq<(Seq<char>, JsonView)> {
    Seq::empty()
        .push(("symbol"@, JsonView::Text(m.symbol)))
        .push(("name"@, JsonView::Text(m.name)))
        .push(("date"@, JsonView::Text(date_text(m.date))))
        .push(("isEnabled"@, JsonView::Bool(m.is_enabled)))
        .push(("type"@, JsonView::Text(m.issue_type)))
        .push(("iexId"@, JsonView::Text(decimal_text(m.iex_id as nat))))
}

/// The wire form of a symbol: the identifier goes out as a string of
/// digits.
pub open spec fn symbol_encoded(m: SymbolView) -> JsonView {
    JsonView::Object(symbol_members(m))
}

/// Each name of the wire form finds the value that was written under it.
proof fn lemma_symbol_members(m: SymbolView)
    ensures
        find_member(symbol_members(m), "symbol"@) == Some(JsonView::Text(m.symbol)),
        find_member(symbol_members(m), "name"@) == Some(JsonView::Text(m.name)),
        find_member(symbol_members(m), "date"@) == Some(JsonView::Text(date_text(m.date))),
        find_member(symbol_members(m), "isEnabled"@) == Some(JsonView::Bool(m.is_enabled)),
        find_member(symbol_members(m), "type"@) == Some(JsonView::Text(m.issue_type)),
        find_member(symbol_members(m), "iexId"@) == Some(
            JsonView::Text(decimal_text(m.iex_id as nat)),
        ),
{
    let s0 = Seq::<(Seq<char>, JsonView)>::empty();
    lemma_find_member_push(s0, "symbol"@, JsonView::Text(m.symbol));
    let s1 = s0.push(("symbol"@, JsonView::Text(m.symbol)));
    lemma_find_member_push(s1, "name"@, JsonView::Text(m.name));
    let s2 = s1.push(("name"@, JsonView::Text(m.name)));
    lemma_find_member_push(s2, "date"@, JsonView::Text(date_text(m.date)));
    let s3 = s2.push(("date"@, JsonView::Text(date_text(m.date))));
    lemma_find_member_push(s3, "isEnabled"@, JsonView::Bool(m.is_enabled));
    let s4 = s3.push(("isEnabled"@, JsonView::Bool(m.is_enabled)));
    lemma_find_member_push(s4, "type"@, JsonView::Text(m.issue_type));
    let s5 = s4.push(("type"@, JsonView::Text(m.issue_type)));
    lemma_find_member_push(s5, "iexId"@, JsonView::Text(decimal_text(m.iex_id as nat)));
    let s6 = s5.push(("iexId"@, JsonView::Text(decimal_text(m.iex_id as nat))));
    reveal_strlit("symbol");
    reveal_strlit("name");
    reveal_strlit("date");
    reveal_strlit("isEnabled");
    reveal_strlit("type");
    reveal_strlit("iexId");
    assert("symbol"@.len() == 6);
    assert("name"@.len() == 4);
    assert("date"@.len() == 4);
    assert("isEnabled"@.len() == 9);
    assert("type"@.len() == 4);
    assert("iexId"@.len() == 5);
    assert("name"@[0] != "date"@[0]);
    assert("name"@[0] != "type"@[0]);
    assert("date"@[0] != "type"@[0]);
}

/// Encoding a symbol and decoding the result gives the record back, wherever
/// each date as written is read back as the same date.
pub proof fn lemma_symbol_round_trip(m: SymbolView)
    requires
        iso_date(date_text(m.date)) == Some(m.date),
    ensures
        symbol_decoded(symbol_encoded(m)) == Ok::<SymbolView, ErrorView>(m),
{
    lemma_symbol_members(m);
    let doc = symbol_encoded(m);
    lemma_number_round_trip(m.iex_id);
    assert(text_field(doc, "symbol"@) == Ok::<Seq<char>, ErrorView>(m.symbol));
    assert(text_field(doc, "name"@) == Ok::<Seq<char>, ErrorView>(m.name));
    assert(date_field(doc, "date"@) == Ok::<Ymd, ErrorView>(m.date));
    assert(bool_field(doc, "isEnabled"@) == Ok::<bool, ErrorView>(m.is_enabled));
    assert(text_field(doc, "type"@) == Ok::<Seq<char>, ErrorView>(m.issue_type));
    assert(number_text_field(doc, "iexId"@) == Ok::<u64, ErrorView>(m.iex_id));
}

impl Record for SymbolData {
    type Model = SymbolView;

    open spec fn model(&self) -> SymbolView {
        self@
    }

    open spec fn decoded(doc: JsonView) -> Result<SymbolView, ErrorView> {
        symbol_decoded(doc)
    }

    open spec fn encoded(model: SymbolView) -> JsonView {
        symbol_encoded(model)
    }

    fn from_json(doc: &Json) -> (r: Result<SymbolData, MyError>) {
        if !doc.is_object() {
            return Err(shape_error(doc));
        }
        let symbol = read_text(doc, "symbol")?;
        let name = read_text(doc, "name")?;
        let date = read_date(doc, "date")?;
        let is_enabled = read_bool(doc, "isEnabled")?;
        let issue_type = read_text(doc, "type")?;
        let iex_id = read_number_text(doc, "iexId")?;
        Ok(
            SymbolData {
                symbol,
                name,
                date,
                is_enabled,
                issue_type,
                iex_id,
            },
        )
    }

    fn to_json(&self) -> (doc: Json) {
        let mut members: Vec<Member> = Vec::new();
        assert(member_views(members@) =~= Seq::empty());
        push_member(&mut members, "symbol", Json::text(self.symbol.as_str()));
        push_member(&mut members, "name", Json::text(self.name.as_str()));
        push_member(&mut members, "date", Json::Text(self.date.to_text()));
        push_member(&mut members, "isEnabled", Json::Bool(self.is_enabled));
        push_member(&mut members, "type", Json::text(self.issue_type.as_str()));
        push_member(&mut members, "iexId", Json::Text(format_unsigned(self.iex_id)));
        proof {
            lemma_symbol_round_trip(self@);
        }
        Json::object(members)
    }
}

/// One entry of the daily list of corporate actions: a new issue, a symbol
/// or name change, or a deleted issue.
#[derive(Debug, PartialEq, Eq)]
pub struct CorporateActionsData {
    pub record_id: String,
    pub daily_list_timestamp: String,
    pub effective_date: Date,
    pub issue_event: String,
    pub current_symbol_in_inets_symbology: String,
    pub current_symbol_in_cqss_symbology: String,
    pub current_symbol_in_cmss_symbology: String,
    pub new_symbol_in_inets_symbology: String,
    pub new_symbol_in_cqss_symbology: String,
    pub new_symbol_in_cmss_symbology: String,
    pub current_security_name: String,
    pub new_security_name: String,
    pub current_company_name: String,
    pub new_company_name: String,
    pub current_listing_center: String,
    pub new_round_lot_size: u64,
    pub current_luld_tier_indicator: u64,
    pub new_luld_tier_indicator: u64,
    pub expiration_date: u64,
    pub separation_date: u64,
    pub settlement_date: u64,
    pub maturity_date: u64,
    pub redemption_date: u64,
    pub current_financial_status: String,
    pub new_financial_status: String,
    pub when_issued_flag: bool,
    pub when_distributed_flag: bool,
    pub ipo_flag: bool,
    pub notes_for_each_entry: String,
    pub record_update_time: String,
}

/// The mathematical value of a [`CorporateActionsData`].
pub struct CorporateActionsView {
    pub record_id: Seq<char>,
    pub daily_list_timestamp: Seq<char>,
    pub effective_date: Ymd,
    pub issue_event: Seq<char>,
    pub current_symbol_in_inets_symbology: Seq<char>,
    pub current_symbol_in_cqss_symbology: Seq<char>,
    pub current_symbol_in_cmss_symbology: Seq<char>,
    pub new_symbol_in_inets_symbology: Seq<char>,
    pub new_symbol_in_cqss_symbology: Seq<char>,
    pub new_symbol_in_cmss_symbology: Seq<char>,
    pub current_security_name: Seq<char>,
    pub new_security_name: Seq<char>,
    pub current_company_name: Seq<char>,
    pub new_company_name: Seq<char>,
    pub current_listing_center: Seq<char>,
    pub new_round_lot_size: u64,
    pub current_luld_tier_indicator: u64,
    pub new_luld_tier_indicator: u64,
    pub expiration_date: u64,
    pub separation_date: u64,
    pub settlement_date: u64,
    pub maturity_date: u64,
    pub redemption_date: u64,
    pub current_financial_status: Seq<char>,
    pub new_financial_status: Seq<char>,
    pub when_issued_flag: bool,
    pub when_distributed_flag: bool,
    pub ipo_flag: bool,
    pub notes_for_each_entry: Seq<char>,
    pub record_update_time: Seq<char>,
}

impl View for CorporateActionsData {
    type V = CorporateActionsView;

    open spec fn view(&self) -> CorporateActionsView {
        CorporateActionsView {
            record_id: self.record_id@,
            daily_list_timestamp: self.daily_list_timestamp@,
            effective_date: self.effective_date@,
            issue_event: self.issue_event@,
            current_symbol_in_inets_symbology: self.current_symbol_in_inets_symbology@,
            current_symbol_in_cqss_symbology: self.current_symbol_in_cqss_symbology@,
            current_symbol_in_cmss_symbology: self.current_symbol_in_cmss_symbology@,
            new_symbol_in_inets_symbology: self.new_symbol_in_inets_symbology@,
            new_symbol_in_cqss_symbology: self.new_symbol_in_cqss_symbology@,
            new_symbol_in_cmss_symbology: self.new_symbol_in_cmss_symbology@,
            current_security_name: self.current_security_name@,
            new_security_name: self.new_security_name@,
            current_company_name: self.current_company_name@,
            new_company_name: self.new_company_name@,
            current_listing_center: self.current_listing_center@,
            new_round_lot_size: self.new_round_lot_size,
            current_luld_tier_indicator: self.current_luld_tier_indicator,
            new_luld_tier_indicator: self.new_luld_tier_indicator,
            expiration_date: self.expiration_date,
            separation_date: self.separation_date,
            settlement_date: self.settlement_date,
            maturity_date: self.maturity_date,
            redemption_date: self.redemption_date,
            current_financial_status: self.current_financial_status@,
            new_financial_status: self.new_financial_status@,
            when_issued_flag: self.when_issued_flag,
            when_distributed_flag: self.when_distributed_flag,
            ipo_flag: self.ipo_flag,
            notes_for_each_entry: self.notes_for_each_entry@,
            record_update_time: self.record_update_time@,
        }
    }
}

/// What decoding a corporate action from `doc` gives: the record, or the error of the
/// first field below that does not fit.
pub open spec fn corporate_action_decoded(doc: JsonView) -> Result<
    CorporateActionsView,
    ErrorView,
> {
    let record_id = text_field(doc, "RecordID"@);
    let daily_list_timestamp = text_field(doc, "DailyListTimestamp"@);
    let effective_date = date_field(doc, "EffectiveDate"@);
    let issue_event = text_field(doc, "IssueEvent"@);
    let current_symbol_in_inets_symbology = text_field(doc, "CurrentSymbolinINETSymbology"@);
    let current_symbol_in_cqss_symbology = text_field(doc, "CurrentSymbolinCQSSymbology"@);
    let current_symbol_in_cmss_symbology = text_field(doc, "CurrentSymbolinCMSSymbology"@);
    let new_symbol_in_inets_symbology = text_field(doc, "NewSymbolinINETSymbology"@);
    let new_symbol_in_cqss_symbology = text_field(doc, "NewSymbolinCQSSymbology"@);
    let new_symbol_in_cmss_symbology = text_field(doc, "NewSymbolinCMSSymbology"@);
    let current_security_name = text_field(doc, "CurrentSecurityName"@);
    let new_security_name = text_field(doc, "NewSecurityName"@);
    let current_company_name = text_field(doc, "CurrentCompanyName"@);
    let new_company_name = text_field(doc, "NewCompanyName"@);
    let current_listing_center = text_field(doc, "CurrentListingCenter"@);
    let new_round_lot_size = number_text_field(doc, "NewRoundLotSize"@);
    let current_luld_tier_indicator = number_text_field(doc, "CurrentLULDTierIndicator"@);
    let new_luld_tier_indicator = number_text_field(doc, "NewLULDTierIndicator"@);
    let expiration_date = number_text_field(doc, "ExpirationDate"@);
    let separation_date = number_text_field(doc, "SeparationDate"@);
    let settlement_date = number_text_field(doc, "SettlementDate"@);
    let maturity_date = number_text_field(doc, "MaturityDate"@);
    let redemption_date = number_text_field(doc, "RedemptionDate"@);
    let current_financial_status = text_field(doc, "CurrentFinancialStatus"@);
    let new_financial_status = text_field(doc, "NewFinancialStatus"@);
    let when_issued_flag = letter_field(doc, "WhenIssuedFlag"@);
    let when_distributed_flag = letter_field(doc, "WhenDistributedFlag"@);
    let ipo_flag = letter_field(doc, "IPOFlag"@);
    let notes_for_each_entry = text_field(doc, "NotesforEachEntry"@);
    let record_update_time = text_field(doc, "RecordUpdateTime"@);
    if !(doc is Object) {
        Err(wrong_shape(doc))
    } else if record_id is Err {
        Err(record_id->Err_0)
    } else if daily_list_timestamp is Err {
        Err(daily_list_timestamp->Err_0)
    } else if effective_date is Err {
        Err(effective_date->Err_0)
    } else if issue_event is Err {
        Err(issue_event->Err_0)
    } else if current_symbol_in_inets_symbology is Err {
        Err(current_symbol_in_inets_symbology->Err_0)
    } else if current_symbol_in_cqss_symbology is Err {
        Err(current_symbol_in_cqss_symbology->Err_0)
    } else if current_symbol_in_cmss_symbology is Err {
        Err(current_symbol_in_cmss_symbology->Err_0)
    } else if new_symbol_in_inets_symbology is Err {
        Err(new_symbol_in_inets_symbology->Err_0)
    } else if new_symbol_in_cqss_symbology is Err {
        Err(new_symbol_in_cqss_symbology->Err_0)
    } else if new_symbol_in_cmss_symbology is Err {
        Err(new_symbol_in_cmss_symbology->Err_0)
    } else if current_security_name is Err {
        Err(current_security_name->Err_0)
    } else if new_security_name is Err {
        Err(new_security_name->Err_0)
    } else if current_company_name is Err {
        Err(current_company_name->Err_0)
    } else if new_company_name is Err {
        Err(new_company_name->Err_0)
    } else if current_listing_center is Err {
        Err(current_listing_center->Err_0)
    } else if new_round_lot_size is Err {
        Err(new_round_lot_size->Err_0)
    } else if current_luld_tier_indicator is Err {
        Err(current_luld_tier_indicator->Err_0)
    } else if new_luld_tier_indicator is Err {
        Err(new_luld_tier_indicator->Err_0)
    } else if expiration_date is Err {
        Err(expiration_date->Err_0)
    } else if separation_date is Err {
        Err(separation_date->Err_0)
    } else if settlement_date is Err {
        Err(settlement_date->Err_0)
    } else if maturity_date is Err {
        Err(maturity_date->Err_0)
    } else if redemption_date is Err {
        Err(redemption_date->Err_0)
    } else if current_financial_status is Err {
        Err(current_financial_status->Err_0)
    } else if new_financial_status is Err {
        Err(new_financial_status->Err_0)
    } else if when_issued_flag is Err {
        Err(when_issued_flag->Err_0)
    } else if when_distributed_flag is Err {
        Err(when_distributed_flag->Err_0)
    } else if ipo_flag is Err {
        Err(ipo_flag->Err_0)
    } else if notes_for_each_entry is Err {
        Err(notes_for_each_entry->Err_0)
    } else if record_update_time is Err {
        Err(record_update_time->Err_0)
    } else {
        Ok(
            CorporateActionsView {
                record_id: record_id->Ok_0,
                daily_list_timestamp: daily_list_timestamp->Ok_0,
                effective_date: effective_date->Ok_0,
                issue_event: issue_event->Ok_0,
                current_symbol_in_inets_symbology: current_symbol_in_inets_symbology->Ok_0,
                current_symbol_in_cqss_symbology: current_symbol_in_cqss_symbology->Ok_0,
                current_symbol_in_cmss_symbology: current_symbol_in_cmss_symbology->Ok_0,
                new_symbol_in_inets_symbology: new_symbol_in_inets_symbology->Ok_0,
                new_symbol_in_cqss_symbology: new_symbol_in_cqss_symbology->Ok_0,
                new_symbol_in_cmss_symbology: new_symbol_in_cmss_symbology->Ok_0,
                current_security_name: current_security_name->Ok_0,
                new_security_name: new_security_name->Ok_0,
                current_company_name: current_company_name->Ok_0,
                new_company_name: new_company_name->Ok_0,
                current_listing_center: current_listing_center->Ok_0,
                new_round_lot_size: new_round_lot_size->Ok_0,
                current_luld_tier_indicator: current_luld_tier_indicator->Ok_0,
                new_luld_tier_indicator: new_luld_tier_indicator->Ok_0,
                expiration_date: expiration_date->Ok_0,
                separation_date: separation_date->Ok_0,
                settlement_date: settlement_date->Ok_0,
                maturity_date: maturity_date->Ok_0,
                redemption_date: redemption_date->Ok_0,
                current_financial_status: current_financial_status->Ok_0,
                new_financial_status: new_financial_status->Ok_0,
                when_issued_flag: when_issued_flag->Ok_0,
                when_distributed_flag: when_distributed_flag->Ok_0,
                ipo_flag: ipo_flag->Ok_0,
                notes_for_each_entry: notes_for_each_entry->Ok_0,
                record_update_time: record_update_time->Ok_0,
            },
        )
    }
}

/// The members of the wire form of a corporate action, in the order they are written.
pub open spec fn corporate_action_members(m: CorporateActionsView) -> Seq<(Seq<char>, JsonView)> {
    Seq::empty()
        .push(("RecordID"@, JsonView::Text(m.record_id)))
        .push(("DailyListTimestamp"@, JsonView::Text(m.daily_list_timestamp)))
        .push(("EffectiveDate"@, JsonView::Text(date_text(m.effective_date))))
        .push(("IssueEvent"@, JsonView::Text(m.issue_event)))
        .push(
            ("CurrentSymbolinINETSymbology"@, JsonView::Text(m.current_symbol_in_inets_symbology)),
        )
        .push(("CurrentSymbolinCQSSymbology"@, JsonView::Text(m.current_symbol_in_cqss_symbology)))
        .push(("CurrentSymbolinCMSSymbology"@, JsonView::Text(m.current_symbol_in_cmss_symbology)))
        .push(("NewSymbolinINETSymbology"@, JsonView::Text(m.new_symbol_in_inets_symbology)))
        .push(("NewSymbolinCQSSymbology"@, JsonView::Text(m.new_symbol_in_cqss_symbology)))
        .push(("NewSymbolinCMSSymbology"@, JsonView::Text(m.new_symbol_in_cmss_symbology)))
        .push(("CurrentSecurityName"@, JsonView::Text(m.current_security_name)))
        .push(("NewSecurityName"@, JsonView::Text(m.new_security_name)))
        .push(("CurrentCompanyName"@, JsonView::Text(m.current_company_name)))
        .push(("NewCompanyName"@, JsonView::Text(m.new_company_name)))
        .push(("CurrentListingCenter"@, JsonView::Text(m.current_listing_center)))
        .push(("NewRoundLotSize"@, JsonView::Text(decimal_text(m.new_round_lot_size as nat))))
        .push(
            (
                "CurrentLULDTierIndicator"@,
                JsonView::Text(decimal_text(m.current_luld_tier_indicator as nat)),
            ),
        )
        .push(
            (
                "NewLULDTierIndicator"@,
                JsonView::Text(decimal_text(m.new_luld_tier_indicator as nat)),
            ),
        )
        .push(("ExpirationDate"@, JsonView::Text(decimal_text(m.expiration_date as nat))))
        .push(("SeparationDate"@, JsonView::Text(decimal_text(m.separation_date as nat))))
        .push(("SettlementDate"@, JsonView::Text(decimal_text(m.settlement_date as nat))))
        .push(("MaturityDate"@, JsonView::Text(decimal_text(m.maturity_date as nat))))
        .push(("RedemptionDate"@, JsonView::Text(decimal_text(m.redemption_date as nat))))
        .push(("CurrentFinancialStatus"@, JsonView::Text(m.current_financial_status)))
        .push(("NewFinancialStatus"@, JsonView::Text(m.new_financial_status)))
        .push(("WhenIssuedFlag"@, JsonView::Text(flag_text(m.when_issued_flag))))
        .push(("WhenDistributedFlag"@, JsonView::Text(flag_text(m.when_distributed_flag))))
        .push(("IPOFlag"@, JsonView::Text(flag_text(m.ipo_flag))))
        .push(("NotesforEachEntry"@, JsonView::Text(m.notes_for_each_entry)))
        .push(("RecordUpdateTime"@, JsonView::Text(m.record_update_time)))
}

/// The wire form of a corporate action: numbers go out as strings
/// of digits, flags as the letters `Y` and `N`.
pub open spec fn corporate_action_encoded(m: CorporateActionsView) -> JsonView {
    JsonView::Object(corporate_action_members(m))
}

/// Each name of the wire form finds the value that was written under it.
proof fn lemma_corporate_action_members(m: CorporateActionsView)
    ensures
        find_member(corporate_action_members(m), "RecordID"@) == Some(JsonView::Text(m.record_id)),
        find_member(corporate_action_members(m), "DailyListTimestamp"@) == Some(
            JsonView::Text(m.daily_list_timestamp),
        ),
        find_member(corporate_action_members(m), "EffectiveDate"@) == Some(
            JsonView::Text(date_text(m.effective_date)),
        ),
        find_member(corporate_action_members(m), "IssueEvent"@) == Some(
            JsonView::Text(m.issue_event),
        ),
        find_member(corporate_action_members(m), "CurrentSymbolinINETSymbology"@) == Some(
            JsonView::Text(m.current_symbol_in_inets_symbology),
        ),
        find_member(corporate_action_members(m), "CurrentSymbolinCQSSymbology"@) == Some(
            JsonView::Text(m.current_symbol_in_cqss_symbology),
        ),
        find_member(corporate_action_members(m), "CurrentSymbolinCMSSymbology"@) == Some(
            JsonView::Text(m.current_symbol_in_cmss_symbology),
        ),
        find_member(corporate_action_members(m), "NewSymbolinINETSymbology"@) == Some(
            JsonView::Text(m.new_symbol_in_inets_symbology),
        ),
        find_member(corporate_action_members(m), "NewSymbolinCQSSymbology"@) == Some(
            JsonView::Text(m.new_symbol_in_cqss_symbology),
        ),
        find_member(corporate_action_members(m), "NewSymbolinCMSSymbology"@) == Some(
            JsonView::Text(m.new_symbol_in_cmss_symbology),
        ),
        find_member(corporate_action_members(m), "CurrentSecurityName"@) == Some(
            JsonView::Text(m.current_security_name),
        ),
        find_member(corporate_action_members(m), "NewSecurityName"@) == Some(
            JsonView::Text(m.new_security_name),
        ),
        find_member(corporate_action_members(m), "CurrentCompanyName"@) == Some(
            JsonView::Text(m.current_company_name),
        ),
        find_member(corporate_action_members(m), "NewCompanyName"@) == Some(
            JsonView::Text(m.new_company_name),
        ),
        find_member(corporate_action_members(m), "CurrentListingCenter"@) == Some(
            JsonView::Text(m.current_listing_center),
        ),
        find_member(corporate_action_members(m), "NewRoundLotSize"@) == Some(
            JsonView::Text(decimal_text(m.new_round_lot_size as nat)),
        ),
        find_member(corporate_action_members(m), "CurrentLULDTierIndicator"@) == Some(
            JsonView::Text(decimal_text(m.current_luld_tier_indicator as nat)),
        ),
        find_member(corporate_action_members(m), "NewLULDTierIndicator"@) == Some(
            JsonView::Text(decimal_text(m.new_luld_tier_indicator as nat)),
        ),
        find_member(corporate_action_members(m), "ExpirationDate"@) == Some(
            JsonView::Text(decimal_text(m.expiration_date as nat)),
        ),
        find_member(corporate_action_members(m), "SeparationDate"@) == Some(
            JsonView::Text(decimal_text(m.separation_date as nat)),
        ),
        find_member(corporate_action_members(m), "SettlementDate"@) == Some(
            JsonView::Text(decimal_text(m.settlement_date as nat)),
        ),
        find_member(corporate_action_members(m), "MaturityDate"@) == Some(
            JsonView::Text(decimal_text(m.maturity_date as nat)),
        ),
        find_member(corporate_action_members(m), "RedemptionDate"@) == Some(
            JsonView::Text(decimal_text(m.redemption_date as nat)),
        ),
        find_member(corporate_action_members(m), "CurrentFinancialStatus"@) == Some(
            JsonView::Text(m.current_financial_status),
        ),
        find_member(corporate_action_members(m), "NewFinancialStatus"@) == Some(
            JsonView::Text(m.new_financial_status),
        ),
        find_member(corporate_action_members(m), "WhenIssuedFlag"@) == Some(
            JsonView::Text(flag_text(m.when_issued_flag)),
        ),
        find_member(corporate_action_members(m), "WhenDistributedFlag"@) == Some(
            JsonView::Text(flag_text(m.when_distributed_flag)),
        ),
        find_member(corporate_action_members(m), "IPOFlag"@) == Some(
            JsonView::Text(flag_text(m.ipo_flag)),
        ),
        find_member(corporate_action_members(m), "NotesforEachEntry"@) == Some(
            JsonView::Text(m.notes_for_each_entry),
        ),
        find_member(corporate_action_members(m), "RecordUpdateTime"@) == Some(
            JsonView::Text(m.record_update_time),
        ),
{
    let s0 = Seq::<(Seq<char>, JsonView)>::empty();
    lemma_find_member_push(s0, "RecordID"@, JsonView::Text(m.record_id));
    let s1 = s0.push(("RecordID"@, JsonView::Text(m.record_id)));
    lemma_find_member_push(s1, "DailyListTimestamp"@, JsonView::Text(m.daily_list_timestamp));
    let s2 = s1.push(("DailyListTimestamp"@, JsonView::Text(m.daily_list_timestamp)));
    lemma_find_member_push(s2, "EffectiveDate"@, JsonView::Text(date_text(m.effective_date)));
    let s3 = s2.push(("EffectiveDate"@, JsonView::Text(date_text(m.effective_date))));
    lemma_find_member_push(s3, "IssueEvent"@, JsonView::Text(m.issue_event));
    let s4 = s3.push(("IssueEvent"@, JsonView::Text(m.issue_event)));
    lemma_find_member_push(
        s4, "CurrentSymbolinINETSymbology"@, JsonView::Text(m.current_symbol_in_inets_symbology),
    );
    let s5 = s4.push(
        ("CurrentSymbolinINETSymbology"@, JsonView::Text(m.current_symbol_in_inets_symbology)),
    );
    lemma_find_member_push(
        s5, "CurrentSymbolinCQSSymbology"@, JsonView::Text(m.current_symbol_in_cqss_symbology),
    );
    let s6 = s5.push(
        ("CurrentSymbolinCQSSymbology"@, JsonView::Text(m.current_symbol_in_cqss_symbology)),
    );
    lemma_find_member_push(
        s6, "CurrentSymbolinCMSSymbology"@, JsonView::Text(m.current_symbol_in_cmss_symbology),
    );
    let s7 = s6.push(
        ("CurrentSymbolinCMSSymbology"@, JsonView::Text(m.current_symbol_in_cmss_symbology)),
    );
    lemma_find_member_push(
        s7, "NewSymbolinINETSymbology"@, JsonView::Text(m.new_symbol_in_inets_symbology),
    );
    let s8 = s7.push(
        ("NewSymbolinINETSymbology"@, JsonView::Text(m.new_symbol_in_inets_symbology)),
    );
    lemma_find_member_push(
        s8, "NewSymbolinCQSSymbology"@, JsonView::Text(m.new_symbol_in_cqss_symbology),
    );
    let s9 = s8.push(("NewSymbolinCQSSymbology"@, JsonView::Text(m.new_symbol_in_cqss_symbology)));
    lemma_find_member_push(
        s9, "NewSymbolinCMSSymbology"@, JsonView::Text(m.new_symbol_in_cmss_symbology),
    );
    let s10 = s9.push(("NewSymbolinCMSSymbology"@, JsonView::Text(m.new_symbol_in_cmss_symbology)));
    lemma_find_member_push(s10, "CurrentSecurityName"@, JsonView::Text(m.current_security_name));
    let s11 = s10.push(("CurrentSecurityName"@, JsonView::Text(m.current_security_name)));
    lemma_find_member_push(s11, "NewSecurityName"@, JsonView::Text(m.new_security_name));
    let s12 = s11.push(("NewSecurityName"@, JsonView::Text(m.new_security_name)));
    lemma_find_member_push(s12, "CurrentCompanyName"@, JsonView::Text(m.current_company_name));
    let s13 = s12.push(("CurrentCompanyName"@, JsonView::Text(m.current_company_name)));
    lemma_find_member_push(s13, "NewCompanyName"@, JsonView::Text(m.new_company_name));
    let s14 = s13.push(("NewCompanyName"@, JsonView::Text(m.new_company_name)));
    lemma_find_member_push(s14, "CurrentListingCenter"@, JsonView::Text(m.current_listing_center));
    let s15 = s14.push(("CurrentListingCenter"@, JsonView::Text(m.current_listing_center)));
    lemma_find_member_push(
        s15, "NewRoundLotSize"@, JsonView::Text(decimal_text(m.new_round_lot_size as nat)),
    );
    let s16 = s15.push(
        ("NewRoundLotSize"@, JsonView::Text(decimal_text(m.new_round_lot_size as nat))),
    );
    lemma_find_member_push(
        s16,
        "CurrentLULDTierIndicator"@,
        JsonView::Text(decimal_text(m.current_luld_tier_indicator as nat)),
    );
    let s17 = s16.push(
        (
            "CurrentLULDTierIndicator"@,
            JsonView::Text(decimal_text(m.current_luld_tier_indicator as nat)),
        ),
    );
    lemma_find_member_push(
        s17,
        "NewLULDTierIndicator"@,
        JsonView::Text(decimal_text(m.new_luld_tier_indicator as nat)),
    );
    let s18 = s17.push(
        ("NewLULDTierIndicator"@, JsonView::Text(decimal_text(m.new_luld_tier_indicator as nat))),
    );
    lemma_find_member_push(
        s18, "ExpirationDate"@, JsonView::Text(decimal_text(m.expiration_date as nat)),
    );
    let s19 = s18.push(("ExpirationDate"@, JsonView::Text(decimal_text(m.expiration_date as nat))));
    lemma_find_member_push(
        s19, "SeparationDate"@, JsonView::Text(decimal_text(m.separation_date as nat)),
    );
    let s20 = s19.push(("SeparationDate"@, JsonView::Text(decimal_text(m.separation_date as nat))));
    lemma_find_member_push(
        s20, "SettlementDate"@, JsonView::Text(decimal_text(m.settlement_date as nat)),
    );
    let s21 = s20.push(("SettlementDate"@, JsonView::Text(decimal_text(m.settlement_date as nat))));
    lemma_find_member_push(
        s21, "MaturityDate"@, JsonView::Text(decimal_text(m.maturity_date as nat)),
    );
    let s22 = s21.push(("MaturityDate"@, JsonView::Text(decimal_text(m.maturity_date as nat))));
    lemma_find_member_push(
        s22, "RedemptionDate"@, JsonView::Text(decimal_text(m.redemption_date as nat)),
    );
    let s23 = s22.push(("RedemptionDate"@, JsonView::Text(decimal_text(m.redemption_date as nat))));
    lemma_find_member_push(
        s23, "CurrentFinancialStatus"@, JsonView::Text(m.current_financial_status),
    );
    let s24 = s23.push(("CurrentFinancialStatus"@, JsonView::Text(m.current_financial_status)));
    lemma_find_member_push(s24, "NewFinancialStatus"@, JsonView::Text(m.new_financial_status));
    let s25 = s24.push(("NewFinancialStatus"@, JsonView::Text(m.new_financial_status)));
    lemma_find_member_push(s25, "WhenIssuedFlag"@, JsonView::Text(flag_text(m.when_issued_flag)));
    let s26 = s25.push(("WhenIssuedFlag"@, JsonView::Text(flag_text(m.when_issued_flag))));
    lemma_find_member_push(
        s26, "WhenDistributedFlag"@, JsonView::Text(flag_text(m.when_distributed_flag)),
    );
    let s27 = s26.push(
        ("WhenDistributedFlag"@, JsonView::Text(flag_text(m.when_distributed_flag))),
    );
    lemma_find_member_push(s27, "IPOFlag"@, JsonView::Text(flag_text(m.ipo_flag)));
    let s28 = s27.push(("IPOFlag"@, JsonView::Text(flag_text(m.ipo_flag))));
    lemma_find_member_push(s28, "NotesforEachEntry"@, JsonView::Text(m.notes_for_each_entry));
    let s29 = s28.push(("NotesforEachEntry"@, JsonView::Text(m.notes_for_each_entry)));
    lemma_find_member_push(s29, "RecordUpdateTime"@, JsonView::Text(m.record_update_time));
    let s30 = s29.push(("RecordUpdateTime"@, JsonView::Text(m.record_update_time)));
    reveal_strlit("RecordID");
    reveal_strlit("DailyListTimestamp");
    reveal_strlit("EffectiveDate");
    reveal_strlit("IssueEvent");
    reveal_strlit("CurrentSymbolinINETSymbology");
    reveal_strlit("CurrentSymbolinCQSSymbology");
    reveal_strlit("CurrentSymbolinCMSSymbology");
    reveal_strlit("NewSymbolinINETSymbology");
    reveal_strlit("NewSymbolinCQSSymbology");
    reveal_strlit("NewSymbolinCMSSymbology");
    reveal_strlit("CurrentSecurityName");
    reveal_strlit("NewSecurityName");
    reveal_strlit("CurrentCompanyName");
    reveal_strlit("NewCompanyName");
    reveal_strlit("CurrentListingCenter");
    reveal_strlit("NewRoundLotSize");
    reveal_strlit("CurrentLULDTierIndicator");
    reveal_strlit("NewLULDTierIndicator");
    reveal_strlit("ExpirationDate");
    reveal_strlit("SeparationDate");
    reveal_strlit("SettlementDate");
    reveal_strlit("MaturityDate");
    reveal_strlit("RedemptionDate");
    reveal_strlit("CurrentFinancialStatus");
    reveal_strlit("NewFinancialStatus");
    reveal_strlit("WhenIssuedFlag");
    reveal_strlit("WhenDistributedFlag");
    reveal_strlit("IPOFlag");
    reveal_strlit("NotesforEachEntry");
    reveal_strlit("RecordUpdateTime");
    assert("RecordID"@.len() == 8);
    assert("DailyListTimestamp"@.len() == 18);
    assert("EffectiveDate"@.len() == 13);
    assert("IssueEvent"@.len() == 10);
    assert("CurrentSymbolinINETSymbology"@.len() == 28);
    assert("CurrentSymbolinCQSSymbology"@.len() == 27);
    assert("CurrentSymbolinCMSSymbology"@.len() == 27);
    assert("NewSymbolinINETSymbology"@.len() == 24);
    assert("NewSymbolinCQSSymbology"@.len() == 23);
    assert("NewSymbolinCMSSymbology"@.len() == 23);
    assert("CurrentSecurityName"@.len() == 19);
    assert("NewSecurityName"@.len() == 15);
    assert("CurrentCompanyName"@.len() == 18);
    assert("NewCompanyName"@.len() == 14);
    assert("CurrentListingCenter"@.len() == 20);
    assert("NewRoundLotSize"@.len() == 15);
    assert("CurrentLULDTierIndicator"@.len() == 24);
    assert("NewLULDTierIndicator"@.len() == 20);
    assert("ExpirationDate"@.len() == 14);
    assert("SeparationDate"@.len() == 14);
    assert("SettlementDate"@.len() == 14);
    assert("MaturityDate"@.len() == 12);
    assert("RedemptionDate"@.len() == 14);
    assert("CurrentFinancialStatus"@.len() == 22);
    assert("NewFinancialStatus"@.len() == 18);
    assert("WhenIssuedFlag"@.len() == 14);
    assert("WhenDistributedFlag"@.len() == 19);
    assert("IPOFlag"@.len() == 7);
    assert("NotesforEachEntry"@.len() == 17);
    assert("RecordUpdateTime"@.len() == 16);
    assert("DailyListTimestamp"@[0] != "CurrentCompanyName"@[0]);
    assert("DailyListTimestamp"@[0] != "NewFinancialStatus"@[0]);
    assert("CurrentSymbolinCQSSymbology"@[16] != "CurrentSymbolinCMSSymbology"@[16]);
    assert("NewSymbolinINETSymbology"@[0] != "CurrentLULDTierIndicator"@[0]);
    assert("NewSymbolinCQSSymbology"@[12] != "NewSymbolinCMSSymbology"@[12]);
    assert("CurrentSecurityName"@[0] != "WhenDistributedFlag"@[0]);
    assert("NewSecurityName"@[3] != "NewRoundLotSize"@[3]);
    assert("CurrentCompanyName"@[0] != "NewFinancialStatus"@[0]);
    assert("NewCompanyName"@[0] != "ExpirationDate"@[0]);
    assert("NewCompanyName"@[0] != "SeparationDate"@[0]);
    assert("NewCompanyName"@[0] != "SettlementDate"@[0]);
    assert("NewCompanyName"@[0] != "RedemptionDate"@[0]);
    assert("NewCompanyName"@[0] != "WhenIssuedFlag"@[0]);
    assert("CurrentListingCenter"@[0] != "NewLULDTierIndicator"@[0]);
    assert("ExpirationDate"@[0] != "SeparationDate"@[0]);
    assert("ExpirationDate"@[0] != "SettlementDate"@[0]);
    assert("ExpirationDate"@[0] != "RedemptionDate"@[0]);
    assert("ExpirationDate"@[0] != "WhenIssuedFlag"@[0]);
    assert("SeparationDate"@[2] != "SettlementDate"@[2]);
    assert("SeparationDate"@[0] != "RedemptionDate"@[0]);
    assert("SeparationDate"@[0] != "WhenIssuedFlag"@[0]);
    assert("SettlementDate"@[0] != "RedemptionDate"@[0]);
    assert("SettlementDate"@[0] != "WhenIssuedFlag"@[0]);
    assert("RedemptionDate"@[0] != "WhenIssuedFlag"@[0]);
}

/// Encoding a corporate action and decoding the result gives the record back, wherever
/// each date as written is read back as the same date.
pub proof fn lemma_corporate_action_round_trip(m: CorporateActionsView)
    requires
        iso_date(date_text(m.effective_date)) == Some(m.effective_date),
    ensures
        corporate_action_decoded(corporate_action_encoded(m)) == Ok::<
            CorporateActionsView,
            ErrorView,
        >(m),
{
    lemma_corporate_action_members(m);
    let doc = corporate_action_encoded(m);
    lemma_number_round_trip(m.new_round_lot_size);
    lemma_number_round_trip(m.current_luld_tier_indicator);
    lemma_number_round_trip(m.new_luld_tier_indicator);
    lemma_number_round_trip(m.expiration_date);
    lemma_number_round_trip(m.separation_date);
    lemma_number_round_trip(m.settlement_date);
    lemma_number_round_trip(m.maturity_date);
    lemma_number_round_trip(m.redemption_date);
    lemma_flag_round_trip(m.when_issued_flag);
    lemma_flag_round_trip(m.when_distributed_flag);
    lemma_flag_round_trip(m.ipo_flag);
    assert(text_field(doc, "RecordID"@) == Ok::<Seq<char>, ErrorView>(m.record_id));
    assert(text_field(doc, "DailyListTimestamp"@) == Ok::<Seq<char>, ErrorView>(
        m.daily_list_timestamp,
    ));
    assert(date_field(doc, "EffectiveDate"@) == Ok::<Ymd, ErrorView>(m.effective_date));
    assert(text_field(doc, "IssueEvent"@) == Ok::<Seq<char>, ErrorView>(m.issue_event));
    assert(text_field(doc, "CurrentSymbolinINETSymbology"@) == Ok::<Seq<char>, ErrorView>(
        m.current_symbol_in_inets_symbology,
    ));
    assert(text_field(doc, "CurrentSymbolinCQSSymbology"@) == Ok::<Seq<char>, ErrorView>(
        m.current_symbol_in_cqss_symbology,
    ));
    assert(text_field(doc, "CurrentSymbolinCMSSymbology"@) == Ok::<Seq<char>, ErrorView>(
        m.current_symbol_in_cmss_symbology,
    ));
    assert(text_field(doc, "NewSymbolinINETSymbology"@) == Ok::<Seq<char>, ErrorView>(
        m.new_symbol_in_inets_symbology,
    ));
    assert(text_field(doc, "NewSymbolinCQSSymbology"@) == Ok::<Seq<char>, ErrorView>(
        m.new_symbol_in_cqss_symbology,
    ));
    assert(text_field(doc, "NewSymbolinCMSSymbology"@) == Ok::<Seq<char>, ErrorView>(
        m.new_symbol_in_cmss_symbology,
    ));
    assert(text_field(doc, "CurrentSecurityName"@) == Ok::<Seq<char>, ErrorView>(
        m.current_security_name,
    ));
    assert(text_field(doc, "NewSecurityName"@) == Ok::<Seq<char>, ErrorView>(m.new_security_name));
    assert(text_field(doc, "CurrentCompanyName"@) == Ok::<Seq<char>, ErrorView>(
        m.current_company_name,
    ));
    assert(text_field(doc, "NewCompanyName"@) == Ok::<Seq<char>, ErrorView>(m.new_company_name));
    assert(text_field(doc, "CurrentListingCenter"@) == Ok::<Seq<char>, ErrorView>(
        m.current_listing_center,
    ));
    assert(number_text_field(doc, "NewRoundLotSize"@) == Ok::<u64, ErrorView>(
        m.new_round_lot_size,
    ));
    assert(number_text_field(doc, "CurrentLULDTierIndicator"@) == Ok::<u64, ErrorView>(
        m.current_luld_tier_indicator,
    ));
    assert(number_text_field(doc, "NewLULDTierIndicator"@) == Ok::<u64, ErrorView>(
        m.new_luld_tier_indicator,
    ));
    assert(number_text_field(doc, "ExpirationDate"@) == Ok::<u64, ErrorView>(m.expiration_date));
    assert(number_text_field(doc, "SeparationDate"@) == Ok::<u64, ErrorView>(m.separation_date));
    assert(number_text_field(doc, "SettlementDate"@) == Ok::<u64, ErrorView>(m.settlement_date));
    assert(number_text_field(doc, "MaturityDate"@) == Ok::<u64, ErrorView>(m.maturity_date));
    assert(number_text_field(doc, "RedemptionDate"@) == Ok::<u64, ErrorView>(m.redemption_date));
    assert(text_field(doc, "CurrentFinancialStatus"@) == Ok::<Seq<char>, ErrorView>(
        m.current_financial_status,
    ));
    assert(text_field(doc, "NewFinancialStatus"@) == Ok::<Seq<char>, ErrorView>(
        m.new_financial_status,
    ));
    assert(letter_field(doc, "WhenIssuedFlag"@) == Ok::<bool, ErrorView>(m.when_issued_flag));
    assert(letter_field(doc, "WhenDistributedFlag"@) == Ok::<bool, ErrorView>(
        m.when_distributed_flag,
    ));
    assert(letter_field(doc, "IPOFlag"@) == Ok::<bool, ErrorView>(m.ipo_flag));
    assert(text_field(doc, "NotesforEachEntry"@) == Ok::<Seq<char>, ErrorView>(
        m.notes_for_each_entry,
    ));
    assert(text_field(doc, "RecordUpdateTime"@) == Ok::<Seq<char>, ErrorView>(
        m.record_update_time,
    ));
}

impl Record for CorporateActionsData {
    type Model = CorporateActionsView;

    open spec fn model(&self) -> CorporateActionsView {
        self@
    }

    open spec fn decoded(doc: JsonView) -> Result<CorporateActionsView, ErrorView> {
        corporate_action_decoded(doc)
    }

    open spec fn encoded(model: CorporateActionsView) -> JsonView {
        corporate_action_encoded(model)
    }

    fn from_json(doc: &Json) -> (r: Result<CorporateActionsData, MyError>) {
        if !doc.is_object() {
            return Err(shape_error(doc));
        }
        let record_id = read_text(doc, "RecordID")?;
        let daily_list_timestamp = read_text(doc, "DailyListTimestamp")?;
        let effective_date = read_date(doc, "EffectiveDate")?;
        let issue_event = read_text(doc, "IssueEvent")?;
        let current_symbol_in_inets_symbology = read_text(doc, "CurrentSymbolinINETSymbology")?;
        let current_symbol_in_cqss_symbology = read_text(doc, "CurrentSymbolinCQSSymbology")?;
        let current_symbol_in_cmss_symbology = read_text(doc, "CurrentSymbolinCMSSymbology")?;
        let new_symbol_in_inets_symbology = read_text(doc, "NewSymbolinINETSymbology")?;
        let new_symbol_in_cqss_symbology = read_text(doc, "NewSymbolinCQSSymbology")?;
        let new_symbol_in_cmss_symbology = read_text(doc, "NewSymbolinCMSSymbology")?;
        let current_security_name = read_text(doc, "CurrentSecurityName")?;
        let new_security_name = read_text(doc, "NewSecurityName")?;
        let current_company_name = read_text(doc, "CurrentCompanyName")?;
        let new_company_name = read_text(doc, "NewCompanyName")?;
        let current_listing_center = read_text(doc, "CurrentListingCenter")?;
        let new_round_lot_size = read_number_text(doc, "NewRoundLotSize")?;
        let current_luld_tier_indicator = read_number_text(doc, "CurrentLULDTierIndicator")?;
        let new_luld_tier_indicator = read_number_text(doc, "NewLULDTierIndicator")?;
        let expiration_date = read_number_text(doc, "ExpirationDate")?;
        let separation_date = read_number_text(doc, "SeparationDate")?;
        let settlement_date = read_number_text(doc, "SettlementDate")?;
        let maturity_date = read_number_text(doc, "MaturityDate")?;
        let redemption_date = read_number_text(doc, "RedemptionDate")?;
        let current_financial_status = read_text(doc, "CurrentFinancialStatus")?;
        let new_financial_status = read_text(doc, "NewFinancialStatus")?;
        let when_issued_flag = read_letter(doc, "WhenIssuedFlag")?;
        let when_distributed_flag = read_letter(doc, "WhenDistributedFlag")?;
        let ipo_flag = read_letter(doc, "IPOFlag")?;
        let notes_for_each_entry = read_text(doc, "NotesforEachEntry")?;
        let record_update_time = read_text(doc, "RecordUpdateTime")?;
        Ok(
            CorporateActionsData {
                record_id,
                daily_list_timestamp,
                effective_date,
                issue_event,
                current_symbol_in_inets_symbology,
                current_symbol_in_cqss_symbology,
                current_symbol_in_cmss_symbology,
                new_symbol_in_inets_symbology,
                new_symbol_in_cqss_symbology,
                new_symbol_in_cmss_symbology,
                current_security_name,
                new_security_name,
                current_company_name,
                new_company_name,
                current_listing_center,
                new_round_lot_size,
                current_luld_tier_indicator,
                new_luld_tier_indicator,
                expiration_date,
                separation_date,
                settlement_date,
                maturity_date,
                redemption_date,
                current_financial_status,
                new_financial_status,
                when_issued_flag,
                when_distributed_flag,
                ipo_flag,
                notes_for_each_entry,
                record_update_time,
            },
        )
    }

    fn to_json(&self) -> (doc: Json) {
        let mut members: Vec<Member> = Vec::new();
        assert(member_views(members@) =~= Seq::empty());
        push_member(&mut members, "RecordID", Json::text(self.record_id.as_str()));
        push_member(
            &mut members, "DailyListTimestamp", Json::text(self.daily_list_timestamp.as_str()),
        );
        push_member(&mut members, "EffectiveDate", Json::Text(self.effective_date.to_text()));
        push_member(&mut members, "IssueEvent", Json::text(self.issue_event.as_str()));
        push_member(
            &mut members,
            "CurrentSymbolinINETSymbology",
            Json::text(self.current_symbol_in_inets_symbology.as_str()),
        );
        push_member(
            &mut members,
            "CurrentSymbolinCQSSymbology",
            Json::text(self.current_symbol_in_cqss_symbology.as_str()),
        );
        push_member(
            &mut members,
            "CurrentSymbolinCMSSymbology",
            Json::text(self.current_symbol_in_cmss_symbology.as_str()),
        );
        push_member(
            &mut members,
            "NewSymbolinINETSymbology",
            Json::text(self.new_symbol_in_inets_symbology.as_str()),
        );
        push_member(
            &mut members,
            "NewSymbolinCQSSymbology",
            Json::text(self.new_symbol_in_cqss_symbology.as_str()),
        );
        push_member(
            &mut members,
            "NewSymbolinCMSSymbology",
            Json::text(self.new_symbol_in_cmss_symbology.as_str()),
        );
        push_member(
            &mut members, "CurrentSecurityName", Json::text(self.current_security_name.as_str()),
        );
        push_member(&mut members, "NewSecurityName", Json::text(self.new_security_name.as_str()));
        push_member(
            &mut members, "CurrentCompanyName", Json::text(self.current_company_name.as_str()),
        );
        push_member(&mut members, "NewCompanyName", Json::text(self.new_company_name.as_str()));
        push_member(
            &mut members, "CurrentListingCenter", Json::text(self.current_listing_center.as_str()),
        );
        push_member(
            &mut members, "NewRoundLotSize", Json::Text(format_unsigned(self.new_round_lot_size)),
        );
        push_member(
            &mut members,
            "CurrentLULDTierIndicator",
            Json::Text(format_unsigned(self.current_luld_tier_indicator)),
        );
        push_member(
            &mut members,
            "NewLULDTierIndicator",
            Json::Text(format_unsigned(self.new_luld_tier_indicator)),
        );
        push_member(
            &mut members, "ExpirationDate", Json::Text(format_unsigned(self.expiration_date)),
        );
        push_member(
            &mut members, "SeparationDate", Json::Text(format_unsigned(self.separation_date)),
        );
        push_member(
            &mut members, "SettlementDate", Json::Text(format_unsigned(self.settlement_date)),
        );
        push_member(&mut members, "MaturityDate", Json::Text(format_unsigned(self.maturity_date)));
        push_member(
            &mut members, "RedemptionDate", Json::Text(format_unsigned(self.redemption_date)),
        );
        push_member(
            &mut members,
            "CurrentFinancialStatus",
            Json::text(self.current_financial_status.as_str()),
        );
        push_member(
            &mut members, "NewFinancialStatus", Json::text(self.new_financial_status.as_str()),
        );
        push_member(&mut members, "WhenIssuedFlag", Json::text(flag_letter(self.when_issued_flag)));
        push_member(
            &mut members,
            "WhenDistributedFlag",
            Json::text(flag_letter(self.when_distributed_flag)),
        );
        push_member(&mut members, "IPOFlag", Json::text(flag_letter(self.ipo_flag)));
        push_member(
            &mut members, "NotesforEachEntry", Json::text(self.notes_for_each_entry.as_str()),
        );
        push_member(&mut members, "RecordUpdateTime", Json::text(self.record_update_time.as_str()));
        proof {
            lemma_corporate_action_round_trip(self@);
        }
        Json::object(members)
    }
}

/// A list of symbols, as the service sends it.
pub type Symbols = Vec<SymbolData>;

/// A list of corporate actions, as the service sends it.
pub type CorporateActions = Vec<CorporateActionsData>;

/// The common issue type of a security, by the two-letter code the service
/// sends for it.
#[derive(Debug, Clone, Copy, PartialEq, Eq)]
pub enum CommonIssueType {
    /// `AD`
    ADR,
    /// `RE`
    REIT,
    /// `CE`
    ClosedEndFund,
    /// `SI`
    SecondaryIssue,
    /// `LP`
    LimitedPartnership,
    /// `CS`
    CommonStock,
    /// `ET`
    ETF,
    /// Not applicable.
    NA,
}

/// The handle for the reference-data products.
#[derive(Debug, Clone, Copy, PartialEq, Eq)]
pub struct ReferenceData;

impl ReferenceData {
    /// The symbols known without a request: none.
    pub fn symbols(&self) -> (r: Result<Symbols, MyError>)
        ensures
            r matches Ok(list) && list@.len() == 0,
    {
        Ok(Vec::new())
    }

    /// The corporate actions known without a request: none.
    pub fn corporate_actions(&self) -> (r: Result<CorporateActions, MyError>)
        ensures
            r matches Ok(list) && list@.len() == 0,
    {
        Ok(Vec::new())
    }

    /// Dividend declarations; succeeds with nothing.
    pub fn dividends(&self) -> (r: Result<(), MyError>)
        ensures
            r is Ok,
    {
        Ok(())
    }

    /// Next-day ex-dates; succeeds with nothing.
    pub fn next_day_ex_date(&self) -> (r: Result<(), MyError>)
        ensures
            r is Ok,
    {
        Ok(())
    }

    /// The directory of listed symbols; succeeds with nothing.
    pub fn listed_symbol_directory(&self) -> (r: Result<(), MyError>)
        ensures
            r is Ok,
    {
        Ok(())
    }
}

} // verus!
