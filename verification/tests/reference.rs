use iex::date::Date;
use iex::json::{Json, Member};
use iex::record::Record;
use iex::reference::{CommonIssueType, CorporateActionsData, ReferenceData, SymbolData};
use iex::{MyError, Response};

fn decode<T: Record>(text: &str) -> Result<T, MyError> {
    Response::from_bytes(text.as_bytes())?.try_into()
}

fn decode_error(field: &str, raw: &str) -> MyError {
    MyError::Decode { field: field.to_string(), raw: raw.to_string() }
}

const CORPORATE_ACTION: &str = r#"{
    "RecordID": " CA20171108153808144",
    "DailyListTimestamp": "2017-11-08T17:00:00",
    "EffectiveDate": "2017-11-10",
    "IssueEvent": "AA",
    "CurrentSymbolinINETSymbology": "ZEXIT-",
    "CurrentSymbolinCQSSymbology": "ZEXITp",
    "CurrentSymbolinCMSSymbology": "ZEXIT PR",
    "NewSymbolinINETSymbology": "",
    "NewSymbolinCQSSymbology": "",
    "NewSymbolinCMSSymbology": "",
    "CurrentSecurityName": "ZEXIT Preffered Stock",
    "NewSecurityName": "",
    "CurrentCompanyName": "ZEXIT Test Company",
    "NewCompanyName": "",
    "CurrentListingCenter": "",
    "NewListingCenter": "V",
    "DelistingReason": "",
    "CurrentRoundLotSize": "100",
    "NewRoundLotSize": "",
    "CurrentLULDTierIndicator": "0",
    "NewLULDTierIndicator": "",
    "ExpirationDate": "0",
    "SeparationDate": "0",
    "SettlementDate": "0",
    "MaturityDate": "0",
    "RedemptionDate": "0",
    "CurrentFinancialStatus": "0",
    "NewFinancialStatus": "",
    "WhenIssuedFlag": "N",
    "WhenDistributedFlag": "N",
    "IPOFlag": "N",
    "NotesforEachEntry": "New preferred ZIEXT security",
    "RecordUpdateTime": "2017-11-08T16:34:43"
}"#;

#[test]
fn symbol_date_deserialization() {
    let json_data = r#"{
            "symbol":"A",
            "name":"Agilent Technologies Inc.",
            "date":"2018-10-23",
            "isEnabled":true,
            "type":"cs",
            "iexId":"2"
        }"#;

    let s: SymbolData = decode(json_data).unwrap();
    assert_eq!(s.date, Date::from_ymd(2018, 10, 23).unwrap());
    assert_eq!(s.iex_id, 2);
}

#[test]
fn symbol_empty_iex_id_deserialization() {
    let json_data = r#"{
            "symbol":"A",
            "name":"Agilent Technologies Inc.",
            "date":"2018-10-23",
            "isEnabled":true,
            "type":"cs",
            "iexId":""
        }"#;

    let s: SymbolData = decode(json_data).unwrap();
    assert_eq!(s.iex_id, 0);
}

#[test]
fn corporate_actions_deserialization() {
    let ca: CorporateActionsData = decode(CORPORATE_ACTION).unwrap();
    assert_eq!(ca.ipo_flag, false);
    assert_eq!(ca.effective_date, Date::from_ymd(2017, 11, 10).unwrap());
}

#[test]
fn symbol_listing_on_one_line() {
    let s: SymbolData = decode(
        r#"{"symbol":"A","name":"Agilent Technologies Inc.","date":"2018-10-23","isEnabled":true,"type":"cs","iexId":""}"#,
    )
    .unwrap();
    assert_eq!(
        s,
        SymbolData {
            symbol: "A".to_string(),
            name: "Agilent Technologies Inc.".to_string(),
            date: Date::from_ymd(2018, 10, 23).unwrap(),
            is_enabled: true,
            issue_type: "cs".to_string(),
            iex_id: 0,
        }
    );
}

#[test]
fn symbol_without_an_identifier_has_zero() {
    let s: SymbolData = decode(
        r#"{"symbol":"A","name":"Agilent","date":"2018-10-23","isEnabled":false,"type":"cs"}"#,
    )
    .unwrap();
    assert_eq!(s.iex_id, 0);
    assert!(!s.is_enabled);
}

#[test]
fn symbol_identifier_that_is_no_number() {
    let r: Result<SymbolData, MyError> = decode(
        r#"{"symbol":"A","name":"Agilent","date":"2018-10-23","isEnabled":true,"type":"cs","iexId":"abc"}"#,
    );
    assert_eq!(r, Err(decode_error("iexId", "abc")));
}

#[test]
fn symbol_identifier_sent_as_a_number() {
    let r: Result<SymbolData, MyError> = decode(
        r#"{"symbol":"A","name":"Agilent","date":"2018-10-23","isEnabled":true,"type":"cs","iexId":2}"#,
    );
    assert_eq!(r, Err(decode_error("iexId", "2")));
}

#[test]
fn symbol_with_a_missing_field() {
    let r: Result<SymbolData, MyError> =
        decode(r#"{"symbol":"A","date":"2018-10-23","isEnabled":true,"type":"cs","iexId":"2"}"#);
    assert_eq!(r, Err(decode_error("name", "")));
}

#[test]
fn symbol_reports_the_first_field_that_fails() {
    let r: Result<SymbolData, MyError> = decode(
        r#"{"iexId":"x","type":7,"isEnabled":"yes","date":"tomorrow","name":"Agilent","symbol":"A"}"#,
    );
    assert_eq!(r, Err(decode_error("date", "tomorrow")));
    let r: Result<SymbolData, MyError> = decode(
        r#"{"iexId":"x","type":7,"isEnabled":"yes","date":"2018-10-23","name":"Agilent","symbol":"A"}"#,
    );
    assert_eq!(r, Err(decode_error("isEnabled", "yes")));
    let r: Result<SymbolData, MyError> = decode(
        r#"{"iexId":"x","type":null,"isEnabled":true,"date":"2018-10-23","name":"Agilent","symbol":"A"}"#,
    );
    assert_eq!(r, Err(decode_error("type", "null")));
}

#[test]
fn symbol_with_a_date_off_the_calendar() {
    let r: Result<SymbolData, MyError> = decode(
        r#"{"symbol":"A","name":"Agilent","date":"2018-02-30","isEnabled":true,"type":"cs","iexId":""}"#,
    );
    assert_eq!(r, Err(decode_error("date", "2018-02-30")));
}

#[test]
fn record_from_what_is_no_object() {
    let r: Result<SymbolData, MyError> = decode("[]");
    assert_eq!(r, Err(decode_error("", "")));
    let r: Result<SymbolData, MyError> = decode("17");
    assert_eq!(r, Err(decode_error("", "17")));
    let r: Result<CorporateActionsData, MyError> = decode(r#""RecordID""#);
    assert_eq!(r, Err(decode_error("", "RecordID")));
    let r: Result<Vec<SymbolData>, MyError> = decode("{}");
    assert_eq!(r, Err(decode_error("", "")));
    let r: Result<Vec<SymbolData>, MyError> = decode("true");
    assert_eq!(r, Err(decode_error("", "true")));
}

#[test]
fn symbol_round_trip() {
    let s = SymbolData {
        symbol: "ZIEXT".to_string(),
        name: "Test Company".to_string(),
        date: Date::from_ymd(2020, 2, 29).unwrap(),
        is_enabled: false,
        issue_type: "et".to_string(),
        iex_id: u64::MAX,
    };
    let wire = s.to_json();
    assert_eq!(
        wire,
        Json::Object(vec![
            Member { name: "symbol".to_string(), value: Json::Text("ZIEXT".to_string()) },
            Member { name: "name".to_string(), value: Json::Text("Test Company".to_string()) },
            Member { name: "date".to_string(), value: Json::Text("2020-02-29".to_string()) },
            Member { name: "isEnabled".to_string(), value: Json::Bool(false) },
            Member { name: "type".to_string(), value: Json::Text("et".to_string()) },
            Member {
                name: "iexId".to_string(),
                value: Json::Text("18446744073709551615".to_string())
            },
        ])
    );
    assert_eq!(SymbolData::from_json(&wire), Ok(s));
}

#[test]
fn symbol_list_round_trip() {
    let list: Vec<SymbolData> = decode(
        r#"[
            {"symbol":"A","name":"Agilent Technologies Inc.","date":"2018-10-23","isEnabled":true,"type":"cs","iexId":"2"},
            {"symbol":"AA","name":"Alcoa Corp.","date":"2018-10-23","isEnabled":true,"type":"cs","iexId":""}
        ]"#,
    )
    .unwrap();
    assert_eq!(list.len(), 2);
    assert_eq!(list[1].symbol, "AA");
    let wire = list.to_json();
    let back: Vec<SymbolData> = Record::from_json(&wire).unwrap();
    assert_eq!(back, list);
    let none: Vec<SymbolData> = decode("[]").unwrap();
    assert!(none.is_empty());
}

#[test]
fn symbol_list_stops_at_the_first_bad_item() {
    let r: Result<Vec<SymbolData>, MyError> = decode(
        r#"[
            {"symbol":"A","name":"Agilent","date":"2018-10-23","isEnabled":true,"type":"cs","iexId":"2"},
            {"symbol":"AA","name":"Alcoa","date":"2018-10-23","isEnabled":true,"type":"cs","iexId":"1x"},
            {"symbol":3}
        ]"#,
    );
    assert_eq!(r, Err(decode_error("iexId", "1x")));
}

#[test]
fn corporate_action_fields() {
    let ca: CorporateActionsData = decode(CORPORATE_ACTION).unwrap();
    assert_eq!(ca.record_id, " CA20171108153808144");
    assert_eq!(ca.daily_list_timestamp, "2017-11-08T17:00:00");
    assert_eq!(ca.issue_event, "AA");
    assert_eq!(ca.current_symbol_in_inets_symbology, "ZEXIT-");
    assert_eq!(ca.current_symbol_in_cqss_symbology, "ZEXITp");
    assert_eq!(ca.current_symbol_in_cmss_symbology, "ZEXIT PR");
    assert_eq!(ca.new_symbol_in_inets_symbology, "");
    assert_eq!(ca.current_security_name, "ZEXIT Preffered Stock");
    assert_eq!(ca.current_company_name, "ZEXIT Test Company");
    assert_eq!(ca.new_round_lot_size, 0);
    assert_eq!(ca.current_luld_tier_indicator, 0);
    assert_eq!(ca.new_luld_tier_indicator, 0);
    assert_eq!(ca.expiration_date, 0);
    assert_eq!(ca.redemption_date, 0);
    assert_eq!(ca.current_financial_status, "0");
    assert_eq!(ca.new_financial_status, "");
    assert!(!ca.when_issued_flag);
    assert!(!ca.when_distributed_flag);
    assert_eq!(ca.notes_for_each_entry, "New preferred ZIEXT security");
    assert_eq!(ca.record_update_time, "2017-11-08T16:34:43");
}

#[test]
fn corporate_action_flags_and_numbers() {
    let text = CORPORATE_ACTION
        .replace(r#""IPOFlag": "N""#, r#""IPOFlag": "Y""#)
        .replace(r#""WhenIssuedFlag": "N""#, r#""WhenIssuedFlag": "F""#)
        .replace(r#""WhenDistributedFlag": "N""#, r#""WhenDistributedFlag": """#)
        .replace(r#""NewRoundLotSize": """#, r#""NewRoundLotSize": "100""#)
        .replace(r#""MaturityDate": "0""#, r#""MaturityDate": "20301231""#);
    let ca: CorporateActionsData = decode(&text).unwrap();
    assert!(ca.ipo_flag);
    assert!(!ca.when_issued_flag);
    assert!(!ca.when_distributed_flag);
    assert_eq!(ca.new_round_lot_size, 100);
    assert_eq!(ca.maturity_date, 20301231);
}

#[test]
fn corporate_action_defaults_and_failures() {
    let without = CORPORATE_ACTION.replace(r#""SettlementDate": "0","#, "");
    let ca: CorporateActionsData = decode(&without).unwrap();
    assert_eq!(ca.settlement_date, 0);

    let no_flag = CORPORATE_ACTION
        .replace(r#""IPOFlag": "N""#, r#""IPOFlag": "Y""#)
        .replace(r#""IPOFlag": "Y","#, "");
    let ca: CorporateActionsData = decode(&no_flag).unwrap();
    assert!(!ca.ipo_flag);

    let no_text = CORPORATE_ACTION.replace(r#""IssueEvent": "AA","#, "");
    let r: Result<CorporateActionsData, MyError> = decode(&no_text);
    assert_eq!(r, Err(decode_error("IssueEvent", "")));

    let no_date = CORPORATE_ACTION.replace(r#""EffectiveDate": "2017-11-10","#, "");
    let r: Result<CorporateActionsData, MyError> = decode(&no_date);
    assert_eq!(r, Err(decode_error("EffectiveDate", "")));

    let bad = CORPORATE_ACTION.replace(r#""SeparationDate": "0""#, r#""SeparationDate": "soon""#);
    let r: Result<CorporateActionsData, MyError> = decode(&bad);
    assert_eq!(r, Err(decode_error("SeparationDate", "soon")));

    let flag = CORPORATE_ACTION.replace(r#""IPOFlag": "N""#, r#""IPOFlag": false"#);
    let r: Result<CorporateActionsData, MyError> = decode(&flag);
    assert_eq!(r, Err(decode_error("IPOFlag", "false")));
}

#[test]
fn corporate_action_round_trip() {
    let text = CORPORATE_ACTION
        .replace(r#""IPOFlag": "N""#, r#""IPOFlag": "T""#)
        .replace(r#""ExpirationDate": "0""#, r#""ExpirationDate": "+7""#);
    let ca: CorporateActionsData = decode(&text).unwrap();
    assert!(ca.ipo_flag);
    assert_eq!(ca.expiration_date, 7);
    let wire = ca.to_json();
    assert_eq!(wire.member("IPOFlag"), Some(&Json::Text("Y".to_string())));
    assert_eq!(wire.member("WhenIssuedFlag"), Some(&Json::Text("N".to_string())));
    assert_eq!(wire.member("ExpirationDate"), Some(&Json::Text("7".to_string())));
    assert_eq!(wire.member("NewRoundLotSize"), Some(&Json::Text("0".to_string())));
    assert_eq!(wire.member("EffectiveDate"), Some(&Json::Text("2017-11-10".to_string())));
    assert_eq!(wire.member("NewListingCenter"), None);
    assert_eq!(CorporateActionsData::from_json(&wire), Ok(ca));
}

#[test]
fn handles_without_a_request() {
    let reference = ReferenceData;
    assert_eq!(reference.symbols(), Ok(vec![]));
    assert_eq!(reference.corporate_actions(), Ok(vec![]));
    assert_eq!(reference.dividends(), Ok(()));
    assert_eq!(reference.next_day_ex_date(), Ok(()));
    assert_eq!(reference.listed_symbol_directory(), Ok(()));
    assert_ne!(CommonIssueType::CommonStock, CommonIssueType::ETF);
}
