use iex::json::{Json, Member};
use iex::market_data::{AuctionData, AuctionEntry, Auctions, MarketData as Feeds};
use iex::markets::{MarketData, Markets};
use iex::record::Record;
use iex::{MyError, Response};

fn decode<T: Record>(text: &str) -> Result<T, MyError> {
    Response::from_bytes(text.as_bytes())?.try_into()
}

fn auction(kind: &str, paired: u64) -> AuctionData {
    AuctionData {
        auction_type: kind.to_string(),
        paired_shares: paired,
        imbalance_shares: 0,
        imbalance_side: "None".to_string(),
        reference_price: 1,
        indicative_price: 1,
        auction_book_price: 1,
        collar_reference_price: 1,
        lower_collar_price: "0.5".to_string(),
        upper_collar_price: "1.5".to_string(),
        extension_number: 0,
        start_time: 1540324800000,
        timestamp: 1540324799126,
    }
}

#[test]
fn deserialize_auction_hash() {
    let json_data = r#"{
            "ZIEXT": {
                "auctionType":"Close",
                "pairedShares":2000,
                "imbalanceShares":0,
                "imbalanceSide":"None",
                "referencePrice":1,
                "indicativePrice":1,
                "auctionBookPrice":1,
                "collarReferencePrice":1,
                "lowerCollarPrice":0.5,
                "upperCollarPrice":1.5,
                "extensionNumber":0,
                "startTime":1540324800000,
                "timestamp":1540324799126
            }
        }"#;

    let m: Auctions = decode(json_data).unwrap();
    let ad = m.get("ZIEXT").unwrap();
    assert_eq!(ad.auction_type, "Close");
    assert_eq!(ad, &auction("Close", 2000));
    assert_eq!(ad.lower_collar_price.parse::<f64>(), Ok(0.5));
    assert_eq!(ad.upper_collar_price.parse::<f64>(), Ok(1.5));
    assert_eq!(m.len(), 1);
    assert_eq!(m.get("ZIEX"), None);
    assert_eq!(m.get("ziext"), None);
}

#[test]
fn auctions_round_trip() {
    let all = Auctions::new()
        .insert("ZIEXT".to_string(), auction("Close", 2000))
        .insert("ZEXIT".to_string(), auction("Open", u64::MAX));
    assert_eq!(all.len(), 2);
    let wire = all.to_json();
    assert_eq!(
        wire.member("ZEXIT").and_then(|a| a.member("pairedShares")),
        Some(&Json::Number("18446744073709551615".to_string()))
    );
    assert_eq!(
        wire.member("ZIEXT").and_then(|a| a.member("lowerCollarPrice")),
        Some(&Json::Number("0.5".to_string()))
    );
    assert_eq!(Auctions::from_json(&wire), Ok(all));
    let none: Auctions = decode("{}").unwrap();
    assert_eq!(none.len(), 0);
    assert_eq!(none.to_json(), Json::Object(vec![]));
}

#[test]
fn later_entry_stands() {
    let all = Auctions::new()
        .insert("ZIEXT".to_string(), auction("Open", 1))
        .insert("ZEXIT".to_string(), auction("Open", 3))
        .insert("ZIEXT".to_string(), auction("Close", 2));
    assert_eq!(all.len(), 2);
    assert_eq!(all.get("ZIEXT").unwrap().paired_shares, 2);
    assert_eq!(all.get("ZEXIT").unwrap().paired_shares, 3);
    assert_eq!(
        all.entry(0),
        Some(&AuctionEntry { symbol: "ZIEXT".to_string(), data: auction("Close", 2) })
    );
    assert_eq!(all.entry(1).map(|e| e.symbol.as_str()), Some("ZEXIT"));
    assert_eq!(all.entry(2), None);

    let twice = Json::Object(vec![
        Member { name: "ZIEXT".to_string(), value: auction("Open", 1).to_json() },
        Member { name: "ZIEXT".to_string(), value: auction("Close", 2).to_json() },
    ]);
    let decoded = Auctions::from_json(&twice).unwrap();
    assert_eq!(decoded.len(), 1);
    assert_eq!(decoded.get("ZIEXT"), Some(&auction("Close", 2)));
}

#[test]
fn auction_numbers_must_be_whole_and_in_range() {
    let wire = auction("Close", 2000).to_json();
    let with = |name: &str, value: Json| -> Result<AuctionData, MyError> {
        let mut members = match auction("Close", 2000).to_json() {
            Json::Object(members) => members,
            _ => unreachable!(),
        };
        members.push(Member { name: name.to_string(), value });
        AuctionData::from_json(&Json::Object(members))
    };
    assert_eq!(AuctionData::from_json(&wire), Ok(auction("Close", 2000)));
    assert_eq!(
        with("pairedShares", Json::Number("2000.5".to_string())),
        Err(MyError::Decode { field: "pairedShares".to_string(), raw: "2000.5".to_string() })
    );
    assert_eq!(
        with("timestamp", Json::Number("-1".to_string())),
        Err(MyError::Decode { field: "timestamp".to_string(), raw: "-1".to_string() })
    );
    assert_eq!(
        with("startTime", Json::Text("1540324800000".to_string())),
        Err(MyError::Decode { field: "startTime".to_string(), raw: "1540324800000".to_string() })
    );
    assert_eq!(
        with("upperCollarPrice", Json::Text("1.5".to_string())),
        Err(MyError::Decode { field: "upperCollarPrice".to_string(), raw: "1.5".to_string() })
    );
    assert_eq!(with("upperCollarPrice", Json::Number("2".to_string())).unwrap().upper_collar_price, "2");

    let r: Result<Auctions, MyError> =
        decode(r#"{"ZIEXT":{"auctionType":"Close","pairedShares":18446744073709551616}}"#);
    assert_eq!(
        r,
        Err(MyError::Decode {
            field: "pairedShares".to_string(),
            raw: "1.8446744073709552e+19".to_string()
        })
    );
    let r: Result<Auctions, MyError> = decode("[]");
    assert_eq!(r, Err(MyError::Decode { field: String::new(), raw: String::new() }));
}

#[test]
fn venue_volume() {
    let list: Vec<MarketData> = decode(
        r#"[
          {
            "mic": "TRF",
            "tapeId": "-",
            "venueName": "TRF Volume",
            "volume": 589171705,
            "tapeA": 305187928,
            "tapeB": 119650027,
            "tapeC": 164333750,
            "marketPercent": 0.37027,
            "lastUpdated": 1480433817317
          }
        ]"#,
    )
    .unwrap();
    let expected = MarketData {
        mic: "TRF".to_string(),
        tape_id: "-".to_string(),
        venue_name: "TRF Volume".to_string(),
        volume: 589171705,
        tape_a: 305187928,
        tape_b: 119650027,
        tape_c: 164333750,
        market_percent: "0.37027".to_string(),
        last_updated: 1480433817317,
    };
    assert_eq!(list, vec![expected]);
    assert_eq!(list[0].market_percent.parse::<f64>(), Ok(0.37027));
    let wire = list.to_json();
    let back: Vec<MarketData> = Record::from_json(&wire).unwrap();
    assert_eq!(back, list);
}

#[test]
fn venue_volume_failures() {
    let r: Result<MarketData, MyError> = decode(r#"{"mic":"TRF","tapeId":"-","venueName":"TRF"}"#);
    assert_eq!(r, Err(MyError::Decode { field: "volume".to_string(), raw: String::new() }));
    let r: Result<MarketData, MyError> = decode(
        r#"{"mic":"TRF","tapeId":"-","venueName":"TRF","volume":1,"tapeA":1,"tapeB":1,"tapeC":1,"marketPercent":"0.3","lastUpdated":1}"#,
    );
    assert_eq!(r, Err(MyError::Decode { field: "marketPercent".to_string(), raw: "0.3".to_string() }));
}

#[test]
fn feeds_without_a_request() {
    let feeds = Feeds;
    assert_eq!(feeds.tops(), Ok(()));
    assert_eq!(feeds.last(), Ok(()));
    assert_eq!(feeds.hist(), Ok(()));
    assert_eq!(feeds.deep(), Ok(()));
    assert_eq!(feeds.book(), Ok(()));
    assert_eq!(feeds.trades(), Ok(()));
    assert_eq!(feeds.system_event(), Ok(()));
    assert_eq!(feeds.trading_status(), Ok(()));
    assert_eq!(feeds.operational_halt_status(), Ok(()));
    assert_eq!(feeds.short_sale_price_test_status(), Ok(()));
    assert_eq!(feeds.security_event(), Ok(()));
    assert_eq!(feeds.trade_break(), Ok(()));
    assert_eq!(feeds.auction(), Ok(()));
    assert_eq!(feeds.official_price(), Ok(()));
    assert_eq!(Markets.market(), Ok(vec![]));
}
