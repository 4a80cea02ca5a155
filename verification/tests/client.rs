use iex::json::Json;
use iex::reference::SymbolData;
use iex::stocks::{Param, StocksEndpoint};
use iex::types::{Duration, ListParam};
use iex::{Client, MyError, Reply, Response, IEX_ENDPOINT, IEX_WEBSOCKET_ENDPOINT};

const SYMBOL: &str = "aapl";
const DURATION: Duration = Duration::OneDay;

fn url(symbol: &str, req: StocksEndpoint) -> String {
    Client::new().stocks_request(symbol, req)
}

#[test]
fn client_request_book() {
    assert_eq!(url(SYMBOL, StocksEndpoint::Book), "https://api.iextrading.com/1.0/stock/aapl/book");
}

#[test]
fn client_request_chart() {
    assert_eq!(
        url(SYMBOL, StocksEndpoint::Chart { duration: DURATION, params: None }),
        "https://api.iextrading.com/1.0/stock/aapl/chart/1d"
    );
}

#[test]
fn client_request_company() {
    assert_eq!(
        url(SYMBOL, StocksEndpoint::Company),
        "https://api.iextrading.com/1.0/stock/aapl/company"
    );
}

#[test]
fn client_request_delayed_quote() {
    assert_eq!(
        url(SYMBOL, StocksEndpoint::DelayedQuote),
        "https://api.iextrading.com/1.0/stock/aapl/delayed-quote"
    );
}

#[test]
fn client_request_dividends() {
    assert_eq!(
        url(SYMBOL, StocksEndpoint::Dividends { duration: DURATION }),
        "https://api.iextrading.com/1.0/stock/aapl/dividends/1d"
    );
}

#[test]
fn client_request_earnings() {
    assert_eq!(
        url(SYMBOL, StocksEndpoint::Earnings),
        "https://api.iextrading.com/1.0/stock/aapl/earnings"
    );
}

#[test]
fn client_request_effective_spread() {
    assert_eq!(
        url(SYMBOL, StocksEndpoint::EffectiveSpread),
        "https://api.iextrading.com/1.0/stock/aapl/effective-spread"
    );
}

#[test]
fn client_request_financials() {
    assert_eq!(
        url(SYMBOL, StocksEndpoint::Financials),
        "https://api.iextrading.com/1.0/stock/aapl/financials"
    );
}

#[test]
fn client_request_list() {
    assert_eq!(
        url("market", StocksEndpoint::List { param: ListParam::Gainers }),
        "https://api.iextrading.com/1.0/stock/market/list/gainers"
    );
}

#[test]
fn client_request_logo() {
    assert_eq!(url(SYMBOL, StocksEndpoint::Logo), "https://api.iextrading.com/1.0/stock/aapl/logo");
}

#[test]
fn client_request_news() {
    assert_eq!(
        url(SYMBOL, StocksEndpoint::News { range: None }),
        "https://api.iextrading.com/1.0/stock/aapl/news"
    );
}

#[test]
fn client_request_ohlc() {
    assert_eq!(url(SYMBOL, StocksEndpoint::Ohlc), "https://api.iextrading.com/1.0/stock/aapl/ohlc");
}

#[test]
fn client_request_peers() {
    assert_eq!(
        url(SYMBOL, StocksEndpoint::Peers),
        "https://api.iextrading.com/1.0/stock/aapl/peers"
    );
}

#[test]
fn client_request_previous() {
    assert_eq!(
        url(SYMBOL, StocksEndpoint::Previous),
        "https://api.iextrading.com/1.0/stock/aapl/previous"
    );
}

#[test]
fn client_request_price() {
    assert_eq!(
        url(SYMBOL, StocksEndpoint::Price),
        "https://api.iextrading.com/1.0/stock/aapl/price"
    );
}

#[test]
fn client_request_quote() {
    assert_eq!(
        url(SYMBOL, StocksEndpoint::Quote),
        "https://api.iextrading.com/1.0/stock/aapl/quote"
    );
}

#[test]
fn client_request_relevant() {
    assert_eq!(
        url(SYMBOL, StocksEndpoint::Relevant),
        "https://api.iextrading.com/1.0/stock/aapl/relevant"
    );
}

#[test]
fn client_request_splits() {
    assert_eq!(
        url(SYMBOL, StocksEndpoint::Splits { duration: DURATION }),
        "https://api.iextrading.com/1.0/stock/aapl/splits/1d"
    );
}

#[test]
fn client_request_stats() {
    assert_eq!(
        url(SYMBOL, StocksEndpoint::Stats),
        "https://api.iextrading.com/1.0/stock/aapl/stats"
    );
}

#[test]
fn client_request_threshold_securities() {
    assert_eq!(
        url("market", StocksEndpoint::ThresholdSecurities { date: None }),
        "https://api.iextrading.com/1.0/stock/market/threshold-securities"
    );
}

#[test]
fn client_request_volume_by_venue() {
    assert_eq!(
        url(SYMBOL, StocksEndpoint::VolumeByVenue),
        "https://api.iextrading.com/1.0/stock/aapl/volume-by-venue"
    );
}

#[test]
fn base_urls() {
    assert_eq!(IEX_ENDPOINT, "https://api.iextrading.com/1.0");
    assert_eq!(IEX_WEBSOCKET_ENDPOINT, "https://ws-api.iextrading.com/1.0");
    assert_eq!(Client::new().base, IEX_ENDPOINT);
    assert_eq!(
        Client::with_base("http://localhost:8080").stocks_request("fb", StocksEndpoint::Quote),
        "http://localhost:8080/stock/fb/quote"
    );
}

#[test]
fn query_follows_a_question_mark() {
    let params = vec![
        Param { name: "chartReset".to_string(), value: "true".to_string() },
        Param { name: "chartInterval".to_string(), value: "5".to_string() },
    ];
    assert_eq!(
        url(SYMBOL, StocksEndpoint::Chart { duration: Duration::OneMonth, params: Some(params) }),
        "https://api.iextrading.com/1.0/stock/aapl/chart/1m?chartReset=true&chartInterval=5"
    );
    assert_eq!(
        url(SYMBOL, StocksEndpoint::News { range: Some(5) }),
        "https://api.iextrading.com/1.0/stock/aapl/news?range=5"
    );
    assert_eq!(
        url(SYMBOL, StocksEndpoint::Chart { duration: Duration::OneMonth, params: Some(vec![]) }),
        "https://api.iextrading.com/1.0/stock/aapl/chart/1m"
    );
}

#[test]
fn same_request_same_url() {
    let first = url(SYMBOL, StocksEndpoint::News { range: Some(50) });
    let second = url(&String::from("aapl"), StocksEndpoint::News { range: Some(50) });
    assert_eq!(first, second);
}

#[test]
fn failed_status_is_a_transport_error() {
    let client = Client::new();
    let body = br#"{"symbol":"A"}"#.to_vec();
    assert_eq!(
        client.stocks_response(Reply::Answer { status: 404, body }),
        Err(MyError::Transport { status: Some(404) })
    );
    assert_eq!(
        client.stocks_response(Reply::Answer { status: 500, body: b"not json".to_vec() }),
        Err(MyError::Transport { status: Some(500) })
    );
    assert_eq!(
        client.stocks_response(Reply::Answer { status: 199, body: b"{}".to_vec() }),
        Err(MyError::Transport { status: Some(199) })
    );
    assert_eq!(
        client.stocks_response(Reply::Answer { status: 300, body: b"{}".to_vec() }),
        Err(MyError::Transport { status: Some(300) })
    );
}

#[test]
fn no_reply_is_a_transport_error() {
    assert_eq!(
        Client::new().stocks_response(Reply::Unreachable),
        Err(MyError::Transport { status: None })
    );
}

#[test]
fn success_gives_the_document() {
    let client = Client::new();
    let reply = Reply::Answer { status: 200, body: b"[1, true, null]".to_vec() };
    assert_eq!(
        client.stocks_response(reply),
        Ok(Response(Json::Array(vec![
            Json::Number("1".to_string()),
            Json::Bool(true),
            Json::Null
        ])))
    );
    let reply = Reply::Answer { status: 299, body: b"{}".to_vec() };
    assert_eq!(client.stocks_response(reply), Ok(Response(Json::Object(vec![]))));
}

#[test]
fn body_that_is_no_json_is_a_syntax_error() {
    let reply = Reply::Answer { status: 200, body: b"{\n  \"symbol\": }".to_vec() };
    assert_eq!(
        Client::new().stocks_response(reply),
        Err(MyError::JsonSyntax { line: 2, column: 13 })
    );
    assert_eq!(Response::from_bytes(b""), Err(MyError::JsonSyntax { line: 1, column: 0 }));
    assert_eq!(
        Response::from_parsed(Err((3, 4))),
        Err(MyError::JsonSyntax { line: 3, column: 4 })
    );
}

#[test]
fn envelope_converts_to_the_record_asked_for() {
    let body = br#"[{"symbol":"A","name":"Agilent Technologies Inc.","date":"2018-10-23","isEnabled":true,"type":"cs","iexId":"2"}]"#;
    let envelope = Response::from_bytes(body).unwrap();
    let symbols: Vec<SymbolData> = envelope.try_into().unwrap();
    assert_eq!(symbols.len(), 1);
    assert_eq!(symbols[0].symbol, "A");
    assert_eq!(symbols[0].iex_id, 2);

    let envelope = Response::from_bytes(body).unwrap();
    let one: Result<SymbolData, MyError> = envelope.try_into();
    assert_eq!(one, Err(MyError::Decode { field: String::new(), raw: String::new() }));
}
