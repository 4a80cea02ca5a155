use iex::stocks::{join_params, Endpoint, Param, StocksEndpoint};
use iex::types::{Duration, ListParam};

fn param(name: &str, value: &str) -> Param {
    Param { name: name.to_string(), value: value.to_string() }
}

#[test]
fn chart_for_one_day() {
    let chart = StocksEndpoint::Chart { duration: Duration::OneDay, params: None };
    assert_eq!(chart.encode("aapl"), ("/stock/aapl/chart/1d".to_string(), String::new()));
}

#[test]
fn encoding_twice_gives_the_same() {
    let news = StocksEndpoint::News { range: Some(7) };
    assert_eq!(news.encode("aapl"), news.encode("aapl"));
    assert_eq!(news.encode("aapl"), news.clone().encode(&"aapl".to_string()));
}

#[test]
fn symbol_is_taken_as_given() {
    assert_eq!(StocksEndpoint::Quote.encode("AIG+").0, "/stock/AIG+/quote");
    assert_eq!(StocksEndpoint::Quote.encode("").0, "/stock//quote");
}

#[test]
fn every_fixed_segment() {
    let all = [
        (StocksEndpoint::Book, "book"),
        (StocksEndpoint::Company, "company"),
        (StocksEndpoint::DelayedQuote, "delayed-quote"),
        (StocksEndpoint::Earnings, "earnings"),
        (StocksEndpoint::EffectiveSpread, "effective-spread"),
        (StocksEndpoint::Financials, "financials"),
        (StocksEndpoint::Logo, "logo"),
        (StocksEndpoint::News { range: None }, "news"),
        (StocksEndpoint::News { range: Some(3) }, "news"),
        (StocksEndpoint::Ohlc, "ohlc"),
        (StocksEndpoint::Peers, "peers"),
        (StocksEndpoint::Previous, "previous"),
        (StocksEndpoint::Price, "price"),
        (StocksEndpoint::Quote, "quote"),
        (StocksEndpoint::Relevant, "relevant"),
        (StocksEndpoint::Stats, "stats"),
        (StocksEndpoint::ThresholdSecurities { date: None }, "threshold-securities"),
        (StocksEndpoint::VolumeByVenue, "volume-by-venue"),
    ];
    for (endpoint, expected) in all {
        assert_eq!(endpoint.segment(), expected);
        assert_eq!(endpoint.to_endpoint(), expected);
    }
}

#[test]
fn every_duration_token() {
    let all = [
        (Duration::FiveYears, "5y"),
        (Duration::TwoYears, "2y"),
        (Duration::OneYear, "1y"),
        (Duration::YearToDate, "ytd"),
        (Duration::SixMonths, "6m"),
        (Duration::ThreeMonths, "3m"),
        (Duration::OneMonth, "1m"),
        (Duration::OneDay, "1d"),
    ];
    for (duration, token) in all {
        assert_eq!(duration.as_str(), token);
        assert_eq!(
            StocksEndpoint::Chart { duration, params: None }.segment(),
            format!("chart/{}", token)
        );
        assert_eq!(StocksEndpoint::Dividends { duration }.segment(), format!("dividends/{}", token));
        assert_eq!(StocksEndpoint::Splits { duration }.segment(), format!("splits/{}", token));
    }
}

#[test]
fn every_list_token() {
    let all = [
        (ListParam::MostActive, "mostactive"),
        (ListParam::Gainers, "gainers"),
        (ListParam::Losers, "losers"),
        (ListParam::IexVolume, "iexvolume"),
        (ListParam::IexPercent, "iexpercent"),
        (ListParam::InFocus, "infocus"),
    ];
    for (param, token) in all {
        assert_eq!(param.as_str(), token);
        assert_eq!(
            StocksEndpoint::List { param }.encode("market"),
            (format!("/stock/market/list/{}", token), String::new())
        );
    }
}

#[test]
fn date_goes_into_the_path() {
    let dated = StocksEndpoint::ThresholdSecurities { date: Some("20171210".to_string()) };
    assert_eq!(
        dated.encode("market"),
        ("/stock/market/threshold-securities/20171210".to_string(), String::new())
    );
    let sample = StocksEndpoint::ThresholdSecurities { date: Some("sample".to_string()) };
    assert_eq!(sample.to_endpoint(), "threshold-securities/sample");
}

#[test]
fn parameters_go_into_the_query() {
    let chart = StocksEndpoint::Chart {
        duration: Duration::SixMonths,
        params: Some(vec![param("chartSimplify", "true")]),
    };
    assert_eq!(
        chart.encode("fb"),
        ("/stock/fb/chart/6m".to_string(), "chartSimplify=true".to_string())
    );
    assert_eq!(chart.query(), "chartSimplify=true");

    let three = vec![param("a", "1"), param("b", ""), param("filter", "open,close")];
    assert_eq!(join_params(&three), "a=1&b=&filter=open,close");
    assert_eq!(join_params(&vec![]), "");
}

#[test]
fn unset_parameters_leave_the_query_empty() {
    assert_eq!(StocksEndpoint::Chart { duration: Duration::OneDay, params: None }.query(), "");
    assert_eq!(
        StocksEndpoint::Chart { duration: Duration::OneDay, params: Some(vec![]) }.query(),
        ""
    );
    assert_eq!(StocksEndpoint::News { range: None }.query(), "");
    assert_eq!(StocksEndpoint::Book.query(), "");
    assert_eq!(
        StocksEndpoint::ThresholdSecurities { date: Some("20171210".to_string()) }.query(),
        ""
    );
}

#[test]
fn news_range_goes_into_the_query() {
    assert_eq!(
        StocksEndpoint::News { range: Some(50) }.encode("aapl"),
        ("/stock/aapl/news".to_string(), "range=50".to_string())
    );
    assert_eq!(StocksEndpoint::News { range: Some(0) }.query(), "range=0");
    assert_eq!(
        StocksEndpoint::News { range: Some(u64::MAX) }.query(),
        "range=18446744073709551615"
    );
}
