//! The stock endpoints: one descriptor per data product, and the encoder
//! that turns a descriptor and a symbol into a path and a query string.

use crate::decimal::{decimal_text, format_unsigned};
use crate::types::{Duration, ListParam};
use vstd::prelude::*;
use vstd::string::StringExecFns;

verus! {

/// One query parameter, sent as `name=value`.
#[derive(Debug, Clone, PartialEq, Eq)]
pub struct Param {
    pub name: String,
    pub value: String,
}

/// A request for one data product of a stock, with the parameters that the
/// product takes.
#[derive(Debug, Clone, PartialEq, Eq)]
pub enum StocksEndpoint {
    Book,
    /// Historical prices over `duration`; `params` go out as query parameters.
    Chart { duration: Duration, params: Option<Vec<Param>> },
    Company,
    DelayedQuote,
    Dividends { duration: Duration },
    Earnings,
    EffectiveSpread,
    Financials,
    /// A ranked list; asked of the symbol `market`.
    List { param: ListParam },
    Logo,
    /// News items; `range` is how many to return.
    News { range: Option<u64> },
    Ohlc,
    Peers,
    Previous,
    Price,
    Quote,
    Relevant,
    Splits { duration: Duration },
    Stats,
    /// Threshold securities, of `date` (`YYYYMMDD`) where one is given.
    ThresholdSecurities { date: Option<String> },
    VolumeByVenue,
}

/// The mathematical value of a [`StocksEndpoint`].
pub enum EndpointView {
    Book,
    Chart { duration: Duration, params: Option<Seq<(Seq<char>, Seq<char>)>> },
    Company,
    DelayedQuote,
    Dividends { duration: Duration },
    Earnings,
    EffectiveSpread,
    Financials,
    List { param: ListParam },
    Logo,
    News { range: Option<u64> },
    Ohlc,
    Peers,
    Previous,
    Price,
    Quote,
    Relevant,
    Splits { duration: Duration },
    Stats,
    ThresholdSecurities { date: Option<Seq<char>> },
    VolumeByVenue,
}

/// The names and values of a list of parameters.
pub open spec fn param_views(params: Seq<Param>) -> Seq<(Seq<char>, Seq<char>)> {
    Seq::new(params.len(), |i: int| (params[i].name@, params[i].value@))
}

impl View for StocksEndpoint {
    type V = EndpointView;

    open spec fn view(&self) -> EndpointView {
        match *self {
            StocksEndpoint::Book => EndpointView::Book,
            StocksEndpoint::Chart { duration, params } => EndpointView::Chart {
                duration,
                params: match params {
                    Some(list) => Some(param_views(list@)),
                    None => None,
                },
            },
            StocksEndpoint::Company => EndpointView::Company,
            StocksEndpoint::DelayedQuote => EndpointView::DelayedQuote,
            StocksEndpoint::Dividends { duration } => EndpointView::Dividends { duration },
            StocksEndpoint::Earnings => EndpointView::Earnings,
            StocksEndpoint::EffectiveSpread => EndpointView::EffectiveSpread,
            StocksEndpoint::Financials => EndpointView::Financials,
            StocksEndpoint::List { param } => EndpointView::List { param },
            StocksEndpoint::Logo => EndpointView::Logo,
            StocksEndpoint::News { range } => EndpointView::News { range },
            StocksEndpoint::Ohlc => EndpointView::Ohlc,
            StocksEndpoint::Peers => EndpointView::Peers,
            StocksEndpoint::Previous => EndpointView::Previous,
            StocksEndpoint::Price => EndpointView::Price,
            StocksEndpoint::Quote => EndpointView::Quote,
            StocksEndpoint::Relevant => EndpointView::Relevant,
            StocksEndpoint::Splits { duration } => EndpointView::Splits { duration },
            StocksEndpoint::Stats => EndpointView::Stats,
            StocksEndpoint::ThresholdSecurities { date } => EndpointView::ThresholdSecurities {
                date: match date {
                    Some(text) => Some(text@),
                    None => None,
                },
            },
            StocksEndpoint::VolumeByVenue => EndpointView::VolumeByVenue,
        }
    }
}

/// The part of the path that names the product: a fixed token, followed
/// where the product takes one by `/` and the window, ranking or date.
pub open spec fn segment(e: EndpointView) -> Seq<char> {
    match e {
        EndpointView::Book => "book"@,
        EndpointView::Chart { duration, params } => "chart/"@ + duration.token(),
        EndpointView::Company => "company"@,
        EndpointView::DelayedQuote => "delayed-quote"@,
        EndpointView::Dividends { duration } => "dividends/"@ + duration.token(),
        EndpointView::Earnings => "earnings"@,
        EndpointView::EffectiveSpread => "effective-spread"@,
        EndpointView::Financials => "financials"@,
        EndpointView::List { param } => "list/"@ + param.token(),
        EndpointView::Logo => "logo"@,
        EndpointView::News { range } => "news"@,
        EndpointView::Ohlc => "ohlc"@,
        EndpointView::Peers => "peers"@,
        EndpointView::Previous => "previous"@,
        EndpointView::Price => "price"@,
        EndpointView::Quote => "quote"@,
        EndpointView::Relevant => "relevant"@,
        EndpointView::Splits { duration } => "splits/"@ + duration.token(),
        EndpointView::Stats => "stats"@,
        EndpointView::ThresholdSecurities { date } => match date {
            Some(text) => "threshold-securities/"@ + text,
            None => "threshold-securities"@,
        },
        EndpointView::VolumeByVenue => "volume-by-venue"@,
    }
}

/// Parameters written as `name=value`, joined by `&`.
pub open spec fn joined(params: Seq<(Seq<char>, Seq<char>)>) -> Seq<char>
    decreases params.len(),
{
    if params.len() == 0 {
        Seq::empty()
    } else if params.len() == 1 {
        params[0].0 + "="@ + params[0].1
    } else {
        joined(params.drop_last()) + "&"@ + params.last().0 + "="@ + params.last().1
    }
}

/// The query string of a request; empty where no parameter is set.
pub open spec fn query(e: EndpointView) -> Seq<char> {
    match e {
        EndpointView::Chart { duration, params: Some(list) } => joined(list),
        EndpointView::News { range: Some(n) } => "range="@ + decimal_text(n as nat),
        _ => Seq::empty(),
    }
}

/// The path of a request: `/stock/`, the symbol as given, `/`, the segment.
pub open spec fn path(e: EndpointView, symbol: Seq<char>) -> Seq<char> {
    "/stock/"@ + symbol + "/"@ + segment(e)
}

/// A request as the encoder writes it: the path and the query string.
pub open spec fn encoded_request(e: EndpointView, symbol: Seq<char>) -> (Seq<char>, Seq<char>) {
    (path(e, symbol), query(e))
}

/// Encoding depends on nothing but the descriptor's value and the symbol's
/// characters: equal descriptors with equal symbols encode alike.
pub proof fn lemma_encode_deterministic(a: StocksEndpoint, b: StocksEndpoint, s: &str, t: &str)
    requires
        a@ == b@,
        s@ == t@,
    ensures
        encoded_request(a@, s@) == encoded_request(b@, t@),
{
}

/// Something that names a product of the service.
pub trait Endpoint {
    /// The path segment of the product.
    spec fn endpoint(&self) -> Seq<char>;

    /// Writes the path segment of the product.
    fn to_endpoint(self) -> (r: String)
        ensures
            r@ == self.endpoint(),
    ;
}

/// Writes parameters as `name=value`, joined by `&`.
pub fn join_params(params: &Vec<Param>) -> (r: String)
    ensures
        r@ == joined(param_views(params@)),
{
    let mut out = String::new();
    let mut i: usize = 0;
    let ghost all = param_views(params@);
    proof {
        assert(all.take(0) =~= Seq::<(Seq<char>, Seq<char>)>::empty());
    }
    while i < params.len()
        invariant
            0 <= i <= params.len(),
            all == param_views(params@),
            out@ == joined(all.take(i as int)),
        decreases params.len() - i,
    {
        proof {
            assert(all.take(i as int + 1).drop_last() =~= all.take(i as int));
            assert(all.take(i as int + 1).last() == all[i as int]);
            if i == 0 {
                assert(all.take(1)[0] == all[0]);
            }
        }
        if i > 0 {
            out.append("&");
        }
        out.append(params[i].name.as_str());
        out.append("=");
        out.append(params[i].value.as_str());
        proof {
            assert(out@ =~= joined(all.take(i as int + 1)));
        }
        i = i + 1;
    }
    proof {
        assert(all.take(i as int) =~= all);
    }
    out
}

impl StocksEndpoint {
    /// Writes the path segment of the product.
    pub fn segment(&self) -> (r: String)
        ensures
            r@ == segment(self@),
    {
        match self {
            StocksEndpoint::Book => String::from_str("book"),
            StocksEndpoint::Chart { duration, params } => String::from_str("chart/").concat(
                duration.as_str(),
            ),
            StocksEndpoint::Company => String::from_str("company"),
            StocksEndpoint::DelayedQuote => String::from_str("delayed-quote"),
            StocksEndpoint::Dividends { duration } => String::from_str("dividends/").concat(
                duration.as_str(),
            ),
            StocksEndpoint::Earnings => String::from_str("earnings"),
            StocksEndpoint::EffectiveSpread => String::from_str("effective-spread"),
            StocksEndpoint::Financials => String::from_str("financials"),
            StocksEndpoint::List { param } => String::from_str("list/").concat(param.as_str()),
            StocksEndpoint::Logo => String::from_str("logo"),
            StocksEndpoint::News { range } => String::from_str("news"),
            StocksEndpoint::Ohlc => String::from_str("ohlc"),
            StocksEndpoint::Peers => String::from_str("peers"),
            StocksEndpoint::Previous => String::from_str("previous"),
            StocksEndpoint::Price => String::from_str("price"),
            StocksEndpoint::Quote => String::from_str("quote"),
            StocksEndpoint::Relevant => String::from_str("relevant"),
            StocksEndpoint::Splits { duration } => String::from_str("splits/").concat(
                duration.as_str(),
            ),
            StocksEndpoint::Stats => String::from_str("stats"),
            StocksEndpoint::ThresholdSecurities { date } => match date {
                Some(text) => String::from_str("threshold-securities/").concat(text.as_str()),
                None => String::from_str("threshold-securities"),
            },
            StocksEndpoint::VolumeByVenue => String::from_str("volume-by-venue"),
        }
    }

    /// Writes the query string of the request; empty where no parameter is
    /// set.
    pub fn query(&self) -> (r: String)
        ensures
            r@ == query(self@),
    {
        match self {
            StocksEndpoint::Chart { duration, params: Some(list) } => join_params(list),
            StocksEndpoint::News { range: Some(n) } => {
                let digits = format_unsigned(*n);
                String::from_str("range=").concat(digits.as_str())
            },
            _ => String::new(),
        }
    }

    /// Encodes the request for `symbol` as a path and a query string. The
    /// symbol is taken as it is given.
    pub fn encode(&self, symbol: &str) -> (r: (String, String))
        ensures
            (r.0@, r.1@) == encoded_request(self@, symbol@),
    {
        let tail = self.segment();
        let mut path = String::from_str("/stock/");
        path.append(symbol);
        path.append("/");
        path.append(tail.as_str());
        (path, self.query())
    }
}

impl Endpoint for StocksEndpoint {
    open spec fn endpoint(&self) -> Seq<char> {
        segment(self@)
    }

    fn to_endpoint(self) -> (r: String) {
        self.segment()
    }
}

} // verus!
