//! The closed sets of tokens that parameterise a request.

use vstd::prelude::*;

verus! {

/// A lookback window for charts, dividends and splits.
#[derive(Debug, Clone, Copy, PartialEq, Eq)]
pub enum Duration {
    FiveYears,
    TwoYears,
    OneYear,
    YearToDate,
    SixMonths,
    ThreeMonths,
    OneMonth,
    OneDay,
}

impl Duration {
    /// The token the service knows the window by.
    pub open spec fn token(self) -> Seq<char> {
        match self {
            Duration::FiveYears => "5y"@,
            Duration::TwoYears => "2y"@,
            Duration::OneYear => "1y"@,
            Duration::YearToDate => "ytd"@,
            Duration::SixMonths => "6m"@,
            Duration::ThreeMonths => "3m"@,
            Duration::OneMonth => "1m"@,
            Duration::OneDay => "1d"@,
        }
    }

    /// The token the service knows the window by.
    pub fn as_str(&self) -> (r: &'static str)
        ensures
            r@ == self.token(),
    {
        match self {
            Duration::FiveYears => "5y",
            Duration::TwoYears => "2y",
            Duration::OneYear => "1y",
            Duration::YearToDate => "ytd",
            Duration::SixMonths => "6m",
            Duration::ThreeMonths => "3m",
            Duration::OneMonth => "1m",
            Duration::OneDay => "1d",
        }
    }
}

/// A ranking that the list endpoint can be asked for.
#[derive(Debug, Clone, Copy, PartialEq, Eq)]
pub enum ListParam {
    MostActive,
    Gainers,
    Losers,
    IexVolume,
    IexPercent,
    InFocus,
}

impl ListParam {
    /// The token the service knows the ranking by.
    pub open spec fn token(self) -> Seq<char> {
        match self {
            ListParam::MostActive => "mostactive"@,
            ListParam::Gainers => "gainers"@,
            ListParam::Losers => "losers"@,
            ListParam::IexVolume => "iexvolume"@,
            ListParam::IexPercent => "iexpercent"@,
            ListParam::InFocus => "infocus"@,
        }
    }

    /// The token the service knows the ranking by.
    pub fn as_str(&self) -> (r: &'static str)
        ensures
            r@ == self.token(),
    {
        match self {
            ListParam::MostActive => "mostactive",
            ListParam::Gainers => "gainers",
            ListParam::Losers => "losers",
            ListParam::IexVolume => "iexvolume",
            ListParam::IexPercent => "iexpercent",
            ListParam::InFocus => "infocus",
        }
    }
}

} // verus!
