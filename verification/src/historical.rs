//! Parameters of the historical market data requests.

use vstd::prelude::*;
use vstd::string::StringExecFns;

use crate::fields::decimal_text;
use crate::fields::ToField;

verus! {

/// The length of one bar.
#[derive(Debug, Clone, Copy, PartialEq, Eq, Structural)]
pub enum BarSize {
    Sec,
    Sec5,
    Sec15,
    Sec30,
    Min,
    Min2,
    Min3,
    Min5,
    Min15,
    Min20,
    Min30,
    Hour,
    Hour2,
    Hour3,
    Hour4,
    Hour8,
    Day,
    Week,
    Month,
}

impl ToField for BarSize {
    open spec fn field_text(&self) -> Seq<char> {
        match self {
            BarSize::Sec => "1 secs"@,
            BarSize::Sec5 => "5 secs"@,
            BarSize::Sec15 => "15 secs"@,
            BarSize::Sec30 => "30 secs"@,
            BarSize::Min => "1 min"@,
            BarSize::Min2 => "2 mins"@,
            BarSize::Min3 => "3 mins"@,
            BarSize::Min5 => "5 mins"@,
            BarSize::Min15 => "15 mins"@,
            BarSize::Min20 => "20 mins"@,
            BarSize::Min30 => "30 mins"@,
            BarSize::Hour => "1 hour"@,
            BarSize::Hour2 => "2 hours"@,
            BarSize::Hour3 => "3 hours"@,
            BarSize::Hour4 => "4 hours"@,
            BarSize::Hour8 => "8 hours"@,
            BarSize::Day => "1 day"@,
            BarSize::Week => "1 week"@,
            BarSize::Month => "1 month"@,
        }
    }

    fn to_field(&self) -> (text: String) {
        match self {
            BarSize::Sec => String::from_str("1 secs"),
            BarSize::Sec5 => String::from_str("5 secs"),
            BarSize::Sec15 => String::from_str("15 secs"),
            BarSize::Sec30 => String::from_str("30 secs"),
            BarSize::Min => String::from_str("1 min"),
            BarSize::Min2 => String::from_str("2 mins"),
            BarSize::Min3 => String::from_str("3 mins"),
            BarSize::Min5 => String::from_str("5 mins"),
            BarSize::Min15 => String::from_str("15 mins"),
            BarSize::Min20 => String::from_str("20 mins"),
            BarSize::Min30 => String::from_str("30 mins"),
            BarSize::Hour => String::from_str("1 hour"),
            BarSize::Hour2 => String::from_str("2 hours"),
            BarSize::Hour3 => String::from_str("3 hours"),
            BarSize::Hour4 => String::from_str("4 hours"),
            BarSize::Hour8 => String::from_str("8 hours"),
            BarSize::Day => String::from_str("1 day"),
            BarSize::Week => String::from_str("1 week"),
            BarSize::Month => String::from_str("1 month"),
        }
    }
}

/// The unit of a duration.
#[derive(Debug, Clone, Copy, PartialEq, Eq, Structural)]
pub enum DurationUnit {
    Seconds,
    Days,
    Weeks,
    Months,
    Years,
}

impl DurationUnit {
    /// The letter that names the unit on the wire.
    pub open spec fn letter(self) -> Seq<char> {
        match self {
            DurationUnit::Seconds => "S"@,
            DurationUnit::Days => "D"@,
            DurationUnit::Weeks => "W"@,
            DurationUnit::Months => "M"@,
            DurationUnit::Years => "Y"@,
        }
    }

    /// The letter that names the unit on the wire.
    pub fn as_str(self) -> (letter: &'static str)
        ensures
            letter@ == self.letter(),
    {
        match self {
            DurationUnit::Seconds => "S",
            DurationUnit::Days => "D",
            DurationUnit::Weeks => "W",
            DurationUnit::Months => "M",
            DurationUnit::Years => "Y",
        }
    }
}

/// How far back a request reaches: a count of units.
#[derive(Debug, Clone, Copy, PartialEq, Eq, Structural)]
pub struct Duration {
    pub value: i32,
    pub unit: DurationUnit,
}

impl Duration {
    /// A duration of `value` seconds.
    pub fn seconds(value: i32) -> (duration: Duration)
        ensures
            duration == (Duration { value, unit: DurationUnit::Seconds }),
    {
        Duration { value, unit: DurationUnit::Seconds }
    }

    /// A duration of `value` days.
    pub fn days(value: i32) -> (duration: Duration)
        ensures
            duration == (Duration { value, unit: DurationUnit::Days }),
    {
        Duration { value, unit: DurationUnit::Days }
    }

    /// A duration of `value` weeks.
    pub fn weeks(value: i32) -> (duration: Duration)
        ensures
            duration == (Duration { value, unit: DurationUnit::Weeks }),
    {
        Duration { value, unit: DurationUnit::Weeks }
    }

    /// A duration of `value` months.
    pub fn months(value: i32) -> (duration: Duration)
        ensures
            duration == (Duration { value, unit: DurationUnit::Months }),
    {
        Duration { value, unit: DurationUnit::Months }
    }

    /// A duration of `value` years.
    pub fn years(value: i32) -> (duration: Duration)
        ensures
            duration == (Duration { value, unit: DurationUnit::Years }),
    {
        Duration { value, unit: DurationUnit::Years }
    }
}

impl ToField for Duration {
    open spec fn field_text(&self) -> Seq<char> {
        decimal_text(self.value as int) + seq![' '] + self.unit.letter()
    }

    fn to_field(&self) -> (text: String) {
        let mut text = self.value.to_field();
        proof {
            reveal_strlit(" ");
        }
        text.append(" ");
        text.append(self.unit.as_str());
        assert(text@ =~= self.field_text());
        text
    }
}

/// Shorthand for durations: `30.days()`.
pub trait ToDuration {
    fn seconds(&self) -> Duration;

    fn days(&self) -> Duration;

    fn weeks(&self) -> Duration;

    fn months(&self) -> Duration;

    fn years(&self) -> Duration;
}

impl ToDuration for i32 {
    fn seconds(&self) -> (duration: Duration)
        ensures
            duration == (Duration { value: *self, unit: DurationUnit::Seconds }),
    {
        Duration::seconds(*self)
    }

    fn days(&self) -> (duration: Duration)
        ensures
            duration == (Duration { value: *self, unit: DurationUnit::Days }),
    {
        Duration::days(*self)
    }

    fn weeks(&self) -> (duration: Duration)
        ensures
            duration == (Duration { value: *self, unit: DurationUnit::Weeks }),
    {
        Duration::weeks(*self)
    }

    fn months(&self) -> (duration: Duration)
        ensures
            duration == (Duration { value: *self, unit: DurationUnit::Months }),
    {
        Duration::months(*self)
    }

    fn years(&self) -> (duration: Duration)
        ensures
            duration == (Duration { value: *self, unit: DurationUnit::Years }),
    {
        Duration::years(*self)
    }
}

/// Which prices a request asks for.
#[derive(Debug, Clone, Copy, PartialEq, Eq, Structural)]
pub enum WhatToShow {
    Trades,
    MidPoint,
    Bid,
    Ask,
    BidAsk,
    HistoricalVolatility,
    OptionImpliedVolatility,
    FeeRate,
    Schedule,
    AdjustedLast,
}

impl ToField for WhatToShow {
    open spec fn field_text(&self) -> Seq<char> {
        match self {
            WhatToShow::Trades => "TRADES"@,
            WhatToShow::MidPoint => "MIDPOINT"@,
            WhatToShow::Bid => "BID"@,
            WhatToShow::Ask => "ASK"@,
            WhatToShow::BidAsk => "BID_ASK"@,
            WhatToShow::HistoricalVolatility => "HISTORICAL_VOLATILITY"@,
            WhatToShow::OptionImpliedVolatility => "OPTION_IMPLIED_VOLATILITY"@,
            WhatToShow::FeeRate => "FEE_RATE"@,
            WhatToShow::Schedule => "SCHEDULE"@,
            WhatToShow::AdjustedLast => "ADJUSTED_LAST"@,
        }
    }

    fn to_field(&self) -> (text: String) {
        match self {
            WhatToShow::Trades => String::from_str("TRADES"),
            WhatToShow::MidPoint => String::from_str("MIDPOINT"),
            WhatToShow::Bid => String::from_str("BID"),
            WhatToShow::Ask => String::from_str("ASK"),
            WhatToShow::BidAsk => String::from_str("BID_ASK"),
            WhatToShow::HistoricalVolatility => String::from_str("HISTORICAL_VOLATILITY"),
            WhatToShow::OptionImpliedVolatility => String::from_str("OPTION_IMPLIED_VOLATILITY"),
            WhatToShow::FeeRate => String::from_str("FEE_RATE"),
            WhatToShow::Schedule => String::from_str("SCHEDULE"),
            WhatToShow::AdjustedLast => String::from_str("ADJUSTED_LAST"),
        }
    }
}

} // verus!
