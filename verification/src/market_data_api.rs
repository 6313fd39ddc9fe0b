//! The requests of the Market Data endpoints (`MarketDataApi`).
use vstd::prelude::*;
use crate::query::{
    HttpMethod, QueryMap, QueryMapBuild, QueryParams, QueryValue, QueryValueView, RestRequest, RestRequestView, HAS_TIME_UNIT, opt_integer, opt_text, str_eq,
};

verus! {

/// The values of `BasisContractType` that the endpoint accepts.
#[derive(Debug, Clone, Copy, PartialEq, Eq, Structural)]
pub enum BasisContractTypeEnum {
    Perpetual,
    CurrentMonth,
    NextMonth,
    CurrentQuarter,
    NextQuarter,
    PerpetualDelivering,
}

impl BasisContractTypeEnum {
    /// The name by which the API knows the value.
    pub open spec fn wire_name(self) -> Seq<char> {
        match self {
            BasisContractTypeEnum::Perpetual => "PERPETUAL"@,
            BasisContractTypeEnum::CurrentMonth => "CURRENT_MONTH"@,
            BasisContractTypeEnum::NextMonth => "NEXT_MONTH"@,
            BasisContractTypeEnum::CurrentQuarter => "CURRENT_QUARTER"@,
            BasisContractTypeEnum::NextQuarter => "NEXT_QUARTER"@,
            BasisContractTypeEnum::PerpetualDelivering => "PERPETUAL_DELIVERING"@,
        }
    }

    /// The value that the API knows by `s`, if any.
    pub open spec fn from_wire(s: Seq<char>) -> Option<BasisContractTypeEnum> {
        if s == "PERPETUAL"@ {
            Some(BasisContractTypeEnum::Perpetual)
        } else if s == "CURRENT_MONTH"@ {
            Some(BasisContractTypeEnum::CurrentMonth)
        } else if s == "NEXT_MONTH"@ {
            Some(BasisContractTypeEnum::NextMonth)
        } else if s == "CURRENT_QUARTER"@ {
            Some(BasisContractTypeEnum::CurrentQuarter)
        } else if s == "NEXT_QUARTER"@ {
            Some(BasisContractTypeEnum::NextQuarter)
        } else if s == "PERPETUAL_DELIVERING"@ {
            Some(BasisContractTypeEnum::PerpetualDelivering)
        } else {
            None
        }
    }

    /// An optional value, as the query parameter that carries it.
    pub open spec fn opt_wire(v: Option<BasisContractTypeEnum>) -> Option<QueryValueView> {
        match v {
            Some(e) => Some(QueryValueView::Text(e.wire_name())),
            None => None,
        }
    }

    /// The wire name of the value.
    #[must_use]
    pub fn as_str(&self) -> (s: &'static str)
        ensures
            s@ == self.wire_name(),
    {
        match self {
            BasisContractTypeEnum::Perpetual => "PERPETUAL",
            BasisContractTypeEnum::CurrentMonth => "CURRENT_MONTH",
            BasisContractTypeEnum::NextMonth => "NEXT_MONTH",
            BasisContractTypeEnum::CurrentQuarter => "CURRENT_QUARTER",
            BasisContractTypeEnum::NextQuarter => "NEXT_QUARTER",
            BasisContractTypeEnum::PerpetualDelivering => "PERPETUAL_DELIVERING",
        }
    }

    /// The value whose wire name is `s`; for any other `s` the error says
    /// which text was refused.
    pub fn parse(s: &str) -> (r: Result<BasisContractTypeEnum, String>)
        ensures
            match r {
                Ok(e) => BasisContractTypeEnum::from_wire(s@) == Some(e),
                Err(msg) => BasisContractTypeEnum::from_wire(s@) is None && msg@ == "invalid BasisContractTypeEnum: "@ + s@,
            },
    {
        if str_eq(s, "PERPETUAL") {
            Ok(BasisContractTypeEnum::Perpetual)
        } else if str_eq(s, "CURRENT_MONTH") {
            Ok(BasisContractTypeEnum::CurrentMonth)
        } else if str_eq(s, "NEXT_MONTH") {
            Ok(BasisContractTypeEnum::NextMonth)
        } else if str_eq(s, "CURRENT_QUARTER") {
            Ok(BasisContractTypeEnum::CurrentQuarter)
        } else if str_eq(s, "NEXT_QUARTER") {
            Ok(BasisContractTypeEnum::NextQuarter)
        } else if str_eq(s, "PERPETUAL_DELIVERING") {
            Ok(BasisContractTypeEnum::PerpetualDelivering)
        } else {
            let mut msg = "invalid BasisContractTypeEnum: ".to_owned();
            msg.append(s);
            Err(msg)
        }
    }

    /// Each value reads back from its wire name, and a wire name reads back
    /// only as the value that has it.
    pub proof fn lemma_wire_round_trip(e: BasisContractTypeEnum, s: Seq<char>)
        ensures
            BasisContractTypeEnum::from_wire(e.wire_name()) == Some(e),
            BasisContractTypeEnum::from_wire(s) == Some(e) ==> s == e.wire_name(),
    {
        reveal_strlit("PERPETUAL");
        reveal_strlit("CURRENT_MONTH");
        reveal_strlit("NEXT_MONTH");
        reveal_strlit("CURRENT_QUARTER");
        reveal_strlit("NEXT_QUARTER");
        reveal_strlit("PERPETUAL_DELIVERING");
        assert("PERPETUAL"@.len() == 9);
        assert("CURRENT_MONTH"@.len() == 13);
        assert("NEXT_MONTH"@.len() == 10);
        assert("CURRENT_QUARTER"@.len() == 15);
        assert("NEXT_QUARTER"@.len() == 12);
        assert("PERPETUAL_DELIVERING"@.len() == 20);
    }
}

impl std::str::FromStr for BasisContractTypeEnum {
    type Err = String;

    fn from_str(s: &str) -> (r: Result<BasisContractTypeEnum, String>)
        ensures
            match r {
                Ok(e) => BasisContractTypeEnum::from_wire(s@) == Some(e),
                Err(msg) => BasisContractTypeEnum::from_wire(s@) is None && msg@ == "invalid BasisContractTypeEnum: "@ + s@,
            },
    {
        BasisContractTypeEnum::parse(s)
    }
}

/// The values of `BasisPeriod` that the endpoint accepts.
#[derive(Debug, Clone, Copy, PartialEq, Eq, Structural)]
pub enum BasisPeriodEnum {
    Period5m,
    Period15m,
    Period30m,
    Period1h,
    Period2h,
    Period4h,
    Period6h,
    Period12h,
    Period1d,
}

impl BasisPeriodEnum {
    /// The name by which the API knows the value.
    pub open spec fn wire_name(self) -> Seq<char> {
        match self {
            BasisPeriodEnum::Period5m => "5m"@,
            BasisPeriodEnum::Period15m => "15m"@,
            BasisPeriodEnum::Period30m => "30m"@,
            BasisPeriodEnum::Period1h => "1h"@,
            BasisPeriodEnum::Period2h => "2h"@,
            BasisPeriodEnum::Period4h => "4h"@,
            BasisPeriodEnum::Period6h => "6h"@,
            BasisPeriodEnum::Period12h => "12h"@,
            BasisPeriodEnum::Period1d => "1d"@,
        }
    }

    /// The value that the API knows by `s`, if any.
    pub open spec fn from_wire(s: Seq<char>) -> Option<BasisPeriodEnum> {
        if s == "5m"@ {
            Some(BasisPeriodEnum::Period5m)
        } else if s == "15m"@ {
            Some(BasisPeriodEnum::Period15m)
        } else if s == "30m"@ {
            Some(BasisPeriodEnum::Period30m)
        } else if s == "1h"@ {
            Some(BasisPeriodEnum::Period1h)
        } else if s == "2h"@ {
            Some(BasisPeriodEnum::Period2h)
        } else if s == "4h"@ {
            Some(BasisPeriodEnum::Period4h)
        } else if s == "6h"@ {
            Some(BasisPeriodEnum::Period6h)
        } else if s == "12h"@ {
            Some(BasisPeriodEnum::Period12h)
        } else if s == "1d"@ {
            Some(BasisPeriodEnum::Period1d)
        } else {
            None
        }
    }

    /// An optional value, as the query parameter that carries it.
    pub open spec fn opt_wire(v: Option<BasisPeriodEnum>) -> Option<QueryValueView> {
        match v {
            Some(e) => Some(QueryValueView::Text(e.wire_name())),
            None => None,
        }
    }

    /// The wire name of the value.
    #[must_use]
    pub fn as_str(&self) -> (s: &'static str)
        ensures
            s@ == self.wire_name(),
    {
        match self {
            BasisPeriodEnum::Period5m => "5m",
            BasisPeriodEnum::Period15m => "15m",
            BasisPeriodEnum::Period30m => "30m",
            BasisPeriodEnum::Period1h => "1h",
            BasisPeriodEnum::Period2h => "2h",
            BasisPeriodEnum::Period4h => "4h",
            BasisPeriodEnum::Period6h => "6h",
            BasisPeriodEnum::Period12h => "12h",
            BasisPeriodEnum::Period1d => "1d",
        }
    }

    /// The value whose wire name is `s`; for any other `s` the error says
    /// which text was refused.
    pub fn parse(s: &str) -> (r: Result<BasisPeriodEnum, String>)
        ensures
            match r {
                Ok(e) => BasisPeriodEnum::from_wire(s@) == Some(e),
                Err(msg) => BasisPeriodEnum::from_wire(s@) is None && msg@ == "invalid BasisPeriodEnum: "@ + s@,
            },
    {
        if str_eq(s, "5m") {
            Ok(BasisPeriodEnum::Period5m)
        } else if str_eq(s, "15m") {
            Ok(BasisPeriodEnum::Period15m)
        } else if str_eq(s, "30m") {
            Ok(BasisPeriodEnum::Period30m)
        } else if str_eq(s, "1h") {
            Ok(BasisPeriodEnum::Period1h)
        } else if str_eq(s, "2h") {
            Ok(BasisPeriodEnum::Period2h)
        } else if str_eq(s, "4h") {
            Ok(BasisPeriodEnum::Period4h)
        } else if str_eq(s, "6h") {
            Ok(BasisPeriodEnum::Period6h)
        } else if str_eq(s, "12h") {
            Ok(BasisPeriodEnum::Period12h)
        } else if str_eq(s, "1d") {
            Ok(BasisPeriodEnum::Period1d)
        } else {
            let mut msg = "invalid BasisPeriodEnum: ".to_owned();
            msg.append(s);
            Err(msg)
        }
    }

    /// Each value reads back from its wire name, and a wire name reads back
    /// only as the value that has it.
    pub proof fn lemma_wire_round_trip(e: BasisPeriodEnum, s: Seq<char>)
        ensures
            BasisPeriodEnum::from_wire(e.wire_name()) == Some(e),
            BasisPeriodEnum::from_wire(s) == Some(e) ==> s == e.wire_name(),
    {
        reveal_strlit("5m");
        reveal_strlit("15m");
        reveal_strlit("30m");
        reveal_strlit("1h");
        reveal_strlit("2h");
        reveal_strlit("4h");
        reveal_strlit("6h");
        reveal_strlit("12h");
        reveal_strlit("1d");
        assert("5m"@.len() == 2);
        assert("15m"@.len() == 3);
        assert("30m"@.len() == 3);
        assert("1h"@.len() == 2);
        assert("2h"@.len() == 2);
        assert("4h"@.len() == 2);
        assert("6h"@.len() == 2);
        assert("12h"@.len() == 3);
        assert("1d"@.len() == 2);
        assert("5m"@[0] == '5');
        assert("1h"@[0] == '1');
        assert("2h"@[0] == '2');
        assert("4h"@[0] == '4');
        assert("6h"@[0] == '6');
        assert("1d"@[0] == '1');
        assert("15m"@[0] == '1');
        assert("30m"@[0] == '3');
        assert("15m"@[1] == '5');
        assert("12h"@[1] == '2');
        assert("12h"@[0] == '1');
        assert("1h"@[1] == 'h');
        assert("1d"@[1] == 'd');
    }
}

impl std::str::FromStr for BasisPeriodEnum {
    type Err = String;

    fn from_str(s: &str) -> (r: Result<BasisPeriodEnum, String>)
        ensures
            match r {
                Ok(e) => BasisPeriodEnum::from_wire(s@) == Some(e),
                Err(msg) => BasisPeriodEnum::from_wire(s@) is None && msg@ == "invalid BasisPeriodEnum: "@ + s@,
            },
    {
        BasisPeriodEnum::parse(s)
    }
}

/// The values of `ContinuousContractKlineCandlestickDataContractType` that the endpoint accepts.
#[derive(Debug, Clone, Copy, PartialEq, Eq, Structural)]
pub enum ContinuousContractKlineCandlestickDataContractTypeEnum {
    Perpetual,
    CurrentMonth,
    NextMonth,
    CurrentQuarter,
    NextQuarter,
    PerpetualDelivering,
}

impl ContinuousContractKlineCandlestickDataContractTypeEnum {
    /// The name by which the API knows the value.
    pub open spec fn wire_name(self) -> Seq<char> {
        match self {
            ContinuousContractKlineCandlestickDataContractTypeEnum::Perpetual => "PERPETUAL"@,
            ContinuousContractKlineCandlestickDataContractTypeEnum::CurrentMonth => "CURRENT_MONTH"@,
            ContinuousContractKlineCandlestickDataContractTypeEnum::NextMonth => "NEXT_MONTH"@,
            ContinuousContractKlineCandlestickDataContractTypeEnum::CurrentQuarter => "CURRENT_QUARTER"@,
            ContinuousContractKlineCandlestickDataContractTypeEnum::NextQuarter => "NEXT_QUARTER"@,
            ContinuousContractKlineCandlestickDataContractTypeEnum::PerpetualDelivering => "PERPETUAL_DELIVERING"@,
        }
    }

    /// The value that the API knows by `s`, if any.
    pub open spec fn from_wire(s: Seq<char>) -> Option<ContinuousContractKlineCandlestickDataContractTypeEnum> {
        if s == "PERPETUAL"@ {
            Some(ContinuousContractKlineCandlestickDataContractTypeEnum::Perpetual)
        } else if s == "CURRENT_MONTH"@ {
            Some(ContinuousContractKlineCandlestickDataContractTypeEnum::CurrentMonth)
        } else if s == "NEXT_MONTH"@ {
            Some(ContinuousContractKlineCandlestickDataContractTypeEnum::NextMonth)
        } else if s == "CURRENT_QUARTER"@ {
            Some(ContinuousContractKlineCandlestickDataContractTypeEnum::CurrentQuarter)
        } else if s == "NEXT_QUARTER"@ {
            Some(ContinuousContractKlineCandlestickDataContractTypeEnum::NextQuarter)
        } else if s == "PERPETUAL_DELIVERING"@ {
            Some(ContinuousContractKlineCandlestickDataContractTypeEnum::PerpetualDelivering)
        } else {
            None
        }
    }

    /// An optional value, as the query parameter that carries it.
    pub open spec fn opt_wire(v: Option<ContinuousContractKlineCandlestickDataContractTypeEnum>) -> Option<QueryValueView> {
        match v {
            Some(e) => Some(QueryValueView::Text(e.wire_name())),
            None => None,
        }
    }

    /// The wire name of the value.
    #[must_use]
    pub fn as_str(&self) -> (s: &'static str)
        ensures
            s@ == self.wire_name(),
    {
        match self {
            ContinuousContractKlineCandlestickDataContractTypeEnum::Perpetual => "PERPETUAL",
            ContinuousContractKlineCandlestickDataContractTypeEnum::CurrentMonth => "CURRENT_MONTH",
            ContinuousContractKlineCandlestickDataContractTypeEnum::NextMonth => "NEXT_MONTH",
            ContinuousContractKlineCandlestickDataContractTypeEnum::CurrentQuarter => "CURRENT_QUARTER",
            ContinuousContractKlineCandlestickDataContractTypeEnum::NextQuarter => "NEXT_QUARTER",
            ContinuousContractKlineCandlestickDataContractTypeEnum::PerpetualDelivering => "PERPETUAL_DELIVERING",
        }
    }

    /// The value whose wire name is `s`; for any other `s` the error says
    /// which text was refused.
    pub fn parse(s: &str) -> (r: Result<ContinuousContractKlineCandlestickDataContractTypeEnum, String>)
        ensures
            match r {
                Ok(e) => ContinuousContractKlineCandlestickDataContractTypeEnum::from_wire(s@) == Some(e),
                Err(msg) => ContinuousContractKlineCandlestickDataContractTypeEnum::from_wire(s@) is None && msg@ == "invalid ContinuousContractKlineCandlestickDataContractTypeEnum: "@ + s@,
            },
    {
        if str_eq(s, "PERPETUAL") {
            Ok(ContinuousContractKlineCandlestickDataContractTypeEnum::Perpetual)
        } else if str_eq(s, "CURRENT_MONTH") {
            Ok(ContinuousContractKlineCandlestickDataContractTypeEnum::CurrentMonth)
        } else if str_eq(s, "NEXT_MONTH") {
            Ok(ContinuousContractKlineCandlestickDataContractTypeEnum::NextMonth)
        } else if str_eq(s, "CURRENT_QUARTER") {
            Ok(ContinuousContractKlineCandlestickDataContractTypeEnum::CurrentQuarter)
        } else if str_eq(s, "NEXT_QUARTER") {
            Ok(ContinuousContractKlineCandlestickDataContractTypeEnum::NextQuarter)
        } else if str_eq(s, "PERPETUAL_DELIVERING") {
            Ok(ContinuousContractKlineCandlestickDataContractTypeEnum::PerpetualDelivering)
        } else {
            let mut msg = "invalid ContinuousContractKlineCandlestickDataContractTypeEnum: ".to_owned();
            msg.append(s);
            Err(msg)
        }
    }

    /// Each value reads back from its wire name, and a wire name reads back
    /// only as the value that has it.
    pub proof fn lemma_wire_round_trip(e: ContinuousContractKlineCandlestickDataContractTypeEnum, s: Seq<char>)
        ensures
            ContinuousContractKlineCandlestickDataContractTypeEnum::from_wire(e.wire_name()) == Some(e),
            ContinuousContractKlineCandlestickDataContractTypeEnum::from_wire(s) == Some(e) ==> s == e.wire_name(),
    {
        reveal_strlit("PERPETUAL");
        reveal_strlit("CURRENT_MONTH");
        reveal_strlit("NEXT_MONTH");
        reveal_strlit("CURRENT_QUARTER");
        reveal_strlit("NEXT_QUARTER");
        reveal_strlit("PERPETUAL_DELIVERING");
        assert("PERPETUAL"@.len() == 9);
        assert("CURRENT_MONTH"@.len() == 13);
        assert("NEXT_MONTH"@.len() == 10);
        assert("CURRENT_QUARTER"@.len() == 15);
        assert("NEXT_QUARTER"@.len() == 12);
        assert("PERPETUAL_DELIVERING"@.len() == 20);
    }
}

impl std::str::FromStr for ContinuousContractKlineCandlestickDataContractTypeEnum {
    type Err = String;

    fn from_str(s: &str) -> (r: Result<ContinuousContractKlineCandlestickDataContractTypeEnum, String>)
        ensures
            match r {
                Ok(e) => ContinuousContractKlineCandlestickDataContractTypeEnum::from_wire(s@) == Some(e),
                Err(msg) => ContinuousContractKlineCandlestickDataContractTypeEnum::from_wire(s@) is None && msg@ == "invalid ContinuousContractKlineCandlestickDataContractTypeEnum: "@ + s@,
            },
    {
        ContinuousContractKlineCandlestickDataContractTypeEnum::parse(s)
    }
}

/// The values of `ContinuousContractKlineCandlestickDataInterval` that the endpoint accepts.
#[derive(Debug, Clone, Copy, PartialEq, Eq, Structural)]
pub enum ContinuousContractKlineCandlestickDataIntervalEnum {
    Interval1m,
    Interval3m,
    Interval5m,
    Interval15m,
    Interval30m,
    Interval1h,
    Interval2h,
    Interval4h,
    Interval6h,
    Interval8h,
    Interval12h,
    Interval1d,
    Interval3d,
    Interval1w,
    Interval1M,
}

impl ContinuousContractKlineCandlestickDataIntervalEnum {
    /// The name by which the API knows the value.
    pub open spec fn wire_name(self) -> Seq<char> {
        match self {
            ContinuousContractKlineCandlestickDataIntervalEnum::Interval1m => "1m"@,
            ContinuousContractKlineCandlestickDataIntervalEnum::Interval3m => "3m"@,
            ContinuousContractKlineCandlestickDataIntervalEnum::Interval5m => "5m"@,
            ContinuousContractKlineCandlestickDataIntervalEnum::Interval15m => "15m"@,
            ContinuousContractKlineCandlestickDataIntervalEnum::Interval30m => "30m"@,
            ContinuousContractKlineCandlestickDataIntervalEnum::Interval1h => "1h"@,
            ContinuousContractKlineCandlestickDataIntervalEnum::Interval2h => "2h"@,
            ContinuousContractKlineCandlestickDataIntervalEnum::Interval4h => "4h"@,
            ContinuousContractKlineCandlestickDataIntervalEnum::Interval6h => "6h"@,
            ContinuousContractKlineCandlestickDataIntervalEnum::Interval8h => "8h"@,
            ContinuousContractKlineCandlestickDataIntervalEnum::Interval12h => "12h"@,
            ContinuousContractKlineCandlestickDataIntervalEnum::Interval1d => "1d"@,
            ContinuousContractKlineCandlestickDataIntervalEnum::Interval3d => "3d"@,
            ContinuousContractKlineCandlestickDataIntervalEnum::Interval1w => "1w"@,
            ContinuousContractKlineCandlestickDataIntervalEnum::Interval1M => "1M"@,
        }
    }

    /// The value that the API knows by `s`, if any.
    pub open spec fn from_wire(s: Seq<char>) -> Option<ContinuousContractKlineCandlestickDataIntervalEnum> {
        if s == "1m"@ {
            Some(ContinuousContractKlineCandlestickDataIntervalEnum::Interval1m)
        } else if s == "3m"@ {
            Some(ContinuousContractKlineCandlestickDataIntervalEnum::Interval3m)
        } else if s == "5m"@ {
            Some(ContinuousContractKlineCandlestickDataIntervalEnum::Interval5m)
        } else if s == "15m"@ {
            Some(ContinuousContractKlineCandlestickDataIntervalEnum::Interval15m)
        } else if s == "30m"@ {
            Some(ContinuousContractKlineCandlestickDataIntervalEnum::Interval30m)
        } else if s == "1h"@ {
            Some(ContinuousContractKlineCandlestickDataIntervalEnum::Interval1h)
        } else if s == "2h"@ {
            Some(ContinuousContractKlineCandlestickDataIntervalEnum::Interval2h)
        } else if s == "4h"@ {
            Some(ContinuousContractKlineCandlestickDataIntervalEnum::Interval4h)
        } else if s == "6h"@ {
            Some(ContinuousContractKlineCandlestickDataIntervalEnum::Interval6h)
        } else if s == "8h"@ {
            Some(ContinuousContractKlineCandlestickDataIntervalEnum::Interval8h)
        } else if s == "12h"@ {
            Some(ContinuousContractKlineCandlestickDataIntervalEnum::Interval12h)
        } else if s == "1d"@ {
            Some(ContinuousContractKlineCandlestickDataIntervalEnum::Interval1d)
        } else if s == "3d"@ {
            Some(ContinuousContractKlineCandlestickDataIntervalEnum::Interval3d)
        } else if s == "1w"@ {
            Some(ContinuousContractKlineCandlestickDataIntervalEnum::Interval1w)
        } else if s == "1M"@ {
            Some(ContinuousContractKlineCandlestickDataIntervalEnum::Interval1M)
        } else {
            None
        }
    }

    /// An optional value, as the query parameter that carries it.
    pub open spec fn opt_wire(v: Option<ContinuousContractKlineCandlestickDataIntervalEnum>) -> Option<QueryValueView> {
        match v {
            Some(e) => Some(QueryValueView::Text(e.wire_name())),
            None => None,
        }
    }

    /// The wire name of the value.
    #[must_use]
    pub fn as_str(&self) -> (s: &'static str)
        ensures
            s@ == self.wire_name(),
    {
        match self {
            ContinuousContractKlineCandlestickDataIntervalEnum::Interval1m => "1m",
            ContinuousContractKlineCandlestickDataIntervalEnum::Interval3m => "3m",
            ContinuousContractKlineCandlestickDataIntervalEnum::Interval5m => "5m",
            ContinuousContractKlineCandlestickDataIntervalEnum::Interval15m => "15m",
            ContinuousContractKlineCandlestickDataIntervalEnum::Interval30m => "30m",
            ContinuousContractKlineCandlestickDataIntervalEnum::Interval1h => "1h",
            ContinuousContractKlineCandlestickDataIntervalEnum::Interval2h => "2h",
            ContinuousContractKlineCandlestickDataIntervalEnum::Interval4h => "4h",
            ContinuousContractKlineCandlestickDataIntervalEnum::Interval6h => "6h",
            ContinuousContractKlineCandlestickDataIntervalEnum::Interval8h => "8h",
            ContinuousContractKlineCandlestickDataIntervalEnum::Interval12h => "12h",
            ContinuousContractKlineCandlestickDataIntervalEnum::Interval1d => "1d",
            ContinuousContractKlineCandlestickDataIntervalEnum::Interval3d => "3d",
            ContinuousContractKlineCandlestickDataIntervalEnum::Interval1w => "1w",
            ContinuousContractKlineCandlestickDataIntervalEnum::Interval1M => "1M",
        }
    }

    /// The value whose wire name is `s`; for any other `s` the error says
    /// which text was refused.
    pub fn parse(s: &str) -> (r: Result<ContinuousContractKlineCandlestickDataIntervalEnum, String>)
        ensures
            match r {
                Ok(e) => ContinuousContractKlineCandlestickDataIntervalEnum::from_wire(s@) == Some(e),
                Err(msg) => ContinuousContractKlineCandlestickDataIntervalEnum::from_wire(s@) is None && msg@ == "invalid ContinuousContractKlineCandlestickDataIntervalEnum: "@ + s@,
            },
    {
        if str_eq(s, "1m") {
            Ok(ContinuousContractKlineCandlestickDataIntervalEnum::Interval1m)
        } else if str_eq(s, "3m") {
            Ok(ContinuousContractKlineCandlestickDataIntervalEnum::Interval3m)
        } else if str_eq(s, "5m") {
            Ok(ContinuousContractKlineCandlestickDataIntervalEnum::Interval5m)
        } else if str_eq(s, "15m") {
            Ok(ContinuousContractKlineCandlestickDataIntervalEnum::Interval15m)
        } else if str_eq(s, "30m") {
            Ok(ContinuousContractKlineCandlestickDataIntervalEnum::Interval30m)
        } else if str_eq(s, "1h") {
            Ok(ContinuousContractKlineCandlestickDataIntervalEnum::Interval1h)
        } else if str_eq(s, "2h") {
            Ok(ContinuousContractKlineCandlestickDataIntervalEnum::Interval2h)
        } else if str_eq(s, "4h") {
            Ok(ContinuousContractKlineCandlestickDataIntervalEnum::Interval4h)
        } else if str_eq(s, "6h") {
            Ok(ContinuousContractKlineCandlestickDataIntervalEnum::Interval6h)
        } else if str_eq(s, "8h") {
            Ok(ContinuousContractKlineCandlestickDataIntervalEnum::Interval8h)
        } else if str_eq(s, "12h") {
            Ok(ContinuousContractKlineCandlestickDataIntervalEnum::Interval12h)
        } else if str_eq(s, "1d") {
            Ok(ContinuousContractKlineCandlestickDataIntervalEnum::Interval1d)
        } else if str_eq(s, "3d") {
            Ok(ContinuousContractKlineCandlestickDataIntervalEnum::Interval3d)
        } else if str_eq(s, "1w") {
            Ok(ContinuousContractKlineCandlestickDataIntervalEnum::Interval1w)
        } else if str_eq(s, "1M") {
            Ok(ContinuousContractKlineCandlestickDataIntervalEnum::Interval1M)
        } else {
            let mut msg = "invalid ContinuousContractKlineCandlestickDataIntervalEnum: ".to_owned();
            msg.append(s);
            Err(msg)
        }
    }

    /// Each value reads back from its wire name, and a wire name reads back
    /// only as the value that has it.
    pub proof fn lemma_wire_round_trip(e: ContinuousContractKlineCandlestickDataIntervalEnum, s: Seq<char>)
        ensures
            ContinuousContractKlineCandlestickDataIntervalEnum::from_wire(e.wire_name()) == Some(e),
            ContinuousContractKlineCandlestickDataIntervalEnum::from_wire(s) == Some(e) ==> s == e.wire_name(),
    {
        reveal_strlit("1m");
        reveal_strlit("3m");
        reveal_strlit("5m");
        reveal_strlit("15m");
        reveal_strlit("30m");
        reveal_strlit("1h");
        reveal_strlit("2h");
        reveal_strlit("4h");
        reveal_strlit("6h");
        reveal_strlit("8h");
        reveal_strlit("12h");
        reveal_strlit("1d");
        reveal_strlit("3d");
        reveal_strlit("1w");
        reveal_strlit("1M");
        assert("1m"@.len() == 2);
        assert("3m"@.len() == 2);
        assert("5m"@.len() == 2);
        assert("15m"@.len() == 3);
        assert("30m"@.len() == 3);
        assert("1h"@.len() == 2);
        assert("2h"@.len() == 2);
        assert("4h"@.len() == 2);
        assert("6h"@.len() == 2);
        assert("8h"@.len() == 2);
        assert("12h"@.len() == 3);
        assert("1d"@.len() == 2);
        assert("3d"@.len() == 2);
        assert("1w"@.len() == 2);
        assert("1M"@.len() == 2);
        assert("1m"@[0] == '1');
        assert("3m"@[0] == '3');
        assert("5m"@[0] == '5');
        assert("1m"@[1] == 'm');
        assert("1h"@[1] == 'h');
        assert("2h"@[0] == '2');
        assert("4h"@[0] == '4');
        assert("6h"@[0] == '6');
        assert("8h"@[0] == '8');
        assert("1d"@[1] == 'd');
        assert("3d"@[0] == '3');
        assert("1w"@[1] == 'w');
        assert("1M"@[1] == 'M');
        assert("1h"@[0] == '1');
        assert("1d"@[0] == '1');
        assert("3m"@[1] == 'm');
        assert("3d"@[1] == 'd');
        assert("1w"@[0] == '1');
        assert("1M"@[0] == '1');
        assert("15m"@[0] == '1');
        assert("30m"@[0] == '3');
        assert("15m"@[1] == '5');
        assert("12h"@[1] == '2');
        assert("12h"@[0] == '1');
    }
}

impl std::str::FromStr for ContinuousContractKlineCandlestickDataIntervalEnum {
    type Err = String;

    fn from_str(s: &str) -> (r: Result<ContinuousContractKlineCandlestickDataIntervalEnum, String>)
        ensures
            match r {
                Ok(e) => ContinuousContractKlineCandlestickDataIntervalEnum::from_wire(s@) == Some(e),
                Err(msg) => ContinuousContractKlineCandlestickDataIntervalEnum::from_wire(s@) is None && msg@ == "invalid ContinuousContractKlineCandlestickDataIntervalEnum: "@ + s@,
            },
    {
        ContinuousContractKlineCandlestickDataIntervalEnum::parse(s)
    }
}

/// The values of `IndexPriceKlineCandlestickDataInterval` that the endpoint accepts.
#[derive(Debug, Clone, Copy, PartialEq, Eq, Structural)]
pub enum IndexPriceKlineCandlestickDataIntervalEnum {
    Interval1m,
    Interval3m,
    Interval5m,
    Interval15m,
    Interval30m,
    Interval1h,
    Interval2h,
    Interval4h,
    Interval6h,
    Interval8h,
    Interval12h,
    Interval1d,
    Interval3d,
    Interval1w,
    Interval1M,
}

impl IndexPriceKlineCandlestickDataIntervalEnum {
    /// The name by which the API knows the value.
    pub open spec fn wire_name(self) -> Seq<char> {
        match self {
            IndexPriceKlineCandlestickDataIntervalEnum::Interval1m => "1m"@,
            IndexPriceKlineCandlestickDataIntervalEnum::Interval3m => "3m"@,
            IndexPriceKlineCandlestickDataIntervalEnum::Interval5m => "5m"@,
            IndexPriceKlineCandlestickDataIntervalEnum::Interval15m => "15m"@,
            IndexPriceKlineCandlestickDataIntervalEnum::Interval30m => "30m"@,
            IndexPriceKlineCandlestickDataIntervalEnum::Interval1h => "1h"@,
            IndexPriceKlineCandlestickDataIntervalEnum::Interval2h => "2h"@,
            IndexPriceKlineCandlestickDataIntervalEnum::Interval4h => "4h"@,
            IndexPriceKlineCandlestickDataIntervalEnum::Interval6h => "6h"@,
            IndexPriceKlineCandlestickDataIntervalEnum::Interval8h => "8h"@,
            IndexPriceKlineCandlestickDataIntervalEnum::Interval12h => "12h"@,
            IndexPriceKlineCandlestickDataIntervalEnum::Interval1d => "1d"@,
            IndexPriceKlineCandlestickDataIntervalEnum::Interval3d => "3d"@,
            IndexPriceKlineCandlestickDataIntervalEnum::Interval1w => "1w"@,
            IndexPriceKlineCandlestickDataIntervalEnum::Interval1M => "1M"@,
        }
    }

    /// The value that the API knows by `s`, if any.
    pub open spec fn from_wire(s: Seq<char>) -> Option<IndexPriceKlineCandlestickDataIntervalEnum> {
        if s == "1m"@ {
            Some(IndexPriceKlineCandlestickDataIntervalEnum::Interval1m)
        } else if s == "3m"@ {
            Some(IndexPriceKlineCandlestickDataIntervalEnum::Interval3m)
        } else if s == "5m"@ {
            Some(IndexPriceKlineCandlestickDataIntervalEnum::Interval5m)
        } else if s == "15m"@ {
            Some(IndexPriceKlineCandlestickDataIntervalEnum::Interval15m)
        } else if s == "30m"@ {
            Some(IndexPriceKlineCandlestickDataIntervalEnum::Interval30m)
        } else if s == "1h"@ {
            Some(IndexPriceKlineCandlestickDataIntervalEnum::Interval1h)
        } else if s == "2h"@ {
            Some(IndexPriceKlineCandlestickDataIntervalEnum::Interval2h)
        } else if s == "4h"@ {
            Some(IndexPriceKlineCandlestickDataIntervalEnum::Interval4h)
        } else if s == "6h"@ {
            Some(IndexPriceKlineCandlestickDataIntervalEnum::Interval6h)
        } else if s == "8h"@ {
            Some(IndexPriceKlineCandlestickDataIntervalEnum::Interval8h)
        } else if s == "12h"@ {
            Some(IndexPriceKlineCandlestickDataIntervalEnum::Interval12h)
        } else if s == "1d"@ {
            Some(IndexPriceKlineCandlestickDataIntervalEnum::Interval1d)
        } else if s == "3d"@ {
            Some(IndexPriceKlineCandlestickDataIntervalEnum::Interval3d)
        } else if s == "1w"@ {
            Some(IndexPriceKlineCandlestickDataIntervalEnum::Interval1w)
        } else if s == "1M"@ {
            Some(IndexPriceKlineCandlestickDataIntervalEnum::Interval1M)
        } else {
            None
        }
    }

    /// An optional value, as the query parameter that carries it.
    pub open spec fn opt_wire(v: Option<IndexPriceKlineCandlestickDataIntervalEnum>) -> Option<QueryValueView> {
        match v {
            Some(e) => Some(QueryValueView::Text(e.wire_name())),
            None => None,
        }
    }

    /// The wire name of the value.
    #[must_use]
    pub fn as_str(&self) -> (s: &'static str)
        ensures
            s@ == self.wire_name(),
    {
        match self {
            IndexPriceKlineCandlestickDataIntervalEnum::Interval1m => "1m",
            IndexPriceKlineCandlestickDataIntervalEnum::Interval3m => "3m",
            IndexPriceKlineCandlestickDataIntervalEnum::Interval5m => "5m",
            IndexPriceKlineCandlestickDataIntervalEnum::Interval15m => "15m",
            IndexPriceKlineCandlestickDataIntervalEnum::Interval30m => "30m",
            IndexPriceKlineCandlestickDataIntervalEnum::Interval1h => "1h",
            IndexPriceKlineCandlestickDataIntervalEnum::Interval2h => "2h",
            IndexPriceKlineCandlestickDataIntervalEnum::Interval4h => "4h",
            IndexPriceKlineCandlestickDataIntervalEnum::Interval6h => "6h",
            IndexPriceKlineCandlestickDataIntervalEnum::Interval8h => "8h",
            IndexPriceKlineCandlestickDataIntervalEnum::Interval12h => "12h",
            IndexPriceKlineCandlestickDataIntervalEnum::Interval1d => "1d",
            IndexPriceKlineCandlestickDataIntervalEnum::Interval3d => "3d",
            IndexPriceKlineCandlestickDataIntervalEnum::Interval1w => "1w",
            IndexPriceKlineCandlestickDataIntervalEnum::Interval1M => "1M",
        }
    }

    /// The value whose wire name is `s`; for any other `s` the error says
    /// which text was refused.
    pub fn parse(s: &str) -> (r: Result<IndexPriceKlineCandlestickDataIntervalEnum, String>)
        ensures
            match r {
                Ok(e) => IndexPriceKlineCandlestickDataIntervalEnum::from_wire(s@) == Some(e),
                Err(msg) => IndexPriceKlineCandlestickDataIntervalEnum::from_wire(s@) is None && msg@ == "invalid IndexPriceKlineCandlestickDataIntervalEnum: "@ + s@,
            },
    {
        if str_eq(s, "1m") {
            Ok(IndexPriceKlineCandlestickDataIntervalEnum::Interval1m)
        } else if str_eq(s, "3m") {
            Ok(IndexPriceKlineCandlestickDataIntervalEnum::Interval3m)
        } else if str_eq(s, "5m") {
            Ok(IndexPriceKlineCandlestickDataIntervalEnum::Interval5m)
        } else if str_eq(s, "15m") {
            Ok(IndexPriceKlineCandlestickDataIntervalEnum::Interval15m)
        } else if str_eq(s, "30m") {
            Ok(IndexPriceKlineCandlestickDataIntervalEnum::Interval30m)
        } else if str_eq(s, "1h") {
            Ok(IndexPriceKlineCandlestickDataIntervalEnum::Interval1h)
        } else if str_eq(s, "2h") {
            Ok(IndexPriceKlineCandlestickDataIntervalEnum::Interval2h)
        } else if str_eq(s, "4h") {
            Ok(IndexPriceKlineCandlestickDataIntervalEnum::Interval4h)
        } else if str_eq(s, "6h") {
            Ok(IndexPriceKlineCandlestickDataIntervalEnum::Interval6h)
        } else if str_eq(s, "8h") {
            Ok(IndexPriceKlineCandlestickDataIntervalEnum::Interval8h)
        } else if str_eq(s, "12h") {
            Ok(IndexPriceKlineCandlestickDataIntervalEnum::Interval12h)
        } else if str_eq(s, "1d") {
            Ok(IndexPriceKlineCandlestickDataIntervalEnum::Interval1d)
        } else if str_eq(s, "3d") {
            Ok(IndexPriceKlineCandlestickDataIntervalEnum::Interval3d)
        } else if str_eq(s, "1w") {
            Ok(IndexPriceKlineCandlestickDataIntervalEnum::Interval1w)
        } else if str_eq(s, "1M") {
            Ok(IndexPriceKlineCandlestickDataIntervalEnum::Interval1M)
        } else {
            let mut msg = "invalid IndexPriceKlineCandlestickDataIntervalEnum: ".to_owned();
            msg.append(s);
            Err(msg)
        }
    }

    /// Each value reads back from its wire name, and a wire name reads back
    /// only as the value that has it.
    pub proof fn lemma_wire_round_trip(e: IndexPriceKlineCandlestickDataIntervalEnum, s: Seq<char>)
        ensures
            IndexPriceKlineCandlestickDataIntervalEnum::from_wire(e.wire_name()) == Some(e),
            IndexPriceKlineCandlestickDataIntervalEnum::from_wire(s) == Some(e) ==> s == e.wire_name(),
    {
        reveal_strlit("1m");
        reveal_strlit("3m");
        reveal_strlit("5m");
        reveal_strlit("15m");
        reveal_strlit("30m");
        reveal_strlit("1h");
        reveal_strlit("2h");
        reveal_strlit("4h");
        reveal_strlit("6h");
        reveal_strlit("8h");
        reveal_strlit("12h");
        reveal_strlit("1d");
        reveal_strlit("3d");
        reveal_strlit("1w");
        reveal_strlit("1M");
        assert("1m"@.len() == 2);
        assert("3m"@.len() == 2);
        assert("5m"@.len() == 2);
        assert("15m"@.len() == 3);
        assert("30m"@.len() == 3);
        assert("1h"@.len() == 2);
        assert("2h"@.len() == 2);
        assert("4h"@.len() == 2);
        assert("6h"@.len() == 2);
        assert("8h"@.len() == 2);
        assert("12h"@.len() == 3);
        assert("1d"@.len() == 2);
        assert("3d"@.len() == 2);
        assert("1w"@.len() == 2);
        assert("1M"@.len() == 2);
        assert("1m"@[0] == '1');
        assert("3m"@[0] == '3');
        assert("5m"@[0] == '5');
        assert("1m"@[1] == 'm');
        assert("1h"@[1] == 'h');
        assert("2h"@[0] == '2');
        assert("4h"@[0] == '4');
        assert("6h"@[0] == '6');
        assert("8h"@[0] == '8');
        assert("1d"@[1] == 'd');
        assert("3d"@[0] == '3');
        assert("1w"@[1] == 'w');
        assert("1M"@[1] == 'M');
        assert("1h"@[0] == '1');
        assert("1d"@[0] == '1');
        assert("3m"@[1] == 'm');
        assert("3d"@[1] == 'd');
        assert("1w"@[0] == '1');
        assert("1M"@[0] == '1');
        assert("15m"@[0] == '1');
        assert("30m"@[0] == '3');
        assert("15m"@[1] == '5');
        assert("12h"@[1] == '2');
        assert("12h"@[0] == '1');
    }
}

impl std::str::FromStr for IndexPriceKlineCandlestickDataIntervalEnum {
    type Err = String;

    fn from_str(s: &str) -> (r: Result<IndexPriceKlineCandlestickDataIntervalEnum, String>)
        ensures
            match r {
                Ok(e) => IndexPriceKlineCandlestickDataIntervalEnum::from_wire(s@) == Some(e),
                Err(msg) => IndexPriceKlineCandlestickDataIntervalEnum::from_wire(s@) is None && msg@ == "invalid IndexPriceKlineCandlestickDataIntervalEnum: "@ + s@,
            },
    {
        IndexPriceKlineCandlestickDataIntervalEnum::parse(s)
    }
}

/// The values of `KlineCandlestickDataInterval` that the endpoint accepts.
#[derive(Debug, Clone, Copy, PartialEq, Eq, Structural)]
pub enum KlineCandlestickDataIntervalEnum {
    Interval1m,
    Interval3m,
    Interval5m,
    Interval15m,
    Interval30m,
    Interval1h,
    Interval2h,
    Interval4h,
    Interval6h,
    Interval8h,
    Interval12h,
    Interval1d,
    Interval3d,
    Interval1w,
    Interval1M,
}

impl KlineCandlestickDataIntervalEnum {
    /// The name by which the API knows the value.
    pub open spec fn wire_name(self) -> Seq<char> {
        match self {
            KlineCandlestickDataIntervalEnum::Interval1m => "1m"@,
            KlineCandlestickDataIntervalEnum::Interval3m => "3m"@,
            KlineCandlestickDataIntervalEnum::Interval5m => "5m"@,
            KlineCandlestickDataIntervalEnum::Interval15m => "15m"@,
            KlineCandlestickDataIntervalEnum::Interval30m => "30m"@,
            KlineCandlestickDataIntervalEnum::Interval1h => "1h"@,
            KlineCandlestickDataIntervalEnum::Interval2h => "2h"@,
            KlineCandlestickDataIntervalEnum::Interval4h => "4h"@,
            KlineCandlestickDataIntervalEnum::Interval6h => "6h"@,
            KlineCandlestickDataIntervalEnum::Interval8h => "8h"@,
            KlineCandlestickDataIntervalEnum::Interval12h => "12h"@,
            KlineCandlestickDataIntervalEnum::Interval1d => "1d"@,
            KlineCandlestickDataIntervalEnum::Interval3d => "3d"@,
            KlineCandlestickDataIntervalEnum::Interval1w => "1w"@,
            KlineCandlestickDataIntervalEnum::Interval1M => "1M"@,
        }
    }

    /// The value that the API knows by `s`, if any.
    pub open spec fn from_wire(s: Seq<char>) -> Option<KlineCandlestickDataIntervalEnum> {
        if s == "1m"@ {
            Some(KlineCandlestickDataIntervalEnum::Interval1m)
        } else if s == "3m"@ {
            Some(KlineCandlestickDataIntervalEnum::Interval3m)
        } else if s == "5m"@ {
            Some(KlineCandlestickDataIntervalEnum::Interval5m)
        } else if s == "15m"@ {
            Some(KlineCandlestickDataIntervalEnum::Interval15m)
        } else if s == "30m"@ {
            Some(KlineCandlestickDataIntervalEnum::Interval30m)
        } else if s == "1h"@ {
            Some(KlineCandlestickDataIntervalEnum::Interval1h)
        } else if s == "2h"@ {
            Some(KlineCandlestickDataIntervalEnum::Interval2h)
        } else if s == "4h"@ {
            Some(KlineCandlestickDataIntervalEnum::Interval4h)
        } else if s == "6h"@ {
            Some(KlineCandlestickDataIntervalEnum::Interval6h)
        } else if s == "8h"@ {
            Some(KlineCandlestickDataIntervalEnum::Interval8h)
        } else if s == "12h"@ {
            Some(KlineCandlestickDataIntervalEnum::Interval12h)
        } else if s == "1d"@ {
            Some(KlineCandlestickDataIntervalEnum::Interval1d)
        } else if s == "3d"@ {
            Some(KlineCandlestickDataIntervalEnum::Interval3d)
        } else if s == "1w"@ {
            Some(KlineCandlestickDataIntervalEnum::Interval1w)
        } else if s == "1M"@ {
            Some(KlineCandlestickDataIntervalEnum::Interval1M)
        } else {
            None
        }
    }

    /// An optional value, as the query parameter that carries it.
    pub open spec fn opt_wire(v: Option<KlineCandlestickDataIntervalEnum>) -> Option<QueryValueView> {
        match v {
            Some(e) => Some(QueryValueView::Text(e.wire_name())),
            None => None,
        }
    }

    /// The wire name of the value.
    #[must_use]
    pub fn as_str(&self) -> (s: &'static str)
        ensures
            s@ == self.wire_name(),
    {
        match self {
            KlineCandlestickDataIntervalEnum::Interval1m => "1m",
            KlineCandlestickDataIntervalEnum::Interval3m => "3m",
            KlineCandlestickDataIntervalEnum::Interval5m => "5m",
            KlineCandlestickDataIntervalEnum::Interval15m => "15m",
            KlineCandlestickDataIntervalEnum::Interval30m => "30m",
            KlineCandlestickDataIntervalEnum::Interval1h => "1h",
            KlineCandlestickDataIntervalEnum::Interval2h => "2h",
            KlineCandlestickDataIntervalEnum::Interval4h => "4h",
            KlineCandlestickDataIntervalEnum::Interval6h => "6h",
            KlineCandlestickDataIntervalEnum::Interval8h => "8h",
            KlineCandlestickDataIntervalEnum::Interval12h => "12h",
            KlineCandlestickDataIntervalEnum::Interval1d => "1d",
            KlineCandlestickDataIntervalEnum::Interval3d => "3d",
            KlineCandlestickDataIntervalEnum::Interval1w => "1w",
            KlineCandlestickDataIntervalEnum::Interval1M => "1M",
        }
    }

    /// The value whose wire name is `s`; for any other `s` the error says
    /// which text was refused.
    pub fn parse(s: &str) -> (r: Result<KlineCandlestickDataIntervalEnum, String>)
        ensures
            match r {
                Ok(e) => KlineCandlestickDataIntervalEnum::from_wire(s@) == Some(e),
                Err(msg) => KlineCandlestickDataIntervalEnum::from_wire(s@) is None && msg@ == "invalid KlineCandlestickDataIntervalEnum: "@ + s@,
            },
    {
        if str_eq(s, "1m") {
            Ok(KlineCandlestickDataIntervalEnum::Interval1m)
        } else if str_eq(s, "3m") {
            Ok(KlineCandlestickDataIntervalEnum::Interval3m)
        } else if str_eq(s, "5m") {
            Ok(KlineCandlestickDataIntervalEnum::Interval5m)
        } else if str_eq(s, "15m") {
            Ok(KlineCandlestickDataIntervalEnum::Interval15m)
        } else if str_eq(s, "30m") {
            Ok(KlineCandlestickDataIntervalEnum::Interval30m)
        } else if str_eq(s, "1h") {
            Ok(KlineCandlestickDataIntervalEnum::Interval1h)
        } else if str_eq(s, "2h") {
            Ok(KlineCandlestickDataIntervalEnum::Interval2h)
        } else if str_eq(s, "4h") {
            Ok(KlineCandlestickDataIntervalEnum::Interval4h)
        } else if str_eq(s, "6h") {
            Ok(KlineCandlestickDataIntervalEnum::Interval6h)
        } else if str_eq(s, "8h") {
            Ok(KlineCandlestickDataIntervalEnum::Interval8h)
        } else if str_eq(s, "12h") {
            Ok(KlineCandlestickDataIntervalEnum::Interval12h)
        } else if str_eq(s, "1d") {
            Ok(KlineCandlestickDataIntervalEnum::Interval1d)
        } else if str_eq(s, "3d") {
            Ok(KlineCandlestickDataIntervalEnum::Interval3d)
        } else if str_eq(s, "1w") {
            Ok(KlineCandlestickDataIntervalEnum::Interval1w)
        } else if str_eq(s, "1M") {
            Ok(KlineCandlestickDataIntervalEnum::Interval1M)
        } else {
            let mut msg = "invalid KlineCandlestickDataIntervalEnum: ".to_owned();
            msg.append(s);
            Err(msg)
        }
    }

    /// Each value reads back from its wire name, and a wire name reads back
    /// only as the value that has it.
    pub proof fn lemma_wire_round_trip(e: KlineCandlestickDataIntervalEnum, s: Seq<char>)
        ensures
            KlineCandlestickDataIntervalEnum::from_wire(e.wire_name()) == Some(e),
            KlineCandlestickDataIntervalEnum::from_wire(s) == Some(e) ==> s == e.wire_name(),
    {
        reveal_strlit("1m");
        reveal_strlit("3m");
        reveal_strlit("5m");
        reveal_strlit("15m");
        reveal_strlit("30m");
        reveal_strlit("1h");
        reveal_strlit("2h");
        reveal_strlit("4h");
        reveal_strlit("6h");
        reveal_strlit("8h");
        reveal_strlit("12h");
        reveal_strlit("1d");
        reveal_strlit("3d");
        reveal_strlit("1w");
        reveal_strlit("1M");
        assert("1m"@.len() == 2);
        assert("3m"@.len() == 2);
        assert("5m"@.len() == 2);
        assert("15m"@.len() == 3);
        assert("30m"@.len() == 3);
        assert("1h"@.len() == 2);
        assert("2h"@.len() == 2);
        assert("4h"@.len() == 2);
        assert("6h"@.len() == 2);
        assert("8h"@.len() == 2);
        assert("12h"@.len() == 3);
        assert("1d"@.len() == 2);
        assert("3d"@.len() == 2);
        assert("1w"@.len() == 2);
        assert("1M"@.len() == 2);
        assert("1m"@[0] == '1');
        assert("3m"@[0] == '3');
        assert("5m"@[0] == '5');
        assert("1m"@[1] == 'm');
        assert("1h"@[1] == 'h');
        assert("2h"@[0] == '2');
        assert("4h"@[0] == '4');
        assert("6h"@[0] == '6');
        assert("8h"@[0] == '8');
        assert("1d"@[1] == 'd');
        assert("3d"@[0] == '3');
        assert("1w"@[1] == 'w');
        assert("1M"@[1] == 'M');
        assert("1h"@[0] == '1');
        assert("1d"@[0] == '1');
        assert("3m"@[1] == 'm');
        assert("3d"@[1] == 'd');
        assert("1w"@[0] == '1');
        assert("1M"@[0] == '1');
        assert("15m"@[0] == '1');
        assert("30m"@[0] == '3');
        assert("15m"@[1] == '5');
        assert("12h"@[1] == '2');
        assert("12h"@[0] == '1');
    }
}

impl std::str::FromStr for KlineCandlestickDataIntervalEnum {
    type Err = String;

    fn from_str(s: &str) -> (r: Result<KlineCandlestickDataIntervalEnum, String>)
        ensures
            match r {
                Ok(e) => KlineCandlestickDataIntervalEnum::from_wire(s@) == Some(e),
                Err(msg) => KlineCandlestickDataIntervalEnum::from_wire(s@) is None && msg@ == "invalid KlineCandlestickDataIntervalEnum: "@ + s@,
            },
    {
        KlineCandlestickDataIntervalEnum::parse(s)
    }
}

/// The values of `LongShortRatioPeriod` that the endpoint accepts.
#[derive(Debug, Clone, Copy, PartialEq, Eq, Structural)]
pub enum LongShortRatioPeriodEnum {
    Period5m,
    Period15m,
    Period30m,
    Period1h,
    Period2h,
    Period4h,
    Period6h,
    Period12h,
    Period1d,
}

impl LongShortRatioPeriodEnum {
    /// The name by which the API knows the value.
    pub open spec fn wire_name(self) -> Seq<char> {
        match self {
            LongShortRatioPeriodEnum::Period5m => "5m"@,
            LongShortRatioPeriodEnum::Period15m => "15m"@,
            LongShortRatioPeriodEnum::Period30m => "30m"@,
            LongShortRatioPeriodEnum::Period1h => "1h"@,
            LongShortRatioPeriodEnum::Period2h => "2h"@,
            LongShortRatioPeriodEnum::Period4h => "4h"@,
            LongShortRatioPeriodEnum::Period6h => "6h"@,
            LongShortRatioPeriodEnum::Period12h => "12h"@,
            LongShortRatioPeriodEnum::Period1d => "1d"@,
        }
    }

    /// The value that the API knows by `s`, if any.
    pub open spec fn from_wire(s: Seq<char>) -> Option<LongShortRatioPeriodEnum> {
        if s == "5m"@ {
            Some(LongShortRatioPeriodEnum::Period5m)
        } else if s == "15m"@ {
            Some(LongShortRatioPeriodEnum::Period15m)
        } else if s == "30m"@ {
            Some(LongShortRatioPeriodEnum::Period30m)
        } else if s == "1h"@ {
            Some(LongShortRatioPeriodEnum::Period1h)
        } else if s == "2h"@ {
            Some(LongShortRatioPeriodEnum::Period2h)
        } else if s == "4h"@ {
            Some(LongShortRatioPeriodEnum::Period4h)
        } else if s == "6h"@ {
            Some(LongShortRatioPeriodEnum::Period6h)
        } else if s == "12h"@ {
            Some(LongShortRatioPeriodEnum::Period12h)
        } else if s == "1d"@ {
            Some(LongShortRatioPeriodEnum::Period1d)
        } else {
            None
        }
    }

    /// An optional value, as the query parameter that carries it.
    pub open spec fn opt_wire(v: Option<LongShortRatioPeriodEnum>) -> Option<QueryValueView> {
        match v {
            Some(e) => Some(QueryValueView::Text(e.wire_name())),
            None => None,
        }
    }

    /// The wire name of the value.
    #[must_use]
    pub fn as_str(&self) -> (s: &'static str)
        ensures
            s@ == self.wire_name(),
    {
        match self {
            LongShortRatioPeriodEnum::Period5m => "5m",
            LongShortRatioPeriodEnum::Period15m => "15m",
            LongShortRatioPeriodEnum::Period30m => "30m",
            LongShortRatioPeriodEnum::Period1h => "1h",
            LongShortRatioPeriodEnum::Period2h => "2h",
            LongShortRatioPeriodEnum::Period4h => "4h",
            LongShortRatioPeriodEnum::Period6h => "6h",
            LongShortRatioPeriodEnum::Period12h => "12h",
            LongShortRatioPeriodEnum::Period1d => "1d",
        }
    }

    /// The value whose wire name is `s`; for any other `s` the error says
    /// which text was refused.
    pub fn parse(s: &str) -> (r: Result<LongShortRatioPeriodEnum, String>)
        ensures
            match r {
                Ok(e) => LongShortRatioPeriodEnum::from_wire(s@) == Some(e),
                Err(msg) => LongShortRatioPeriodEnum::from_wire(s@) is None && msg@ == "invalid LongShortRatioPeriodEnum: "@ + s@,
            },
    {
        if str_eq(s, "5m") {
            Ok(LongShortRatioPeriodEnum::Period5m)
        } else if str_eq(s, "15m") {
            Ok(LongShortRatioPeriodEnum::Period15m)
        } else if str_eq(s, "30m") {
            Ok(LongShortRatioPeriodEnum::Period30m)
        } else if str_eq(s, "1h") {
            Ok(LongShortRatioPeriodEnum::Period1h)
        } else if str_eq(s, "2h") {
            Ok(LongShortRatioPeriodEnum::Period2h)
        } else if str_eq(s, "4h") {
            Ok(LongShortRatioPeriodEnum::Period4h)
        } else if str_eq(s, "6h") {
            Ok(LongShortRatioPeriodEnum::Period6h)
        } else if str_eq(s, "12h") {
            Ok(LongShortRatioPeriodEnum::Period12h)
        } else if str_eq(s, "1d") {
            Ok(LongShortRatioPeriodEnum::Period1d)
        } else {
            let mut msg = "invalid LongShortRatioPeriodEnum: ".to_owned();
            msg.append(s);
            Err(msg)
        }
    }

    /// Each value reads back from its wire name, and a wire name reads back
    /// only as the value that has it.
    pub proof fn lemma_wire_round_trip(e: LongShortRatioPeriodEnum, s: Seq<char>)
        ensures
            LongShortRatioPeriodEnum::from_wire(e.wire_name()) == Some(e),
            LongShortRatioPeriodEnum::from_wire(s) == Some(e) ==> s == e.wire_name(),
    {
        reveal_strlit("5m");
        reveal_strlit("15m");
        reveal_strlit("30m");
        reveal_strlit("1h");
        reveal_strlit("2h");
        reveal_strlit("4h");
        reveal_strlit("6h");
        reveal_strlit("12h");
        reveal_strlit("1d");
        assert("5m"@.len() == 2);
        assert("15m"@.len() == 3);
        assert("30m"@.len() == 3);
        assert("1h"@.len() == 2);
        assert("2h"@.len() == 2);
        assert("4h"@.len() == 2);
        assert("6h"@.len() == 2);
        assert("12h"@.len() == 3);
        assert("1d"@.len() == 2);
        assert("5m"@[0] == '5');
        assert("1h"@[0] == '1');
        assert("2h"@[0] == '2');
        assert("4h"@[0] == '4');
        assert("6h"@[0] == '6');
        assert("1d"@[0] == '1');
        assert("15m"@[0] == '1');
        assert("30m"@[0] == '3');
        assert("15m"@[1] == '5');
        assert("12h"@[1] == '2');
        assert("12h"@[0] == '1');
        assert("1h"@[1] == 'h');
        assert("1d"@[1] == 'd');
    }
}

impl std::str::FromStr for LongShortRatioPeriodEnum {
    type Err = String;

    fn from_str(s: &str) -> (r: Result<LongShortRatioPeriodEnum, String>)
        ensures
            match r {
                Ok(e) => LongShortRatioPeriodEnum::from_wire(s@) == Some(e),
                Err(msg) => LongShortRatioPeriodEnum::from_wire(s@) is None && msg@ == "invalid LongShortRatioPeriodEnum: "@ + s@,
            },
    {
        LongShortRatioPeriodEnum::parse(s)
    }
}

/// The values of `MarkPriceKlineCandlestickDataInterval` that the endpoint accepts.
#[derive(Debug, Clone, Copy, PartialEq, Eq, Structural)]
pub enum MarkPriceKlineCandlestickDataIntervalEnum {
    Interval1m,
    Interval3m,
    Interval5m,
    Interval15m,
    Interval30m,
    Interval1h,
    Interval2h,
    Interval4h,
    Interval6h,
    Interval8h,
    Interval12h,
    Interval1d,
    Interval3d,
    Interval1w,
    Interval1M,
}

impl MarkPriceKlineCandlestickDataIntervalEnum {
    /// The name by which the API knows the value.
    pub open spec fn wire_name(self) -> Seq<char> {
        match self {
            MarkPriceKlineCandlestickDataIntervalEnum::Interval1m => "1m"@,
            MarkPriceKlineCandlestickDataIntervalEnum::Interval3m => "3m"@,
            MarkPriceKlineCandlestickDataIntervalEnum::Interval5m => "5m"@,
            MarkPriceKlineCandlestickDataIntervalEnum::Interval15m => "15m"@,
            MarkPriceKlineCandlestickDataIntervalEnum::Interval30m => "30m"@,
            MarkPriceKlineCandlestickDataIntervalEnum::Interval1h => "1h"@,
            MarkPriceKlineCandlestickDataIntervalEnum::Interval2h => "2h"@,
            MarkPriceKlineCandlestickDataIntervalEnum::Interval4h => "4h"@,
            MarkPriceKlineCandlestickDataIntervalEnum::Interval6h => "6h"@,
            MarkPriceKlineCandlestickDataIntervalEnum::Interval8h => "8h"@,
            MarkPriceKlineCandlestickDataIntervalEnum::Interval12h => "12h"@,
            MarkPriceKlineCandlestickDataIntervalEnum::Interval1d => "1d"@,
            MarkPriceKlineCandlestickDataIntervalEnum::Interval3d => "3d"@,
            MarkPriceKlineCandlestickDataIntervalEnum::Interval1w => "1w"@,
            MarkPriceKlineCandlestickDataIntervalEnum::Interval1M => "1M"@,
        }
    }

    /// The value that the API knows by `s`, if any.
    pub open spec fn from_wire(s: Seq<char>) -> Option<MarkPriceKlineCandlestickDataIntervalEnum> {
        if s == "1m"@ {
            Some(MarkPriceKlineCandlestickDataIntervalEnum::Interval1m)
        } else if s == "3m"@ {
            Some(MarkPriceKlineCandlestickDataIntervalEnum::Interval3m)
        } else if s == "5m"@ {
            Some(MarkPriceKlineCandlestickDataIntervalEnum::Interval5m)
        } else if s == "15m"@ {
            Some(MarkPriceKlineCandlestickDataIntervalEnum::Interval15m)
        } else if s == "30m"@ {
            Some(MarkPriceKlineCandlestickDataIntervalEnum::Interval30m)
        } else if s == "1h"@ {
            Some(MarkPriceKlineCandlestickDataIntervalEnum::Interval1h)
        } else if s == "2h"@ {
            Some(MarkPriceKlineCandlestickDataIntervalEnum::Interval2h)
        } else if s == "4h"@ {
            Some(MarkPriceKlineCandlestickDataIntervalEnum::Interval4h)
        } else if s == "6h"@ {
            Some(MarkPriceKlineCandlestickDataIntervalEnum::Interval6h)
        } else if s == "8h"@ {
            Some(MarkPriceKlineCandlestickDataIntervalEnum::Interval8h)
        } else if s == "12h"@ {
            Some(MarkPriceKlineCandlestickDataIntervalEnum::Interval12h)
        } else if s == "1d"@ {
            Some(MarkPriceKlineCandlestickDataIntervalEnum::Interval1d)
        } else if s == "3d"@ {
            Some(MarkPriceKlineCandlestickDataIntervalEnum::Interval3d)
        } else if s == "1w"@ {
            Some(MarkPriceKlineCandlestickDataIntervalEnum::Interval1w)
        } else if s == "1M"@ {
            Some(MarkPriceKlineCandlestickDataIntervalEnum::Interval1M)
        } else {
            None
        }
    }

    /// An optional value, as the query parameter that carries it.
    pub open spec fn opt_wire(v: Option<MarkPriceKlineCandlestickDataIntervalEnum>) -> Option<QueryValueView> {
        match v {
            Some(e) => Some(QueryValueView::Text(e.wire_name())),
            None => None,
        }
    }

    /// The wire name of the value.
    #[must_use]
    pub fn as_str(&self) -> (s: &'static str)
        ensures
            s@ == self.wire_name(),
    {
        match self {
            MarkPriceKlineCandlestickDataIntervalEnum::Interval1m => "1m",
            MarkPriceKlineCandlestickDataIntervalEnum::Interval3m => "3m",
            MarkPriceKlineCandlestickDataIntervalEnum::Interval5m => "5m",
            MarkPriceKlineCandlestickDataIntervalEnum::Interval15m => "15m",
            MarkPriceKlineCandlestickDataIntervalEnum::Interval30m => "30m",
            MarkPriceKlineCandlestickDataIntervalEnum::Interval1h => "1h",
            MarkPriceKlineCandlestickDataIntervalEnum::Interval2h => "2h",
            MarkPriceKlineCandlestickDataIntervalEnum::Interval4h => "4h",
            MarkPriceKlineCandlestickDataIntervalEnum::Interval6h => "6h",
            MarkPriceKlineCandlestickDataIntervalEnum::Interval8h => "8h",
            MarkPriceKlineCandlestickDataIntervalEnum::Interval12h => "12h",
            MarkPriceKlineCandlestickDataIntervalEnum::Interval1d => "1d",
            MarkPriceKlineCandlestickDataIntervalEnum::Interval3d => "3d",
            MarkPriceKlineCandlestickDataIntervalEnum::Interval1w => "1w",
            MarkPriceKlineCandlestickDataIntervalEnum::Interval1M => "1M",
        }
    }

    /// The value whose wire name is `s`; for any other `s` the error says
    /// which text was refused.
    pub fn parse(s: &str) -> (r: Result<MarkPriceKlineCandlestickDataIntervalEnum, String>)
        ensures
            match r {
                Ok(e) => MarkPriceKlineCandlestickDataIntervalEnum::from_wire(s@) == Some(e),
                Err(msg) => MarkPriceKlineCandlestickDataIntervalEnum::from_wire(s@) is None && msg@ == "invalid MarkPriceKlineCandlestickDataIntervalEnum: "@ + s@,
            },
    {
        if str_eq(s, "1m") {
            Ok(MarkPriceKlineCandlestickDataIntervalEnum::Interval1m)
        } else if str_eq(s, "3m") {
            Ok(MarkPriceKlineCandlestickDataIntervalEnum::Interval3m)
        } else if str_eq(s, "5m") {
            Ok(MarkPriceKlineCandlestickDataIntervalEnum::Interval5m)
        } else if str_eq(s, "15m") {
            Ok(MarkPriceKlineCandlestickDataIntervalEnum::Interval15m)
        } else if str_eq(s, "30m") {
            Ok(MarkPriceKlineCandlestickDataIntervalEnum::Interval30m)
        } else if str_eq(s, "1h") {
            Ok(MarkPriceKlineCandlestickDataIntervalEnum::Interval1h)
        } else if str_eq(s, "2h") {
            Ok(MarkPriceKlineCandlestickDataIntervalEnum::Interval2h)
        } else if str_eq(s, "4h") {
            Ok(MarkPriceKlineCandlestickDataIntervalEnum::Interval4h)
        } else if str_eq(s, "6h") {
            Ok(MarkPriceKlineCandlestickDataIntervalEnum::Interval6h)
        } else if str_eq(s, "8h") {
            Ok(MarkPriceKlineCandlestickDataIntervalEnum::Interval8h)
        } else if str_eq(s, "12h") {
            Ok(MarkPriceKlineCandlestickDataIntervalEnum::Interval12h)
        } else if str_eq(s, "1d") {
            Ok(MarkPriceKlineCandlestickDataIntervalEnum::Interval1d)
        } else if str_eq(s, "3d") {
            Ok(MarkPriceKlineCandlestickDataIntervalEnum::Interval3d)
        } else if str_eq(s, "1w") {
            Ok(MarkPriceKlineCandlestickDataIntervalEnum::Interval1w)
        } else if str_eq(s, "1M") {
            Ok(MarkPriceKlineCandlestickDataIntervalEnum::Interval1M)
        } else {
            let mut msg = "invalid MarkPriceKlineCandlestickDataIntervalEnum: ".to_owned();
            msg.append(s);
            Err(msg)
        }
    }

    /// Each value reads back from its wire name, and a wire name reads back
    /// only as the value that has it.
    pub proof fn lemma_wire_round_trip(e: MarkPriceKlineCandlestickDataIntervalEnum, s: Seq<char>)
        ensures
            MarkPriceKlineCandlestickDataIntervalEnum::from_wire(e.wire_name()) == Some(e),
            MarkPriceKlineCandlestickDataIntervalEnum::from_wire(s) == Some(e) ==> s == e.wire_name(),
    {
        reveal_strlit("1m");
        reveal_strlit("3m");
        reveal_strlit("5m");
        reveal_strlit("15m");
        reveal_strlit("30m");
        reveal_strlit("1h");
        reveal_strlit("2h");
        reveal_strlit("4h");
        reveal_strlit("6h");
        reveal_strlit("8h");
        reveal_strlit("12h");
        reveal_strlit("1d");
        reveal_strlit("3d");
        reveal_strlit("1w");
        reveal_strlit("1M");
        assert("1m"@.len() == 2);
        assert("3m"@.len() == 2);
        assert("5m"@.len() == 2);
        assert("15m"@.len() == 3);
        assert("30m"@.len() == 3);
        assert("1h"@.len() == 2);
        assert("2h"@.len() == 2);
        assert("4h"@.len() == 2);
        assert("6h"@.len() == 2);
        assert("8h"@.len() == 2);
        assert("12h"@.len() == 3);
        assert("1d"@.len() == 2);
        assert("3d"@.len() == 2);
        assert("1w"@.len() == 2);
        assert("1M"@.len() == 2);
        assert("1m"@[0] == '1');
        assert("3m"@[0] == '3');
        assert("5m"@[0] == '5');
        assert("1m"@[1] == 'm');
        assert("1h"@[1] == 'h');
        assert("2h"@[0] == '2');
        assert("4h"@[0] == '4');
        assert("6h"@[0] == '6');
        assert("8h"@[0] == '8');
        assert("1d"@[1] == 'd');
        assert("3d"@[0] == '3');
        assert("1w"@[1] == 'w');
        assert("1M"@[1] == 'M');
        assert("1h"@[0] == '1');
        assert("1d"@[0] == '1');
        assert("3m"@[1] == 'm');
        assert("3d"@[1] == 'd');
        assert("1w"@[0] == '1');
        assert("1M"@[0] == '1');
        assert("15m"@[0] == '1');
        assert("30m"@[0] == '3');
        assert("15m"@[1] == '5');
        assert("12h"@[1] == '2');
        assert("12h"@[0] == '1');
    }
}

impl std::str::FromStr for MarkPriceKlineCandlestickDataIntervalEnum {
    type Err = String;

    fn from_str(s: &str) -> (r: Result<MarkPriceKlineCandlestickDataIntervalEnum, String>)
        ensures
            match r {
                Ok(e) => MarkPriceKlineCandlestickDataIntervalEnum::from_wire(s@) == Some(e),
                Err(msg) => MarkPriceKlineCandlestickDataIntervalEnum::from_wire(s@) is None && msg@ == "invalid MarkPriceKlineCandlestickDataIntervalEnum: "@ + s@,
            },
    {
        MarkPriceKlineCandlestickDataIntervalEnum::parse(s)
    }
}

/// The values of `OpenInterestStatisticsPeriod` that the endpoint accepts.
#[derive(Debug, Clone, Copy, PartialEq, Eq, Structural)]
pub enum OpenInterestStatisticsPeriodEnum {
    Period5m,
    Period15m,
    Period30m,
    Period1h,
    Period2h,
    Period4h,
    Period6h,
    Period12h,
    Period1d,
}

impl OpenInterestStatisticsPeriodEnum {
    /// The name by which the API knows the value.
    pub open spec fn wire_name(self) -> Seq<char> {
        match self {
            OpenInterestStatisticsPeriodEnum::Period5m => "5m"@,
            OpenInterestStatisticsPeriodEnum::Period15m => "15m"@,
            OpenInterestStatisticsPeriodEnum::Period30m => "30m"@,
            OpenInterestStatisticsPeriodEnum::Period1h => "1h"@,
            OpenInterestStatisticsPeriodEnum::Period2h => "2h"@,
            OpenInterestStatisticsPeriodEnum::Period4h => "4h"@,
            OpenInterestStatisticsPeriodEnum::Period6h => "6h"@,
            OpenInterestStatisticsPeriodEnum::Period12h => "12h"@,
            OpenInterestStatisticsPeriodEnum::Period1d => "1d"@,
        }
    }

    /// The value that the API knows by `s`, if any.
    pub open spec fn from_wire(s: Seq<char>) -> Option<OpenInterestStatisticsPeriodEnum> {
        if s == "5m"@ {
            Some(OpenInterestStatisticsPeriodEnum::Period5m)
        } else if s == "15m"@ {
            Some(OpenInterestStatisticsPeriodEnum::Period15m)
        } else if s == "30m"@ {
            Some(OpenInterestStatisticsPeriodEnum::Period30m)
        } else if s == "1h"@ {
            Some(OpenInterestStatisticsPeriodEnum::Period1h)
        } else if s == "2h"@ {
            Some(OpenInterestStatisticsPeriodEnum::Period2h)
        } else if s == "4h"@ {
            Some(OpenInterestStatisticsPeriodEnum::Period4h)
        } else if s == "6h"@ {
            Some(OpenInterestStatisticsPeriodEnum::Period6h)
        } else if s == "12h"@ {
            Some(OpenInterestStatisticsPeriodEnum::Period12h)
        } else if s == "1d"@ {
            Some(OpenInterestStatisticsPeriodEnum::Period1d)
        } else {
            None
        }
    }

    /// An optional value, as the query parameter that carries it.
    pub open spec fn opt_wire(v: Option<OpenInterestStatisticsPeriodEnum>) -> Option<QueryValueView> {
        match v {
            Some(e) => Some(QueryValueView::Text(e.wire_name())),
            None => None,
        }
    }

    /// The wire name of the value.
    #[must_use]
    pub fn as_str(&self) -> (s: &'static str)
        ensures
            s@ == self.wire_name(),
    {
        match self {
            OpenInterestStatisticsPeriodEnum::Period5m => "5m",
            OpenInterestStatisticsPeriodEnum::Period15m => "15m",
            OpenInterestStatisticsPeriodEnum::Period30m => "30m",
            OpenInterestStatisticsPeriodEnum::Period1h => "1h",
            OpenInterestStatisticsPeriodEnum::Period2h => "2h",
            OpenInterestStatisticsPeriodEnum::Period4h => "4h",
            OpenInterestStatisticsPeriodEnum::Period6h => "6h",
            OpenInterestStatisticsPeriodEnum::Period12h => "12h",
            OpenInterestStatisticsPeriodEnum::Period1d => "1d",
        }
    }

    /// The value whose wire name is `s`; for any other `s` the error says
    /// which text was refused.
    pub fn parse(s: &str) -> (r: Result<OpenInterestStatisticsPeriodEnum, String>)
        ensures
            match r {
                Ok(e) => OpenInterestStatisticsPeriodEnum::from_wire(s@) == Some(e),
                Err(msg) => OpenInterestStatisticsPeriodEnum::from_wire(s@) is None && msg@ == "invalid OpenInterestStatisticsPeriodEnum: "@ + s@,
            },
    {
        if str_eq(s, "5m") {
            Ok(OpenInterestStatisticsPeriodEnum::Period5m)
        } else if str_eq(s, "15m") {
            Ok(OpenInterestStatisticsPeriodEnum::Period15m)
        } else if str_eq(s, "30m") {
            Ok(OpenInterestStatisticsPeriodEnum::Period30m)
        } else if str_eq(s, "1h") {
            Ok(OpenInterestStatisticsPeriodEnum::Period1h)
        } else if str_eq(s, "2h") {
            Ok(OpenInterestStatisticsPeriodEnum::Period2h)
        } else if str_eq(s, "4h") {
            Ok(OpenInterestStatisticsPeriodEnum::Period4h)
        } else if str_eq(s, "6h") {
            Ok(OpenInterestStatisticsPeriodEnum::Period6h)
        } else if str_eq(s, "12h") {
            Ok(OpenInterestStatisticsPeriodEnum::Period12h)
        } else if str_eq(s, "1d") {
            Ok(OpenInterestStatisticsPeriodEnum::Period1d)
        } else {
            let mut msg = "invalid OpenInterestStatisticsPeriodEnum: ".to_owned();
            msg.append(s);
            Err(msg)
        }
    }

    /// Each value reads back from its wire name, and a wire name reads back
    /// only as the value that has it.
    pub proof fn lemma_wire_round_trip(e: OpenInterestStatisticsPeriodEnum, s: Seq<char>)
        ensures
            OpenInterestStatisticsPeriodEnum::from_wire(e.wire_name()) == Some(e),
            OpenInterestStatisticsPeriodEnum::from_wire(s) == Some(e) ==> s == e.wire_name(),
    {
        reveal_strlit("5m");
        reveal_strlit("15m");
        reveal_strlit("30m");
        reveal_strlit("1h");
        reveal_strlit("2h");
        reveal_strlit("4h");
        reveal_strlit("6h");
        reveal_strlit("12h");
        reveal_strlit("1d");
        assert("5m"@.len() == 2);
        assert("15m"@.len() == 3);
        assert("30m"@.len() == 3);
        assert("1h"@.len() == 2);
        assert("2h"@.len() == 2);
        assert("4h"@.len() == 2);
        assert("6h"@.len() == 2);
        assert("12h"@.len() == 3);
        assert("1d"@.len() == 2);
        assert("5m"@[0] == '5');
        assert("1h"@[0] == '1');
        assert("2h"@[0] == '2');
        assert("4h"@[0] == '4');
        assert("6h"@[0] == '6');
        assert("1d"@[0] == '1');
        assert("15m"@[0] == '1');
        assert("30m"@[0] == '3');
        assert("15m"@[1] == '5');
        assert("12h"@[1] == '2');
        assert("12h"@[0] == '1');
        assert("1h"@[1] == 'h');
        assert("1d"@[1] == 'd');
    }
}

impl std::str::FromStr for OpenInterestStatisticsPeriodEnum {
    type Err = String;

    fn from_str(s: &str) -> (r: Result<OpenInterestStatisticsPeriodEnum, String>)
        ensures
            match r {
                Ok(e) => OpenInterestStatisticsPeriodEnum::from_wire(s@) == Some(e),
                Err(msg) => OpenInterestStatisticsPeriodEnum::from_wire(s@) is None && msg@ == "invalid OpenInterestStatisticsPeriodEnum: "@ + s@,
            },
    {
        OpenInterestStatisticsPeriodEnum::parse(s)
    }
}

/// The values of `PremiumIndexKlineDataInterval` that the endpoint accepts.
#[derive(Debug, Clone, Copy, PartialEq, Eq, Structural)]
pub enum PremiumIndexKlineDataIntervalEnum {
    Interval1m,
    Interval3m,
    Interval5m,
    Interval15m,
    Interval30m,
    Interval1h,
    Interval2h,
    Interval4h,
    Interval6h,
    Interval8h,
    Interval12h,
    Interval1d,
    Interval3d,
    Interval1w,
    Interval1M,
}

impl PremiumIndexKlineDataIntervalEnum {
    /// The name by which the API knows the value.
    pub open spec fn wire_name(self) -> Seq<char> {
        match self {
            PremiumIndexKlineDataIntervalEnum::Interval1m => "1m"@,
            PremiumIndexKlineDataIntervalEnum::Interval3m => "3m"@,
            PremiumIndexKlineDataIntervalEnum::Interval5m => "5m"@,
            PremiumIndexKlineDataIntervalEnum::Interval15m => "15m"@,
            PremiumIndexKlineDataIntervalEnum::Interval30m => "30m"@,
            PremiumIndexKlineDataIntervalEnum::Interval1h => "1h"@,
            PremiumIndexKlineDataIntervalEnum::Interval2h => "2h"@,
            PremiumIndexKlineDataIntervalEnum::Interval4h => "4h"@,
            PremiumIndexKlineDataIntervalEnum::Interval6h => "6h"@,
            PremiumIndexKlineDataIntervalEnum::Interval8h => "8h"@,
            PremiumIndexKlineDataIntervalEnum::Interval12h => "12h"@,
            PremiumIndexKlineDataIntervalEnum::Interval1d => "1d"@,
            PremiumIndexKlineDataIntervalEnum::Interval3d => "3d"@,
            PremiumIndexKlineDataIntervalEnum::Interval1w => "1w"@,
            PremiumIndexKlineDataIntervalEnum::Interval1M => "1M"@,
        }
    }

    /// The value that the API knows by `s`, if any.
    pub open spec fn from_wire(s: Seq<char>) -> Option<PremiumIndexKlineDataIntervalEnum> {
        if s == "1m"@ {
            Some(PremiumIndexKlineDataIntervalEnum::Interval1m)
        } else if s == "3m"@ {
            Some(PremiumIndexKlineDataIntervalEnum::Interval3m)
        } else if s == "5m"@ {
            Some(PremiumIndexKlineDataIntervalEnum::Interval5m)
        } else if s == "15m"@ {
            Some(PremiumIndexKlineDataIntervalEnum::Interval15m)
        } else if s == "30m"@ {
            Some(PremiumIndexKlineDataIntervalEnum::Interval30m)
        } else if s == "1h"@ {
            Some(PremiumIndexKlineDataIntervalEnum::Interval1h)
        } else if s == "2h"@ {
            Some(PremiumIndexKlineDataIntervalEnum::Interval2h)
        } else if s == "4h"@ {
            Some(PremiumIndexKlineDataIntervalEnum::Interval4h)
        } else if s == "6h"@ {
            Some(PremiumIndexKlineDataIntervalEnum::Interval6h)
        } else if s == "8h"@ {
            Some(PremiumIndexKlineDataIntervalEnum::Interval8h)
        } else if s == "12h"@ {
            Some(PremiumIndexKlineDataIntervalEnum::Interval12h)
        } else if s == "1d"@ {
            Some(PremiumIndexKlineDataIntervalEnum::Interval1d)
        } else if s == "3d"@ {
            Some(PremiumIndexKlineDataIntervalEnum::Interval3d)
        } else if s == "1w"@ {
            Some(PremiumIndexKlineDataIntervalEnum::Interval1w)
        } else if s == "1M"@ {
            Some(PremiumIndexKlineDataIntervalEnum::Interval1M)
        } else {
            None
        }
    }

    /// An optional value, as the query parameter that carries it.
    pub open spec fn opt_wire(v: Option<PremiumIndexKlineDataIntervalEnum>) -> Option<QueryValueView> {
        match v {
            Some(e) => Some(QueryValueView::Text(e.wire_name())),
            None => None,
        }
    }

    /// The wire name of the value.
    #[must_use]
    pub fn as_str(&self) -> (s: &'static str)
        ensures
            s@ == self.wire_name(),
    {
        match self {
            PremiumIndexKlineDataIntervalEnum::Interval1m => "1m",
            PremiumIndexKlineDataIntervalEnum::Interval3m => "3m",
            PremiumIndexKlineDataIntervalEnum::Interval5m => "5m",
            PremiumIndexKlineDataIntervalEnum::Interval15m => "15m",
            PremiumIndexKlineDataIntervalEnum::Interval30m => "30m",
            PremiumIndexKlineDataIntervalEnum::Interval1h => "1h",
            PremiumIndexKlineDataIntervalEnum::Interval2h => "2h",
            PremiumIndexKlineDataIntervalEnum::Interval4h => "4h",
            PremiumIndexKlineDataIntervalEnum::Interval6h => "6h",
            PremiumIndexKlineDataIntervalEnum::Interval8h => "8h",
            PremiumIndexKlineDataIntervalEnum::Interval12h => "12h",
            PremiumIndexKlineDataIntervalEnum::Interval1d => "1d",
            PremiumIndexKlineDataIntervalEnum::Interval3d => "3d",
            PremiumIndexKlineDataIntervalEnum::Interval1w => "1w",
            PremiumIndexKlineDataIntervalEnum::Interval1M => "1M",
        }
    }

    /// The value whose wire name is `s`; for any other `s` the error says
    /// which text was refused.
    pub fn parse(s: &str) -> (r: Result<PremiumIndexKlineDataIntervalEnum, String>)
        ensures
            match r {
                Ok(e) => PremiumIndexKlineDataIntervalEnum::from_wire(s@) == Some(e),
                Err(msg) => PremiumIndexKlineDataIntervalEnum::from_wire(s@) is None && msg@ == "invalid PremiumIndexKlineDataIntervalEnum: "@ + s@,
            },
    {
        if str_eq(s, "1m") {
            Ok(PremiumIndexKlineDataIntervalEnum::Interval1m)
        } else if str_eq(s, "3m") {
            Ok(PremiumIndexKlineDataIntervalEnum::Interval3m)
        } else if str_eq(s, "5m") {
            Ok(PremiumIndexKlineDataIntervalEnum::Interval5m)
        } else if str_eq(s, "15m") {
            Ok(PremiumIndexKlineDataIntervalEnum::Interval15m)
        } else if str_eq(s, "30m") {
            Ok(PremiumIndexKlineDataIntervalEnum::Interval30m)
        } else if str_eq(s, "1h") {
            Ok(PremiumIndexKlineDataIntervalEnum::Interval1h)
        } else if str_eq(s, "2h") {
            Ok(PremiumIndexKlineDataIntervalEnum::Interval2h)
        } else if str_eq(s, "4h") {
            Ok(PremiumIndexKlineDataIntervalEnum::Interval4h)
        } else if str_eq(s, "6h") {
            Ok(PremiumIndexKlineDataIntervalEnum::Interval6h)
        } else if str_eq(s, "8h") {
            Ok(PremiumIndexKlineDataIntervalEnum::Interval8h)
        } else if str_eq(s, "12h") {
            Ok(PremiumIndexKlineDataIntervalEnum::Interval12h)
        } else if str_eq(s, "1d") {
            Ok(PremiumIndexKlineDataIntervalEnum::Interval1d)
        } else if str_eq(s, "3d") {
            Ok(PremiumIndexKlineDataIntervalEnum::Interval3d)
        } else if str_eq(s, "1w") {
            Ok(PremiumIndexKlineDataIntervalEnum::Interval1w)
        } else if str_eq(s, "1M") {
            Ok(PremiumIndexKlineDataIntervalEnum::Interval1M)
        } else {
            let mut msg = "invalid PremiumIndexKlineDataIntervalEnum: ".to_owned();
            msg.append(s);
            Err(msg)
        }
    }

    /// Each value reads back from its wire name, and a wire name reads back
    /// only as the value that has it.
    pub proof fn lemma_wire_round_trip(e: PremiumIndexKlineDataIntervalEnum, s: Seq<char>)
        ensures
            PremiumIndexKlineDataIntervalEnum::from_wire(e.wire_name()) == Some(e),
            PremiumIndexKlineDataIntervalEnum::from_wire(s) == Some(e) ==> s == e.wire_name(),
    {
        reveal_strlit("1m");
        reveal_strlit("3m");
        reveal_strlit("5m");
        reveal_strlit("15m");
        reveal_strlit("30m");
        reveal_strlit("1h");
        reveal_strlit("2h");
        reveal_strlit("4h");
        reveal_strlit("6h");
        reveal_strlit("8h");
        reveal_strlit("12h");
        reveal_strlit("1d");
        reveal_strlit("3d");
        reveal_strlit("1w");
        reveal_strlit("1M");
        assert("1m"@.len() == 2);
        assert("3m"@.len() == 2);
        assert("5m"@.len() == 2);
        assert("15m"@.len() == 3);
        assert("30m"@.len() == 3);
        assert("1h"@.len() == 2);
        assert("2h"@.len() == 2);
        assert("4h"@.len() == 2);
        assert("6h"@.len() == 2);
        assert("8h"@.len() == 2);
        assert("12h"@.len() == 3);
        assert("1d"@.len() == 2);
        assert("3d"@.len() == 2);
        assert("1w"@.len() == 2);
        assert("1M"@.len() == 2);
        assert("1m"@[0] == '1');
        assert("3m"@[0] == '3');
        assert("5m"@[0] == '5');
        assert("1m"@[1] == 'm');
        assert("1h"@[1] == 'h');
        assert("2h"@[0] == '2');
        assert("4h"@[0] == '4');
        assert("6h"@[0] == '6');
        assert("8h"@[0] == '8');
        assert("1d"@[1] == 'd');
        assert("3d"@[0] == '3');
        assert("1w"@[1] == 'w');
        assert("1M"@[1] == 'M');
        assert("1h"@[0] == '1');
        assert("1d"@[0] == '1');
        assert("3m"@[1] == 'm');
        assert("3d"@[1] == 'd');
        assert("1w"@[0] == '1');
        assert("1M"@[0] == '1');
        assert("15m"@[0] == '1');
        assert("30m"@[0] == '3');
        assert("15m"@[1] == '5');
        assert("12h"@[1] == '2');
        assert("12h"@[0] == '1');
    }
}

impl std::str::FromStr for PremiumIndexKlineDataIntervalEnum {
    type Err = String;

    fn from_str(s: &str) -> (r: Result<PremiumIndexKlineDataIntervalEnum, String>)
        ensures
            match r {
                Ok(e) => PremiumIndexKlineDataIntervalEnum::from_wire(s@) == Some(e),
                Err(msg) => PremiumIndexKlineDataIntervalEnum::from_wire(s@) is None && msg@ == "invalid PremiumIndexKlineDataIntervalEnum: "@ + s@,
            },
    {
        PremiumIndexKlineDataIntervalEnum::parse(s)
    }
}

/// The values of `TakerBuySellVolumePeriod` that the endpoint accepts.
#[derive(Debug, Clone, Copy, PartialEq, Eq, Structural)]
pub enum TakerBuySellVolumePeriodEnum {
    Period5m,
    Period15m,
    Period30m,
    Period1h,
    Period2h,
    Period4h,
    Period6h,
    Period12h,
    Period1d,
}

impl TakerBuySellVolumePeriodEnum {
    /// The name by which the API knows the value.
    pub open spec fn wire_name(self) -> Seq<char> {
        match self {
            TakerBuySellVolumePeriodEnum::Period5m => "5m"@,
            TakerBuySellVolumePeriodEnum::Period15m => "15m"@,
            TakerBuySellVolumePeriodEnum::Period30m => "30m"@,
            TakerBuySellVolumePeriodEnum::Period1h => "1h"@,
            TakerBuySellVolumePeriodEnum::Period2h => "2h"@,
            TakerBuySellVolumePeriodEnum::Period4h => "4h"@,
            TakerBuySellVolumePeriodEnum::Period6h => "6h"@,
            TakerBuySellVolumePeriodEnum::Period12h => "12h"@,
            TakerBuySellVolumePeriodEnum::Period1d => "1d"@,
        }
    }

    /// The value that the API knows by `s`, if any.
    pub open spec fn from_wire(s: Seq<char>) -> Option<TakerBuySellVolumePeriodEnum> {
        if s == "5m"@ {
            Some(TakerBuySellVolumePeriodEnum::Period5m)
        } else if s == "15m"@ {
            Some(TakerBuySellVolumePeriodEnum::Period15m)
        } else if s == "30m"@ {
            Some(TakerBuySellVolumePeriodEnum::Period30m)
        } else if s == "1h"@ {
            Some(TakerBuySellVolumePeriodEnum::Period1h)
        } else if s == "2h"@ {
            Some(TakerBuySellVolumePeriodEnum::Period2h)
        } else if s == "4h"@ {
            Some(TakerBuySellVolumePeriodEnum::Period4h)
        } else if s == "6h"@ {
            Some(TakerBuySellVolumePeriodEnum::Period6h)
        } else if s == "12h"@ {
            Some(TakerBuySellVolumePeriodEnum::Period12h)
        } else if s == "1d"@ {
            Some(TakerBuySellVolumePeriodEnum::Period1d)
        } else {
            None
        }
    }

    /// An optional value, as the query parameter that carries it.
    pub open spec fn opt_wire(v: Option<TakerBuySellVolumePeriodEnum>) -> Option<QueryValueView> {
        match v {
            Some(e) => Some(QueryValueView::Text(e.wire_name())),
            None => None,
        }
    }

    /// The wire name of the value.
    #[must_use]
    pub fn as_str(&self) -> (s: &'static str)
        ensures
            s@ == self.wire_name(),
    {
        match self {
            TakerBuySellVolumePeriodEnum::Period5m => "5m",
            TakerBuySellVolumePeriodEnum::Period15m => "15m",
            TakerBuySellVolumePeriodEnum::Period30m => "30m",
            TakerBuySellVolumePeriodEnum::Period1h => "1h",
            TakerBuySellVolumePeriodEnum::Period2h => "2h",
            TakerBuySellVolumePeriodEnum::Period4h => "4h",
            TakerBuySellVolumePeriodEnum::Period6h => "6h",
            TakerBuySellVolumePeriodEnum::Period12h => "12h",
            TakerBuySellVolumePeriodEnum::Period1d => "1d",
        }
    }

    /// The value whose wire name is `s`; for any other `s` the error says
    /// which text was refused.
    pub fn parse(s: &str) -> (r: Result<TakerBuySellVolumePeriodEnum, String>)
        ensures
            match r {
                Ok(e) => TakerBuySellVolumePeriodEnum::from_wire(s@) == Some(e),
                Err(msg) => TakerBuySellVolumePeriodEnum::from_wire(s@) is None && msg@ == "invalid TakerBuySellVolumePeriodEnum: "@ + s@,
            },
    {
        if str_eq(s, "5m") {
            Ok(TakerBuySellVolumePeriodEnum::Period5m)
        } else if str_eq(s, "15m") {
            Ok(TakerBuySellVolumePeriodEnum::Period15m)
        } else if str_eq(s, "30m") {
            Ok(TakerBuySellVolumePeriodEnum::Period30m)
        } else if str_eq(s, "1h") {
            Ok(TakerBuySellVolumePeriodEnum::Period1h)
        } else if str_eq(s, "2h") {
            Ok(TakerBuySellVolumePeriodEnum::Period2h)
        } else if str_eq(s, "4h") {
            Ok(TakerBuySellVolumePeriodEnum::Period4h)
        } else if str_eq(s, "6h") {
            Ok(TakerBuySellVolumePeriodEnum::Period6h)
        } else if str_eq(s, "12h") {
            Ok(TakerBuySellVolumePeriodEnum::Period12h)
        } else if str_eq(s, "1d") {
            Ok(TakerBuySellVolumePeriodEnum::Period1d)
        } else {
            let mut msg = "invalid TakerBuySellVolumePeriodEnum: ".to_owned();
            msg.append(s);
            Err(msg)
        }
    }

    /// Each value reads back from its wire name, and a wire name reads back
    /// only as the value that has it.
    pub proof fn lemma_wire_round_trip(e: TakerBuySellVolumePeriodEnum, s: Seq<char>)
        ensures
            TakerBuySellVolumePeriodEnum::from_wire(e.wire_name()) == Some(e),
            TakerBuySellVolumePeriodEnum::from_wire(s) == Some(e) ==> s == e.wire_name(),
    {
        reveal_strlit("5m");
        reveal_strlit("15m");
        reveal_strlit("30m");
        reveal_strlit("1h");
        reveal_strlit("2h");
        reveal_strlit("4h");
        reveal_strlit("6h");
        reveal_strlit("12h");
        reveal_strlit("1d");
        assert("5m"@.len() == 2);
        assert("15m"@.len() == 3);
        assert("30m"@.len() == 3);
        assert("1h"@.len() == 2);
        assert("2h"@.len() == 2);
        assert("4h"@.len() == 2);
        assert("6h"@.len() == 2);
        assert("12h"@.len() == 3);
        assert("1d"@.len() == 2);
        assert("5m"@[0] == '5');
        assert("1h"@[0] == '1');
        assert("2h"@[0] == '2');
        assert("4h"@[0] == '4');
        assert("6h"@[0] == '6');
        assert("1d"@[0] == '1');
        assert("15m"@[0] == '1');
        assert("30m"@[0] == '3');
        assert("15m"@[1] == '5');
        assert("12h"@[1] == '2');
        assert("12h"@[0] == '1');
        assert("1h"@[1] == 'h');
        assert("1d"@[1] == 'd');
    }
}

impl std::str::FromStr for TakerBuySellVolumePeriodEnum {
    type Err = String;

    fn from_str(s: &str) -> (r: Result<TakerBuySellVolumePeriodEnum, String>)
        ensures
            match r {
                Ok(e) => TakerBuySellVolumePeriodEnum::from_wire(s@) == Some(e),
                Err(msg) => TakerBuySellVolumePeriodEnum::from_wire(s@) is None && msg@ == "invalid TakerBuySellVolumePeriodEnum: "@ + s@,
            },
    {
        TakerBuySellVolumePeriodEnum::parse(s)
    }
}

/// The values of `TopTraderLongShortRatioAccountsPeriod` that the endpoint accepts.
#[derive(Debug, Clone, Copy, PartialEq, Eq, Structural)]
pub enum TopTraderLongShortRatioAccountsPeriodEnum {
    Period5m,
    Period15m,
    Period30m,
    Period1h,
    Period2h,
    Period4h,
    Period6h,
    Period12h,
    Period1d,
}

impl TopTraderLongShortRatioAccountsPeriodEnum {
    /// The name by which the API knows the value.
    pub open spec fn wire_name(self) -> Seq<char> {
        match self {
            TopTraderLongShortRatioAccountsPeriodEnum::Period5m => "5m"@,
            TopTraderLongShortRatioAccountsPeriodEnum::Period15m => "15m"@,
            TopTraderLongShortRatioAccountsPeriodEnum::Period30m => "30m"@,
            TopTraderLongShortRatioAccountsPeriodEnum::Period1h => "1h"@,
            TopTraderLongShortRatioAccountsPeriodEnum::Period2h => "2h"@,
            TopTraderLongShortRatioAccountsPeriodEnum::Period4h => "4h"@,
            TopTraderLongShortRatioAccountsPeriodEnum::Period6h => "6h"@,
            TopTraderLongShortRatioAccountsPeriodEnum::Period12h => "12h"@,
            TopTraderLongShortRatioAccountsPeriodEnum::Period1d => "1d"@,
        }
    }

    /// The value that the API knows by `s`, if any.
    pub open spec fn from_wire(s: Seq<char>) -> Option<TopTraderLongShortRatioAccountsPeriodEnum> {
        if s == "5m"@ {
            Some(TopTraderLongShortRatioAccountsPeriodEnum::Period5m)
        } else if s == "15m"@ {
            Some(TopTraderLongShortRatioAccountsPeriodEnum::Period15m)
        } else if s == "30m"@ {
            Some(TopTraderLongShortRatioAccountsPeriodEnum::Period30m)
        } else if s == "1h"@ {
            Some(TopTraderLongShortRatioAccountsPeriodEnum::Period1h)
        } else if s == "2h"@ {
            Some(TopTraderLongShortRatioAccountsPeriodEnum::Period2h)
        } else if s == "4h"@ {
            Some(TopTraderLongShortRatioAccountsPeriodEnum::Period4h)
        } else if s == "6h"@ {
            Some(TopTraderLongShortRatioAccountsPeriodEnum::Period6h)
        } else if s == "12h"@ {
            Some(TopTraderLongShortRatioAccountsPeriodEnum::Period12h)
        } else if s == "1d"@ {
            Some(TopTraderLongShortRatioAccountsPeriodEnum::Period1d)
        } else {
            None
        }
    }

    /// An optional value, as the query parameter that carries it.
    pub open spec fn opt_wire(v: Option<TopTraderLongShortRatioAccountsPeriodEnum>) -> Option<QueryValueView> {
        match v {
            Some(e) => Some(QueryValueView::Text(e.wire_name())),
            None => None,
        }
    }

    /// The wire name of the value.
    #[must_use]
    pub fn as_str(&self) -> (s: &'static str)
        ensures
            s@ == self.wire_name(),
    {
        match self {
            TopTraderLongShortRatioAccountsPeriodEnum::Period5m => "5m",
            TopTraderLongShortRatioAccountsPeriodEnum::Period15m => "15m",
            TopTraderLongShortRatioAccountsPeriodEnum::Period30m => "30m",
            TopTraderLongShortRatioAccountsPeriodEnum::Period1h => "1h",
            TopTraderLongShortRatioAccountsPeriodEnum::Period2h => "2h",
            TopTraderLongShortRatioAccountsPeriodEnum::Period4h => "4h",
            TopTraderLongShortRatioAccountsPeriodEnum::Period6h => "6h",
            TopTraderLongShortRatioAccountsPeriodEnum::Period12h => "12h",
            TopTraderLongShortRatioAccountsPeriodEnum::Period1d => "1d",
        }
    }

    /// The value whose wire name is `s`; for any other `s` the error says
    /// which text was refused.
    pub fn parse(s: &str) -> (r: Result<TopTraderLongShortRatioAccountsPeriodEnum, String>)
        ensures
            match r {
                Ok(e) => TopTraderLongShortRatioAccountsPeriodEnum::from_wire(s@) == Some(e),
                Err(msg) => TopTraderLongShortRatioAccountsPeriodEnum::from_wire(s@) is None && msg@ == "invalid TopTraderLongShortRatioAccountsPeriodEnum: "@ + s@,
            },
    {
        if str_eq(s, "5m") {
            Ok(TopTraderLongShortRatioAccountsPeriodEnum::Period5m)
        } else if str_eq(s, "15m") {
            Ok(TopTraderLongShortRatioAccountsPeriodEnum::Period15m)
        } else if str_eq(s, "30m") {
            Ok(TopTraderLongShortRatioAccountsPeriodEnum::Period30m)
        } else if str_eq(s, "1h") {
            Ok(TopTraderLongShortRatioAccountsPeriodEnum::Period1h)
        } else if str_eq(s, "2h") {
            Ok(TopTraderLongShortRatioAccountsPeriodEnum::Period2h)
        } else if str_eq(s, "4h") {
            Ok(TopTraderLongShortRatioAccountsPeriodEnum::Period4h)
        } else if str_eq(s, "6h") {
            Ok(TopTraderLongShortRatioAccountsPeriodEnum::Period6h)
        } else if str_eq(s, "12h") {
            Ok(TopTraderLongShortRatioAccountsPeriodEnum::Period12h)
        } else if str_eq(s, "1d") {
            Ok(TopTraderLongShortRatioAccountsPeriodEnum::Period1d)
        } else {
            let mut msg = "invalid TopTraderLongShortRatioAccountsPeriodEnum: ".to_owned();
            msg.append(s);
            Err(msg)
        }
    }

    /// Each value reads back from its wire name, and a wire name reads back
    /// only as the value that has it.
    pub proof fn lemma_wire_round_trip(e: TopTraderLongShortRatioAccountsPeriodEnum, s: Seq<char>)
        ensures
            TopTraderLongShortRatioAccountsPeriodEnum::from_wire(e.wire_name()) == Some(e),
            TopTraderLongShortRatioAccountsPeriodEnum::from_wire(s) == Some(e) ==> s == e.wire_name(),
    {
        reveal_strlit("5m");
        reveal_strlit("15m");
        reveal_strlit("30m");
        reveal_strlit("1h");
        reveal_strlit("2h");
        reveal_strlit("4h");
        reveal_strlit("6h");
        reveal_strlit("12h");
        reveal_strlit("1d");
        assert("5m"@.len() == 2);
        assert("15m"@.len() == 3);
        assert("30m"@.len() == 3);
        assert("1h"@.len() == 2);
        assert("2h"@.len() == 2);
        assert("4h"@.len() == 2);
        assert("6h"@.len() == 2);
        assert("12h"@.len() == 3);
        assert("1d"@.len() == 2);
        assert("5m"@[0] == '5');
        assert("1h"@[0] == '1');
        assert("2h"@[0] == '2');
        assert("4h"@[0] == '4');
        assert("6h"@[0] == '6');
        assert("1d"@[0] == '1');
        assert("15m"@[0] == '1');
        assert("30m"@[0] == '3');
        assert("15m"@[1] == '5');
        assert("12h"@[1] == '2');
        assert("12h"@[0] == '1');
        assert("1h"@[1] == 'h');
        assert("1d"@[1] == 'd');
    }
}

impl std::str::FromStr for TopTraderLongShortRatioAccountsPeriodEnum {
    type Err = String;

    fn from_str(s: &str) -> (r: Result<TopTraderLongShortRatioAccountsPeriodEnum, String>)
        ensures
            match r {
                Ok(e) => TopTraderLongShortRatioAccountsPeriodEnum::from_wire(s@) == Some(e),
                Err(msg) => TopTraderLongShortRatioAccountsPeriodEnum::from_wire(s@) is None && msg@ == "invalid TopTraderLongShortRatioAccountsPeriodEnum: "@ + s@,
            },
    {
        TopTraderLongShortRatioAccountsPeriodEnum::parse(s)
    }
}

/// The values of `TopTraderLongShortRatioPositionsPeriod` that the endpoint accepts.
#[derive(Debug, Clone, Copy, PartialEq, Eq, Structural)]
pub enum TopTraderLongShortRatioPositionsPeriodEnum {
    Period5m,
    Period15m,
    Period30m,
    Period1h,
    Period2h,
    Period4h,
    Period6h,
    Period12h,
    Period1d,
}

impl TopTraderLongShortRatioPositionsPeriodEnum {
    /// The name by which the API knows the value.
    pub open spec fn wire_name(self) -> Seq<char> {
        match self {
            TopTraderLongShortRatioPositionsPeriodEnum::Period5m => "5m"@,
            TopTraderLongShortRatioPositionsPeriodEnum::Period15m => "15m"@,
            TopTraderLongShortRatioPositionsPeriodEnum::Period30m => "30m"@,
            TopTraderLongShortRatioPositionsPeriodEnum::Period1h => "1h"@,
            TopTraderLongShortRatioPositionsPeriodEnum::Period2h => "2h"@,
            TopTraderLongShortRatioPositionsPeriodEnum::Period4h => "4h"@,
            TopTraderLongShortRatioPositionsPeriodEnum::Period6h => "6h"@,
            TopTraderLongShortRatioPositionsPeriodEnum::Period12h => "12h"@,
            TopTraderLongShortRatioPositionsPeriodEnum::Period1d => "1d"@,
        }
    }

    /// The value that the API knows by `s`, if any.
    pub open spec fn from_wire(s: Seq<char>) -> Option<TopTraderLongShortRatioPositionsPeriodEnum> {
        if s == "5m"@ {
            Some(TopTraderLongShortRatioPositionsPeriodEnum::Period5m)
        } else if s == "15m"@ {
            Some(TopTraderLongShortRatioPositionsPeriodEnum::Period15m)
        } else if s == "30m"@ {
            Some(TopTraderLongShortRatioPositionsPeriodEnum::Period30m)
        } else if s == "1h"@ {
            Some(TopTraderLongShortRatioPositionsPeriodEnum::Period1h)
        } else if s == "2h"@ {
            Some(TopTraderLongShortRatioPositionsPeriodEnum::Period2h)
        } else if s == "4h"@ {
            Some(TopTraderLongShortRatioPositionsPeriodEnum::Period4h)
        } else if s == "6h"@ {
            Some(TopTraderLongShortRatioPositionsPeriodEnum::Period6h)
        } else if s == "12h"@ {
            Some(TopTraderLongShortRatioPositionsPeriodEnum::Period12h)
        } else if s == "1d"@ {
            Some(TopTraderLongShortRatioPositionsPeriodEnum::Period1d)
        } else {
            None
        }
    }

    /// An optional value, as the query parameter that carries it.
    pub open spec fn opt_wire(v: Option<TopTraderLongShortRatioPositionsPeriodEnum>) -> Option<QueryValueView> {
        match v {
            Some(e) => Some(QueryValueView::Text(e.wire_name())),
            None => None,
        }
    }

    /// The wire name of the value.
    #[must_use]
    pub fn as_str(&self) -> (s: &'static str)
        ensures
            s@ == self.wire_name(),
    {
        match self {
            TopTraderLongShortRatioPositionsPeriodEnum::Period5m => "5m",
            TopTraderLongShortRatioPositionsPeriodEnum::Period15m => "15m",
            TopTraderLongShortRatioPositionsPeriodEnum::Period30m => "30m",
            TopTraderLongShortRatioPositionsPeriodEnum::Period1h => "1h",
            TopTraderLongShortRatioPositionsPeriodEnum::Period2h => "2h",
            TopTraderLongShortRatioPositionsPeriodEnum::Period4h => "4h",
            TopTraderLongShortRatioPositionsPeriodEnum::Period6h => "6h",
            TopTraderLongShortRatioPositionsPeriodEnum::Period12h => "12h",
            TopTraderLongShortRatioPositionsPeriodEnum::Period1d => "1d",
        }
    }

    /// The value whose wire name is `s`; for any other `s` the error says
    /// which text was refused.
    pub fn parse(s: &str) -> (r: Result<TopTraderLongShortRatioPositionsPeriodEnum, String>)
        ensures
            match r {
                Ok(e) => TopTraderLongShortRatioPositionsPeriodEnum::from_wire(s@) == Some(e),
                Err(msg) => TopTraderLongShortRatioPositionsPeriodEnum::from_wire(s@) is None && msg@ == "invalid TopTraderLongShortRatioPositionsPeriodEnum: "@ + s@,
            },
    {
        if str_eq(s, "5m") {
            Ok(TopTraderLongShortRatioPositionsPeriodEnum::Period5m)
        } else if str_eq(s, "15m") {
            Ok(TopTraderLongShortRatioPositionsPeriodEnum::Period15m)
        } else if str_eq(s, "30m") {
            Ok(TopTraderLongShortRatioPositionsPeriodEnum::Period30m)
        } else if str_eq(s, "1h") {
            Ok(TopTraderLongShortRatioPositionsPeriodEnum::Period1h)
        } else if str_eq(s, "2h") {
            Ok(TopTraderLongShortRatioPositionsPeriodEnum::Period2h)
        } else if str_eq(s, "4h") {
            Ok(TopTraderLongShortRatioPositionsPeriodEnum::Period4h)
        } else if str_eq(s, "6h") {
            Ok(TopTraderLongShortRatioPositionsPeriodEnum::Period6h)
        } else if str_eq(s, "12h") {
            Ok(TopTraderLongShortRatioPositionsPeriodEnum::Period12h)
        } else if str_eq(s, "1d") {
            Ok(TopTraderLongShortRatioPositionsPeriodEnum::Period1d)
        } else {
            let mut msg = "invalid TopTraderLongShortRatioPositionsPeriodEnum: ".to_owned();
            msg.append(s);
            Err(msg)
        }
    }

    /// Each value reads back from its wire name, and a wire name reads back
    /// only as the value that has it.
    pub proof fn lemma_wire_round_trip(e: TopTraderLongShortRatioPositionsPeriodEnum, s: Seq<char>)
        ensures
            TopTraderLongShortRatioPositionsPeriodEnum::from_wire(e.wire_name()) == Some(e),
            TopTraderLongShortRatioPositionsPeriodEnum::from_wire(s) == Some(e) ==> s == e.wire_name(),
    {
        reveal_strlit("5m");
        reveal_strlit("15m");
        reveal_strlit("30m");
        reveal_strlit("1h");
        reveal_strlit("2h");
        reveal_strlit("4h");
        reveal_strlit("6h");
        reveal_strlit("12h");
        reveal_strlit("1d");
        assert("5m"@.len() == 2);
        assert("15m"@.len() == 3);
        assert("30m"@.len() == 3);
        assert("1h"@.len() == 2);
        assert("2h"@.len() == 2);
        assert("4h"@.len() == 2);
        assert("6h"@.len() == 2);
        assert("12h"@.len() == 3);
        assert("1d"@.len() == 2);
        assert("5m"@[0] == '5');
        assert("1h"@[0] == '1');
        assert("2h"@[0] == '2');
        assert("4h"@[0] == '4');
        assert("6h"@[0] == '6');
        assert("1d"@[0] == '1');
        assert("15m"@[0] == '1');
        assert("30m"@[0] == '3');
        assert("15m"@[1] == '5');
        assert("12h"@[1] == '2');
        assert("12h"@[0] == '1');
        assert("1h"@[1] == 'h');
        assert("1d"@[1] == 'd');
    }
}

impl std::str::FromStr for TopTraderLongShortRatioPositionsPeriodEnum {
    type Err = String;

    fn from_str(s: &str) -> (r: Result<TopTraderLongShortRatioPositionsPeriodEnum, String>)
        ensures
            match r {
                Ok(e) => TopTraderLongShortRatioPositionsPeriodEnum::from_wire(s@) == Some(e),
                Err(msg) => TopTraderLongShortRatioPositionsPeriodEnum::from_wire(s@) is None && msg@ == "invalid TopTraderLongShortRatioPositionsPeriodEnum: "@ + s@,
            },
    {
        TopTraderLongShortRatioPositionsPeriodEnum::parse(s)
    }
}

/// Request parameters for the `basis` operation.
#[derive(Clone, Debug)]
pub struct BasisParams {
    /// Sent as `pair`; required.
    pub pair: String,
    /// Sent as `contractType`; required.
    pub contract_type: BasisContractTypeEnum,
    /// Sent as `period`; required.
    pub period: BasisPeriodEnum,
    /// Sent as `limit`; required.
    pub limit: i64,
    /// Sent as `startTime`; optional.
    pub start_time: Option<i64>,
    /// Sent as `endTime`; optional.
    pub end_time: Option<i64>,
}

/// Request parameters for the `composite_index_symbol_information` operation.
#[derive(Clone, Debug, Default)]
pub struct CompositeIndexSymbolInformationParams {
    /// Sent as `symbol`; optional.
    pub symbol: Option<String>,
}

/// Request parameters for the `compressed_aggregate_trades_list` operation.
#[derive(Clone, Debug)]
pub struct CompressedAggregateTradesListParams {
    /// Sent as `symbol`; required.
    pub symbol: String,
    /// Sent as `fromId`; optional.
    pub from_id: Option<i64>,
    /// Sent as `startTime`; optional.
    pub start_time: Option<i64>,
    /// Sent as `endTime`; optional.
    pub end_time: Option<i64>,
    /// Sent as `limit`; optional.
    pub limit: Option<i64>,
}

/// Request parameters for the `continuous_contract_kline_candlestick_data` operation.
#[derive(Clone, Debug)]
pub struct ContinuousContractKlineCandlestickDataParams {
    /// Sent as `pair`; required.
    pub pair: String,
    /// Sent as `contractType`; required.
    pub contract_type: ContinuousContractKlineCandlestickDataContractTypeEnum,
    /// Sent as `interval`; required.
    pub interval: ContinuousContractKlineCandlestickDataIntervalEnum,
    /// Sent as `startTime`; optional.
    pub start_time: Option<i64>,
    /// Sent as `endTime`; optional.
    pub end_time: Option<i64>,
    /// Sent as `limit`; optional.
    pub limit: Option<i64>,
}

/// Request parameters for the `get_funding_rate_history` operation.
#[derive(Clone, Debug, Default)]
pub struct GetFundingRateHistoryParams {
    /// Sent as `symbol`; optional.
    pub symbol: Option<String>,
    /// Sent as `startTime`; optional.
    pub start_time: Option<i64>,
    /// Sent as `endTime`; optional.
    pub end_time: Option<i64>,
    /// Sent as `limit`; optional.
    pub limit: Option<i64>,
}

/// Request parameters for the `index_price_kline_candlestick_data` operation.
#[derive(Clone, Debug)]
pub struct IndexPriceKlineCandlestickDataParams {
    /// Sent as `pair`; required.
    pub pair: String,
    /// Sent as `interval`; required.
    pub interval: IndexPriceKlineCandlestickDataIntervalEnum,
    /// Sent as `startTime`; optional.
    pub start_time: Option<i64>,
    /// Sent as `endTime`; optional.
    pub end_time: Option<i64>,
    /// Sent as `limit`; optional.
    pub limit: Option<i64>,
}

/// Request parameters for the `kline_candlestick_data` operation.
#[derive(Clone, Debug)]
pub struct KlineCandlestickDataParams {
    /// Sent as `symbol`; required.
    pub symbol: String,
    /// Sent as `interval`; required.
    pub interval: KlineCandlestickDataIntervalEnum,
    /// Sent as `startTime`; optional.
    pub start_time: Option<i64>,
    /// Sent as `endTime`; optional.
    pub end_time: Option<i64>,
    /// Sent as `limit`; optional.
    pub limit: Option<i64>,
}

/// Request parameters for the `long_short_ratio` operation.
#[derive(Clone, Debug)]
pub struct LongShortRatioParams {
    /// Sent as `symbol`; required.
    pub symbol: String,
    /// Sent as `period`; required.
    pub period: LongShortRatioPeriodEnum,
    /// Sent as `limit`; optional.
    pub limit: Option<i64>,
    /// Sent as `startTime`; optional.
    pub start_time: Option<i64>,
    /// Sent as `endTime`; optional.
    pub end_time: Option<i64>,
}

/// Request parameters for the `mark_price` operation.
#[derive(Clone, Debug, Default)]
pub struct MarkPriceParams {
    /// Sent as `symbol`; optional.
    pub symbol: Option<String>,
}

/// Request parameters for the `mark_price_kline_candlestick_data` operation.
#[derive(Clone, Debug)]
pub struct MarkPriceKlineCandlestickDataParams {
    /// Sent as `symbol`; required.
    pub symbol: String,
    /// Sent as `interval`; required.
    pub interval: MarkPriceKlineCandlestickDataIntervalEnum,
    /// Sent as `startTime`; optional.
    pub start_time: Option<i64>,
    /// Sent as `endTime`; optional.
    pub end_time: Option<i64>,
    /// Sent as `limit`; optional.
    pub limit: Option<i64>,
}

/// Request parameters for the `multi_assets_mode_asset_index` operation.
#[derive(Clone, Debug, Default)]
pub struct MultiAssetsModeAssetIndexParams {
    /// Sent as `symbol`; optional.
    pub symbol: Option<String>,
}

/// Request parameters for the `old_trades_lookup` operation.
#[derive(Clone, Debug)]
pub struct OldTradesLookupParams {
    /// Sent as `symbol`; required.
    pub symbol: String,
    /// Sent as `limit`; optional.
    pub limit: Option<i64>,
    /// Sent as `fromId`; optional.
    pub from_id: Option<i64>,
}

/// Request parameters for the `open_interest` operation.
#[derive(Clone, Debug)]
pub struct OpenInterestParams {
    /// Sent as `symbol`; required.
    pub symbol: String,
}

/// Request parameters for the `open_interest_statistics` operation.
#[derive(Clone, Debug)]
pub struct OpenInterestStatisticsParams {
    /// Sent as `symbol`; required.
    pub symbol: String,
    /// Sent as `period`; required.
    pub period: OpenInterestStatisticsPeriodEnum,
    /// Sent as `limit`; optional.
    pub limit: Option<i64>,
    /// Sent as `startTime`; optional.
    pub start_time: Option<i64>,
    /// Sent as `endTime`; optional.
    pub end_time: Option<i64>,
}

/// Request parameters for the `order_book` operation.
#[derive(Clone, Debug)]
pub struct OrderBookParams {
    /// Sent as `symbol`; required.
    pub symbol: String,
    /// Sent as `limit`; optional.
    pub limit: Option<i64>,
}

/// Request parameters for the `premium_index_kline_data` operation.
#[derive(Clone, Debug)]
pub struct PremiumIndexKlineDataParams {
    /// Sent as `symbol`; required.
    pub symbol: String,
    /// Sent as `interval`; required.
    pub interval: PremiumIndexKlineDataIntervalEnum,
    /// Sent as `startTime`; optional.
    pub start_time: Option<i64>,
    /// Sent as `endTime`; optional.
    pub end_time: Option<i64>,
    /// Sent as `limit`; optional.
    pub limit: Option<i64>,
}

/// Request parameters for the `quarterly_contract_settlement_price` operation.
#[derive(Clone, Debug)]
pub struct QuarterlyContractSettlementPriceParams {
    /// Sent as `pair`; required.
    pub pair: String,
}

/// Request parameters for the `query_index_price_constituents` operation.
#[derive(Clone, Debug)]
pub struct QueryIndexPriceConstituentsParams {
    /// Sent as `symbol`; required.
    pub symbol: String,
}

/// Request parameters for the `query_insurance_fund_balance_snapshot` operation.
#[derive(Clone, Debug, Default)]
pub struct QueryInsuranceFundBalanceSnapshotParams {
    /// Sent as `symbol`; optional.
    pub symbol: Option<String>,
}

/// Request parameters for the `recent_trades_list` operation.
#[derive(Clone, Debug)]
pub struct RecentTradesListParams {
    /// Sent as `symbol`; required.
    pub symbol: String,
    /// Sent as `limit`; optional.
    pub limit: Option<i64>,
}

/// Request parameters for the `symbol_order_book_ticker` operation.
#[derive(Clone, Debug, Default)]
pub struct SymbolOrderBookTickerParams {
    /// Sent as `symbol`; optional.
    pub symbol: Option<String>,
}

/// Request parameters for the `symbol_price_ticker` operation.
#[derive(Clone, Debug, Default)]
pub struct SymbolPriceTickerParams {
    /// Sent as `symbol`; optional.
    pub symbol: Option<String>,
}

/// Request parameters for the `symbol_price_ticker_v2` operation.
#[derive(Clone, Debug, Default)]
pub struct SymbolPriceTickerV2Params {
    /// Sent as `symbol`; optional.
    pub symbol: Option<String>,
}

/// Request parameters for the `taker_buy_sell_volume` operation.
#[derive(Clone, Debug)]
pub struct TakerBuySellVolumeParams {
    /// Sent as `symbol`; required.
    pub symbol: String,
    /// Sent as `period`; required.
    pub period: TakerBuySellVolumePeriodEnum,
    /// Sent as `limit`; optional.
    pub limit: Option<i64>,
    /// Sent as `startTime`; optional.
    pub start_time: Option<i64>,
    /// Sent as `endTime`; optional.
    pub end_time: Option<i64>,
}

/// Request parameters for the `ticker24hr_price_change_statistics` operation.
#[derive(Clone, Debug, Default)]
pub struct Ticker24hrPriceChangeStatisticsParams {
    /// Sent as `symbol`; optional.
    pub symbol: Option<String>,
}

/// Request parameters for the `top_trader_long_short_ratio_accounts` operation.
#[derive(Clone, Debug)]
pub struct TopTraderLongShortRatioAccountsParams {
    /// Sent as `symbol`; required.
    pub symbol: String,
    /// Sent as `period`; required.
    pub period: TopTraderLongShortRatioAccountsPeriodEnum,
    /// Sent as `limit`; optional.
    pub limit: Option<i64>,
    /// Sent as `startTime`; optional.
    pub start_time: Option<i64>,
    /// Sent as `endTime`; optional.
    pub end_time: Option<i64>,
}

/// Request parameters for the `top_trader_long_short_ratio_positions` operation.
#[derive(Clone, Debug)]
pub struct TopTraderLongShortRatioPositionsParams {
    /// Sent as `symbol`; required.
    pub symbol: String,
    /// Sent as `period`; required.
    pub period: TopTraderLongShortRatioPositionsPeriodEnum,
    /// Sent as `limit`; optional.
    pub limit: Option<i64>,
    /// Sent as `startTime`; optional.
    pub start_time: Option<i64>,
    /// Sent as `endTime`; optional.
    pub end_time: Option<i64>,
}

/// The query parameters that `basis` sends for `p`.
pub open spec fn basis_query(p: BasisParams) -> QueryMap {
    QueryMap::empty()
        .put("pair"@, QueryValueView::Text(p.pair@))
        .put("contractType"@, QueryValueView::Text(p.contract_type.wire_name()))
        .put("period"@, QueryValueView::Text(p.period.wire_name()))
        .put("limit"@, QueryValueView::Integer(p.limit))
        .put_opt("startTime"@, opt_integer(p.start_time))
        .put_opt("endTime"@, opt_integer(p.end_time))
}

/// What `basis` sends, parameter by parameter: each required parameter
/// under its name with the value given, each optional one exactly when it
/// is given, and no other parameter.
pub proof fn lemma_basis_query(p: BasisParams)
    ensures
        basis_query(p).dom().contains("pair"@),
        basis_query(p)["pair"@] == QueryValueView::Text(p.pair@),
        basis_query(p).dom().contains("contractType"@),
        basis_query(p)["contractType"@] == QueryValueView::Text(p.contract_type.wire_name()),
        basis_query(p).dom().contains("period"@),
        basis_query(p)["period"@] == QueryValueView::Text(p.period.wire_name()),
        basis_query(p).dom().contains("limit"@),
        basis_query(p)["limit"@] == QueryValueView::Integer(p.limit),
        basis_query(p).dom().contains("startTime"@) == (p.start_time is Some),
        p.start_time is Some ==> basis_query(p)["startTime"@] == QueryValueView::Integer(p.start_time->0),
        basis_query(p).dom().contains("endTime"@) == (p.end_time is Some),
        p.end_time is Some ==> basis_query(p)["endTime"@] == QueryValueView::Integer(p.end_time->0),
        forall|k: Seq<char>| #[trigger] basis_query(p).dom().contains(k) ==> (k == "pair"@ || k == "contractType"@ || k == "period"@ || k == "limit"@ || k == "startTime"@ || k == "endTime"@),
{
    reveal_strlit("pair");
    reveal_strlit("contractType");
    reveal_strlit("period");
    reveal_strlit("limit");
    reveal_strlit("startTime");
    reveal_strlit("endTime");
    assert("pair"@.len() == 4);
    assert("contractType"@.len() == 12);
    assert("period"@.len() == 6);
    assert("limit"@.len() == 5);
    assert("startTime"@.len() == 9);
    assert("endTime"@.len() == 7);
    assert("pair"@ != "contractType"@);
    assert("pair"@ != "period"@);
    assert("pair"@ != "limit"@);
    assert("pair"@ != "startTime"@);
    assert("pair"@ != "endTime"@);
    assert("contractType"@ != "period"@);
    assert("contractType"@ != "limit"@);
    assert("contractType"@ != "startTime"@);
    assert("contractType"@ != "endTime"@);
    assert("period"@ != "limit"@);
    assert("period"@ != "startTime"@);
    assert("period"@ != "endTime"@);
    assert("limit"@ != "startTime"@);
    assert("limit"@ != "endTime"@);
    assert("startTime"@ != "endTime"@);
}

/// The request of the `basis` operation: GET `/futures/data/basis`, unsigned.
pub fn basis(params: BasisParams) -> (req: RestRequest)
    ensures
        req@ == (RestRequestView {
            path: "/futures/data/basis"@,
            method: HttpMethod::Get,
            query: basis_query(params),
            uses_time_unit: HAS_TIME_UNIT,
            signed: false,
        }),
        req@.query.dom().contains("pair"@),
        req@.query["pair"@] == QueryValueView::Text(params.pair@),
        req@.query.dom().contains("contractType"@),
        req@.query["contractType"@] == QueryValueView::Text(params.contract_type.wire_name()),
        req@.query.dom().contains("period"@),
        req@.query["period"@] == QueryValueView::Text(params.period.wire_name()),
        req@.query.dom().contains("limit"@),
        req@.query["limit"@] == QueryValueView::Integer(params.limit),
        req@.query.dom().contains("startTime"@) == (params.start_time is Some),
        params.start_time is Some ==> req@.query["startTime"@] == QueryValueView::Integer(params.start_time->0),
        req@.query.dom().contains("endTime"@) == (params.end_time is Some),
        params.end_time is Some ==> req@.query["endTime"@] == QueryValueView::Integer(params.end_time->0),
        forall|k: Seq<char>| #[trigger] req@.query.dom().contains(k) ==> (k == "pair"@ || k == "contractType"@ || k == "period"@ || k == "limit"@ || k == "startTime"@ || k == "endTime"@),
{
    proof {
        lemma_basis_query(params);
    }
    let BasisParams { pair, contract_type, period, limit, start_time, end_time } = params;
    let mut query = QueryParams::new();
    query.insert("pair".to_owned(), QueryValue::Text(pair));
    query.insert("contractType".to_owned(), QueryValue::Text(contract_type.as_str().to_owned()));
    query.insert("period".to_owned(), QueryValue::Text(period.as_str().to_owned()));
    query.insert("limit".to_owned(), QueryValue::Integer(limit));
    if let Some(v) = start_time {
        query.insert("startTime".to_owned(), QueryValue::Integer(v));
    }
    if let Some(v) = end_time {
        query.insert("endTime".to_owned(), QueryValue::Integer(v));
    }
    RestRequest {
        path: "/futures/data/basis",
        method: HttpMethod::Get,
        query,
        uses_time_unit: HAS_TIME_UNIT,
        signed: false,
    }
}

/// The request of the `check_server_time` operation: GET `/fapi/v1/time`, unsigned.
pub fn check_server_time() -> (req: RestRequest)
    ensures
        req@ == (RestRequestView {
            path: "/fapi/v1/time"@,
            method: HttpMethod::Get,
            query: QueryMap::empty(),
            uses_time_unit: HAS_TIME_UNIT,
            signed: false,
        }),
{
    let query = QueryParams::new();
    RestRequest {
        path: "/fapi/v1/time",
        method: HttpMethod::Get,
        query,
        uses_time_unit: HAS_TIME_UNIT,
        signed: false,
    }
}

/// The query parameters that `composite_index_symbol_information` sends for `p`.
pub open spec fn composite_index_symbol_information_query(p: CompositeIndexSymbolInformationParams) -> QueryMap {
    QueryMap::empty()
        .put_opt("symbol"@, opt_text(p.symbol))
}

/// What `composite_index_symbol_information` sends, parameter by parameter: each required parameter
/// under its name with the value given, each optional one exactly when it
/// is given, and no other parameter.
pub proof fn lemma_composite_index_symbol_information_query(p: CompositeIndexSymbolInformationParams)
    ensures
        composite_index_symbol_information_query(p).dom().contains("symbol"@) == (p.symbol is Some),
        p.symbol is Some ==> composite_index_symbol_information_query(p)["symbol"@] == QueryValueView::Text(p.symbol->0@),
        forall|k: Seq<char>| #[trigger] composite_index_symbol_information_query(p).dom().contains(k) ==> (k == "symbol"@),
{
    reveal_strlit("symbol");
    assert("symbol"@.len() == 6);
}

/// The request of the `composite_index_symbol_information` operation: GET `/fapi/v1/indexInfo`, unsigned.
pub fn composite_index_symbol_information(params: CompositeIndexSymbolInformationParams) -> (req: RestRequest)
    ensures
        req@ == (RestRequestView {
            path: "/fapi/v1/indexInfo"@,
            method: HttpMethod::Get,
            query: composite_index_symbol_information_query(params),
            uses_time_unit: HAS_TIME_UNIT,
            signed: false,
        }),
        req@.query.dom().contains("symbol"@) == (params.symbol is Some),
        params.symbol is Some ==> req@.query["symbol"@] == QueryValueView::Text(params.symbol->0@),
        forall|k: Seq<char>| #[trigger] req@.query.dom().contains(k) ==> (k == "symbol"@),
{
    proof {
        lemma_composite_index_symbol_information_query(params);
    }
    let CompositeIndexSymbolInformationParams { symbol } = params;
    let mut query = QueryParams::new();
    if let Some(v) = symbol {
        query.insert("symbol".to_owned(), QueryValue::Text(v));
    }
    RestRequest {
        path: "/fapi/v1/indexInfo",
        method: HttpMethod::Get,
        query,
        uses_time_unit: HAS_TIME_UNIT,
        signed: false,
    }
}

/// The query parameters that `compressed_aggregate_trades_list` sends for `p`.
pub open spec fn compressed_aggregate_trades_list_query(p: CompressedAggregateTradesListParams) -> QueryMap {
    QueryMap::empty()
        .put("symbol"@, QueryValueView::Text(p.symbol@))
        .put_opt("fromId"@, opt_integer(p.from_id))
        .put_opt("startTime"@, opt_integer(p.start_time))
        .put_opt("endTime"@, opt_integer(p.end_time))
        .put_opt("limit"@, opt_integer(p.limit))
}

/// What `compressed_aggregate_trades_list` sends, parameter by parameter: each required parameter
/// under its name with the value given, each optional one exactly when it
/// is given, and no other parameter.
pub proof fn lemma_compressed_aggregate_trades_list_query(p: CompressedAggregateTradesListParams)
    ensures
        compressed_aggregate_trades_list_query(p).dom().contains("symbol"@),
        compressed_aggregate_trades_list_query(p)["symbol"@] == QueryValueView::Text(p.symbol@),
        compressed_aggregate_trades_list_query(p).dom().contains("fromId"@) == (p.from_id is Some),
        p.from_id is Some ==> compressed_aggregate_trades_list_query(p)["fromId"@] == QueryValueView::Integer(p.from_id->0),
        compressed_aggregate_trades_list_query(p).dom().contains("startTime"@) == (p.start_time is Some),
        p.start_time is Some ==> compressed_aggregate_trades_list_query(p)["startTime"@] == QueryValueView::Integer(p.start_time->0),
        compressed_aggregate_trades_list_query(p).dom().contains("endTime"@) == (p.end_time is Some),
        p.end_time is Some ==> compressed_aggregate_trades_list_query(p)["endTime"@] == QueryValueView::Integer(p.end_time->0),
        compressed_aggregate_trades_list_query(p).dom().contains("limit"@) == (p.limit is Some),
        p.limit is Some ==> compressed_aggregate_trades_list_query(p)["limit"@] == QueryValueView::Integer(p.limit->0),
        forall|k: Seq<char>| #[trigger] compressed_aggregate_trades_list_query(p).dom().contains(k) ==> (k == "symbol"@ || k == "fromId"@ || k == "startTime"@ || k == "endTime"@ || k == "limit"@),
{
    reveal_strlit("symbol");
    reveal_strlit("fromId");
    reveal_strlit("startTime");
    reveal_strlit("endTime");
    reveal_strlit("limit");
    assert("symbol"@.len() == 6);
    assert("fromId"@.len() == 6);
    assert("startTime"@.len() == 9);
    assert("endTime"@.len() == 7);
    assert("limit"@.len() == 5);
    assert("symbol"@[0] == 's');
    assert("fromId"@[0] == 'f');
    assert("symbol"@ != "fromId"@);
    assert("symbol"@ != "startTime"@);
    assert("symbol"@ != "endTime"@);
    assert("symbol"@ != "limit"@);
    assert("fromId"@ != "startTime"@);
    assert("fromId"@ != "endTime"@);
    assert("fromId"@ != "limit"@);
    assert("startTime"@ != "endTime"@);
    assert("startTime"@ != "limit"@);
    assert("endTime"@ != "limit"@);
}

/// The request of the `compressed_aggregate_trades_list` operation: GET `/fapi/v1/aggTrades`, unsigned.
pub fn compressed_aggregate_trades_list(params: CompressedAggregateTradesListParams) -> (req: RestRequest)
    ensures
        req@ == (RestRequestView {
            path: "/fapi/v1/aggTrades"@,
            method: HttpMethod::Get,
            query: compressed_aggregate_trades_list_query(params),
            uses_time_unit: HAS_TIME_UNIT,
            signed: false,
        }),
        req@.query.dom().contains("symbol"@),
        req@.query["symbol"@] == QueryValueView::Text(params.symbol@),
        req@.query.dom().contains("fromId"@) == (params.from_id is Some),
        params.from_id is Some ==> req@.query["fromId"@] == QueryValueView::Integer(params.from_id->0),
        req@.query.dom().contains("startTime"@) == (params.start_time is Some),
        params.start_time is Some ==> req@.query["startTime"@] == QueryValueView::Integer(params.start_time->0),
        req@.query.dom().contains("endTime"@) == (params.end_time is Some),
        params.end_time is Some ==> req@.query["endTime"@] == QueryValueView::Integer(params.end_time->0),
        req@.query.dom().contains("limit"@) == (params.limit is Some),
        params.limit is Some ==> req@.query["limit"@] == QueryValueView::Integer(params.limit->0),
        forall|k: Seq<char>| #[trigger] req@.query.dom().contains(k) ==> (k == "symbol"@ || k == "fromId"@ || k == "startTime"@ || k == "endTime"@ || k == "limit"@),
{
    proof {
        lemma_compressed_aggregate_trades_list_query(params);
    }
    let CompressedAggregateTradesListParams { symbol, from_id, start_time, end_time, limit } = params;
    let mut query = QueryParams::new();
    query.insert("symbol".to_owned(), QueryValue::Text(symbol));
    if let Some(v) = from_id {
        query.insert("fromId".to_owned(), QueryValue::Integer(v));
    }
    if let Some(v) = start_time {
        query.insert("startTime".to_owned(), QueryValue::Integer(v));
    }
    if let Some(v) = end_time {
        query.insert("endTime".to_owned(), QueryValue::Integer(v));
    }
    if let Some(v) = limit {
        query.insert("limit".to_owned(), QueryValue::Integer(v));
    }
    RestRequest {
        path: "/fapi/v1/aggTrades",
        method: HttpMethod::Get,
        query,
        uses_time_unit: HAS_TIME_UNIT,
        signed: false,
    }
}

/// The query parameters that `continuous_contract_kline_candlestick_data` sends for `p`.
pub open spec fn continuous_contract_kline_candlestick_data_query(p: ContinuousContractKlineCandlestickDataParams) -> QueryMap {
    QueryMap::empty()
        .put("pair"@, QueryValueView::Text(p.pair@))
        .put("contractType"@, QueryValueView::Text(p.contract_type.wire_name()))
        .put("interval"@, QueryValueView::Text(p.interval.wire_name()))
        .put_opt("startTime"@, opt_integer(p.start_time))
        .put_opt("endTime"@, opt_integer(p.end_time))
        .put_opt("limit"@, opt_integer(p.limit))
}

/// What `continuous_contract_kline_candlestick_data` sends, parameter by parameter: each required parameter
/// under its name with the value given, each optional one exactly when it
/// is given, and no other parameter.
pub proof fn lemma_continuous_contract_kline_candlestick_data_query(p: ContinuousContractKlineCandlestickDataParams)
    ensures
        continuous_contract_kline_candlestick_data_query(p).dom().contains("pair"@),
        continuous_contract_kline_candlestick_data_query(p)["pair"@] == QueryValueView::Text(p.pair@),
        continuous_contract_kline_candlestick_data_query(p).dom().contains("contractType"@),
        continuous_contract_kline_candlestick_data_query(p)["contractType"@] == QueryValueView::Text(p.contract_type.wire_name()),
        continuous_contract_kline_candlestick_data_query(p).dom().contains("interval"@),
        continuous_contract_kline_candlestick_data_query(p)["interval"@] == QueryValueView::Text(p.interval.wire_name()),
        continuous_contract_kline_candlestick_data_query(p).dom().contains("startTime"@) == (p.start_time is Some),
        p.start_time is Some ==> continuous_contract_kline_candlestick_data_query(p)["startTime"@] == QueryValueView::Integer(p.start_time->0),
        continuous_contract_kline_candlestick_data_query(p).dom().contains("endTime"@) == (p.end_time is Some),
        p.end_time is Some ==> continuous_contract_kline_candlestick_data_query(p)["endTime"@] == QueryValueView::Integer(p.end_time->0),
        continuous_contract_kline_candlestick_data_query(p).dom().contains("limit"@) == (p.limit is Some),
        p.limit is Some ==> continuous_contract_kline_candlestick_data_query(p)["limit"@] == QueryValueView::Integer(p.limit->0),
        forall|k: Seq<char>| #[trigger] continuous_contract_kline_candlestick_data_query(p).dom().contains(k) ==> (k == "pair"@ || k == "contractType"@ || k == "interval"@ || k == "startTime"@ || k == "endTime"@ || k == "limit"@),
{
    reveal_strlit("pair");
    reveal_strlit("contractType");
    reveal_strlit("interval");
    reveal_strlit("startTime");
    reveal_strlit("endTime");
    reveal_strlit("limit");
    assert("pair"@.len() == 4);
    assert("contractType"@.len() == 12);
    assert("interval"@.len() == 8);
    assert("startTime"@.len() == 9);
    assert("endTime"@.len() == 7);
    assert("limit"@.len() == 5);
    assert("pair"@ != "contractType"@);
    assert("pair"@ != "interval"@);
    assert("pair"@ != "startTime"@);
    assert("pair"@ != "endTime"@);
    assert("pair"@ != "limit"@);
    assert("contractType"@ != "interval"@);
    assert("contractType"@ != "startTime"@);
    assert("contractType"@ != "endTime"@);
    assert("contractType"@ != "limit"@);
    assert("interval"@ != "startTime"@);
    assert("interval"@ != "endTime"@);
    assert("interval"@ != "limit"@);
    assert("startTime"@ != "endTime"@);
    assert("startTime"@ != "limit"@);
    assert("endTime"@ != "limit"@);
}

/// The request of the `continuous_contract_kline_candlestick_data` operation: GET `/fapi/v1/continuousKlines`, unsigned.
pub fn continuous_contract_kline_candlestick_data(params: ContinuousContractKlineCandlestickDataParams) -> (req: RestRequest)
    ensures
        req@ == (RestRequestView {
            path: "/fapi/v1/continuousKlines"@,
            method: HttpMethod::Get,
            query: continuous_contract_kline_candlestick_data_query(params),
            uses_time_unit: HAS_TIME_UNIT,
            signed: false,
        }),
        req@.query.dom().contains("pair"@),
        req@.query["pair"@] == QueryValueView::Text(params.pair@),
        req@.query.dom().contains("contractType"@),
        req@.query["contractType"@] == QueryValueView::Text(params.contract_type.wire_name()),
        req@.query.dom().contains("interval"@),
        req@.query["interval"@] == QueryValueView::Text(params.interval.wire_name()),
        req@.query.dom().contains("startTime"@) == (params.start_time is Some),
        params.start_time is Some ==> req@.query["startTime"@] == QueryValueView::Integer(params.start_time->0),
        req@.query.dom().contains("endTime"@) == (params.end_time is Some),
        params.end_time is Some ==> req@.query["endTime"@] == QueryValueView::Integer(params.end_time->0),
        req@.query.dom().contains("limit"@) == (params.limit is Some),
        params.limit is Some ==> req@.query["limit"@] == QueryValueView::Integer(params.limit->0),
        forall|k: Seq<char>| #[trigger] req@.query.dom().contains(k) ==> (k == "pair"@ || k == "contractType"@ || k == "interval"@ || k == "startTime"@ || k == "endTime"@ || k == "limit"@),
{
    proof {
        lemma_continuous_contract_kline_candlestick_data_query(params);
    }
    let ContinuousContractKlineCandlestickDataParams { pair, contract_type, interval, start_time, end_time, limit } = params;
    let mut query = QueryParams::new();
    query.insert("pair".to_owned(), QueryValue::Text(pair));
    query.insert("contractType".to_owned(), QueryValue::Text(contract_type.as_str().to_owned()));
    query.insert("interval".to_owned(), QueryValue::Text(interval.as_str().to_owned()));
    if let Some(v) = start_time {
        query.insert("startTime".to_owned(), QueryValue::Integer(v));
    }
    if let Some(v) = end_time {
        query.insert("endTime".to_owned(), QueryValue::Integer(v));
    }
    if let Some(v) = limit {
        query.insert("limit".to_owned(), QueryValue::Integer(v));
    }
    RestRequest {
        path: "/fapi/v1/continuousKlines",
        method: HttpMethod::Get,
        query,
        uses_time_unit: HAS_TIME_UNIT,
        signed: false,
    }
}

/// The request of the `exchange_information` operation: GET `/fapi/v1/exchangeInfo`, unsigned.
pub fn exchange_information() -> (req: RestRequest)
    ensures
        req@ == (RestRequestView {
            path: "/fapi/v1/exchangeInfo"@,
            method: HttpMethod::Get,
            query: QueryMap::empty(),
            uses_time_unit: HAS_TIME_UNIT,
            signed: false,
        }),
{
    let query = QueryParams::new();
    RestRequest {
        path: "/fapi/v1/exchangeInfo",
        method: HttpMethod::Get,
        query,
        uses_time_unit: HAS_TIME_UNIT,
        signed: false,
    }
}

/// The query parameters that `get_funding_rate_history` sends for `p`.
pub open spec fn get_funding_rate_history_query(p: GetFundingRateHistoryParams) -> QueryMap {
    QueryMap::empty()
        .put_opt("symbol"@, opt_text(p.symbol))
        .put_opt("startTime"@, opt_integer(p.start_time))
        .put_opt("endTime"@, opt_integer(p.end_time))
        .put_opt("limit"@, opt_integer(p.limit))
}

/// What `get_funding_rate_history` sends, parameter by parameter: each required parameter
/// under its name with the value given, each optional one exactly when it
/// is given, and no other parameter.
pub proof fn lemma_get_funding_rate_history_query(p: GetFundingRateHistoryParams)
    ensures
        get_funding_rate_history_query(p).dom().contains("symbol"@) == (p.symbol is Some),
        p.symbol is Some ==> get_funding_rate_history_query(p)["symbol"@] == QueryValueView::Text(p.symbol->0@),
        get_funding_rate_history_query(p).dom().contains("startTime"@) == (p.start_time is Some),
        p.start_time is Some ==> get_funding_rate_history_query(p)["startTime"@] == QueryValueView::Integer(p.start_time->0),
        get_funding_rate_history_query(p).dom().contains("endTime"@) == (p.end_time is Some),
        p.end_time is Some ==> get_funding_rate_history_query(p)["endTime"@] == QueryValueView::Integer(p.end_time->0),
        get_funding_rate_history_query(p).dom().contains("limit"@) == (p.limit is Some),
        p.limit is Some ==> get_funding_rate_history_query(p)["limit"@] == QueryValueView::Integer(p.limit->0),
        forall|k: Seq<char>| #[trigger] get_funding_rate_history_query(p).dom().contains(k) ==> (k == "symbol"@ || k == "startTime"@ || k == "endTime"@ || k == "limit"@),
{
    reveal_strlit("symbol");
    reveal_strlit("startTime");
    reveal_strlit("endTime");
    reveal_strlit("limit");
    assert("symbol"@.len() == 6);
    assert("startTime"@.len() == 9);
    assert("endTime"@.len() == 7);
    assert("limit"@.len() == 5);
    assert("symbol"@ != "startTime"@);
    assert("symbol"@ != "endTime"@);
    assert("symbol"@ != "limit"@);
    assert("startTime"@ != "endTime"@);
    assert("startTime"@ != "limit"@);
    assert("endTime"@ != "limit"@);
}

/// The request of the `get_funding_rate_history` operation: GET `/fapi/v1/fundingRate`, unsigned.
pub fn get_funding_rate_history(params: GetFundingRateHistoryParams) -> (req: RestRequest)
    ensures
        req@ == (RestRequestView {
            path: "/fapi/v1/fundingRate"@,
            method: HttpMethod::Get,
            query: get_funding_rate_history_query(params),
            uses_time_unit: HAS_TIME_UNIT,
            signed: false,
        }),
        req@.query.dom().contains("symbol"@) == (params.symbol is Some),
        params.symbol is Some ==> req@.query["symbol"@] == QueryValueView::Text(params.symbol->0@),
        req@.query.dom().contains("startTime"@) == (params.start_time is Some),
        params.start_time is Some ==> req@.query["startTime"@] == QueryValueView::Integer(params.start_time->0),
        req@.query.dom().contains("endTime"@) == (params.end_time is Some),
        params.end_time is Some ==> req@.query["endTime"@] == QueryValueView::Integer(params.end_time->0),
        req@.query.dom().contains("limit"@) == (params.limit is Some),
        params.limit is Some ==> req@.query["limit"@] == QueryValueView::Integer(params.limit->0),
        forall|k: Seq<char>| #[trigger] req@.query.dom().contains(k) ==> (k == "symbol"@ || k == "startTime"@ || k == "endTime"@ || k == "limit"@),
{
    proof {
        lemma_get_funding_rate_history_query(params);
    }
    let GetFundingRateHistoryParams { symbol, start_time, end_time, limit } = params;
    let mut query = QueryParams::new();
    if let Some(v) = symbol {
        query.insert("symbol".to_owned(), QueryValue::Text(v));
    }
    if let Some(v) = start_time {
        query.insert("startTime".to_owned(), QueryValue::Integer(v));
    }
    if let Some(v) = end_time {
        query.insert("endTime".to_owned(), QueryValue::Integer(v));
    }
    if let Some(v) = limit {
        query.insert("limit".to_owned(), QueryValue::Integer(v));
    }
    RestRequest {
        path: "/fapi/v1/fundingRate",
        method: HttpMethod::Get,
        query,
        uses_time_unit: HAS_TIME_UNIT,
        signed: false,
    }
}

/// The request of the `get_funding_rate_info` operation: GET `/fapi/v1/fundingInfo`, unsigned.
pub fn get_funding_rate_info() -> (req: RestRequest)
    ensures
        req@ == (RestRequestView {
            path: "/fapi/v1/fundingInfo"@,
            method: HttpMethod::Get,
            query: QueryMap::empty(),
            uses_time_unit: HAS_TIME_UNIT,
            signed: false,
        }),
{
    let query = QueryParams::new();
    RestRequest {
        path: "/fapi/v1/fundingInfo",
        method: HttpMethod::Get,
        query,
        uses_time_unit: HAS_TIME_UNIT,
        signed: false,
    }
}

/// The query parameters that `index_price_kline_candlestick_data` sends for `p`.
pub open spec fn index_price_kline_candlestick_data_query(p: IndexPriceKlineCandlestickDataParams) -> QueryMap {
    QueryMap::empty()
        .put("pair"@, QueryValueView::Text(p.pair@))
        .put("interval"@, QueryValueView::Text(p.interval.wire_name()))
        .put_opt("startTime"@, opt_integer(p.start_time))
        .put_opt("endTime"@, opt_integer(p.end_time))
        .put_opt("limit"@, opt_integer(p.limit))
}

/// What `index_price_kline_candlestick_data` sends, parameter by parameter: each required parameter
/// under its name with the value given, each optional one exactly when it
/// is given, and no other parameter.
pub proof fn lemma_index_price_kline_candlestick_data_query(p: IndexPriceKlineCandlestickDataParams)
    ensures
        index_price_kline_candlestick_data_query(p).dom().contains("pair"@),
        index_price_kline_candlestick_data_query(p)["pair"@] == QueryValueView::Text(p.pair@),
        index_price_kline_candlestick_data_query(p).dom().contains("interval"@),
        index_price_kline_candlestick_data_query(p)["interval"@] == QueryValueView::Text(p.interval.wire_name()),
        index_price_kline_candlestick_data_query(p).dom().contains("startTime"@) == (p.start_time is Some),
        p.start_time is Some ==> index_price_kline_candlestick_data_query(p)["startTime"@] == QueryValueView::Integer(p.start_time->0),
        index_price_kline_candlestick_data_query(p).dom().contains("endTime"@) == (p.end_time is Some),
        p.end_time is Some ==> index_price_kline_candlestick_data_query(p)["endTime"@] == QueryValueView::Integer(p.end_time->0),
        index_price_kline_candlestick_data_query(p).dom().contains("limit"@) == (p.limit is Some),
        p.limit is Some ==> index_price_kline_candlestick_data_query(p)["limit"@] == QueryValueView::Integer(p.limit->0),
        forall|k: Seq<char>| #[trigger] index_price_kline_candlestick_data_query(p).dom().contains(k) ==> (k == "pair"@ || k == "interval"@ || k == "startTime"@ || k == "endTime"@ || k == "limit"@),
{
    reveal_strlit("pair");
    reveal_strlit("interval");
    reveal_strlit("startTime");
    reveal_strlit("endTime");
    reveal_strlit("limit");
    assert("pair"@.len() == 4);
    assert("interval"@.len() == 8);
    assert("startTime"@.len() == 9);
    assert("endTime"@.len() == 7);
    assert("limit"@.len() == 5);
    assert("pair"@ != "interval"@);
    assert("pair"@ != "startTime"@);
    assert("pair"@ != "endTime"@);
    assert("pair"@ != "limit"@);
    assert("interval"@ != "startTime"@);
    assert("interval"@ != "endTime"@);
    assert("interval"@ != "limit"@);
    assert("startTime"@ != "endTime"@);
    assert("startTime"@ != "limit"@);
    assert("endTime"@ != "limit"@);
}

/// The request of the `index_price_kline_candlestick_data` operation: GET `/fapi/v1/indexPriceKlines`, unsigned.
pub fn index_price_kline_candlestick_data(params: IndexPriceKlineCandlestickDataParams) -> (req: RestRequest)
    ensures
        req@ == (RestRequestView {
            path: "/fapi/v1/indexPriceKlines"@,
            method: HttpMethod::Get,
            query: index_price_kline_candlestick_data_query(params),
            uses_time_unit: HAS_TIME_UNIT,
            signed: false,
        }),
        req@.query.dom().contains("pair"@),
        req@.query["pair"@] == QueryValueView::Text(params.pair@),
        req@.query.dom().contains("interval"@),
        req@.query["interval"@] == QueryValueView::Text(params.interval.wire_name()),
        req@.query.dom().contains("startTime"@) == (params.start_time is Some),
        params.start_time is Some ==> req@.query["startTime"@] == QueryValueView::Integer(params.start_time->0),
        req@.query.dom().contains("endTime"@) == (params.end_time is Some),
        params.end_time is Some ==> req@.query["endTime"@] == QueryValueView::Integer(params.end_time->0),
        req@.query.dom().contains("limit"@) == (params.limit is Some),
        params.limit is Some ==> req@.query["limit"@] == QueryValueView::Integer(params.limit->0),
        forall|k: Seq<char>| #[trigger] req@.query.dom().contains(k) ==> (k == "pair"@ || k == "interval"@ || k == "startTime"@ || k == "endTime"@ || k == "limit"@),
{
    proof {
        lemma_index_price_kline_candlestick_data_query(params);
    }
    let IndexPriceKlineCandlestickDataParams { pair, interval, start_time, end_time, limit } = params;
    let mut query = QueryParams::new();
    query.insert("pair".to_owned(), QueryValue::Text(pair));
    query.insert("interval".to_owned(), QueryValue::Text(interval.as_str().to_owned()));
    if let Some(v) = start_time {
        query.insert("startTime".to_owned(), QueryValue::Integer(v));
    }
    if let Some(v) = end_time {
        query.insert("endTime".to_owned(), QueryValue::Integer(v));
    }
    if let Some(v) = limit {
        query.insert("limit".to_owned(), QueryValue::Integer(v));
    }
    RestRequest {
        path: "/fapi/v1/indexPriceKlines",
        method: HttpMethod::Get,
        query,
        uses_time_unit: HAS_TIME_UNIT,
        signed: false,
    }
}

/// The query parameters that `kline_candlestick_data` sends for `p`.
pub open spec fn kline_candlestick_data_query(p: KlineCandlestickDataParams) -> QueryMap {
    QueryMap::empty()
        .put("symbol"@, QueryValueView::Text(p.symbol@))
        .put("interval"@, QueryValueView::Text(p.interval.wire_name()))
        .put_opt("startTime"@, opt_integer(p.start_time))
        .put_opt("endTime"@, opt_integer(p.end_time))
        .put_opt("limit"@, opt_integer(p.limit))
}

/// What `kline_candlestick_data` sends, parameter by parameter: each required parameter
/// under its name with the value given, each optional one exactly when it
/// is given, and no other parameter.
pub proof fn lemma_kline_candlestick_data_query(p: KlineCandlestickDataParams)
    ensures
        kline_candlestick_data_query(p).dom().contains("symbol"@),
        kline_candlestick_data_query(p)["symbol"@] == QueryValueView::Text(p.symbol@),
        kline_candlestick_data_query(p).dom().contains("interval"@),
        kline_candlestick_data_query(p)["interval"@] == QueryValueView::Text(p.interval.wire_name()),
        kline_candlestick_data_query(p).dom().contains("startTime"@) == (p.start_time is Some),
        p.start_time is Some ==> kline_candlestick_data_query(p)["startTime"@] == QueryValueView::Integer(p.start_time->0),
        kline_candlestick_data_query(p).dom().contains("endTime"@) == (p.end_time is Some),
        p.end_time is Some ==> kline_candlestick_data_query(p)["endTime"@] == QueryValueView::Integer(p.end_time->0),
        kline_candlestick_data_query(p).dom().contains("limit"@) == (p.limit is Some),
        p.limit is Some ==> kline_candlestick_data_query(p)["limit"@] == QueryValueView::Integer(p.limit->0),
        forall|k: Seq<char>| #[trigger] kline_candlestick_data_query(p).dom().contains(k) ==> (k == "symbol"@ || k == "interval"@ || k == "startTime"@ || k == "endTime"@ || k == "limit"@),
{
    reveal_strlit("symbol");
    reveal_strlit("interval");
    reveal_strlit("startTime");
    reveal_strlit("endTime");
    reveal_strlit("limit");
    assert("symbol"@.len() == 6);
    assert("interval"@.len() == 8);
    assert("startTime"@.len() == 9);
    assert("endTime"@.len() == 7);
    assert("limit"@.len() == 5);
    assert("symbol"@ != "interval"@);
    assert("symbol"@ != "startTime"@);
    assert("symbol"@ != "endTime"@);
    assert("symbol"@ != "limit"@);
    assert("interval"@ != "startTime"@);
    assert("interval"@ != "endTime"@);
    assert("interval"@ != "limit"@);
    assert("startTime"@ != "endTime"@);
    assert("startTime"@ != "limit"@);
    assert("endTime"@ != "limit"@);
}

/// The request of the `kline_candlestick_data` operation: GET `/fapi/v1/klines`, unsigned.
pub fn kline_candlestick_data(params: KlineCandlestickDataParams) -> (req: RestRequest)
    ensures
        req@ == (RestRequestView {
            path: "/fapi/v1/klines"@,
            method: HttpMethod::Get,
            query: kline_candlestick_data_query(params),
            uses_time_unit: HAS_TIME_UNIT,
            signed: false,
        }),
        req@.query.dom().contains("symbol"@),
        req@.query["symbol"@] == QueryValueView::Text(params.symbol@),
        req@.query.dom().contains("interval"@),
        req@.query["interval"@] == QueryValueView::Text(params.interval.wire_name()),
        req@.query.dom().contains("startTime"@) == (params.start_time is Some),
        params.start_time is Some ==> req@.query["startTime"@] == QueryValueView::Integer(params.start_time->0),
        req@.query.dom().contains("endTime"@) == (params.end_time is Some),
        params.end_time is Some ==> req@.query["endTime"@] == QueryValueView::Integer(params.end_time->0),
        req@.query.dom().contains("limit"@) == (params.limit is Some),
        params.limit is Some ==> req@.query["limit"@] == QueryValueView::Integer(params.limit->0),
        forall|k: Seq<char>| #[trigger] req@.query.dom().contains(k) ==> (k == "symbol"@ || k == "interval"@ || k == "startTime"@ || k == "endTime"@ || k == "limit"@),
{
    proof {
        lemma_kline_candlestick_data_query(params);
    }
    let KlineCandlestickDataParams { symbol, interval, start_time, end_time, limit } = params;
    let mut query = QueryParams::new();
    query.insert("symbol".to_owned(), QueryValue::Text(symbol));
    query.insert("interval".to_owned(), QueryValue::Text(interval.as_str().to_owned()));
    if let Some(v) = start_time {
        query.insert("startTime".to_owned(), QueryValue::Integer(v));
    }
    if let Some(v) = end_time {
        query.insert("endTime".to_owned(), QueryValue::Integer(v));
    }
    if let Some(v) = limit {
        query.insert("limit".to_owned(), QueryValue::Integer(v));
    }
    RestRequest {
        path: "/fapi/v1/klines",
        method: HttpMethod::Get,
        query,
        uses_time_unit: HAS_TIME_UNIT,
        signed: false,
    }
}

/// The query parameters that `long_short_ratio` sends for `p`.
pub open spec fn long_short_ratio_query(p: LongShortRatioParams) -> QueryMap {
    QueryMap::empty()
        .put("symbol"@, QueryValueView::Text(p.symbol@))
        .put("period"@, QueryValueView::Text(p.period.wire_name()))
        .put_opt("limit"@, opt_integer(p.limit))
        .put_opt("startTime"@, opt_integer(p.start_time))
        .put_opt("endTime"@, opt_integer(p.end_time))
}

/// What `long_short_ratio` sends, parameter by parameter: each required parameter
/// under its name with the value given, each optional one exactly when it
/// is given, and no other parameter.
pub proof fn lemma_long_short_ratio_query(p: LongShortRatioParams)
    ensures
        long_short_ratio_query(p).dom().contains("symbol"@),
        long_short_ratio_query(p)["symbol"@] == QueryValueView::Text(p.symbol@),
        long_short_ratio_query(p).dom().contains("period"@),
        long_short_ratio_query(p)["period"@] == QueryValueView::Text(p.period.wire_name()),
        long_short_ratio_query(p).dom().contains("limit"@) == (p.limit is Some),
        p.limit is Some ==> long_short_ratio_query(p)["limit"@] == QueryValueView::Integer(p.limit->0),
        long_short_ratio_query(p).dom().contains("startTime"@) == (p.start_time is Some),
        p.start_time is Some ==> long_short_ratio_query(p)["startTime"@] == QueryValueView::Integer(p.start_time->0),
        long_short_ratio_query(p).dom().contains("endTime"@) == (p.end_time is Some),
        p.end_time is Some ==> long_short_ratio_query(p)["endTime"@] == QueryValueView::Integer(p.end_time->0),
        forall|k: Seq<char>| #[trigger] long_short_ratio_query(p).dom().contains(k) ==> (k == "symbol"@ || k == "period"@ || k == "limit"@ || k == "startTime"@ || k == "endTime"@),
{
    reveal_strlit("symbol");
    reveal_strlit("period");
    reveal_strlit("limit");
    reveal_strlit("startTime");
    reveal_strlit("endTime");
    assert("symbol"@.len() == 6);
    assert("period"@.len() == 6);
    assert("limit"@.len() == 5);
    assert("startTime"@.len() == 9);
    assert("endTime"@.len() == 7);
    assert("symbol"@[0] == 's');
    assert("period"@[0] == 'p');
    assert("symbol"@ != "period"@);
    assert("symbol"@ != "limit"@);
    assert("symbol"@ != "startTime"@);
    assert("symbol"@ != "endTime"@);
    assert("period"@ != "limit"@);
    assert("period"@ != "startTime"@);
    assert("period"@ != "endTime"@);
    assert("limit"@ != "startTime"@);
    assert("limit"@ != "endTime"@);
    assert("startTime"@ != "endTime"@);
}

/// The request of the `long_short_ratio` operation: GET `/futures/data/globalLongShortAccountRatio`, unsigned.
pub fn long_short_ratio(params: LongShortRatioParams) -> (req: RestRequest)
    ensures
        req@ == (RestRequestView {
            path: "/futures/data/globalLongShortAccountRatio"@,
            method: HttpMethod::Get,
            query: long_short_ratio_query(params),
            uses_time_unit: HAS_TIME_UNIT,
            signed: false,
        }),
        req@.query.dom().contains("symbol"@),
        req@.query["symbol"@] == QueryValueView::Text(params.symbol@),
        req@.query.dom().contains("period"@),
        req@.query["period"@] == QueryValueView::Text(params.period.wire_name()),
        req@.query.dom().contains("limit"@) == (params.limit is Some),
        params.limit is Some ==> req@.query["limit"@] == QueryValueView::Integer(params.limit->0),
        req@.query.dom().contains("startTime"@) == (params.start_time is Some),
        params.start_time is Some ==> req@.query["startTime"@] == QueryValueView::Integer(params.start_time->0),
        req@.query.dom().contains("endTime"@) == (params.end_time is Some),
        params.end_time is Some ==> req@.query["endTime"@] == QueryValueView::Integer(params.end_time->0),
        forall|k: Seq<char>| #[trigger] req@.query.dom().contains(k) ==> (k == "symbol"@ || k == "period"@ || k == "limit"@ || k == "startTime"@ || k == "endTime"@),
{
    proof {
        lemma_long_short_ratio_query(params);
    }
    let LongShortRatioParams { symbol, period, limit, start_time, end_time } = params;
    let mut query = QueryParams::new();
    query.insert("symbol".to_owned(), QueryValue::Text(symbol));
    query.insert("period".to_owned(), QueryValue::Text(period.as_str().to_owned()));
    if let Some(v) = limit {
        query.insert("limit".to_owned(), QueryValue::Integer(v));
    }
    if let Some(v) = start_time {
        query.insert("startTime".to_owned(), QueryValue::Integer(v));
    }
    if let Some(v) = end_time {
        query.insert("endTime".to_owned(), QueryValue::Integer(v));
    }
    RestRequest {
        path: "/futures/data/globalLongShortAccountRatio",
        method: HttpMethod::Get,
        query,
        uses_time_unit: HAS_TIME_UNIT,
        signed: false,
    }
}

/// The query parameters that `mark_price` sends for `p`.
pub open spec fn mark_price_query(p: MarkPriceParams) -> QueryMap {
    QueryMap::empty()
        .put_opt("symbol"@, opt_text(p.symbol))
}

/// What `mark_price` sends, parameter by parameter: each required parameter
/// under its name with the value given, each optional one exactly when it
/// is given, and no other parameter.
pub proof fn lemma_mark_price_query(p: MarkPriceParams)
    ensures
        mark_price_query(p).dom().contains("symbol"@) == (p.symbol is Some),
        p.symbol is Some ==> mark_price_query(p)["symbol"@] == QueryValueView::Text(p.symbol->0@),
        forall|k: Seq<char>| #[trigger] mark_price_query(p).dom().contains(k) ==> (k == "symbol"@),
{
    reveal_strlit("symbol");
    assert("symbol"@.len() == 6);
}

/// The request of the `mark_price` operation: GET `/fapi/v1/premiumIndex`, unsigned.
pub fn mark_price(params: MarkPriceParams) -> (req: RestRequest)
    ensures
        req@ == (RestRequestView {
            path: "/fapi/v1/premiumIndex"@,
            method: HttpMethod::Get,
            query: mark_price_query(params),
            uses_time_unit: HAS_TIME_UNIT,
            signed: false,
        }),
        req@.query.dom().contains("symbol"@) == (params.symbol is Some),
        params.symbol is Some ==> req@.query["symbol"@] == QueryValueView::Text(params.symbol->0@),
        forall|k: Seq<char>| #[trigger] req@.query.dom().contains(k) ==> (k == "symbol"@),
{
    proof {
        lemma_mark_price_query(params);
    }
    let MarkPriceParams { symbol } = params;
    let mut query = QueryParams::new();
    if let Some(v) = symbol {
        query.insert("symbol".to_owned(), QueryValue::Text(v));
    }
    RestRequest {
        path: "/fapi/v1/premiumIndex",
        method: HttpMethod::Get,
        query,
        uses_time_unit: HAS_TIME_UNIT,
        signed: false,
    }
}

/// The query parameters that `mark_price_kline_candlestick_data` sends for `p`.
pub open spec fn mark_price_kline_candlestick_data_query(p: MarkPriceKlineCandlestickDataParams) -> QueryMap {
    QueryMap::empty()
        .put("symbol"@, QueryValueView::Text(p.symbol@))
        .put("interval"@, QueryValueView::Text(p.interval.wire_name()))
        .put_opt("startTime"@, opt_integer(p.start_time))
        .put_opt("endTime"@, opt_integer(p.end_time))
        .put_opt("limit"@, opt_integer(p.limit))
}

/// What `mark_price_kline_candlestick_data` sends, parameter by parameter: each required parameter
/// under its name with the value given, each optional one exactly when it
/// is given, and no other parameter.
pub proof fn lemma_mark_price_kline_candlestick_data_query(p: MarkPriceKlineCandlestickDataParams)
    ensures
        mark_price_kline_candlestick_data_query(p).dom().contains("symbol"@),
        mark_price_kline_candlestick_data_query(p)["symbol"@] == QueryValueView::Text(p.symbol@),
        mark_price_kline_candlestick_data_query(p).dom().contains("interval"@),
        mark_price_kline_candlestick_data_query(p)["interval"@] == QueryValueView::Text(p.interval.wire_name()),
        mark_price_kline_candlestick_data_query(p).dom().contains("startTime"@) == (p.start_time is Some),
        p.start_time is Some ==> mark_price_kline_candlestick_data_query(p)["startTime"@] == QueryValueView::Integer(p.start_time->0),
        mark_price_kline_candlestick_data_query(p).dom().contains("endTime"@) == (p.end_time is Some),
        p.end_time is Some ==> mark_price_kline_candlestick_data_query(p)["endTime"@] == QueryValueView::Integer(p.end_time->0),
        mark_price_kline_candlestick_data_query(p).dom().contains("limit"@) == (p.limit is Some),
        p.limit is Some ==> mark_price_kline_candlestick_data_query(p)["limit"@] == QueryValueView::Integer(p.limit->0),
        forall|k: Seq<char>| #[trigger] mark_price_kline_candlestick_data_query(p).dom().contains(k) ==> (k == "symbol"@ || k == "interval"@ || k == "startTime"@ || k == "endTime"@ || k == "limit"@),
{
    reveal_strlit("symbol");
    reveal_strlit("interval");
    reveal_strlit("startTime");
    reveal_strlit("endTime");
    reveal_strlit("limit");
    assert("symbol"@.len() == 6);
    assert("interval"@.len() == 8);
    assert("startTime"@.len() == 9);
    assert("endTime"@.len() == 7);
    assert("limit"@.len() == 5);
    assert("symbol"@ != "interval"@);
    assert("symbol"@ != "startTime"@);
    assert("symbol"@ != "endTime"@);
    assert("symbol"@ != "limit"@);
    assert("interval"@ != "startTime"@);
    assert("interval"@ != "endTime"@);
    assert("interval"@ != "limit"@);
    assert("startTime"@ != "endTime"@);
    assert("startTime"@ != "limit"@);
    assert("endTime"@ != "limit"@);
}

/// The request of the `mark_price_kline_candlestick_data` operation: GET `/fapi/v1/markPriceKlines`, unsigned.
pub fn mark_price_kline_candlestick_data(params: MarkPriceKlineCandlestickDataParams) -> (req: RestRequest)
    ensures
        req@ == (RestRequestView {
            path: "/fapi/v1/markPriceKlines"@,
            method: HttpMethod::Get,
            query: mark_price_kline_candlestick_data_query(params),
            uses_time_unit: HAS_TIME_UNIT,
            signed: false,
        }),
        req@.query.dom().contains("symbol"@),
        req@.query["symbol"@] == QueryValueView::Text(params.symbol@),
        req@.query.dom().contains("interval"@),
        req@.query["interval"@] == QueryValueView::Text(params.interval.wire_name()),
        req@.query.dom().contains("startTime"@) == (params.start_time is Some),
        params.start_time is Some ==> req@.query["startTime"@] == QueryValueView::Integer(params.start_time->0),
        req@.query.dom().contains("endTime"@) == (params.end_time is Some),
        params.end_time is Some ==> req@.query["endTime"@] == QueryValueView::Integer(params.end_time->0),
        req@.query.dom().contains("limit"@) == (params.limit is Some),
        params.limit is Some ==> req@.query["limit"@] == QueryValueView::Integer(params.limit->0),
        forall|k: Seq<char>| #[trigger] req@.query.dom().contains(k) ==> (k == "symbol"@ || k == "interval"@ || k == "startTime"@ || k == "endTime"@ || k == "limit"@),
{
    proof {
        lemma_mark_price_kline_candlestick_data_query(params);
    }
    let MarkPriceKlineCandlestickDataParams { symbol, interval, start_time, end_time, limit } = params;
    let mut query = QueryParams::new();
    query.insert("symbol".to_owned(), QueryValue::Text(symbol));
    query.insert("interval".to_owned(), QueryValue::Text(interval.as_str().to_owned()));
    if let Some(v) = start_time {
        query.insert("startTime".to_owned(), QueryValue::Integer(v));
    }
    if let Some(v) = end_time {
        query.insert("endTime".to_owned(), QueryValue::Integer(v));
    }
    if let Some(v) = limit {
        query.insert("limit".to_owned(), QueryValue::Integer(v));
    }
    RestRequest {
        path: "/fapi/v1/markPriceKlines",
        method: HttpMethod::Get,
        query,
        uses_time_unit: HAS_TIME_UNIT,
        signed: false,
    }
}

/// The query parameters that `multi_assets_mode_asset_index` sends for `p`.
pub open spec fn multi_assets_mode_asset_index_query(p: MultiAssetsModeAssetIndexParams) -> QueryMap {
    QueryMap::empty()
        .put_opt("symbol"@, opt_text(p.symbol))
}

/// What `multi_assets_mode_asset_index` sends, parameter by parameter: each required parameter
/// under its name with the value given, each optional one exactly when it
/// is given, and no other parameter.
pub proof fn lemma_multi_assets_mode_asset_index_query(p: MultiAssetsModeAssetIndexParams)
    ensures
        multi_assets_mode_asset_index_query(p).dom().contains("symbol"@) == (p.symbol is Some),
        p.symbol is Some ==> multi_assets_mode_asset_index_query(p)["symbol"@] == QueryValueView::Text(p.symbol->0@),
        forall|k: Seq<char>| #[trigger] multi_assets_mode_asset_index_query(p).dom().contains(k) ==> (k == "symbol"@),
{
    reveal_strlit("symbol");
    assert("symbol"@.len() == 6);
}

/// The request of the `multi_assets_mode_asset_index` operation: GET `/fapi/v1/assetIndex`, unsigned.
pub fn multi_assets_mode_asset_index(params: MultiAssetsModeAssetIndexParams) -> (req: RestRequest)
    ensures
        req@ == (RestRequestView {
            path: "/fapi/v1/assetIndex"@,
            method: HttpMethod::Get,
            query: multi_assets_mode_asset_index_query(params),
            uses_time_unit: HAS_TIME_UNIT,
            signed: false,
        }),
        req@.query.dom().contains("symbol"@) == (params.symbol is Some),
        params.symbol is Some ==> req@.query["symbol"@] == QueryValueView::Text(params.symbol->0@),
        forall|k: Seq<char>| #[trigger] req@.query.dom().contains(k) ==> (k == "symbol"@),
{
    proof {
        lemma_multi_assets_mode_asset_index_query(params);
    }
    let MultiAssetsModeAssetIndexParams { symbol } = params;
    let mut query = QueryParams::new();
    if let Some(v) = symbol {
        query.insert("symbol".to_owned(), QueryValue::Text(v));
    }
    RestRequest {
        path: "/fapi/v1/assetIndex",
        method: HttpMethod::Get,
        query,
        uses_time_unit: HAS_TIME_UNIT,
        signed: false,
    }
}

/// The query parameters that `old_trades_lookup` sends for `p`.
pub open spec fn old_trades_lookup_query(p: OldTradesLookupParams) -> QueryMap {
    QueryMap::empty()
        .put("symbol"@, QueryValueView::Text(p.symbol@))
        .put_opt("limit"@, opt_integer(p.limit))
        .put_opt("fromId"@, opt_integer(p.from_id))
}

/// What `old_trades_lookup` sends, parameter by parameter: each required parameter
/// under its name with the value given, each optional one exactly when it
/// is given, and no other parameter.
pub proof fn lemma_old_trades_lookup_query(p: OldTradesLookupParams)
    ensures
        old_trades_lookup_query(p).dom().contains("symbol"@),
        old_trades_lookup_query(p)["symbol"@] == QueryValueView::Text(p.symbol@),
        old_trades_lookup_query(p).dom().contains("limit"@) == (p.limit is Some),
        p.limit is Some ==> old_trades_lookup_query(p)["limit"@] == QueryValueView::Integer(p.limit->0),
        old_trades_lookup_query(p).dom().contains("fromId"@) == (p.from_id is Some),
        p.from_id is Some ==> old_trades_lookup_query(p)["fromId"@] == QueryValueView::Integer(p.from_id->0),
        forall|k: Seq<char>| #[trigger] old_trades_lookup_query(p).dom().contains(k) ==> (k == "symbol"@ || k == "limit"@ || k == "fromId"@),
{
    reveal_strlit("symbol");
    reveal_strlit("limit");
    reveal_strlit("fromId");
    assert("symbol"@.len() == 6);
    assert("limit"@.len() == 5);
    assert("fromId"@.len() == 6);
    assert("symbol"@[0] == 's');
    assert("fromId"@[0] == 'f');
    assert("symbol"@ != "limit"@);
    assert("symbol"@ != "fromId"@);
    assert("limit"@ != "fromId"@);
}

/// The request of the `old_trades_lookup` operation: GET `/fapi/v1/historicalTrades`, unsigned.
pub fn old_trades_lookup(params: OldTradesLookupParams) -> (req: RestRequest)
    ensures
        req@ == (RestRequestView {
            path: "/fapi/v1/historicalTrades"@,
            method: HttpMethod::Get,
            query: old_trades_lookup_query(params),
            uses_time_unit: HAS_TIME_UNIT,
            signed: false,
        }),
        req@.query.dom().contains("symbol"@),
        req@.query["symbol"@] == QueryValueView::Text(params.symbol@),
        req@.query.dom().contains("limit"@) == (params.limit is Some),
        params.limit is Some ==> req@.query["limit"@] == QueryValueView::Integer(params.limit->0),
        req@.query.dom().contains("fromId"@) == (params.from_id is Some),
        params.from_id is Some ==> req@.query["fromId"@] == QueryValueView::Integer(params.from_id->0),
        forall|k: Seq<char>| #[trigger] req@.query.dom().contains(k) ==> (k == "symbol"@ || k == "limit"@ || k == "fromId"@),
{
    proof {
        lemma_old_trades_lookup_query(params);
    }
    let OldTradesLookupParams { symbol, limit, from_id } = params;
    let mut query = QueryParams::new();
    query.insert("symbol".to_owned(), QueryValue::Text(symbol));
    if let Some(v) = limit {
        query.insert("limit".to_owned(), QueryValue::Integer(v));
    }
    if let Some(v) = from_id {
        query.insert("fromId".to_owned(), QueryValue::Integer(v));
    }
    RestRequest {
        path: "/fapi/v1/historicalTrades",
        method: HttpMethod::Get,
        query,
        uses_time_unit: HAS_TIME_UNIT,
        signed: false,
    }
}

/// The query parameters that `open_interest` sends for `p`.
pub open spec fn open_interest_query(p: OpenInterestParams) -> QueryMap {
    QueryMap::empty()
        .put("symbol"@, QueryValueView::Text(p.symbol@))
}

/// What `open_interest` sends, parameter by parameter: each required parameter
/// under its name with the value given, each optional one exactly when it
/// is given, and no other parameter.
pub proof fn lemma_open_interest_query(p: OpenInterestParams)
    ensures
        open_interest_query(p).dom().contains("symbol"@),
        open_interest_query(p)["symbol"@] == QueryValueView::Text(p.symbol@),
        forall|k: Seq<char>| #[trigger] open_interest_query(p).dom().contains(k) ==> (k == "symbol"@),
{
    reveal_strlit("symbol");
    assert("symbol"@.len() == 6);
}

/// The request of the `open_interest` operation: GET `/fapi/v1/openInterest`, unsigned.
pub fn open_interest(params: OpenInterestParams) -> (req: RestRequest)
    ensures
        req@ == (RestRequestView {
            path: "/fapi/v1/openInterest"@,
            method: HttpMethod::Get,
            query: open_interest_query(params),
            uses_time_unit: HAS_TIME_UNIT,
            signed: false,
        }),
        req@.query.dom().contains("symbol"@),
        req@.query["symbol"@] == QueryValueView::Text(params.symbol@),
        forall|k: Seq<char>| #[trigger] req@.query.dom().contains(k) ==> (k == "symbol"@),
{
    proof {
        lemma_open_interest_query(params);
    }
    let OpenInterestParams { symbol } = params;
    let mut query = QueryParams::new();
    query.insert("symbol".to_owned(), QueryValue::Text(symbol));
    RestRequest {
        path: "/fapi/v1/openInterest",
        method: HttpMethod::Get,
        query,
        uses_time_unit: HAS_TIME_UNIT,
        signed: false,
    }
}

/// The query parameters that `open_interest_statistics` sends for `p`.
pub open spec fn open_interest_statistics_query(p: OpenInterestStatisticsParams) -> QueryMap {
    QueryMap::empty()
        .put("symbol"@, QueryValueView::Text(p.symbol@))
        .put("period"@, QueryValueView::Text(p.period.wire_name()))
        .put_opt("limit"@, opt_integer(p.limit))
        .put_opt("startTime"@, opt_integer(p.start_time))
        .put_opt("endTime"@, opt_integer(p.end_time))
}

/// What `open_interest_statistics` sends, parameter by parameter: each required parameter
/// under its name with the value given, each optional one exactly when it
/// is given, and no other parameter.
pub proof fn lemma_open_interest_statistics_query(p: OpenInterestStatisticsParams)
    ensures
        open_interest_statistics_query(p).dom().contains("symbol"@),
        open_interest_statistics_query(p)["symbol"@] == QueryValueView::Text(p.symbol@),
        open_interest_statistics_query(p).dom().contains("period"@),
        open_interest_statistics_query(p)["period"@] == QueryValueView::Text(p.period.wire_name()),
        open_interest_statistics_query(p).dom().contains("limit"@) == (p.limit is Some),
        p.limit is Some ==> open_interest_statistics_query(p)["limit"@] == QueryValueView::Integer(p.limit->0),
        open_interest_statistics_query(p).dom().contains("startTime"@) == (p.start_time is Some),
        p.start_time is Some ==> open_interest_statistics_query(p)["startTime"@] == QueryValueView::Integer(p.start_time->0),
        open_interest_statistics_query(p).dom().contains("endTime"@) == (p.end_time is Some),
        p.end_time is Some ==> open_interest_statistics_query(p)["endTime"@] == QueryValueView::Integer(p.end_time->0),
        forall|k: Seq<char>| #[trigger] open_interest_statistics_query(p).dom().contains(k) ==> (k == "symbol"@ || k == "period"@ || k == "limit"@ || k == "startTime"@ || k == "endTime"@),
{
    reveal_strlit("symbol");
    reveal_strlit("period");
    reveal_strlit("limit");
    reveal_strlit("startTime");
    reveal_strlit("endTime");
    assert("symbol"@.len() == 6);
    assert("period"@.len() == 6);
    assert("limit"@.len() == 5);
    assert("startTime"@.len() == 9);
    assert("endTime"@.len() == 7);
    assert("symbol"@[0] == 's');
    assert("period"@[0] == 'p');
    assert("symbol"@ != "period"@);
    assert("symbol"@ != "limit"@);
    assert("symbol"@ != "startTime"@);
    assert("symbol"@ != "endTime"@);
    assert("period"@ != "limit"@);
    assert("period"@ != "startTime"@);
    assert("period"@ != "endTime"@);
    assert("limit"@ != "startTime"@);
    assert("limit"@ != "endTime"@);
    assert("startTime"@ != "endTime"@);
}

/// The request of the `open_interest_statistics` operation: GET `/futures/data/openInterestHist`, unsigned.
pub fn open_interest_statistics(params: OpenInterestStatisticsParams) -> (req: RestRequest)
    ensures
        req@ == (RestRequestView {
            path: "/futures/data/openInterestHist"@,
            method: HttpMethod::Get,
            query: open_interest_statistics_query(params),
            uses_time_unit: HAS_TIME_UNIT,
            signed: false,
        }),
        req@.query.dom().contains("symbol"@),
        req@.query["symbol"@] == QueryValueView::Text(params.symbol@),
        req@.query.dom().contains("period"@),
        req@.query["period"@] == QueryValueView::Text(params.period.wire_name()),
        req@.query.dom().contains("limit"@) == (params.limit is Some),
        params.limit is Some ==> req@.query["limit"@] == QueryValueView::Integer(params.limit->0),
        req@.query.dom().contains("startTime"@) == (params.start_time is Some),
        params.start_time is Some ==> req@.query["startTime"@] == QueryValueView::Integer(params.start_time->0),
        req@.query.dom().contains("endTime"@) == (params.end_time is Some),
        params.end_time is Some ==> req@.query["endTime"@] == QueryValueView::Integer(params.end_time->0),
        forall|k: Seq<char>| #[trigger] req@.query.dom().contains(k) ==> (k == "symbol"@ || k == "period"@ || k == "limit"@ || k == "startTime"@ || k == "endTime"@),
{
    proof {
        lemma_open_interest_statistics_query(params);
    }
    let OpenInterestStatisticsParams { symbol, period, limit, start_time, end_time } = params;
    let mut query = QueryParams::new();
    query.insert("symbol".to_owned(), QueryValue::Text(symbol));
    query.insert("period".to_owned(), QueryValue::Text(period.as_str().to_owned()));
    if let Some(v) = limit {
        query.insert("limit".to_owned(), QueryValue::Integer(v));
    }
    if let Some(v) = start_time {
        query.insert("startTime".to_owned(), QueryValue::Integer(v));
    }
    if let Some(v) = end_time {
        query.insert("endTime".to_owned(), QueryValue::Integer(v));
    }
    RestRequest {
        path: "/futures/data/openInterestHist",
        method: HttpMethod::Get,
        query,
        uses_time_unit: HAS_TIME_UNIT,
        signed: false,
    }
}

/// The query parameters that `order_book` sends for `p`.
pub open spec fn order_book_query(p: OrderBookParams) -> QueryMap {
    QueryMap::empty()
        .put("symbol"@, QueryValueView::Text(p.symbol@))
        .put_opt("limit"@, opt_integer(p.limit))
}

/// What `order_book` sends, parameter by parameter: each required parameter
/// under its name with the value given, each optional one exactly when it
/// is given, and no other parameter.
pub proof fn lemma_order_book_query(p: OrderBookParams)
    ensures
        order_book_query(p).dom().contains("symbol"@),
        order_book_query(p)["symbol"@] == QueryValueView::Text(p.symbol@),
        order_book_query(p).dom().contains("limit"@) == (p.limit is Some),
        p.limit is Some ==> order_book_query(p)["limit"@] == QueryValueView::Integer(p.limit->0),
        forall|k: Seq<char>| #[trigger] order_book_query(p).dom().contains(k) ==> (k == "symbol"@ || k == "limit"@),
{
    reveal_strlit("symbol");
    reveal_strlit("limit");
    assert("symbol"@.len() == 6);
    assert("limit"@.len() == 5);
    assert("symbol"@ != "limit"@);
}

/// The request of the `order_book` operation: GET `/fapi/v1/depth`, unsigned.
pub fn order_book(params: OrderBookParams) -> (req: RestRequest)
    ensures
        req@ == (RestRequestView {
            path: "/fapi/v1/depth"@,
            method: HttpMethod::Get,
            query: order_book_query(params),
            uses_time_unit: HAS_TIME_UNIT,
            signed: false,
        }),
        req@.query.dom().contains("symbol"@),
        req@.query["symbol"@] == QueryValueView::Text(params.symbol@),
        req@.query.dom().contains("limit"@) == (params.limit is Some),
        params.limit is Some ==> req@.query["limit"@] == QueryValueView::Integer(params.limit->0),
        forall|k: Seq<char>| #[trigger] req@.query.dom().contains(k) ==> (k == "symbol"@ || k == "limit"@),
{
    proof {
        lemma_order_book_query(params);
    }
    let OrderBookParams { symbol, limit } = params;
    let mut query = QueryParams::new();
    query.insert("symbol".to_owned(), QueryValue::Text(symbol));
    if let Some(v) = limit {
        query.insert("limit".to_owned(), QueryValue::Integer(v));
    }
    RestRequest {
        path: "/fapi/v1/depth",
        method: HttpMethod::Get,
        query,
        uses_time_unit: HAS_TIME_UNIT,
        signed: false,
    }
}

/// The query parameters that `premium_index_kline_data` sends for `p`.
pub open spec fn premium_index_kline_data_query(p: PremiumIndexKlineDataParams) -> QueryMap {
    QueryMap::empty()
        .put("symbol"@, QueryValueView::Text(p.symbol@))
        .put("interval"@, QueryValueView::Text(p.interval.wire_name()))
        .put_opt("startTime"@, opt_integer(p.start_time))
        .put_opt("endTime"@, opt_integer(p.end_time))
        .put_opt("limit"@, opt_integer(p.limit))
}

/// What `premium_index_kline_data` sends, parameter by parameter: each required parameter
/// under its name with the value given, each optional one exactly when it
/// is given, and no other parameter.
pub proof fn lemma_premium_index_kline_data_query(p: PremiumIndexKlineDataParams)
    ensures
        premium_index_kline_data_query(p).dom().contains("symbol"@),
        premium_index_kline_data_query(p)["symbol"@] == QueryValueView::Text(p.symbol@),
        premium_index_kline_data_query(p).dom().contains("interval"@),
        premium_index_kline_data_query(p)["interval"@] == QueryValueView::Text(p.interval.wire_name()),
        premium_index_kline_data_query(p).dom().contains("startTime"@) == (p.start_time is Some),
        p.start_time is Some ==> premium_index_kline_data_query(p)["startTime"@] == QueryValueView::Integer(p.start_time->0),
        premium_index_kline_data_query(p).dom().contains("endTime"@) == (p.end_time is Some),
        p.end_time is Some ==> premium_index_kline_data_query(p)["endTime"@] == QueryValueView::Integer(p.end_time->0),
        premium_index_kline_data_query(p).dom().contains("limit"@) == (p.limit is Some),
        p.limit is Some ==> premium_index_kline_data_query(p)["limit"@] == QueryValueView::Integer(p.limit->0),
        forall|k: Seq<char>| #[trigger] premium_index_kline_data_query(p).dom().contains(k) ==> (k == "symbol"@ || k == "interval"@ || k == "startTime"@ || k == "endTime"@ || k == "limit"@),
{
    reveal_strlit("symbol");
    reveal_strlit("interval");
    reveal_strlit("startTime");
    reveal_strlit("endTime");
    reveal_strlit("limit");
    assert("symbol"@.len() == 6);
    assert("interval"@.len() == 8);
    assert("startTime"@.len() == 9);
    assert("endTime"@.len() == 7);
    assert("limit"@.len() == 5);
    assert("symbol"@ != "interval"@);
    assert("symbol"@ != "startTime"@);
    assert("symbol"@ != "endTime"@);
    assert("symbol"@ != "limit"@);
    assert("interval"@ != "startTime"@);
    assert("interval"@ != "endTime"@);
    assert("interval"@ != "limit"@);
    assert("startTime"@ != "endTime"@);
    assert("startTime"@ != "limit"@);
    assert("endTime"@ != "limit"@);
}

/// The request of the `premium_index_kline_data` operation: GET `/fapi/v1/premiumIndexKlines`, unsigned.
pub fn premium_index_kline_data(params: PremiumIndexKlineDataParams) -> (req: RestRequest)
    ensures
        req@ == (RestRequestView {
            path: "/fapi/v1/premiumIndexKlines"@,
            method: HttpMethod::Get,
            query: premium_index_kline_data_query(params),
            uses_time_unit: HAS_TIME_UNIT,
            signed: false,
        }),
        req@.query.dom().contains("symbol"@),
        req@.query["symbol"@] == QueryValueView::Text(params.symbol@),
        req@.query.dom().contains("interval"@),
        req@.query["interval"@] == QueryValueView::Text(params.interval.wire_name()),
        req@.query.dom().contains("startTime"@) == (params.start_time is Some),
        params.start_time is Some ==> req@.query["startTime"@] == QueryValueView::Integer(params.start_time->0),
        req@.query.dom().contains("endTime"@) == (params.end_time is Some),
        params.end_time is Some ==> req@.query["endTime"@] == QueryValueView::Integer(params.end_time->0),
        req@.query.dom().contains("limit"@) == (params.limit is Some),
        params.limit is Some ==> req@.query["limit"@] == QueryValueView::Integer(params.limit->0),
        forall|k: Seq<char>| #[trigger] req@.query.dom().contains(k) ==> (k == "symbol"@ || k == "interval"@ || k == "startTime"@ || k == "endTime"@ || k == "limit"@),
{
    proof {
        lemma_premium_index_kline_data_query(params);
    }
    let PremiumIndexKlineDataParams { symbol, interval, start_time, end_time, limit } = params;
    let mut query = QueryParams::new();
    query.insert("symbol".to_owned(), QueryValue::Text(symbol));
    query.insert("interval".to_owned(), QueryValue::Text(interval.as_str().to_owned()));
    if let Some(v) = start_time {
        query.insert("startTime".to_owned(), QueryValue::Integer(v));
    }
    if let Some(v) = end_time {
        query.insert("endTime".to_owned(), QueryValue::Integer(v));
    }
    if let Some(v) = limit {
        query.insert("limit".to_owned(), QueryValue::Integer(v));
    }
    RestRequest {
        path: "/fapi/v1/premiumIndexKlines",
        method: HttpMethod::Get,
        query,
        uses_time_unit: HAS_TIME_UNIT,
        signed: false,
    }
}

/// The query parameters that `quarterly_contract_settlement_price` sends for `p`.
pub open spec fn quarterly_contract_settlement_price_query(p: QuarterlyContractSettlementPriceParams) -> QueryMap {
    QueryMap::empty()
        .put("pair"@, QueryValueView::Text(p.pair@))
}

/// What `quarterly_contract_settlement_price` sends, parameter by parameter: each required parameter
/// under its name with the value given, each optional one exactly when it
/// is given, and no other parameter.
pub proof fn lemma_quarterly_contract_settlement_price_query(p: QuarterlyContractSettlementPriceParams)
    ensures
        quarterly_contract_settlement_price_query(p).dom().contains("pair"@),
        quarterly_contract_settlement_price_query(p)["pair"@] == QueryValueView::Text(p.pair@),
        forall|k: Seq<char>| #[trigger] quarterly_contract_settlement_price_query(p).dom().contains(k) ==> (k == "pair"@),
{
    reveal_strlit("pair");
    assert("pair"@.len() == 4);
}

/// The request of the `quarterly_contract_settlement_price` operation: GET `/futures/data/delivery-price`, unsigned.
pub fn quarterly_contract_settlement_price(params: QuarterlyContractSettlementPriceParams) -> (req: RestRequest)
    ensures
        req@ == (RestRequestView {
            path: "/futures/data/delivery-price"@,
            method: HttpMethod::Get,
            query: quarterly_contract_settlement_price_query(params),
            uses_time_unit: HAS_TIME_UNIT,
            signed: false,
        }),
        req@.query.dom().contains("pair"@),
        req@.query["pair"@] == QueryValueView::Text(params.pair@),
        forall|k: Seq<char>| #[trigger] req@.query.dom().contains(k) ==> (k == "pair"@),
{
    proof {
        lemma_quarterly_contract_settlement_price_query(params);
    }
    let QuarterlyContractSettlementPriceParams { pair } = params;
    let mut query = QueryParams::new();
    query.insert("pair".to_owned(), QueryValue::Text(pair));
    RestRequest {
        path: "/futures/data/delivery-price",
        method: HttpMethod::Get,
        query,
        uses_time_unit: HAS_TIME_UNIT,
        signed: false,
    }
}

/// The query parameters that `query_index_price_constituents` sends for `p`.
pub open spec fn query_index_price_constituents_query(p: QueryIndexPriceConstituentsParams) -> QueryMap {
    QueryMap::empty()
        .put("symbol"@, QueryValueView::Text(p.symbol@))
}

/// What `query_index_price_constituents` sends, parameter by parameter: each required parameter
/// under its name with the value given, each optional one exactly when it
/// is given, and no other parameter.
pub proof fn lemma_query_index_price_constituents_query(p: QueryIndexPriceConstituentsParams)
    ensures
        query_index_price_constituents_query(p).dom().contains("symbol"@),
        query_index_price_constituents_query(p)["symbol"@] == QueryValueView::Text(p.symbol@),
        forall|k: Seq<char>| #[trigger] query_index_price_constituents_query(p).dom().contains(k) ==> (k == "symbol"@),
{
    reveal_strlit("symbol");
    assert("symbol"@.len() == 6);
}

/// The request of the `query_index_price_constituents` operation: GET `/fapi/v1/constituents`, unsigned.
pub fn query_index_price_constituents(params: QueryIndexPriceConstituentsParams) -> (req: RestRequest)
    ensures
        req@ == (RestRequestView {
            path: "/fapi/v1/constituents"@,
            method: HttpMethod::Get,
            query: query_index_price_constituents_query(params),
            uses_time_unit: HAS_TIME_UNIT,
            signed: false,
        }),
        req@.query.dom().contains("symbol"@),
        req@.query["symbol"@] == QueryValueView::Text(params.symbol@),
        forall|k: Seq<char>| #[trigger] req@.query.dom().contains(k) ==> (k == "symbol"@),
{
    proof {
        lemma_query_index_price_constituents_query(params);
    }
    let QueryIndexPriceConstituentsParams { symbol } = params;
    let mut query = QueryParams::new();
    query.insert("symbol".to_owned(), QueryValue::Text(symbol));
    RestRequest {
        path: "/fapi/v1/constituents",
        method: HttpMethod::Get,
        query,
        uses_time_unit: HAS_TIME_UNIT,
        signed: false,
    }
}

/// The query parameters that `query_insurance_fund_balance_snapshot` sends for `p`.
pub open spec fn query_insurance_fund_balance_snapshot_query(p: QueryInsuranceFundBalanceSnapshotParams) -> QueryMap {
    QueryMap::empty()
        .put_opt("symbol"@, opt_text(p.symbol))
}

/// What `query_insurance_fund_balance_snapshot` sends, parameter by parameter: each required parameter
/// under its name with the value given, each optional one exactly when it
/// is given, and no other parameter.
pub proof fn lemma_query_insurance_fund_balance_snapshot_query(p: QueryInsuranceFundBalanceSnapshotParams)
    ensures
        query_insurance_fund_balance_snapshot_query(p).dom().contains("symbol"@) == (p.symbol is Some),
        p.symbol is Some ==> query_insurance_fund_balance_snapshot_query(p)["symbol"@] == QueryValueView::Text(p.symbol->0@),
        forall|k: Seq<char>| #[trigger] query_insurance_fund_balance_snapshot_query(p).dom().contains(k) ==> (k == "symbol"@),
{
    reveal_strlit("symbol");
    assert("symbol"@.len() == 6);
}

/// The request of the `query_insurance_fund_balance_snapshot` operation: GET `/fapi/v1/insuranceBalance`, unsigned.
pub fn query_insurance_fund_balance_snapshot(params: QueryInsuranceFundBalanceSnapshotParams) -> (req: RestRequest)
    ensures
        req@ == (RestRequestView {
            path: "/fapi/v1/insuranceBalance"@,
            method: HttpMethod::Get,
            query: query_insurance_fund_balance_snapshot_query(params),
            uses_time_unit: HAS_TIME_UNIT,
            signed: false,
        }),
        req@.query.dom().contains("symbol"@) == (params.symbol is Some),
        params.symbol is Some ==> req@.query["symbol"@] == QueryValueView::Text(params.symbol->0@),
        forall|k: Seq<char>| #[trigger] req@.query.dom().contains(k) ==> (k == "symbol"@),
{
    proof {
        lemma_query_insurance_fund_balance_snapshot_query(params);
    }
    let QueryInsuranceFundBalanceSnapshotParams { symbol } = params;
    let mut query = QueryParams::new();
    if let Some(v) = symbol {
        query.insert("symbol".to_owned(), QueryValue::Text(v));
    }
    RestRequest {
        path: "/fapi/v1/insuranceBalance",
        method: HttpMethod::Get,
        query,
        uses_time_unit: HAS_TIME_UNIT,
        signed: false,
    }
}

/// The query parameters that `recent_trades_list` sends for `p`.
pub open spec fn recent_trades_list_query(p: RecentTradesListParams) -> QueryMap {
    QueryMap::empty()
        .put("symbol"@, QueryValueView::Text(p.symbol@))
        .put_opt("limit"@, opt_integer(p.limit))
}

/// What `recent_trades_list` sends, parameter by parameter: each required parameter
/// under its name with the value given, each optional one exactly when it
/// is given, and no other parameter.
pub proof fn lemma_recent_trades_list_query(p: RecentTradesListParams)
    ensures
        recent_trades_list_query(p).dom().contains("symbol"@),
        recent_trades_list_query(p)["symbol"@] == QueryValueView::Text(p.symbol@),
        recent_trades_list_query(p).dom().contains("limit"@) == (p.limit is Some),
        p.limit is Some ==> recent_trades_list_query(p)["limit"@] == QueryValueView::Integer(p.limit->0),
        forall|k: Seq<char>| #[trigger] recent_trades_list_query(p).dom().contains(k) ==> (k == "symbol"@ || k == "limit"@),
{
    reveal_strlit("symbol");
    reveal_strlit("limit");
    assert("symbol"@.len() == 6);
    assert("limit"@.len() == 5);
    assert("symbol"@ != "limit"@);
}

/// The request of the `recent_trades_list` operation: GET `/fapi/v1/trades`, unsigned.
pub fn recent_trades_list(params: RecentTradesListParams) -> (req: RestRequest)
    ensures
        req@ == (RestRequestView {
            path: "/fapi/v1/trades"@,
            method: HttpMethod::Get,
            query: recent_trades_list_query(params),
            uses_time_unit: HAS_TIME_UNIT,
            signed: false,
        }),
        req@.query.dom().contains("symbol"@),
        req@.query["symbol"@] == QueryValueView::Text(params.symbol@),
        req@.query.dom().contains("limit"@) == (params.limit is Some),
        params.limit is Some ==> req@.query["limit"@] == QueryValueView::Integer(params.limit->0),
        forall|k: Seq<char>| #[trigger] req@.query.dom().contains(k) ==> (k == "symbol"@ || k == "limit"@),
{
    proof {
        lemma_recent_trades_list_query(params);
    }
    let RecentTradesListParams { symbol, limit } = params;
    let mut query = QueryParams::new();
    query.insert("symbol".to_owned(), QueryValue::Text(symbol));
    if let Some(v) = limit {
        query.insert("limit".to_owned(), QueryValue::Integer(v));
    }
    RestRequest {
        path: "/fapi/v1/trades",
        method: HttpMethod::Get,
        query,
        uses_time_unit: HAS_TIME_UNIT,
        signed: false,
    }
}

/// The query parameters that `symbol_order_book_ticker` sends for `p`.
pub open spec fn symbol_order_book_ticker_query(p: SymbolOrderBookTickerParams) -> QueryMap {
    QueryMap::empty()
        .put_opt("symbol"@, opt_text(p.symbol))
}

/// What `symbol_order_book_ticker` sends, parameter by parameter: each required parameter
/// under its name with the value given, each optional one exactly when it
/// is given, and no other parameter.
pub proof fn lemma_symbol_order_book_ticker_query(p: SymbolOrderBookTickerParams)
    ensures
        symbol_order_book_ticker_query(p).dom().contains("symbol"@) == (p.symbol is Some),
        p.symbol is Some ==> symbol_order_book_ticker_query(p)["symbol"@] == QueryValueView::Text(p.symbol->0@),
        forall|k: Seq<char>| #[trigger] symbol_order_book_ticker_query(p).dom().contains(k) ==> (k == "symbol"@),
{
    reveal_strlit("symbol");
    assert("symbol"@.len() == 6);
}

/// The request of the `symbol_order_book_ticker` operation: GET `/fapi/v1/ticker/bookTicker`, unsigned.
pub fn symbol_order_book_ticker(params: SymbolOrderBookTickerParams) -> (req: RestRequest)
    ensures
        req@ == (RestRequestView {
            path: "/fapi/v1/ticker/bookTicker"@,
            method: HttpMethod::Get,
            query: symbol_order_book_ticker_query(params),
            uses_time_unit: HAS_TIME_UNIT,
            signed: false,
        }),
        req@.query.dom().contains("symbol"@) == (params.symbol is Some),
        params.symbol is Some ==> req@.query["symbol"@] == QueryValueView::Text(params.symbol->0@),
        forall|k: Seq<char>| #[trigger] req@.query.dom().contains(k) ==> (k == "symbol"@),
{
    proof {
        lemma_symbol_order_book_ticker_query(params);
    }
    let SymbolOrderBookTickerParams { symbol } = params;
    let mut query = QueryParams::new();
    if let Some(v) = symbol {
        query.insert("symbol".to_owned(), QueryValue::Text(v));
    }
    RestRequest {
        path: "/fapi/v1/ticker/bookTicker",
        method: HttpMethod::Get,
        query,
        uses_time_unit: HAS_TIME_UNIT,
        signed: false,
    }
}

/// The query parameters that `symbol_price_ticker` sends for `p`.
pub open spec fn symbol_price_ticker_query(p: SymbolPriceTickerParams) -> QueryMap {
    QueryMap::empty()
        .put_opt("symbol"@, opt_text(p.symbol))
}

/// What `symbol_price_ticker` sends, parameter by parameter: each required parameter
/// under its name with the value given, each optional one exactly when it
/// is given, and no other parameter.
pub proof fn lemma_symbol_price_ticker_query(p: SymbolPriceTickerParams)
    ensures
        symbol_price_ticker_query(p).dom().contains("symbol"@) == (p.symbol is Some),
        p.symbol is Some ==> symbol_price_ticker_query(p)["symbol"@] == QueryValueView::Text(p.symbol->0@),
        forall|k: Seq<char>| #[trigger] symbol_price_ticker_query(p).dom().contains(k) ==> (k == "symbol"@),
{
    reveal_strlit("symbol");
    assert("symbol"@.len() == 6);
}

/// The request of the `symbol_price_ticker` operation: GET `/fapi/v1/ticker/price`, unsigned.
pub fn symbol_price_ticker(params: SymbolPriceTickerParams) -> (req: RestRequest)
    ensures
        req@ == (RestRequestView {
            path: "/fapi/v1/ticker/price"@,
            method: HttpMethod::Get,
            query: symbol_price_ticker_query(params),
            uses_time_unit: HAS_TIME_UNIT,
            signed: false,
        }),
        req@.query.dom().contains("symbol"@) == (params.symbol is Some),
        params.symbol is Some ==> req@.query["symbol"@] == QueryValueView::Text(params.symbol->0@),
        forall|k: Seq<char>| #[trigger] req@.query.dom().contains(k) ==> (k == "symbol"@),
{
    proof {
        lemma_symbol_price_ticker_query(params);
    }
    let SymbolPriceTickerParams { symbol } = params;
    let mut query = QueryParams::new();
    if let Some(v) = symbol {
        query.insert("symbol".to_owned(), QueryValue::Text(v));
    }
    RestRequest {
        path: "/fapi/v1/ticker/price",
        method: HttpMethod::Get,
        query,
        uses_time_unit: HAS_TIME_UNIT,
        signed: false,
    }
}

/// The query parameters that `symbol_price_ticker_v2` sends for `p`.
pub open spec fn symbol_price_ticker_v2_query(p: SymbolPriceTickerV2Params) -> QueryMap {
    QueryMap::empty()
        .put_opt("symbol"@, opt_text(p.symbol))
}

/// What `symbol_price_ticker_v2` sends, parameter by parameter: each required parameter
/// under its name with the value given, each optional one exactly when it
/// is given, and no other parameter.
pub proof fn lemma_symbol_price_ticker_v2_query(p: SymbolPriceTickerV2Params)
    ensures
        symbol_price_ticker_v2_query(p).dom().contains("symbol"@) == (p.symbol is Some),
        p.symbol is Some ==> symbol_price_ticker_v2_query(p)["symbol"@] == QueryValueView::Text(p.symbol->0@),
        forall|k: Seq<char>| #[trigger] symbol_price_ticker_v2_query(p).dom().contains(k) ==> (k == "symbol"@),
{
    reveal_strlit("symbol");
    assert("symbol"@.len() == 6);
}

/// The request of the `symbol_price_ticker_v2` operation: GET `/fapi/v2/ticker/price`, unsigned.
pub fn symbol_price_ticker_v2(params: SymbolPriceTickerV2Params) -> (req: RestRequest)
    ensures
        req@ == (RestRequestView {
            path: "/fapi/v2/ticker/price"@,
            method: HttpMethod::Get,
            query: symbol_price_ticker_v2_query(params),
            uses_time_unit: HAS_TIME_UNIT,
            signed: false,
        }),
        req@.query.dom().contains("symbol"@) == (params.symbol is Some),
        params.symbol is Some ==> req@.query["symbol"@] == QueryValueView::Text(params.symbol->0@),
        forall|k: Seq<char>| #[trigger] req@.query.dom().contains(k) ==> (k == "symbol"@),
{
    proof {
        lemma_symbol_price_ticker_v2_query(params);
    }
    let SymbolPriceTickerV2Params { symbol } = params;
    let mut query = QueryParams::new();
    if let Some(v) = symbol {
        query.insert("symbol".to_owned(), QueryValue::Text(v));
    }
    RestRequest {
        path: "/fapi/v2/ticker/price",
        method: HttpMethod::Get,
        query,
        uses_time_unit: HAS_TIME_UNIT,
        signed: false,
    }
}

/// The query parameters that `taker_buy_sell_volume` sends for `p`.
pub open spec fn taker_buy_sell_volume_query(p: TakerBuySellVolumeParams) -> QueryMap {
    QueryMap::empty()
        .put("symbol"@, QueryValueView::Text(p.symbol@))
        .put("period"@, QueryValueView::Text(p.period.wire_name()))
        .put_opt("limit"@, opt_integer(p.limit))
        .put_opt("startTime"@, opt_integer(p.start_time))
        .put_opt("endTime"@, opt_integer(p.end_time))
}

/// What `taker_buy_sell_volume` sends, parameter by parameter: each required parameter
/// under its name with the value given, each optional one exactly when it
/// is given, and no other parameter.
pub proof fn lemma_taker_buy_sell_volume_query(p: TakerBuySellVolumeParams)
    ensures
        taker_buy_sell_volume_query(p).dom().contains("symbol"@),
        taker_buy_sell_volume_query(p)["symbol"@] == QueryValueView::Text(p.symbol@),
        taker_buy_sell_volume_query(p).dom().contains("period"@),
        taker_buy_sell_volume_query(p)["period"@] == QueryValueView::Text(p.period.wire_name()),
        taker_buy_sell_volume_query(p).dom().contains("limit"@) == (p.limit is Some),
        p.limit is Some ==> taker_buy_sell_volume_query(p)["limit"@] == QueryValueView::Integer(p.limit->0),
        taker_buy_sell_volume_query(p).dom().contains("startTime"@) == (p.start_time is Some),
        p.start_time is Some ==> taker_buy_sell_volume_query(p)["startTime"@] == QueryValueView::Integer(p.start_time->0),
        taker_buy_sell_volume_query(p).dom().contains("endTime"@) == (p.end_time is Some),
        p.end_time is Some ==> taker_buy_sell_volume_query(p)["endTime"@] == QueryValueView::Integer(p.end_time->0),
        forall|k: Seq<char>| #[trigger] taker_buy_sell_volume_query(p).dom().contains(k) ==> (k == "symbol"@ || k == "period"@ || k == "limit"@ || k == "startTime"@ || k == "endTime"@),
{
    reveal_strlit("symbol");
    reveal_strlit("period");
    reveal_strlit("limit");
    reveal_strlit("startTime");
    reveal_strlit("endTime");
    assert("symbol"@.len() == 6);
    assert("period"@.len() == 6);
    assert("limit"@.len() == 5);
    assert("startTime"@.len() == 9);
    assert("endTime"@.len() == 7);
    assert("symbol"@[0] == 's');
    assert("period"@[0] == 'p');
    assert("symbol"@ != "period"@);
    assert("symbol"@ != "limit"@);
    assert("symbol"@ != "startTime"@);
    assert("symbol"@ != "endTime"@);
    assert("period"@ != "limit"@);
    assert("period"@ != "startTime"@);
    assert("period"@ != "endTime"@);
    assert("limit"@ != "startTime"@);
    assert("limit"@ != "endTime"@);
    assert("startTime"@ != "endTime"@);
}

/// The request of the `taker_buy_sell_volume` operation: GET `/futures/data/takerlongshortRatio`, unsigned.
pub fn taker_buy_sell_volume(params: TakerBuySellVolumeParams) -> (req: RestRequest)
    ensures
        req@ == (RestRequestView {
            path: "/futures/data/takerlongshortRatio"@,
            method: HttpMethod::Get,
            query: taker_buy_sell_volume_query(params),
            uses_time_unit: HAS_TIME_UNIT,
            signed: false,
        }),
        req@.query.dom().contains("symbol"@),
        req@.query["symbol"@] == QueryValueView::Text(params.symbol@),
        req@.query.dom().contains("period"@),
        req@.query["period"@] == QueryValueView::Text(params.period.wire_name()),
        req@.query.dom().contains("limit"@) == (params.limit is Some),
        params.limit is Some ==> req@.query["limit"@] == QueryValueView::Integer(params.limit->0),
        req@.query.dom().contains("startTime"@) == (params.start_time is Some),
        params.start_time is Some ==> req@.query["startTime"@] == QueryValueView::Integer(params.start_time->0),
        req@.query.dom().contains("endTime"@) == (params.end_time is Some),
        params.end_time is Some ==> req@.query["endTime"@] == QueryValueView::Integer(params.end_time->0),
        forall|k: Seq<char>| #[trigger] req@.query.dom().contains(k) ==> (k == "symbol"@ || k == "period"@ || k == "limit"@ || k == "startTime"@ || k == "endTime"@),
{
    proof {
        lemma_taker_buy_sell_volume_query(params);
    }
    let TakerBuySellVolumeParams { symbol, period, limit, start_time, end_time } = params;
    let mut query = QueryParams::new();
    query.insert("symbol".to_owned(), QueryValue::Text(symbol));
    query.insert("period".to_owned(), QueryValue::Text(period.as_str().to_owned()));
    if let Some(v) = limit {
        query.insert("limit".to_owned(), QueryValue::Integer(v));
    }
    if let Some(v) = start_time {
        query.insert("startTime".to_owned(), QueryValue::Integer(v));
    }
    if let Some(v) = end_time {
        query.insert("endTime".to_owned(), QueryValue::Integer(v));
    }
    RestRequest {
        path: "/futures/data/takerlongshortRatio",
        method: HttpMethod::Get,
        query,
        uses_time_unit: HAS_TIME_UNIT,
        signed: false,
    }
}

/// The request of the `test_connectivity` operation: GET `/fapi/v1/ping`, unsigned.
pub fn test_connectivity() -> (req: RestRequest)
    ensures
        req@ == (RestRequestView {
            path: "/fapi/v1/ping"@,
            method: HttpMethod::Get,
            query: QueryMap::empty(),
            uses_time_unit: HAS_TIME_UNIT,
            signed: false,
        }),
{
    let query = QueryParams::new();
    RestRequest {
        path: "/fapi/v1/ping",
        method: HttpMethod::Get,
        query,
        uses_time_unit: HAS_TIME_UNIT,
        signed: false,
    }
}

/// The query parameters that `ticker24hr_price_change_statistics` sends for `p`.
pub open spec fn ticker24hr_price_change_statistics_query(p: Ticker24hrPriceChangeStatisticsParams) -> QueryMap {
    QueryMap::empty()
        .put_opt("symbol"@, opt_text(p.symbol))
}

/// What `ticker24hr_price_change_statistics` sends, parameter by parameter: each required parameter
/// under its name with the value given, each optional one exactly when it
/// is given, and no other parameter.
pub proof fn lemma_ticker24hr_price_change_statistics_query(p: Ticker24hrPriceChangeStatisticsParams)
    ensures
        ticker24hr_price_change_statistics_query(p).dom().contains("symbol"@) == (p.symbol is Some),
        p.symbol is Some ==> ticker24hr_price_change_statistics_query(p)["symbol"@] == QueryValueView::Text(p.symbol->0@),
        forall|k: Seq<char>| #[trigger] ticker24hr_price_change_statistics_query(p).dom().contains(k) ==> (k == "symbol"@),
{
    reveal_strlit("symbol");
    assert("symbol"@.len() == 6);
}

/// The request of the `ticker24hr_price_change_statistics` operation: GET `/fapi/v1/ticker/24hr`, unsigned.
pub fn ticker24hr_price_change_statistics(params: Ticker24hrPriceChangeStatisticsParams) -> (req: RestRequest)
    ensures
        req@ == (RestRequestView {
            path: "/fapi/v1/ticker/24hr"@,
            method: HttpMethod::Get,
            query: ticker24hr_price_change_statistics_query(params),
            uses_time_unit: HAS_TIME_UNIT,
            signed: false,
        }),
        req@.query.dom().contains("symbol"@) == (params.symbol is Some),
        params.symbol is Some ==> req@.query["symbol"@] == QueryValueView::Text(params.symbol->0@),
        forall|k: Seq<char>| #[trigger] req@.query.dom().contains(k) ==> (k == "symbol"@),
{
    proof {
        lemma_ticker24hr_price_change_statistics_query(params);
    }
    let Ticker24hrPriceChangeStatisticsParams { symbol } = params;
    let mut query = QueryParams::new();
    if let Some(v) = symbol {
        query.insert("symbol".to_owned(), QueryValue::Text(v));
    }
    RestRequest {
        path: "/fapi/v1/ticker/24hr",
        method: HttpMethod::Get,
        query,
        uses_time_unit: HAS_TIME_UNIT,
        signed: false,
    }
}

/// The query parameters that `top_trader_long_short_ratio_accounts` sends for `p`.
pub open spec fn top_trader_long_short_ratio_accounts_query(p: TopTraderLongShortRatioAccountsParams) -> QueryMap {
    QueryMap::empty()
        .put("symbol"@, QueryValueView::Text(p.symbol@))
        .put("period"@, QueryValueView::Text(p.period.wire_name()))
        .put_opt("limit"@, opt_integer(p.limit))
        .put_opt("startTime"@, opt_integer(p.start_time))
        .put_opt("endTime"@, opt_integer(p.end_time))
}

/// What `top_trader_long_short_ratio_accounts` sends, parameter by parameter: each required parameter
/// under its name with the value given, each optional one exactly when it
/// is given, and no other parameter.
pub proof fn lemma_top_trader_long_short_ratio_accounts_query(p: TopTraderLongShortRatioAccountsParams)
    ensures
        top_trader_long_short_ratio_accounts_query(p).dom().contains("symbol"@),
        top_trader_long_short_ratio_accounts_query(p)["symbol"@] == QueryValueView::Text(p.symbol@),
        top_trader_long_short_ratio_accounts_query(p).dom().contains("period"@),
        top_trader_long_short_ratio_accounts_query(p)["period"@] == QueryValueView::Text(p.period.wire_name()),
        top_trader_long_short_ratio_accounts_query(p).dom().contains("limit"@) == (p.limit is Some),
        p.limit is Some ==> top_trader_long_short_ratio_accounts_query(p)["limit"@] == QueryValueView::Integer(p.limit->0),
        top_trader_long_short_ratio_accounts_query(p).dom().contains("startTime"@) == (p.start_time is Some),
        p.start_time is Some ==> top_trader_long_short_ratio_accounts_query(p)["startTime"@] == QueryValueView::Integer(p.start_time->0),
        top_trader_long_short_ratio_accounts_query(p).dom().contains("endTime"@) == (p.end_time is Some),
        p.end_time is Some ==> top_trader_long_short_ratio_accounts_query(p)["endTime"@] == QueryValueView::Integer(p.end_time->0),
        forall|k: Seq<char>| #[trigger] top_trader_long_short_ratio_accounts_query(p).dom().contains(k) ==> (k == "symbol"@ || k == "period"@ || k == "limit"@ || k == "startTime"@ || k == "endTime"@),
{
    reveal_strlit("symbol");
    reveal_strlit("period");
    reveal_strlit("limit");
    reveal_strlit("startTime");
    reveal_strlit("endTime");
    assert("symbol"@.len() == 6);
    assert("period"@.len() == 6);
    assert("limit"@.len() == 5);
    assert("startTime"@.len() == 9);
    assert("endTime"@.len() == 7);
    assert("symbol"@[0] == 's');
    assert("period"@[0] == 'p');
    assert("symbol"@ != "period"@);
    assert("symbol"@ != "limit"@);
    assert("symbol"@ != "startTime"@);
    assert("symbol"@ != "endTime"@);
    assert("period"@ != "limit"@);
    assert("period"@ != "startTime"@);
    assert("period"@ != "endTime"@);
    assert("limit"@ != "startTime"@);
    assert("limit"@ != "endTime"@);
    assert("startTime"@ != "endTime"@);
}

/// The request of the `top_trader_long_short_ratio_accounts` operation: GET `/futures/data/topLongShortAccountRatio`, unsigned.
pub fn top_trader_long_short_ratio_accounts(params: TopTraderLongShortRatioAccountsParams) -> (req: RestRequest)
    ensures
        req@ == (RestRequestView {
            path: "/futures/data/topLongShortAccountRatio"@,
            method: HttpMethod::Get,
            query: top_trader_long_short_ratio_accounts_query(params),
            uses_time_unit: HAS_TIME_UNIT,
            signed: false,
        }),
        req@.query.dom().contains("symbol"@),
        req@.query["symbol"@] == QueryValueView::Text(params.symbol@),
        req@.query.dom().contains("period"@),
        req@.query["period"@] == QueryValueView::Text(params.period.wire_name()),
        req@.query.dom().contains("limit"@) == (params.limit is Some),
        params.limit is Some ==> req@.query["limit"@] == QueryValueView::Integer(params.limit->0),
        req@.query.dom().contains("startTime"@) == (params.start_time is Some),
        params.start_time is Some ==> req@.query["startTime"@] == QueryValueView::Integer(params.start_time->0),
        req@.query.dom().contains("endTime"@) == (params.end_time is Some),
        params.end_time is Some ==> req@.query["endTime"@] == QueryValueView::Integer(params.end_time->0),
        forall|k: Seq<char>| #[trigger] req@.query.dom().contains(k) ==> (k == "symbol"@ || k == "period"@ || k == "limit"@ || k == "startTime"@ || k == "endTime"@),
{
    proof {
        lemma_top_trader_long_short_ratio_accounts_query(params);
    }
    let TopTraderLongShortRatioAccountsParams { symbol, period, limit, start_time, end_time } = params;
    let mut query = QueryParams::new();
    query.insert("symbol".to_owned(), QueryValue::Text(symbol));
    query.insert("period".to_owned(), QueryValue::Text(period.as_str().to_owned()));
    if let Some(v) = limit {
        query.insert("limit".to_owned(), QueryValue::Integer(v));
    }
    if let Some(v) = start_time {
        query.insert("startTime".to_owned(), QueryValue::Integer(v));
    }
    if let Some(v) = end_time {
        query.insert("endTime".to_owned(), QueryValue::Integer(v));
    }
    RestRequest {
        path: "/futures/data/topLongShortAccountRatio",
        method: HttpMethod::Get,
        query,
        uses_time_unit: HAS_TIME_UNIT,
        signed: false,
    }
}

/// The query parameters that `top_trader_long_short_ratio_positions` sends for `p`.
pub open spec fn top_trader_long_short_ratio_positions_query(p: TopTraderLongShortRatioPositionsParams) -> QueryMap {
    QueryMap::empty()
        .put("symbol"@, QueryValueView::Text(p.symbol@))
        .put("period"@, QueryValueView::Text(p.period.wire_name()))
        .put_opt("limit"@, opt_integer(p.limit))
        .put_opt("startTime"@, opt_integer(p.start_time))
        .put_opt("endTime"@, opt_integer(p.end_time))
}

/// What `top_trader_long_short_ratio_positions` sends, parameter by parameter: each required parameter
/// under its name with the value given, each optional one exactly when it
/// is given, and no other parameter.
pub proof fn lemma_top_trader_long_short_ratio_positions_query(p: TopTraderLongShortRatioPositionsParams)
    ensures
        top_trader_long_short_ratio_positions_query(p).dom().contains("symbol"@),
        top_trader_long_short_ratio_positions_query(p)["symbol"@] == QueryValueView::Text(p.symbol@),
        top_trader_long_short_ratio_positions_query(p).dom().contains("period"@),
        top_trader_long_short_ratio_positions_query(p)["period"@] == QueryValueView::Text(p.period.wire_name()),
        top_trader_long_short_ratio_positions_query(p).dom().contains("limit"@) == (p.limit is Some),
        p.limit is Some ==> top_trader_long_short_ratio_positions_query(p)["limit"@] == QueryValueView::Integer(p.limit->0),
        top_trader_long_short_ratio_positions_query(p).dom().contains("startTime"@) == (p.start_time is Some),
        p.start_time is Some ==> top_trader_long_short_ratio_positions_query(p)["startTime"@] == QueryValueView::Integer(p.start_time->0),
        top_trader_long_short_ratio_positions_query(p).dom().contains("endTime"@) == (p.end_time is Some),
        p.end_time is Some ==> top_trader_long_short_ratio_positions_query(p)["endTime"@] == QueryValueView::Integer(p.end_time->0),
        forall|k: Seq<char>| #[trigger] top_trader_long_short_ratio_positions_query(p).dom().contains(k) ==> (k == "symbol"@ || k == "period"@ || k == "limit"@ || k == "startTime"@ || k == "endTime"@),
{
    reveal_strlit("symbol");
    reveal_strlit("period");
    reveal_strlit("limit");
    reveal_strlit("startTime");
    reveal_strlit("endTime");
    assert("symbol"@.len() == 6);
    assert("period"@.len() == 6);
    assert("limit"@.len() == 5);
    assert("startTime"@.len() == 9);
    assert("endTime"@.len() == 7);
    assert("symbol"@[0] == 's');
    assert("period"@[0] == 'p');
    assert("symbol"@ != "period"@);
    assert("symbol"@ != "limit"@);
    assert("symbol"@ != "startTime"@);
    assert("symbol"@ != "endTime"@);
    assert("period"@ != "limit"@);
    assert("period"@ != "startTime"@);
    assert("period"@ != "endTime"@);
    assert("limit"@ != "startTime"@);
    assert("limit"@ != "endTime"@);
    assert("startTime"@ != "endTime"@);
}

/// The request of the `top_trader_long_short_ratio_positions` operation: GET `/futures/data/topLongShortPositionRatio`, unsigned.
pub fn top_trader_long_short_ratio_positions(params: TopTraderLongShortRatioPositionsParams) -> (req: RestRequest)
    ensures
        req@ == (RestRequestView {
            path: "/futures/data/topLongShortPositionRatio"@,
            method: HttpMethod::Get,
            query: top_trader_long_short_ratio_positions_query(params),
            uses_time_unit: HAS_TIME_UNIT,
            signed: false,
        }),
        req@.query.dom().contains("symbol"@),
        req@.query["symbol"@] == QueryValueView::Text(params.symbol@),
        req@.query.dom().contains("period"@),
        req@.query["period"@] == QueryValueView::Text(params.period.wire_name()),
        req@.query.dom().contains("limit"@) == (params.limit is Some),
        params.limit is Some ==> req@.query["limit"@] == QueryValueView::Integer(params.limit->0),
        req@.query.dom().contains("startTime"@) == (params.start_time is Some),
        params.start_time is Some ==> req@.query["startTime"@] == QueryValueView::Integer(params.start_time->0),
        req@.query.dom().contains("endTime"@) == (params.end_time is Some),
        params.end_time is Some ==> req@.query["endTime"@] == QueryValueView::Integer(params.end_time->0),
        forall|k: Seq<char>| #[trigger] req@.query.dom().contains(k) ==> (k == "symbol"@ || k == "period"@ || k == "limit"@ || k == "startTime"@ || k == "endTime"@),
{
    proof {
        lemma_top_trader_long_short_ratio_positions_query(params);
    }
    let TopTraderLongShortRatioPositionsParams { symbol, period, limit, start_time, end_time } = params;
    let mut query = QueryParams::new();
    query.insert("symbol".to_owned(), QueryValue::Text(symbol));
    query.insert("period".to_owned(), QueryValue::Text(period.as_str().to_owned()));
    if let Some(v) = limit {
        query.insert("limit".to_owned(), QueryValue::Integer(v));
    }
    if let Some(v) = start_time {
        query.insert("startTime".to_owned(), QueryValue::Integer(v));
    }
    if let Some(v) = end_time {
        query.insert("endTime".to_owned(), QueryValue::Integer(v));
    }
    RestRequest {
        path: "/futures/data/topLongShortPositionRatio",
        method: HttpMethod::Get,
        query,
        uses_time_unit: HAS_TIME_UNIT,
        signed: false,
    }
}

} // verus!
