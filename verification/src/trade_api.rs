//! The requests of the Trade endpoints (`TradeApi`).
use vstd::prelude::*;
use rust_decimal::Decimal;
use crate::query::{
    HttpMethod, QueryMap, QueryMapBuild, QueryParams, QueryValue, QueryValueView, RestRequest, RestRequestView, HAS_TIME_UNIT, opt_decimal, opt_integer, opt_integer_list, opt_text, opt_text_list, str_eq,
};

verus! {

/// The values of `ChangeMarginTypeMarginType` that the endpoint accepts.
#[derive(Debug, Clone, Copy, PartialEq, Eq, Structural)]
pub enum ChangeMarginTypeMarginTypeEnum {
    Isolated,
    Crossed,
}

impl ChangeMarginTypeMarginTypeEnum {
    /// The name by which the API knows the value.
    pub open spec fn wire_name(self) -> Seq<char> {
        match self {
            ChangeMarginTypeMarginTypeEnum::Isolated => "ISOLATED"@,
            ChangeMarginTypeMarginTypeEnum::Crossed => "CROSSED"@,
        }
    }

    /// The value that the API knows by `s`, if any.
    pub open spec fn from_wire(s: Seq<char>) -> Option<ChangeMarginTypeMarginTypeEnum> {
        if s == "ISOLATED"@ {
            Some(ChangeMarginTypeMarginTypeEnum::Isolated)
        } else if s == "CROSSED"@ {
            Some(ChangeMarginTypeMarginTypeEnum::Crossed)
        } else {
            None
        }
    }

    /// An optional value, as the query parameter that carries it.
    pub open spec fn opt_wire(v: Option<ChangeMarginTypeMarginTypeEnum>) -> Option<QueryValueView> {
        match v {
            Some(e) => Some(QueryValueView::Text(e.wire_name())),
            None => None,
        }
    }

    /// The wire name of the value.
    #[must_use]
    pub fn as_str(&self) -> (s: &'static str)
        ensures
            s@ == self.wire_name(),
    {
        match self {
            ChangeMarginTypeMarginTypeEnum::Isolated => "ISOLATED",
            ChangeMarginTypeMarginTypeEnum::Crossed => "CROSSED",
        }
    }

    /// The value whose wire name is `s`; for any other `s` the error says
    /// which text was refused.
    pub fn parse(s: &str) -> (r: Result<ChangeMarginTypeMarginTypeEnum, String>)
        ensures
            match r {
                Ok(e) => ChangeMarginTypeMarginTypeEnum::from_wire(s@) == Some(e),
                Err(msg) => ChangeMarginTypeMarginTypeEnum::from_wire(s@) is None && msg@ == "invalid ChangeMarginTypeMarginTypeEnum: "@ + s@,
            },
    {
        if str_eq(s, "ISOLATED") {
            Ok(ChangeMarginTypeMarginTypeEnum::Isolated)
        } else if str_eq(s, "CROSSED") {
            Ok(ChangeMarginTypeMarginTypeEnum::Crossed)
        } else {
            let mut msg = "invalid ChangeMarginTypeMarginTypeEnum: ".to_owned();
            msg.append(s);
            Err(msg)
        }
    }

    /// Each value reads back from its wire name, and a wire name reads back
    /// only as the value that has it.
    pub proof fn lemma_wire_round_trip(e: ChangeMarginTypeMarginTypeEnum, s: Seq<char>)
        ensures
            ChangeMarginTypeMarginTypeEnum::from_wire(e.wire_name()) == Some(e),
            ChangeMarginTypeMarginTypeEnum::from_wire(s) == Some(e) ==> s == e.wire_name(),
    {
        reveal_strlit("ISOLATED");
        reveal_strlit("CROSSED");
        assert("ISOLATED"@.len() == 8);
        assert("CROSSED"@.len() == 7);
    }
}

impl std::str::FromStr for ChangeMarginTypeMarginTypeEnum {
    type Err = String;

    fn from_str(s: &str) -> (r: Result<ChangeMarginTypeMarginTypeEnum, String>)
        ensures
            match r {
                Ok(e) => ChangeMarginTypeMarginTypeEnum::from_wire(s@) == Some(e),
                Err(msg) => ChangeMarginTypeMarginTypeEnum::from_wire(s@) is None && msg@ == "invalid ChangeMarginTypeMarginTypeEnum: "@ + s@,
            },
    {
        ChangeMarginTypeMarginTypeEnum::parse(s)
    }
}

/// The values of `ModifyIsolatedPositionMarginPositionSide` that the endpoint accepts.
#[derive(Debug, Clone, Copy, PartialEq, Eq, Structural)]
pub enum ModifyIsolatedPositionMarginPositionSideEnum {
    Both,
    Long,
    Short,
}

impl ModifyIsolatedPositionMarginPositionSideEnum {
    /// The name by which the API knows the value.
    pub open spec fn wire_name(self) -> Seq<char> {
        match self {
            ModifyIsolatedPositionMarginPositionSideEnum::Both => "BOTH"@,
            ModifyIsolatedPositionMarginPositionSideEnum::Long => "LONG"@,
            ModifyIsolatedPositionMarginPositionSideEnum::Short => "SHORT"@,
        }
    }

    /// The value that the API knows by `s`, if any.
    pub open spec fn from_wire(s: Seq<char>) -> Option<ModifyIsolatedPositionMarginPositionSideEnum> {
        if s == "BOTH"@ {
            Some(ModifyIsolatedPositionMarginPositionSideEnum::Both)
        } else if s == "LONG"@ {
            Some(ModifyIsolatedPositionMarginPositionSideEnum::Long)
        } else if s == "SHORT"@ {
            Some(ModifyIsolatedPositionMarginPositionSideEnum::Short)
        } else {
            None
        }
    }

    /// An optional value, as the query parameter that carries it.
    pub open spec fn opt_wire(v: Option<ModifyIsolatedPositionMarginPositionSideEnum>) -> Option<QueryValueView> {
        match v {
            Some(e) => Some(QueryValueView::Text(e.wire_name())),
            None => None,
        }
    }

    /// The wire name of the value.
    #[must_use]
    pub fn as_str(&self) -> (s: &'static str)
        ensures
            s@ == self.wire_name(),
    {
        match self {
            ModifyIsolatedPositionMarginPositionSideEnum::Both => "BOTH",
            ModifyIsolatedPositionMarginPositionSideEnum::Long => "LONG",
            ModifyIsolatedPositionMarginPositionSideEnum::Short => "SHORT",
        }
    }

    /// The value whose wire name is `s`; for any other `s` the error says
    /// which text was refused.
    pub fn parse(s: &str) -> (r: Result<ModifyIsolatedPositionMarginPositionSideEnum, String>)
        ensures
            match r {
                Ok(e) => ModifyIsolatedPositionMarginPositionSideEnum::from_wire(s@) == Some(e),
                Err(msg) => ModifyIsolatedPositionMarginPositionSideEnum::from_wire(s@) is None && msg@ == "invalid ModifyIsolatedPositionMarginPositionSideEnum: "@ + s@,
            },
    {
        if str_eq(s, "BOTH") {
            Ok(ModifyIsolatedPositionMarginPositionSideEnum::Both)
        } else if str_eq(s, "LONG") {
            Ok(ModifyIsolatedPositionMarginPositionSideEnum::Long)
        } else if str_eq(s, "SHORT") {
            Ok(ModifyIsolatedPositionMarginPositionSideEnum::Short)
        } else {
            let mut msg = "invalid ModifyIsolatedPositionMarginPositionSideEnum: ".to_owned();
            msg.append(s);
            Err(msg)
        }
    }

    /// Each value reads back from its wire name, and a wire name reads back
    /// only as the value that has it.
    pub proof fn lemma_wire_round_trip(e: ModifyIsolatedPositionMarginPositionSideEnum, s: Seq<char>)
        ensures
            ModifyIsolatedPositionMarginPositionSideEnum::from_wire(e.wire_name()) == Some(e),
            ModifyIsolatedPositionMarginPositionSideEnum::from_wire(s) == Some(e) ==> s == e.wire_name(),
    {
        reveal_strlit("BOTH");
        reveal_strlit("LONG");
        reveal_strlit("SHORT");
        assert("BOTH"@.len() == 4);
        assert("LONG"@.len() == 4);
        assert("SHORT"@.len() == 5);
        assert("BOTH"@[0] == 'B');
        assert("LONG"@[0] == 'L');
    }
}

impl std::str::FromStr for ModifyIsolatedPositionMarginPositionSideEnum {
    type Err = String;

    fn from_str(s: &str) -> (r: Result<ModifyIsolatedPositionMarginPositionSideEnum, String>)
        ensures
            match r {
                Ok(e) => ModifyIsolatedPositionMarginPositionSideEnum::from_wire(s@) == Some(e),
                Err(msg) => ModifyIsolatedPositionMarginPositionSideEnum::from_wire(s@) is None && msg@ == "invalid ModifyIsolatedPositionMarginPositionSideEnum: "@ + s@,
            },
    {
        ModifyIsolatedPositionMarginPositionSideEnum::parse(s)
    }
}

/// The values of `ModifyOrderSide` that the endpoint accepts.
#[derive(Debug, Clone, Copy, PartialEq, Eq, Structural)]
pub enum ModifyOrderSideEnum {
    Buy,
    Sell,
}

impl ModifyOrderSideEnum {
    /// The name by which the API knows the value.
    pub open spec fn wire_name(self) -> Seq<char> {
        match self {
            ModifyOrderSideEnum::Buy => "BUY"@,
            ModifyOrderSideEnum::Sell => "SELL"@,
        }
    }

    /// The value that the API knows by `s`, if any.
    pub open spec fn from_wire(s: Seq<char>) -> Option<ModifyOrderSideEnum> {
        if s == "BUY"@ {
            Some(ModifyOrderSideEnum::Buy)
        } else if s == "SELL"@ {
            Some(ModifyOrderSideEnum::Sell)
        } else {
            None
        }
    }

    /// An optional value, as the query parameter that carries it.
    pub open spec fn opt_wire(v: Option<ModifyOrderSideEnum>) -> Option<QueryValueView> {
        match v {
            Some(e) => Some(QueryValueView::Text(e.wire_name())),
            None => None,
        }
    }

    /// The wire name of the value.
    #[must_use]
    pub fn as_str(&self) -> (s: &'static str)
        ensures
            s@ == self.wire_name(),
    {
        match self {
            ModifyOrderSideEnum::Buy => "BUY",
            ModifyOrderSideEnum::Sell => "SELL",
        }
    }

    /// The value whose wire name is `s`; for any other `s` the error says
    /// which text was refused.
    pub fn parse(s: &str) -> (r: Result<ModifyOrderSideEnum, String>)
        ensures
            match r {
                Ok(e) => ModifyOrderSideEnum::from_wire(s@) == Some(e),
                Err(msg) => ModifyOrderSideEnum::from_wire(s@) is None && msg@ == "invalid ModifyOrderSideEnum: "@ + s@,
            },
    {
        if str_eq(s, "BUY") {
            Ok(ModifyOrderSideEnum::Buy)
        } else if str_eq(s, "SELL") {
            Ok(ModifyOrderSideEnum::Sell)
        } else {
            let mut msg = "invalid ModifyOrderSideEnum: ".to_owned();
            msg.append(s);
            Err(msg)
        }
    }

    /// Each value reads back from its wire name, and a wire name reads back
    /// only as the value that has it.
    pub proof fn lemma_wire_round_trip(e: ModifyOrderSideEnum, s: Seq<char>)
        ensures
            ModifyOrderSideEnum::from_wire(e.wire_name()) == Some(e),
            ModifyOrderSideEnum::from_wire(s) == Some(e) ==> s == e.wire_name(),
    {
        reveal_strlit("BUY");
        reveal_strlit("SELL");
        assert("BUY"@.len() == 3);
        assert("SELL"@.len() == 4);
    }
}

impl std::str::FromStr for ModifyOrderSideEnum {
    type Err = String;

    fn from_str(s: &str) -> (r: Result<ModifyOrderSideEnum, String>)
        ensures
            match r {
                Ok(e) => ModifyOrderSideEnum::from_wire(s@) == Some(e),
                Err(msg) => ModifyOrderSideEnum::from_wire(s@) is None && msg@ == "invalid ModifyOrderSideEnum: "@ + s@,
            },
    {
        ModifyOrderSideEnum::parse(s)
    }
}

/// The values of `ModifyOrderPriceMatch` that the endpoint accepts.
#[derive(Debug, Clone, Copy, PartialEq, Eq, Structural)]
pub enum ModifyOrderPriceMatchEnum {
    NoMatch,
    Opponent,
    Opponent5,
    Opponent10,
    Opponent20,
    Queue,
    Queue5,
    Queue10,
    Queue20,
}

impl ModifyOrderPriceMatchEnum {
    /// The name by which the API knows the value.
    pub open spec fn wire_name(self) -> Seq<char> {
        match self {
            ModifyOrderPriceMatchEnum::NoMatch => "NONE"@,
            ModifyOrderPriceMatchEnum::Opponent => "OPPONENT"@,
            ModifyOrderPriceMatchEnum::Opponent5 => "OPPONENT_5"@,
            ModifyOrderPriceMatchEnum::Opponent10 => "OPPONENT_10"@,
            ModifyOrderPriceMatchEnum::Opponent20 => "OPPONENT_20"@,
            ModifyOrderPriceMatchEnum::Queue => "QUEUE"@,
            ModifyOrderPriceMatchEnum::Queue5 => "QUEUE_5"@,
            ModifyOrderPriceMatchEnum::Queue10 => "QUEUE_10"@,
            ModifyOrderPriceMatchEnum::Queue20 => "QUEUE_20"@,
        }
    }

    /// The value that the API knows by `s`, if any.
    pub open spec fn from_wire(s: Seq<char>) -> Option<ModifyOrderPriceMatchEnum> {
        if s == "NONE"@ {
            Some(ModifyOrderPriceMatchEnum::NoMatch)
        } else if s == "OPPONENT"@ {
            Some(ModifyOrderPriceMatchEnum::Opponent)
        } else if s == "OPPONENT_5"@ {
            Some(ModifyOrderPriceMatchEnum::Opponent5)
        } else if s == "OPPONENT_10"@ {
            Some(ModifyOrderPriceMatchEnum::Opponent10)
        } else if s == "OPPONENT_20"@ {
            Some(ModifyOrderPriceMatchEnum::Opponent20)
        } else if s == "QUEUE"@ {
            Some(ModifyOrderPriceMatchEnum::Queue)
        } else if s == "QUEUE_5"@ {
            Some(ModifyOrderPriceMatchEnum::Queue5)
        } else if s == "QUEUE_10"@ {
            Some(ModifyOrderPriceMatchEnum::Queue10)
        } else if s == "QUEUE_20"@ {
            Some(ModifyOrderPriceMatchEnum::Queue20)
        } else {
            None
        }
    }

    /// An optional value, as the query parameter that carries it.
    pub open spec fn opt_wire(v: Option<ModifyOrderPriceMatchEnum>) -> Option<QueryValueView> {
        match v {
            Some(e) => Some(QueryValueView::Text(e.wire_name())),
            None => None,
        }
    }

    /// The wire name of the value.
    #[must_use]
    pub fn as_str(&self) -> (s: &'static str)
        ensures
            s@ == self.wire_name(),
    {
        match self {
            ModifyOrderPriceMatchEnum::NoMatch => "NONE",
            ModifyOrderPriceMatchEnum::Opponent => "OPPONENT",
            ModifyOrderPriceMatchEnum::Opponent5 => "OPPONENT_5",
            ModifyOrderPriceMatchEnum::Opponent10 => "OPPONENT_10",
            ModifyOrderPriceMatchEnum::Opponent20 => "OPPONENT_20",
            ModifyOrderPriceMatchEnum::Queue => "QUEUE",
            ModifyOrderPriceMatchEnum::Queue5 => "QUEUE_5",
            ModifyOrderPriceMatchEnum::Queue10 => "QUEUE_10",
            ModifyOrderPriceMatchEnum::Queue20 => "QUEUE_20",
        }
    }

    /// The value whose wire name is `s`; for any other `s` the error says
    /// which text was refused.
    pub fn parse(s: &str) -> (r: Result<ModifyOrderPriceMatchEnum, String>)
        ensures
            match r {
                Ok(e) => ModifyOrderPriceMatchEnum::from_wire(s@) == Some(e),
                Err(msg) => ModifyOrderPriceMatchEnum::from_wire(s@) is None && msg@ == "invalid ModifyOrderPriceMatchEnum: "@ + s@,
            },
    {
        if str_eq(s, "NONE") {
            Ok(ModifyOrderPriceMatchEnum::NoMatch)
        } else if str_eq(s, "OPPONENT") {
            Ok(ModifyOrderPriceMatchEnum::Opponent)
        } else if str_eq(s, "OPPONENT_5") {
            Ok(ModifyOrderPriceMatchEnum::Opponent5)
        } else if str_eq(s, "OPPONENT_10") {
            Ok(ModifyOrderPriceMatchEnum::Opponent10)
        } else if str_eq(s, "OPPONENT_20") {
            Ok(ModifyOrderPriceMatchEnum::Opponent20)
        } else if str_eq(s, "QUEUE") {
            Ok(ModifyOrderPriceMatchEnum::Queue)
        } else if str_eq(s, "QUEUE_5") {
            Ok(ModifyOrderPriceMatchEnum::Queue5)
        } else if str_eq(s, "QUEUE_10") {
            Ok(ModifyOrderPriceMatchEnum::Queue10)
        } else if str_eq(s, "QUEUE_20") {
            Ok(ModifyOrderPriceMatchEnum::Queue20)
        } else {
            let mut msg = "invalid ModifyOrderPriceMatchEnum: ".to_owned();
            msg.append(s);
            Err(msg)
        }
    }

    /// Each value reads back from its wire name, and a wire name reads back
    /// only as the value that has it.
    pub proof fn lemma_wire_round_trip(e: ModifyOrderPriceMatchEnum, s: Seq<char>)
        ensures
            ModifyOrderPriceMatchEnum::from_wire(e.wire_name()) == Some(e),
            ModifyOrderPriceMatchEnum::from_wire(s) == Some(e) ==> s == e.wire_name(),
    {
        reveal_strlit("NONE");
        reveal_strlit("OPPONENT");
        reveal_strlit("OPPONENT_5");
        reveal_strlit("OPPONENT_10");
        reveal_strlit("OPPONENT_20");
        reveal_strlit("QUEUE");
        reveal_strlit("QUEUE_5");
        reveal_strlit("QUEUE_10");
        reveal_strlit("QUEUE_20");
        assert("NONE"@.len() == 4);
        assert("OPPONENT"@.len() == 8);
        assert("OPPONENT_5"@.len() == 10);
        assert("OPPONENT_10"@.len() == 11);
        assert("OPPONENT_20"@.len() == 11);
        assert("QUEUE"@.len() == 5);
        assert("QUEUE_5"@.len() == 7);
        assert("QUEUE_10"@.len() == 8);
        assert("QUEUE_20"@.len() == 8);
        assert("OPPONENT"@[0] == 'O');
        assert("QUEUE_10"@[0] == 'Q');
        assert("QUEUE_20"@[0] == 'Q');
        assert("OPPONENT_10"@[9] == '1');
        assert("OPPONENT_20"@[9] == '2');
        assert("QUEUE_10"@[6] == '1');
        assert("QUEUE_20"@[6] == '2');
    }
}

impl std::str::FromStr for ModifyOrderPriceMatchEnum {
    type Err = String;

    fn from_str(s: &str) -> (r: Result<ModifyOrderPriceMatchEnum, String>)
        ensures
            match r {
                Ok(e) => ModifyOrderPriceMatchEnum::from_wire(s@) == Some(e),
                Err(msg) => ModifyOrderPriceMatchEnum::from_wire(s@) is None && msg@ == "invalid ModifyOrderPriceMatchEnum: "@ + s@,
            },
    {
        ModifyOrderPriceMatchEnum::parse(s)
    }
}

/// The values of `NewOrderSide` that the endpoint accepts.
#[derive(Debug, Clone, Copy, PartialEq, Eq, Structural)]
pub enum NewOrderSideEnum {
    Buy,
    Sell,
}

impl NewOrderSideEnum {
    /// The name by which the API knows the value.
    pub open spec fn wire_name(self) -> Seq<char> {
        match self {
            NewOrderSideEnum::Buy => "BUY"@,
            NewOrderSideEnum::Sell => "SELL"@,
        }
    }

    /// The value that the API knows by `s`, if any.
    pub open spec fn from_wire(s: Seq<char>) -> Option<NewOrderSideEnum> {
        if s == "BUY"@ {
            Some(NewOrderSideEnum::Buy)
        } else if s == "SELL"@ {
            Some(NewOrderSideEnum::Sell)
        } else {
            None
        }
    }

    /// An optional value, as the query parameter that carries it.
    pub open spec fn opt_wire(v: Option<NewOrderSideEnum>) -> Option<QueryValueView> {
        match v {
            Some(e) => Some(QueryValueView::Text(e.wire_name())),
            None => None,
        }
    }

    /// The wire name of the value.
    #[must_use]
    pub fn as_str(&self) -> (s: &'static str)
        ensures
            s@ == self.wire_name(),
    {
        match self {
            NewOrderSideEnum::Buy => "BUY",
            NewOrderSideEnum::Sell => "SELL",
        }
    }

    /// The value whose wire name is `s`; for any other `s` the error says
    /// which text was refused.
    pub fn parse(s: &str) -> (r: Result<NewOrderSideEnum, String>)
        ensures
            match r {
                Ok(e) => NewOrderSideEnum::from_wire(s@) == Some(e),
                Err(msg) => NewOrderSideEnum::from_wire(s@) is None && msg@ == "invalid NewOrderSideEnum: "@ + s@,
            },
    {
        if str_eq(s, "BUY") {
            Ok(NewOrderSideEnum::Buy)
        } else if str_eq(s, "SELL") {
            Ok(NewOrderSideEnum::Sell)
        } else {
            let mut msg = "invalid NewOrderSideEnum: ".to_owned();
            msg.append(s);
            Err(msg)
        }
    }

    /// Each value reads back from its wire name, and a wire name reads back
    /// only as the value that has it.
    pub proof fn lemma_wire_round_trip(e: NewOrderSideEnum, s: Seq<char>)
        ensures
            NewOrderSideEnum::from_wire(e.wire_name()) == Some(e),
            NewOrderSideEnum::from_wire(s) == Some(e) ==> s == e.wire_name(),
    {
        reveal_strlit("BUY");
        reveal_strlit("SELL");
        assert("BUY"@.len() == 3);
        assert("SELL"@.len() == 4);
    }
}

impl std::str::FromStr for NewOrderSideEnum {
    type Err = String;

    fn from_str(s: &str) -> (r: Result<NewOrderSideEnum, String>)
        ensures
            match r {
                Ok(e) => NewOrderSideEnum::from_wire(s@) == Some(e),
                Err(msg) => NewOrderSideEnum::from_wire(s@) is None && msg@ == "invalid NewOrderSideEnum: "@ + s@,
            },
    {
        NewOrderSideEnum::parse(s)
    }
}

/// The values of `NewOrderPositionSide` that the endpoint accepts.
#[derive(Debug, Clone, Copy, PartialEq, Eq, Structural)]
pub enum NewOrderPositionSideEnum {
    Both,
    Long,
    Short,
}

impl NewOrderPositionSideEnum {
    /// The name by which the API knows the value.
    pub open spec fn wire_name(self) -> Seq<char> {
        match self {
            NewOrderPositionSideEnum::Both => "BOTH"@,
            NewOrderPositionSideEnum::Long => "LONG"@,
            NewOrderPositionSideEnum::Short => "SHORT"@,
        }
    }

    /// The value that the API knows by `s`, if any.
    pub open spec fn from_wire(s: Seq<char>) -> Option<NewOrderPositionSideEnum> {
        if s == "BOTH"@ {
            Some(NewOrderPositionSideEnum::Both)
        } else if s == "LONG"@ {
            Some(NewOrderPositionSideEnum::Long)
        } else if s == "SHORT"@ {
            Some(NewOrderPositionSideEnum::Short)
        } else {
            None
        }
    }

    /// An optional value, as the query parameter that carries it.
    pub open spec fn opt_wire(v: Option<NewOrderPositionSideEnum>) -> Option<QueryValueView> {
        match v {
            Some(e) => Some(QueryValueView::Text(e.wire_name())),
            None => None,
        }
    }

    /// The wire name of the value.
    #[must_use]
    pub fn as_str(&self) -> (s: &'static str)
        ensures
            s@ == self.wire_name(),
    {
        match self {
            NewOrderPositionSideEnum::Both => "BOTH",
            NewOrderPositionSideEnum::Long => "LONG",
            NewOrderPositionSideEnum::Short => "SHORT",
        }
    }

    /// The value whose wire name is `s`; for any other `s` the error says
    /// which text was refused.
    pub fn parse(s: &str) -> (r: Result<NewOrderPositionSideEnum, String>)
        ensures
            match r {
                Ok(e) => NewOrderPositionSideEnum::from_wire(s@) == Some(e),
                Err(msg) => NewOrderPositionSideEnum::from_wire(s@) is None && msg@ == "invalid NewOrderPositionSideEnum: "@ + s@,
            },
    {
        if str_eq(s, "BOTH") {
            Ok(NewOrderPositionSideEnum::Both)
        } else if str_eq(s, "LONG") {
            Ok(NewOrderPositionSideEnum::Long)
        } else if str_eq(s, "SHORT") {
            Ok(NewOrderPositionSideEnum::Short)
        } else {
            let mut msg = "invalid NewOrderPositionSideEnum: ".to_owned();
            msg.append(s);
            Err(msg)
        }
    }

    /// Each value reads back from its wire name, and a wire name reads back
    /// only as the value that has it.
    pub proof fn lemma_wire_round_trip(e: NewOrderPositionSideEnum, s: Seq<char>)
        ensures
            NewOrderPositionSideEnum::from_wire(e.wire_name()) == Some(e),
            NewOrderPositionSideEnum::from_wire(s) == Some(e) ==> s == e.wire_name(),
    {
        reveal_strlit("BOTH");
        reveal_strlit("LONG");
        reveal_strlit("SHORT");
        assert("BOTH"@.len() == 4);
        assert("LONG"@.len() == 4);
        assert("SHORT"@.len() == 5);
        assert("BOTH"@[0] == 'B');
        assert("LONG"@[0] == 'L');
    }
}

impl std::str::FromStr for NewOrderPositionSideEnum {
    type Err = String;

    fn from_str(s: &str) -> (r: Result<NewOrderPositionSideEnum, String>)
        ensures
            match r {
                Ok(e) => NewOrderPositionSideEnum::from_wire(s@) == Some(e),
                Err(msg) => NewOrderPositionSideEnum::from_wire(s@) is None && msg@ == "invalid NewOrderPositionSideEnum: "@ + s@,
            },
    {
        NewOrderPositionSideEnum::parse(s)
    }
}

/// The values of `NewOrderTimeInForce` that the endpoint accepts.
#[derive(Debug, Clone, Copy, PartialEq, Eq, Structural)]
pub enum NewOrderTimeInForceEnum {
    Gtc,
    Ioc,
    Fok,
    Gtx,
    Gtd,
}

impl NewOrderTimeInForceEnum {
    /// The name by which the API knows the value.
    pub open spec fn wire_name(self) -> Seq<char> {
        match self {
            NewOrderTimeInForceEnum::Gtc => "GTC"@,
            NewOrderTimeInForceEnum::Ioc => "IOC"@,
            NewOrderTimeInForceEnum::Fok => "FOK"@,
            NewOrderTimeInForceEnum::Gtx => "GTX"@,
            NewOrderTimeInForceEnum::Gtd => "GTD"@,
        }
    }

    /// The value that the API knows by `s`, if any.
    pub open spec fn from_wire(s: Seq<char>) -> Option<NewOrderTimeInForceEnum> {
        if s == "GTC"@ {
            Some(NewOrderTimeInForceEnum::Gtc)
        } else if s == "IOC"@ {
            Some(NewOrderTimeInForceEnum::Ioc)
        } else if s == "FOK"@ {
            Some(NewOrderTimeInForceEnum::Fok)
        } else if s == "GTX"@ {
            Some(NewOrderTimeInForceEnum::Gtx)
        } else if s == "GTD"@ {
            Some(NewOrderTimeInForceEnum::Gtd)
        } else {
            None
        }
    }

    /// An optional value, as the query parameter that carries it.
    pub open spec fn opt_wire(v: Option<NewOrderTimeInForceEnum>) -> Option<QueryValueView> {
        match v {
            Some(e) => Some(QueryValueView::Text(e.wire_name())),
            None => None,
        }
    }

    /// The wire name of the value.
    #[must_use]
    pub fn as_str(&self) -> (s: &'static str)
        ensures
            s@ == self.wire_name(),
    {
        match self {
            NewOrderTimeInForceEnum::Gtc => "GTC",
            NewOrderTimeInForceEnum::Ioc => "IOC",
            NewOrderTimeInForceEnum::Fok => "FOK",
            NewOrderTimeInForceEnum::Gtx => "GTX",
            NewOrderTimeInForceEnum::Gtd => "GTD",
        }
    }

    /// The value whose wire name is `s`; for any other `s` the error says
    /// which text was refused.
    pub fn parse(s: &str) -> (r: Result<NewOrderTimeInForceEnum, String>)
        ensures
            match r {
                Ok(e) => NewOrderTimeInForceEnum::from_wire(s@) == Some(e),
                Err(msg) => NewOrderTimeInForceEnum::from_wire(s@) is None && msg@ == "invalid NewOrderTimeInForceEnum: "@ + s@,
            },
    {
        if str_eq(s, "GTC") {
            Ok(NewOrderTimeInForceEnum::Gtc)
        } else if str_eq(s, "IOC") {
            Ok(NewOrderTimeInForceEnum::Ioc)
        } else if str_eq(s, "FOK") {
            Ok(NewOrderTimeInForceEnum::Fok)
        } else if str_eq(s, "GTX") {
            Ok(NewOrderTimeInForceEnum::Gtx)
        } else if str_eq(s, "GTD") {
            Ok(NewOrderTimeInForceEnum::Gtd)
        } else {
            let mut msg = "invalid NewOrderTimeInForceEnum: ".to_owned();
            msg.append(s);
            Err(msg)
        }
    }

    /// Each value reads back from its wire name, and a wire name reads back
    /// only as the value that has it.
    pub proof fn lemma_wire_round_trip(e: NewOrderTimeInForceEnum, s: Seq<char>)
        ensures
            NewOrderTimeInForceEnum::from_wire(e.wire_name()) == Some(e),
            NewOrderTimeInForceEnum::from_wire(s) == Some(e) ==> s == e.wire_name(),
    {
        reveal_strlit("GTC");
        reveal_strlit("IOC");
        reveal_strlit("FOK");
        reveal_strlit("GTX");
        reveal_strlit("GTD");
        assert("GTC"@.len() == 3);
        assert("IOC"@.len() == 3);
        assert("FOK"@.len() == 3);
        assert("GTX"@.len() == 3);
        assert("GTD"@.len() == 3);
        assert("GTC"@[0] == 'G');
        assert("IOC"@[0] == 'I');
        assert("FOK"@[0] == 'F');
        assert("GTC"@[2] == 'C');
        assert("GTX"@[2] == 'X');
        assert("GTD"@[2] == 'D');
        assert("GTX"@[0] == 'G');
        assert("GTD"@[0] == 'G');
    }
}

impl std::str::FromStr for NewOrderTimeInForceEnum {
    type Err = String;

    fn from_str(s: &str) -> (r: Result<NewOrderTimeInForceEnum, String>)
        ensures
            match r {
                Ok(e) => NewOrderTimeInForceEnum::from_wire(s@) == Some(e),
                Err(msg) => NewOrderTimeInForceEnum::from_wire(s@) is None && msg@ == "invalid NewOrderTimeInForceEnum: "@ + s@,
            },
    {
        NewOrderTimeInForceEnum::parse(s)
    }
}

/// The values of `NewOrderWorkingType` that the endpoint accepts.
#[derive(Debug, Clone, Copy, PartialEq, Eq, Structural)]
pub enum NewOrderWorkingTypeEnum {
    MarkPrice,
    ContractPrice,
}

impl NewOrderWorkingTypeEnum {
    /// The name by which the API knows the value.
    pub open spec fn wire_name(self) -> Seq<char> {
        match self {
            NewOrderWorkingTypeEnum::MarkPrice => "MARK_PRICE"@,
            NewOrderWorkingTypeEnum::ContractPrice => "CONTRACT_PRICE"@,
        }
    }

    /// The value that the API knows by `s`, if any.
    pub open spec fn from_wire(s: Seq<char>) -> Option<NewOrderWorkingTypeEnum> {
        if s == "MARK_PRICE"@ {
            Some(NewOrderWorkingTypeEnum::MarkPrice)
        } else if s == "CONTRACT_PRICE"@ {
            Some(NewOrderWorkingTypeEnum::ContractPrice)
        } else {
            None
        }
    }

    /// An optional value, as the query parameter that carries it.
    pub open spec fn opt_wire(v: Option<NewOrderWorkingTypeEnum>) -> Option<QueryValueView> {
        match v {
            Some(e) => Some(QueryValueView::Text(e.wire_name())),
            None => None,
        }
    }

    /// The wire name of the value.
    #[must_use]
    pub fn as_str(&self) -> (s: &'static str)
        ensures
            s@ == self.wire_name(),
    {
        match self {
            NewOrderWorkingTypeEnum::MarkPrice => "MARK_PRICE",
            NewOrderWorkingTypeEnum::ContractPrice => "CONTRACT_PRICE",
        }
    }

    /// The value whose wire name is `s`; for any other `s` the error says
    /// which text was refused.
    pub fn parse(s: &str) -> (r: Result<NewOrderWorkingTypeEnum, String>)
        ensures
            match r {
                Ok(e) => NewOrderWorkingTypeEnum::from_wire(s@) == Some(e),
                Err(msg) => NewOrderWorkingTypeEnum::from_wire(s@) is None && msg@ == "invalid NewOrderWorkingTypeEnum: "@ + s@,
            },
    {
        if str_eq(s, "MARK_PRICE") {
            Ok(NewOrderWorkingTypeEnum::MarkPrice)
        } else if str_eq(s, "CONTRACT_PRICE") {
            Ok(NewOrderWorkingTypeEnum::ContractPrice)
        } else {
            let mut msg = "invalid NewOrderWorkingTypeEnum: ".to_owned();
            msg.append(s);
            Err(msg)
        }
    }

    /// Each value reads back from its wire name, and a wire name reads back
    /// only as the value that has it.
    pub proof fn lemma_wire_round_trip(e: NewOrderWorkingTypeEnum, s: Seq<char>)
        ensures
            NewOrderWorkingTypeEnum::from_wire(e.wire_name()) == Some(e),
            NewOrderWorkingTypeEnum::from_wire(s) == Some(e) ==> s == e.wire_name(),
    {
        reveal_strlit("MARK_PRICE");
        reveal_strlit("CONTRACT_PRICE");
        assert("MARK_PRICE"@.len() == 10);
        assert("CONTRACT_PRICE"@.len() == 14);
    }
}

impl std::str::FromStr for NewOrderWorkingTypeEnum {
    type Err = String;

    fn from_str(s: &str) -> (r: Result<NewOrderWorkingTypeEnum, String>)
        ensures
            match r {
                Ok(e) => NewOrderWorkingTypeEnum::from_wire(s@) == Some(e),
                Err(msg) => NewOrderWorkingTypeEnum::from_wire(s@) is None && msg@ == "invalid NewOrderWorkingTypeEnum: "@ + s@,
            },
    {
        NewOrderWorkingTypeEnum::parse(s)
    }
}

/// The values of `NewOrderNewOrderRespType` that the endpoint accepts.
#[derive(Debug, Clone, Copy, PartialEq, Eq, Structural)]
pub enum NewOrderNewOrderRespTypeEnum {
    Ack,
    Result,
}

impl NewOrderNewOrderRespTypeEnum {
    /// The name by which the API knows the value.
    pub open spec fn wire_name(self) -> Seq<char> {
        match self {
            NewOrderNewOrderRespTypeEnum::Ack => "ACK"@,
            NewOrderNewOrderRespTypeEnum::Result => "RESULT"@,
        }
    }

    /// The value that the API knows by `s`, if any.
    pub open spec fn from_wire(s: Seq<char>) -> Option<NewOrderNewOrderRespTypeEnum> {
        if s == "ACK"@ {
            Some(NewOrderNewOrderRespTypeEnum::Ack)
        } else if s == "RESULT"@ {
            Some(NewOrderNewOrderRespTypeEnum::Result)
        } else {
            None
        }
    }

    /// An optional value, as the query parameter that carries it.
    pub open spec fn opt_wire(v: Option<NewOrderNewOrderRespTypeEnum>) -> Option<QueryValueView> {
        match v {
            Some(e) => Some(QueryValueView::Text(e.wire_name())),
            None => None,
        }
    }

    /// The wire name of the value.
    #[must_use]
    pub fn as_str(&self) -> (s: &'static str)
        ensures
            s@ == self.wire_name(),
    {
        match self {
            NewOrderNewOrderRespTypeEnum::Ack => "ACK",
            NewOrderNewOrderRespTypeEnum::Result => "RESULT",
        }
    }

    /// The value whose wire name is `s`; for any other `s` the error says
    /// which text was refused.
    pub fn parse(s: &str) -> (r: Result<NewOrderNewOrderRespTypeEnum, String>)
        ensures
            match r {
                Ok(e) => NewOrderNewOrderRespTypeEnum::from_wire(s@) == Some(e),
                Err(msg) => NewOrderNewOrderRespTypeEnum::from_wire(s@) is None && msg@ == "invalid NewOrderNewOrderRespTypeEnum: "@ + s@,
            },
    {
        if str_eq(s, "ACK") {
            Ok(NewOrderNewOrderRespTypeEnum::Ack)
        } else if str_eq(s, "RESULT") {
            Ok(NewOrderNewOrderRespTypeEnum::Result)
        } else {
            let mut msg = "invalid NewOrderNewOrderRespTypeEnum: ".to_owned();
            msg.append(s);
            Err(msg)
        }
    }

    /// Each value reads back from its wire name, and a wire name reads back
    /// only as the value that has it.
    pub proof fn lemma_wire_round_trip(e: NewOrderNewOrderRespTypeEnum, s: Seq<char>)
        ensures
            NewOrderNewOrderRespTypeEnum::from_wire(e.wire_name()) == Some(e),
            NewOrderNewOrderRespTypeEnum::from_wire(s) == Some(e) ==> s == e.wire_name(),
    {
        reveal_strlit("ACK");
        reveal_strlit("RESULT");
        assert("ACK"@.len() == 3);
        assert("RESULT"@.len() == 6);
    }
}

impl std::str::FromStr for NewOrderNewOrderRespTypeEnum {
    type Err = String;

    fn from_str(s: &str) -> (r: Result<NewOrderNewOrderRespTypeEnum, String>)
        ensures
            match r {
                Ok(e) => NewOrderNewOrderRespTypeEnum::from_wire(s@) == Some(e),
                Err(msg) => NewOrderNewOrderRespTypeEnum::from_wire(s@) is None && msg@ == "invalid NewOrderNewOrderRespTypeEnum: "@ + s@,
            },
    {
        NewOrderNewOrderRespTypeEnum::parse(s)
    }
}

/// The values of `NewOrderPriceMatch` that the endpoint accepts.
#[derive(Debug, Clone, Copy, PartialEq, Eq, Structural)]
pub enum NewOrderPriceMatchEnum {
    NoMatch,
    Opponent,
    Opponent5,
    Opponent10,
    Opponent20,
    Queue,
    Queue5,
    Queue10,
    Queue20,
}

impl NewOrderPriceMatchEnum {
    /// The name by which the API knows the value.
    pub open spec fn wire_name(self) -> Seq<char> {
        match self {
            NewOrderPriceMatchEnum::NoMatch => "NONE"@,
            NewOrderPriceMatchEnum::Opponent => "OPPONENT"@,
            NewOrderPriceMatchEnum::Opponent5 => "OPPONENT_5"@,
            NewOrderPriceMatchEnum::Opponent10 => "OPPONENT_10"@,
            NewOrderPriceMatchEnum::Opponent20 => "OPPONENT_20"@,
            NewOrderPriceMatchEnum::Queue => "QUEUE"@,
            NewOrderPriceMatchEnum::Queue5 => "QUEUE_5"@,
            NewOrderPriceMatchEnum::Queue10 => "QUEUE_10"@,
            NewOrderPriceMatchEnum::Queue20 => "QUEUE_20"@,
        }
    }

    /// The value that the API knows by `s`, if any.
    pub open spec fn from_wire(s: Seq<char>) -> Option<NewOrderPriceMatchEnum> {
        if s == "NONE"@ {
            Some(NewOrderPriceMatchEnum::NoMatch)
        } else if s == "OPPONENT"@ {
            Some(NewOrderPriceMatchEnum::Opponent)
        } else if s == "OPPONENT_5"@ {
            Some(NewOrderPriceMatchEnum::Opponent5)
        } else if s == "OPPONENT_10"@ {
            Some(NewOrderPriceMatchEnum::Opponent10)
        } else if s == "OPPONENT_20"@ {
            Some(NewOrderPriceMatchEnum::Opponent20)
        } else if s == "QUEUE"@ {
            Some(NewOrderPriceMatchEnum::Queue)
        } else if s == "QUEUE_5"@ {
            Some(NewOrderPriceMatchEnum::Queue5)
        } else if s == "QUEUE_10"@ {
            Some(NewOrderPriceMatchEnum::Queue10)
        } else if s == "QUEUE_20"@ {
            Some(NewOrderPriceMatchEnum::Queue20)
        } else {
            None
        }
    }

    /// An optional value, as the query parameter that carries it.
    pub open spec fn opt_wire(v: Option<NewOrderPriceMatchEnum>) -> Option<QueryValueView> {
        match v {
            Some(e) => Some(QueryValueView::Text(e.wire_name())),
            None => None,
        }
    }

    /// The wire name of the value.
    #[must_use]
    pub fn as_str(&self) -> (s: &'static str)
        ensures
            s@ == self.wire_name(),
    {
        match self {
            NewOrderPriceMatchEnum::NoMatch => "NONE",
            NewOrderPriceMatchEnum::Opponent => "OPPONENT",
            NewOrderPriceMatchEnum::Opponent5 => "OPPONENT_5",
            NewOrderPriceMatchEnum::Opponent10 => "OPPONENT_10",
            NewOrderPriceMatchEnum::Opponent20 => "OPPONENT_20",
            NewOrderPriceMatchEnum::Queue => "QUEUE",
            NewOrderPriceMatchEnum::Queue5 => "QUEUE_5",
            NewOrderPriceMatchEnum::Queue10 => "QUEUE_10",
            NewOrderPriceMatchEnum::Queue20 => "QUEUE_20",
        }
    }

    /// The value whose wire name is `s`; for any other `s` the error says
    /// which text was refused.
    pub fn parse(s: &str) -> (r: Result<NewOrderPriceMatchEnum, String>)
        ensures
            match r {
                Ok(e) => NewOrderPriceMatchEnum::from_wire(s@) == Some(e),
                Err(msg) => NewOrderPriceMatchEnum::from_wire(s@) is None && msg@ == "invalid NewOrderPriceMatchEnum: "@ + s@,
            },
    {
        if str_eq(s, "NONE") {
            Ok(NewOrderPriceMatchEnum::NoMatch)
        } else if str_eq(s, "OPPONENT") {
            Ok(NewOrderPriceMatchEnum::Opponent)
        } else if str_eq(s, "OPPONENT_5") {
            Ok(NewOrderPriceMatchEnum::Opponent5)
        } else if str_eq(s, "OPPONENT_10") {
            Ok(NewOrderPriceMatchEnum::Opponent10)
        } else if str_eq(s, "OPPONENT_20") {
            Ok(NewOrderPriceMatchEnum::Opponent20)
        } else if str_eq(s, "QUEUE") {
            Ok(NewOrderPriceMatchEnum::Queue)
        } else if str_eq(s, "QUEUE_5") {
            Ok(NewOrderPriceMatchEnum::Queue5)
        } else if str_eq(s, "QUEUE_10") {
            Ok(NewOrderPriceMatchEnum::Queue10)
        } else if str_eq(s, "QUEUE_20") {
            Ok(NewOrderPriceMatchEnum::Queue20)
        } else {
            let mut msg = "invalid NewOrderPriceMatchEnum: ".to_owned();
            msg.append(s);
            Err(msg)
        }
    }

    /// Each value reads back from its wire name, and a wire name reads back
    /// only as the value that has it.
    pub proof fn lemma_wire_round_trip(e: NewOrderPriceMatchEnum, s: Seq<char>)
        ensures
            NewOrderPriceMatchEnum::from_wire(e.wire_name()) == Some(e),
            NewOrderPriceMatchEnum::from_wire(s) == Some(e) ==> s == e.wire_name(),
    {
        reveal_strlit("NONE");
        reveal_strlit("OPPONENT");
        reveal_strlit("OPPONENT_5");
        reveal_strlit("OPPONENT_10");
        reveal_strlit("OPPONENT_20");
        reveal_strlit("QUEUE");
        reveal_strlit("QUEUE_5");
        reveal_strlit("QUEUE_10");
        reveal_strlit("QUEUE_20");
        assert("NONE"@.len() == 4);
        assert("OPPONENT"@.len() == 8);
        assert("OPPONENT_5"@.len() == 10);
        assert("OPPONENT_10"@.len() == 11);
        assert("OPPONENT_20"@.len() == 11);
        assert("QUEUE"@.len() == 5);
        assert("QUEUE_5"@.len() == 7);
        assert("QUEUE_10"@.len() == 8);
        assert("QUEUE_20"@.len() == 8);
        assert("OPPONENT"@[0] == 'O');
        assert("QUEUE_10"@[0] == 'Q');
        assert("QUEUE_20"@[0] == 'Q');
        assert("OPPONENT_10"@[9] == '1');
        assert("OPPONENT_20"@[9] == '2');
        assert("QUEUE_10"@[6] == '1');
        assert("QUEUE_20"@[6] == '2');
    }
}

impl std::str::FromStr for NewOrderPriceMatchEnum {
    type Err = String;

    fn from_str(s: &str) -> (r: Result<NewOrderPriceMatchEnum, String>)
        ensures
            match r {
                Ok(e) => NewOrderPriceMatchEnum::from_wire(s@) == Some(e),
                Err(msg) => NewOrderPriceMatchEnum::from_wire(s@) is None && msg@ == "invalid NewOrderPriceMatchEnum: "@ + s@,
            },
    {
        NewOrderPriceMatchEnum::parse(s)
    }
}

/// The values of `NewOrderSelfTradePreventionMode` that the endpoint accepts.
#[derive(Debug, Clone, Copy, PartialEq, Eq, Structural)]
pub enum NewOrderSelfTradePreventionModeEnum {
    NoStp,
    ExpireTaker,
    ExpireBoth,
    ExpireMaker,
}

impl NewOrderSelfTradePreventionModeEnum {
    /// The name by which the API knows the value.
    pub open spec fn wire_name(self) -> Seq<char> {
        match self {
            NewOrderSelfTradePreventionModeEnum::NoStp => "NONE"@,
            NewOrderSelfTradePreventionModeEnum::ExpireTaker => "EXPIRE_TAKER"@,
            NewOrderSelfTradePreventionModeEnum::ExpireBoth => "EXPIRE_BOTH"@,
            NewOrderSelfTradePreventionModeEnum::ExpireMaker => "EXPIRE_MAKER"@,
        }
    }

    /// The value that the API knows by `s`, if any.
    pub open spec fn from_wire(s: Seq<char>) -> Option<NewOrderSelfTradePreventionModeEnum> {
        if s == "NONE"@ {
            Some(NewOrderSelfTradePreventionModeEnum::NoStp)
        } else if s == "EXPIRE_TAKER"@ {
            Some(NewOrderSelfTradePreventionModeEnum::ExpireTaker)
        } else if s == "EXPIRE_BOTH"@ {
            Some(NewOrderSelfTradePreventionModeEnum::ExpireBoth)
        } else if s == "EXPIRE_MAKER"@ {
            Some(NewOrderSelfTradePreventionModeEnum::ExpireMaker)
        } else {
            None
        }
    }

    /// An optional value, as the query parameter that carries it.
    pub open spec fn opt_wire(v: Option<NewOrderSelfTradePreventionModeEnum>) -> Option<QueryValueView> {
        match v {
            Some(e) => Some(QueryValueView::Text(e.wire_name())),
            None => None,
        }
    }

    /// The wire name of the value.
    #[must_use]
    pub fn as_str(&self) -> (s: &'static str)
        ensures
            s@ == self.wire_name(),
    {
        match self {
            NewOrderSelfTradePreventionModeEnum::NoStp => "NONE",
            NewOrderSelfTradePreventionModeEnum::ExpireTaker => "EXPIRE_TAKER",
            NewOrderSelfTradePreventionModeEnum::ExpireBoth => "EXPIRE_BOTH",
            NewOrderSelfTradePreventionModeEnum::ExpireMaker => "EXPIRE_MAKER",
        }
    }

    /// The value whose wire name is `s`; for any other `s` the error says
    /// which text was refused.
    pub fn parse(s: &str) -> (r: Result<NewOrderSelfTradePreventionModeEnum, String>)
        ensures
            match r {
                Ok(e) => NewOrderSelfTradePreventionModeEnum::from_wire(s@) == Some(e),
                Err(msg) => NewOrderSelfTradePreventionModeEnum::from_wire(s@) is None && msg@ == "invalid NewOrderSelfTradePreventionModeEnum: "@ + s@,
            },
    {
        if str_eq(s, "NONE") {
            Ok(NewOrderSelfTradePreventionModeEnum::NoStp)
        } else if str_eq(s, "EXPIRE_TAKER") {
            Ok(NewOrderSelfTradePreventionModeEnum::ExpireTaker)
        } else if str_eq(s, "EXPIRE_BOTH") {
            Ok(NewOrderSelfTradePreventionModeEnum::ExpireBoth)
        } else if str_eq(s, "EXPIRE_MAKER") {
            Ok(NewOrderSelfTradePreventionModeEnum::ExpireMaker)
        } else {
            let mut msg = "invalid NewOrderSelfTradePreventionModeEnum: ".to_owned();
            msg.append(s);
            Err(msg)
        }
    }

    /// Each value reads back from its wire name, and a wire name reads back
    /// only as the value that has it.
    pub proof fn lemma_wire_round_trip(e: NewOrderSelfTradePreventionModeEnum, s: Seq<char>)
        ensures
            NewOrderSelfTradePreventionModeEnum::from_wire(e.wire_name()) == Some(e),
            NewOrderSelfTradePreventionModeEnum::from_wire(s) == Some(e) ==> s == e.wire_name(),
    {
        reveal_strlit("NONE");
        reveal_strlit("EXPIRE_TAKER");
        reveal_strlit("EXPIRE_BOTH");
        reveal_strlit("EXPIRE_MAKER");
        assert("NONE"@.len() == 4);
        assert("EXPIRE_TAKER"@.len() == 12);
        assert("EXPIRE_BOTH"@.len() == 11);
        assert("EXPIRE_MAKER"@.len() == 12);
        assert("EXPIRE_TAKER"@[7] == 'T');
        assert("EXPIRE_MAKER"@[7] == 'M');
    }
}

impl std::str::FromStr for NewOrderSelfTradePreventionModeEnum {
    type Err = String;

    fn from_str(s: &str) -> (r: Result<NewOrderSelfTradePreventionModeEnum, String>)
        ensures
            match r {
                Ok(e) => NewOrderSelfTradePreventionModeEnum::from_wire(s@) == Some(e),
                Err(msg) => NewOrderSelfTradePreventionModeEnum::from_wire(s@) is None && msg@ == "invalid NewOrderSelfTradePreventionModeEnum: "@ + s@,
            },
    {
        NewOrderSelfTradePreventionModeEnum::parse(s)
    }
}

/// The values of `TestOrderSide` that the endpoint accepts.
#[derive(Debug, Clone, Copy, PartialEq, Eq, Structural)]
pub enum TestOrderSideEnum {
    Buy,
    Sell,
}

impl TestOrderSideEnum {
    /// The name by which the API knows the value.
    pub open spec fn wire_name(self) -> Seq<char> {
        match self {
            TestOrderSideEnum::Buy => "BUY"@,
            TestOrderSideEnum::Sell => "SELL"@,
        }
    }

    /// The value that the API knows by `s`, if any.
    pub open spec fn from_wire(s: Seq<char>) -> Option<TestOrderSideEnum> {
        if s == "BUY"@ {
            Some(TestOrderSideEnum::Buy)
        } else if s == "SELL"@ {
            Some(TestOrderSideEnum::Sell)
        } else {
            None
        }
    }

    /// An optional value, as the query parameter that carries it.
    pub open spec fn opt_wire(v: Option<TestOrderSideEnum>) -> Option<QueryValueView> {
        match v {
            Some(e) => Some(QueryValueView::Text(e.wire_name())),
            None => None,
        }
    }

    /// The wire name of the value.
    #[must_use]
    pub fn as_str(&self) -> (s: &'static str)
        ensures
            s@ == self.wire_name(),
    {
        match self {
            TestOrderSideEnum::Buy => "BUY",
            TestOrderSideEnum::Sell => "SELL",
        }
    }

    /// The value whose wire name is `s`; for any other `s` the error says
    /// which text was refused.
    pub fn parse(s: &str) -> (r: Result<TestOrderSideEnum, String>)
        ensures
            match r {
                Ok(e) => TestOrderSideEnum::from_wire(s@) == Some(e),
                Err(msg) => TestOrderSideEnum::from_wire(s@) is None && msg@ == "invalid TestOrderSideEnum: "@ + s@,
            },
    {
        if str_eq(s, "BUY") {
            Ok(TestOrderSideEnum::Buy)
        } else if str_eq(s, "SELL") {
            Ok(TestOrderSideEnum::Sell)
        } else {
            let mut msg = "invalid TestOrderSideEnum: ".to_owned();
            msg.append(s);
            Err(msg)
        }
    }

    /// Each value reads back from its wire name, and a wire name reads back
    /// only as the value that has it.
    pub proof fn lemma_wire_round_trip(e: TestOrderSideEnum, s: Seq<char>)
        ensures
            TestOrderSideEnum::from_wire(e.wire_name()) == Some(e),
            TestOrderSideEnum::from_wire(s) == Some(e) ==> s == e.wire_name(),
    {
        reveal_strlit("BUY");
        reveal_strlit("SELL");
        assert("BUY"@.len() == 3);
        assert("SELL"@.len() == 4);
    }
}

impl std::str::FromStr for TestOrderSideEnum {
    type Err = String;

    fn from_str(s: &str) -> (r: Result<TestOrderSideEnum, String>)
        ensures
            match r {
                Ok(e) => TestOrderSideEnum::from_wire(s@) == Some(e),
                Err(msg) => TestOrderSideEnum::from_wire(s@) is None && msg@ == "invalid TestOrderSideEnum: "@ + s@,
            },
    {
        TestOrderSideEnum::parse(s)
    }
}

/// The values of `TestOrderPositionSide` that the endpoint accepts.
#[derive(Debug, Clone, Copy, PartialEq, Eq, Structural)]
pub enum TestOrderPositionSideEnum {
    Both,
    Long,
    Short,
}

impl TestOrderPositionSideEnum {
    /// The name by which the API knows the value.
    pub open spec fn wire_name(self) -> Seq<char> {
        match self {
            TestOrderPositionSideEnum::Both => "BOTH"@,
            TestOrderPositionSideEnum::Long => "LONG"@,
            TestOrderPositionSideEnum::Short => "SHORT"@,
        }
    }

    /// The value that the API knows by `s`, if any.
    pub open spec fn from_wire(s: Seq<char>) -> Option<TestOrderPositionSideEnum> {
        if s == "BOTH"@ {
            Some(TestOrderPositionSideEnum::Both)
        } else if s == "LONG"@ {
            Some(TestOrderPositionSideEnum::Long)
        } else if s == "SHORT"@ {
            Some(TestOrderPositionSideEnum::Short)
        } else {
            None
        }
    }

    /// An optional value, as the query parameter that carries it.
    pub open spec fn opt_wire(v: Option<TestOrderPositionSideEnum>) -> Option<QueryValueView> {
        match v {
            Some(e) => Some(QueryValueView::Text(e.wire_name())),
            None => None,
        }
    }

    /// The wire name of the value.
    #[must_use]
    pub fn as_str(&self) -> (s: &'static str)
        ensures
            s@ == self.wire_name(),
    {
        match self {
            TestOrderPositionSideEnum::Both => "BOTH",
            TestOrderPositionSideEnum::Long => "LONG",
            TestOrderPositionSideEnum::Short => "SHORT",
        }
    }

    /// The value whose wire name is `s`; for any other `s` the error says
    /// which text was refused.
    pub fn parse(s: &str) -> (r: Result<TestOrderPositionSideEnum, String>)
        ensures
            match r {
                Ok(e) => TestOrderPositionSideEnum::from_wire(s@) == Some(e),
                Err(msg) => TestOrderPositionSideEnum::from_wire(s@) is None && msg@ == "invalid TestOrderPositionSideEnum: "@ + s@,
            },
    {
        if str_eq(s, "BOTH") {
            Ok(TestOrderPositionSideEnum::Both)
        } else if str_eq(s, "LONG") {
            Ok(TestOrderPositionSideEnum::Long)
        } else if str_eq(s, "SHORT") {
            Ok(TestOrderPositionSideEnum::Short)
        } else {
            let mut msg = "invalid TestOrderPositionSideEnum: ".to_owned();
            msg.append(s);
            Err(msg)
        }
    }

    /// Each value reads back from its wire name, and a wire name reads back
    /// only as the value that has it.
    pub proof fn lemma_wire_round_trip(e: TestOrderPositionSideEnum, s: Seq<char>)
        ensures
            TestOrderPositionSideEnum::from_wire(e.wire_name()) == Some(e),
            TestOrderPositionSideEnum::from_wire(s) == Some(e) ==> s == e.wire_name(),
    {
        reveal_strlit("BOTH");
        reveal_strlit("LONG");
        reveal_strlit("SHORT");
        assert("BOTH"@.len() == 4);
        assert("LONG"@.len() == 4);
        assert("SHORT"@.len() == 5);
        assert("BOTH"@[0] == 'B');
        assert("LONG"@[0] == 'L');
    }
}

impl std::str::FromStr for TestOrderPositionSideEnum {
    type Err = String;

    fn from_str(s: &str) -> (r: Result<TestOrderPositionSideEnum, String>)
        ensures
            match r {
                Ok(e) => TestOrderPositionSideEnum::from_wire(s@) == Some(e),
                Err(msg) => TestOrderPositionSideEnum::from_wire(s@) is None && msg@ == "invalid TestOrderPositionSideEnum: "@ + s@,
            },
    {
        TestOrderPositionSideEnum::parse(s)
    }
}

/// The values of `TestOrderTimeInForce` that the endpoint accepts.
#[derive(Debug, Clone, Copy, PartialEq, Eq, Structural)]
pub enum TestOrderTimeInForceEnum {
    Gtc,
    Ioc,
    Fok,
    Gtx,
    Gtd,
}

impl TestOrderTimeInForceEnum {
    /// The name by which the API knows the value.
    pub open spec fn wire_name(self) -> Seq<char> {
        match self {
            TestOrderTimeInForceEnum::Gtc => "GTC"@,
            TestOrderTimeInForceEnum::Ioc => "IOC"@,
            TestOrderTimeInForceEnum::Fok => "FOK"@,
            TestOrderTimeInForceEnum::Gtx => "GTX"@,
            TestOrderTimeInForceEnum::Gtd => "GTD"@,
        }
    }

    /// The value that the API knows by `s`, if any.
    pub open spec fn from_wire(s: Seq<char>) -> Option<TestOrderTimeInForceEnum> {
        if s == "GTC"@ {
            Some(TestOrderTimeInForceEnum::Gtc)
        } else if s == "IOC"@ {
            Some(TestOrderTimeInForceEnum::Ioc)
        } else if s == "FOK"@ {
            Some(TestOrderTimeInForceEnum::Fok)
        } else if s == "GTX"@ {
            Some(TestOrderTimeInForceEnum::Gtx)
        } else if s == "GTD"@ {
            Some(TestOrderTimeInForceEnum::Gtd)
        } else {
            None
        }
    }

    /// An optional value, as the query parameter that carries it.
    pub open spec fn opt_wire(v: Option<TestOrderTimeInForceEnum>) -> Option<QueryValueView> {
        match v {
            Some(e) => Some(QueryValueView::Text(e.wire_name())),
            None => None,
        }
    }

    /// The wire name of the value.
    #[must_use]
    pub fn as_str(&self) -> (s: &'static str)
        ensures
            s@ == self.wire_name(),
    {
        match self {
            TestOrderTimeInForceEnum::Gtc => "GTC",
            TestOrderTimeInForceEnum::Ioc => "IOC",
            TestOrderTimeInForceEnum::Fok => "FOK",
            TestOrderTimeInForceEnum::Gtx => "GTX",
            TestOrderTimeInForceEnum::Gtd => "GTD",
        }
    }

    /// The value whose wire name is `s`; for any other `s` the error says
    /// which text was refused.
    pub fn parse(s: &str) -> (r: Result<TestOrderTimeInForceEnum, String>)
        ensures
            match r {
                Ok(e) => TestOrderTimeInForceEnum::from_wire(s@) == Some(e),
                Err(msg) => TestOrderTimeInForceEnum::from_wire(s@) is None && msg@ == "invalid TestOrderTimeInForceEnum: "@ + s@,
            },
    {
        if str_eq(s, "GTC") {
            Ok(TestOrderTimeInForceEnum::Gtc)
        } else if str_eq(s, "IOC") {
            Ok(TestOrderTimeInForceEnum::Ioc)
        } else if str_eq(s, "FOK") {
            Ok(TestOrderTimeInForceEnum::Fok)
        } else if str_eq(s, "GTX") {
            Ok(TestOrderTimeInForceEnum::Gtx)
        } else if str_eq(s, "GTD") {
            Ok(TestOrderTimeInForceEnum::Gtd)
        } else {
            let mut msg = "invalid TestOrderTimeInForceEnum: ".to_owned();
            msg.append(s);
            Err(msg)
        }
    }

    /// Each value reads back from its wire name, and a wire name reads back
    /// only as the value that has it.
    pub proof fn lemma_wire_round_trip(e: TestOrderTimeInForceEnum, s: Seq<char>)
        ensures
            TestOrderTimeInForceEnum::from_wire(e.wire_name()) == Some(e),
            TestOrderTimeInForceEnum::from_wire(s) == Some(e) ==> s == e.wire_name(),
    {
        reveal_strlit("GTC");
        reveal_strlit("IOC");
        reveal_strlit("FOK");
        reveal_strlit("GTX");
        reveal_strlit("GTD");
        assert("GTC"@.len() == 3);
        assert("IOC"@.len() == 3);
        assert("FOK"@.len() == 3);
        assert("GTX"@.len() == 3);
        assert("GTD"@.len() == 3);
        assert("GTC"@[0] == 'G');
        assert("IOC"@[0] == 'I');
        assert("FOK"@[0] == 'F');
        assert("GTC"@[2] == 'C');
        assert("GTX"@[2] == 'X');
        assert("GTD"@[2] == 'D');
        assert("GTX"@[0] == 'G');
        assert("GTD"@[0] == 'G');
    }
}

impl std::str::FromStr for TestOrderTimeInForceEnum {
    type Err = String;

    fn from_str(s: &str) -> (r: Result<TestOrderTimeInForceEnum, String>)
        ensures
            match r {
                Ok(e) => TestOrderTimeInForceEnum::from_wire(s@) == Some(e),
                Err(msg) => TestOrderTimeInForceEnum::from_wire(s@) is None && msg@ == "invalid TestOrderTimeInForceEnum: "@ + s@,
            },
    {
        TestOrderTimeInForceEnum::parse(s)
    }
}

/// The values of `TestOrderWorkingType` that the endpoint accepts.
#[derive(Debug, Clone, Copy, PartialEq, Eq, Structural)]
pub enum TestOrderWorkingTypeEnum {
    MarkPrice,
    ContractPrice,
}

impl TestOrderWorkingTypeEnum {
    /// The name by which the API knows the value.
    pub open spec fn wire_name(self) -> Seq<char> {
        match self {
            TestOrderWorkingTypeEnum::MarkPrice => "MARK_PRICE"@,
            TestOrderWorkingTypeEnum::ContractPrice => "CONTRACT_PRICE"@,
        }
    }

    /// The value that the API knows by `s`, if any.
    pub open spec fn from_wire(s: Seq<char>) -> Option<TestOrderWorkingTypeEnum> {
        if s == "MARK_PRICE"@ {
            Some(TestOrderWorkingTypeEnum::MarkPrice)
        } else if s == "CONTRACT_PRICE"@ {
            Some(TestOrderWorkingTypeEnum::ContractPrice)
        } else {
            None
        }
    }

    /// An optional value, as the query parameter that carries it.
    pub open spec fn opt_wire(v: Option<TestOrderWorkingTypeEnum>) -> Option<QueryValueView> {
        match v {
            Some(e) => Some(QueryValueView::Text(e.wire_name())),
            None => None,
        }
    }

    /// The wire name of the value.
    #[must_use]
    pub fn as_str(&self) -> (s: &'static str)
        ensures
            s@ == self.wire_name(),
    {
        match self {
            TestOrderWorkingTypeEnum::MarkPrice => "MARK_PRICE",
            TestOrderWorkingTypeEnum::ContractPrice => "CONTRACT_PRICE",
        }
    }

    /// The value whose wire name is `s`; for any other `s` the error says
    /// which text was refused.
    pub fn parse(s: &str) -> (r: Result<TestOrderWorkingTypeEnum, String>)
        ensures
            match r {
                Ok(e) => TestOrderWorkingTypeEnum::from_wire(s@) == Some(e),
                Err(msg) => TestOrderWorkingTypeEnum::from_wire(s@) is None && msg@ == "invalid TestOrderWorkingTypeEnum: "@ + s@,
            },
    {
        if str_eq(s, "MARK_PRICE") {
            Ok(TestOrderWorkingTypeEnum::MarkPrice)
        } else if str_eq(s, "CONTRACT_PRICE") {
            Ok(TestOrderWorkingTypeEnum::ContractPrice)
        } else {
            let mut msg = "invalid TestOrderWorkingTypeEnum: ".to_owned();
            msg.append(s);
            Err(msg)
        }
    }

    /// Each value reads back from its wire name, and a wire name reads back
    /// only as the value that has it.
    pub proof fn lemma_wire_round_trip(e: TestOrderWorkingTypeEnum, s: Seq<char>)
        ensures
            TestOrderWorkingTypeEnum::from_wire(e.wire_name()) == Some(e),
            TestOrderWorkingTypeEnum::from_wire(s) == Some(e) ==> s == e.wire_name(),
    {
        reveal_strlit("MARK_PRICE");
        reveal_strlit("CONTRACT_PRICE");
        assert("MARK_PRICE"@.len() == 10);
        assert("CONTRACT_PRICE"@.len() == 14);
    }
}

impl std::str::FromStr for TestOrderWorkingTypeEnum {
    type Err = String;

    fn from_str(s: &str) -> (r: Result<TestOrderWorkingTypeEnum, String>)
        ensures
            match r {
                Ok(e) => TestOrderWorkingTypeEnum::from_wire(s@) == Some(e),
                Err(msg) => TestOrderWorkingTypeEnum::from_wire(s@) is None && msg@ == "invalid TestOrderWorkingTypeEnum: "@ + s@,
            },
    {
        TestOrderWorkingTypeEnum::parse(s)
    }
}

/// The values of `TestOrderNewOrderRespType` that the endpoint accepts.
#[derive(Debug, Clone, Copy, PartialEq, Eq, Structural)]
pub enum TestOrderNewOrderRespTypeEnum {
    Ack,
    Result,
}

impl TestOrderNewOrderRespTypeEnum {
    /// The name by which the API knows the value.
    pub open spec fn wire_name(self) -> Seq<char> {
        match self {
            TestOrderNewOrderRespTypeEnum::Ack => "ACK"@,
            TestOrderNewOrderRespTypeEnum::Result => "RESULT"@,
        }
    }

    /// The value that the API knows by `s`, if any.
    pub open spec fn from_wire(s: Seq<char>) -> Option<TestOrderNewOrderRespTypeEnum> {
        if s == "ACK"@ {
            Some(TestOrderNewOrderRespTypeEnum::Ack)
        } else if s == "RESULT"@ {
            Some(TestOrderNewOrderRespTypeEnum::Result)
        } else {
            None
        }
    }

    /// An optional value, as the query parameter that carries it.
    pub open spec fn opt_wire(v: Option<TestOrderNewOrderRespTypeEnum>) -> Option<QueryValueView> {
        match v {
            Some(e) => Some(QueryValueView::Text(e.wire_name())),
            None => None,
        }
    }

    /// The wire name of the value.
    #[must_use]
    pub fn as_str(&self) -> (s: &'static str)
        ensures
            s@ == self.wire_name(),
    {
        match self {
            TestOrderNewOrderRespTypeEnum::Ack => "ACK",
            TestOrderNewOrderRespTypeEnum::Result => "RESULT",
        }
    }

    /// The value whose wire name is `s`; for any other `s` the error says
    /// which text was refused.
    pub fn parse(s: &str) -> (r: Result<TestOrderNewOrderRespTypeEnum, String>)
        ensures
            match r {
                Ok(e) => TestOrderNewOrderRespTypeEnum::from_wire(s@) == Some(e),
                Err(msg) => TestOrderNewOrderRespTypeEnum::from_wire(s@) is None && msg@ == "invalid TestOrderNewOrderRespTypeEnum: "@ + s@,
            },
    {
        if str_eq(s, "ACK") {
            Ok(TestOrderNewOrderRespTypeEnum::Ack)
        } else if str_eq(s, "RESULT") {
            Ok(TestOrderNewOrderRespTypeEnum::Result)
        } else {
            let mut msg = "invalid TestOrderNewOrderRespTypeEnum: ".to_owned();
            msg.append(s);
            Err(msg)
        }
    }

    /// Each value reads back from its wire name, and a wire name reads back
    /// only as the value that has it.
    pub proof fn lemma_wire_round_trip(e: TestOrderNewOrderRespTypeEnum, s: Seq<char>)
        ensures
            TestOrderNewOrderRespTypeEnum::from_wire(e.wire_name()) == Some(e),
            TestOrderNewOrderRespTypeEnum::from_wire(s) == Some(e) ==> s == e.wire_name(),
    {
        reveal_strlit("ACK");
        reveal_strlit("RESULT");
        assert("ACK"@.len() == 3);
        assert("RESULT"@.len() == 6);
    }
}

impl std::str::FromStr for TestOrderNewOrderRespTypeEnum {
    type Err = String;

    fn from_str(s: &str) -> (r: Result<TestOrderNewOrderRespTypeEnum, String>)
        ensures
            match r {
                Ok(e) => TestOrderNewOrderRespTypeEnum::from_wire(s@) == Some(e),
                Err(msg) => TestOrderNewOrderRespTypeEnum::from_wire(s@) is None && msg@ == "invalid TestOrderNewOrderRespTypeEnum: "@ + s@,
            },
    {
        TestOrderNewOrderRespTypeEnum::parse(s)
    }
}

/// The values of `TestOrderPriceMatch` that the endpoint accepts.
#[derive(Debug, Clone, Copy, PartialEq, Eq, Structural)]
pub enum TestOrderPriceMatchEnum {
    NoMatch,
    Opponent,
    Opponent5,
    Opponent10,
    Opponent20,
    Queue,
    Queue5,
    Queue10,
    Queue20,
}

impl TestOrderPriceMatchEnum {
    /// The name by which the API knows the value.
    pub open spec fn wire_name(self) -> Seq<char> {
        match self {
            TestOrderPriceMatchEnum::NoMatch => "NONE"@,
            TestOrderPriceMatchEnum::Opponent => "OPPONENT"@,
            TestOrderPriceMatchEnum::Opponent5 => "OPPONENT_5"@,
            TestOrderPriceMatchEnum::Opponent10 => "OPPONENT_10"@,
            TestOrderPriceMatchEnum::Opponent20 => "OPPONENT_20"@,
            TestOrderPriceMatchEnum::Queue => "QUEUE"@,
            TestOrderPriceMatchEnum::Queue5 => "QUEUE_5"@,
            TestOrderPriceMatchEnum::Queue10 => "QUEUE_10"@,
            TestOrderPriceMatchEnum::Queue20 => "QUEUE_20"@,
        }
    }

    /// The value that the API knows by `s`, if any.
    pub open spec fn from_wire(s: Seq<char>) -> Option<TestOrderPriceMatchEnum> {
        if s == "NONE"@ {
            Some(TestOrderPriceMatchEnum::NoMatch)
        } else if s == "OPPONENT"@ {
            Some(TestOrderPriceMatchEnum::Opponent)
        } else if s == "OPPONENT_5"@ {
            Some(TestOrderPriceMatchEnum::Opponent5)
        } else if s == "OPPONENT_10"@ {
            Some(TestOrderPriceMatchEnum::Opponent10)
        } else if s == "OPPONENT_20"@ {
            Some(TestOrderPriceMatchEnum::Opponent20)
        } else if s == "QUEUE"@ {
            Some(TestOrderPriceMatchEnum::Queue)
        } else if s == "QUEUE_5"@ {
            Some(TestOrderPriceMatchEnum::Queue5)
        } else if s == "QUEUE_10"@ {
            Some(TestOrderPriceMatchEnum::Queue10)
        } else if s == "QUEUE_20"@ {
            Some(TestOrderPriceMatchEnum::Queue20)
        } else {
            None
        }
    }

    /// An optional value, as the query parameter that carries it.
    pub open spec fn opt_wire(v: Option<TestOrderPriceMatchEnum>) -> Option<QueryValueView> {
        match v {
            Some(e) => Some(QueryValueView::Text(e.wire_name())),
            None => None,
        }
    }

    /// The wire name of the value.
    #[must_use]
    pub fn as_str(&self) -> (s: &'static str)
        ensures
            s@ == self.wire_name(),
    {
        match self {
            TestOrderPriceMatchEnum::NoMatch => "NONE",
            TestOrderPriceMatchEnum::Opponent => "OPPONENT",
            TestOrderPriceMatchEnum::Opponent5 => "OPPONENT_5",
            TestOrderPriceMatchEnum::Opponent10 => "OPPONENT_10",
            TestOrderPriceMatchEnum::Opponent20 => "OPPONENT_20",
            TestOrderPriceMatchEnum::Queue => "QUEUE",
            TestOrderPriceMatchEnum::Queue5 => "QUEUE_5",
            TestOrderPriceMatchEnum::Queue10 => "QUEUE_10",
            TestOrderPriceMatchEnum::Queue20 => "QUEUE_20",
        }
    }

    /// The value whose wire name is `s`; for any other `s` the error says
    /// which text was refused.
    pub fn parse(s: &str) -> (r: Result<TestOrderPriceMatchEnum, String>)
        ensures
            match r {
                Ok(e) => TestOrderPriceMatchEnum::from_wire(s@) == Some(e),
                Err(msg) => TestOrderPriceMatchEnum::from_wire(s@) is None && msg@ == "invalid TestOrderPriceMatchEnum: "@ + s@,
            },
    {
        if str_eq(s, "NONE") {
            Ok(TestOrderPriceMatchEnum::NoMatch)
        } else if str_eq(s, "OPPONENT") {
            Ok(TestOrderPriceMatchEnum::Opponent)
        } else if str_eq(s, "OPPONENT_5") {
            Ok(TestOrderPriceMatchEnum::Opponent5)
        } else if str_eq(s, "OPPONENT_10") {
            Ok(TestOrderPriceMatchEnum::Opponent10)
        } else if str_eq(s, "OPPONENT_20") {
            Ok(TestOrderPriceMatchEnum::Opponent20)
        } else if str_eq(s, "QUEUE") {
            Ok(TestOrderPriceMatchEnum::Queue)
        } else if str_eq(s, "QUEUE_5") {
            Ok(TestOrderPriceMatchEnum::Queue5)
        } else if str_eq(s, "QUEUE_10") {
            Ok(TestOrderPriceMatchEnum::Queue10)
        } else if str_eq(s, "QUEUE_20") {
            Ok(TestOrderPriceMatchEnum::Queue20)
        } else {
            let mut msg = "invalid TestOrderPriceMatchEnum: ".to_owned();
            msg.append(s);
            Err(msg)
        }
    }

    /// Each value reads back from its wire name, and a wire name reads back
    /// only as the value that has it.
    pub proof fn lemma_wire_round_trip(e: TestOrderPriceMatchEnum, s: Seq<char>)
        ensures
            TestOrderPriceMatchEnum::from_wire(e.wire_name()) == Some(e),
            TestOrderPriceMatchEnum::from_wire(s) == Some(e) ==> s == e.wire_name(),
    {
        reveal_strlit("NONE");
        reveal_strlit("OPPONENT");
        reveal_strlit("OPPONENT_5");
        reveal_strlit("OPPONENT_10");
        reveal_strlit("OPPONENT_20");
        reveal_strlit("QUEUE");
        reveal_strlit("QUEUE_5");
        reveal_strlit("QUEUE_10");
        reveal_strlit("QUEUE_20");
        assert("NONE"@.len() == 4);
        assert("OPPONENT"@.len() == 8);
        assert("OPPONENT_5"@.len() == 10);
        assert("OPPONENT_10"@.len() == 11);
        assert("OPPONENT_20"@.len() == 11);
        assert("QUEUE"@.len() == 5);
        assert("QUEUE_5"@.len() == 7);
        assert("QUEUE_10"@.len() == 8);
        assert("QUEUE_20"@.len() == 8);
        assert("OPPONENT"@[0] == 'O');
        assert("QUEUE_10"@[0] == 'Q');
        assert("QUEUE_20"@[0] == 'Q');
        assert("OPPONENT_10"@[9] == '1');
        assert("OPPONENT_20"@[9] == '2');
        assert("QUEUE_10"@[6] == '1');
        assert("QUEUE_20"@[6] == '2');
    }
}

impl std::str::FromStr for TestOrderPriceMatchEnum {
    type Err = String;

    fn from_str(s: &str) -> (r: Result<TestOrderPriceMatchEnum, String>)
        ensures
            match r {
                Ok(e) => TestOrderPriceMatchEnum::from_wire(s@) == Some(e),
                Err(msg) => TestOrderPriceMatchEnum::from_wire(s@) is None && msg@ == "invalid TestOrderPriceMatchEnum: "@ + s@,
            },
    {
        TestOrderPriceMatchEnum::parse(s)
    }
}

/// The values of `TestOrderSelfTradePreventionMode` that the endpoint accepts.
#[derive(Debug, Clone, Copy, PartialEq, Eq, Structural)]
pub enum TestOrderSelfTradePreventionModeEnum {
    NoStp,
    ExpireTaker,
    ExpireBoth,
    ExpireMaker,
}

impl TestOrderSelfTradePreventionModeEnum {
    /// The name by which the API knows the value.
    pub open spec fn wire_name(self) -> Seq<char> {
        match self {
            TestOrderSelfTradePreventionModeEnum::NoStp => "NONE"@,
            TestOrderSelfTradePreventionModeEnum::ExpireTaker => "EXPIRE_TAKER"@,
            TestOrderSelfTradePreventionModeEnum::ExpireBoth => "EXPIRE_BOTH"@,
            TestOrderSelfTradePreventionModeEnum::ExpireMaker => "EXPIRE_MAKER"@,
        }
    }

    /// The value that the API knows by `s`, if any.
    pub open spec fn from_wire(s: Seq<char>) -> Option<TestOrderSelfTradePreventionModeEnum> {
        if s == "NONE"@ {
            Some(TestOrderSelfTradePreventionModeEnum::NoStp)
        } else if s == "EXPIRE_TAKER"@ {
            Some(TestOrderSelfTradePreventionModeEnum::ExpireTaker)
        } else if s == "EXPIRE_BOTH"@ {
            Some(TestOrderSelfTradePreventionModeEnum::ExpireBoth)
        } else if s == "EXPIRE_MAKER"@ {
            Some(TestOrderSelfTradePreventionModeEnum::ExpireMaker)
        } else {
            None
        }
    }

    /// An optional value, as the query parameter that carries it.
    pub open spec fn opt_wire(v: Option<TestOrderSelfTradePreventionModeEnum>) -> Option<QueryValueView> {
        match v {
            Some(e) => Some(QueryValueView::Text(e.wire_name())),
            None => None,
        }
    }

    /// The wire name of the value.
    #[must_use]
    pub fn as_str(&self) -> (s: &'static str)
        ensures
            s@ == self.wire_name(),
    {
        match self {
            TestOrderSelfTradePreventionModeEnum::NoStp => "NONE",
            TestOrderSelfTradePreventionModeEnum::ExpireTaker => "EXPIRE_TAKER",
            TestOrderSelfTradePreventionModeEnum::ExpireBoth => "EXPIRE_BOTH",
            TestOrderSelfTradePreventionModeEnum::ExpireMaker => "EXPIRE_MAKER",
        }
    }

    /// The value whose wire name is `s`; for any other `s` the error says
    /// which text was refused.
    pub fn parse(s: &str) -> (r: Result<TestOrderSelfTradePreventionModeEnum, String>)
        ensures
            match r {
                Ok(e) => TestOrderSelfTradePreventionModeEnum::from_wire(s@) == Some(e),
                Err(msg) => TestOrderSelfTradePreventionModeEnum::from_wire(s@) is None && msg@ == "invalid TestOrderSelfTradePreventionModeEnum: "@ + s@,
            },
    {
        if str_eq(s, "NONE") {
            Ok(TestOrderSelfTradePreventionModeEnum::NoStp)
        } else if str_eq(s, "EXPIRE_TAKER") {
            Ok(TestOrderSelfTradePreventionModeEnum::ExpireTaker)
        } else if str_eq(s, "EXPIRE_BOTH") {
            Ok(TestOrderSelfTradePreventionModeEnum::ExpireBoth)
        } else if str_eq(s, "EXPIRE_MAKER") {
            Ok(TestOrderSelfTradePreventionModeEnum::ExpireMaker)
        } else {
            let mut msg = "invalid TestOrderSelfTradePreventionModeEnum: ".to_owned();
            msg.append(s);
            Err(msg)
        }
    }

    /// Each value reads back from its wire name, and a wire name reads back
    /// only as the value that has it.
    pub proof fn lemma_wire_round_trip(e: TestOrderSelfTradePreventionModeEnum, s: Seq<char>)
        ensures
            TestOrderSelfTradePreventionModeEnum::from_wire(e.wire_name()) == Some(e),
            TestOrderSelfTradePreventionModeEnum::from_wire(s) == Some(e) ==> s == e.wire_name(),
    {
        reveal_strlit("NONE");
        reveal_strlit("EXPIRE_TAKER");
        reveal_strlit("EXPIRE_BOTH");
        reveal_strlit("EXPIRE_MAKER");
        assert("NONE"@.len() == 4);
        assert("EXPIRE_TAKER"@.len() == 12);
        assert("EXPIRE_BOTH"@.len() == 11);
        assert("EXPIRE_MAKER"@.len() == 12);
        assert("EXPIRE_TAKER"@[7] == 'T');
        assert("EXPIRE_MAKER"@[7] == 'M');
    }
}

impl std::str::FromStr for TestOrderSelfTradePreventionModeEnum {
    type Err = String;

    fn from_str(s: &str) -> (r: Result<TestOrderSelfTradePreventionModeEnum, String>)
        ensures
            match r {
                Ok(e) => TestOrderSelfTradePreventionModeEnum::from_wire(s@) == Some(e),
                Err(msg) => TestOrderSelfTradePreventionModeEnum::from_wire(s@) is None && msg@ == "invalid TestOrderSelfTradePreventionModeEnum: "@ + s@,
            },
    {
        TestOrderSelfTradePreventionModeEnum::parse(s)
    }
}

/// The values of `UsersForceOrdersAutoCloseType` that the endpoint accepts.
#[derive(Debug, Clone, Copy, PartialEq, Eq, Structural)]
pub enum UsersForceOrdersAutoCloseTypeEnum {
    Liquidation,
    Adl,
}

impl UsersForceOrdersAutoCloseTypeEnum {
    /// The name by which the API knows the value.
    pub open spec fn wire_name(self) -> Seq<char> {
        match self {
            UsersForceOrdersAutoCloseTypeEnum::Liquidation => "LIQUIDATION"@,
            UsersForceOrdersAutoCloseTypeEnum::Adl => "ADL"@,
        }
    }

    /// The value that the API knows by `s`, if any.
    pub open spec fn from_wire(s: Seq<char>) -> Option<UsersForceOrdersAutoCloseTypeEnum> {
        if s == "LIQUIDATION"@ {
            Some(UsersForceOrdersAutoCloseTypeEnum::Liquidation)
        } else if s == "ADL"@ {
            Some(UsersForceOrdersAutoCloseTypeEnum::Adl)
        } else {
            None
        }
    }

    /// An optional value, as the query parameter that carries it.
    pub open spec fn opt_wire(v: Option<UsersForceOrdersAutoCloseTypeEnum>) -> Option<QueryValueView> {
        match v {
            Some(e) => Some(QueryValueView::Text(e.wire_name())),
            None => None,
        }
    }

    /// The wire name of the value.
    #[must_use]
    pub fn as_str(&self) -> (s: &'static str)
        ensures
            s@ == self.wire_name(),
    {
        match self {
            UsersForceOrdersAutoCloseTypeEnum::Liquidation => "LIQUIDATION",
            UsersForceOrdersAutoCloseTypeEnum::Adl => "ADL",
        }
    }

    /// The value whose wire name is `s`; for any other `s` the error says
    /// which text was refused.
    pub fn parse(s: &str) -> (r: Result<UsersForceOrdersAutoCloseTypeEnum, String>)
        ensures
            match r {
                Ok(e) => UsersForceOrdersAutoCloseTypeEnum::from_wire(s@) == Some(e),
                Err(msg) => UsersForceOrdersAutoCloseTypeEnum::from_wire(s@) is None && msg@ == "invalid UsersForceOrdersAutoCloseTypeEnum: "@ + s@,
            },
    {
        if str_eq(s, "LIQUIDATION") {
            Ok(UsersForceOrdersAutoCloseTypeEnum::Liquidation)
        } else if str_eq(s, "ADL") {
            Ok(UsersForceOrdersAutoCloseTypeEnum::Adl)
        } else {
            let mut msg = "invalid UsersForceOrdersAutoCloseTypeEnum: ".to_owned();
            msg.append(s);
            Err(msg)
        }
    }

    /// Each value reads back from its wire name, and a wire name reads back
    /// only as the value that has it.
    pub proof fn lemma_wire_round_trip(e: UsersForceOrdersAutoCloseTypeEnum, s: Seq<char>)
        ensures
            UsersForceOrdersAutoCloseTypeEnum::from_wire(e.wire_name()) == Some(e),
            UsersForceOrdersAutoCloseTypeEnum::from_wire(s) == Some(e) ==> s == e.wire_name(),
    {
        reveal_strlit("LIQUIDATION");
        reveal_strlit("ADL");
        assert("LIQUIDATION"@.len() == 11);
        assert("ADL"@.len() == 3);
    }
}

impl std::str::FromStr for UsersForceOrdersAutoCloseTypeEnum {
    type Err = String;

    fn from_str(s: &str) -> (r: Result<UsersForceOrdersAutoCloseTypeEnum, String>)
        ensures
            match r {
                Ok(e) => UsersForceOrdersAutoCloseTypeEnum::from_wire(s@) == Some(e),
                Err(msg) => UsersForceOrdersAutoCloseTypeEnum::from_wire(s@) is None && msg@ == "invalid UsersForceOrdersAutoCloseTypeEnum: "@ + s@,
            },
    {
        UsersForceOrdersAutoCloseTypeEnum::parse(s)
    }
}

/// Request parameters for the `account_trade_list` operation.
#[derive(Clone, Debug)]
pub struct AccountTradeListParams {
    /// Sent as `symbol`; required.
    pub symbol: String,
    /// Sent as `orderId`; optional.
    pub order_id: Option<i64>,
    /// Sent as `startTime`; optional.
    pub start_time: Option<i64>,
    /// Sent as `endTime`; optional.
    pub end_time: Option<i64>,
    /// Sent as `fromId`; optional.
    pub from_id: Option<i64>,
    /// Sent as `limit`; optional.
    pub limit: Option<i64>,
    /// Sent as `recvWindow`; optional.
    pub recv_window: Option<i64>,
}

/// Request parameters for the `all_orders` operation.
#[derive(Clone, Debug)]
pub struct AllOrdersParams {
    /// Sent as `symbol`; required.
    pub symbol: String,
    /// Sent as `orderId`; optional.
    pub order_id: Option<i64>,
    /// Sent as `startTime`; optional.
    pub start_time: Option<i64>,
    /// Sent as `endTime`; optional.
    pub end_time: Option<i64>,
    /// Sent as `limit`; optional.
    pub limit: Option<i64>,
    /// Sent as `recvWindow`; optional.
    pub recv_window: Option<i64>,
}

/// Request parameters for the `auto_cancel_all_open_orders` operation.
#[derive(Clone, Debug)]
pub struct AutoCancelAllOpenOrdersParams {
    /// Sent as `symbol`; required.
    pub symbol: String,
    /// Sent as `countdownTime`; required.
    pub countdown_time: i64,
    /// Sent as `recvWindow`; optional.
    pub recv_window: Option<i64>,
}

/// Request parameters for the `cancel_all_open_orders` operation.
#[derive(Clone, Debug)]
pub struct CancelAllOpenOrdersParams {
    /// Sent as `symbol`; required.
    pub symbol: String,
    /// Sent as `recvWindow`; optional.
    pub recv_window: Option<i64>,
}

/// Request parameters for the `cancel_multiple_orders` operation.
#[derive(Clone, Debug)]
pub struct CancelMultipleOrdersParams {
    /// Sent as `symbol`; required.
    pub symbol: String,
    /// Sent as `orderIdList`; optional.
    pub order_id_list: Option<Vec<i64>>,
    /// Sent as `origClientOrderIdList`; optional.
    pub orig_client_order_id_list: Option<Vec<String>>,
    /// Sent as `recvWindow`; optional.
    pub recv_window: Option<i64>,
}

/// Request parameters for the `cancel_order` operation.
#[derive(Clone, Debug)]
pub struct CancelOrderParams {
    /// Sent as `symbol`; required.
    pub symbol: String,
    /// Sent as `orderId`; optional.
    pub order_id: Option<i64>,
    /// Sent as `origClientOrderId`; optional.
    pub orig_client_order_id: Option<String>,
    /// Sent as `recvWindow`; optional.
    pub recv_window: Option<i64>,
}

/// Request parameters for the `change_initial_leverage` operation.
#[derive(Clone, Debug)]
pub struct ChangeInitialLeverageParams {
    /// Sent as `symbol`; required.
    pub symbol: String,
    /// Sent as `leverage`; required.
    pub leverage: i64,
    /// Sent as `recvWindow`; optional.
    pub recv_window: Option<i64>,
}

/// Request parameters for the `change_margin_type` operation.
#[derive(Clone, Debug)]
pub struct ChangeMarginTypeParams {
    /// Sent as `symbol`; required.
    pub symbol: String,
    /// Sent as `marginType`; required.
    pub margin_type: ChangeMarginTypeMarginTypeEnum,
    /// Sent as `recvWindow`; optional.
    pub recv_window: Option<i64>,
}

/// Request parameters for the `change_multi_assets_mode` operation.
#[derive(Clone, Debug)]
pub struct ChangeMultiAssetsModeParams {
    /// Sent as `multiAssetsMargin`; required.
    pub multi_assets_margin: String,
    /// Sent as `recvWindow`; optional.
    pub recv_window: Option<i64>,
}

/// Request parameters for the `change_position_mode` operation.
#[derive(Clone, Debug)]
pub struct ChangePositionModeParams {
    /// Sent as `dualSidePosition`; required.
    pub dual_side_position: String,
    /// Sent as `recvWindow`; optional.
    pub recv_window: Option<i64>,
}

/// Request parameters for the `current_all_open_orders` operation.
#[derive(Clone, Debug, Default)]
pub struct CurrentAllOpenOrdersParams {
    /// Sent as `symbol`; optional.
    pub symbol: Option<String>,
    /// Sent as `recvWindow`; optional.
    pub recv_window: Option<i64>,
}

/// Request parameters for the `get_order_modify_history` operation.
#[derive(Clone, Debug)]
pub struct GetOrderModifyHistoryParams {
    /// Sent as `symbol`; required.
    pub symbol: String,
    /// Sent as `orderId`; optional.
    pub order_id: Option<i64>,
    /// Sent as `origClientOrderId`; optional.
    pub orig_client_order_id: Option<String>,
    /// Sent as `startTime`; optional.
    pub start_time: Option<i64>,
    /// Sent as `endTime`; optional.
    pub end_time: Option<i64>,
    /// Sent as `limit`; optional.
    pub limit: Option<i64>,
    /// Sent as `recvWindow`; optional.
    pub recv_window: Option<i64>,
}

/// Request parameters for the `get_position_margin_change_history` operation.
#[derive(Clone, Debug)]
pub struct GetPositionMarginChangeHistoryParams {
    /// Sent as `symbol`; required.
    pub symbol: String,
    /// Sent as `type`; optional.
    pub change_type: Option<i64>,
    /// Sent as `startTime`; optional.
    pub start_time: Option<i64>,
    /// Sent as `endTime`; optional.
    pub end_time: Option<i64>,
    /// Sent as `limit`; optional.
    pub limit: Option<i64>,
    /// Sent as `recvWindow`; optional.
    pub recv_window: Option<i64>,
}

/// Request parameters for the `modify_isolated_position_margin` operation.
#[derive(Clone, Debug)]
pub struct ModifyIsolatedPositionMarginParams {
    /// Sent as `symbol`; required.
    pub symbol: String,
    /// Sent as `amount`; required.
    pub amount: Decimal,
    /// Sent as `type`; required.
    pub change_type: String,
    /// Sent as `positionSide`; optional.
    pub position_side: Option<ModifyIsolatedPositionMarginPositionSideEnum>,
    /// Sent as `recvWindow`; optional.
    pub recv_window: Option<i64>,
}

/// Request parameters for the `modify_multiple_orders` operation.
#[derive(Clone, Debug)]
pub struct ModifyMultipleOrdersParams {
    /// Sent as `batchOrders`; required. Each element is one order, as its JSON object.
    pub batch_orders: Vec<serde_json::Value>,
    /// Sent as `recvWindow`; optional.
    pub recv_window: Option<i64>,
}

/// Request parameters for the `modify_order` operation.
#[derive(Clone, Debug)]
pub struct ModifyOrderParams {
    /// Sent as `symbol`; required.
    pub symbol: String,
    /// Sent as `side`; required.
    pub side: ModifyOrderSideEnum,
    /// Sent as `quantity`; required.
    pub quantity: Decimal,
    /// Sent as `price`, unless `price_match` is given.
    pub price: Decimal,
    /// Sent as `orderId`; optional.
    pub order_id: Option<i64>,
    /// Sent as `origClientOrderId`; optional.
    pub orig_client_order_id: Option<String>,
    /// Sent as `priceMatch`; optional.
    pub price_match: Option<ModifyOrderPriceMatchEnum>,
    /// Sent as `recvWindow`; optional.
    pub recv_window: Option<i64>,
}

/// Request parameters for the `new_order` operation.
#[derive(Clone, Debug)]
pub struct NewOrderParams {
    /// Sent as `symbol`; required.
    pub symbol: String,
    /// Sent as `side`; required.
    pub side: NewOrderSideEnum,
    /// Sent as `type`; required.
    pub order_type: String,
    /// Sent as `positionSide`; optional.
    pub position_side: Option<NewOrderPositionSideEnum>,
    /// Sent as `timeInForce`; optional.
    pub time_in_force: Option<NewOrderTimeInForceEnum>,
    /// Sent as `quantity`; optional.
    pub quantity: Option<Decimal>,
    /// Sent as `reduceOnly`; optional.
    pub reduce_only: Option<String>,
    /// Sent as `price`; optional.
    pub price: Option<Decimal>,
    /// Sent as `newClientOrderId`; optional.
    pub new_client_order_id: Option<String>,
    /// Sent as `stopPrice`; optional.
    pub stop_price: Option<Decimal>,
    /// Sent as `closePosition`; optional.
    pub close_position: Option<String>,
    /// Sent as `activationPrice`; optional.
    pub activation_price: Option<Decimal>,
    /// Sent as `callbackRate`; optional.
    pub callback_rate: Option<Decimal>,
    /// Sent as `workingType`; optional.
    pub working_type: Option<NewOrderWorkingTypeEnum>,
    /// Sent as `priceProtect`; optional.
    pub price_protect: Option<String>,
    /// Sent as `newOrderRespType`; optional.
    pub new_order_resp_type: Option<NewOrderNewOrderRespTypeEnum>,
    /// Sent as `priceMatch`; optional.
    pub price_match: Option<NewOrderPriceMatchEnum>,
    /// Sent as `selfTradePreventionMode`; optional.
    pub self_trade_prevention_mode: Option<NewOrderSelfTradePreventionModeEnum>,
    /// Sent as `goodTillDate`; optional.
    pub good_till_date: Option<i64>,
    /// Sent as `recvWindow`; optional.
    pub recv_window: Option<i64>,
}

/// Request parameters for the `place_multiple_orders` operation.
#[derive(Clone, Debug)]
pub struct PlaceMultipleOrdersParams {
    /// Sent as `batchOrders`; required. Each element is one order, as its JSON object.
    pub batch_orders: Vec<serde_json::Value>,
    /// Sent as `recvWindow`; optional.
    pub recv_window: Option<i64>,
}

/// Request parameters for the `position_adl_quantile_estimation` operation.
#[derive(Clone, Debug, Default)]
pub struct PositionAdlQuantileEstimationParams {
    /// Sent as `symbol`; optional.
    pub symbol: Option<String>,
    /// Sent as `recvWindow`; optional.
    pub recv_window: Option<i64>,
}

/// Request parameters for the `position_information_v2` operation.
#[derive(Clone, Debug, Default)]
pub struct PositionInformationV2Params {
    /// Sent as `symbol`; optional.
    pub symbol: Option<String>,
    /// Sent as `recvWindow`; optional.
    pub recv_window: Option<i64>,
}

/// Request parameters for the `position_information_v3` operation.
#[derive(Clone, Debug, Default)]
pub struct PositionInformationV3Params {
    /// Sent as `symbol`; optional.
    pub symbol: Option<String>,
    /// Sent as `recvWindow`; optional.
    pub recv_window: Option<i64>,
}

/// Request parameters for the `query_current_open_order` operation.
#[derive(Clone, Debug)]
pub struct QueryCurrentOpenOrderParams {
    /// Sent as `symbol`; required.
    pub symbol: String,
    /// Sent as `orderId`; optional.
    pub order_id: Option<i64>,
    /// Sent as `origClientOrderId`; optional.
    pub orig_client_order_id: Option<String>,
    /// Sent as `recvWindow`; optional.
    pub recv_window: Option<i64>,
}

/// Request parameters for the `query_order` operation.
#[derive(Clone, Debug)]
pub struct QueryOrderParams {
    /// Sent as `symbol`; required.
    pub symbol: String,
    /// Sent as `orderId`; optional.
    pub order_id: Option<i64>,
    /// Sent as `origClientOrderId`; optional.
    pub orig_client_order_id: Option<String>,
    /// Sent as `recvWindow`; optional.
    pub recv_window: Option<i64>,
}

/// Request parameters for the `test_order` operation.
#[derive(Clone, Debug)]
pub struct TestOrderParams {
    /// Sent as `symbol`; required.
    pub symbol: String,
    /// Sent as `side`; required.
    pub side: TestOrderSideEnum,
    /// Sent as `type`; required.
    pub order_type: String,
    /// Sent as `positionSide`; optional.
    pub position_side: Option<TestOrderPositionSideEnum>,
    /// Sent as `timeInForce`; optional.
    pub time_in_force: Option<TestOrderTimeInForceEnum>,
    /// Sent as `quantity`; optional.
    pub quantity: Option<Decimal>,
    /// Sent as `reduceOnly`; optional.
    pub reduce_only: Option<String>,
    /// Sent as `price`; optional.
    pub price: Option<Decimal>,
    /// Sent as `newClientOrderId`; optional.
    pub new_client_order_id: Option<String>,
    /// Sent as `stopPrice`; optional.
    pub stop_price: Option<Decimal>,
    /// Sent as `closePosition`; optional.
    pub close_position: Option<String>,
    /// Sent as `activationPrice`; optional.
    pub activation_price: Option<Decimal>,
    /// Sent as `callbackRate`; optional.
    pub callback_rate: Option<Decimal>,
    /// Sent as `workingType`; optional.
    pub working_type: Option<TestOrderWorkingTypeEnum>,
    /// Sent as `priceProtect`; optional.
    pub price_protect: Option<String>,
    /// Sent as `newOrderRespType`; optional.
    pub new_order_resp_type: Option<TestOrderNewOrderRespTypeEnum>,
    /// Sent as `priceMatch`; optional.
    pub price_match: Option<TestOrderPriceMatchEnum>,
    /// Sent as `selfTradePreventionMode`; optional.
    pub self_trade_prevention_mode: Option<TestOrderSelfTradePreventionModeEnum>,
    /// Sent as `goodTillDate`; optional.
    pub good_till_date: Option<i64>,
    /// Sent as `recvWindow`; optional.
    pub recv_window: Option<i64>,
}

/// Request parameters for the `users_force_orders` operation.
#[derive(Clone, Debug, Default)]
pub struct UsersForceOrdersParams {
    /// Sent as `symbol`; optional.
    pub symbol: Option<String>,
    /// Sent as `autoCloseType`; optional.
    pub auto_close_type: Option<UsersForceOrdersAutoCloseTypeEnum>,
    /// Sent as `startTime`; optional.
    pub start_time: Option<i64>,
    /// Sent as `endTime`; optional.
    pub end_time: Option<i64>,
    /// Sent as `limit`; optional.
    pub limit: Option<i64>,
    /// Sent as `recvWindow`; optional.
    pub recv_window: Option<i64>,
}

/// The query parameters that `account_trade_list` sends for `p`.
pub open spec fn account_trade_list_query(p: AccountTradeListParams) -> QueryMap {
    QueryMap::empty()
        .put("symbol"@, QueryValueView::Text(p.symbol@))
        .put_opt("orderId"@, opt_integer(p.order_id))
        .put_opt("startTime"@, opt_integer(p.start_time))
        .put_opt("endTime"@, opt_integer(p.end_time))
        .put_opt("fromId"@, opt_integer(p.from_id))
        .put_opt("limit"@, opt_integer(p.limit))
        .put_opt("recvWindow"@, opt_integer(p.recv_window))
}

/// What `account_trade_list` sends, parameter by parameter: each required parameter
/// under its name with the value given, each optional one exactly when it
/// is given, and no other parameter.
pub proof fn lemma_account_trade_list_query(p: AccountTradeListParams)
    ensures
        account_trade_list_query(p).dom().contains("symbol"@),
        account_trade_list_query(p)["symbol"@] == QueryValueView::Text(p.symbol@),
        account_trade_list_query(p).dom().contains("orderId"@) == (p.order_id is Some),
        p.order_id is Some ==> account_trade_list_query(p)["orderId"@] == QueryValueView::Integer(p.order_id->0),
        account_trade_list_query(p).dom().contains("startTime"@) == (p.start_time is Some),
        p.start_time is Some ==> account_trade_list_query(p)["startTime"@] == QueryValueView::Integer(p.start_time->0),
        account_trade_list_query(p).dom().contains("endTime"@) == (p.end_time is Some),
        p.end_time is Some ==> account_trade_list_query(p)["endTime"@] == QueryValueView::Integer(p.end_time->0),
        account_trade_list_query(p).dom().contains("fromId"@) == (p.from_id is Some),
        p.from_id is Some ==> account_trade_list_query(p)["fromId"@] == QueryValueView::Integer(p.from_id->0),
        account_trade_list_query(p).dom().contains("limit"@) == (p.limit is Some),
        p.limit is Some ==> account_trade_list_query(p)["limit"@] == QueryValueView::Integer(p.limit->0),
        account_trade_list_query(p).dom().contains("recvWindow"@) == (p.recv_window is Some),
        p.recv_window is Some ==> account_trade_list_query(p)["recvWindow"@] == QueryValueView::Integer(p.recv_window->0),
        forall|k: Seq<char>| #[trigger] account_trade_list_query(p).dom().contains(k) ==> (k == "symbol"@ || k == "orderId"@ || k == "startTime"@ || k == "endTime"@ || k == "fromId"@ || k == "limit"@ || k == "recvWindow"@),
{
    reveal_strlit("symbol");
    reveal_strlit("orderId");
    reveal_strlit("startTime");
    reveal_strlit("endTime");
    reveal_strlit("fromId");
    reveal_strlit("limit");
    reveal_strlit("recvWindow");
    assert("symbol"@.len() == 6);
    assert("orderId"@.len() == 7);
    assert("startTime"@.len() == 9);
    assert("endTime"@.len() == 7);
    assert("fromId"@.len() == 6);
    assert("limit"@.len() == 5);
    assert("recvWindow"@.len() == 10);
    assert("symbol"@[0] == 's');
    assert("fromId"@[0] == 'f');
    assert("orderId"@[0] == 'o');
    assert("endTime"@[0] == 'e');
    assert("symbol"@ != "orderId"@);
    assert("symbol"@ != "startTime"@);
    assert("symbol"@ != "endTime"@);
    assert("symbol"@ != "fromId"@);
    assert("symbol"@ != "limit"@);
    assert("symbol"@ != "recvWindow"@);
    assert("orderId"@ != "startTime"@);
    assert("orderId"@ != "endTime"@);
    assert("orderId"@ != "fromId"@);
    assert("orderId"@ != "limit"@);
    assert("orderId"@ != "recvWindow"@);
    assert("startTime"@ != "endTime"@);
    assert("startTime"@ != "fromId"@);
    assert("startTime"@ != "limit"@);
    assert("startTime"@ != "recvWindow"@);
    assert("endTime"@ != "fromId"@);
    assert("endTime"@ != "limit"@);
    assert("endTime"@ != "recvWindow"@);
    assert("fromId"@ != "limit"@);
    assert("fromId"@ != "recvWindow"@);
    assert("limit"@ != "recvWindow"@);
}

/// The request of the `account_trade_list` operation: GET `/fapi/v1/userTrades`, signed.
pub fn account_trade_list(params: AccountTradeListParams) -> (req: RestRequest)
    ensures
        req@ == (RestRequestView {
            path: "/fapi/v1/userTrades"@,
            method: HttpMethod::Get,
            query: account_trade_list_query(params),
            uses_time_unit: HAS_TIME_UNIT,
            signed: true,
        }),
        req@.query.dom().contains("symbol"@),
        req@.query["symbol"@] == QueryValueView::Text(params.symbol@),
        req@.query.dom().contains("orderId"@) == (params.order_id is Some),
        params.order_id is Some ==> req@.query["orderId"@] == QueryValueView::Integer(params.order_id->0),
        req@.query.dom().contains("startTime"@) == (params.start_time is Some),
        params.start_time is Some ==> req@.query["startTime"@] == QueryValueView::Integer(params.start_time->0),
        req@.query.dom().contains("endTime"@) == (params.end_time is Some),
        params.end_time is Some ==> req@.query["endTime"@] == QueryValueView::Integer(params.end_time->0),
        req@.query.dom().contains("fromId"@) == (params.from_id is Some),
        params.from_id is Some ==> req@.query["fromId"@] == QueryValueView::Integer(params.from_id->0),
        req@.query.dom().contains("limit"@) == (params.limit is Some),
        params.limit is Some ==> req@.query["limit"@] == QueryValueView::Integer(params.limit->0),
        req@.query.dom().contains("recvWindow"@) == (params.recv_window is Some),
        params.recv_window is Some ==> req@.query["recvWindow"@] == QueryValueView::Integer(params.recv_window->0),
        forall|k: Seq<char>| #[trigger] req@.query.dom().contains(k) ==> (k == "symbol"@ || k == "orderId"@ || k == "startTime"@ || k == "endTime"@ || k == "fromId"@ || k == "limit"@ || k == "recvWindow"@),
{
    proof {
        lemma_account_trade_list_query(params);
    }
    let AccountTradeListParams { symbol, order_id, start_time, end_time, from_id, limit, recv_window } = params;
    let mut query = QueryParams::new();
    query.insert("symbol".to_owned(), QueryValue::Text(symbol));
    if let Some(v) = order_id {
        query.insert("orderId".to_owned(), QueryValue::Integer(v));
    }
    if let Some(v) = start_time {
        query.insert("startTime".to_owned(), QueryValue::Integer(v));
    }
    if let Some(v) = end_time {
        query.insert("endTime".to_owned(), QueryValue::Integer(v));
    }
    if let Some(v) = from_id {
        query.insert("fromId".to_owned(), QueryValue::Integer(v));
    }
    if let Some(v) = limit {
        query.insert("limit".to_owned(), QueryValue::Integer(v));
    }
    if let Some(v) = recv_window {
        query.insert("recvWindow".to_owned(), QueryValue::Integer(v));
    }
    RestRequest {
        path: "/fapi/v1/userTrades",
        method: HttpMethod::Get,
        query,
        uses_time_unit: HAS_TIME_UNIT,
        signed: true,
    }
}

/// The query parameters that `all_orders` sends for `p`.
pub open spec fn all_orders_query(p: AllOrdersParams) -> QueryMap {
    QueryMap::empty()
        .put("symbol"@, QueryValueView::Text(p.symbol@))
        .put_opt("orderId"@, opt_integer(p.order_id))
        .put_opt("startTime"@, opt_integer(p.start_time))
        .put_opt("endTime"@, opt_integer(p.end_time))
        .put_opt("limit"@, opt_integer(p.limit))
        .put_opt("recvWindow"@, opt_integer(p.recv_window))
}

/// What `all_orders` sends, parameter by parameter: each required parameter
/// under its name with the value given, each optional one exactly when it
/// is given, and no other parameter.
pub proof fn lemma_all_orders_query(p: AllOrdersParams)
    ensures
        all_orders_query(p).dom().contains("symbol"@),
        all_orders_query(p)["symbol"@] == QueryValueView::Text(p.symbol@),
        all_orders_query(p).dom().contains("orderId"@) == (p.order_id is Some),
        p.order_id is Some ==> all_orders_query(p)["orderId"@] == QueryValueView::Integer(p.order_id->0),
        all_orders_query(p).dom().contains("startTime"@) == (p.start_time is Some),
        p.start_time is Some ==> all_orders_query(p)["startTime"@] == QueryValueView::Integer(p.start_time->0),
        all_orders_query(p).dom().contains("endTime"@) == (p.end_time is Some),
        p.end_time is Some ==> all_orders_query(p)["endTime"@] == QueryValueView::Integer(p.end_time->0),
        all_orders_query(p).dom().contains("limit"@) == (p.limit is Some),
        p.limit is Some ==> all_orders_query(p)["limit"@] == QueryValueView::Integer(p.limit->0),
        all_orders_query(p).dom().contains("recvWindow"@) == (p.recv_window is Some),
        p.recv_window is Some ==> all_orders_query(p)["recvWindow"@] == QueryValueView::Integer(p.recv_window->0),
        forall|k: Seq<char>| #[trigger] all_orders_query(p).dom().contains(k) ==> (k == "symbol"@ || k == "orderId"@ || k == "startTime"@ || k == "endTime"@ || k == "limit"@ || k == "recvWindow"@),
{
    reveal_strlit("symbol");
    reveal_strlit("orderId");
    reveal_strlit("startTime");
    reveal_strlit("endTime");
    reveal_strlit("limit");
    reveal_strlit("recvWindow");
    assert("symbol"@.len() == 6);
    assert("orderId"@.len() == 7);
    assert("startTime"@.len() == 9);
    assert("endTime"@.len() == 7);
    assert("limit"@.len() == 5);
    assert("recvWindow"@.len() == 10);
    assert("orderId"@[0] == 'o');
    assert("endTime"@[0] == 'e');
    assert("symbol"@ != "orderId"@);
    assert("symbol"@ != "startTime"@);
    assert("symbol"@ != "endTime"@);
    assert("symbol"@ != "limit"@);
    assert("symbol"@ != "recvWindow"@);
    assert("orderId"@ != "startTime"@);
    assert("orderId"@ != "endTime"@);
    assert("orderId"@ != "limit"@);
    assert("orderId"@ != "recvWindow"@);
    assert("startTime"@ != "endTime"@);
    assert("startTime"@ != "limit"@);
    assert("startTime"@ != "recvWindow"@);
    assert("endTime"@ != "limit"@);
    assert("endTime"@ != "recvWindow"@);
    assert("limit"@ != "recvWindow"@);
}

/// The request of the `all_orders` operation: GET `/fapi/v1/allOrders`, signed.
pub fn all_orders(params: AllOrdersParams) -> (req: RestRequest)
    ensures
        req@ == (RestRequestView {
            path: "/fapi/v1/allOrders"@,
            method: HttpMethod::Get,
            query: all_orders_query(params),
            uses_time_unit: HAS_TIME_UNIT,
            signed: true,
        }),
        req@.query.dom().contains("symbol"@),
        req@.query["symbol"@] == QueryValueView::Text(params.symbol@),
        req@.query.dom().contains("orderId"@) == (params.order_id is Some),
        params.order_id is Some ==> req@.query["orderId"@] == QueryValueView::Integer(params.order_id->0),
        req@.query.dom().contains("startTime"@) == (params.start_time is Some),
        params.start_time is Some ==> req@.query["startTime"@] == QueryValueView::Integer(params.start_time->0),
        req@.query.dom().contains("endTime"@) == (params.end_time is Some),
        params.end_time is Some ==> req@.query["endTime"@] == QueryValueView::Integer(params.end_time->0),
        req@.query.dom().contains("limit"@) == (params.limit is Some),
        params.limit is Some ==> req@.query["limit"@] == QueryValueView::Integer(params.limit->0),
        req@.query.dom().contains("recvWindow"@) == (params.recv_window is Some),
        params.recv_window is Some ==> req@.query["recvWindow"@] == QueryValueView::Integer(params.recv_window->0),
        forall|k: Seq<char>| #[trigger] req@.query.dom().contains(k) ==> (k == "symbol"@ || k == "orderId"@ || k == "startTime"@ || k == "endTime"@ || k == "limit"@ || k == "recvWindow"@),
{
    proof {
        lemma_all_orders_query(params);
    }
    let AllOrdersParams { symbol, order_id, start_time, end_time, limit, recv_window } = params;
    let mut query = QueryParams::new();
    query.insert("symbol".to_owned(), QueryValue::Text(symbol));
    if let Some(v) = order_id {
        query.insert("orderId".to_owned(), QueryValue::Integer(v));
    }
    if let Some(v) = start_time {
        query.insert("startTime".to_owned(), QueryValue::Integer(v));
    }
    if let Some(v) = end_time {
        query.insert("endTime".to_owned(), QueryValue::Integer(v));
    }
    if let Some(v) = limit {
        query.insert("limit".to_owned(), QueryValue::Integer(v));
    }
    if let Some(v) = recv_window {
        query.insert("recvWindow".to_owned(), QueryValue::Integer(v));
    }
    RestRequest {
        path: "/fapi/v1/allOrders",
        method: HttpMethod::Get,
        query,
        uses_time_unit: HAS_TIME_UNIT,
        signed: true,
    }
}

/// The query parameters that `auto_cancel_all_open_orders` sends for `p`.
pub open spec fn auto_cancel_all_open_orders_query(p: AutoCancelAllOpenOrdersParams) -> QueryMap {
    QueryMap::empty()
        .put("symbol"@, QueryValueView::Text(p.symbol@))
        .put("countdownTime"@, QueryValueView::Integer(p.countdown_time))
        .put_opt("recvWindow"@, opt_integer(p.recv_window))
}

/// What `auto_cancel_all_open_orders` sends, parameter by parameter: each required parameter
/// under its name with the value given, each optional one exactly when it
/// is given, and no other parameter.
pub proof fn lemma_auto_cancel_all_open_orders_query(p: AutoCancelAllOpenOrdersParams)
    ensures
        auto_cancel_all_open_orders_query(p).dom().contains("symbol"@),
        auto_cancel_all_open_orders_query(p)["symbol"@] == QueryValueView::Text(p.symbol@),
        auto_cancel_all_open_orders_query(p).dom().contains("countdownTime"@),
        auto_cancel_all_open_orders_query(p)["countdownTime"@] == QueryValueView::Integer(p.countdown_time),
        auto_cancel_all_open_orders_query(p).dom().contains("recvWindow"@) == (p.recv_window is Some),
        p.recv_window is Some ==> auto_cancel_all_open_orders_query(p)["recvWindow"@] == QueryValueView::Integer(p.recv_window->0),
        forall|k: Seq<char>| #[trigger] auto_cancel_all_open_orders_query(p).dom().contains(k) ==> (k == "symbol"@ || k == "countdownTime"@ || k == "recvWindow"@),
{
    reveal_strlit("symbol");
    reveal_strlit("countdownTime");
    reveal_strlit("recvWindow");
    assert("symbol"@.len() == 6);
    assert("countdownTime"@.len() == 13);
    assert("recvWindow"@.len() == 10);
    assert("symbol"@ != "countdownTime"@);
    assert("symbol"@ != "recvWindow"@);
    assert("countdownTime"@ != "recvWindow"@);
}

/// The request of the `auto_cancel_all_open_orders` operation: POST `/fapi/v1/countdownCancelAll`, signed.
pub fn auto_cancel_all_open_orders(params: AutoCancelAllOpenOrdersParams) -> (req: RestRequest)
    ensures
        req@ == (RestRequestView {
            path: "/fapi/v1/countdownCancelAll"@,
            method: HttpMethod::Post,
            query: auto_cancel_all_open_orders_query(params),
            uses_time_unit: HAS_TIME_UNIT,
            signed: true,
        }),
        req@.query.dom().contains("symbol"@),
        req@.query["symbol"@] == QueryValueView::Text(params.symbol@),
        req@.query.dom().contains("countdownTime"@),
        req@.query["countdownTime"@] == QueryValueView::Integer(params.countdown_time),
        req@.query.dom().contains("recvWindow"@) == (params.recv_window is Some),
        params.recv_window is Some ==> req@.query["recvWindow"@] == QueryValueView::Integer(params.recv_window->0),
        forall|k: Seq<char>| #[trigger] req@.query.dom().contains(k) ==> (k == "symbol"@ || k == "countdownTime"@ || k == "recvWindow"@),
{
    proof {
        lemma_auto_cancel_all_open_orders_query(params);
    }
    let AutoCancelAllOpenOrdersParams { symbol, countdown_time, recv_window } = params;
    let mut query = QueryParams::new();
    query.insert("symbol".to_owned(), QueryValue::Text(symbol));
    query.insert("countdownTime".to_owned(), QueryValue::Integer(countdown_time));
    if let Some(v) = recv_window {
        query.insert("recvWindow".to_owned(), QueryValue::Integer(v));
    }
    RestRequest {
        path: "/fapi/v1/countdownCancelAll",
        method: HttpMethod::Post,
        query,
        uses_time_unit: HAS_TIME_UNIT,
        signed: true,
    }
}

/// The query parameters that `cancel_all_open_orders` sends for `p`.
pub open spec fn cancel_all_open_orders_query(p: CancelAllOpenOrdersParams) -> QueryMap {
    QueryMap::empty()
        .put("symbol"@, QueryValueView::Text(p.symbol@))
        .put_opt("recvWindow"@, opt_integer(p.recv_window))
}

/// What `cancel_all_open_orders` sends, parameter by parameter: each required parameter
/// under its name with the value given, each optional one exactly when it
/// is given, and no other parameter.
pub proof fn lemma_cancel_all_open_orders_query(p: CancelAllOpenOrdersParams)
    ensures
        cancel_all_open_orders_query(p).dom().contains("symbol"@),
        cancel_all_open_orders_query(p)["symbol"@] == QueryValueView::Text(p.symbol@),
        cancel_all_open_orders_query(p).dom().contains("recvWindow"@) == (p.recv_window is Some),
        p.recv_window is Some ==> cancel_all_open_orders_query(p)["recvWindow"@] == QueryValueView::Integer(p.recv_window->0),
        forall|k: Seq<char>| #[trigger] cancel_all_open_orders_query(p).dom().contains(k) ==> (k == "symbol"@ || k == "recvWindow"@),
{
    reveal_strlit("symbol");
    reveal_strlit("recvWindow");
    assert("symbol"@.len() == 6);
    assert("recvWindow"@.len() == 10);
    assert("symbol"@ != "recvWindow"@);
}

/// The request of the `cancel_all_open_orders` operation: DELETE `/fapi/v1/allOpenOrders`, signed.
pub fn cancel_all_open_orders(params: CancelAllOpenOrdersParams) -> (req: RestRequest)
    ensures
        req@ == (RestRequestView {
            path: "/fapi/v1/allOpenOrders"@,
            method: HttpMethod::Delete,
            query: cancel_all_open_orders_query(params),
            uses_time_unit: HAS_TIME_UNIT,
            signed: true,
        }),
        req@.query.dom().contains("symbol"@),
        req@.query["symbol"@] == QueryValueView::Text(params.symbol@),
        req@.query.dom().contains("recvWindow"@) == (params.recv_window is Some),
        params.recv_window is Some ==> req@.query["recvWindow"@] == QueryValueView::Integer(params.recv_window->0),
        forall|k: Seq<char>| #[trigger] req@.query.dom().contains(k) ==> (k == "symbol"@ || k == "recvWindow"@),
{
    proof {
        lemma_cancel_all_open_orders_query(params);
    }
    let CancelAllOpenOrdersParams { symbol, recv_window } = params;
    let mut query = QueryParams::new();
    query.insert("symbol".to_owned(), QueryValue::Text(symbol));
    if let Some(v) = recv_window {
        query.insert("recvWindow".to_owned(), QueryValue::Integer(v));
    }
    RestRequest {
        path: "/fapi/v1/allOpenOrders",
        method: HttpMethod::Delete,
        query,
        uses_time_unit: HAS_TIME_UNIT,
        signed: true,
    }
}

/// The query parameters that `cancel_multiple_orders` sends for `p`.
pub open spec fn cancel_multiple_orders_query(p: CancelMultipleOrdersParams) -> QueryMap {
    QueryMap::empty()
        .put("symbol"@, QueryValueView::Text(p.symbol@))
        .put_opt("orderIdList"@, opt_integer_list(p.order_id_list))
        .put_opt("origClientOrderIdList"@, opt_text_list(p.orig_client_order_id_list))
        .put_opt("recvWindow"@, opt_integer(p.recv_window))
}

/// What `cancel_multiple_orders` sends, parameter by parameter: each required parameter
/// under its name with the value given, each optional one exactly when it
/// is given, and no other parameter.
pub proof fn lemma_cancel_multiple_orders_query(p: CancelMultipleOrdersParams)
    ensures
        cancel_multiple_orders_query(p).dom().contains("symbol"@),
        cancel_multiple_orders_query(p)["symbol"@] == QueryValueView::Text(p.symbol@),
        cancel_multiple_orders_query(p).dom().contains("orderIdList"@) == (p.order_id_list is Some),
        p.order_id_list is Some ==> cancel_multiple_orders_query(p)["orderIdList"@] == QueryValueView::IntegerList(p.order_id_list->0@),
        cancel_multiple_orders_query(p).dom().contains("origClientOrderIdList"@) == (p.orig_client_order_id_list is Some),
        p.orig_client_order_id_list is Some ==> cancel_multiple_orders_query(p)["origClientOrderIdList"@] == QueryValueView::TextList(p.orig_client_order_id_list->0.deep_view()),
        cancel_multiple_orders_query(p).dom().contains("recvWindow"@) == (p.recv_window is Some),
        p.recv_window is Some ==> cancel_multiple_orders_query(p)["recvWindow"@] == QueryValueView::Integer(p.recv_window->0),
        forall|k: Seq<char>| #[trigger] cancel_multiple_orders_query(p).dom().contains(k) ==> (k == "symbol"@ || k == "orderIdList"@ || k == "origClientOrderIdList"@ || k == "recvWindow"@),
{
    reveal_strlit("symbol");
    reveal_strlit("orderIdList");
    reveal_strlit("origClientOrderIdList");
    reveal_strlit("recvWindow");
    assert("symbol"@.len() == 6);
    assert("orderIdList"@.len() == 11);
    assert("origClientOrderIdList"@.len() == 21);
    assert("recvWindow"@.len() == 10);
    assert("symbol"@ != "orderIdList"@);
    assert("symbol"@ != "origClientOrderIdList"@);
    assert("symbol"@ != "recvWindow"@);
    assert("orderIdList"@ != "origClientOrderIdList"@);
    assert("orderIdList"@ != "recvWindow"@);
    assert("origClientOrderIdList"@ != "recvWindow"@);
}

/// The request of the `cancel_multiple_orders` operation: DELETE `/fapi/v1/batchOrders`, signed.
pub fn cancel_multiple_orders(params: CancelMultipleOrdersParams) -> (req: RestRequest)
    ensures
        req@ == (RestRequestView {
            path: "/fapi/v1/batchOrders"@,
            method: HttpMethod::Delete,
            query: cancel_multiple_orders_query(params),
            uses_time_unit: HAS_TIME_UNIT,
            signed: true,
        }),
        req@.query.dom().contains("symbol"@),
        req@.query["symbol"@] == QueryValueView::Text(params.symbol@),
        req@.query.dom().contains("orderIdList"@) == (params.order_id_list is Some),
        params.order_id_list is Some ==> req@.query["orderIdList"@] == QueryValueView::IntegerList(params.order_id_list->0@),
        req@.query.dom().contains("origClientOrderIdList"@) == (params.orig_client_order_id_list is Some),
        params.orig_client_order_id_list is Some ==> req@.query["origClientOrderIdList"@] == QueryValueView::TextList(params.orig_client_order_id_list->0.deep_view()),
        req@.query.dom().contains("recvWindow"@) == (params.recv_window is Some),
        params.recv_window is Some ==> req@.query["recvWindow"@] == QueryValueView::Integer(params.recv_window->0),
        forall|k: Seq<char>| #[trigger] req@.query.dom().contains(k) ==> (k == "symbol"@ || k == "orderIdList"@ || k == "origClientOrderIdList"@ || k == "recvWindow"@),
{
    proof {
        lemma_cancel_multiple_orders_query(params);
    }
    let CancelMultipleOrdersParams { symbol, order_id_list, orig_client_order_id_list, recv_window } = params;
    let mut query = QueryParams::new();
    query.insert("symbol".to_owned(), QueryValue::Text(symbol));
    if let Some(v) = order_id_list {
        query.insert("orderIdList".to_owned(), QueryValue::IntegerList(v));
    }
    if let Some(v) = orig_client_order_id_list {
        query.insert("origClientOrderIdList".to_owned(), QueryValue::TextList(v));
    }
    if let Some(v) = recv_window {
        query.insert("recvWindow".to_owned(), QueryValue::Integer(v));
    }
    RestRequest {
        path: "/fapi/v1/batchOrders",
        method: HttpMethod::Delete,
        query,
        uses_time_unit: HAS_TIME_UNIT,
        signed: true,
    }
}

/// The query parameters that `cancel_order` sends for `p`.
pub open spec fn cancel_order_query(p: CancelOrderParams) -> QueryMap {
    QueryMap::empty()
        .put("symbol"@, QueryValueView::Text(p.symbol@))
        .put_opt("orderId"@, opt_integer(p.order_id))
        .put_opt("origClientOrderId"@, opt_text(p.orig_client_order_id))
        .put_opt("recvWindow"@, opt_integer(p.recv_window))
}

/// What `cancel_order` sends, parameter by parameter: each required parameter
/// under its name with the value given, each optional one exactly when it
/// is given, and no other parameter.
pub proof fn lemma_cancel_order_query(p: CancelOrderParams)
    ensures
        cancel_order_query(p).dom().contains("symbol"@),
        cancel_order_query(p)["symbol"@] == QueryValueView::Text(p.symbol@),
        cancel_order_query(p).dom().contains("orderId"@) == (p.order_id is Some),
        p.order_id is Some ==> cancel_order_query(p)["orderId"@] == QueryValueView::Integer(p.order_id->0),
        cancel_order_query(p).dom().contains("origClientOrderId"@) == (p.orig_client_order_id is Some),
        p.orig_client_order_id is Some ==> cancel_order_query(p)["origClientOrderId"@] == QueryValueView::Text(p.orig_client_order_id->0@),
        cancel_order_query(p).dom().contains("recvWindow"@) == (p.recv_window is Some),
        p.recv_window is Some ==> cancel_order_query(p)["recvWindow"@] == QueryValueView::Integer(p.recv_window->0),
        forall|k: Seq<char>| #[trigger] cancel_order_query(p).dom().contains(k) ==> (k == "symbol"@ || k == "orderId"@ || k == "origClientOrderId"@ || k == "recvWindow"@),
{
    reveal_strlit("symbol");
    reveal_strlit("orderId");
    reveal_strlit("origClientOrderId");
    reveal_strlit("recvWindow");
    assert("symbol"@.len() == 6);
    assert("orderId"@.len() == 7);
    assert("origClientOrderId"@.len() == 17);
    assert("recvWindow"@.len() == 10);
    assert("symbol"@ != "orderId"@);
    assert("symbol"@ != "origClientOrderId"@);
    assert("symbol"@ != "recvWindow"@);
    assert("orderId"@ != "origClientOrderId"@);
    assert("orderId"@ != "recvWindow"@);
    assert("origClientOrderId"@ != "recvWindow"@);
}

/// The request of the `cancel_order` operation: DELETE `/fapi/v1/order`, signed.
pub fn cancel_order(params: CancelOrderParams) -> (req: RestRequest)
    ensures
        req@ == (RestRequestView {
            path: "/fapi/v1/order"@,
            method: HttpMethod::Delete,
            query: cancel_order_query(params),
            uses_time_unit: HAS_TIME_UNIT,
            signed: true,
        }),
        req@.query.dom().contains("symbol"@),
        req@.query["symbol"@] == QueryValueView::Text(params.symbol@),
        req@.query.dom().contains("orderId"@) == (params.order_id is Some),
        params.order_id is Some ==> req@.query["orderId"@] == QueryValueView::Integer(params.order_id->0),
        req@.query.dom().contains("origClientOrderId"@) == (params.orig_client_order_id is Some),
        params.orig_client_order_id is Some ==> req@.query["origClientOrderId"@] == QueryValueView::Text(params.orig_client_order_id->0@),
        req@.query.dom().contains("recvWindow"@) == (params.recv_window is Some),
        params.recv_window is Some ==> req@.query["recvWindow"@] == QueryValueView::Integer(params.recv_window->0),
        forall|k: Seq<char>| #[trigger] req@.query.dom().contains(k) ==> (k == "symbol"@ || k == "orderId"@ || k == "origClientOrderId"@ || k == "recvWindow"@),
{
    proof {
        lemma_cancel_order_query(params);
    }
    let CancelOrderParams { symbol, order_id, orig_client_order_id, recv_window } = params;
    let mut query = QueryParams::new();
    query.insert("symbol".to_owned(), QueryValue::Text(symbol));
    if let Some(v) = order_id {
        query.insert("orderId".to_owned(), QueryValue::Integer(v));
    }
    if let Some(v) = orig_client_order_id {
        query.insert("origClientOrderId".to_owned(), QueryValue::Text(v));
    }
    if let Some(v) = recv_window {
        query.insert("recvWindow".to_owned(), QueryValue::Integer(v));
    }
    RestRequest {
        path: "/fapi/v1/order",
        method: HttpMethod::Delete,
        query,
        uses_time_unit: HAS_TIME_UNIT,
        signed: true,
    }
}

/// The query parameters that `change_initial_leverage` sends for `p`.
pub open spec fn change_initial_leverage_query(p: ChangeInitialLeverageParams) -> QueryMap {
    QueryMap::empty()
        .put("symbol"@, QueryValueView::Text(p.symbol@))
        .put("leverage"@, QueryValueView::Integer(p.leverage))
        .put_opt("recvWindow"@, opt_integer(p.recv_window))
}

/// What `change_initial_leverage` sends, parameter by parameter: each required parameter
/// under its name with the value given, each optional one exactly when it
/// is given, and no other parameter.
pub proof fn lemma_change_initial_leverage_query(p: ChangeInitialLeverageParams)
    ensures
        change_initial_leverage_query(p).dom().contains("symbol"@),
        change_initial_leverage_query(p)["symbol"@] == QueryValueView::Text(p.symbol@),
        change_initial_leverage_query(p).dom().contains("leverage"@),
        change_initial_leverage_query(p)["leverage"@] == QueryValueView::Integer(p.leverage),
        change_initial_leverage_query(p).dom().contains("recvWindow"@) == (p.recv_window is Some),
        p.recv_window is Some ==> change_initial_leverage_query(p)["recvWindow"@] == QueryValueView::Integer(p.recv_window->0),
        forall|k: Seq<char>| #[trigger] change_initial_leverage_query(p).dom().contains(k) ==> (k == "symbol"@ || k == "leverage"@ || k == "recvWindow"@),
{
    reveal_strlit("symbol");
    reveal_strlit("leverage");
    reveal_strlit("recvWindow");
    assert("symbol"@.len() == 6);
    assert("leverage"@.len() == 8);
    assert("recvWindow"@.len() == 10);
    assert("symbol"@ != "leverage"@);
    assert("symbol"@ != "recvWindow"@);
    assert("leverage"@ != "recvWindow"@);
}

/// The request of the `change_initial_leverage` operation: POST `/fapi/v1/leverage`, signed.
pub fn change_initial_leverage(params: ChangeInitialLeverageParams) -> (req: RestRequest)
    ensures
        req@ == (RestRequestView {
            path: "/fapi/v1/leverage"@,
            method: HttpMethod::Post,
            query: change_initial_leverage_query(params),
            uses_time_unit: HAS_TIME_UNIT,
            signed: true,
        }),
        req@.query.dom().contains("symbol"@),
        req@.query["symbol"@] == QueryValueView::Text(params.symbol@),
        req@.query.dom().contains("leverage"@),
        req@.query["leverage"@] == QueryValueView::Integer(params.leverage),
        req@.query.dom().contains("recvWindow"@) == (params.recv_window is Some),
        params.recv_window is Some ==> req@.query["recvWindow"@] == QueryValueView::Integer(params.recv_window->0),
        forall|k: Seq<char>| #[trigger] req@.query.dom().contains(k) ==> (k == "symbol"@ || k == "leverage"@ || k == "recvWindow"@),
{
    proof {
        lemma_change_initial_leverage_query(params);
    }
    let ChangeInitialLeverageParams { symbol, leverage, recv_window } = params;
    let mut query = QueryParams::new();
    query.insert("symbol".to_owned(), QueryValue::Text(symbol));
    query.insert("leverage".to_owned(), QueryValue::Integer(leverage));
    if let Some(v) = recv_window {
        query.insert("recvWindow".to_owned(), QueryValue::Integer(v));
    }
    RestRequest {
        path: "/fapi/v1/leverage",
        method: HttpMethod::Post,
        query,
        uses_time_unit: HAS_TIME_UNIT,
        signed: true,
    }
}

/// The query parameters that `change_margin_type` sends for `p`.
pub open spec fn change_margin_type_query(p: ChangeMarginTypeParams) -> QueryMap {
    QueryMap::empty()
        .put("symbol"@, QueryValueView::Text(p.symbol@))
        .put("marginType"@, QueryValueView::Text(p.margin_type.wire_name()))
        .put_opt("recvWindow"@, opt_integer(p.recv_window))
}

/// What `change_margin_type` sends, parameter by parameter: each required parameter
/// under its name with the value given, each optional one exactly when it
/// is given, and no other parameter.
pub proof fn lemma_change_margin_type_query(p: ChangeMarginTypeParams)
    ensures
        change_margin_type_query(p).dom().contains("symbol"@),
        change_margin_type_query(p)["symbol"@] == QueryValueView::Text(p.symbol@),
        change_margin_type_query(p).dom().contains("marginType"@),
        change_margin_type_query(p)["marginType"@] == QueryValueView::Text(p.margin_type.wire_name()),
        change_margin_type_query(p).dom().contains("recvWindow"@) == (p.recv_window is Some),
        p.recv_window is Some ==> change_margin_type_query(p)["recvWindow"@] == QueryValueView::Integer(p.recv_window->0),
        forall|k: Seq<char>| #[trigger] change_margin_type_query(p).dom().contains(k) ==> (k == "symbol"@ || k == "marginType"@ || k == "recvWindow"@),
{
    reveal_strlit("symbol");
    reveal_strlit("marginType");
    reveal_strlit("recvWindow");
    assert("symbol"@.len() == 6);
    assert("marginType"@.len() == 10);
    assert("recvWindow"@.len() == 10);
    assert("marginType"@[0] == 'm');
    assert("recvWindow"@[0] == 'r');
    assert("symbol"@ != "marginType"@);
    assert("symbol"@ != "recvWindow"@);
    assert("marginType"@ != "recvWindow"@);
}

/// The request of the `change_margin_type` operation: POST `/fapi/v1/marginType`, signed.
pub fn change_margin_type(params: ChangeMarginTypeParams) -> (req: RestRequest)
    ensures
        req@ == (RestRequestView {
            path: "/fapi/v1/marginType"@,
            method: HttpMethod::Post,
            query: change_margin_type_query(params),
            uses_time_unit: HAS_TIME_UNIT,
            signed: true,
        }),
        req@.query.dom().contains("symbol"@),
        req@.query["symbol"@] == QueryValueView::Text(params.symbol@),
        req@.query.dom().contains("marginType"@),
        req@.query["marginType"@] == QueryValueView::Text(params.margin_type.wire_name()),
        req@.query.dom().contains("recvWindow"@) == (params.recv_window is Some),
        params.recv_window is Some ==> req@.query["recvWindow"@] == QueryValueView::Integer(params.recv_window->0),
        forall|k: Seq<char>| #[trigger] req@.query.dom().contains(k) ==> (k == "symbol"@ || k == "marginType"@ || k == "recvWindow"@),
{
    proof {
        lemma_change_margin_type_query(params);
    }
    let ChangeMarginTypeParams { symbol, margin_type, recv_window } = params;
    let mut query = QueryParams::new();
    query.insert("symbol".to_owned(), QueryValue::Text(symbol));
    query.insert("marginType".to_owned(), QueryValue::Text(margin_type.as_str().to_owned()));
    if let Some(v) = recv_window {
        query.insert("recvWindow".to_owned(), QueryValue::Integer(v));
    }
    RestRequest {
        path: "/fapi/v1/marginType",
        method: HttpMethod::Post,
        query,
        uses_time_unit: HAS_TIME_UNIT,
        signed: true,
    }
}

/// The query parameters that `change_multi_assets_mode` sends for `p`.
pub open spec fn change_multi_assets_mode_query(p: ChangeMultiAssetsModeParams) -> QueryMap {
    QueryMap::empty()
        .put("multiAssetsMargin"@, QueryValueView::Text(p.multi_assets_margin@))
        .put_opt("recvWindow"@, opt_integer(p.recv_window))
}

/// What `change_multi_assets_mode` sends, parameter by parameter: each required parameter
/// under its name with the value given, each optional one exactly when it
/// is given, and no other parameter.
pub proof fn lemma_change_multi_assets_mode_query(p: ChangeMultiAssetsModeParams)
    ensures
        change_multi_assets_mode_query(p).dom().contains("multiAssetsMargin"@),
        change_multi_assets_mode_query(p)["multiAssetsMargin"@] == QueryValueView::Text(p.multi_assets_margin@),
        change_multi_assets_mode_query(p).dom().contains("recvWindow"@) == (p.recv_window is Some),
        p.recv_window is Some ==> change_multi_assets_mode_query(p)["recvWindow"@] == QueryValueView::Integer(p.recv_window->0),
        forall|k: Seq<char>| #[trigger] change_multi_assets_mode_query(p).dom().contains(k) ==> (k == "multiAssetsMargin"@ || k == "recvWindow"@),
{
    reveal_strlit("multiAssetsMargin");
    reveal_strlit("recvWindow");
    assert("multiAssetsMargin"@.len() == 17);
    assert("recvWindow"@.len() == 10);
    assert("multiAssetsMargin"@ != "recvWindow"@);
}

/// The request of the `change_multi_assets_mode` operation: POST `/fapi/v1/multiAssetsMargin`, signed.
pub fn change_multi_assets_mode(params: ChangeMultiAssetsModeParams) -> (req: RestRequest)
    ensures
        req@ == (RestRequestView {
            path: "/fapi/v1/multiAssetsMargin"@,
            method: HttpMethod::Post,
            query: change_multi_assets_mode_query(params),
            uses_time_unit: HAS_TIME_UNIT,
            signed: true,
        }),
        req@.query.dom().contains("multiAssetsMargin"@),
        req@.query["multiAssetsMargin"@] == QueryValueView::Text(params.multi_assets_margin@),
        req@.query.dom().contains("recvWindow"@) == (params.recv_window is Some),
        params.recv_window is Some ==> req@.query["recvWindow"@] == QueryValueView::Integer(params.recv_window->0),
        forall|k: Seq<char>| #[trigger] req@.query.dom().contains(k) ==> (k == "multiAssetsMargin"@ || k == "recvWindow"@),
{
    proof {
        lemma_change_multi_assets_mode_query(params);
    }
    let ChangeMultiAssetsModeParams { multi_assets_margin, recv_window } = params;
    let mut query = QueryParams::new();
    query.insert("multiAssetsMargin".to_owned(), QueryValue::Text(multi_assets_margin));
    if let Some(v) = recv_window {
        query.insert("recvWindow".to_owned(), QueryValue::Integer(v));
    }
    RestRequest {
        path: "/fapi/v1/multiAssetsMargin",
        method: HttpMethod::Post,
        query,
        uses_time_unit: HAS_TIME_UNIT,
        signed: true,
    }
}

/// The query parameters that `change_position_mode` sends for `p`.
pub open spec fn change_position_mode_query(p: ChangePositionModeParams) -> QueryMap {
    QueryMap::empty()
        .put("dualSidePosition"@, QueryValueView::Text(p.dual_side_position@))
        .put_opt("recvWindow"@, opt_integer(p.recv_window))
}

/// What `change_position_mode` sends, parameter by parameter: each required parameter
/// under its name with the value given, each optional one exactly when it
/// is given, and no other parameter.
pub proof fn lemma_change_position_mode_query(p: ChangePositionModeParams)
    ensures
        change_position_mode_query(p).dom().contains("dualSidePosition"@),
        change_position_mode_query(p)["dualSidePosition"@] == QueryValueView::Text(p.dual_side_position@),
        change_position_mode_query(p).dom().contains("recvWindow"@) == (p.recv_window is Some),
        p.recv_window is Some ==> change_position_mode_query(p)["recvWindow"@] == QueryValueView::Integer(p.recv_window->0),
        forall|k: Seq<char>| #[trigger] change_position_mode_query(p).dom().contains(k) ==> (k == "dualSidePosition"@ || k == "recvWindow"@),
{
    reveal_strlit("dualSidePosition");
    reveal_strlit("recvWindow");
    assert("dualSidePosition"@.len() == 16);
    assert("recvWindow"@.len() == 10);
    assert("dualSidePosition"@ != "recvWindow"@);
}

/// The request of the `change_position_mode` operation: POST `/fapi/v1/positionSide/dual`, signed.
pub fn change_position_mode(params: ChangePositionModeParams) -> (req: RestRequest)
    ensures
        req@ == (RestRequestView {
            path: "/fapi/v1/positionSide/dual"@,
            method: HttpMethod::Post,
            query: change_position_mode_query(params),
            uses_time_unit: HAS_TIME_UNIT,
            signed: true,
        }),
        req@.query.dom().contains("dualSidePosition"@),
        req@.query["dualSidePosition"@] == QueryValueView::Text(params.dual_side_position@),
        req@.query.dom().contains("recvWindow"@) == (params.recv_window is Some),
        params.recv_window is Some ==> req@.query["recvWindow"@] == QueryValueView::Integer(params.recv_window->0),
        forall|k: Seq<char>| #[trigger] req@.query.dom().contains(k) ==> (k == "dualSidePosition"@ || k == "recvWindow"@),
{
    proof {
        lemma_change_position_mode_query(params);
    }
    let ChangePositionModeParams { dual_side_position, recv_window } = params;
    let mut query = QueryParams::new();
    query.insert("dualSidePosition".to_owned(), QueryValue::Text(dual_side_position));
    if let Some(v) = recv_window {
        query.insert("recvWindow".to_owned(), QueryValue::Integer(v));
    }
    RestRequest {
        path: "/fapi/v1/positionSide/dual",
        method: HttpMethod::Post,
        query,
        uses_time_unit: HAS_TIME_UNIT,
        signed: true,
    }
}

/// The query parameters that `current_all_open_orders` sends for `p`.
pub open spec fn current_all_open_orders_query(p: CurrentAllOpenOrdersParams) -> QueryMap {
    QueryMap::empty()
        .put_opt("symbol"@, opt_text(p.symbol))
        .put_opt("recvWindow"@, opt_integer(p.recv_window))
}

/// What `current_all_open_orders` sends, parameter by parameter: each required parameter
/// under its name with the value given, each optional one exactly when it
/// is given, and no other parameter.
pub proof fn lemma_current_all_open_orders_query(p: CurrentAllOpenOrdersParams)
    ensures
        current_all_open_orders_query(p).dom().contains("symbol"@) == (p.symbol is Some),
        p.symbol is Some ==> current_all_open_orders_query(p)["symbol"@] == QueryValueView::Text(p.symbol->0@),
        current_all_open_orders_query(p).dom().contains("recvWindow"@) == (p.recv_window is Some),
        p.recv_window is Some ==> current_all_open_orders_query(p)["recvWindow"@] == QueryValueView::Integer(p.recv_window->0),
        forall|k: Seq<char>| #[trigger] current_all_open_orders_query(p).dom().contains(k) ==> (k == "symbol"@ || k == "recvWindow"@),
{
    reveal_strlit("symbol");
    reveal_strlit("recvWindow");
    assert("symbol"@.len() == 6);
    assert("recvWindow"@.len() == 10);
    assert("symbol"@ != "recvWindow"@);
}

/// The request of the `current_all_open_orders` operation: GET `/fapi/v1/openOrders`, signed.
pub fn current_all_open_orders(params: CurrentAllOpenOrdersParams) -> (req: RestRequest)
    ensures
        req@ == (RestRequestView {
            path: "/fapi/v1/openOrders"@,
            method: HttpMethod::Get,
            query: current_all_open_orders_query(params),
            uses_time_unit: HAS_TIME_UNIT,
            signed: true,
        }),
        req@.query.dom().contains("symbol"@) == (params.symbol is Some),
        params.symbol is Some ==> req@.query["symbol"@] == QueryValueView::Text(params.symbol->0@),
        req@.query.dom().contains("recvWindow"@) == (params.recv_window is Some),
        params.recv_window is Some ==> req@.query["recvWindow"@] == QueryValueView::Integer(params.recv_window->0),
        forall|k: Seq<char>| #[trigger] req@.query.dom().contains(k) ==> (k == "symbol"@ || k == "recvWindow"@),
{
    proof {
        lemma_current_all_open_orders_query(params);
    }
    let CurrentAllOpenOrdersParams { symbol, recv_window } = params;
    let mut query = QueryParams::new();
    if let Some(v) = symbol {
        query.insert("symbol".to_owned(), QueryValue::Text(v));
    }
    if let Some(v) = recv_window {
        query.insert("recvWindow".to_owned(), QueryValue::Integer(v));
    }
    RestRequest {
        path: "/fapi/v1/openOrders",
        method: HttpMethod::Get,
        query,
        uses_time_unit: HAS_TIME_UNIT,
        signed: true,
    }
}

/// The query parameters that `get_order_modify_history` sends for `p`.
pub open spec fn get_order_modify_history_query(p: GetOrderModifyHistoryParams) -> QueryMap {
    QueryMap::empty()
        .put("symbol"@, QueryValueView::Text(p.symbol@))
        .put_opt("orderId"@, opt_integer(p.order_id))
        .put_opt("origClientOrderId"@, opt_text(p.orig_client_order_id))
        .put_opt("startTime"@, opt_integer(p.start_time))
        .put_opt("endTime"@, opt_integer(p.end_time))
        .put_opt("limit"@, opt_integer(p.limit))
        .put_opt("recvWindow"@, opt_integer(p.recv_window))
}

/// What `get_order_modify_history` sends, parameter by parameter: each required parameter
/// under its name with the value given, each optional one exactly when it
/// is given, and no other parameter.
pub proof fn lemma_get_order_modify_history_query(p: GetOrderModifyHistoryParams)
    ensures
        get_order_modify_history_query(p).dom().contains("symbol"@),
        get_order_modify_history_query(p)["symbol"@] == QueryValueView::Text(p.symbol@),
        get_order_modify_history_query(p).dom().contains("orderId"@) == (p.order_id is Some),
        p.order_id is Some ==> get_order_modify_history_query(p)["orderId"@] == QueryValueView::Integer(p.order_id->0),
        get_order_modify_history_query(p).dom().contains("origClientOrderId"@) == (p.orig_client_order_id is Some),
        p.orig_client_order_id is Some ==> get_order_modify_history_query(p)["origClientOrderId"@] == QueryValueView::Text(p.orig_client_order_id->0@),
        get_order_modify_history_query(p).dom().contains("startTime"@) == (p.start_time is Some),
        p.start_time is Some ==> get_order_modify_history_query(p)["startTime"@] == QueryValueView::Integer(p.start_time->0),
        get_order_modify_history_query(p).dom().contains("endTime"@) == (p.end_time is Some),
        p.end_time is Some ==> get_order_modify_history_query(p)["endTime"@] == QueryValueView::Integer(p.end_time->0),
        get_order_modify_history_query(p).dom().contains("limit"@) == (p.limit is Some),
        p.limit is Some ==> get_order_modify_history_query(p)["limit"@] == QueryValueView::Integer(p.limit->0),
        get_order_modify_history_query(p).dom().contains("recvWindow"@) == (p.recv_window is Some),
        p.recv_window is Some ==> get_order_modify_history_query(p)["recvWindow"@] == QueryValueView::Integer(p.recv_window->0),
        forall|k: Seq<char>| #[trigger] get_order_modify_history_query(p).dom().contains(k) ==> (k == "symbol"@ || k == "orderId"@ || k == "origClientOrderId"@ || k == "startTime"@ || k == "endTime"@ || k == "limit"@ || k == "recvWindow"@),
{
    reveal_strlit("symbol");
    reveal_strlit("orderId");
    reveal_strlit("origClientOrderId");
    reveal_strlit("startTime");
    reveal_strlit("endTime");
    reveal_strlit("limit");
    reveal_strlit("recvWindow");
    assert("symbol"@.len() == 6);
    assert("orderId"@.len() == 7);
    assert("origClientOrderId"@.len() == 17);
    assert("startTime"@.len() == 9);
    assert("endTime"@.len() == 7);
    assert("limit"@.len() == 5);
    assert("recvWindow"@.len() == 10);
    assert("orderId"@[0] == 'o');
    assert("endTime"@[0] == 'e');
    assert("symbol"@ != "orderId"@);
    assert("symbol"@ != "origClientOrderId"@);
    assert("symbol"@ != "startTime"@);
    assert("symbol"@ != "endTime"@);
    assert("symbol"@ != "limit"@);
    assert("symbol"@ != "recvWindow"@);
    assert("orderId"@ != "origClientOrderId"@);
    assert("orderId"@ != "startTime"@);
    assert("orderId"@ != "endTime"@);
    assert("orderId"@ != "limit"@);
    assert("orderId"@ != "recvWindow"@);
    assert("origClientOrderId"@ != "startTime"@);
    assert("origClientOrderId"@ != "endTime"@);
    assert("origClientOrderId"@ != "limit"@);
    assert("origClientOrderId"@ != "recvWindow"@);
    assert("startTime"@ != "endTime"@);
    assert("startTime"@ != "limit"@);
    assert("startTime"@ != "recvWindow"@);
    assert("endTime"@ != "limit"@);
    assert("endTime"@ != "recvWindow"@);
    assert("limit"@ != "recvWindow"@);
}

/// The request of the `get_order_modify_history` operation: GET `/fapi/v1/orderAmendment`, signed.
pub fn get_order_modify_history(params: GetOrderModifyHistoryParams) -> (req: RestRequest)
    ensures
        req@ == (RestRequestView {
            path: "/fapi/v1/orderAmendment"@,
            method: HttpMethod::Get,
            query: get_order_modify_history_query(params),
            uses_time_unit: HAS_TIME_UNIT,
            signed: true,
        }),
        req@.query.dom().contains("symbol"@),
        req@.query["symbol"@] == QueryValueView::Text(params.symbol@),
        req@.query.dom().contains("orderId"@) == (params.order_id is Some),
        params.order_id is Some ==> req@.query["orderId"@] == QueryValueView::Integer(params.order_id->0),
        req@.query.dom().contains("origClientOrderId"@) == (params.orig_client_order_id is Some),
        params.orig_client_order_id is Some ==> req@.query["origClientOrderId"@] == QueryValueView::Text(params.orig_client_order_id->0@),
        req@.query.dom().contains("startTime"@) == (params.start_time is Some),
        params.start_time is Some ==> req@.query["startTime"@] == QueryValueView::Integer(params.start_time->0),
        req@.query.dom().contains("endTime"@) == (params.end_time is Some),
        params.end_time is Some ==> req@.query["endTime"@] == QueryValueView::Integer(params.end_time->0),
        req@.query.dom().contains("limit"@) == (params.limit is Some),
        params.limit is Some ==> req@.query["limit"@] == QueryValueView::Integer(params.limit->0),
        req@.query.dom().contains("recvWindow"@) == (params.recv_window is Some),
        params.recv_window is Some ==> req@.query["recvWindow"@] == QueryValueView::Integer(params.recv_window->0),
        forall|k: Seq<char>| #[trigger] req@.query.dom().contains(k) ==> (k == "symbol"@ || k == "orderId"@ || k == "origClientOrderId"@ || k == "startTime"@ || k == "endTime"@ || k == "limit"@ || k == "recvWindow"@),
{
    proof {
        lemma_get_order_modify_history_query(params);
    }
    let GetOrderModifyHistoryParams { symbol, order_id, orig_client_order_id, start_time, end_time, limit, recv_window } = params;
    let mut query = QueryParams::new();
    query.insert("symbol".to_owned(), QueryValue::Text(symbol));
    if let Some(v) = order_id {
        query.insert("orderId".to_owned(), QueryValue::Integer(v));
    }
    if let Some(v) = orig_client_order_id {
        query.insert("origClientOrderId".to_owned(), QueryValue::Text(v));
    }
    if let Some(v) = start_time {
        query.insert("startTime".to_owned(), QueryValue::Integer(v));
    }
    if let Some(v) = end_time {
        query.insert("endTime".to_owned(), QueryValue::Integer(v));
    }
    if let Some(v) = limit {
        query.insert("limit".to_owned(), QueryValue::Integer(v));
    }
    if let Some(v) = recv_window {
        query.insert("recvWindow".to_owned(), QueryValue::Integer(v));
    }
    RestRequest {
        path: "/fapi/v1/orderAmendment",
        method: HttpMethod::Get,
        query,
        uses_time_unit: HAS_TIME_UNIT,
        signed: true,
    }
}

/// The query parameters that `get_position_margin_change_history` sends for `p`.
pub open spec fn get_position_margin_change_history_query(p: GetPositionMarginChangeHistoryParams) -> QueryMap {
    QueryMap::empty()
        .put("symbol"@, QueryValueView::Text(p.symbol@))
        .put_opt("type"@, opt_integer(p.change_type))
        .put_opt("startTime"@, opt_integer(p.start_time))
        .put_opt("endTime"@, opt_integer(p.end_time))
        .put_opt("limit"@, opt_integer(p.limit))
        .put_opt("recvWindow"@, opt_integer(p.recv_window))
}

/// What `get_position_margin_change_history` sends, parameter by parameter: each required parameter
/// under its name with the value given, each optional one exactly when it
/// is given, and no other parameter.
pub proof fn lemma_get_position_margin_change_history_query(p: GetPositionMarginChangeHistoryParams)
    ensures
        get_position_margin_change_history_query(p).dom().contains("symbol"@),
        get_position_margin_change_history_query(p)["symbol"@] == QueryValueView::Text(p.symbol@),
        get_position_margin_change_history_query(p).dom().contains("type"@) == (p.change_type is Some),
        p.change_type is Some ==> get_position_margin_change_history_query(p)["type"@] == QueryValueView::Integer(p.change_type->0),
        get_position_margin_change_history_query(p).dom().contains("startTime"@) == (p.start_time is Some),
        p.start_time is Some ==> get_position_margin_change_history_query(p)["startTime"@] == QueryValueView::Integer(p.start_time->0),
        get_position_margin_change_history_query(p).dom().contains("endTime"@) == (p.end_time is Some),
        p.end_time is Some ==> get_position_margin_change_history_query(p)["endTime"@] == QueryValueView::Integer(p.end_time->0),
        get_position_margin_change_history_query(p).dom().contains("limit"@) == (p.limit is Some),
        p.limit is Some ==> get_position_margin_change_history_query(p)["limit"@] == QueryValueView::Integer(p.limit->0),
        get_position_margin_change_history_query(p).dom().contains("recvWindow"@) == (p.recv_window is Some),
        p.recv_window is Some ==> get_position_margin_change_history_query(p)["recvWindow"@] == QueryValueView::Integer(p.recv_window->0),
        forall|k: Seq<char>| #[trigger] get_position_margin_change_history_query(p).dom().contains(k) ==> (k == "symbol"@ || k == "type"@ || k == "startTime"@ || k == "endTime"@ || k == "limit"@ || k == "recvWindow"@),
{
    reveal_strlit("symbol");
    reveal_strlit("type");
    reveal_strlit("startTime");
    reveal_strlit("endTime");
    reveal_strlit("limit");
    reveal_strlit("recvWindow");
    assert("symbol"@.len() == 6);
    assert("type"@.len() == 4);
    assert("startTime"@.len() == 9);
    assert("endTime"@.len() == 7);
    assert("limit"@.len() == 5);
    assert("recvWindow"@.len() == 10);
    assert("symbol"@ != "type"@);
    assert("symbol"@ != "startTime"@);
    assert("symbol"@ != "endTime"@);
    assert("symbol"@ != "limit"@);
    assert("symbol"@ != "recvWindow"@);
    assert("type"@ != "startTime"@);
    assert("type"@ != "endTime"@);
    assert("type"@ != "limit"@);
    assert("type"@ != "recvWindow"@);
    assert("startTime"@ != "endTime"@);
    assert("startTime"@ != "limit"@);
    assert("startTime"@ != "recvWindow"@);
    assert("endTime"@ != "limit"@);
    assert("endTime"@ != "recvWindow"@);
    assert("limit"@ != "recvWindow"@);
}

/// The request of the `get_position_margin_change_history` operation: GET `/fapi/v1/positionMargin/history`, signed.
pub fn get_position_margin_change_history(params: GetPositionMarginChangeHistoryParams) -> (req: RestRequest)
    ensures
        req@ == (RestRequestView {
            path: "/fapi/v1/positionMargin/history"@,
            method: HttpMethod::Get,
            query: get_position_margin_change_history_query(params),
            uses_time_unit: HAS_TIME_UNIT,
            signed: true,
        }),
        req@.query.dom().contains("symbol"@),
        req@.query["symbol"@] == QueryValueView::Text(params.symbol@),
        req@.query.dom().contains("type"@) == (params.change_type is Some),
        params.change_type is Some ==> req@.query["type"@] == QueryValueView::Integer(params.change_type->0),
        req@.query.dom().contains("startTime"@) == (params.start_time is Some),
        params.start_time is Some ==> req@.query["startTime"@] == QueryValueView::Integer(params.start_time->0),
        req@.query.dom().contains("endTime"@) == (params.end_time is Some),
        params.end_time is Some ==> req@.query["endTime"@] == QueryValueView::Integer(params.end_time->0),
        req@.query.dom().contains("limit"@) == (params.limit is Some),
        params.limit is Some ==> req@.query["limit"@] == QueryValueView::Integer(params.limit->0),
        req@.query.dom().contains("recvWindow"@) == (params.recv_window is Some),
        params.recv_window is Some ==> req@.query["recvWindow"@] == QueryValueView::Integer(params.recv_window->0),
        forall|k: Seq<char>| #[trigger] req@.query.dom().contains(k) ==> (k == "symbol"@ || k == "type"@ || k == "startTime"@ || k == "endTime"@ || k == "limit"@ || k == "recvWindow"@),
{
    proof {
        lemma_get_position_margin_change_history_query(params);
    }
    let GetPositionMarginChangeHistoryParams { symbol, change_type, start_time, end_time, limit, recv_window } = params;
    let mut query = QueryParams::new();
    query.insert("symbol".to_owned(), QueryValue::Text(symbol));
    if let Some(v) = change_type {
        query.insert("type".to_owned(), QueryValue::Integer(v));
    }
    if let Some(v) = start_time {
        query.insert("startTime".to_owned(), QueryValue::Integer(v));
    }
    if let Some(v) = end_time {
        query.insert("endTime".to_owned(), QueryValue::Integer(v));
    }
    if let Some(v) = limit {
        query.insert("limit".to_owned(), QueryValue::Integer(v));
    }
    if let Some(v) = recv_window {
        query.insert("recvWindow".to_owned(), QueryValue::Integer(v));
    }
    RestRequest {
        path: "/fapi/v1/positionMargin/history",
        method: HttpMethod::Get,
        query,
        uses_time_unit: HAS_TIME_UNIT,
        signed: true,
    }
}

/// The query parameters that `modify_isolated_position_margin` sends for `p`.
pub open spec fn modify_isolated_position_margin_query(p: ModifyIsolatedPositionMarginParams) -> QueryMap {
    QueryMap::empty()
        .put("symbol"@, QueryValueView::Text(p.symbol@))
        .put("amount"@, QueryValueView::DecimalNumber(p.amount))
        .put("type"@, QueryValueView::Text(p.change_type@))
        .put_opt("positionSide"@, ModifyIsolatedPositionMarginPositionSideEnum::opt_wire(p.position_side))
        .put_opt("recvWindow"@, opt_integer(p.recv_window))
}

/// What `modify_isolated_position_margin` sends, parameter by parameter: each required parameter
/// under its name with the value given, each optional one exactly when it
/// is given, and no other parameter.
pub proof fn lemma_modify_isolated_position_margin_query(p: ModifyIsolatedPositionMarginParams)
    ensures
        modify_isolated_position_margin_query(p).dom().contains("symbol"@),
        modify_isolated_position_margin_query(p)["symbol"@] == QueryValueView::Text(p.symbol@),
        modify_isolated_position_margin_query(p).dom().contains("amount"@),
        modify_isolated_position_margin_query(p)["amount"@] == QueryValueView::DecimalNumber(p.amount),
        modify_isolated_position_margin_query(p).dom().contains("type"@),
        modify_isolated_position_margin_query(p)["type"@] == QueryValueView::Text(p.change_type@),
        modify_isolated_position_margin_query(p).dom().contains("positionSide"@) == (p.position_side is Some),
        p.position_side is Some ==> modify_isolated_position_margin_query(p)["positionSide"@] == QueryValueView::Text(p.position_side->0.wire_name()),
        modify_isolated_position_margin_query(p).dom().contains("recvWindow"@) == (p.recv_window is Some),
        p.recv_window is Some ==> modify_isolated_position_margin_query(p)["recvWindow"@] == QueryValueView::Integer(p.recv_window->0),
        forall|k: Seq<char>| #[trigger] modify_isolated_position_margin_query(p).dom().contains(k) ==> (k == "symbol"@ || k == "amount"@ || k == "type"@ || k == "positionSide"@ || k == "recvWindow"@),
{
    reveal_strlit("symbol");
    reveal_strlit("amount");
    reveal_strlit("type");
    reveal_strlit("positionSide");
    reveal_strlit("recvWindow");
    assert("symbol"@.len() == 6);
    assert("amount"@.len() == 6);
    assert("type"@.len() == 4);
    assert("positionSide"@.len() == 12);
    assert("recvWindow"@.len() == 10);
    assert("symbol"@[0] == 's');
    assert("amount"@[0] == 'a');
    assert("symbol"@ != "amount"@);
    assert("symbol"@ != "type"@);
    assert("symbol"@ != "positionSide"@);
    assert("symbol"@ != "recvWindow"@);
    assert("amount"@ != "type"@);
    assert("amount"@ != "positionSide"@);
    assert("amount"@ != "recvWindow"@);
    assert("type"@ != "positionSide"@);
    assert("type"@ != "recvWindow"@);
    assert("positionSide"@ != "recvWindow"@);
}

/// The request of the `modify_isolated_position_margin` operation: POST `/fapi/v1/positionMargin`, signed.
pub fn modify_isolated_position_margin(params: ModifyIsolatedPositionMarginParams) -> (req: RestRequest)
    ensures
        req@ == (RestRequestView {
            path: "/fapi/v1/positionMargin"@,
            method: HttpMethod::Post,
            query: modify_isolated_position_margin_query(params),
            uses_time_unit: HAS_TIME_UNIT,
            signed: true,
        }),
        req@.query.dom().contains("symbol"@),
        req@.query["symbol"@] == QueryValueView::Text(params.symbol@),
        req@.query.dom().contains("amount"@),
        req@.query["amount"@] == QueryValueView::DecimalNumber(params.amount),
        req@.query.dom().contains("type"@),
        req@.query["type"@] == QueryValueView::Text(params.change_type@),
        req@.query.dom().contains("positionSide"@) == (params.position_side is Some),
        params.position_side is Some ==> req@.query["positionSide"@] == QueryValueView::Text(params.position_side->0.wire_name()),
        req@.query.dom().contains("recvWindow"@) == (params.recv_window is Some),
        params.recv_window is Some ==> req@.query["recvWindow"@] == QueryValueView::Integer(params.recv_window->0),
        forall|k: Seq<char>| #[trigger] req@.query.dom().contains(k) ==> (k == "symbol"@ || k == "amount"@ || k == "type"@ || k == "positionSide"@ || k == "recvWindow"@),
{
    proof {
        lemma_modify_isolated_position_margin_query(params);
    }
    let ModifyIsolatedPositionMarginParams { symbol, amount, change_type, position_side, recv_window } = params;
    let mut query = QueryParams::new();
    query.insert("symbol".to_owned(), QueryValue::Text(symbol));
    query.insert("amount".to_owned(), QueryValue::DecimalNumber(amount));
    query.insert("type".to_owned(), QueryValue::Text(change_type));
    if let Some(v) = position_side {
        query.insert("positionSide".to_owned(), QueryValue::Text(v.as_str().to_owned()));
    }
    if let Some(v) = recv_window {
        query.insert("recvWindow".to_owned(), QueryValue::Integer(v));
    }
    RestRequest {
        path: "/fapi/v1/positionMargin",
        method: HttpMethod::Post,
        query,
        uses_time_unit: HAS_TIME_UNIT,
        signed: true,
    }
}

/// The query parameters that `modify_multiple_orders` sends for `p`.
pub open spec fn modify_multiple_orders_query(p: ModifyMultipleOrdersParams) -> QueryMap {
    QueryMap::empty()
        .put("batchOrders"@, QueryValueView::JsonList(p.batch_orders@))
        .put_opt("recvWindow"@, opt_integer(p.recv_window))
}

/// What `modify_multiple_orders` sends, parameter by parameter: each required parameter
/// under its name with the value given, each optional one exactly when it
/// is given, and no other parameter.
pub proof fn lemma_modify_multiple_orders_query(p: ModifyMultipleOrdersParams)
    ensures
        modify_multiple_orders_query(p).dom().contains("batchOrders"@),
        modify_multiple_orders_query(p)["batchOrders"@] == QueryValueView::JsonList(p.batch_orders@),
        modify_multiple_orders_query(p).dom().contains("recvWindow"@) == (p.recv_window is Some),
        p.recv_window is Some ==> modify_multiple_orders_query(p)["recvWindow"@] == QueryValueView::Integer(p.recv_window->0),
        forall|k: Seq<char>| #[trigger] modify_multiple_orders_query(p).dom().contains(k) ==> (k == "batchOrders"@ || k == "recvWindow"@),
{
    reveal_strlit("batchOrders");
    reveal_strlit("recvWindow");
    assert("batchOrders"@.len() == 11);
    assert("recvWindow"@.len() == 10);
    assert("batchOrders"@ != "recvWindow"@);
}

/// The request of the `modify_multiple_orders` operation: PUT `/fapi/v1/batchOrders`, signed.
pub fn modify_multiple_orders(params: ModifyMultipleOrdersParams) -> (req: RestRequest)
    ensures
        req@ == (RestRequestView {
            path: "/fapi/v1/batchOrders"@,
            method: HttpMethod::Put,
            query: modify_multiple_orders_query(params),
            uses_time_unit: HAS_TIME_UNIT,
            signed: true,
        }),
        req@.query.dom().contains("batchOrders"@),
        req@.query["batchOrders"@] == QueryValueView::JsonList(params.batch_orders@),
        req@.query.dom().contains("recvWindow"@) == (params.recv_window is Some),
        params.recv_window is Some ==> req@.query["recvWindow"@] == QueryValueView::Integer(params.recv_window->0),
        forall|k: Seq<char>| #[trigger] req@.query.dom().contains(k) ==> (k == "batchOrders"@ || k == "recvWindow"@),
{
    proof {
        lemma_modify_multiple_orders_query(params);
    }
    let ModifyMultipleOrdersParams { batch_orders, recv_window } = params;
    let mut query = QueryParams::new();
    query.insert("batchOrders".to_owned(), QueryValue::JsonList(batch_orders));
    if let Some(v) = recv_window {
        query.insert("recvWindow".to_owned(), QueryValue::Integer(v));
    }
    RestRequest {
        path: "/fapi/v1/batchOrders",
        method: HttpMethod::Put,
        query,
        uses_time_unit: HAS_TIME_UNIT,
        signed: true,
    }
}

/// The query parameters that `modify_order` sends for `p`.
/// `price` and `priceMatch` cannot be sent together: when a price match
/// is given, the price is left out.
pub open spec fn modify_order_query(p: ModifyOrderParams) -> QueryMap {
    QueryMap::empty()
        .put("symbol"@, QueryValueView::Text(p.symbol@))
        .put("side"@, QueryValueView::Text(p.side.wire_name()))
        .put("quantity"@, QueryValueView::DecimalNumber(p.quantity))
        .put_opt("price"@, if p.price_match is Some { None } else { Some(QueryValueView::DecimalNumber(p.price)) })
        .put_opt("orderId"@, opt_integer(p.order_id))
        .put_opt("origClientOrderId"@, opt_text(p.orig_client_order_id))
        .put_opt("priceMatch"@, ModifyOrderPriceMatchEnum::opt_wire(p.price_match))
        .put_opt("recvWindow"@, opt_integer(p.recv_window))
}

/// What `modify_order` sends, parameter by parameter: each required parameter
/// under its name with the value given, each optional one exactly when it
/// is given, and no other parameter.
pub proof fn lemma_modify_order_query(p: ModifyOrderParams)
    ensures
        modify_order_query(p).dom().contains("symbol"@),
        modify_order_query(p)["symbol"@] == QueryValueView::Text(p.symbol@),
        modify_order_query(p).dom().contains("side"@),
        modify_order_query(p)["side"@] == QueryValueView::Text(p.side.wire_name()),
        modify_order_query(p).dom().contains("quantity"@),
        modify_order_query(p)["quantity"@] == QueryValueView::DecimalNumber(p.quantity),
        modify_order_query(p).dom().contains("price"@) == (p.price_match is None),
        p.price_match is None ==> modify_order_query(p)["price"@] == QueryValueView::DecimalNumber(p.price),
        modify_order_query(p).dom().contains("orderId"@) == (p.order_id is Some),
        p.order_id is Some ==> modify_order_query(p)["orderId"@] == QueryValueView::Integer(p.order_id->0),
        modify_order_query(p).dom().contains("origClientOrderId"@) == (p.orig_client_order_id is Some),
        p.orig_client_order_id is Some ==> modify_order_query(p)["origClientOrderId"@] == QueryValueView::Text(p.orig_client_order_id->0@),
        modify_order_query(p).dom().contains("priceMatch"@) == (p.price_match is Some),
        p.price_match is Some ==> modify_order_query(p)["priceMatch"@] == QueryValueView::Text(p.price_match->0.wire_name()),
        modify_order_query(p).dom().contains("recvWindow"@) == (p.recv_window is Some),
        p.recv_window is Some ==> modify_order_query(p)["recvWindow"@] == QueryValueView::Integer(p.recv_window->0),
        forall|k: Seq<char>| #[trigger] modify_order_query(p).dom().contains(k) ==> (k == "symbol"@ || k == "side"@ || k == "quantity"@ || k == "price"@ || k == "orderId"@ || k == "origClientOrderId"@ || k == "priceMatch"@ || k == "recvWindow"@),
{
    reveal_strlit("symbol");
    reveal_strlit("side");
    reveal_strlit("quantity");
    reveal_strlit("price");
    reveal_strlit("orderId");
    reveal_strlit("origClientOrderId");
    reveal_strlit("priceMatch");
    reveal_strlit("recvWindow");
    assert("symbol"@.len() == 6);
    assert("side"@.len() == 4);
    assert("quantity"@.len() == 8);
    assert("price"@.len() == 5);
    assert("orderId"@.len() == 7);
    assert("origClientOrderId"@.len() == 17);
    assert("priceMatch"@.len() == 10);
    assert("recvWindow"@.len() == 10);
    assert("priceMatch"@[0] == 'p');
    assert("recvWindow"@[0] == 'r');
    assert("symbol"@ != "side"@);
    assert("symbol"@ != "quantity"@);
    assert("symbol"@ != "price"@);
    assert("symbol"@ != "orderId"@);
    assert("symbol"@ != "origClientOrderId"@);
    assert("symbol"@ != "priceMatch"@);
    assert("symbol"@ != "recvWindow"@);
    assert("side"@ != "quantity"@);
    assert("side"@ != "price"@);
    assert("side"@ != "orderId"@);
    assert("side"@ != "origClientOrderId"@);
    assert("side"@ != "priceMatch"@);
    assert("side"@ != "recvWindow"@);
    assert("quantity"@ != "price"@);
    assert("quantity"@ != "orderId"@);
    assert("quantity"@ != "origClientOrderId"@);
    assert("quantity"@ != "priceMatch"@);
    assert("quantity"@ != "recvWindow"@);
    assert("price"@ != "orderId"@);
    assert("price"@ != "origClientOrderId"@);
    assert("price"@ != "priceMatch"@);
    assert("price"@ != "recvWindow"@);
    assert("orderId"@ != "origClientOrderId"@);
    assert("orderId"@ != "priceMatch"@);
    assert("orderId"@ != "recvWindow"@);
    assert("origClientOrderId"@ != "priceMatch"@);
    assert("origClientOrderId"@ != "recvWindow"@);
    assert("priceMatch"@ != "recvWindow"@);
}

/// The request of the `modify_order` operation: PUT `/fapi/v1/order`, signed.
pub fn modify_order(params: ModifyOrderParams) -> (req: RestRequest)
    ensures
        req@ == (RestRequestView {
            path: "/fapi/v1/order"@,
            method: HttpMethod::Put,
            query: modify_order_query(params),
            uses_time_unit: HAS_TIME_UNIT,
            signed: true,
        }),
        req@.query.dom().contains("symbol"@),
        req@.query["symbol"@] == QueryValueView::Text(params.symbol@),
        req@.query.dom().contains("side"@),
        req@.query["side"@] == QueryValueView::Text(params.side.wire_name()),
        req@.query.dom().contains("quantity"@),
        req@.query["quantity"@] == QueryValueView::DecimalNumber(params.quantity),
        req@.query.dom().contains("price"@) == (params.price_match is None),
        params.price_match is None ==> req@.query["price"@] == QueryValueView::DecimalNumber(params.price),
        req@.query.dom().contains("orderId"@) == (params.order_id is Some),
        params.order_id is Some ==> req@.query["orderId"@] == QueryValueView::Integer(params.order_id->0),
        req@.query.dom().contains("origClientOrderId"@) == (params.orig_client_order_id is Some),
        params.orig_client_order_id is Some ==> req@.query["origClientOrderId"@] == QueryValueView::Text(params.orig_client_order_id->0@),
        req@.query.dom().contains("priceMatch"@) == (params.price_match is Some),
        params.price_match is Some ==> req@.query["priceMatch"@] == QueryValueView::Text(params.price_match->0.wire_name()),
        req@.query.dom().contains("recvWindow"@) == (params.recv_window is Some),
        params.recv_window is Some ==> req@.query["recvWindow"@] == QueryValueView::Integer(params.recv_window->0),
        forall|k: Seq<char>| #[trigger] req@.query.dom().contains(k) ==> (k == "symbol"@ || k == "side"@ || k == "quantity"@ || k == "price"@ || k == "orderId"@ || k == "origClientOrderId"@ || k == "priceMatch"@ || k == "recvWindow"@),
{
    proof {
        lemma_modify_order_query(params);
    }
    let ModifyOrderParams { symbol, side, quantity, price, order_id, orig_client_order_id, price_match, recv_window } = params;
    let mut query = QueryParams::new();
    query.insert("symbol".to_owned(), QueryValue::Text(symbol));
    query.insert("side".to_owned(), QueryValue::Text(side.as_str().to_owned()));
    query.insert("quantity".to_owned(), QueryValue::DecimalNumber(quantity));
    if price_match.is_none() {
        query.insert("price".to_owned(), QueryValue::DecimalNumber(price));
    }
    if let Some(v) = order_id {
        query.insert("orderId".to_owned(), QueryValue::Integer(v));
    }
    if let Some(v) = orig_client_order_id {
        query.insert("origClientOrderId".to_owned(), QueryValue::Text(v));
    }
    if let Some(v) = price_match {
        query.insert("priceMatch".to_owned(), QueryValue::Text(v.as_str().to_owned()));
    }
    if let Some(v) = recv_window {
        query.insert("recvWindow".to_owned(), QueryValue::Integer(v));
    }
    RestRequest {
        path: "/fapi/v1/order",
        method: HttpMethod::Put,
        query,
        uses_time_unit: HAS_TIME_UNIT,
        signed: true,
    }
}

/// A modified order carries its price or a price match, never both: the
/// price goes out exactly when no price match is given.
pub proof fn lemma_modify_order_price_or_price_match(p: ModifyOrderParams)
    ensures
        modify_order_query(p).dom().contains("price"@) <==> p.price_match is None,
        modify_order_query(p).dom().contains("priceMatch"@) <==> p.price_match is Some,
        !(modify_order_query(p).dom().contains("price"@) && modify_order_query(p).dom().contains("priceMatch"@)),
{
    reveal_strlit("symbol");
    reveal_strlit("side");
    reveal_strlit("quantity");
    reveal_strlit("price");
    reveal_strlit("orderId");
    reveal_strlit("origClientOrderId");
    reveal_strlit("priceMatch");
    reveal_strlit("recvWindow");
    assert("price"@.len() == 5);
    assert("priceMatch"@.len() == 10);
    assert("symbol"@.len() == 6);
    assert("side"@.len() == 4);
    assert("quantity"@.len() == 8);
    assert("orderId"@.len() == 7);
    assert("origClientOrderId"@.len() == 17);
    assert("recvWindow"@.len() == 10);
    assert("priceMatch"@[0] == 'p');
    assert("recvWindow"@[0] == 'r');
}

/// The query parameters that `new_order` sends for `p`.
pub open spec fn new_order_query(p: NewOrderParams) -> QueryMap {
    QueryMap::empty()
        .put("symbol"@, QueryValueView::Text(p.symbol@))
        .put("side"@, QueryValueView::Text(p.side.wire_name()))
        .put("type"@, QueryValueView::Text(p.order_type@))
        .put_opt("positionSide"@, NewOrderPositionSideEnum::opt_wire(p.position_side))
        .put_opt("timeInForce"@, NewOrderTimeInForceEnum::opt_wire(p.time_in_force))
        .put_opt("quantity"@, opt_decimal(p.quantity))
        .put_opt("reduceOnly"@, opt_text(p.reduce_only))
        .put_opt("price"@, opt_decimal(p.price))
        .put_opt("newClientOrderId"@, opt_text(p.new_client_order_id))
        .put_opt("stopPrice"@, opt_decimal(p.stop_price))
        .put_opt("closePosition"@, opt_text(p.close_position))
        .put_opt("activationPrice"@, opt_decimal(p.activation_price))
        .put_opt("callbackRate"@, opt_decimal(p.callback_rate))
        .put_opt("workingType"@, NewOrderWorkingTypeEnum::opt_wire(p.working_type))
        .put_opt("priceProtect"@, opt_text(p.price_protect))
        .put_opt("newOrderRespType"@, NewOrderNewOrderRespTypeEnum::opt_wire(p.new_order_resp_type))
        .put_opt("priceMatch"@, NewOrderPriceMatchEnum::opt_wire(p.price_match))
        .put_opt("selfTradePreventionMode"@, NewOrderSelfTradePreventionModeEnum::opt_wire(p.self_trade_prevention_mode))
        .put_opt("goodTillDate"@, opt_integer(p.good_till_date))
        .put_opt("recvWindow"@, opt_integer(p.recv_window))
}

/// What `new_order` sends, parameter by parameter: each required parameter
/// under its name with the value given, each optional one exactly when it
/// is given, and no other parameter.
#[verifier::rlimit(100)]
pub proof fn lemma_new_order_query(p: NewOrderParams)
    ensures
        new_order_query(p).dom().contains("symbol"@),
        new_order_query(p)["symbol"@] == QueryValueView::Text(p.symbol@),
        new_order_query(p).dom().contains("side"@),
        new_order_query(p)["side"@] == QueryValueView::Text(p.side.wire_name()),
        new_order_query(p).dom().contains("type"@),
        new_order_query(p)["type"@] == QueryValueView::Text(p.order_type@),
        new_order_query(p).dom().contains("positionSide"@) == (p.position_side is Some),
        p.position_side is Some ==> new_order_query(p)["positionSide"@] == QueryValueView::Text(p.position_side->0.wire_name()),
        new_order_query(p).dom().contains("timeInForce"@) == (p.time_in_force is Some),
        p.time_in_force is Some ==> new_order_query(p)["timeInForce"@] == QueryValueView::Text(p.time_in_force->0.wire_name()),
        new_order_query(p).dom().contains("quantity"@) == (p.quantity is Some),
        p.quantity is Some ==> new_order_query(p)["quantity"@] == QueryValueView::DecimalNumber(p.quantity->0),
        new_order_query(p).dom().contains("reduceOnly"@) == (p.reduce_only is Some),
        p.reduce_only is Some ==> new_order_query(p)["reduceOnly"@] == QueryValueView::Text(p.reduce_only->0@),
        new_order_query(p).dom().contains("price"@) == (p.price is Some),
        p.price is Some ==> new_order_query(p)["price"@] == QueryValueView::DecimalNumber(p.price->0),
        new_order_query(p).dom().contains("newClientOrderId"@) == (p.new_client_order_id is Some),
        p.new_client_order_id is Some ==> new_order_query(p)["newClientOrderId"@] == QueryValueView::Text(p.new_client_order_id->0@),
        new_order_query(p).dom().contains("stopPrice"@) == (p.stop_price is Some),
        p.stop_price is Some ==> new_order_query(p)["stopPrice"@] == QueryValueView::DecimalNumber(p.stop_price->0),
        new_order_query(p).dom().contains("closePosition"@) == (p.close_position is Some),
        p.close_position is Some ==> new_order_query(p)["closePosition"@] == QueryValueView::Text(p.close_position->0@),
        new_order_query(p).dom().contains("activationPrice"@) == (p.activation_price is Some),
        p.activation_price is Some ==> new_order_query(p)["activationPrice"@] == QueryValueView::DecimalNumber(p.activation_price->0),
        new_order_query(p).dom().contains("callbackRate"@) == (p.callback_rate is Some),
        p.callback_rate is Some ==> new_order_query(p)["callbackRate"@] == QueryValueView::DecimalNumber(p.callback_rate->0),
        new_order_query(p).dom().contains("workingType"@) == (p.working_type is Some),
        p.working_type is Some ==> new_order_query(p)["workingType"@] == QueryValueView::Text(p.working_type->0.wire_name()),
        new_order_query(p).dom().contains("priceProtect"@) == (p.price_protect is Some),
        p.price_protect is Some ==> new_order_query(p)["priceProtect"@] == QueryValueView::Text(p.price_protect->0@),
        new_order_query(p).dom().contains("newOrderRespType"@) == (p.new_order_resp_type is Some),
        p.new_order_resp_type is Some ==> new_order_query(p)["newOrderRespType"@] == QueryValueView::Text(p.new_order_resp_type->0.wire_name()),
        new_order_query(p).dom().contains("priceMatch"@) == (p.price_match is Some),
        p.price_match is Some ==> new_order_query(p)["priceMatch"@] == QueryValueView::Text(p.price_match->0.wire_name()),
        new_order_query(p).dom().contains("selfTradePreventionMode"@) == (p.self_trade_prevention_mode is Some),
        p.self_trade_prevention_mode is Some ==> new_order_query(p)["selfTradePreventionMode"@] == QueryValueView::Text(p.self_trade_prevention_mode->0.wire_name()),
        new_order_query(p).dom().contains("goodTillDate"@) == (p.good_till_date is Some),
        p.good_till_date is Some ==> new_order_query(p)["goodTillDate"@] == QueryValueView::Integer(p.good_till_date->0),
        new_order_query(p).dom().contains("recvWindow"@) == (p.recv_window is Some),
        p.recv_window is Some ==> new_order_query(p)["recvWindow"@] == QueryValueView::Integer(p.recv_window->0),
        forall|k: Seq<char>| #[trigger] new_order_query(p).dom().contains(k) ==> (k == "symbol"@ || k == "side"@ || k == "type"@ || k == "positionSide"@ || k == "timeInForce"@ || k == "quantity"@ || k == "reduceOnly"@ || k == "price"@ || k == "newClientOrderId"@ || k == "stopPrice"@ || k == "closePosition"@ || k == "activationPrice"@ || k == "callbackRate"@ || k == "workingType"@ || k == "priceProtect"@ || k == "newOrderRespType"@ || k == "priceMatch"@ || k == "selfTradePreventionMode"@ || k == "goodTillDate"@ || k == "recvWindow"@),
{
    reveal_strlit("symbol");
    reveal_strlit("side");
    reveal_strlit("type");
    reveal_strlit("positionSide");
    reveal_strlit("timeInForce");
    reveal_strlit("quantity");
    reveal_strlit("reduceOnly");
    reveal_strlit("price");
    reveal_strlit("newClientOrderId");
    reveal_strlit("stopPrice");
    reveal_strlit("closePosition");
    reveal_strlit("activationPrice");
    reveal_strlit("callbackRate");
    reveal_strlit("workingType");
    reveal_strlit("priceProtect");
    reveal_strlit("newOrderRespType");
    reveal_strlit("priceMatch");
    reveal_strlit("selfTradePreventionMode");
    reveal_strlit("goodTillDate");
    reveal_strlit("recvWindow");
    assert("symbol"@.len() == 6);
    assert("side"@.len() == 4);
    assert("type"@.len() == 4);
    assert("positionSide"@.len() == 12);
    assert("timeInForce"@.len() == 11);
    assert("quantity"@.len() == 8);
    assert("reduceOnly"@.len() == 10);
    assert("price"@.len() == 5);
    assert("newClientOrderId"@.len() == 16);
    assert("stopPrice"@.len() == 9);
    assert("closePosition"@.len() == 13);
    assert("activationPrice"@.len() == 15);
    assert("callbackRate"@.len() == 12);
    assert("workingType"@.len() == 11);
    assert("priceProtect"@.len() == 12);
    assert("newOrderRespType"@.len() == 16);
    assert("priceMatch"@.len() == 10);
    assert("selfTradePreventionMode"@.len() == 23);
    assert("goodTillDate"@.len() == 12);
    assert("recvWindow"@.len() == 10);
    assert("side"@[0] == 's');
    assert("type"@[0] == 't');
    assert("positionSide"@[0] == 'p');
    assert("callbackRate"@[0] == 'c');
    assert("positionSide"@[1] == 'o');
    assert("priceProtect"@[1] == 'r');
    assert("goodTillDate"@[0] == 'g');
    assert("timeInForce"@[0] == 't');
    assert("workingType"@[0] == 'w');
    assert("reduceOnly"@[0] == 'r');
    assert("priceMatch"@[0] == 'p');
    assert("reduceOnly"@[2] == 'd');
    assert("recvWindow"@[2] == 'c');
    assert("newClientOrderId"@[3] == 'C');
    assert("newOrderRespType"@[3] == 'O');
    assert("priceProtect"@[0] == 'p');
    assert("recvWindow"@[0] == 'r');
    assert("symbol"@ != "side"@);
    assert("symbol"@ != "type"@);
    assert("symbol"@ != "positionSide"@);
    assert("symbol"@ != "timeInForce"@);
    assert("symbol"@ != "quantity"@);
    assert("symbol"@ != "reduceOnly"@);
    assert("symbol"@ != "price"@);
    assert("symbol"@ != "newClientOrderId"@);
    assert("symbol"@ != "stopPrice"@);
    assert("symbol"@ != "closePosition"@);
    assert("symbol"@ != "activationPrice"@);
    assert("symbol"@ != "callbackRate"@);
    assert("symbol"@ != "workingType"@);
    assert("symbol"@ != "priceProtect"@);
    assert("symbol"@ != "newOrderRespType"@);
    assert("symbol"@ != "priceMatch"@);
    assert("symbol"@ != "selfTradePreventionMode"@);
    assert("symbol"@ != "goodTillDate"@);
    assert("symbol"@ != "recvWindow"@);
    assert("side"@ != "type"@);
    assert("side"@ != "positionSide"@);
    assert("side"@ != "timeInForce"@);
    assert("side"@ != "quantity"@);
    assert("side"@ != "reduceOnly"@);
    assert("side"@ != "price"@);
    assert("side"@ != "newClientOrderId"@);
    assert("side"@ != "stopPrice"@);
    assert("side"@ != "closePosition"@);
    assert("side"@ != "activationPrice"@);
    assert("side"@ != "callbackRate"@);
    assert("side"@ != "workingType"@);
    assert("side"@ != "priceProtect"@);
    assert("side"@ != "newOrderRespType"@);
    assert("side"@ != "priceMatch"@);
    assert("side"@ != "selfTradePreventionMode"@);
    assert("side"@ != "goodTillDate"@);
    assert("side"@ != "recvWindow"@);
    assert("type"@ != "positionSide"@);
    assert("type"@ != "timeInForce"@);
    assert("type"@ != "quantity"@);
    assert("type"@ != "reduceOnly"@);
    assert("type"@ != "price"@);
    assert("type"@ != "newClientOrderId"@);
    assert("type"@ != "stopPrice"@);
    assert("type"@ != "closePosition"@);
    assert("type"@ != "activationPrice"@);
    assert("type"@ != "callbackRate"@);
    assert("type"@ != "workingType"@);
    assert("type"@ != "priceProtect"@);
    assert("type"@ != "newOrderRespType"@);
    assert("type"@ != "priceMatch"@);
    assert("type"@ != "selfTradePreventionMode"@);
    assert("type"@ != "goodTillDate"@);
    assert("type"@ != "recvWindow"@);
    assert("positionSide"@ != "timeInForce"@);
    assert("positionSide"@ != "quantity"@);
    assert("positionSide"@ != "reduceOnly"@);
    assert("positionSide"@ != "price"@);
    assert("positionSide"@ != "newClientOrderId"@);
    assert("positionSide"@ != "stopPrice"@);
    assert("positionSide"@ != "closePosition"@);
    assert("positionSide"@ != "activationPrice"@);
    assert("positionSide"@ != "callbackRate"@);
    assert("positionSide"@ != "workingType"@);
    assert("positionSide"@ != "priceProtect"@);
    assert("positionSide"@ != "newOrderRespType"@);
    assert("positionSide"@ != "priceMatch"@);
    assert("positionSide"@ != "selfTradePreventionMode"@);
    assert("positionSide"@ != "goodTillDate"@);
    assert("positionSide"@ != "recvWindow"@);
    assert("timeInForce"@ != "quantity"@);
    assert("timeInForce"@ != "reduceOnly"@);
    assert("timeInForce"@ != "price"@);
    assert("timeInForce"@ != "newClientOrderId"@);
    assert("timeInForce"@ != "stopPrice"@);
    assert("timeInForce"@ != "closePosition"@);
    assert("timeInForce"@ != "activationPrice"@);
    assert("timeInForce"@ != "callbackRate"@);
    assert("timeInForce"@ != "workingType"@);
    assert("timeInForce"@ != "priceProtect"@);
    assert("timeInForce"@ != "newOrderRespType"@);
    assert("timeInForce"@ != "priceMatch"@);
    assert("timeInForce"@ != "selfTradePreventionMode"@);
    assert("timeInForce"@ != "goodTillDate"@);
    assert("timeInForce"@ != "recvWindow"@);
    assert("quantity"@ != "reduceOnly"@);
    assert("quantity"@ != "price"@);
    assert("quantity"@ != "newClientOrderId"@);
    assert("quantity"@ != "stopPrice"@);
    assert("quantity"@ != "closePosition"@);
    assert("quantity"@ != "activationPrice"@);
    assert("quantity"@ != "callbackRate"@);
    assert("quantity"@ != "workingType"@);
    assert("quantity"@ != "priceProtect"@);
    assert("quantity"@ != "newOrderRespType"@);
    assert("quantity"@ != "priceMatch"@);
    assert("quantity"@ != "selfTradePreventionMode"@);
    assert("quantity"@ != "goodTillDate"@);
    assert("quantity"@ != "recvWindow"@);
    assert("reduceOnly"@ != "price"@);
    assert("reduceOnly"@ != "newClientOrderId"@);
    assert("reduceOnly"@ != "stopPrice"@);
    assert("reduceOnly"@ != "closePosition"@);
    assert("reduceOnly"@ != "activationPrice"@);
    assert("reduceOnly"@ != "callbackRate"@);
    assert("reduceOnly"@ != "workingType"@);
    assert("reduceOnly"@ != "priceProtect"@);
    assert("reduceOnly"@ != "newOrderRespType"@);
    assert("reduceOnly"@ != "priceMatch"@);
    assert("reduceOnly"@ != "selfTradePreventionMode"@);
    assert("reduceOnly"@ != "goodTillDate"@);
    assert("reduceOnly"@ != "recvWindow"@);
    assert("price"@ != "newClientOrderId"@);
    assert("price"@ != "stopPrice"@);
    assert("price"@ != "closePosition"@);
    assert("price"@ != "activationPrice"@);
    assert("price"@ != "callbackRate"@);
    assert("price"@ != "workingType"@);
    assert("price"@ != "priceProtect"@);
    assert("price"@ != "newOrderRespType"@);
    assert("price"@ != "priceMatch"@);
    assert("price"@ != "selfTradePreventionMode"@);
    assert("price"@ != "goodTillDate"@);
    assert("price"@ != "recvWindow"@);
    assert("newClientOrderId"@ != "stopPrice"@);
    assert("newClientOrderId"@ != "closePosition"@);
    assert("newClientOrderId"@ != "activationPrice"@);
    assert("newClientOrderId"@ != "callbackRate"@);
    assert("newClientOrderId"@ != "workingType"@);
    assert("newClientOrderId"@ != "priceProtect"@);
    assert("newClientOrderId"@ != "newOrderRespType"@);
    assert("newClientOrderId"@ != "priceMatch"@);
    assert("newClientOrderId"@ != "selfTradePreventionMode"@);
    assert("newClientOrderId"@ != "goodTillDate"@);
    assert("newClientOrderId"@ != "recvWindow"@);
    assert("stopPrice"@ != "closePosition"@);
    assert("stopPrice"@ != "activationPrice"@);
    assert("stopPrice"@ != "callbackRate"@);
    assert("stopPrice"@ != "workingType"@);
    assert("stopPrice"@ != "priceProtect"@);
    assert("stopPrice"@ != "newOrderRespType"@);
    assert("stopPrice"@ != "priceMatch"@);
    assert("stopPrice"@ != "selfTradePreventionMode"@);
    assert("stopPrice"@ != "goodTillDate"@);
    assert("stopPrice"@ != "recvWindow"@);
    assert("closePosition"@ != "activationPrice"@);
    assert("closePosition"@ != "callbackRate"@);
    assert("closePosition"@ != "workingType"@);
    assert("closePosition"@ != "priceProtect"@);
    assert("closePosition"@ != "newOrderRespType"@);
    assert("closePosition"@ != "priceMatch"@);
    assert("closePosition"@ != "selfTradePreventionMode"@);
    assert("closePosition"@ != "goodTillDate"@);
    assert("closePosition"@ != "recvWindow"@);
    assert("activationPrice"@ != "callbackRate"@);
    assert("activationPrice"@ != "workingType"@);
    assert("activationPrice"@ != "priceProtect"@);
    assert("activationPrice"@ != "newOrderRespType"@);
    assert("activationPrice"@ != "priceMatch"@);
    assert("activationPrice"@ != "selfTradePreventionMode"@);
    assert("activationPrice"@ != "goodTillDate"@);
    assert("activationPrice"@ != "recvWindow"@);
    assert("callbackRate"@ != "workingType"@);
    assert("callbackRate"@ != "priceProtect"@);
    assert("callbackRate"@ != "newOrderRespType"@);
    assert("callbackRate"@ != "priceMatch"@);
    assert("callbackRate"@ != "selfTradePreventionMode"@);
    assert("callbackRate"@ != "goodTillDate"@);
    assert("callbackRate"@ != "recvWindow"@);
    assert("workingType"@ != "priceProtect"@);
    assert("workingType"@ != "newOrderRespType"@);
    assert("workingType"@ != "priceMatch"@);
    assert("workingType"@ != "selfTradePreventionMode"@);
    assert("workingType"@ != "goodTillDate"@);
    assert("workingType"@ != "recvWindow"@);
    assert("priceProtect"@ != "newOrderRespType"@);
    assert("priceProtect"@ != "priceMatch"@);
    assert("priceProtect"@ != "selfTradePreventionMode"@);
    assert("priceProtect"@ != "goodTillDate"@);
    assert("priceProtect"@ != "recvWindow"@);
    assert("newOrderRespType"@ != "priceMatch"@);
    assert("newOrderRespType"@ != "selfTradePreventionMode"@);
    assert("newOrderRespType"@ != "goodTillDate"@);
    assert("newOrderRespType"@ != "recvWindow"@);
    assert("priceMatch"@ != "selfTradePreventionMode"@);
    assert("priceMatch"@ != "goodTillDate"@);
    assert("priceMatch"@ != "recvWindow"@);
    assert("selfTradePreventionMode"@ != "goodTillDate"@);
    assert("selfTradePreventionMode"@ != "recvWindow"@);
    assert("goodTillDate"@ != "recvWindow"@);
}

/// The query parameters of `new_order`, built one by one.
#[verifier::rlimit(40)]
fn new_order_params(params: NewOrderParams) -> (query: QueryParams)
    ensures
        query@ == new_order_query(params),
{
    let ghost p = params;
    let NewOrderParams { symbol, side, order_type, position_side, time_in_force, quantity, reduce_only, price, new_client_order_id, stop_price, close_position, activation_price, callback_rate, working_type, price_protect, new_order_resp_type, price_match, self_trade_prevention_mode, good_till_date, recv_window } = params;
    let mut query = QueryParams::new();
    query.insert("symbol".to_owned(), QueryValue::Text(symbol));
    assert(query@ == QueryMap::empty()
        .put("symbol"@, QueryValueView::Text(p.symbol@)));
    query.insert("side".to_owned(), QueryValue::Text(side.as_str().to_owned()));
    assert(query@ == QueryMap::empty()
        .put("symbol"@, QueryValueView::Text(p.symbol@))
        .put("side"@, QueryValueView::Text(p.side.wire_name())));
    query.insert("type".to_owned(), QueryValue::Text(order_type));
    assert(query@ == QueryMap::empty()
        .put("symbol"@, QueryValueView::Text(p.symbol@))
        .put("side"@, QueryValueView::Text(p.side.wire_name()))
        .put("type"@, QueryValueView::Text(p.order_type@)));
    if let Some(v) = position_side {
        query.insert("positionSide".to_owned(), QueryValue::Text(v.as_str().to_owned()));
    }
    assert(query@ == QueryMap::empty()
        .put("symbol"@, QueryValueView::Text(p.symbol@))
        .put("side"@, QueryValueView::Text(p.side.wire_name()))
        .put("type"@, QueryValueView::Text(p.order_type@))
        .put_opt("positionSide"@, NewOrderPositionSideEnum::opt_wire(p.position_side)));
    if let Some(v) = time_in_force {
        query.insert("timeInForce".to_owned(), QueryValue::Text(v.as_str().to_owned()));
    }
    assert(query@ == QueryMap::empty()
        .put("symbol"@, QueryValueView::Text(p.symbol@))
        .put("side"@, QueryValueView::Text(p.side.wire_name()))
        .put("type"@, QueryValueView::Text(p.order_type@))
        .put_opt("positionSide"@, NewOrderPositionSideEnum::opt_wire(p.position_side))
        .put_opt("timeInForce"@, NewOrderTimeInForceEnum::opt_wire(p.time_in_force)));
    if let Some(v) = quantity {
        query.insert("quantity".to_owned(), QueryValue::DecimalNumber(v));
    }
    assert(query@ == QueryMap::empty()
        .put("symbol"@, QueryValueView::Text(p.symbol@))
        .put("side"@, QueryValueView::Text(p.side.wire_name()))
        .put("type"@, QueryValueView::Text(p.order_type@))
        .put_opt("positionSide"@, NewOrderPositionSideEnum::opt_wire(p.position_side))
        .put_opt("timeInForce"@, NewOrderTimeInForceEnum::opt_wire(p.time_in_force))
        .put_opt("quantity"@, opt_decimal(p.quantity)));
    if let Some(v) = reduce_only {
        query.insert("reduceOnly".to_owned(), QueryValue::Text(v));
    }
    assert(query@ == QueryMap::empty()
        .put("symbol"@, QueryValueView::Text(p.symbol@))
        .put("side"@, QueryValueView::Text(p.side.wire_name()))
        .put("type"@, QueryValueView::Text(p.order_type@))
        .put_opt("positionSide"@, NewOrderPositionSideEnum::opt_wire(p.position_side))
        .put_opt("timeInForce"@, NewOrderTimeInForceEnum::opt_wire(p.time_in_force))
        .put_opt("quantity"@, opt_decimal(p.quantity))
        .put_opt("reduceOnly"@, opt_text(p.reduce_only)));
    if let Some(v) = price {
        query.insert("price".to_owned(), QueryValue::DecimalNumber(v));
    }
    assert(query@ == QueryMap::empty()
        .put("symbol"@, QueryValueView::Text(p.symbol@))
        .put("side"@, QueryValueView::Text(p.side.wire_name()))
        .put("type"@, QueryValueView::Text(p.order_type@))
        .put_opt("positionSide"@, NewOrderPositionSideEnum::opt_wire(p.position_side))
        .put_opt("timeInForce"@, NewOrderTimeInForceEnum::opt_wire(p.time_in_force))
        .put_opt("quantity"@, opt_decimal(p.quantity))
        .put_opt("reduceOnly"@, opt_text(p.reduce_only))
        .put_opt("price"@, opt_decimal(p.price)));
    if let Some(v) = new_client_order_id {
        query.insert("newClientOrderId".to_owned(), QueryValue::Text(v));
    }
    assert(query@ == QueryMap::empty()
        .put("symbol"@, QueryValueView::Text(p.symbol@))
        .put("side"@, QueryValueView::Text(p.side.wire_name()))
        .put("type"@, QueryValueView::Text(p.order_type@))
        .put_opt("positionSide"@, NewOrderPositionSideEnum::opt_wire(p.position_side))
        .put_opt("timeInForce"@, NewOrderTimeInForceEnum::opt_wire(p.time_in_force))
        .put_opt("quantity"@, opt_decimal(p.quantity))
        .put_opt("reduceOnly"@, opt_text(p.reduce_only))
        .put_opt("price"@, opt_decimal(p.price))
        .put_opt("newClientOrderId"@, opt_text(p.new_client_order_id)));
    if let Some(v) = stop_price {
        query.insert("stopPrice".to_owned(), QueryValue::DecimalNumber(v));
    }
    assert(query@ == QueryMap::empty()
        .put("symbol"@, QueryValueView::Text(p.symbol@))
        .put("side"@, QueryValueView::Text(p.side.wire_name()))
        .put("type"@, QueryValueView::Text(p.order_type@))
        .put_opt("positionSide"@, NewOrderPositionSideEnum::opt_wire(p.position_side))
        .put_opt("timeInForce"@, NewOrderTimeInForceEnum::opt_wire(p.time_in_force))
        .put_opt("quantity"@, opt_decimal(p.quantity))
        .put_opt("reduceOnly"@, opt_text(p.reduce_only))
        .put_opt("price"@, opt_decimal(p.price))
        .put_opt("newClientOrderId"@, opt_text(p.new_client_order_id))
        .put_opt("stopPrice"@, opt_decimal(p.stop_price)));
    if let Some(v) = close_position {
        query.insert("closePosition".to_owned(), QueryValue::Text(v));
    }
    assert(query@ == QueryMap::empty()
        .put("symbol"@, QueryValueView::Text(p.symbol@))
        .put("side"@, QueryValueView::Text(p.side.wire_name()))
        .put("type"@, QueryValueView::Text(p.order_type@))
        .put_opt("positionSide"@, NewOrderPositionSideEnum::opt_wire(p.position_side))
        .put_opt("timeInForce"@, NewOrderTimeInForceEnum::opt_wire(p.time_in_force))
        .put_opt("quantity"@, opt_decimal(p.quantity))
        .put_opt("reduceOnly"@, opt_text(p.reduce_only))
        .put_opt("price"@, opt_decimal(p.price))
        .put_opt("newClientOrderId"@, opt_text(p.new_client_order_id))
        .put_opt("stopPrice"@, opt_decimal(p.stop_price))
        .put_opt("closePosition"@, opt_text(p.close_position)));
    if let Some(v) = activation_price {
        query.insert("activationPrice".to_owned(), QueryValue::DecimalNumber(v));
    }
    assert(query@ == QueryMap::empty()
        .put("symbol"@, QueryValueView::Text(p.symbol@))
        .put("side"@, QueryValueView::Text(p.side.wire_name()))
        .put("type"@, QueryValueView::Text(p.order_type@))
        .put_opt("positionSide"@, NewOrderPositionSideEnum::opt_wire(p.position_side))
        .put_opt("timeInForce"@, NewOrderTimeInForceEnum::opt_wire(p.time_in_force))
        .put_opt("quantity"@, opt_decimal(p.quantity))
        .put_opt("reduceOnly"@, opt_text(p.reduce_only))
        .put_opt("price"@, opt_decimal(p.price))
        .put_opt("newClientOrderId"@, opt_text(p.new_client_order_id))
        .put_opt("stopPrice"@, opt_decimal(p.stop_price))
        .put_opt("closePosition"@, opt_text(p.close_position))
        .put_opt("activationPrice"@, opt_decimal(p.activation_price)));
    if let Some(v) = callback_rate {
        query.insert("callbackRate".to_owned(), QueryValue::DecimalNumber(v));
    }
    assert(query@ == QueryMap::empty()
        .put("symbol"@, QueryValueView::Text(p.symbol@))
        .put("side"@, QueryValueView::Text(p.side.wire_name()))
        .put("type"@, QueryValueView::Text(p.order_type@))
        .put_opt("positionSide"@, NewOrderPositionSideEnum::opt_wire(p.position_side))
        .put_opt("timeInForce"@, NewOrderTimeInForceEnum::opt_wire(p.time_in_force))
        .put_opt("quantity"@, opt_decimal(p.quantity))
        .put_opt("reduceOnly"@, opt_text(p.reduce_only))
        .put_opt("price"@, opt_decimal(p.price))
        .put_opt("newClientOrderId"@, opt_text(p.new_client_order_id))
        .put_opt("stopPrice"@, opt_decimal(p.stop_price))
        .put_opt("closePosition"@, opt_text(p.close_position))
        .put_opt("activationPrice"@, opt_decimal(p.activation_price))
        .put_opt("callbackRate"@, opt_decimal(p.callback_rate)));
    if let Some(v) = working_type {
        query.insert("workingType".to_owned(), QueryValue::Text(v.as_str().to_owned()));
    }
    assert(query@ == QueryMap::empty()
        .put("symbol"@, QueryValueView::Text(p.symbol@))
        .put("side"@, QueryValueView::Text(p.side.wire_name()))
        .put("type"@, QueryValueView::Text(p.order_type@))
        .put_opt("positionSide"@, NewOrderPositionSideEnum::opt_wire(p.position_side))
        .put_opt("timeInForce"@, NewOrderTimeInForceEnum::opt_wire(p.time_in_force))
        .put_opt("quantity"@, opt_decimal(p.quantity))
        .put_opt("reduceOnly"@, opt_text(p.reduce_only))
        .put_opt("price"@, opt_decimal(p.price))
        .put_opt("newClientOrderId"@, opt_text(p.new_client_order_id))
        .put_opt("stopPrice"@, opt_decimal(p.stop_price))
        .put_opt("closePosition"@, opt_text(p.close_position))
        .put_opt("activationPrice"@, opt_decimal(p.activation_price))
        .put_opt("callbackRate"@, opt_decimal(p.callback_rate))
        .put_opt("workingType"@, NewOrderWorkingTypeEnum::opt_wire(p.working_type)));
    if let Some(v) = price_protect {
        query.insert("priceProtect".to_owned(), QueryValue::Text(v));
    }
    assert(query@ == QueryMap::empty()
        .put("symbol"@, QueryValueView::Text(p.symbol@))
        .put("side"@, QueryValueView::Text(p.side.wire_name()))
        .put("type"@, QueryValueView::Text(p.order_type@))
        .put_opt("positionSide"@, NewOrderPositionSideEnum::opt_wire(p.position_side))
        .put_opt("timeInForce"@, NewOrderTimeInForceEnum::opt_wire(p.time_in_force))
        .put_opt("quantity"@, opt_decimal(p.quantity))
        .put_opt("reduceOnly"@, opt_text(p.reduce_only))
        .put_opt("price"@, opt_decimal(p.price))
        .put_opt("newClientOrderId"@, opt_text(p.new_client_order_id))
        .put_opt("stopPrice"@, opt_decimal(p.stop_price))
        .put_opt("closePosition"@, opt_text(p.close_position))
        .put_opt("activationPrice"@, opt_decimal(p.activation_price))
        .put_opt("callbackRate"@, opt_decimal(p.callback_rate))
        .put_opt("workingType"@, NewOrderWorkingTypeEnum::opt_wire(p.working_type))
        .put_opt("priceProtect"@, opt_text(p.price_protect)));
    if let Some(v) = new_order_resp_type {
        query.insert("newOrderRespType".to_owned(), QueryValue::Text(v.as_str().to_owned()));
    }
    assert(query@ == QueryMap::empty()
        .put("symbol"@, QueryValueView::Text(p.symbol@))
        .put("side"@, QueryValueView::Text(p.side.wire_name()))
        .put("type"@, QueryValueView::Text(p.order_type@))
        .put_opt("positionSide"@, NewOrderPositionSideEnum::opt_wire(p.position_side))
        .put_opt("timeInForce"@, NewOrderTimeInForceEnum::opt_wire(p.time_in_force))
        .put_opt("quantity"@, opt_decimal(p.quantity))
        .put_opt("reduceOnly"@, opt_text(p.reduce_only))
        .put_opt("price"@, opt_decimal(p.price))
        .put_opt("newClientOrderId"@, opt_text(p.new_client_order_id))
        .put_opt("stopPrice"@, opt_decimal(p.stop_price))
        .put_opt("closePosition"@, opt_text(p.close_position))
        .put_opt("activationPrice"@, opt_decimal(p.activation_price))
        .put_opt("callbackRate"@, opt_decimal(p.callback_rate))
        .put_opt("workingType"@, NewOrderWorkingTypeEnum::opt_wire(p.working_type))
        .put_opt("priceProtect"@, opt_text(p.price_protect))
        .put_opt("newOrderRespType"@, NewOrderNewOrderRespTypeEnum::opt_wire(p.new_order_resp_type)));
    if let Some(v) = price_match {
        query.insert("priceMatch".to_owned(), QueryValue::Text(v.as_str().to_owned()));
    }
    assert(query@ == QueryMap::empty()
        .put("symbol"@, QueryValueView::Text(p.symbol@))
        .put("side"@, QueryValueView::Text(p.side.wire_name()))
        .put("type"@, QueryValueView::Text(p.order_type@))
        .put_opt("positionSide"@, NewOrderPositionSideEnum::opt_wire(p.position_side))
        .put_opt("timeInForce"@, NewOrderTimeInForceEnum::opt_wire(p.time_in_force))
        .put_opt("quantity"@, opt_decimal(p.quantity))
        .put_opt("reduceOnly"@, opt_text(p.reduce_only))
        .put_opt("price"@, opt_decimal(p.price))
        .put_opt("newClientOrderId"@, opt_text(p.new_client_order_id))
        .put_opt("stopPrice"@, opt_decimal(p.stop_price))
        .put_opt("closePosition"@, opt_text(p.close_position))
        .put_opt("activationPrice"@, opt_decimal(p.activation_price))
        .put_opt("callbackRate"@, opt_decimal(p.callback_rate))
        .put_opt("workingType"@, NewOrderWorkingTypeEnum::opt_wire(p.working_type))
        .put_opt("priceProtect"@, opt_text(p.price_protect))
        .put_opt("newOrderRespType"@, NewOrderNewOrderRespTypeEnum::opt_wire(p.new_order_resp_type))
        .put_opt("priceMatch"@, NewOrderPriceMatchEnum::opt_wire(p.price_match)));
    if let Some(v) = self_trade_prevention_mode {
        query.insert("selfTradePreventionMode".to_owned(), QueryValue::Text(v.as_str().to_owned()));
    }
    assert(query@ == QueryMap::empty()
        .put("symbol"@, QueryValueView::Text(p.symbol@))
        .put("side"@, QueryValueView::Text(p.side.wire_name()))
        .put("type"@, QueryValueView::Text(p.order_type@))
        .put_opt("positionSide"@, NewOrderPositionSideEnum::opt_wire(p.position_side))
        .put_opt("timeInForce"@, NewOrderTimeInForceEnum::opt_wire(p.time_in_force))
        .put_opt("quantity"@, opt_decimal(p.quantity))
        .put_opt("reduceOnly"@, opt_text(p.reduce_only))
        .put_opt("price"@, opt_decimal(p.price))
        .put_opt("newClientOrderId"@, opt_text(p.new_client_order_id))
        .put_opt("stopPrice"@, opt_decimal(p.stop_price))
        .put_opt("closePosition"@, opt_text(p.close_position))
        .put_opt("activationPrice"@, opt_decimal(p.activation_price))
        .put_opt("callbackRate"@, opt_decimal(p.callback_rate))
        .put_opt("workingType"@, NewOrderWorkingTypeEnum::opt_wire(p.working_type))
        .put_opt("priceProtect"@, opt_text(p.price_protect))
        .put_opt("newOrderRespType"@, NewOrderNewOrderRespTypeEnum::opt_wire(p.new_order_resp_type))
        .put_opt("priceMatch"@, NewOrderPriceMatchEnum::opt_wire(p.price_match))
        .put_opt("selfTradePreventionMode"@, NewOrderSelfTradePreventionModeEnum::opt_wire(p.self_trade_prevention_mode)));
    if let Some(v) = good_till_date {
        query.insert("goodTillDate".to_owned(), QueryValue::Integer(v));
    }
    assert(query@ == QueryMap::empty()
        .put("symbol"@, QueryValueView::Text(p.symbol@))
        .put("side"@, QueryValueView::Text(p.side.wire_name()))
        .put("type"@, QueryValueView::Text(p.order_type@))
        .put_opt("positionSide"@, NewOrderPositionSideEnum::opt_wire(p.position_side))
        .put_opt("timeInForce"@, NewOrderTimeInForceEnum::opt_wire(p.time_in_force))
        .put_opt("quantity"@, opt_decimal(p.quantity))
        .put_opt("reduceOnly"@, opt_text(p.reduce_only))
        .put_opt("price"@, opt_decimal(p.price))
        .put_opt("newClientOrderId"@, opt_text(p.new_client_order_id))
        .put_opt("stopPrice"@, opt_decimal(p.stop_price))
        .put_opt("closePosition"@, opt_text(p.close_position))
        .put_opt("activationPrice"@, opt_decimal(p.activation_price))
        .put_opt("callbackRate"@, opt_decimal(p.callback_rate))
        .put_opt("workingType"@, NewOrderWorkingTypeEnum::opt_wire(p.working_type))
        .put_opt("priceProtect"@, opt_text(p.price_protect))
        .put_opt("newOrderRespType"@, NewOrderNewOrderRespTypeEnum::opt_wire(p.new_order_resp_type))
        .put_opt("priceMatch"@, NewOrderPriceMatchEnum::opt_wire(p.price_match))
        .put_opt("selfTradePreventionMode"@, NewOrderSelfTradePreventionModeEnum::opt_wire(p.self_trade_prevention_mode))
        .put_opt("goodTillDate"@, opt_integer(p.good_till_date)));
    if let Some(v) = recv_window {
        query.insert("recvWindow".to_owned(), QueryValue::Integer(v));
    }
    assert(query@ == QueryMap::empty()
        .put("symbol"@, QueryValueView::Text(p.symbol@))
        .put("side"@, QueryValueView::Text(p.side.wire_name()))
        .put("type"@, QueryValueView::Text(p.order_type@))
        .put_opt("positionSide"@, NewOrderPositionSideEnum::opt_wire(p.position_side))
        .put_opt("timeInForce"@, NewOrderTimeInForceEnum::opt_wire(p.time_in_force))
        .put_opt("quantity"@, opt_decimal(p.quantity))
        .put_opt("reduceOnly"@, opt_text(p.reduce_only))
        .put_opt("price"@, opt_decimal(p.price))
        .put_opt("newClientOrderId"@, opt_text(p.new_client_order_id))
        .put_opt("stopPrice"@, opt_decimal(p.stop_price))
        .put_opt("closePosition"@, opt_text(p.close_position))
        .put_opt("activationPrice"@, opt_decimal(p.activation_price))
        .put_opt("callbackRate"@, opt_decimal(p.callback_rate))
        .put_opt("workingType"@, NewOrderWorkingTypeEnum::opt_wire(p.working_type))
        .put_opt("priceProtect"@, opt_text(p.price_protect))
        .put_opt("newOrderRespType"@, NewOrderNewOrderRespTypeEnum::opt_wire(p.new_order_resp_type))
        .put_opt("priceMatch"@, NewOrderPriceMatchEnum::opt_wire(p.price_match))
        .put_opt("selfTradePreventionMode"@, NewOrderSelfTradePreventionModeEnum::opt_wire(p.self_trade_prevention_mode))
        .put_opt("goodTillDate"@, opt_integer(p.good_till_date))
        .put_opt("recvWindow"@, opt_integer(p.recv_window)));
    query
}

/// The request of the `new_order` operation: POST `/fapi/v1/order`, signed.
pub fn new_order(params: NewOrderParams) -> (req: RestRequest)
    ensures
        req@ == (RestRequestView {
            path: "/fapi/v1/order"@,
            method: HttpMethod::Post,
            query: new_order_query(params),
            uses_time_unit: HAS_TIME_UNIT,
            signed: true,
        }),
        req@.query.dom().contains("symbol"@),
        req@.query["symbol"@] == QueryValueView::Text(params.symbol@),
        req@.query.dom().contains("side"@),
        req@.query["side"@] == QueryValueView::Text(params.side.wire_name()),
        req@.query.dom().contains("type"@),
        req@.query["type"@] == QueryValueView::Text(params.order_type@),
        req@.query.dom().contains("positionSide"@) == (params.position_side is Some),
        params.position_side is Some ==> req@.query["positionSide"@] == QueryValueView::Text(params.position_side->0.wire_name()),
        req@.query.dom().contains("timeInForce"@) == (params.time_in_force is Some),
        params.time_in_force is Some ==> req@.query["timeInForce"@] == QueryValueView::Text(params.time_in_force->0.wire_name()),
        req@.query.dom().contains("quantity"@) == (params.quantity is Some),
        params.quantity is Some ==> req@.query["quantity"@] == QueryValueView::DecimalNumber(params.quantity->0),
        req@.query.dom().contains("reduceOnly"@) == (params.reduce_only is Some),
        params.reduce_only is Some ==> req@.query["reduceOnly"@] == QueryValueView::Text(params.reduce_only->0@),
        req@.query.dom().contains("price"@) == (params.price is Some),
        params.price is Some ==> req@.query["price"@] == QueryValueView::DecimalNumber(params.price->0),
        req@.query.dom().contains("newClientOrderId"@) == (params.new_client_order_id is Some),
        params.new_client_order_id is Some ==> req@.query["newClientOrderId"@] == QueryValueView::Text(params.new_client_order_id->0@),
        req@.query.dom().contains("stopPrice"@) == (params.stop_price is Some),
        params.stop_price is Some ==> req@.query["stopPrice"@] == QueryValueView::DecimalNumber(params.stop_price->0),
        req@.query.dom().contains("closePosition"@) == (params.close_position is Some),
        params.close_position is Some ==> req@.query["closePosition"@] == QueryValueView::Text(params.close_position->0@),
        req@.query.dom().contains("activationPrice"@) == (params.activation_price is Some),
        params.activation_price is Some ==> req@.query["activationPrice"@] == QueryValueView::DecimalNumber(params.activation_price->0),
        req@.query.dom().contains("callbackRate"@) == (params.callback_rate is Some),
        params.callback_rate is Some ==> req@.query["callbackRate"@] == QueryValueView::DecimalNumber(params.callback_rate->0),
        req@.query.dom().contains("workingType"@) == (params.working_type is Some),
        params.working_type is Some ==> req@.query["workingType"@] == QueryValueView::Text(params.working_type->0.wire_name()),
        req@.query.dom().contains("priceProtect"@) == (params.price_protect is Some),
        params.price_protect is Some ==> req@.query["priceProtect"@] == QueryValueView::Text(params.price_protect->0@),
        req@.query.dom().contains("newOrderRespType"@) == (params.new_order_resp_type is Some),
        params.new_order_resp_type is Some ==> req@.query["newOrderRespType"@] == QueryValueView::Text(params.new_order_resp_type->0.wire_name()),
        req@.query.dom().contains("priceMatch"@) == (params.price_match is Some),
        params.price_match is Some ==> req@.query["priceMatch"@] == QueryValueView::Text(params.price_match->0.wire_name()),
        req@.query.dom().contains("selfTradePreventionMode"@) == (params.self_trade_prevention_mode is Some),
        params.self_trade_prevention_mode is Some ==> req@.query["selfTradePreventionMode"@] == QueryValueView::Text(params.self_trade_prevention_mode->0.wire_name()),
        req@.query.dom().contains("goodTillDate"@) == (params.good_till_date is Some),
        params.good_till_date is Some ==> req@.query["goodTillDate"@] == QueryValueView::Integer(params.good_till_date->0),
        req@.query.dom().contains("recvWindow"@) == (params.recv_window is Some),
        params.recv_window is Some ==> req@.query["recvWindow"@] == QueryValueView::Integer(params.recv_window->0),
        forall|k: Seq<char>| #[trigger] req@.query.dom().contains(k) ==> (k == "symbol"@ || k == "side"@ || k == "type"@ || k == "positionSide"@ || k == "timeInForce"@ || k == "quantity"@ || k == "reduceOnly"@ || k == "price"@ || k == "newClientOrderId"@ || k == "stopPrice"@ || k == "closePosition"@ || k == "activationPrice"@ || k == "callbackRate"@ || k == "workingType"@ || k == "priceProtect"@ || k == "newOrderRespType"@ || k == "priceMatch"@ || k == "selfTradePreventionMode"@ || k == "goodTillDate"@ || k == "recvWindow"@),
{
    proof {
        lemma_new_order_query(params);
    }
    let query = new_order_params(params);
    RestRequest {
        path: "/fapi/v1/order",
        method: HttpMethod::Post,
        query,
        uses_time_unit: HAS_TIME_UNIT,
        signed: true,
    }
}

/// The query parameters that `place_multiple_orders` sends for `p`.
pub open spec fn place_multiple_orders_query(p: PlaceMultipleOrdersParams) -> QueryMap {
    QueryMap::empty()
        .put("batchOrders"@, QueryValueView::JsonList(p.batch_orders@))
        .put_opt("recvWindow"@, opt_integer(p.recv_window))
}

/// What `place_multiple_orders` sends, parameter by parameter: each required parameter
/// under its name with the value given, each optional one exactly when it
/// is given, and no other parameter.
pub proof fn lemma_place_multiple_orders_query(p: PlaceMultipleOrdersParams)
    ensures
        place_multiple_orders_query(p).dom().contains("batchOrders"@),
        place_multiple_orders_query(p)["batchOrders"@] == QueryValueView::JsonList(p.batch_orders@),
        place_multiple_orders_query(p).dom().contains("recvWindow"@) == (p.recv_window is Some),
        p.recv_window is Some ==> place_multiple_orders_query(p)["recvWindow"@] == QueryValueView::Integer(p.recv_window->0),
        forall|k: Seq<char>| #[trigger] place_multiple_orders_query(p).dom().contains(k) ==> (k == "batchOrders"@ || k == "recvWindow"@),
{
    reveal_strlit("batchOrders");
    reveal_strlit("recvWindow");
    assert("batchOrders"@.len() == 11);
    assert("recvWindow"@.len() == 10);
    assert("batchOrders"@ != "recvWindow"@);
}

/// The request of the `place_multiple_orders` operation: POST `/fapi/v1/batchOrders`, signed.
pub fn place_multiple_orders(params: PlaceMultipleOrdersParams) -> (req: RestRequest)
    ensures
        req@ == (RestRequestView {
            path: "/fapi/v1/batchOrders"@,
            method: HttpMethod::Post,
            query: place_multiple_orders_query(params),
            uses_time_unit: HAS_TIME_UNIT,
            signed: true,
        }),
        req@.query.dom().contains("batchOrders"@),
        req@.query["batchOrders"@] == QueryValueView::JsonList(params.batch_orders@),
        req@.query.dom().contains("recvWindow"@) == (params.recv_window is Some),
        params.recv_window is Some ==> req@.query["recvWindow"@] == QueryValueView::Integer(params.recv_window->0),
        forall|k: Seq<char>| #[trigger] req@.query.dom().contains(k) ==> (k == "batchOrders"@ || k == "recvWindow"@),
{
    proof {
        lemma_place_multiple_orders_query(params);
    }
    let PlaceMultipleOrdersParams { batch_orders, recv_window } = params;
    let mut query = QueryParams::new();
    query.insert("batchOrders".to_owned(), QueryValue::JsonList(batch_orders));
    if let Some(v) = recv_window {
        query.insert("recvWindow".to_owned(), QueryValue::Integer(v));
    }
    RestRequest {
        path: "/fapi/v1/batchOrders",
        method: HttpMethod::Post,
        query,
        uses_time_unit: HAS_TIME_UNIT,
        signed: true,
    }
}

/// The query parameters that `position_adl_quantile_estimation` sends for `p`.
pub open spec fn position_adl_quantile_estimation_query(p: PositionAdlQuantileEstimationParams) -> QueryMap {
    QueryMap::empty()
        .put_opt("symbol"@, opt_text(p.symbol))
        .put_opt("recvWindow"@, opt_integer(p.recv_window))
}

/// What `position_adl_quantile_estimation` sends, parameter by parameter: each required parameter
/// under its name with the value given, each optional one exactly when it
/// is given, and no other parameter.
pub proof fn lemma_position_adl_quantile_estimation_query(p: PositionAdlQuantileEstimationParams)
    ensures
        position_adl_quantile_estimation_query(p).dom().contains("symbol"@) == (p.symbol is Some),
        p.symbol is Some ==> position_adl_quantile_estimation_query(p)["symbol"@] == QueryValueView::Text(p.symbol->0@),
        position_adl_quantile_estimation_query(p).dom().contains("recvWindow"@) == (p.recv_window is Some),
        p.recv_window is Some ==> position_adl_quantile_estimation_query(p)["recvWindow"@] == QueryValueView::Integer(p.recv_window->0),
        forall|k: Seq<char>| #[trigger] position_adl_quantile_estimation_query(p).dom().contains(k) ==> (k == "symbol"@ || k == "recvWindow"@),
{
    reveal_strlit("symbol");
    reveal_strlit("recvWindow");
    assert("symbol"@.len() == 6);
    assert("recvWindow"@.len() == 10);
    assert("symbol"@ != "recvWindow"@);
}

/// The request of the `position_adl_quantile_estimation` operation: GET `/fapi/v1/adlQuantile`, signed.
pub fn position_adl_quantile_estimation(params: PositionAdlQuantileEstimationParams) -> (req: RestRequest)
    ensures
        req@ == (RestRequestView {
            path: "/fapi/v1/adlQuantile"@,
            method: HttpMethod::Get,
            query: position_adl_quantile_estimation_query(params),
            uses_time_unit: HAS_TIME_UNIT,
            signed: true,
        }),
        req@.query.dom().contains("symbol"@) == (params.symbol is Some),
        params.symbol is Some ==> req@.query["symbol"@] == QueryValueView::Text(params.symbol->0@),
        req@.query.dom().contains("recvWindow"@) == (params.recv_window is Some),
        params.recv_window is Some ==> req@.query["recvWindow"@] == QueryValueView::Integer(params.recv_window->0),
        forall|k: Seq<char>| #[trigger] req@.query.dom().contains(k) ==> (k == "symbol"@ || k == "recvWindow"@),
{
    proof {
        lemma_position_adl_quantile_estimation_query(params);
    }
    let PositionAdlQuantileEstimationParams { symbol, recv_window } = params;
    let mut query = QueryParams::new();
    if let Some(v) = symbol {
        query.insert("symbol".to_owned(), QueryValue::Text(v));
    }
    if let Some(v) = recv_window {
        query.insert("recvWindow".to_owned(), QueryValue::Integer(v));
    }
    RestRequest {
        path: "/fapi/v1/adlQuantile",
        method: HttpMethod::Get,
        query,
        uses_time_unit: HAS_TIME_UNIT,
        signed: true,
    }
}

/// The query parameters that `position_information_v2` sends for `p`.
pub open spec fn position_information_v2_query(p: PositionInformationV2Params) -> QueryMap {
    QueryMap::empty()
        .put_opt("symbol"@, opt_text(p.symbol))
        .put_opt("recvWindow"@, opt_integer(p.recv_window))
}

/// What `position_information_v2` sends, parameter by parameter: each required parameter
/// under its name with the value given, each optional one exactly when it
/// is given, and no other parameter.
pub proof fn lemma_position_information_v2_query(p: PositionInformationV2Params)
    ensures
        position_information_v2_query(p).dom().contains("symbol"@) == (p.symbol is Some),
        p.symbol is Some ==> position_information_v2_query(p)["symbol"@] == QueryValueView::Text(p.symbol->0@),
        position_information_v2_query(p).dom().contains("recvWindow"@) == (p.recv_window is Some),
        p.recv_window is Some ==> position_information_v2_query(p)["recvWindow"@] == QueryValueView::Integer(p.recv_window->0),
        forall|k: Seq<char>| #[trigger] position_information_v2_query(p).dom().contains(k) ==> (k == "symbol"@ || k == "recvWindow"@),
{
    reveal_strlit("symbol");
    reveal_strlit("recvWindow");
    assert("symbol"@.len() == 6);
    assert("recvWindow"@.len() == 10);
    assert("symbol"@ != "recvWindow"@);
}

/// The request of the `position_information_v2` operation: GET `/fapi/v2/positionRisk`, signed.
pub fn position_information_v2(params: PositionInformationV2Params) -> (req: RestRequest)
    ensures
        req@ == (RestRequestView {
            path: "/fapi/v2/positionRisk"@,
            method: HttpMethod::Get,
            query: position_information_v2_query(params),
            uses_time_unit: HAS_TIME_UNIT,
            signed: true,
        }),
        req@.query.dom().contains("symbol"@) == (params.symbol is Some),
        params.symbol is Some ==> req@.query["symbol"@] == QueryValueView::Text(params.symbol->0@),
        req@.query.dom().contains("recvWindow"@) == (params.recv_window is Some),
        params.recv_window is Some ==> req@.query["recvWindow"@] == QueryValueView::Integer(params.recv_window->0),
        forall|k: Seq<char>| #[trigger] req@.query.dom().contains(k) ==> (k == "symbol"@ || k == "recvWindow"@),
{
    proof {
        lemma_position_information_v2_query(params);
    }
    let PositionInformationV2Params { symbol, recv_window } = params;
    let mut query = QueryParams::new();
    if let Some(v) = symbol {
        query.insert("symbol".to_owned(), QueryValue::Text(v));
    }
    if let Some(v) = recv_window {
        query.insert("recvWindow".to_owned(), QueryValue::Integer(v));
    }
    RestRequest {
        path: "/fapi/v2/positionRisk",
        method: HttpMethod::Get,
        query,
        uses_time_unit: HAS_TIME_UNIT,
        signed: true,
    }
}

/// The query parameters that `position_information_v3` sends for `p`.
pub open spec fn position_information_v3_query(p: PositionInformationV3Params) -> QueryMap {
    QueryMap::empty()
        .put_opt("symbol"@, opt_text(p.symbol))
        .put_opt("recvWindow"@, opt_integer(p.recv_window))
}

/// What `position_information_v3` sends, parameter by parameter: each required parameter
/// under its name with the value given, each optional one exactly when it
/// is given, and no other parameter.
pub proof fn lemma_position_information_v3_query(p: PositionInformationV3Params)
    ensures
        position_information_v3_query(p).dom().contains("symbol"@) == (p.symbol is Some),
        p.symbol is Some ==> position_information_v3_query(p)["symbol"@] == QueryValueView::Text(p.symbol->0@),
        position_information_v3_query(p).dom().contains("recvWindow"@) == (p.recv_window is Some),
        p.recv_window is Some ==> position_information_v3_query(p)["recvWindow"@] == QueryValueView::Integer(p.recv_window->0),
        forall|k: Seq<char>| #[trigger] position_information_v3_query(p).dom().contains(k) ==> (k == "symbol"@ || k == "recvWindow"@),
{
    reveal_strlit("symbol");
    reveal_strlit("recvWindow");
    assert("symbol"@.len() == 6);
    assert("recvWindow"@.len() == 10);
    assert("symbol"@ != "recvWindow"@);
}

/// The request of the `position_information_v3` operation: GET `/fapi/v3/positionRisk`, signed.
pub fn position_information_v3(params: PositionInformationV3Params) -> (req: RestRequest)
    ensures
        req@ == (RestRequestView {
            path: "/fapi/v3/positionRisk"@,
            method: HttpMethod::Get,
            query: position_information_v3_query(params),
            uses_time_unit: HAS_TIME_UNIT,
            signed: true,
        }),
        req@.query.dom().contains("symbol"@) == (params.symbol is Some),
        params.symbol is Some ==> req@.query["symbol"@] == QueryValueView::Text(params.symbol->0@),
        req@.query.dom().contains("recvWindow"@) == (params.recv_window is Some),
        params.recv_window is Some ==> req@.query["recvWindow"@] == QueryValueView::Integer(params.recv_window->0),
        forall|k: Seq<char>| #[trigger] req@.query.dom().contains(k) ==> (k == "symbol"@ || k == "recvWindow"@),
{
    proof {
        lemma_position_information_v3_query(params);
    }
    let PositionInformationV3Params { symbol, recv_window } = params;
    let mut query = QueryParams::new();
    if let Some(v) = symbol {
        query.insert("symbol".to_owned(), QueryValue::Text(v));
    }
    if let Some(v) = recv_window {
        query.insert("recvWindow".to_owned(), QueryValue::Integer(v));
    }
    RestRequest {
        path: "/fapi/v3/positionRisk",
        method: HttpMethod::Get,
        query,
        uses_time_unit: HAS_TIME_UNIT,
        signed: true,
    }
}

/// The query parameters that `query_current_open_order` sends for `p`.
pub open spec fn query_current_open_order_query(p: QueryCurrentOpenOrderParams) -> QueryMap {
    QueryMap::empty()
        .put("symbol"@, QueryValueView::Text(p.symbol@))
        .put_opt("orderId"@, opt_integer(p.order_id))
        .put_opt("origClientOrderId"@, opt_text(p.orig_client_order_id))
        .put_opt("recvWindow"@, opt_integer(p.recv_window))
}

/// What `query_current_open_order` sends, parameter by parameter: each required parameter
/// under its name with the value given, each optional one exactly when it
/// is given, and no other parameter.
pub proof fn lemma_query_current_open_order_query(p: QueryCurrentOpenOrderParams)
    ensures
        query_current_open_order_query(p).dom().contains("symbol"@),
        query_current_open_order_query(p)["symbol"@] == QueryValueView::Text(p.symbol@),
        query_current_open_order_query(p).dom().contains("orderId"@) == (p.order_id is Some),
        p.order_id is Some ==> query_current_open_order_query(p)["orderId"@] == QueryValueView::Integer(p.order_id->0),
        query_current_open_order_query(p).dom().contains("origClientOrderId"@) == (p.orig_client_order_id is Some),
        p.orig_client_order_id is Some ==> query_current_open_order_query(p)["origClientOrderId"@] == QueryValueView::Text(p.orig_client_order_id->0@),
        query_current_open_order_query(p).dom().contains("recvWindow"@) == (p.recv_window is Some),
        p.recv_window is Some ==> query_current_open_order_query(p)["recvWindow"@] == QueryValueView::Integer(p.recv_window->0),
        forall|k: Seq<char>| #[trigger] query_current_open_order_query(p).dom().contains(k) ==> (k == "symbol"@ || k == "orderId"@ || k == "origClientOrderId"@ || k == "recvWindow"@),
{
    reveal_strlit("symbol");
    reveal_strlit("orderId");
    reveal_strlit("origClientOrderId");
    reveal_strlit("recvWindow");
    assert("symbol"@.len() == 6);
    assert("orderId"@.len() == 7);
    assert("origClientOrderId"@.len() == 17);
    assert("recvWindow"@.len() == 10);
    assert("symbol"@ != "orderId"@);
    assert("symbol"@ != "origClientOrderId"@);
    assert("symbol"@ != "recvWindow"@);
    assert("orderId"@ != "origClientOrderId"@);
    assert("orderId"@ != "recvWindow"@);
    assert("origClientOrderId"@ != "recvWindow"@);
}

/// The request of the `query_current_open_order` operation: GET `/fapi/v1/openOrder`, signed.
pub fn query_current_open_order(params: QueryCurrentOpenOrderParams) -> (req: RestRequest)
    ensures
        req@ == (RestRequestView {
            path: "/fapi/v1/openOrder"@,
            method: HttpMethod::Get,
            query: query_current_open_order_query(params),
            uses_time_unit: HAS_TIME_UNIT,
            signed: true,
        }),
        req@.query.dom().contains("symbol"@),
        req@.query["symbol"@] == QueryValueView::Text(params.symbol@),
        req@.query.dom().contains("orderId"@) == (params.order_id is Some),
        params.order_id is Some ==> req@.query["orderId"@] == QueryValueView::Integer(params.order_id->0),
        req@.query.dom().contains("origClientOrderId"@) == (params.orig_client_order_id is Some),
        params.orig_client_order_id is Some ==> req@.query["origClientOrderId"@] == QueryValueView::Text(params.orig_client_order_id->0@),
        req@.query.dom().contains("recvWindow"@) == (params.recv_window is Some),
        params.recv_window is Some ==> req@.query["recvWindow"@] == QueryValueView::Integer(params.recv_window->0),
        forall|k: Seq<char>| #[trigger] req@.query.dom().contains(k) ==> (k == "symbol"@ || k == "orderId"@ || k == "origClientOrderId"@ || k == "recvWindow"@),
{
    proof {
        lemma_query_current_open_order_query(params);
    }
    let QueryCurrentOpenOrderParams { symbol, order_id, orig_client_order_id, recv_window } = params;
    let mut query = QueryParams::new();
    query.insert("symbol".to_owned(), QueryValue::Text(symbol));
    if let Some(v) = order_id {
        query.insert("orderId".to_owned(), QueryValue::Integer(v));
    }
    if let Some(v) = orig_client_order_id {
        query.insert("origClientOrderId".to_owned(), QueryValue::Text(v));
    }
    if let Some(v) = recv_window {
        query.insert("recvWindow".to_owned(), QueryValue::Integer(v));
    }
    RestRequest {
        path: "/fapi/v1/openOrder",
        method: HttpMethod::Get,
        query,
        uses_time_unit: HAS_TIME_UNIT,
        signed: true,
    }
}

/// The query parameters that `query_order` sends for `p`.
pub open spec fn query_order_query(p: QueryOrderParams) -> QueryMap {
    QueryMap::empty()
        .put("symbol"@, QueryValueView::Text(p.symbol@))
        .put_opt("orderId"@, opt_integer(p.order_id))
        .put_opt("origClientOrderId"@, opt_text(p.orig_client_order_id))
        .put_opt("recvWindow"@, opt_integer(p.recv_window))
}

/// What `query_order` sends, parameter by parameter: each required parameter
/// under its name with the value given, each optional one exactly when it
/// is given, and no other parameter.
pub proof fn lemma_query_order_query(p: QueryOrderParams)
    ensures
        query_order_query(p).dom().contains("symbol"@),
        query_order_query(p)["symbol"@] == QueryValueView::Text(p.symbol@),
        query_order_query(p).dom().contains("orderId"@) == (p.order_id is Some),
        p.order_id is Some ==> query_order_query(p)["orderId"@] == QueryValueView::Integer(p.order_id->0),
        query_order_query(p).dom().contains("origClientOrderId"@) == (p.orig_client_order_id is Some),
        p.orig_client_order_id is Some ==> query_order_query(p)["origClientOrderId"@] == QueryValueView::Text(p.orig_client_order_id->0@),
        query_order_query(p).dom().contains("recvWindow"@) == (p.recv_window is Some),
        p.recv_window is Some ==> query_order_query(p)["recvWindow"@] == QueryValueView::Integer(p.recv_window->0),
        forall|k: Seq<char>| #[trigger] query_order_query(p).dom().contains(k) ==> (k == "symbol"@ || k == "orderId"@ || k == "origClientOrderId"@ || k == "recvWindow"@),
{
    reveal_strlit("symbol");
    reveal_strlit("orderId");
    reveal_strlit("origClientOrderId");
    reveal_strlit("recvWindow");
    assert("symbol"@.len() == 6);
    assert("orderId"@.len() == 7);
    assert("origClientOrderId"@.len() == 17);
    assert("recvWindow"@.len() == 10);
    assert("symbol"@ != "orderId"@);
    assert("symbol"@ != "origClientOrderId"@);
    assert("symbol"@ != "recvWindow"@);
    assert("orderId"@ != "origClientOrderId"@);
    assert("orderId"@ != "recvWindow"@);
    assert("origClientOrderId"@ != "recvWindow"@);
}

/// The request of the `query_order` operation: GET `/fapi/v1/order`, signed.
pub fn query_order(params: QueryOrderParams) -> (req: RestRequest)
    ensures
        req@ == (RestRequestView {
            path: "/fapi/v1/order"@,
            method: HttpMethod::Get,
            query: query_order_query(params),
            uses_time_unit: HAS_TIME_UNIT,
            signed: true,
        }),
        req@.query.dom().contains("symbol"@),
        req@.query["symbol"@] == QueryValueView::Text(params.symbol@),
        req@.query.dom().contains("orderId"@) == (params.order_id is Some),
        params.order_id is Some ==> req@.query["orderId"@] == QueryValueView::Integer(params.order_id->0),
        req@.query.dom().contains("origClientOrderId"@) == (params.orig_client_order_id is Some),
        params.orig_client_order_id is Some ==> req@.query["origClientOrderId"@] == QueryValueView::Text(params.orig_client_order_id->0@),
        req@.query.dom().contains("recvWindow"@) == (params.recv_window is Some),
        params.recv_window is Some ==> req@.query["recvWindow"@] == QueryValueView::Integer(params.recv_window->0),
        forall|k: Seq<char>| #[trigger] req@.query.dom().contains(k) ==> (k == "symbol"@ || k == "orderId"@ || k == "origClientOrderId"@ || k == "recvWindow"@),
{
    proof {
        lemma_query_order_query(params);
    }
    let QueryOrderParams { symbol, order_id, orig_client_order_id, recv_window } = params;
    let mut query = QueryParams::new();
    query.insert("symbol".to_owned(), QueryValue::Text(symbol));
    if let Some(v) = order_id {
        query.insert("orderId".to_owned(), QueryValue::Integer(v));
    }
    if let Some(v) = orig_client_order_id {
        query.insert("origClientOrderId".to_owned(), QueryValue::Text(v));
    }
    if let Some(v) = recv_window {
        query.insert("recvWindow".to_owned(), QueryValue::Integer(v));
    }
    RestRequest {
        path: "/fapi/v1/order",
        method: HttpMethod::Get,
        query,
        uses_time_unit: HAS_TIME_UNIT,
        signed: true,
    }
}

/// The query parameters that `test_order` sends for `p`.
pub open spec fn test_order_query(p: TestOrderParams) -> QueryMap {
    QueryMap::empty()
        .put("symbol"@, QueryValueView::Text(p.symbol@))
        .put("side"@, QueryValueView::Text(p.side.wire_name()))
        .put("type"@, QueryValueView::Text(p.order_type@))
        .put_opt("positionSide"@, TestOrderPositionSideEnum::opt_wire(p.position_side))
        .put_opt("timeInForce"@, TestOrderTimeInForceEnum::opt_wire(p.time_in_force))
        .put_opt("quantity"@, opt_decimal(p.quantity))
        .put_opt("reduceOnly"@, opt_text(p.reduce_only))
        .put_opt("price"@, opt_decimal(p.price))
        .put_opt("newClientOrderId"@, opt_text(p.new_client_order_id))
        .put_opt("stopPrice"@, opt_decimal(p.stop_price))
        .put_opt("closePosition"@, opt_text(p.close_position))
        .put_opt("activationPrice"@, opt_decimal(p.activation_price))
        .put_opt("callbackRate"@, opt_decimal(p.callback_rate))
        .put_opt("workingType"@, TestOrderWorkingTypeEnum::opt_wire(p.working_type))
        .put_opt("priceProtect"@, opt_text(p.price_protect))
        .put_opt("newOrderRespType"@, TestOrderNewOrderRespTypeEnum::opt_wire(p.new_order_resp_type))
        .put_opt("priceMatch"@, TestOrderPriceMatchEnum::opt_wire(p.price_match))
        .put_opt("selfTradePreventionMode"@, TestOrderSelfTradePreventionModeEnum::opt_wire(p.self_trade_prevention_mode))
        .put_opt("goodTillDate"@, opt_integer(p.good_till_date))
        .put_opt("recvWindow"@, opt_integer(p.recv_window))
}

/// What `test_order` sends, parameter by parameter: each required parameter
/// under its name with the value given, each optional one exactly when it
/// is given, and no other parameter.
#[verifier::rlimit(100)]
pub proof fn lemma_test_order_query(p: TestOrderParams)
    ensures
        test_order_query(p).dom().contains("symbol"@),
        test_order_query(p)["symbol"@] == QueryValueView::Text(p.symbol@),
        test_order_query(p).dom().contains("side"@),
        test_order_query(p)["side"@] == QueryValueView::Text(p.side.wire_name()),
        test_order_query(p).dom().contains("type"@),
        test_order_query(p)["type"@] == QueryValueView::Text(p.order_type@),
        test_order_query(p).dom().contains("positionSide"@) == (p.position_side is Some),
        p.position_side is Some ==> test_order_query(p)["positionSide"@] == QueryValueView::Text(p.position_side->0.wire_name()),
        test_order_query(p).dom().contains("timeInForce"@) == (p.time_in_force is Some),
        p.time_in_force is Some ==> test_order_query(p)["timeInForce"@] == QueryValueView::Text(p.time_in_force->0.wire_name()),
        test_order_query(p).dom().contains("quantity"@) == (p.quantity is Some),
        p.quantity is Some ==> test_order_query(p)["quantity"@] == QueryValueView::DecimalNumber(p.quantity->0),
        test_order_query(p).dom().contains("reduceOnly"@) == (p.reduce_only is Some),
        p.reduce_only is Some ==> test_order_query(p)["reduceOnly"@] == QueryValueView::Text(p.reduce_only->0@),
        test_order_query(p).dom().contains("price"@) == (p.price is Some),
        p.price is Some ==> test_order_query(p)["price"@] == QueryValueView::DecimalNumber(p.price->0),
        test_order_query(p).dom().contains("newClientOrderId"@) == (p.new_client_order_id is Some),
        p.new_client_order_id is Some ==> test_order_query(p)["newClientOrderId"@] == QueryValueView::Text(p.new_client_order_id->0@),
        test_order_query(p).dom().contains("stopPrice"@) == (p.stop_price is Some),
        p.stop_price is Some ==> test_order_query(p)["stopPrice"@] == QueryValueView::DecimalNumber(p.stop_price->0),
        test_order_query(p).dom().contains("closePosition"@) == (p.close_position is Some),
        p.close_position is Some ==> test_order_query(p)["closePosition"@] == QueryValueView::Text(p.close_position->0@),
        test_order_query(p).dom().contains("activationPrice"@) == (p.activation_price is Some),
        p.activation_price is Some ==> test_order_query(p)["activationPrice"@] == QueryValueView::DecimalNumber(p.activation_price->0),
        test_order_query(p).dom().contains("callbackRate"@) == (p.callback_rate is Some),
        p.callback_rate is Some ==> test_order_query(p)["callbackRate"@] == QueryValueView::DecimalNumber(p.callback_rate->0),
        test_order_query(p).dom().contains("workingType"@) == (p.working_type is Some),
        p.working_type is Some ==> test_order_query(p)["workingType"@] == QueryValueView::Text(p.working_type->0.wire_name()),
        test_order_query(p).dom().contains("priceProtect"@) == (p.price_protect is Some),
        p.price_protect is Some ==> test_order_query(p)["priceProtect"@] == QueryValueView::Text(p.price_protect->0@),
        test_order_query(p).dom().contains("newOrderRespType"@) == (p.new_order_resp_type is Some),
        p.new_order_resp_type is Some ==> test_order_query(p)["newOrderRespType"@] == QueryValueView::Text(p.new_order_resp_type->0.wire_name()),
        test_order_query(p).dom().contains("priceMatch"@) == (p.price_match is Some),
        p.price_match is Some ==> test_order_query(p)["priceMatch"@] == QueryValueView::Text(p.price_match->0.wire_name()),
        test_order_query(p).dom().contains("selfTradePreventionMode"@) == (p.self_trade_prevention_mode is Some),
        p.self_trade_prevention_mode is Some ==> test_order_query(p)["selfTradePreventionMode"@] == QueryValueView::Text(p.self_trade_prevention_mode->0.wire_name()),
        test_order_query(p).dom().contains("goodTillDate"@) == (p.good_till_date is Some),
        p.good_till_date is Some ==> test_order_query(p)["goodTillDate"@] == QueryValueView::Integer(p.good_till_date->0),
        test_order_query(p).dom().contains("recvWindow"@) == (p.recv_window is Some),
        p.recv_window is Some ==> test_order_query(p)["recvWindow"@] == QueryValueView::Integer(p.recv_window->0),
        forall|k: Seq<char>| #[trigger] test_order_query(p).dom().contains(k) ==> (k == "symbol"@ || k == "side"@ || k == "type"@ || k == "positionSide"@ || k == "timeInForce"@ || k == "quantity"@ || k == "reduceOnly"@ || k == "price"@ || k == "newClientOrderId"@ || k == "stopPrice"@ || k == "closePosition"@ || k == "activationPrice"@ || k == "callbackRate"@ || k == "workingType"@ || k == "priceProtect"@ || k == "newOrderRespType"@ || k == "priceMatch"@ || k == "selfTradePreventionMode"@ || k == "goodTillDate"@ || k == "recvWindow"@),
{
    reveal_strlit("symbol");
    reveal_strlit("side");
    reveal_strlit("type");
    reveal_strlit("positionSide");
    reveal_strlit("timeInForce");
    reveal_strlit("quantity");
    reveal_strlit("reduceOnly");
    reveal_strlit("price");
    reveal_strlit("newClientOrderId");
    reveal_strlit("stopPrice");
    reveal_strlit("closePosition");
    reveal_strlit("activationPrice");
    reveal_strlit("callbackRate");
    reveal_strlit("workingType");
    reveal_strlit("priceProtect");
    reveal_strlit("newOrderRespType");
    reveal_strlit("priceMatch");
    reveal_strlit("selfTradePreventionMode");
    reveal_strlit("goodTillDate");
    reveal_strlit("recvWindow");
    assert("symbol"@.len() == 6);
    assert("side"@.len() == 4);
    assert("type"@.len() == 4);
    assert("positionSide"@.len() == 12);
    assert("timeInForce"@.len() == 11);
    assert("quantity"@.len() == 8);
    assert("reduceOnly"@.len() == 10);
    assert("price"@.len() == 5);
    assert("newClientOrderId"@.len() == 16);
    assert("stopPrice"@.len() == 9);
    assert("closePosition"@.len() == 13);
    assert("activationPrice"@.len() == 15);
    assert("callbackRate"@.len() == 12);
    assert("workingType"@.len() == 11);
    assert("priceProtect"@.len() == 12);
    assert("newOrderRespType"@.len() == 16);
    assert("priceMatch"@.len() == 10);
    assert("selfTradePreventionMode"@.len() == 23);
    assert("goodTillDate"@.len() == 12);
    assert("recvWindow"@.len() == 10);
    assert("side"@[0] == 's');
    assert("type"@[0] == 't');
    assert("positionSide"@[0] == 'p');
    assert("callbackRate"@[0] == 'c');
    assert("positionSide"@[1] == 'o');
    assert("priceProtect"@[1] == 'r');
    assert("goodTillDate"@[0] == 'g');
    assert("timeInForce"@[0] == 't');
    assert("workingType"@[0] == 'w');
    assert("reduceOnly"@[0] == 'r');
    assert("priceMatch"@[0] == 'p');
    assert("reduceOnly"@[2] == 'd');
    assert("recvWindow"@[2] == 'c');
    assert("newClientOrderId"@[3] == 'C');
    assert("newOrderRespType"@[3] == 'O');
    assert("priceProtect"@[0] == 'p');
    assert("recvWindow"@[0] == 'r');
    assert("symbol"@ != "side"@);
    assert("symbol"@ != "type"@);
    assert("symbol"@ != "positionSide"@);
    assert("symbol"@ != "timeInForce"@);
    assert("symbol"@ != "quantity"@);
    assert("symbol"@ != "reduceOnly"@);
    assert("symbol"@ != "price"@);
    assert("symbol"@ != "newClientOrderId"@);
    assert("symbol"@ != "stopPrice"@);
    assert("symbol"@ != "closePosition"@);
    assert("symbol"@ != "activationPrice"@);
    assert("symbol"@ != "callbackRate"@);
    assert("symbol"@ != "workingType"@);
    assert("symbol"@ != "priceProtect"@);
    assert("symbol"@ != "newOrderRespType"@);
    assert("symbol"@ != "priceMatch"@);
    assert("symbol"@ != "selfTradePreventionMode"@);
    assert("symbol"@ != "goodTillDate"@);
    assert("symbol"@ != "recvWindow"@);
    assert("side"@ != "type"@);
    assert("side"@ != "positionSide"@);
    assert("side"@ != "timeInForce"@);
    assert("side"@ != "quantity"@);
    assert("side"@ != "reduceOnly"@);
    assert("side"@ != "price"@);
    assert("side"@ != "newClientOrderId"@);
    assert("side"@ != "stopPrice"@);
    assert("side"@ != "closePosition"@);
    assert("side"@ != "activationPrice"@);
    assert("side"@ != "callbackRate"@);
    assert("side"@ != "workingType"@);
    assert("side"@ != "priceProtect"@);
    assert("side"@ != "newOrderRespType"@);
    assert("side"@ != "priceMatch"@);
    assert("side"@ != "selfTradePreventionMode"@);
    assert("side"@ != "goodTillDate"@);
    assert("side"@ != "recvWindow"@);
    assert("type"@ != "positionSide"@);
    assert("type"@ != "timeInForce"@);
    assert("type"@ != "quantity"@);
    assert("type"@ != "reduceOnly"@);
    assert("type"@ != "price"@);
    assert("type"@ != "newClientOrderId"@);
    assert("type"@ != "stopPrice"@);
    assert("type"@ != "closePosition"@);
    assert("type"@ != "activationPrice"@);
    assert("type"@ != "callbackRate"@);
    assert("type"@ != "workingType"@);
    assert("type"@ != "priceProtect"@);
    assert("type"@ != "newOrderRespType"@);
    assert("type"@ != "priceMatch"@);
    assert("type"@ != "selfTradePreventionMode"@);
    assert("type"@ != "goodTillDate"@);
    assert("type"@ != "recvWindow"@);
    assert("positionSide"@ != "timeInForce"@);
    assert("positionSide"@ != "quantity"@);
    assert("positionSide"@ != "reduceOnly"@);
    assert("positionSide"@ != "price"@);
    assert("positionSide"@ != "newClientOrderId"@);
    assert("positionSide"@ != "stopPrice"@);
    assert("positionSide"@ != "closePosition"@);
    assert("positionSide"@ != "activationPrice"@);
    assert("positionSide"@ != "callbackRate"@);
    assert("positionSide"@ != "workingType"@);
    assert("positionSide"@ != "priceProtect"@);
    assert("positionSide"@ != "newOrderRespType"@);
    assert("positionSide"@ != "priceMatch"@);
    assert("positionSide"@ != "selfTradePreventionMode"@);
    assert("positionSide"@ != "goodTillDate"@);
    assert("positionSide"@ != "recvWindow"@);
    assert("timeInForce"@ != "quantity"@);
    assert("timeInForce"@ != "reduceOnly"@);
    assert("timeInForce"@ != "price"@);
    assert("timeInForce"@ != "newClientOrderId"@);
    assert("timeInForce"@ != "stopPrice"@);
    assert("timeInForce"@ != "closePosition"@);
    assert("timeInForce"@ != "activationPrice"@);
    assert("timeInForce"@ != "callbackRate"@);
    assert("timeInForce"@ != "workingType"@);
    assert("timeInForce"@ != "priceProtect"@);
    assert("timeInForce"@ != "newOrderRespType"@);
    assert("timeInForce"@ != "priceMatch"@);
    assert("timeInForce"@ != "selfTradePreventionMode"@);
    assert("timeInForce"@ != "goodTillDate"@);
    assert("timeInForce"@ != "recvWindow"@);
    assert("quantity"@ != "reduceOnly"@);
    assert("quantity"@ != "price"@);
    assert("quantity"@ != "newClientOrderId"@);
    assert("quantity"@ != "stopPrice"@);
    assert("quantity"@ != "closePosition"@);
    assert("quantity"@ != "activationPrice"@);
    assert("quantity"@ != "callbackRate"@);
    assert("quantity"@ != "workingType"@);
    assert("quantity"@ != "priceProtect"@);
    assert("quantity"@ != "newOrderRespType"@);
    assert("quantity"@ != "priceMatch"@);
    assert("quantity"@ != "selfTradePreventionMode"@);
    assert("quantity"@ != "goodTillDate"@);
    assert("quantity"@ != "recvWindow"@);
    assert("reduceOnly"@ != "price"@);
    assert("reduceOnly"@ != "newClientOrderId"@);
    assert("reduceOnly"@ != "stopPrice"@);
    assert("reduceOnly"@ != "closePosition"@);
    assert("reduceOnly"@ != "activationPrice"@);
    assert("reduceOnly"@ != "callbackRate"@);
    assert("reduceOnly"@ != "workingType"@);
    assert("reduceOnly"@ != "priceProtect"@);
    assert("reduceOnly"@ != "newOrderRespType"@);
    assert("reduceOnly"@ != "priceMatch"@);
    assert("reduceOnly"@ != "selfTradePreventionMode"@);
    assert("reduceOnly"@ != "goodTillDate"@);
    assert("reduceOnly"@ != "recvWindow"@);
    assert("price"@ != "newClientOrderId"@);
    assert("price"@ != "stopPrice"@);
    assert("price"@ != "closePosition"@);
    assert("price"@ != "activationPrice"@);
    assert("price"@ != "callbackRate"@);
    assert("price"@ != "workingType"@);
    assert("price"@ != "priceProtect"@);
    assert("price"@ != "newOrderRespType"@);
    assert("price"@ != "priceMatch"@);
    assert("price"@ != "selfTradePreventionMode"@);
    assert("price"@ != "goodTillDate"@);
    assert("price"@ != "recvWindow"@);
    assert("newClientOrderId"@ != "stopPrice"@);
    assert("newClientOrderId"@ != "closePosition"@);
    assert("newClientOrderId"@ != "activationPrice"@);
    assert("newClientOrderId"@ != "callbackRate"@);
    assert("newClientOrderId"@ != "workingType"@);
    assert("newClientOrderId"@ != "priceProtect"@);
    assert("newClientOrderId"@ != "newOrderRespType"@);
    assert("newClientOrderId"@ != "priceMatch"@);
    assert("newClientOrderId"@ != "selfTradePreventionMode"@);
    assert("newClientOrderId"@ != "goodTillDate"@);
    assert("newClientOrderId"@ != "recvWindow"@);
    assert("stopPrice"@ != "closePosition"@);
    assert("stopPrice"@ != "activationPrice"@);
    assert("stopPrice"@ != "callbackRate"@);
    assert("stopPrice"@ != "workingType"@);
    assert("stopPrice"@ != "priceProtect"@);
    assert("stopPrice"@ != "newOrderRespType"@);
    assert("stopPrice"@ != "priceMatch"@);
    assert("stopPrice"@ != "selfTradePreventionMode"@);
    assert("stopPrice"@ != "goodTillDate"@);
    assert("stopPrice"@ != "recvWindow"@);
    assert("closePosition"@ != "activationPrice"@);
    assert("closePosition"@ != "callbackRate"@);
    assert("closePosition"@ != "workingType"@);
    assert("closePosition"@ != "priceProtect"@);
    assert("closePosition"@ != "newOrderRespType"@);
    assert("closePosition"@ != "priceMatch"@);
    assert("closePosition"@ != "selfTradePreventionMode"@);
    assert("closePosition"@ != "goodTillDate"@);
    assert("closePosition"@ != "recvWindow"@);
    assert("activationPrice"@ != "callbackRate"@);
    assert("activationPrice"@ != "workingType"@);
    assert("activationPrice"@ != "priceProtect"@);
    assert("activationPrice"@ != "newOrderRespType"@);
    assert("activationPrice"@ != "priceMatch"@);
    assert("activationPrice"@ != "selfTradePreventionMode"@);
    assert("activationPrice"@ != "goodTillDate"@);
    assert("activationPrice"@ != "recvWindow"@);
    assert("callbackRate"@ != "workingType"@);
    assert("callbackRate"@ != "priceProtect"@);
    assert("callbackRate"@ != "newOrderRespType"@);
    assert("callbackRate"@ != "priceMatch"@);
    assert("callbackRate"@ != "selfTradePreventionMode"@);
    assert("callbackRate"@ != "goodTillDate"@);
    assert("callbackRate"@ != "recvWindow"@);
    assert("workingType"@ != "priceProtect"@);
    assert("workingType"@ != "newOrderRespType"@);
    assert("workingType"@ != "priceMatch"@);
    assert("workingType"@ != "selfTradePreventionMode"@);
    assert("workingType"@ != "goodTillDate"@);
    assert("workingType"@ != "recvWindow"@);
    assert("priceProtect"@ != "newOrderRespType"@);
    assert("priceProtect"@ != "priceMatch"@);
    assert("priceProtect"@ != "selfTradePreventionMode"@);
    assert("priceProtect"@ != "goodTillDate"@);
    assert("priceProtect"@ != "recvWindow"@);
    assert("newOrderRespType"@ != "priceMatch"@);
    assert("newOrderRespType"@ != "selfTradePreventionMode"@);
    assert("newOrderRespType"@ != "goodTillDate"@);
    assert("newOrderRespType"@ != "recvWindow"@);
    assert("priceMatch"@ != "selfTradePreventionMode"@);
    assert("priceMatch"@ != "goodTillDate"@);
    assert("priceMatch"@ != "recvWindow"@);
    assert("selfTradePreventionMode"@ != "goodTillDate"@);
    assert("selfTradePreventionMode"@ != "recvWindow"@);
    assert("goodTillDate"@ != "recvWindow"@);
}

/// The query parameters of `test_order`, built one by one.
#[verifier::rlimit(40)]
fn test_order_params(params: TestOrderParams) -> (query: QueryParams)
    ensures
        query@ == test_order_query(params),
{
    let ghost p = params;
    let TestOrderParams { symbol, side, order_type, position_side, time_in_force, quantity, reduce_only, price, new_client_order_id, stop_price, close_position, activation_price, callback_rate, working_type, price_protect, new_order_resp_type, price_match, self_trade_prevention_mode, good_till_date, recv_window } = params;
    let mut query = QueryParams::new();
    query.insert("symbol".to_owned(), QueryValue::Text(symbol));
    assert(query@ == QueryMap::empty()
        .put("symbol"@, QueryValueView::Text(p.symbol@)));
    query.insert("side".to_owned(), QueryValue::Text(side.as_str().to_owned()));
    assert(query@ == QueryMap::empty()
        .put("symbol"@, QueryValueView::Text(p.symbol@))
        .put("side"@, QueryValueView::Text(p.side.wire_name())));
    query.insert("type".to_owned(), QueryValue::Text(order_type));
    assert(query@ == QueryMap::empty()
        .put("symbol"@, QueryValueView::Text(p.symbol@))
        .put("side"@, QueryValueView::Text(p.side.wire_name()))
        .put("type"@, QueryValueView::Text(p.order_type@)));
    if let Some(v) = position_side {
        query.insert("positionSide".to_owned(), QueryValue::Text(v.as_str().to_owned()));
    }
    assert(query@ == QueryMap::empty()
        .put("symbol"@, QueryValueView::Text(p.symbol@))
        .put("side"@, QueryValueView::Text(p.side.wire_name()))
        .put("type"@, QueryValueView::Text(p.order_type@))
        .put_opt("positionSide"@, TestOrderPositionSideEnum::opt_wire(p.position_side)));
    if let Some(v) = time_in_force {
        query.insert("timeInForce".to_owned(), QueryValue::Text(v.as_str().to_owned()));
    }
    assert(query@ == QueryMap::empty()
        .put("symbol"@, QueryValueView::Text(p.symbol@))
        .put("side"@, QueryValueView::Text(p.side.wire_name()))
        .put("type"@, QueryValueView::Text(p.order_type@))
        .put_opt("positionSide"@, TestOrderPositionSideEnum::opt_wire(p.position_side))
        .put_opt("timeInForce"@, TestOrderTimeInForceEnum::opt_wire(p.time_in_force)));
    if let Some(v) = quantity {
        query.insert("quantity".to_owned(), QueryValue::DecimalNumber(v));
    }
    assert(query@ == QueryMap::empty()
        .put("symbol"@, QueryValueView::Text(p.symbol@))
        .put("side"@, QueryValueView::Text(p.side.wire_name()))
        .put("type"@, QueryValueView::Text(p.order_type@))
        .put_opt("positionSide"@, TestOrderPositionSideEnum::opt_wire(p.position_side))
        .put_opt("timeInForce"@, TestOrderTimeInForceEnum::opt_wire(p.time_in_force))
        .put_opt("quantity"@, opt_decimal(p.quantity)));
    if let Some(v) = reduce_only {
        query.insert("reduceOnly".to_owned(), QueryValue::Text(v));
    }
    assert(query@ == QueryMap::empty()
        .put("symbol"@, QueryValueView::Text(p.symbol@))
        .put("side"@, QueryValueView::Text(p.side.wire_name()))
        .put("type"@, QueryValueView::Text(p.order_type@))
        .put_opt("positionSide"@, TestOrderPositionSideEnum::opt_wire(p.position_side))
        .put_opt("timeInForce"@, TestOrderTimeInForceEnum::opt_wire(p.time_in_force))
        .put_opt("quantity"@, opt_decimal(p.quantity))
        .put_opt("reduceOnly"@, opt_text(p.reduce_only)));
    if let Some(v) = price {
        query.insert("price".to_owned(), QueryValue::DecimalNumber(v));
    }
    assert(query@ == QueryMap::empty()
        .put("symbol"@, QueryValueView::Text(p.symbol@))
        .put("side"@, QueryValueView::Text(p.side.wire_name()))
        .put("type"@, QueryValueView::Text(p.order_type@))
        .put_opt("positionSide"@, TestOrderPositionSideEnum::opt_wire(p.position_side))
        .put_opt("timeInForce"@, TestOrderTimeInForceEnum::opt_wire(p.time_in_force))
        .put_opt("quantity"@, opt_decimal(p.quantity))
        .put_opt("reduceOnly"@, opt_text(p.reduce_only))
        .put_opt("price"@, opt_decimal(p.price)));
    if let Some(v) = new_client_order_id {
        query.insert("newClientOrderId".to_owned(), QueryValue::Text(v));
    }
    assert(query@ == QueryMap::empty()
        .put("symbol"@, QueryValueView::Text(p.symbol@))
        .put("side"@, QueryValueView::Text(p.side.wire_name()))
        .put("type"@, QueryValueView::Text(p.order_type@))
        .put_opt("positionSide"@, TestOrderPositionSideEnum::opt_wire(p.position_side))
        .put_opt("timeInForce"@, TestOrderTimeInForceEnum::opt_wire(p.time_in_force))
        .put_opt("quantity"@, opt_decimal(p.quantity))
        .put_opt("reduceOnly"@, opt_text(p.reduce_only))
        .put_opt("price"@, opt_decimal(p.price))
        .put_opt("newClientOrderId"@, opt_text(p.new_client_order_id)));
    if let Some(v) = stop_price {
        query.insert("stopPrice".to_owned(), QueryValue::DecimalNumber(v));
    }
    assert(query@ == QueryMap::empty()
        .put("symbol"@, QueryValueView::Text(p.symbol@))
        .put("side"@, QueryValueView::Text(p.side.wire_name()))
        .put("type"@, QueryValueView::Text(p.order_type@))
        .put_opt("positionSide"@, TestOrderPositionSideEnum::opt_wire(p.position_side))
        .put_opt("timeInForce"@, TestOrderTimeInForceEnum::opt_wire(p.time_in_force))
        .put_opt("quantity"@, opt_decimal(p.quantity))
        .put_opt("reduceOnly"@, opt_text(p.reduce_only))
        .put_opt("price"@, opt_decimal(p.price))
        .put_opt("newClientOrderId"@, opt_text(p.new_client_order_id))
        .put_opt("stopPrice"@, opt_decimal(p.stop_price)));
    if let Some(v) = close_position {
        query.insert("closePosition".to_owned(), QueryValue::Text(v));
    }
    assert(query@ == QueryMap::empty()
        .put("symbol"@, QueryValueView::Text(p.symbol@))
        .put("side"@, QueryValueView::Text(p.side.wire_name()))
        .put("type"@, QueryValueView::Text(p.order_type@))
        .put_opt("positionSide"@, TestOrderPositionSideEnum::opt_wire(p.position_side))
        .put_opt("timeInForce"@, TestOrderTimeInForceEnum::opt_wire(p.time_in_force))
        .put_opt("quantity"@, opt_decimal(p.quantity))
        .put_opt("reduceOnly"@, opt_text(p.reduce_only))
        .put_opt("price"@, opt_decimal(p.price))
        .put_opt("newClientOrderId"@, opt_text(p.new_client_order_id))
        .put_opt("stopPrice"@, opt_decimal(p.stop_price))
        .put_opt("closePosition"@, opt_text(p.close_position)));
    if let Some(v) = activation_price {
        query.insert("activationPrice".to_owned(), QueryValue::DecimalNumber(v));
    }
    assert(query@ == QueryMap::empty()
        .put("symbol"@, QueryValueView::Text(p.symbol@))
        .put("side"@, QueryValueView::Text(p.side.wire_name()))
        .put("type"@, QueryValueView::Text(p.order_type@))
        .put_opt("positionSide"@, TestOrderPositionSideEnum::opt_wire(p.position_side))
        .put_opt("timeInForce"@, TestOrderTimeInForceEnum::opt_wire(p.time_in_force))
        .put_opt("quantity"@, opt_decimal(p.quantity))
        .put_opt("reduceOnly"@, opt_text(p.reduce_only))
        .put_opt("price"@, opt_decimal(p.price))
        .put_opt("newClientOrderId"@, opt_text(p.new_client_order_id))
        .put_opt("stopPrice"@, opt_decimal(p.stop_price))
        .put_opt("closePosition"@, opt_text(p.close_position))
        .put_opt("activationPrice"@, opt_decimal(p.activation_price)));
    if let Some(v) = callback_rate {
        query.insert("callbackRate".to_owned(), QueryValue::DecimalNumber(v));
    }
    assert(query@ == QueryMap::empty()
        .put("symbol"@, QueryValueView::Text(p.symbol@))
        .put("side"@, QueryValueView::Text(p.side.wire_name()))
        .put("type"@, QueryValueView::Text(p.order_type@))
        .put_opt("positionSide"@, TestOrderPositionSideEnum::opt_wire(p.position_side))
        .put_opt("timeInForce"@, TestOrderTimeInForceEnum::opt_wire(p.time_in_force))
        .put_opt("quantity"@, opt_decimal(p.quantity))
        .put_opt("reduceOnly"@, opt_text(p.reduce_only))
        .put_opt("price"@, opt_decimal(p.price))
        .put_opt("newClientOrderId"@, opt_text(p.new_client_order_id))
        .put_opt("stopPrice"@, opt_decimal(p.stop_price))
        .put_opt("closePosition"@, opt_text(p.close_position))
        .put_opt("activationPrice"@, opt_decimal(p.activation_price))
        .put_opt("callbackRate"@, opt_decimal(p.callback_rate)));
    if let Some(v) = working_type {
        query.insert("workingType".to_owned(), QueryValue::Text(v.as_str().to_owned()));
    }
    assert(query@ == QueryMap::empty()
        .put("symbol"@, QueryValueView::Text(p.symbol@))
        .put("side"@, QueryValueView::Text(p.side.wire_name()))
        .put("type"@, QueryValueView::Text(p.order_type@))
        .put_opt("positionSide"@, TestOrderPositionSideEnum::opt_wire(p.position_side))
        .put_opt("timeInForce"@, TestOrderTimeInForceEnum::opt_wire(p.time_in_force))
        .put_opt("quantity"@, opt_decimal(p.quantity))
        .put_opt("reduceOnly"@, opt_text(p.reduce_only))
        .put_opt("price"@, opt_decimal(p.price))
        .put_opt("newClientOrderId"@, opt_text(p.new_client_order_id))
        .put_opt("stopPrice"@, opt_decimal(p.stop_price))
        .put_opt("closePosition"@, opt_text(p.close_position))
        .put_opt("activationPrice"@, opt_decimal(p.activation_price))
        .put_opt("callbackRate"@, opt_decimal(p.callback_rate))
        .put_opt("workingType"@, TestOrderWorkingTypeEnum::opt_wire(p.working_type)));
    if let Some(v) = price_protect {
        query.insert("priceProtect".to_owned(), QueryValue::Text(v));
    }
    assert(query@ == QueryMap::empty()
        .put("symbol"@, QueryValueView::Text(p.symbol@))
        .put("side"@, QueryValueView::Text(p.side.wire_name()))
        .put("type"@, QueryValueView::Text(p.order_type@))
        .put_opt("positionSide"@, TestOrderPositionSideEnum::opt_wire(p.position_side))
        .put_opt("timeInForce"@, TestOrderTimeInForceEnum::opt_wire(p.time_in_force))
        .put_opt("quantity"@, opt_decimal(p.quantity))
        .put_opt("reduceOnly"@, opt_text(p.reduce_only))
        .put_opt("price"@, opt_decimal(p.price))
        .put_opt("newClientOrderId"@, opt_text(p.new_client_order_id))
        .put_opt("stopPrice"@, opt_decimal(p.stop_price))
        .put_opt("closePosition"@, opt_text(p.close_position))
        .put_opt("activationPrice"@, opt_decimal(p.activation_price))
        .put_opt("callbackRate"@, opt_decimal(p.callback_rate))
        .put_opt("workingType"@, TestOrderWorkingTypeEnum::opt_wire(p.working_type))
        .put_opt("priceProtect"@, opt_text(p.price_protect)));
    if let Some(v) = new_order_resp_type {
        query.insert("newOrderRespType".to_owned(), QueryValue::Text(v.as_str().to_owned()));
    }
    assert(query@ == QueryMap::empty()
        .put("symbol"@, QueryValueView::Text(p.symbol@))
        .put("side"@, QueryValueView::Text(p.side.wire_name()))
        .put("type"@, QueryValueView::Text(p.order_type@))
        .put_opt("positionSide"@, TestOrderPositionSideEnum::opt_wire(p.position_side))
        .put_opt("timeInForce"@, TestOrderTimeInForceEnum::opt_wire(p.time_in_force))
        .put_opt("quantity"@, opt_decimal(p.quantity))
        .put_opt("reduceOnly"@, opt_text(p.reduce_only))
        .put_opt("price"@, opt_decimal(p.price))
        .put_opt("newClientOrderId"@, opt_text(p.new_client_order_id))
        .put_opt("stopPrice"@, opt_decimal(p.stop_price))
        .put_opt("closePosition"@, opt_text(p.close_position))
        .put_opt("activationPrice"@, opt_decimal(p.activation_price))
        .put_opt("callbackRate"@, opt_decimal(p.callback_rate))
        .put_opt("workingType"@, TestOrderWorkingTypeEnum::opt_wire(p.working_type))
        .put_opt("priceProtect"@, opt_text(p.price_protect))
        .put_opt("newOrderRespType"@, TestOrderNewOrderRespTypeEnum::opt_wire(p.new_order_resp_type)));
    if let Some(v) = price_match {
        query.insert("priceMatch".to_owned(), QueryValue::Text(v.as_str().to_owned()));
    }
    assert(query@ == QueryMap::empty()
        .put("symbol"@, QueryValueView::Text(p.symbol@))
        .put("side"@, QueryValueView::Text(p.side.wire_name()))
        .put("type"@, QueryValueView::Text(p.order_type@))
        .put_opt("positionSide"@, TestOrderPositionSideEnum::opt_wire(p.position_side))
        .put_opt("timeInForce"@, TestOrderTimeInForceEnum::opt_wire(p.time_in_force))
        .put_opt("quantity"@, opt_decimal(p.quantity))
        .put_opt("reduceOnly"@, opt_text(p.reduce_only))
        .put_opt("price"@, opt_decimal(p.price))
        .put_opt("newClientOrderId"@, opt_text(p.new_client_order_id))
        .put_opt("stopPrice"@, opt_decimal(p.stop_price))
        .put_opt("closePosition"@, opt_text(p.close_position))
        .put_opt("activationPrice"@, opt_decimal(p.activation_price))
        .put_opt("callbackRate"@, opt_decimal(p.callback_rate))
        .put_opt("workingType"@, TestOrderWorkingTypeEnum::opt_wire(p.working_type))
        .put_opt("priceProtect"@, opt_text(p.price_protect))
        .put_opt("newOrderRespType"@, TestOrderNewOrderRespTypeEnum::opt_wire(p.new_order_resp_type))
        .put_opt("priceMatch"@, TestOrderPriceMatchEnum::opt_wire(p.price_match)));
    if let Some(v) = self_trade_prevention_mode {
        query.insert("selfTradePreventionMode".to_owned(), QueryValue::Text(v.as_str().to_owned()));
    }
    assert(query@ == QueryMap::empty()
        .put("symbol"@, QueryValueView::Text(p.symbol@))
        .put("side"@, QueryValueView::Text(p.side.wire_name()))
        .put("type"@, QueryValueView::Text(p.order_type@))
        .put_opt("positionSide"@, TestOrderPositionSideEnum::opt_wire(p.position_side))
        .put_opt("timeInForce"@, TestOrderTimeInForceEnum::opt_wire(p.time_in_force))
        .put_opt("quantity"@, opt_decimal(p.quantity))
        .put_opt("reduceOnly"@, opt_text(p.reduce_only))
        .put_opt("price"@, opt_decimal(p.price))
        .put_opt("newClientOrderId"@, opt_text(p.new_client_order_id))
        .put_opt("stopPrice"@, opt_decimal(p.stop_price))
        .put_opt("closePosition"@, opt_text(p.close_position))
        .put_opt("activationPrice"@, opt_decimal(p.activation_price))
        .put_opt("callbackRate"@, opt_decimal(p.callback_rate))
        .put_opt("workingType"@, TestOrderWorkingTypeEnum::opt_wire(p.working_type))
        .put_opt("priceProtect"@, opt_text(p.price_protect))
        .put_opt("newOrderRespType"@, TestOrderNewOrderRespTypeEnum::opt_wire(p.new_order_resp_type))
        .put_opt("priceMatch"@, TestOrderPriceMatchEnum::opt_wire(p.price_match))
        .put_opt("selfTradePreventionMode"@, TestOrderSelfTradePreventionModeEnum::opt_wire(p.self_trade_prevention_mode)));
    if let Some(v) = good_till_date {
        query.insert("goodTillDate".to_owned(), QueryValue::Integer(v));
    }
    assert(query@ == QueryMap::empty()
        .put("symbol"@, QueryValueView::Text(p.symbol@))
        .put("side"@, QueryValueView::Text(p.side.wire_name()))
        .put("type"@, QueryValueView::Text(p.order_type@))
        .put_opt("positionSide"@, TestOrderPositionSideEnum::opt_wire(p.position_side))
        .put_opt("timeInForce"@, TestOrderTimeInForceEnum::opt_wire(p.time_in_force))
        .put_opt("quantity"@, opt_decimal(p.quantity))
        .put_opt("reduceOnly"@, opt_text(p.reduce_only))
        .put_opt("price"@, opt_decimal(p.price))
        .put_opt("newClientOrderId"@, opt_text(p.new_client_order_id))
        .put_opt("stopPrice"@, opt_decimal(p.stop_price))
        .put_opt("closePosition"@, opt_text(p.close_position))
        .put_opt("activationPrice"@, opt_decimal(p.activation_price))
        .put_opt("callbackRate"@, opt_decimal(p.callback_rate))
        .put_opt("workingType"@, TestOrderWorkingTypeEnum::opt_wire(p.working_type))
        .put_opt("priceProtect"@, opt_text(p.price_protect))
        .put_opt("newOrderRespType"@, TestOrderNewOrderRespTypeEnum::opt_wire(p.new_order_resp_type))
        .put_opt("priceMatch"@, TestOrderPriceMatchEnum::opt_wire(p.price_match))
        .put_opt("selfTradePreventionMode"@, TestOrderSelfTradePreventionModeEnum::opt_wire(p.self_trade_prevention_mode))
        .put_opt("goodTillDate"@, opt_integer(p.good_till_date)));
    if let Some(v) = recv_window {
        query.insert("recvWindow".to_owned(), QueryValue::Integer(v));
    }
    assert(query@ == QueryMap::empty()
        .put("symbol"@, QueryValueView::Text(p.symbol@))
        .put("side"@, QueryValueView::Text(p.side.wire_name()))
        .put("type"@, QueryValueView::Text(p.order_type@))
        .put_opt("positionSide"@, TestOrderPositionSideEnum::opt_wire(p.position_side))
        .put_opt("timeInForce"@, TestOrderTimeInForceEnum::opt_wire(p.time_in_force))
        .put_opt("quantity"@, opt_decimal(p.quantity))
        .put_opt("reduceOnly"@, opt_text(p.reduce_only))
        .put_opt("price"@, opt_decimal(p.price))
        .put_opt("newClientOrderId"@, opt_text(p.new_client_order_id))
        .put_opt("stopPrice"@, opt_decimal(p.stop_price))
        .put_opt("closePosition"@, opt_text(p.close_position))
        .put_opt("activationPrice"@, opt_decimal(p.activation_price))
        .put_opt("callbackRate"@, opt_decimal(p.callback_rate))
        .put_opt("workingType"@, TestOrderWorkingTypeEnum::opt_wire(p.working_type))
        .put_opt("priceProtect"@, opt_text(p.price_protect))
        .put_opt("newOrderRespType"@, TestOrderNewOrderRespTypeEnum::opt_wire(p.new_order_resp_type))
        .put_opt("priceMatch"@, TestOrderPriceMatchEnum::opt_wire(p.price_match))
        .put_opt("selfTradePreventionMode"@, TestOrderSelfTradePreventionModeEnum::opt_wire(p.self_trade_prevention_mode))
        .put_opt("goodTillDate"@, opt_integer(p.good_till_date))
        .put_opt("recvWindow"@, opt_integer(p.recv_window)));
    query
}

/// The request of the `test_order` operation: POST `/fapi/v1/order/test`, signed.
pub fn test_order(params: TestOrderParams) -> (req: RestRequest)
    ensures
        req@ == (RestRequestView {
            path: "/fapi/v1/order/test"@,
            method: HttpMethod::Post,
            query: test_order_query(params),
            uses_time_unit: HAS_TIME_UNIT,
            signed: true,
        }),
        req@.query.dom().contains("symbol"@),
        req@.query["symbol"@] == QueryValueView::Text(params.symbol@),
        req@.query.dom().contains("side"@),
        req@.query["side"@] == QueryValueView::Text(params.side.wire_name()),
        req@.query.dom().contains("type"@),
        req@.query["type"@] == QueryValueView::Text(params.order_type@),
        req@.query.dom().contains("positionSide"@) == (params.position_side is Some),
        params.position_side is Some ==> req@.query["positionSide"@] == QueryValueView::Text(params.position_side->0.wire_name()),
        req@.query.dom().contains("timeInForce"@) == (params.time_in_force is Some),
        params.time_in_force is Some ==> req@.query["timeInForce"@] == QueryValueView::Text(params.time_in_force->0.wire_name()),
        req@.query.dom().contains("quantity"@) == (params.quantity is Some),
        params.quantity is Some ==> req@.query["quantity"@] == QueryValueView::DecimalNumber(params.quantity->0),
        req@.query.dom().contains("reduceOnly"@) == (params.reduce_only is Some),
        params.reduce_only is Some ==> req@.query["reduceOnly"@] == QueryValueView::Text(params.reduce_only->0@),
        req@.query.dom().contains("price"@) == (params.price is Some),
        params.price is Some ==> req@.query["price"@] == QueryValueView::DecimalNumber(params.price->0),
        req@.query.dom().contains("newClientOrderId"@) == (params.new_client_order_id is Some),
        params.new_client_order_id is Some ==> req@.query["newClientOrderId"@] == QueryValueView::Text(params.new_client_order_id->0@),
        req@.query.dom().contains("stopPrice"@) == (params.stop_price is Some),
        params.stop_price is Some ==> req@.query["stopPrice"@] == QueryValueView::DecimalNumber(params.stop_price->0),
        req@.query.dom().contains("closePosition"@) == (params.close_position is Some),
        params.close_position is Some ==> req@.query["closePosition"@] == QueryValueView::Text(params.close_position->0@),
        req@.query.dom().contains("activationPrice"@) == (params.activation_price is Some),
        params.activation_price is Some ==> req@.query["activationPrice"@] == QueryValueView::DecimalNumber(params.activation_price->0),
        req@.query.dom().contains("callbackRate"@) == (params.callback_rate is Some),
        params.callback_rate is Some ==> req@.query["callbackRate"@] == QueryValueView::DecimalNumber(params.callback_rate->0),
        req@.query.dom().contains("workingType"@) == (params.working_type is Some),
        params.working_type is Some ==> req@.query["workingType"@] == QueryValueView::Text(params.working_type->0.wire_name()),
        req@.query.dom().contains("priceProtect"@) == (params.price_protect is Some),
        params.price_protect is Some ==> req@.query["priceProtect"@] == QueryValueView::Text(params.price_protect->0@),
        req@.query.dom().contains("newOrderRespType"@) == (params.new_order_resp_type is Some),
        params.new_order_resp_type is Some ==> req@.query["newOrderRespType"@] == QueryValueView::Text(params.new_order_resp_type->0.wire_name()),
        req@.query.dom().contains("priceMatch"@) == (params.price_match is Some),
        params.price_match is Some ==> req@.query["priceMatch"@] == QueryValueView::Text(params.price_match->0.wire_name()),
        req@.query.dom().contains("selfTradePreventionMode"@) == (params.self_trade_prevention_mode is Some),
        params.self_trade_prevention_mode is Some ==> req@.query["selfTradePreventionMode"@] == QueryValueView::Text(params.self_trade_prevention_mode->0.wire_name()),
        req@.query.dom().contains("goodTillDate"@) == (params.good_till_date is Some),
        params.good_till_date is Some ==> req@.query["goodTillDate"@] == QueryValueView::Integer(params.good_till_date->0),
        req@.query.dom().contains("recvWindow"@) == (params.recv_window is Some),
        params.recv_window is Some ==> req@.query["recvWindow"@] == QueryValueView::Integer(params.recv_window->0),
        forall|k: Seq<char>| #[trigger] req@.query.dom().contains(k) ==> (k == "symbol"@ || k == "side"@ || k == "type"@ || k == "positionSide"@ || k == "timeInForce"@ || k == "quantity"@ || k == "reduceOnly"@ || k == "price"@ || k == "newClientOrderId"@ || k == "stopPrice"@ || k == "closePosition"@ || k == "activationPrice"@ || k == "callbackRate"@ || k == "workingType"@ || k == "priceProtect"@ || k == "newOrderRespType"@ || k == "priceMatch"@ || k == "selfTradePreventionMode"@ || k == "goodTillDate"@ || k == "recvWindow"@),
{
    proof {
        lemma_test_order_query(params);
    }
    let query = test_order_params(params);
    RestRequest {
        path: "/fapi/v1/order/test",
        method: HttpMethod::Post,
        query,
        uses_time_unit: HAS_TIME_UNIT,
        signed: true,
    }
}

/// The query parameters that `users_force_orders` sends for `p`.
pub open spec fn users_force_orders_query(p: UsersForceOrdersParams) -> QueryMap {
    QueryMap::empty()
        .put_opt("symbol"@, opt_text(p.symbol))
        .put_opt("autoCloseType"@, UsersForceOrdersAutoCloseTypeEnum::opt_wire(p.auto_close_type))
        .put_opt("startTime"@, opt_integer(p.start_time))
        .put_opt("endTime"@, opt_integer(p.end_time))
        .put_opt("limit"@, opt_integer(p.limit))
        .put_opt("recvWindow"@, opt_integer(p.recv_window))
}

/// What `users_force_orders` sends, parameter by parameter: each required parameter
/// under its name with the value given, each optional one exactly when it
/// is given, and no other parameter.
pub proof fn lemma_users_force_orders_query(p: UsersForceOrdersParams)
    ensures
        users_force_orders_query(p).dom().contains("symbol"@) == (p.symbol is Some),
        p.symbol is Some ==> users_force_orders_query(p)["symbol"@] == QueryValueView::Text(p.symbol->0@),
        users_force_orders_query(p).dom().contains("autoCloseType"@) == (p.auto_close_type is Some),
        p.auto_close_type is Some ==> users_force_orders_query(p)["autoCloseType"@] == QueryValueView::Text(p.auto_close_type->0.wire_name()),
        users_force_orders_query(p).dom().contains("startTime"@) == (p.start_time is Some),
        p.start_time is Some ==> users_force_orders_query(p)["startTime"@] == QueryValueView::Integer(p.start_time->0),
        users_force_orders_query(p).dom().contains("endTime"@) == (p.end_time is Some),
        p.end_time is Some ==> users_force_orders_query(p)["endTime"@] == QueryValueView::Integer(p.end_time->0),
        users_force_orders_query(p).dom().contains("limit"@) == (p.limit is Some),
        p.limit is Some ==> users_force_orders_query(p)["limit"@] == QueryValueView::Integer(p.limit->0),
        users_force_orders_query(p).dom().contains("recvWindow"@) == (p.recv_window is Some),
        p.recv_window is Some ==> users_force_orders_query(p)["recvWindow"@] == QueryValueView::Integer(p.recv_window->0),
        forall|k: Seq<char>| #[trigger] users_force_orders_query(p).dom().contains(k) ==> (k == "symbol"@ || k == "autoCloseType"@ || k == "startTime"@ || k == "endTime"@ || k == "limit"@ || k == "recvWindow"@),
{
    reveal_strlit("symbol");
    reveal_strlit("autoCloseType");
    reveal_strlit("startTime");
    reveal_strlit("endTime");
    reveal_strlit("limit");
    reveal_strlit("recvWindow");
    assert("symbol"@.len() == 6);
    assert("autoCloseType"@.len() == 13);
    assert("startTime"@.len() == 9);
    assert("endTime"@.len() == 7);
    assert("limit"@.len() == 5);
    assert("recvWindow"@.len() == 10);
    assert("symbol"@ != "autoCloseType"@);
    assert("symbol"@ != "startTime"@);
    assert("symbol"@ != "endTime"@);
    assert("symbol"@ != "limit"@);
    assert("symbol"@ != "recvWindow"@);
    assert("autoCloseType"@ != "startTime"@);
    assert("autoCloseType"@ != "endTime"@);
    assert("autoCloseType"@ != "limit"@);
    assert("autoCloseType"@ != "recvWindow"@);
    assert("startTime"@ != "endTime"@);
    assert("startTime"@ != "limit"@);
    assert("startTime"@ != "recvWindow"@);
    assert("endTime"@ != "limit"@);
    assert("endTime"@ != "recvWindow"@);
    assert("limit"@ != "recvWindow"@);
}

/// The request of the `users_force_orders` operation: GET `/fapi/v1/forceOrders`, signed.
pub fn users_force_orders(params: UsersForceOrdersParams) -> (req: RestRequest)
    ensures
        req@ == (RestRequestView {
            path: "/fapi/v1/forceOrders"@,
            method: HttpMethod::Get,
            query: users_force_orders_query(params),
            uses_time_unit: HAS_TIME_UNIT,
            signed: true,
        }),
        req@.query.dom().contains("symbol"@) == (params.symbol is Some),
        params.symbol is Some ==> req@.query["symbol"@] == QueryValueView::Text(params.symbol->0@),
        req@.query.dom().contains("autoCloseType"@) == (params.auto_close_type is Some),
        params.auto_close_type is Some ==> req@.query["autoCloseType"@] == QueryValueView::Text(params.auto_close_type->0.wire_name()),
        req@.query.dom().contains("startTime"@) == (params.start_time is Some),
        params.start_time is Some ==> req@.query["startTime"@] == QueryValueView::Integer(params.start_time->0),
        req@.query.dom().contains("endTime"@) == (params.end_time is Some),
        params.end_time is Some ==> req@.query["endTime"@] == QueryValueView::Integer(params.end_time->0),
        req@.query.dom().contains("limit"@) == (params.limit is Some),
        params.limit is Some ==> req@.query["limit"@] == QueryValueView::Integer(params.limit->0),
        req@.query.dom().contains("recvWindow"@) == (params.recv_window is Some),
        params.recv_window is Some ==> req@.query["recvWindow"@] == QueryValueView::Integer(params.recv_window->0),
        forall|k: Seq<char>| #[trigger] req@.query.dom().contains(k) ==> (k == "symbol"@ || k == "autoCloseType"@ || k == "startTime"@ || k == "endTime"@ || k == "limit"@ || k == "recvWindow"@),
{
    proof {
        lemma_users_force_orders_query(params);
    }
    let UsersForceOrdersParams { symbol, auto_close_type, start_time, end_time, limit, recv_window } = params;
    let mut query = QueryParams::new();
    if let Some(v) = symbol {
        query.insert("symbol".to_owned(), QueryValue::Text(v));
    }
    if let Some(v) = auto_close_type {
        query.insert("autoCloseType".to_owned(), QueryValue::Text(v.as_str().to_owned()));
    }
    if let Some(v) = start_time {
        query.insert("startTime".to_owned(), QueryValue::Integer(v));
    }
    if let Some(v) = end_time {
        query.insert("endTime".to_owned(), QueryValue::Integer(v));
    }
    if let Some(v) = limit {
        query.insert("limit".to_owned(), QueryValue::Integer(v));
    }
    if let Some(v) = recv_window {
        query.insert("recvWindow".to_owned(), QueryValue::Integer(v));
    }
    RestRequest {
        path: "/fapi/v1/forceOrders",
        method: HttpMethod::Get,
        query,
        uses_time_unit: HAS_TIME_UNIT,
        signed: true,
    }
}

} // verus!
