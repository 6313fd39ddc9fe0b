use arkin_binance::trade_api::{AccountTradeListParams, AllOrdersParams, AutoCancelAllOpenOrdersParams, CancelAllOpenOrdersParams, CancelMultipleOrdersParams, CancelOrderParams, ChangeInitialLeverageParams, ChangeMarginTypeMarginTypeEnum, ChangeMarginTypeParams, ChangeMultiAssetsModeParams, ChangePositionModeParams, CurrentAllOpenOrdersParams, GetOrderModifyHistoryParams, GetPositionMarginChangeHistoryParams, ModifyIsolatedPositionMarginParams, ModifyIsolatedPositionMarginPositionSideEnum, ModifyMultipleOrdersParams, ModifyOrderParams, ModifyOrderPriceMatchEnum, ModifyOrderSideEnum, NewOrderNewOrderRespTypeEnum, NewOrderParams, NewOrderPositionSideEnum, NewOrderPriceMatchEnum, NewOrderSelfTradePreventionModeEnum, NewOrderSideEnum, NewOrderTimeInForceEnum, NewOrderWorkingTypeEnum, PlaceMultipleOrdersParams, PositionAdlQuantileEstimationParams, PositionInformationV2Params, PositionInformationV3Params, QueryCurrentOpenOrderParams, QueryOrderParams, TestOrderNewOrderRespTypeEnum, TestOrderParams, TestOrderPositionSideEnum, TestOrderPriceMatchEnum, TestOrderSelfTradePreventionModeEnum, TestOrderSideEnum, TestOrderTimeInForceEnum, TestOrderWorkingTypeEnum, UsersForceOrdersAutoCloseTypeEnum, UsersForceOrdersParams, account_trade_list, all_orders, auto_cancel_all_open_orders, cancel_all_open_orders, cancel_multiple_orders, cancel_order, change_initial_leverage, change_margin_type, change_multi_assets_mode, change_position_mode, current_all_open_orders, get_order_modify_history, get_position_margin_change_history, modify_isolated_position_margin, modify_multiple_orders, modify_order, new_order, place_multiple_orders, position_adl_quantile_estimation, position_information_v2, position_information_v3, query_current_open_order, query_order, test_order, users_force_orders};
use arkin_binance::query::{HttpMethod, QueryValue};
use rust_decimal::Decimal;
use serde_json::Value;
use std::str::FromStr;

#[test]
fn change_margin_type_margin_type_enum_wire_names() {
    assert_eq!(ChangeMarginTypeMarginTypeEnum::Isolated.as_str(), "ISOLATED");
    assert_eq!(ChangeMarginTypeMarginTypeEnum::from_str("ISOLATED"), Ok(ChangeMarginTypeMarginTypeEnum::Isolated));
    assert_eq!(ChangeMarginTypeMarginTypeEnum::Crossed.as_str(), "CROSSED");
    assert_eq!(ChangeMarginTypeMarginTypeEnum::from_str("CROSSED"), Ok(ChangeMarginTypeMarginTypeEnum::Crossed));
    assert_eq!(ChangeMarginTypeMarginTypeEnum::from_str("isolatedx"), Err("invalid ChangeMarginTypeMarginTypeEnum: isolatedx".to_string()));
    assert_eq!(ChangeMarginTypeMarginTypeEnum::parse(""), Err("invalid ChangeMarginTypeMarginTypeEnum: ".to_string()));
}

#[test]
fn modify_isolated_position_margin_position_side_enum_wire_names() {
    assert_eq!(ModifyIsolatedPositionMarginPositionSideEnum::Both.as_str(), "BOTH");
    assert_eq!(ModifyIsolatedPositionMarginPositionSideEnum::from_str("BOTH"), Ok(ModifyIsolatedPositionMarginPositionSideEnum::Both));
    assert_eq!(ModifyIsolatedPositionMarginPositionSideEnum::Long.as_str(), "LONG");
    assert_eq!(ModifyIsolatedPositionMarginPositionSideEnum::from_str("LONG"), Ok(ModifyIsolatedPositionMarginPositionSideEnum::Long));
    assert_eq!(ModifyIsolatedPositionMarginPositionSideEnum::Short.as_str(), "SHORT");
    assert_eq!(ModifyIsolatedPositionMarginPositionSideEnum::from_str("SHORT"), Ok(ModifyIsolatedPositionMarginPositionSideEnum::Short));
    assert_eq!(ModifyIsolatedPositionMarginPositionSideEnum::from_str("bothx"), Err("invalid ModifyIsolatedPositionMarginPositionSideEnum: bothx".to_string()));
    assert_eq!(ModifyIsolatedPositionMarginPositionSideEnum::parse(""), Err("invalid ModifyIsolatedPositionMarginPositionSideEnum: ".to_string()));
}

#[test]
fn modify_order_side_enum_wire_names() {
    assert_eq!(ModifyOrderSideEnum::Buy.as_str(), "BUY");
    assert_eq!(ModifyOrderSideEnum::from_str("BUY"), Ok(ModifyOrderSideEnum::Buy));
    assert_eq!(ModifyOrderSideEnum::Sell.as_str(), "SELL");
    assert_eq!(ModifyOrderSideEnum::from_str("SELL"), Ok(ModifyOrderSideEnum::Sell));
    assert_eq!(ModifyOrderSideEnum::from_str("buyx"), Err("invalid ModifyOrderSideEnum: buyx".to_string()));
    assert_eq!(ModifyOrderSideEnum::parse(""), Err("invalid ModifyOrderSideEnum: ".to_string()));
}

#[test]
fn modify_order_price_match_enum_wire_names() {
    assert_eq!(ModifyOrderPriceMatchEnum::NoMatch.as_str(), "NONE");
    assert_eq!(ModifyOrderPriceMatchEnum::from_str("NONE"), Ok(ModifyOrderPriceMatchEnum::NoMatch));
    assert_eq!(ModifyOrderPriceMatchEnum::Opponent.as_str(), "OPPONENT");
    assert_eq!(ModifyOrderPriceMatchEnum::from_str("OPPONENT"), Ok(ModifyOrderPriceMatchEnum::Opponent));
    assert_eq!(ModifyOrderPriceMatchEnum::Opponent5.as_str(), "OPPONENT_5");
    assert_eq!(ModifyOrderPriceMatchEnum::from_str("OPPONENT_5"), Ok(ModifyOrderPriceMatchEnum::Opponent5));
    assert_eq!(ModifyOrderPriceMatchEnum::Opponent10.as_str(), "OPPONENT_10");
    assert_eq!(ModifyOrderPriceMatchEnum::from_str("OPPONENT_10"), Ok(ModifyOrderPriceMatchEnum::Opponent10));
    assert_eq!(ModifyOrderPriceMatchEnum::Opponent20.as_str(), "OPPONENT_20");
    assert_eq!(ModifyOrderPriceMatchEnum::from_str("OPPONENT_20"), Ok(ModifyOrderPriceMatchEnum::Opponent20));
    assert_eq!(ModifyOrderPriceMatchEnum::Queue.as_str(), "QUEUE");
    assert_eq!(ModifyOrderPriceMatchEnum::from_str("QUEUE"), Ok(ModifyOrderPriceMatchEnum::Queue));
    assert_eq!(ModifyOrderPriceMatchEnum::Queue5.as_str(), "QUEUE_5");
    assert_eq!(ModifyOrderPriceMatchEnum::from_str("QUEUE_5"), Ok(ModifyOrderPriceMatchEnum::Queue5));
    assert_eq!(ModifyOrderPriceMatchEnum::Queue10.as_str(), "QUEUE_10");
    assert_eq!(ModifyOrderPriceMatchEnum::from_str("QUEUE_10"), Ok(ModifyOrderPriceMatchEnum::Queue10));
    assert_eq!(ModifyOrderPriceMatchEnum::Queue20.as_str(), "QUEUE_20");
    assert_eq!(ModifyOrderPriceMatchEnum::from_str("QUEUE_20"), Ok(ModifyOrderPriceMatchEnum::Queue20));
    assert_eq!(ModifyOrderPriceMatchEnum::from_str("nonex"), Err("invalid ModifyOrderPriceMatchEnum: nonex".to_string()));
    assert_eq!(ModifyOrderPriceMatchEnum::parse(""), Err("invalid ModifyOrderPriceMatchEnum: ".to_string()));
}

#[test]
fn new_order_side_enum_wire_names() {
    assert_eq!(NewOrderSideEnum::Buy.as_str(), "BUY");
    assert_eq!(NewOrderSideEnum::from_str("BUY"), Ok(NewOrderSideEnum::Buy));
    assert_eq!(NewOrderSideEnum::Sell.as_str(), "SELL");
    assert_eq!(NewOrderSideEnum::from_str("SELL"), Ok(NewOrderSideEnum::Sell));
    assert_eq!(NewOrderSideEnum::from_str("buyx"), Err("invalid NewOrderSideEnum: buyx".to_string()));
    assert_eq!(NewOrderSideEnum::parse(""), Err("invalid NewOrderSideEnum: ".to_string()));
}

#[test]
fn new_order_position_side_enum_wire_names() {
    assert_eq!(NewOrderPositionSideEnum::Both.as_str(), "BOTH");
    assert_eq!(NewOrderPositionSideEnum::from_str("BOTH"), Ok(NewOrderPositionSideEnum::Both));
    assert_eq!(NewOrderPositionSideEnum::Long.as_str(), "LONG");
    assert_eq!(NewOrderPositionSideEnum::from_str("LONG"), Ok(NewOrderPositionSideEnum::Long));
    assert_eq!(NewOrderPositionSideEnum::Short.as_str(), "SHORT");
    assert_eq!(NewOrderPositionSideEnum::from_str("SHORT"), Ok(NewOrderPositionSideEnum::Short));
    assert_eq!(NewOrderPositionSideEnum::from_str("bothx"), Err("invalid NewOrderPositionSideEnum: bothx".to_string()));
    assert_eq!(NewOrderPositionSideEnum::parse(""), Err("invalid NewOrderPositionSideEnum: ".to_string()));
}

#[test]
fn new_order_time_in_force_enum_wire_names() {
    assert_eq!(NewOrderTimeInForceEnum::Gtc.as_str(), "GTC");
    assert_eq!(NewOrderTimeInForceEnum::from_str("GTC"), Ok(NewOrderTimeInForceEnum::Gtc));
    assert_eq!(NewOrderTimeInForceEnum::Ioc.as_str(), "IOC");
    assert_eq!(NewOrderTimeInForceEnum::from_str("IOC"), Ok(NewOrderTimeInForceEnum::Ioc));
    assert_eq!(NewOrderTimeInForceEnum::Fok.as_str(), "FOK");
    assert_eq!(NewOrderTimeInForceEnum::from_str("FOK"), Ok(NewOrderTimeInForceEnum::Fok));
    assert_eq!(NewOrderTimeInForceEnum::Gtx.as_str(), "GTX");
    assert_eq!(NewOrderTimeInForceEnum::from_str("GTX"), Ok(NewOrderTimeInForceEnum::Gtx));
    assert_eq!(NewOrderTimeInForceEnum::Gtd.as_str(), "GTD");
    assert_eq!(NewOrderTimeInForceEnum::from_str("GTD"), Ok(NewOrderTimeInForceEnum::Gtd));
    assert_eq!(NewOrderTimeInForceEnum::from_str("gtcx"), Err("invalid NewOrderTimeInForceEnum: gtcx".to_string()));
    assert_eq!(NewOrderTimeInForceEnum::parse(""), Err("invalid NewOrderTimeInForceEnum: ".to_string()));
}

#[test]
fn new_order_working_type_enum_wire_names() {
    assert_eq!(NewOrderWorkingTypeEnum::MarkPrice.as_str(), "MARK_PRICE");
    assert_eq!(NewOrderWorkingTypeEnum::from_str("MARK_PRICE"), Ok(NewOrderWorkingTypeEnum::MarkPrice));
    assert_eq!(NewOrderWorkingTypeEnum::ContractPrice.as_str(), "CONTRACT_PRICE");
    assert_eq!(NewOrderWorkingTypeEnum::from_str("CONTRACT_PRICE"), Ok(NewOrderWorkingTypeEnum::ContractPrice));
    assert_eq!(NewOrderWorkingTypeEnum::from_str("mark_pricex"), Err("invalid NewOrderWorkingTypeEnum: mark_pricex".to_string()));
    assert_eq!(NewOrderWorkingTypeEnum::parse(""), Err("invalid NewOrderWorkingTypeEnum: ".to_string()));
}

#[test]
fn new_order_new_order_resp_type_enum_wire_names() {
    assert_eq!(NewOrderNewOrderRespTypeEnum::Ack.as_str(), "ACK");
    assert_eq!(NewOrderNewOrderRespTypeEnum::from_str("ACK"), Ok(NewOrderNewOrderRespTypeEnum::Ack));
    assert_eq!(NewOrderNewOrderRespTypeEnum::Result.as_str(), "RESULT");
    assert_eq!(NewOrderNewOrderRespTypeEnum::from_str("RESULT"), Ok(NewOrderNewOrderRespTypeEnum::Result));
    assert_eq!(NewOrderNewOrderRespTypeEnum::from_str("ackx"), Err("invalid NewOrderNewOrderRespTypeEnum: ackx".to_string()));
    assert_eq!(NewOrderNewOrderRespTypeEnum::parse(""), Err("invalid NewOrderNewOrderRespTypeEnum: ".to_string()));
}

#[test]
fn new_order_price_match_enum_wire_names() {
    assert_eq!(NewOrderPriceMatchEnum::NoMatch.as_str(), "NONE");
    assert_eq!(NewOrderPriceMatchEnum::from_str("NONE"), Ok(NewOrderPriceMatchEnum::NoMatch));
    assert_eq!(NewOrderPriceMatchEnum::Opponent.as_str(), "OPPONENT");
    assert_eq!(NewOrderPriceMatchEnum::from_str("OPPONENT"), Ok(NewOrderPriceMatchEnum::Opponent));
    assert_eq!(NewOrderPriceMatchEnum::Opponent5.as_str(), "OPPONENT_5");
    assert_eq!(NewOrderPriceMatchEnum::from_str("OPPONENT_5"), Ok(NewOrderPriceMatchEnum::Opponent5));
    assert_eq!(NewOrderPriceMatchEnum::Opponent10.as_str(), "OPPONENT_10");
    assert_eq!(NewOrderPriceMatchEnum::from_str("OPPONENT_10"), Ok(NewOrderPriceMatchEnum::Opponent10));
    assert_eq!(NewOrderPriceMatchEnum::Opponent20.as_str(), "OPPONENT_20");
    assert_eq!(NewOrderPriceMatchEnum::from_str("OPPONENT_20"), Ok(NewOrderPriceMatchEnum::Opponent20));
    assert_eq!(NewOrderPriceMatchEnum::Queue.as_str(), "QUEUE");
    assert_eq!(NewOrderPriceMatchEnum::from_str("QUEUE"), Ok(NewOrderPriceMatchEnum::Queue));
    assert_eq!(NewOrderPriceMatchEnum::Queue5.as_str(), "QUEUE_5");
    assert_eq!(NewOrderPriceMatchEnum::from_str("QUEUE_5"), Ok(NewOrderPriceMatchEnum::Queue5));
    assert_eq!(NewOrderPriceMatchEnum::Queue10.as_str(), "QUEUE_10");
    assert_eq!(NewOrderPriceMatchEnum::from_str("QUEUE_10"), Ok(NewOrderPriceMatchEnum::Queue10));
    assert_eq!(NewOrderPriceMatchEnum::Queue20.as_str(), "QUEUE_20");
    assert_eq!(NewOrderPriceMatchEnum::from_str("QUEUE_20"), Ok(NewOrderPriceMatchEnum::Queue20));
    assert_eq!(NewOrderPriceMatchEnum::from_str("nonex"), Err("invalid NewOrderPriceMatchEnum: nonex".to_string()));
    assert_eq!(NewOrderPriceMatchEnum::parse(""), Err("invalid NewOrderPriceMatchEnum: ".to_string()));
}

#[test]
fn new_order_self_trade_prevention_mode_enum_wire_names() {
    assert_eq!(NewOrderSelfTradePreventionModeEnum::NoStp.as_str(), "NONE");
    assert_eq!(NewOrderSelfTradePreventionModeEnum::from_str("NONE"), Ok(NewOrderSelfTradePreventionModeEnum::NoStp));
    assert_eq!(NewOrderSelfTradePreventionModeEnum::ExpireTaker.as_str(), "EXPIRE_TAKER");
    assert_eq!(NewOrderSelfTradePreventionModeEnum::from_str("EXPIRE_TAKER"), Ok(NewOrderSelfTradePreventionModeEnum::ExpireTaker));
    assert_eq!(NewOrderSelfTradePreventionModeEnum::ExpireBoth.as_str(), "EXPIRE_BOTH");
    assert_eq!(NewOrderSelfTradePreventionModeEnum::from_str("EXPIRE_BOTH"), Ok(NewOrderSelfTradePreventionModeEnum::ExpireBoth));
    assert_eq!(NewOrderSelfTradePreventionModeEnum::ExpireMaker.as_str(), "EXPIRE_MAKER");
    assert_eq!(NewOrderSelfTradePreventionModeEnum::from_str("EXPIRE_MAKER"), Ok(NewOrderSelfTradePreventionModeEnum::ExpireMaker));
    assert_eq!(NewOrderSelfTradePreventionModeEnum::from_str("nonex"), Err("invalid NewOrderSelfTradePreventionModeEnum: nonex".to_string()));
    assert_eq!(NewOrderSelfTradePreventionModeEnum::parse(""), Err("invalid NewOrderSelfTradePreventionModeEnum: ".to_string()));
}

#[test]
fn test_order_side_enum_wire_names() {
    assert_eq!(TestOrderSideEnum::Buy.as_str(), "BUY");
    assert_eq!(TestOrderSideEnum::from_str("BUY"), Ok(TestOrderSideEnum::Buy));
    assert_eq!(TestOrderSideEnum::Sell.as_str(), "SELL");
    assert_eq!(TestOrderSideEnum::from_str("SELL"), Ok(TestOrderSideEnum::Sell));
    assert_eq!(TestOrderSideEnum::from_str("buyx"), Err("invalid TestOrderSideEnum: buyx".to_string()));
    assert_eq!(TestOrderSideEnum::parse(""), Err("invalid TestOrderSideEnum: ".to_string()));
}

#[test]
fn test_order_position_side_enum_wire_names() {
    assert_eq!(TestOrderPositionSideEnum::Both.as_str(), "BOTH");
    assert_eq!(TestOrderPositionSideEnum::from_str("BOTH"), Ok(TestOrderPositionSideEnum::Both));
    assert_eq!(TestOrderPositionSideEnum::Long.as_str(), "LONG");
    assert_eq!(TestOrderPositionSideEnum::from_str("LONG"), Ok(TestOrderPositionSideEnum::Long));
    assert_eq!(TestOrderPositionSideEnum::Short.as_str(), "SHORT");
    assert_eq!(TestOrderPositionSideEnum::from_str("SHORT"), Ok(TestOrderPositionSideEnum::Short));
    assert_eq!(TestOrderPositionSideEnum::from_str("bothx"), Err("invalid TestOrderPositionSideEnum: bothx".to_string()));
    assert_eq!(TestOrderPositionSideEnum::parse(""), Err("invalid TestOrderPositionSideEnum: ".to_string()));
}

#[test]
fn test_order_time_in_force_enum_wire_names() {
    assert_eq!(TestOrderTimeInForceEnum::Gtc.as_str(), "GTC");
    assert_eq!(TestOrderTimeInForceEnum::from_str("GTC"), Ok(TestOrderTimeInForceEnum::Gtc));
    assert_eq!(TestOrderTimeInForceEnum::Ioc.as_str(), "IOC");
    assert_eq!(TestOrderTimeInForceEnum::from_str("IOC"), Ok(TestOrderTimeInForceEnum::Ioc));
    assert_eq!(TestOrderTimeInForceEnum::Fok.as_str(), "FOK");
    assert_eq!(TestOrderTimeInForceEnum::from_str("FOK"), Ok(TestOrderTimeInForceEnum::Fok));
    assert_eq!(TestOrderTimeInForceEnum::Gtx.as_str(), "GTX");
    assert_eq!(TestOrderTimeInForceEnum::from_str("GTX"), Ok(TestOrderTimeInForceEnum::Gtx));
    assert_eq!(TestOrderTimeInForceEnum::Gtd.as_str(), "GTD");
    assert_eq!(TestOrderTimeInForceEnum::from_str("GTD"), Ok(TestOrderTimeInForceEnum::Gtd));
    assert_eq!(TestOrderTimeInForceEnum::from_str("gtcx"), Err("invalid TestOrderTimeInForceEnum: gtcx".to_string()));
    assert_eq!(TestOrderTimeInForceEnum::parse(""), Err("invalid TestOrderTimeInForceEnum: ".to_string()));
}

#[test]
fn test_order_working_type_enum_wire_names() {
    assert_eq!(TestOrderWorkingTypeEnum::MarkPrice.as_str(), "MARK_PRICE");
    assert_eq!(TestOrderWorkingTypeEnum::from_str("MARK_PRICE"), Ok(TestOrderWorkingTypeEnum::MarkPrice));
    assert_eq!(TestOrderWorkingTypeEnum::ContractPrice.as_str(), "CONTRACT_PRICE");
    assert_eq!(TestOrderWorkingTypeEnum::from_str("CONTRACT_PRICE"), Ok(TestOrderWorkingTypeEnum::ContractPrice));
    assert_eq!(TestOrderWorkingTypeEnum::from_str("mark_pricex"), Err("invalid TestOrderWorkingTypeEnum: mark_pricex".to_string()));
    assert_eq!(TestOrderWorkingTypeEnum::parse(""), Err("invalid TestOrderWorkingTypeEnum: ".to_string()));
}

#[test]
fn test_order_new_order_resp_type_enum_wire_names() {
    assert_eq!(TestOrderNewOrderRespTypeEnum::Ack.as_str(), "ACK");
    assert_eq!(TestOrderNewOrderRespTypeEnum::from_str("ACK"), Ok(TestOrderNewOrderRespTypeEnum::Ack));
    assert_eq!(TestOrderNewOrderRespTypeEnum::Result.as_str(), "RESULT");
    assert_eq!(TestOrderNewOrderRespTypeEnum::from_str("RESULT"), Ok(TestOrderNewOrderRespTypeEnum::Result));
    assert_eq!(TestOrderNewOrderRespTypeEnum::from_str("ackx"), Err("invalid TestOrderNewOrderRespTypeEnum: ackx".to_string()));
    assert_eq!(TestOrderNewOrderRespTypeEnum::parse(""), Err("invalid TestOrderNewOrderRespTypeEnum: ".to_string()));
}

#[test]
fn test_order_price_match_enum_wire_names() {
    assert_eq!(TestOrderPriceMatchEnum::NoMatch.as_str(), "NONE");
    assert_eq!(TestOrderPriceMatchEnum::from_str("NONE"), Ok(TestOrderPriceMatchEnum::NoMatch));
    assert_eq!(TestOrderPriceMatchEnum::Opponent.as_str(), "OPPONENT");
    assert_eq!(TestOrderPriceMatchEnum::from_str("OPPONENT"), Ok(TestOrderPriceMatchEnum::Opponent));
    assert_eq!(TestOrderPriceMatchEnum::Opponent5.as_str(), "OPPONENT_5");
    assert_eq!(TestOrderPriceMatchEnum::from_str("OPPONENT_5"), Ok(TestOrderPriceMatchEnum::Opponent5));
    assert_eq!(TestOrderPriceMatchEnum::Opponent10.as_str(), "OPPONENT_10");
    assert_eq!(TestOrderPriceMatchEnum::from_str("OPPONENT_10"), Ok(TestOrderPriceMatchEnum::Opponent10));
    assert_eq!(TestOrderPriceMatchEnum::Opponent20.as_str(), "OPPONENT_20");
    assert_eq!(TestOrderPriceMatchEnum::from_str("OPPONENT_20"), Ok(TestOrderPriceMatchEnum::Opponent20));
    assert_eq!(TestOrderPriceMatchEnum::Queue.as_str(), "QUEUE");
    assert_eq!(TestOrderPriceMatchEnum::from_str("QUEUE"), Ok(TestOrderPriceMatchEnum::Queue));
    assert_eq!(TestOrderPriceMatchEnum::Queue5.as_str(), "QUEUE_5");
    assert_eq!(TestOrderPriceMatchEnum::from_str("QUEUE_5"), Ok(TestOrderPriceMatchEnum::Queue5));
    assert_eq!(TestOrderPriceMatchEnum::Queue10.as_str(), "QUEUE_10");
    assert_eq!(TestOrderPriceMatchEnum::from_str("QUEUE_10"), Ok(TestOrderPriceMatchEnum::Queue10));
    assert_eq!(TestOrderPriceMatchEnum::Queue20.as_str(), "QUEUE_20");
    assert_eq!(TestOrderPriceMatchEnum::from_str("QUEUE_20"), Ok(TestOrderPriceMatchEnum::Queue20));
    assert_eq!(TestOrderPriceMatchEnum::from_str("nonex"), Err("invalid TestOrderPriceMatchEnum: nonex".to_string()));
    assert_eq!(TestOrderPriceMatchEnum::parse(""), Err("invalid TestOrderPriceMatchEnum: ".to_string()));
}

#[test]
fn test_order_self_trade_prevention_mode_enum_wire_names() {
    assert_eq!(TestOrderSelfTradePreventionModeEnum::NoStp.as_str(), "NONE");
    assert_eq!(TestOrderSelfTradePreventionModeEnum::from_str("NONE"), Ok(TestOrderSelfTradePreventionModeEnum::NoStp));
    assert_eq!(TestOrderSelfTradePreventionModeEnum::ExpireTaker.as_str(), "EXPIRE_TAKER");
    assert_eq!(TestOrderSelfTradePreventionModeEnum::from_str("EXPIRE_TAKER"), Ok(TestOrderSelfTradePreventionModeEnum::ExpireTaker));
    assert_eq!(TestOrderSelfTradePreventionModeEnum::ExpireBoth.as_str(), "EXPIRE_BOTH");
    assert_eq!(TestOrderSelfTradePreventionModeEnum::from_str("EXPIRE_BOTH"), Ok(TestOrderSelfTradePreventionModeEnum::ExpireBoth));
    assert_eq!(TestOrderSelfTradePreventionModeEnum::ExpireMaker.as_str(), "EXPIRE_MAKER");
    assert_eq!(TestOrderSelfTradePreventionModeEnum::from_str("EXPIRE_MAKER"), Ok(TestOrderSelfTradePreventionModeEnum::ExpireMaker));
    assert_eq!(TestOrderSelfTradePreventionModeEnum::from_str("nonex"), Err("invalid TestOrderSelfTradePreventionModeEnum: nonex".to_string()));
    assert_eq!(TestOrderSelfTradePreventionModeEnum::parse(""), Err("invalid TestOrderSelfTradePreventionModeEnum: ".to_string()));
}

#[test]
fn users_force_orders_auto_close_type_enum_wire_names() {
    assert_eq!(UsersForceOrdersAutoCloseTypeEnum::Liquidation.as_str(), "LIQUIDATION");
    assert_eq!(UsersForceOrdersAutoCloseTypeEnum::from_str("LIQUIDATION"), Ok(UsersForceOrdersAutoCloseTypeEnum::Liquidation));
    assert_eq!(UsersForceOrdersAutoCloseTypeEnum::Adl.as_str(), "ADL");
    assert_eq!(UsersForceOrdersAutoCloseTypeEnum::from_str("ADL"), Ok(UsersForceOrdersAutoCloseTypeEnum::Adl));
    assert_eq!(UsersForceOrdersAutoCloseTypeEnum::from_str("liquidationx"), Err("invalid UsersForceOrdersAutoCloseTypeEnum: liquidationx".to_string()));
    assert_eq!(UsersForceOrdersAutoCloseTypeEnum::parse(""), Err("invalid UsersForceOrdersAutoCloseTypeEnum: ".to_string()));
}

#[test]
fn account_trade_list_sends_every_given_parameter() {
    let params = AccountTradeListParams {
        symbol: "symbol-0".to_string(),
        order_id: Some(1001),
        start_time: Some(1002),
        end_time: Some(1003),
        from_id: Some(1004),
        limit: Some(1005),
        recv_window: Some(1006),
    };
    let req = account_trade_list(params);
    assert_eq!(req.path, "/fapi/v1/userTrades");
    assert_eq!(req.method, HttpMethod::Get);
    assert_eq!(req.signed, true);
    assert!(!req.uses_time_unit);
    match req.query.get("symbol") {
        Some(QueryValue::Text(s)) => assert_eq!(s, "symbol-0"),
        _ => panic!("symbol is not sent as expected"),
    }
    match req.query.get("orderId") {
        Some(QueryValue::Integer(n)) => assert_eq!(*n, 1001),
        _ => panic!("orderId is not sent as expected"),
    }
    match req.query.get("startTime") {
        Some(QueryValue::Integer(n)) => assert_eq!(*n, 1002),
        _ => panic!("startTime is not sent as expected"),
    }
    match req.query.get("endTime") {
        Some(QueryValue::Integer(n)) => assert_eq!(*n, 1003),
        _ => panic!("endTime is not sent as expected"),
    }
    match req.query.get("fromId") {
        Some(QueryValue::Integer(n)) => assert_eq!(*n, 1004),
        _ => panic!("fromId is not sent as expected"),
    }
    match req.query.get("limit") {
        Some(QueryValue::Integer(n)) => assert_eq!(*n, 1005),
        _ => panic!("limit is not sent as expected"),
    }
    match req.query.get("recvWindow") {
        Some(QueryValue::Integer(n)) => assert_eq!(*n, 1006),
        _ => panic!("recvWindow is not sent as expected"),
    }
    assert_eq!(req.query.into_entries().len(), 7);
}

#[test]
fn account_trade_list_leaves_out_absent_parameters() {
    let params = AccountTradeListParams {
        symbol: "symbol-0".to_string(),
        order_id: None,
        start_time: None,
        end_time: None,
        from_id: None,
        limit: None,
        recv_window: None,
    };
    let req = account_trade_list(params);
    match req.query.get("symbol") {
        Some(QueryValue::Text(s)) => assert_eq!(s, "symbol-0"),
        _ => panic!("symbol is not sent as expected"),
    }
    assert!(req.query.get("orderId").is_none());
    assert!(req.query.get("startTime").is_none());
    assert!(req.query.get("endTime").is_none());
    assert!(req.query.get("fromId").is_none());
    assert!(req.query.get("limit").is_none());
    assert!(req.query.get("recvWindow").is_none());
    assert_eq!(req.query.into_entries().len(), 1);
}

#[test]
fn all_orders_sends_every_given_parameter() {
    let params = AllOrdersParams {
        symbol: "symbol-0".to_string(),
        order_id: Some(1001),
        start_time: Some(1002),
        end_time: Some(1003),
        limit: Some(1004),
        recv_window: Some(1005),
    };
    let req = all_orders(params);
    assert_eq!(req.path, "/fapi/v1/allOrders");
    assert_eq!(req.method, HttpMethod::Get);
    assert_eq!(req.signed, true);
    assert!(!req.uses_time_unit);
    match req.query.get("symbol") {
        Some(QueryValue::Text(s)) => assert_eq!(s, "symbol-0"),
        _ => panic!("symbol is not sent as expected"),
    }
    match req.query.get("orderId") {
        Some(QueryValue::Integer(n)) => assert_eq!(*n, 1001),
        _ => panic!("orderId is not sent as expected"),
    }
    match req.query.get("startTime") {
        Some(QueryValue::Integer(n)) => assert_eq!(*n, 1002),
        _ => panic!("startTime is not sent as expected"),
    }
    match req.query.get("endTime") {
        Some(QueryValue::Integer(n)) => assert_eq!(*n, 1003),
        _ => panic!("endTime is not sent as expected"),
    }
    match req.query.get("limit") {
        Some(QueryValue::Integer(n)) => assert_eq!(*n, 1004),
        _ => panic!("limit is not sent as expected"),
    }
    match req.query.get("recvWindow") {
        Some(QueryValue::Integer(n)) => assert_eq!(*n, 1005),
        _ => panic!("recvWindow is not sent as expected"),
    }
    assert_eq!(req.query.into_entries().len(), 6);
}

#[test]
fn all_orders_leaves_out_absent_parameters() {
    let params = AllOrdersParams {
        symbol: "symbol-0".to_string(),
        order_id: None,
        start_time: None,
        end_time: None,
        limit: None,
        recv_window: None,
    };
    let req = all_orders(params);
    match req.query.get("symbol") {
        Some(QueryValue::Text(s)) => assert_eq!(s, "symbol-0"),
        _ => panic!("symbol is not sent as expected"),
    }
    assert!(req.query.get("orderId").is_none());
    assert!(req.query.get("startTime").is_none());
    assert!(req.query.get("endTime").is_none());
    assert!(req.query.get("limit").is_none());
    assert!(req.query.get("recvWindow").is_none());
    assert_eq!(req.query.into_entries().len(), 1);
}

#[test]
fn auto_cancel_all_open_orders_sends_every_given_parameter() {
    let params = AutoCancelAllOpenOrdersParams {
        symbol: "symbol-0".to_string(),
        countdown_time: 1001,
        recv_window: Some(1002),
    };
    let req = auto_cancel_all_open_orders(params);
    assert_eq!(req.path, "/fapi/v1/countdownCancelAll");
    assert_eq!(req.method, HttpMethod::Post);
    assert_eq!(req.signed, true);
    assert!(!req.uses_time_unit);
    match req.query.get("symbol") {
        Some(QueryValue::Text(s)) => assert_eq!(s, "symbol-0"),
        _ => panic!("symbol is not sent as expected"),
    }
    match req.query.get("countdownTime") {
        Some(QueryValue::Integer(n)) => assert_eq!(*n, 1001),
        _ => panic!("countdownTime is not sent as expected"),
    }
    match req.query.get("recvWindow") {
        Some(QueryValue::Integer(n)) => assert_eq!(*n, 1002),
        _ => panic!("recvWindow is not sent as expected"),
    }
    assert_eq!(req.query.into_entries().len(), 3);
}

#[test]
fn auto_cancel_all_open_orders_leaves_out_absent_parameters() {
    let params = AutoCancelAllOpenOrdersParams {
        symbol: "symbol-0".to_string(),
        countdown_time: 1001,
        recv_window: None,
    };
    let req = auto_cancel_all_open_orders(params);
    match req.query.get("symbol") {
        Some(QueryValue::Text(s)) => assert_eq!(s, "symbol-0"),
        _ => panic!("symbol is not sent as expected"),
    }
    match req.query.get("countdownTime") {
        Some(QueryValue::Integer(n)) => assert_eq!(*n, 1001),
        _ => panic!("countdownTime is not sent as expected"),
    }
    assert!(req.query.get("recvWindow").is_none());
    assert_eq!(req.query.into_entries().len(), 2);
}

#[test]
fn cancel_all_open_orders_sends_every_given_parameter() {
    let params = CancelAllOpenOrdersParams {
        symbol: "symbol-0".to_string(),
        recv_window: Some(1001),
    };
    let req = cancel_all_open_orders(params);
    assert_eq!(req.path, "/fapi/v1/allOpenOrders");
    assert_eq!(req.method, HttpMethod::Delete);
    assert_eq!(req.signed, true);
    assert!(!req.uses_time_unit);
    match req.query.get("symbol") {
        Some(QueryValue::Text(s)) => assert_eq!(s, "symbol-0"),
        _ => panic!("symbol is not sent as expected"),
    }
    match req.query.get("recvWindow") {
        Some(QueryValue::Integer(n)) => assert_eq!(*n, 1001),
        _ => panic!("recvWindow is not sent as expected"),
    }
    assert_eq!(req.query.into_entries().len(), 2);
}

#[test]
fn cancel_all_open_orders_leaves_out_absent_parameters() {
    let params = CancelAllOpenOrdersParams {
        symbol: "symbol-0".to_string(),
        recv_window: None,
    };
    let req = cancel_all_open_orders(params);
    match req.query.get("symbol") {
        Some(QueryValue::Text(s)) => assert_eq!(s, "symbol-0"),
        _ => panic!("symbol is not sent as expected"),
    }
    assert!(req.query.get("recvWindow").is_none());
    assert_eq!(req.query.into_entries().len(), 1);
}

#[test]
fn cancel_multiple_orders_sends_every_given_parameter() {
    let params = CancelMultipleOrdersParams {
        symbol: "symbol-0".to_string(),
        order_id_list: Some(vec![1, 2]),
        orig_client_order_id_list: Some(vec!["a2".to_string(), "b2".to_string()]),
        recv_window: Some(1003),
    };
    let req = cancel_multiple_orders(params);
    assert_eq!(req.path, "/fapi/v1/batchOrders");
    assert_eq!(req.method, HttpMethod::Delete);
    assert_eq!(req.signed, true);
    assert!(!req.uses_time_unit);
    match req.query.get("symbol") {
        Some(QueryValue::Text(s)) => assert_eq!(s, "symbol-0"),
        _ => panic!("symbol is not sent as expected"),
    }
    match req.query.get("orderIdList") {
        Some(QueryValue::IntegerList(l)) => assert_eq!(l, &vec![1, 2]),
        _ => panic!("orderIdList is not sent as expected"),
    }
    match req.query.get("origClientOrderIdList") {
        Some(QueryValue::TextList(l)) => assert_eq!(l, &vec!["a2".to_string(), "b2".to_string()]),
        _ => panic!("origClientOrderIdList is not sent as expected"),
    }
    match req.query.get("recvWindow") {
        Some(QueryValue::Integer(n)) => assert_eq!(*n, 1003),
        _ => panic!("recvWindow is not sent as expected"),
    }
    assert_eq!(req.query.into_entries().len(), 4);
}

#[test]
fn cancel_multiple_orders_leaves_out_absent_parameters() {
    let params = CancelMultipleOrdersParams {
        symbol: "symbol-0".to_string(),
        order_id_list: None,
        orig_client_order_id_list: None,
        recv_window: None,
    };
    let req = cancel_multiple_orders(params);
    match req.query.get("symbol") {
        Some(QueryValue::Text(s)) => assert_eq!(s, "symbol-0"),
        _ => panic!("symbol is not sent as expected"),
    }
    assert!(req.query.get("orderIdList").is_none());
    assert!(req.query.get("origClientOrderIdList").is_none());
    assert!(req.query.get("recvWindow").is_none());
    assert_eq!(req.query.into_entries().len(), 1);
}

#[test]
fn cancel_order_sends_every_given_parameter() {
    let params = CancelOrderParams {
        symbol: "symbol-0".to_string(),
        order_id: Some(1001),
        orig_client_order_id: Some("orig_client_order_id-2".to_string()),
        recv_window: Some(1003),
    };
    let req = cancel_order(params);
    assert_eq!(req.path, "/fapi/v1/order");
    assert_eq!(req.method, HttpMethod::Delete);
    assert_eq!(req.signed, true);
    assert!(!req.uses_time_unit);
    match req.query.get("symbol") {
        Some(QueryValue::Text(s)) => assert_eq!(s, "symbol-0"),
        _ => panic!("symbol is not sent as expected"),
    }
    match req.query.get("orderId") {
        Some(QueryValue::Integer(n)) => assert_eq!(*n, 1001),
        _ => panic!("orderId is not sent as expected"),
    }
    match req.query.get("origClientOrderId") {
        Some(QueryValue::Text(s)) => assert_eq!(s, "orig_client_order_id-2"),
        _ => panic!("origClientOrderId is not sent as expected"),
    }
    match req.query.get("recvWindow") {
        Some(QueryValue::Integer(n)) => assert_eq!(*n, 1003),
        _ => panic!("recvWindow is not sent as expected"),
    }
    assert_eq!(req.query.into_entries().len(), 4);
}

#[test]
fn cancel_order_leaves_out_absent_parameters() {
    let params = CancelOrderParams {
        symbol: "symbol-0".to_string(),
        order_id: None,
        orig_client_order_id: None,
        recv_window: None,
    };
    let req = cancel_order(params);
    match req.query.get("symbol") {
        Some(QueryValue::Text(s)) => assert_eq!(s, "symbol-0"),
        _ => panic!("symbol is not sent as expected"),
    }
    assert!(req.query.get("orderId").is_none());
    assert!(req.query.get("origClientOrderId").is_none());
    assert!(req.query.get("recvWindow").is_none());
    assert_eq!(req.query.into_entries().len(), 1);
}

#[test]
fn change_initial_leverage_sends_every_given_parameter() {
    let params = ChangeInitialLeverageParams {
        symbol: "symbol-0".to_string(),
        leverage: 1001,
        recv_window: Some(1002),
    };
    let req = change_initial_leverage(params);
    assert_eq!(req.path, "/fapi/v1/leverage");
    assert_eq!(req.method, HttpMethod::Post);
    assert_eq!(req.signed, true);
    assert!(!req.uses_time_unit);
    match req.query.get("symbol") {
        Some(QueryValue::Text(s)) => assert_eq!(s, "symbol-0"),
        _ => panic!("symbol is not sent as expected"),
    }
    match req.query.get("leverage") {
        Some(QueryValue::Integer(n)) => assert_eq!(*n, 1001),
        _ => panic!("leverage is not sent as expected"),
    }
    match req.query.get("recvWindow") {
        Some(QueryValue::Integer(n)) => assert_eq!(*n, 1002),
        _ => panic!("recvWindow is not sent as expected"),
    }
    assert_eq!(req.query.into_entries().len(), 3);
}

#[test]
fn change_initial_leverage_leaves_out_absent_parameters() {
    let params = ChangeInitialLeverageParams {
        symbol: "symbol-0".to_string(),
        leverage: 1001,
        recv_window: None,
    };
    let req = change_initial_leverage(params);
    match req.query.get("symbol") {
        Some(QueryValue::Text(s)) => assert_eq!(s, "symbol-0"),
        _ => panic!("symbol is not sent as expected"),
    }
    match req.query.get("leverage") {
        Some(QueryValue::Integer(n)) => assert_eq!(*n, 1001),
        _ => panic!("leverage is not sent as expected"),
    }
    assert!(req.query.get("recvWindow").is_none());
    assert_eq!(req.query.into_entries().len(), 2);
}

#[test]
fn change_margin_type_sends_every_given_parameter() {
    let params = ChangeMarginTypeParams {
        symbol: "symbol-0".to_string(),
        margin_type: ChangeMarginTypeMarginTypeEnum::Crossed,
        recv_window: Some(1002),
    };
    let req = change_margin_type(params);
    assert_eq!(req.path, "/fapi/v1/marginType");
    assert_eq!(req.method, HttpMethod::Post);
    assert_eq!(req.signed, true);
    assert!(!req.uses_time_unit);
    match req.query.get("symbol") {
        Some(QueryValue::Text(s)) => assert_eq!(s, "symbol-0"),
        _ => panic!("symbol is not sent as expected"),
    }
    match req.query.get("marginType") {
        Some(QueryValue::Text(s)) => assert_eq!(s, "CROSSED"),
        _ => panic!("marginType is not sent as expected"),
    }
    match req.query.get("recvWindow") {
        Some(QueryValue::Integer(n)) => assert_eq!(*n, 1002),
        _ => panic!("recvWindow is not sent as expected"),
    }
    assert_eq!(req.query.into_entries().len(), 3);
}

#[test]
fn change_margin_type_leaves_out_absent_parameters() {
    let params = ChangeMarginTypeParams {
        symbol: "symbol-0".to_string(),
        margin_type: ChangeMarginTypeMarginTypeEnum::Crossed,
        recv_window: None,
    };
    let req = change_margin_type(params);
    match req.query.get("symbol") {
        Some(QueryValue::Text(s)) => assert_eq!(s, "symbol-0"),
        _ => panic!("symbol is not sent as expected"),
    }
    match req.query.get("marginType") {
        Some(QueryValue::Text(s)) => assert_eq!(s, "CROSSED"),
        _ => panic!("marginType is not sent as expected"),
    }
    assert!(req.query.get("recvWindow").is_none());
    assert_eq!(req.query.into_entries().len(), 2);
}

#[test]
fn change_multi_assets_mode_sends_every_given_parameter() {
    let params = ChangeMultiAssetsModeParams {
        multi_assets_margin: "multi_assets_margin-0".to_string(),
        recv_window: Some(1001),
    };
    let req = change_multi_assets_mode(params);
    assert_eq!(req.path, "/fapi/v1/multiAssetsMargin");
    assert_eq!(req.method, HttpMethod::Post);
    assert_eq!(req.signed, true);
    assert!(!req.uses_time_unit);
    match req.query.get("multiAssetsMargin") {
        Some(QueryValue::Text(s)) => assert_eq!(s, "multi_assets_margin-0"),
        _ => panic!("multiAssetsMargin is not sent as expected"),
    }
    match req.query.get("recvWindow") {
        Some(QueryValue::Integer(n)) => assert_eq!(*n, 1001),
        _ => panic!("recvWindow is not sent as expected"),
    }
    assert_eq!(req.query.into_entries().len(), 2);
}

#[test]
fn change_multi_assets_mode_leaves_out_absent_parameters() {
    let params = ChangeMultiAssetsModeParams {
        multi_assets_margin: "multi_assets_margin-0".to_string(),
        recv_window: None,
    };
    let req = change_multi_assets_mode(params);
    match req.query.get("multiAssetsMargin") {
        Some(QueryValue::Text(s)) => assert_eq!(s, "multi_assets_margin-0"),
        _ => panic!("multiAssetsMargin is not sent as expected"),
    }
    assert!(req.query.get("recvWindow").is_none());
    assert_eq!(req.query.into_entries().len(), 1);
}

#[test]
fn change_position_mode_sends_every_given_parameter() {
    let params = ChangePositionModeParams {
        dual_side_position: "dual_side_position-0".to_string(),
        recv_window: Some(1001),
    };
    let req = change_position_mode(params);
    assert_eq!(req.path, "/fapi/v1/positionSide/dual");
    assert_eq!(req.method, HttpMethod::Post);
    assert_eq!(req.signed, true);
    assert!(!req.uses_time_unit);
    match req.query.get("dualSidePosition") {
        Some(QueryValue::Text(s)) => assert_eq!(s, "dual_side_position-0"),
        _ => panic!("dualSidePosition is not sent as expected"),
    }
    match req.query.get("recvWindow") {
        Some(QueryValue::Integer(n)) => assert_eq!(*n, 1001),
        _ => panic!("recvWindow is not sent as expected"),
    }
    assert_eq!(req.query.into_entries().len(), 2);
}

#[test]
fn change_position_mode_leaves_out_absent_parameters() {
    let params = ChangePositionModeParams {
        dual_side_position: "dual_side_position-0".to_string(),
        recv_window: None,
    };
    let req = change_position_mode(params);
    match req.query.get("dualSidePosition") {
        Some(QueryValue::Text(s)) => assert_eq!(s, "dual_side_position-0"),
        _ => panic!("dualSidePosition is not sent as expected"),
    }
    assert!(req.query.get("recvWindow").is_none());
    assert_eq!(req.query.into_entries().len(), 1);
}

#[test]
fn current_all_open_orders_sends_every_given_parameter() {
    let params = CurrentAllOpenOrdersParams {
        symbol: Some("symbol-0".to_string()),
        recv_window: Some(1001),
    };
    let req = current_all_open_orders(params);
    assert_eq!(req.path, "/fapi/v1/openOrders");
    assert_eq!(req.method, HttpMethod::Get);
    assert_eq!(req.signed, true);
    assert!(!req.uses_time_unit);
    match req.query.get("symbol") {
        Some(QueryValue::Text(s)) => assert_eq!(s, "symbol-0"),
        _ => panic!("symbol is not sent as expected"),
    }
    match req.query.get("recvWindow") {
        Some(QueryValue::Integer(n)) => assert_eq!(*n, 1001),
        _ => panic!("recvWindow is not sent as expected"),
    }
    assert_eq!(req.query.into_entries().len(), 2);
}

#[test]
fn current_all_open_orders_leaves_out_absent_parameters() {
    let params = CurrentAllOpenOrdersParams {
        symbol: None,
        recv_window: None,
    };
    let req = current_all_open_orders(params);
    assert!(req.query.get("symbol").is_none());
    assert!(req.query.get("recvWindow").is_none());
    assert_eq!(req.query.into_entries().len(), 0);
}

#[test]
fn get_order_modify_history_sends_every_given_parameter() {
    let params = GetOrderModifyHistoryParams {
        symbol: "symbol-0".to_string(),
        order_id: Some(1001),
        orig_client_order_id: Some("orig_client_order_id-2".to_string()),
        start_time: Some(1003),
        end_time: Some(1004),
        limit: Some(1005),
        recv_window: Some(1006),
    };
    let req = get_order_modify_history(params);
    assert_eq!(req.path, "/fapi/v1/orderAmendment");
    assert_eq!(req.method, HttpMethod::Get);
    assert_eq!(req.signed, true);
    assert!(!req.uses_time_unit);
    match req.query.get("symbol") {
        Some(QueryValue::Text(s)) => assert_eq!(s, "symbol-0"),
        _ => panic!("symbol is not sent as expected"),
    }
    match req.query.get("orderId") {
        Some(QueryValue::Integer(n)) => assert_eq!(*n, 1001),
        _ => panic!("orderId is not sent as expected"),
    }
    match req.query.get("origClientOrderId") {
        Some(QueryValue::Text(s)) => assert_eq!(s, "orig_client_order_id-2"),
        _ => panic!("origClientOrderId is not sent as expected"),
    }
    match req.query.get("startTime") {
        Some(QueryValue::Integer(n)) => assert_eq!(*n, 1003),
        _ => panic!("startTime is not sent as expected"),
    }
    match req.query.get("endTime") {
        Some(QueryValue::Integer(n)) => assert_eq!(*n, 1004),
        _ => panic!("endTime is not sent as expected"),
    }
    match req.query.get("limit") {
        Some(QueryValue::Integer(n)) => assert_eq!(*n, 1005),
        _ => panic!("limit is not sent as expected"),
    }
    match req.query.get("recvWindow") {
        Some(QueryValue::Integer(n)) => assert_eq!(*n, 1006),
        _ => panic!("recvWindow is not sent as expected"),
    }
    assert_eq!(req.query.into_entries().len(), 7);
}

#[test]
fn get_order_modify_history_leaves_out_absent_parameters() {
    let params = GetOrderModifyHistoryParams {
        symbol: "symbol-0".to_string(),
        order_id: None,
        orig_client_order_id: None,
        start_time: None,
        end_time: None,
        limit: None,
        recv_window: None,
    };
    let req = get_order_modify_history(params);
    match req.query.get("symbol") {
        Some(QueryValue::Text(s)) => assert_eq!(s, "symbol-0"),
        _ => panic!("symbol is not sent as expected"),
    }
    assert!(req.query.get("orderId").is_none());
    assert!(req.query.get("origClientOrderId").is_none());
    assert!(req.query.get("startTime").is_none());
    assert!(req.query.get("endTime").is_none());
    assert!(req.query.get("limit").is_none());
    assert!(req.query.get("recvWindow").is_none());
    assert_eq!(req.query.into_entries().len(), 1);
}

#[test]
fn get_position_margin_change_history_sends_every_given_parameter() {
    let params = GetPositionMarginChangeHistoryParams {
        symbol: "symbol-0".to_string(),
        change_type: Some(1001),
        start_time: Some(1002),
        end_time: Some(1003),
        limit: Some(1004),
        recv_window: Some(1005),
    };
    let req = get_position_margin_change_history(params);
    assert_eq!(req.path, "/fapi/v1/positionMargin/history");
    assert_eq!(req.method, HttpMethod::Get);
    assert_eq!(req.signed, true);
    assert!(!req.uses_time_unit);
    match req.query.get("symbol") {
        Some(QueryValue::Text(s)) => assert_eq!(s, "symbol-0"),
        _ => panic!("symbol is not sent as expected"),
    }
    match req.query.get("type") {
        Some(QueryValue::Integer(n)) => assert_eq!(*n, 1001),
        _ => panic!("type is not sent as expected"),
    }
    match req.query.get("startTime") {
        Some(QueryValue::Integer(n)) => assert_eq!(*n, 1002),
        _ => panic!("startTime is not sent as expected"),
    }
    match req.query.get("endTime") {
        Some(QueryValue::Integer(n)) => assert_eq!(*n, 1003),
        _ => panic!("endTime is not sent as expected"),
    }
    match req.query.get("limit") {
        Some(QueryValue::Integer(n)) => assert_eq!(*n, 1004),
        _ => panic!("limit is not sent as expected"),
    }
    match req.query.get("recvWindow") {
        Some(QueryValue::Integer(n)) => assert_eq!(*n, 1005),
        _ => panic!("recvWindow is not sent as expected"),
    }
    assert_eq!(req.query.into_entries().len(), 6);
}

#[test]
fn get_position_margin_change_history_leaves_out_absent_parameters() {
    let params = GetPositionMarginChangeHistoryParams {
        symbol: "symbol-0".to_string(),
        change_type: None,
        start_time: None,
        end_time: None,
        limit: None,
        recv_window: None,
    };
    let req = get_position_margin_change_history(params);
    match req.query.get("symbol") {
        Some(QueryValue::Text(s)) => assert_eq!(s, "symbol-0"),
        _ => panic!("symbol is not sent as expected"),
    }
    assert!(req.query.get("type").is_none());
    assert!(req.query.get("startTime").is_none());
    assert!(req.query.get("endTime").is_none());
    assert!(req.query.get("limit").is_none());
    assert!(req.query.get("recvWindow").is_none());
    assert_eq!(req.query.into_entries().len(), 1);
}

#[test]
fn modify_isolated_position_margin_sends_every_given_parameter() {
    let params = ModifyIsolatedPositionMarginParams {
        symbol: "symbol-0".to_string(),
        amount: Decimal::new(12346, 2),
        change_type: "change_type-2".to_string(),
        position_side: Some(ModifyIsolatedPositionMarginPositionSideEnum::Short),
        recv_window: Some(1004),
    };
    let req = modify_isolated_position_margin(params);
    assert_eq!(req.path, "/fapi/v1/positionMargin");
    assert_eq!(req.method, HttpMethod::Post);
    assert_eq!(req.signed, true);
    assert!(!req.uses_time_unit);
    match req.query.get("symbol") {
        Some(QueryValue::Text(s)) => assert_eq!(s, "symbol-0"),
        _ => panic!("symbol is not sent as expected"),
    }
    match req.query.get("amount") {
        Some(QueryValue::DecimalNumber(d)) => assert_eq!(*d, Decimal::new(12346, 2)),
        _ => panic!("amount is not sent as expected"),
    }
    match req.query.get("type") {
        Some(QueryValue::Text(s)) => assert_eq!(s, "change_type-2"),
        _ => panic!("type is not sent as expected"),
    }
    match req.query.get("positionSide") {
        Some(QueryValue::Text(s)) => assert_eq!(s, "SHORT"),
        _ => panic!("positionSide is not sent as expected"),
    }
    match req.query.get("recvWindow") {
        Some(QueryValue::Integer(n)) => assert_eq!(*n, 1004),
        _ => panic!("recvWindow is not sent as expected"),
    }
    assert_eq!(req.query.into_entries().len(), 5);
}

#[test]
fn modify_isolated_position_margin_leaves_out_absent_parameters() {
    let params = ModifyIsolatedPositionMarginParams {
        symbol: "symbol-0".to_string(),
        amount: Decimal::new(12346, 2),
        change_type: "change_type-2".to_string(),
        position_side: None,
        recv_window: None,
    };
    let req = modify_isolated_position_margin(params);
    match req.query.get("symbol") {
        Some(QueryValue::Text(s)) => assert_eq!(s, "symbol-0"),
        _ => panic!("symbol is not sent as expected"),
    }
    match req.query.get("amount") {
        Some(QueryValue::DecimalNumber(d)) => assert_eq!(*d, Decimal::new(12346, 2)),
        _ => panic!("amount is not sent as expected"),
    }
    match req.query.get("type") {
        Some(QueryValue::Text(s)) => assert_eq!(s, "change_type-2"),
        _ => panic!("type is not sent as expected"),
    }
    assert!(req.query.get("positionSide").is_none());
    assert!(req.query.get("recvWindow").is_none());
    assert_eq!(req.query.into_entries().len(), 3);
}

#[test]
fn modify_multiple_orders_sends_every_given_parameter() {
    let params = ModifyMultipleOrdersParams {
        batch_orders: vec![Value::String("order0".to_string())],
        recv_window: Some(1001),
    };
    let req = modify_multiple_orders(params);
    assert_eq!(req.path, "/fapi/v1/batchOrders");
    assert_eq!(req.method, HttpMethod::Put);
    assert_eq!(req.signed, true);
    assert!(!req.uses_time_unit);
    match req.query.get("batchOrders") {
        Some(QueryValue::JsonList(l)) => assert_eq!(l, &vec![Value::String("order0".to_string())]),
        _ => panic!("batchOrders is not sent as expected"),
    }
    match req.query.get("recvWindow") {
        Some(QueryValue::Integer(n)) => assert_eq!(*n, 1001),
        _ => panic!("recvWindow is not sent as expected"),
    }
    assert_eq!(req.query.into_entries().len(), 2);
}

#[test]
fn modify_multiple_orders_leaves_out_absent_parameters() {
    let params = ModifyMultipleOrdersParams {
        batch_orders: vec![Value::String("order0".to_string())],
        recv_window: None,
    };
    let req = modify_multiple_orders(params);
    match req.query.get("batchOrders") {
        Some(QueryValue::JsonList(l)) => assert_eq!(l, &vec![Value::String("order0".to_string())]),
        _ => panic!("batchOrders is not sent as expected"),
    }
    assert!(req.query.get("recvWindow").is_none());
    assert_eq!(req.query.into_entries().len(), 1);
}

#[test]
fn modify_order_sends_every_given_parameter() {
    let params = ModifyOrderParams {
        symbol: "symbol-0".to_string(),
        side: ModifyOrderSideEnum::Sell,
        quantity: Decimal::new(12347, 2),
        price: Decimal::new(12348, 2),
        order_id: Some(1004),
        orig_client_order_id: Some("orig_client_order_id-5".to_string()),
        price_match: Some(ModifyOrderPriceMatchEnum::Queue20),
        recv_window: Some(1007),
    };
    let req = modify_order(params);
    assert_eq!(req.path, "/fapi/v1/order");
    assert_eq!(req.method, HttpMethod::Put);
    assert_eq!(req.signed, true);
    assert!(!req.uses_time_unit);
    match req.query.get("symbol") {
        Some(QueryValue::Text(s)) => assert_eq!(s, "symbol-0"),
        _ => panic!("symbol is not sent as expected"),
    }
    match req.query.get("side") {
        Some(QueryValue::Text(s)) => assert_eq!(s, "SELL"),
        _ => panic!("side is not sent as expected"),
    }
    match req.query.get("quantity") {
        Some(QueryValue::DecimalNumber(d)) => assert_eq!(*d, Decimal::new(12347, 2)),
        _ => panic!("quantity is not sent as expected"),
    }
    assert!(req.query.get("price").is_none());
    match req.query.get("orderId") {
        Some(QueryValue::Integer(n)) => assert_eq!(*n, 1004),
        _ => panic!("orderId is not sent as expected"),
    }
    match req.query.get("origClientOrderId") {
        Some(QueryValue::Text(s)) => assert_eq!(s, "orig_client_order_id-5"),
        _ => panic!("origClientOrderId is not sent as expected"),
    }
    match req.query.get("priceMatch") {
        Some(QueryValue::Text(s)) => assert_eq!(s, "QUEUE_20"),
        _ => panic!("priceMatch is not sent as expected"),
    }
    match req.query.get("recvWindow") {
        Some(QueryValue::Integer(n)) => assert_eq!(*n, 1007),
        _ => panic!("recvWindow is not sent as expected"),
    }
    assert_eq!(req.query.into_entries().len(), 7);
}

#[test]
fn modify_order_leaves_out_absent_parameters() {
    let params = ModifyOrderParams {
        symbol: "symbol-0".to_string(),
        side: ModifyOrderSideEnum::Sell,
        quantity: Decimal::new(12347, 2),
        price: Decimal::new(12348, 2),
        order_id: None,
        orig_client_order_id: None,
        price_match: None,
        recv_window: None,
    };
    let req = modify_order(params);
    match req.query.get("symbol") {
        Some(QueryValue::Text(s)) => assert_eq!(s, "symbol-0"),
        _ => panic!("symbol is not sent as expected"),
    }
    match req.query.get("side") {
        Some(QueryValue::Text(s)) => assert_eq!(s, "SELL"),
        _ => panic!("side is not sent as expected"),
    }
    match req.query.get("quantity") {
        Some(QueryValue::DecimalNumber(d)) => assert_eq!(*d, Decimal::new(12347, 2)),
        _ => panic!("quantity is not sent as expected"),
    }
    match req.query.get("price") {
        Some(QueryValue::DecimalNumber(d)) => assert_eq!(*d, Decimal::new(12348, 2)),
        _ => panic!("price is not sent as expected"),
    }
    assert!(req.query.get("orderId").is_none());
    assert!(req.query.get("origClientOrderId").is_none());
    assert!(req.query.get("priceMatch").is_none());
    assert!(req.query.get("recvWindow").is_none());
    assert_eq!(req.query.into_entries().len(), 4);
}

#[test]
fn new_order_sends_every_given_parameter() {
    let params = NewOrderParams {
        symbol: "symbol-0".to_string(),
        side: NewOrderSideEnum::Sell,
        order_type: "order_type-2".to_string(),
        position_side: Some(NewOrderPositionSideEnum::Short),
        time_in_force: Some(NewOrderTimeInForceEnum::Gtd),
        quantity: Some(Decimal::new(12350, 2)),
        reduce_only: Some("reduce_only-6".to_string()),
        price: Some(Decimal::new(12352, 2)),
        new_client_order_id: Some("new_client_order_id-8".to_string()),
        stop_price: Some(Decimal::new(12354, 2)),
        close_position: Some("close_position-10".to_string()),
        activation_price: Some(Decimal::new(12356, 2)),
        callback_rate: Some(Decimal::new(12357, 2)),
        working_type: Some(NewOrderWorkingTypeEnum::ContractPrice),
        price_protect: Some("price_protect-14".to_string()),
        new_order_resp_type: Some(NewOrderNewOrderRespTypeEnum::Result),
        price_match: Some(NewOrderPriceMatchEnum::Queue20),
        self_trade_prevention_mode: Some(NewOrderSelfTradePreventionModeEnum::ExpireMaker),
        good_till_date: Some(1018),
        recv_window: Some(1019),
    };
    let req = new_order(params);
    assert_eq!(req.path, "/fapi/v1/order");
    assert_eq!(req.method, HttpMethod::Post);
    assert_eq!(req.signed, true);
    assert!(!req.uses_time_unit);
    match req.query.get("symbol") {
        Some(QueryValue::Text(s)) => assert_eq!(s, "symbol-0"),
        _ => panic!("symbol is not sent as expected"),
    }
    match req.query.get("side") {
        Some(QueryValue::Text(s)) => assert_eq!(s, "SELL"),
        _ => panic!("side is not sent as expected"),
    }
    match req.query.get("type") {
        Some(QueryValue::Text(s)) => assert_eq!(s, "order_type-2"),
        _ => panic!("type is not sent as expected"),
    }
    match req.query.get("positionSide") {
        Some(QueryValue::Text(s)) => assert_eq!(s, "SHORT"),
        _ => panic!("positionSide is not sent as expected"),
    }
    match req.query.get("timeInForce") {
        Some(QueryValue::Text(s)) => assert_eq!(s, "GTD"),
        _ => panic!("timeInForce is not sent as expected"),
    }
    match req.query.get("quantity") {
        Some(QueryValue::DecimalNumber(d)) => assert_eq!(*d, Decimal::new(12350, 2)),
        _ => panic!("quantity is not sent as expected"),
    }
    match req.query.get("reduceOnly") {
        Some(QueryValue::Text(s)) => assert_eq!(s, "reduce_only-6"),
        _ => panic!("reduceOnly is not sent as expected"),
    }
    match req.query.get("price") {
        Some(QueryValue::DecimalNumber(d)) => assert_eq!(*d, Decimal::new(12352, 2)),
        _ => panic!("price is not sent as expected"),
    }
    match req.query.get("newClientOrderId") {
        Some(QueryValue::Text(s)) => assert_eq!(s, "new_client_order_id-8"),
        _ => panic!("newClientOrderId is not sent as expected"),
    }
    match req.query.get("stopPrice") {
        Some(QueryValue::DecimalNumber(d)) => assert_eq!(*d, Decimal::new(12354, 2)),
        _ => panic!("stopPrice is not sent as expected"),
    }
    match req.query.get("closePosition") {
        Some(QueryValue::Text(s)) => assert_eq!(s, "close_position-10"),
        _ => panic!("closePosition is not sent as expected"),
    }
    match req.query.get("activationPrice") {
        Some(QueryValue::DecimalNumber(d)) => assert_eq!(*d, Decimal::new(12356, 2)),
        _ => panic!("activationPrice is not sent as expected"),
    }
    match req.query.get("callbackRate") {
        Some(QueryValue::DecimalNumber(d)) => assert_eq!(*d, Decimal::new(12357, 2)),
        _ => panic!("callbackRate is not sent as expected"),
    }
    match req.query.get("workingType") {
        Some(QueryValue::Text(s)) => assert_eq!(s, "CONTRACT_PRICE"),
        _ => panic!("workingType is not sent as expected"),
    }
    match req.query.get("priceProtect") {
        Some(QueryValue::Text(s)) => assert_eq!(s, "price_protect-14"),
        _ => panic!("priceProtect is not sent as expected"),
    }
    match req.query.get("newOrderRespType") {
        Some(QueryValue::Text(s)) => assert_eq!(s, "RESULT"),
        _ => panic!("newOrderRespType is not sent as expected"),
    }
    match req.query.get("priceMatch") {
        Some(QueryValue::Text(s)) => assert_eq!(s, "QUEUE_20"),
        _ => panic!("priceMatch is not sent as expected"),
    }
    match req.query.get("selfTradePreventionMode") {
        Some(QueryValue::Text(s)) => assert_eq!(s, "EXPIRE_MAKER"),
        _ => panic!("selfTradePreventionMode is not sent as expected"),
    }
    match req.query.get("goodTillDate") {
        Some(QueryValue::Integer(n)) => assert_eq!(*n, 1018),
        _ => panic!("goodTillDate is not sent as expected"),
    }
    match req.query.get("recvWindow") {
        Some(QueryValue::Integer(n)) => assert_eq!(*n, 1019),
        _ => panic!("recvWindow is not sent as expected"),
    }
    assert_eq!(req.query.into_entries().len(), 20);
}

#[test]
fn new_order_leaves_out_absent_parameters() {
    let params = NewOrderParams {
        symbol: "symbol-0".to_string(),
        side: NewOrderSideEnum::Sell,
        order_type: "order_type-2".to_string(),
        position_side: None,
        time_in_force: None,
        quantity: None,
        reduce_only: None,
        price: None,
        new_client_order_id: None,
        stop_price: None,
        close_position: None,
        activation_price: None,
        callback_rate: None,
        working_type: None,
        price_protect: None,
        new_order_resp_type: None,
        price_match: None,
        self_trade_prevention_mode: None,
        good_till_date: None,
        recv_window: None,
    };
    let req = new_order(params);
    match req.query.get("symbol") {
        Some(QueryValue::Text(s)) => assert_eq!(s, "symbol-0"),
        _ => panic!("symbol is not sent as expected"),
    }
    match req.query.get("side") {
        Some(QueryValue::Text(s)) => assert_eq!(s, "SELL"),
        _ => panic!("side is not sent as expected"),
    }
    match req.query.get("type") {
        Some(QueryValue::Text(s)) => assert_eq!(s, "order_type-2"),
        _ => panic!("type is not sent as expected"),
    }
    assert!(req.query.get("positionSide").is_none());
    assert!(req.query.get("timeInForce").is_none());
    assert!(req.query.get("quantity").is_none());
    assert!(req.query.get("reduceOnly").is_none());
    assert!(req.query.get("price").is_none());
    assert!(req.query.get("newClientOrderId").is_none());
    assert!(req.query.get("stopPrice").is_none());
    assert!(req.query.get("closePosition").is_none());
    assert!(req.query.get("activationPrice").is_none());
    assert!(req.query.get("callbackRate").is_none());
    assert!(req.query.get("workingType").is_none());
    assert!(req.query.get("priceProtect").is_none());
    assert!(req.query.get("newOrderRespType").is_none());
    assert!(req.query.get("priceMatch").is_none());
    assert!(req.query.get("selfTradePreventionMode").is_none());
    assert!(req.query.get("goodTillDate").is_none());
    assert!(req.query.get("recvWindow").is_none());
    assert_eq!(req.query.into_entries().len(), 3);
}

#[test]
fn place_multiple_orders_sends_every_given_parameter() {
    let params = PlaceMultipleOrdersParams {
        batch_orders: vec![Value::String("order0".to_string())],
        recv_window: Some(1001),
    };
    let req = place_multiple_orders(params);
    assert_eq!(req.path, "/fapi/v1/batchOrders");
    assert_eq!(req.method, HttpMethod::Post);
    assert_eq!(req.signed, true);
    assert!(!req.uses_time_unit);
    match req.query.get("batchOrders") {
        Some(QueryValue::JsonList(l)) => assert_eq!(l, &vec![Value::String("order0".to_string())]),
        _ => panic!("batchOrders is not sent as expected"),
    }
    match req.query.get("recvWindow") {
        Some(QueryValue::Integer(n)) => assert_eq!(*n, 1001),
        _ => panic!("recvWindow is not sent as expected"),
    }
    assert_eq!(req.query.into_entries().len(), 2);
}

#[test]
fn place_multiple_orders_leaves_out_absent_parameters() {
    let params = PlaceMultipleOrdersParams {
        batch_orders: vec![Value::String("order0".to_string())],
        recv_window: None,
    };
    let req = place_multiple_orders(params);
    match req.query.get("batchOrders") {
        Some(QueryValue::JsonList(l)) => assert_eq!(l, &vec![Value::String("order0".to_string())]),
        _ => panic!("batchOrders is not sent as expected"),
    }
    assert!(req.query.get("recvWindow").is_none());
    assert_eq!(req.query.into_entries().len(), 1);
}

#[test]
fn position_adl_quantile_estimation_sends_every_given_parameter() {
    let params = PositionAdlQuantileEstimationParams {
        symbol: Some("symbol-0".to_string()),
        recv_window: Some(1001),
    };
    let req = position_adl_quantile_estimation(params);
    assert_eq!(req.path, "/fapi/v1/adlQuantile");
    assert_eq!(req.method, HttpMethod::Get);
    assert_eq!(req.signed, true);
    assert!(!req.uses_time_unit);
    match req.query.get("symbol") {
        Some(QueryValue::Text(s)) => assert_eq!(s, "symbol-0"),
        _ => panic!("symbol is not sent as expected"),
    }
    match req.query.get("recvWindow") {
        Some(QueryValue::Integer(n)) => assert_eq!(*n, 1001),
        _ => panic!("recvWindow is not sent as expected"),
    }
    assert_eq!(req.query.into_entries().len(), 2);
}

#[test]
fn position_adl_quantile_estimation_leaves_out_absent_parameters() {
    let params = PositionAdlQuantileEstimationParams {
        symbol: None,
        recv_window: None,
    };
    let req = position_adl_quantile_estimation(params);
    assert!(req.query.get("symbol").is_none());
    assert!(req.query.get("recvWindow").is_none());
    assert_eq!(req.query.into_entries().len(), 0);
}

#[test]
fn position_information_v2_sends_every_given_parameter() {
    let params = PositionInformationV2Params {
        symbol: Some("symbol-0".to_string()),
        recv_window: Some(1001),
    };
    let req = position_information_v2(params);
    assert_eq!(req.path, "/fapi/v2/positionRisk");
    assert_eq!(req.method, HttpMethod::Get);
    assert_eq!(req.signed, true);
    assert!(!req.uses_time_unit);
    match req.query.get("symbol") {
        Some(QueryValue::Text(s)) => assert_eq!(s, "symbol-0"),
        _ => panic!("symbol is not sent as expected"),
    }
    match req.query.get("recvWindow") {
        Some(QueryValue::Integer(n)) => assert_eq!(*n, 1001),
        _ => panic!("recvWindow is not sent as expected"),
    }
    assert_eq!(req.query.into_entries().len(), 2);
}

#[test]
fn position_information_v2_leaves_out_absent_parameters() {
    let params = PositionInformationV2Params {
        symbol: None,
        recv_window: None,
    };
    let req = position_information_v2(params);
    assert!(req.query.get("symbol").is_none());
    assert!(req.query.get("recvWindow").is_none());
    assert_eq!(req.query.into_entries().len(), 0);
}

#[test]
fn position_information_v3_sends_every_given_parameter() {
    let params = PositionInformationV3Params {
        symbol: Some("symbol-0".to_string()),
        recv_window: Some(1001),
    };
    let req = position_information_v3(params);
    assert_eq!(req.path, "/fapi/v3/positionRisk");
    assert_eq!(req.method, HttpMethod::Get);
    assert_eq!(req.signed, true);
    assert!(!req.uses_time_unit);
    match req.query.get("symbol") {
        Some(QueryValue::Text(s)) => assert_eq!(s, "symbol-0"),
        _ => panic!("symbol is not sent as expected"),
    }
    match req.query.get("recvWindow") {
        Some(QueryValue::Integer(n)) => assert_eq!(*n, 1001),
        _ => panic!("recvWindow is not sent as expected"),
    }
    assert_eq!(req.query.into_entries().len(), 2);
}

#[test]
fn position_information_v3_leaves_out_absent_parameters() {
    let params = PositionInformationV3Params {
        symbol: None,
        recv_window: None,
    };
    let req = position_information_v3(params);
    assert!(req.query.get("symbol").is_none());
    assert!(req.query.get("recvWindow").is_none());
    assert_eq!(req.query.into_entries().len(), 0);
}

#[test]
fn query_current_open_order_sends_every_given_parameter() {
    let params = QueryCurrentOpenOrderParams {
        symbol: "symbol-0".to_string(),
        order_id: Some(1001),
        orig_client_order_id: Some("orig_client_order_id-2".to_string()),
        recv_window: Some(1003),
    };
    let req = query_current_open_order(params);
    assert_eq!(req.path, "/fapi/v1/openOrder");
    assert_eq!(req.method, HttpMethod::Get);
    assert_eq!(req.signed, true);
    assert!(!req.uses_time_unit);
    match req.query.get("symbol") {
        Some(QueryValue::Text(s)) => assert_eq!(s, "symbol-0"),
        _ => panic!("symbol is not sent as expected"),
    }
    match req.query.get("orderId") {
        Some(QueryValue::Integer(n)) => assert_eq!(*n, 1001),
        _ => panic!("orderId is not sent as expected"),
    }
    match req.query.get("origClientOrderId") {
        Some(QueryValue::Text(s)) => assert_eq!(s, "orig_client_order_id-2"),
        _ => panic!("origClientOrderId is not sent as expected"),
    }
    match req.query.get("recvWindow") {
        Some(QueryValue::Integer(n)) => assert_eq!(*n, 1003),
        _ => panic!("recvWindow is not sent as expected"),
    }
    assert_eq!(req.query.into_entries().len(), 4);
}

#[test]
fn query_current_open_order_leaves_out_absent_parameters() {
    let params = QueryCurrentOpenOrderParams {
        symbol: "symbol-0".to_string(),
        order_id: None,
        orig_client_order_id: None,
        recv_window: None,
    };
    let req = query_current_open_order(params);
    match req.query.get("symbol") {
        Some(QueryValue::Text(s)) => assert_eq!(s, "symbol-0"),
        _ => panic!("symbol is not sent as expected"),
    }
    assert!(req.query.get("orderId").is_none());
    assert!(req.query.get("origClientOrderId").is_none());
    assert!(req.query.get("recvWindow").is_none());
    assert_eq!(req.query.into_entries().len(), 1);
}

#[test]
fn query_order_sends_every_given_parameter() {
    let params = QueryOrderParams {
        symbol: "symbol-0".to_string(),
        order_id: Some(1001),
        orig_client_order_id: Some("orig_client_order_id-2".to_string()),
        recv_window: Some(1003),
    };
    let req = query_order(params);
    assert_eq!(req.path, "/fapi/v1/order");
    assert_eq!(req.method, HttpMethod::Get);
    assert_eq!(req.signed, true);
    assert!(!req.uses_time_unit);
    match req.query.get("symbol") {
        Some(QueryValue::Text(s)) => assert_eq!(s, "symbol-0"),
        _ => panic!("symbol is not sent as expected"),
    }
    match req.query.get("orderId") {
        Some(QueryValue::Integer(n)) => assert_eq!(*n, 1001),
        _ => panic!("orderId is not sent as expected"),
    }
    match req.query.get("origClientOrderId") {
        Some(QueryValue::Text(s)) => assert_eq!(s, "orig_client_order_id-2"),
        _ => panic!("origClientOrderId is not sent as expected"),
    }
    match req.query.get("recvWindow") {
        Some(QueryValue::Integer(n)) => assert_eq!(*n, 1003),
        _ => panic!("recvWindow is not sent as expected"),
    }
    assert_eq!(req.query.into_entries().len(), 4);
}

#[test]
fn query_order_leaves_out_absent_parameters() {
    let params = QueryOrderParams {
        symbol: "symbol-0".to_string(),
        order_id: None,
        orig_client_order_id: None,
        recv_window: None,
    };
    let req = query_order(params);
    match req.query.get("symbol") {
        Some(QueryValue::Text(s)) => assert_eq!(s, "symbol-0"),
        _ => panic!("symbol is not sent as expected"),
    }
    assert!(req.query.get("orderId").is_none());
    assert!(req.query.get("origClientOrderId").is_none());
    assert!(req.query.get("recvWindow").is_none());
    assert_eq!(req.query.into_entries().len(), 1);
}

#[test]
fn test_order_sends_every_given_parameter() {
    let params = TestOrderParams {
        symbol: "symbol-0".to_string(),
        side: TestOrderSideEnum::Sell,
        order_type: "order_type-2".to_string(),
        position_side: Some(TestOrderPositionSideEnum::Short),
        time_in_force: Some(TestOrderTimeInForceEnum::Gtd),
        quantity: Some(Decimal::new(12350, 2)),
        reduce_only: Some("reduce_only-6".to_string()),
        price: Some(Decimal::new(12352, 2)),
        new_client_order_id: Some("new_client_order_id-8".to_string()),
        stop_price: Some(Decimal::new(12354, 2)),
        close_position: Some("close_position-10".to_string()),
        activation_price: Some(Decimal::new(12356, 2)),
        callback_rate: Some(Decimal::new(12357, 2)),
        working_type: Some(TestOrderWorkingTypeEnum::ContractPrice),
        price_protect: Some("price_protect-14".to_string()),
        new_order_resp_type: Some(TestOrderNewOrderRespTypeEnum::Result),
        price_match: Some(TestOrderPriceMatchEnum::Queue20),
        self_trade_prevention_mode: Some(TestOrderSelfTradePreventionModeEnum::ExpireMaker),
        good_till_date: Some(1018),
        recv_window: Some(1019),
    };
    let req = test_order(params);
    assert_eq!(req.path, "/fapi/v1/order/test");
    assert_eq!(req.method, HttpMethod::Post);
    assert_eq!(req.signed, true);
    assert!(!req.uses_time_unit);
    match req.query.get("symbol") {
        Some(QueryValue::Text(s)) => assert_eq!(s, "symbol-0"),
        _ => panic!("symbol is not sent as expected"),
    }
    match req.query.get("side") {
        Some(QueryValue::Text(s)) => assert_eq!(s, "SELL"),
        _ => panic!("side is not sent as expected"),
    }
    match req.query.get("type") {
        Some(QueryValue::Text(s)) => assert_eq!(s, "order_type-2"),
        _ => panic!("type is not sent as expected"),
    }
    match req.query.get("positionSide") {
        Some(QueryValue::Text(s)) => assert_eq!(s, "SHORT"),
        _ => panic!("positionSide is not sent as expected"),
    }
    match req.query.get("timeInForce") {
        Some(QueryValue::Text(s)) => assert_eq!(s, "GTD"),
        _ => panic!("timeInForce is not sent as expected"),
    }
    match req.query.get("quantity") {
        Some(QueryValue::DecimalNumber(d)) => assert_eq!(*d, Decimal::new(12350, 2)),
        _ => panic!("quantity is not sent as expected"),
    }
    match req.query.get("reduceOnly") {
        Some(QueryValue::Text(s)) => assert_eq!(s, "reduce_only-6"),
        _ => panic!("reduceOnly is not sent as expected"),
    }
    match req.query.get("price") {
        Some(QueryValue::DecimalNumber(d)) => assert_eq!(*d, Decimal::new(12352, 2)),
        _ => panic!("price is not sent as expected"),
    }
    match req.query.get("newClientOrderId") {
        Some(QueryValue::Text(s)) => assert_eq!(s, "new_client_order_id-8"),
        _ => panic!("newClientOrderId is not sent as expected"),
    }
    match req.query.get("stopPrice") {
        Some(QueryValue::DecimalNumber(d)) => assert_eq!(*d, Decimal::new(12354, 2)),
        _ => panic!("stopPrice is not sent as expected"),
    }
    match req.query.get("closePosition") {
        Some(QueryValue::Text(s)) => assert_eq!(s, "close_position-10"),
        _ => panic!("closePosition is not sent as expected"),
    }
    match req.query.get("activationPrice") {
        Some(QueryValue::DecimalNumber(d)) => assert_eq!(*d, Decimal::new(12356, 2)),
        _ => panic!("activationPrice is not sent as expected"),
    }
    match req.query.get("callbackRate") {
        Some(QueryValue::DecimalNumber(d)) => assert_eq!(*d, Decimal::new(12357, 2)),
        _ => panic!("callbackRate is not sent as expected"),
    }
    match req.query.get("workingType") {
        Some(QueryValue::Text(s)) => assert_eq!(s, "CONTRACT_PRICE"),
        _ => panic!("workingType is not sent as expected"),
    }
    match req.query.get("priceProtect") {
        Some(QueryValue::Text(s)) => assert_eq!(s, "price_protect-14"),
        _ => panic!("priceProtect is not sent as expected"),
    }
    match req.query.get("newOrderRespType") {
        Some(QueryValue::Text(s)) => assert_eq!(s, "RESULT"),
        _ => panic!("newOrderRespType is not sent as expected"),
    }
    match req.query.get("priceMatch") {
        Some(QueryValue::Text(s)) => assert_eq!(s, "QUEUE_20"),
        _ => panic!("priceMatch is not sent as expected"),
    }
    match req.query.get("selfTradePreventionMode") {
        Some(QueryValue::Text(s)) => assert_eq!(s, "EXPIRE_MAKER"),
        _ => panic!("selfTradePreventionMode is not sent as expected"),
    }
    match req.query.get("goodTillDate") {
        Some(QueryValue::Integer(n)) => assert_eq!(*n, 1018),
        _ => panic!("goodTillDate is not sent as expected"),
    }
    match req.query.get("recvWindow") {
        Some(QueryValue::Integer(n)) => assert_eq!(*n, 1019),
        _ => panic!("recvWindow is not sent as expected"),
    }
    assert_eq!(req.query.into_entries().len(), 20);
}

#[test]
fn test_order_leaves_out_absent_parameters() {
    let params = TestOrderParams {
        symbol: "symbol-0".to_string(),
        side: TestOrderSideEnum::Sell,
        order_type: "order_type-2".to_string(),
        position_side: None,
        time_in_force: None,
        quantity: None,
        reduce_only: None,
        price: None,
        new_client_order_id: None,
        stop_price: None,
        close_position: None,
        activation_price: None,
        callback_rate: None,
        working_type: None,
        price_protect: None,
        new_order_resp_type: None,
        price_match: None,
        self_trade_prevention_mode: None,
        good_till_date: None,
        recv_window: None,
    };
    let req = test_order(params);
    match req.query.get("symbol") {
        Some(QueryValue::Text(s)) => assert_eq!(s, "symbol-0"),
        _ => panic!("symbol is not sent as expected"),
    }
    match req.query.get("side") {
        Some(QueryValue::Text(s)) => assert_eq!(s, "SELL"),
        _ => panic!("side is not sent as expected"),
    }
    match req.query.get("type") {
        Some(QueryValue::Text(s)) => assert_eq!(s, "order_type-2"),
        _ => panic!("type is not sent as expected"),
    }
    assert!(req.query.get("positionSide").is_none());
    assert!(req.query.get("timeInForce").is_none());
    assert!(req.query.get("quantity").is_none());
    assert!(req.query.get("reduceOnly").is_none());
    assert!(req.query.get("price").is_none());
    assert!(req.query.get("newClientOrderId").is_none());
    assert!(req.query.get("stopPrice").is_none());
    assert!(req.query.get("closePosition").is_none());
    assert!(req.query.get("activationPrice").is_none());
    assert!(req.query.get("callbackRate").is_none());
    assert!(req.query.get("workingType").is_none());
    assert!(req.query.get("priceProtect").is_none());
    assert!(req.query.get("newOrderRespType").is_none());
    assert!(req.query.get("priceMatch").is_none());
    assert!(req.query.get("selfTradePreventionMode").is_none());
    assert!(req.query.get("goodTillDate").is_none());
    assert!(req.query.get("recvWindow").is_none());
    assert_eq!(req.query.into_entries().len(), 3);
}

#[test]
fn users_force_orders_sends_every_given_parameter() {
    let params = UsersForceOrdersParams {
        symbol: Some("symbol-0".to_string()),
        auto_close_type: Some(UsersForceOrdersAutoCloseTypeEnum::Adl),
        start_time: Some(1002),
        end_time: Some(1003),
        limit: Some(1004),
        recv_window: Some(1005),
    };
    let req = users_force_orders(params);
    assert_eq!(req.path, "/fapi/v1/forceOrders");
    assert_eq!(req.method, HttpMethod::Get);
    assert_eq!(req.signed, true);
    assert!(!req.uses_time_unit);
    match req.query.get("symbol") {
        Some(QueryValue::Text(s)) => assert_eq!(s, "symbol-0"),
        _ => panic!("symbol is not sent as expected"),
    }
    match req.query.get("autoCloseType") {
        Some(QueryValue::Text(s)) => assert_eq!(s, "ADL"),
        _ => panic!("autoCloseType is not sent as expected"),
    }
    match req.query.get("startTime") {
        Some(QueryValue::Integer(n)) => assert_eq!(*n, 1002),
        _ => panic!("startTime is not sent as expected"),
    }
    match req.query.get("endTime") {
        Some(QueryValue::Integer(n)) => assert_eq!(*n, 1003),
        _ => panic!("endTime is not sent as expected"),
    }
    match req.query.get("limit") {
        Some(QueryValue::Integer(n)) => assert_eq!(*n, 1004),
        _ => panic!("limit is not sent as expected"),
    }
    match req.query.get("recvWindow") {
        Some(QueryValue::Integer(n)) => assert_eq!(*n, 1005),
        _ => panic!("recvWindow is not sent as expected"),
    }
    assert_eq!(req.query.into_entries().len(), 6);
}

#[test]
fn users_force_orders_leaves_out_absent_parameters() {
    let params = UsersForceOrdersParams {
        symbol: None,
        auto_close_type: None,
        start_time: None,
        end_time: None,
        limit: None,
        recv_window: None,
    };
    let req = users_force_orders(params);
    assert!(req.query.get("symbol").is_none());
    assert!(req.query.get("autoCloseType").is_none());
    assert!(req.query.get("startTime").is_none());
    assert!(req.query.get("endTime").is_none());
    assert!(req.query.get("limit").is_none());
    assert!(req.query.get("recvWindow").is_none());
    assert_eq!(req.query.into_entries().len(), 0);
}
