use arkin_binance::convert_api::{AcceptTheOfferedQuoteParams, ListAllConvertPairsParams, OrderStatusParams, SendQuoteRequestParams, accept_the_offered_quote, list_all_convert_pairs, order_status, send_quote_request};
use arkin_binance::query::{HttpMethod, QueryValue};
use rust_decimal::Decimal;

#[test]
fn accept_the_offered_quote_sends_every_given_parameter() {
    let params = AcceptTheOfferedQuoteParams {
        quote_id: "quote_id-0".to_string(),
        recv_window: Some(1001),
    };
    let req = accept_the_offered_quote(params);
    assert_eq!(req.path, "/fapi/v1/convert/acceptQuote");
    assert_eq!(req.method, HttpMethod::Post);
    assert_eq!(req.signed, true);
    assert!(!req.uses_time_unit);
    match req.query.get("quoteId") {
        Some(QueryValue::Text(s)) => assert_eq!(s, "quote_id-0"),
        _ => panic!("quoteId is not sent as expected"),
    }
    match req.query.get("recvWindow") {
        Some(QueryValue::Integer(n)) => assert_eq!(*n, 1001),
        _ => panic!("recvWindow is not sent as expected"),
    }
    assert_eq!(req.query.into_entries().len(), 2);
}

#[test]
fn accept_the_offered_quote_leaves_out_absent_parameters() {
    let params = AcceptTheOfferedQuoteParams {
        quote_id: "quote_id-0".to_string(),
        recv_window: None,
    };
    let req = accept_the_offered_quote(params);
    match req.query.get("quoteId") {
        Some(QueryValue::Text(s)) => assert_eq!(s, "quote_id-0"),
        _ => panic!("quoteId is not sent as expected"),
    }
    assert!(req.query.get("recvWindow").is_none());
    assert_eq!(req.query.into_entries().len(), 1);
}

#[test]
fn list_all_convert_pairs_sends_every_given_parameter() {
    let params = ListAllConvertPairsParams {
        from_asset: Some("from_asset-0".to_string()),
        to_asset: Some("to_asset-1".to_string()),
    };
    let req = list_all_convert_pairs(params);
    assert_eq!(req.path, "/fapi/v1/convert/exchangeInfo");
    assert_eq!(req.method, HttpMethod::Get);
    assert_eq!(req.signed, false);
    assert!(!req.uses_time_unit);
    match req.query.get("fromAsset") {
        Some(QueryValue::Text(s)) => assert_eq!(s, "from_asset-0"),
        _ => panic!("fromAsset is not sent as expected"),
    }
    match req.query.get("toAsset") {
        Some(QueryValue::Text(s)) => assert_eq!(s, "to_asset-1"),
        _ => panic!("toAsset is not sent as expected"),
    }
    assert_eq!(req.query.into_entries().len(), 2);
}

#[test]
fn list_all_convert_pairs_leaves_out_absent_parameters() {
    let params = ListAllConvertPairsParams {
        from_asset: None,
        to_asset: None,
    };
    let req = list_all_convert_pairs(params);
    assert!(req.query.get("fromAsset").is_none());
    assert!(req.query.get("toAsset").is_none());
    assert_eq!(req.query.into_entries().len(), 0);
}

#[test]
fn order_status_sends_every_given_parameter() {
    let params = OrderStatusParams {
        order_id: Some("order_id-0".to_string()),
        quote_id: Some("quote_id-1".to_string()),
    };
    let req = order_status(params);
    assert_eq!(req.path, "/fapi/v1/convert/orderStatus");
    assert_eq!(req.method, HttpMethod::Get);
    assert_eq!(req.signed, true);
    assert!(!req.uses_time_unit);
    match req.query.get("orderId") {
        Some(QueryValue::Text(s)) => assert_eq!(s, "order_id-0"),
        _ => panic!("orderId is not sent as expected"),
    }
    match req.query.get("quoteId") {
        Some(QueryValue::Text(s)) => assert_eq!(s, "quote_id-1"),
        _ => panic!("quoteId is not sent as expected"),
    }
    assert_eq!(req.query.into_entries().len(), 2);
}

#[test]
fn order_status_leaves_out_absent_parameters() {
    let params = OrderStatusParams {
        order_id: None,
        quote_id: None,
    };
    let req = order_status(params);
    assert!(req.query.get("orderId").is_none());
    assert!(req.query.get("quoteId").is_none());
    assert_eq!(req.query.into_entries().len(), 0);
}

#[test]
fn send_quote_request_sends_every_given_parameter() {
    let params = SendQuoteRequestParams {
        from_asset: "from_asset-0".to_string(),
        to_asset: "to_asset-1".to_string(),
        from_amount: Some(Decimal::new(12347, 2)),
        to_amount: Some(Decimal::new(12348, 2)),
        valid_time: Some("valid_time-4".to_string()),
        recv_window: Some(1005),
    };
    let req = send_quote_request(params);
    assert_eq!(req.path, "/fapi/v1/convert/getQuote");
    assert_eq!(req.method, HttpMethod::Post);
    assert_eq!(req.signed, true);
    assert!(!req.uses_time_unit);
    match req.query.get("fromAsset") {
        Some(QueryValue::Text(s)) => assert_eq!(s, "from_asset-0"),
        _ => panic!("fromAsset is not sent as expected"),
    }
    match req.query.get("toAsset") {
        Some(QueryValue::Text(s)) => assert_eq!(s, "to_asset-1"),
        _ => panic!("toAsset is not sent as expected"),
    }
    match req.query.get("fromAmount") {
        Some(QueryValue::DecimalNumber(d)) => assert_eq!(*d, Decimal::new(12347, 2)),
        _ => panic!("fromAmount is not sent as expected"),
    }
    match req.query.get("toAmount") {
        Some(QueryValue::DecimalNumber(d)) => assert_eq!(*d, Decimal::new(12348, 2)),
        _ => panic!("toAmount is not sent as expected"),
    }
    match req.query.get("validTime") {
        Some(QueryValue::Text(s)) => assert_eq!(s, "valid_time-4"),
        _ => panic!("validTime is not sent as expected"),
    }
    match req.query.get("recvWindow") {
        Some(QueryValue::Integer(n)) => assert_eq!(*n, 1005),
        _ => panic!("recvWindow is not sent as expected"),
    }
    assert_eq!(req.query.into_entries().len(), 6);
}

#[test]
fn send_quote_request_leaves_out_absent_parameters() {
    let params = SendQuoteRequestParams {
        from_asset: "from_asset-0".to_string(),
        to_asset: "to_asset-1".to_string(),
        from_amount: None,
        to_amount: None,
        valid_time: None,
        recv_window: None,
    };
    let req = send_quote_request(params);
    match req.query.get("fromAsset") {
        Some(QueryValue::Text(s)) => assert_eq!(s, "from_asset-0"),
        _ => panic!("fromAsset is not sent as expected"),
    }
    match req.query.get("toAsset") {
        Some(QueryValue::Text(s)) => assert_eq!(s, "to_asset-1"),
        _ => panic!("toAsset is not sent as expected"),
    }
    assert!(req.query.get("fromAmount").is_none());
    assert!(req.query.get("toAmount").is_none());
    assert!(req.query.get("validTime").is_none());
    assert!(req.query.get("recvWindow").is_none());
    assert_eq!(req.query.into_entries().len(), 2);
}
