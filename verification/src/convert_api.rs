//! The requests of the Convert endpoints (`ConvertApi`).
use vstd::prelude::*;
use rust_decimal::Decimal;
use crate::query::{
    HttpMethod, QueryMap, QueryMapBuild, QueryParams, QueryValue, QueryValueView, RestRequest, RestRequestView, HAS_TIME_UNIT, opt_decimal, opt_integer, opt_text,
};

verus! {

/// Request parameters for the `accept_the_offered_quote` operation.
#[derive(Clone, Debug)]
pub struct AcceptTheOfferedQuoteParams {
    /// Sent as `quoteId`; required.
    pub quote_id: String,
    /// Sent as `recvWindow`; optional.
    pub recv_window: Option<i64>,
}

/// Request parameters for the `list_all_convert_pairs` operation.
#[derive(Clone, Debug, Default)]
pub struct ListAllConvertPairsParams {
    /// Sent as `fromAsset`; optional.
    pub from_asset: Option<String>,
    /// Sent as `toAsset`; optional.
    pub to_asset: Option<String>,
}

/// Request parameters for the `order_status` operation.
#[derive(Clone, Debug, Default)]
pub struct OrderStatusParams {
    /// Sent as `orderId`; optional.
    pub order_id: Option<String>,
    /// Sent as `quoteId`; optional.
    pub quote_id: Option<String>,
}

/// Request parameters for the `send_quote_request` operation.
#[derive(Clone, Debug)]
pub struct SendQuoteRequestParams {
    /// Sent as `fromAsset`; required.
    pub from_asset: String,
    /// Sent as `toAsset`; required.
    pub to_asset: String,
    /// Sent as `fromAmount`; optional.
    pub from_amount: Option<Decimal>,
    /// Sent as `toAmount`; optional.
    pub to_amount: Option<Decimal>,
    /// Sent as `validTime`; optional.
    pub valid_time: Option<String>,
    /// Sent as `recvWindow`; optional.
    pub recv_window: Option<i64>,
}

/// The query parameters that `accept_the_offered_quote` sends for `p`.
pub open spec fn accept_the_offered_quote_query(p: AcceptTheOfferedQuoteParams) -> QueryMap {
    QueryMap::empty()
        .put("quoteId"@, QueryValueView::Text(p.quote_id@))
        .put_opt("recvWindow"@, opt_integer(p.recv_window))
}

/// What `accept_the_offered_quote` sends, parameter by parameter: each required parameter
/// under its name with the value given, each optional one exactly when it
/// is given, and no other parameter.
pub proof fn lemma_accept_the_offered_quote_query(p: AcceptTheOfferedQuoteParams)
    ensures
        accept_the_offered_quote_query(p).dom().contains("quoteId"@),
        accept_the_offered_quote_query(p)["quoteId"@] == QueryValueView::Text(p.quote_id@),
        accept_the_offered_quote_query(p).dom().contains("recvWindow"@) == (p.recv_window is Some),
        p.recv_window is Some ==> accept_the_offered_quote_query(p)["recvWindow"@] == QueryValueView::Integer(p.recv_window->0),
        forall|k: Seq<char>| #[trigger] accept_the_offered_quote_query(p).dom().contains(k) ==> (k == "quoteId"@ || k == "recvWindow"@),
{
    reveal_strlit("quoteId");
    reveal_strlit("recvWindow");
    assert("quoteId"@.len() == 7);
    assert("recvWindow"@.len() == 10);
    assert("quoteId"@ != "recvWindow"@);
}

/// The request of the `accept_the_offered_quote` operation: POST `/fapi/v1/convert/acceptQuote`, signed.
pub fn accept_the_offered_quote(params: AcceptTheOfferedQuoteParams) -> (req: RestRequest)
    ensures
        req@ == (RestRequestView {
            path: "/fapi/v1/convert/acceptQuote"@,
            method: HttpMethod::Post,
            query: accept_the_offered_quote_query(params),
            uses_time_unit: HAS_TIME_UNIT,
            signed: true,
        }),
        req@.query.dom().contains("quoteId"@),
        req@.query["quoteId"@] == QueryValueView::Text(params.quote_id@),
        req@.query.dom().contains("recvWindow"@) == (params.recv_window is Some),
        params.recv_window is Some ==> req@.query["recvWindow"@] == QueryValueView::Integer(params.recv_window->0),
        forall|k: Seq<char>| #[trigger] req@.query.dom().contains(k) ==> (k == "quoteId"@ || k == "recvWindow"@),
{
    proof {
        lemma_accept_the_offered_quote_query(params);
    }
    let AcceptTheOfferedQuoteParams { quote_id, recv_window } = params;
    let mut query = QueryParams::new();
    query.insert("quoteId".to_owned(), QueryValue::Text(quote_id));
    if let Some(v) = recv_window {
        query.insert("recvWindow".to_owned(), QueryValue::Integer(v));
    }
    RestRequest {
        path: "/fapi/v1/convert/acceptQuote",
        method: HttpMethod::Post,
        query,
        uses_time_unit: HAS_TIME_UNIT,
        signed: true,
    }
}

/// The query parameters that `list_all_convert_pairs` sends for `p`.
pub open spec fn list_all_convert_pairs_query(p: ListAllConvertPairsParams) -> QueryMap {
    QueryMap::empty()
        .put_opt("fromAsset"@, opt_text(p.from_asset))
        .put_opt("toAsset"@, opt_text(p.to_asset))
}

/// What `list_all_convert_pairs` sends, parameter by parameter: each required parameter
/// under its name with the value given, each optional one exactly when it
/// is given, and no other parameter.
pub proof fn lemma_list_all_convert_pairs_query(p: ListAllConvertPairsParams)
    ensures
        list_all_convert_pairs_query(p).dom().contains("fromAsset"@) == (p.from_asset is Some),
        p.from_asset is Some ==> list_all_convert_pairs_query(p)["fromAsset"@] == QueryValueView::Text(p.from_asset->0@),
        list_all_convert_pairs_query(p).dom().contains("toAsset"@) == (p.to_asset is Some),
        p.to_asset is Some ==> list_all_convert_pairs_query(p)["toAsset"@] == QueryValueView::Text(p.to_asset->0@),
        forall|k: Seq<char>| #[trigger] list_all_convert_pairs_query(p).dom().contains(k) ==> (k == "fromAsset"@ || k == "toAsset"@),
{
    reveal_strlit("fromAsset");
    reveal_strlit("toAsset");
    assert("fromAsset"@.len() == 9);
    assert("toAsset"@.len() == 7);
    assert("fromAsset"@ != "toAsset"@);
}

/// The request of the `list_all_convert_pairs` operation: GET `/fapi/v1/convert/exchangeInfo`, unsigned.
pub fn list_all_convert_pairs(params: ListAllConvertPairsParams) -> (req: RestRequest)
    ensures
        req@ == (RestRequestView {
            path: "/fapi/v1/convert/exchangeInfo"@,
            method: HttpMethod::Get,
            query: list_all_convert_pairs_query(params),
            uses_time_unit: HAS_TIME_UNIT,
            signed: false,
        }),
        req@.query.dom().contains("fromAsset"@) == (params.from_asset is Some),
        params.from_asset is Some ==> req@.query["fromAsset"@] == QueryValueView::Text(params.from_asset->0@),
        req@.query.dom().contains("toAsset"@) == (params.to_asset is Some),
        params.to_asset is Some ==> req@.query["toAsset"@] == QueryValueView::Text(params.to_asset->0@),
        forall|k: Seq<char>| #[trigger] req@.query.dom().contains(k) ==> (k == "fromAsset"@ || k == "toAsset"@),
{
    proof {
        lemma_list_all_convert_pairs_query(params);
    }
    let ListAllConvertPairsParams { from_asset, to_asset } = params;
    let mut query = QueryParams::new();
    if let Some(v) = from_asset {
        query.insert("fromAsset".to_owned(), QueryValue::Text(v));
    }
    if let Some(v) = to_asset {
        query.insert("toAsset".to_owned(), QueryValue::Text(v));
    }
    RestRequest {
        path: "/fapi/v1/convert/exchangeInfo",
        method: HttpMethod::Get,
        query,
        uses_time_unit: HAS_TIME_UNIT,
        signed: false,
    }
}

/// The query parameters that `order_status` sends for `p`.
pub open spec fn order_status_query(p: OrderStatusParams) -> QueryMap {
    QueryMap::empty()
        .put_opt("orderId"@, opt_text(p.order_id))
        .put_opt("quoteId"@, opt_text(p.quote_id))
}

/// What `order_status` sends, parameter by parameter: each required parameter
/// under its name with the value given, each optional one exactly when it
/// is given, and no other parameter.
pub proof fn lemma_order_status_query(p: OrderStatusParams)
    ensures
        order_status_query(p).dom().contains("orderId"@) == (p.order_id is Some),
        p.order_id is Some ==> order_status_query(p)["orderId"@] == QueryValueView::Text(p.order_id->0@),
        order_status_query(p).dom().contains("quoteId"@) == (p.quote_id is Some),
        p.quote_id is Some ==> order_status_query(p)["quoteId"@] == QueryValueView::Text(p.quote_id->0@),
        forall|k: Seq<char>| #[trigger] order_status_query(p).dom().contains(k) ==> (k == "orderId"@ || k == "quoteId"@),
{
    reveal_strlit("orderId");
    reveal_strlit("quoteId");
    assert("orderId"@.len() == 7);
    assert("quoteId"@.len() == 7);
    assert("orderId"@[0] == 'o');
    assert("quoteId"@[0] == 'q');
    assert("orderId"@ != "quoteId"@);
}

/// The request of the `order_status` operation: GET `/fapi/v1/convert/orderStatus`, signed.
pub fn order_status(params: OrderStatusParams) -> (req: RestRequest)
    ensures
        req@ == (RestRequestView {
            path: "/fapi/v1/convert/orderStatus"@,
            method: HttpMethod::Get,
            query: order_status_query(params),
            uses_time_unit: HAS_TIME_UNIT,
            signed: true,
        }),
        req@.query.dom().contains("orderId"@) == (params.order_id is Some),
        params.order_id is Some ==> req@.query["orderId"@] == QueryValueView::Text(params.order_id->0@),
        req@.query.dom().contains("quoteId"@) == (params.quote_id is Some),
        params.quote_id is Some ==> req@.query["quoteId"@] == QueryValueView::Text(params.quote_id->0@),
        forall|k: Seq<char>| #[trigger] req@.query.dom().contains(k) ==> (k == "orderId"@ || k == "quoteId"@),
{
    proof {
        lemma_order_status_query(params);
    }
    let OrderStatusParams { order_id, quote_id } = params;
    let mut query = QueryParams::new();
    if let Some(v) = order_id {
        query.insert("orderId".to_owned(), QueryValue::Text(v));
    }
    if let Some(v) = quote_id {
        query.insert("quoteId".to_owned(), QueryValue::Text(v));
    }
    RestRequest {
        path: "/fapi/v1/convert/orderStatus",
        method: HttpMethod::Get,
        query,
        uses_time_unit: HAS_TIME_UNIT,
        signed: true,
    }
}

/// The query parameters that `send_quote_request` sends for `p`.
pub open spec fn send_quote_request_query(p: SendQuoteRequestParams) -> QueryMap {
    QueryMap::empty()
        .put("fromAsset"@, QueryValueView::Text(p.from_asset@))
        .put("toAsset"@, QueryValueView::Text(p.to_asset@))
        .put_opt("fromAmount"@, opt_decimal(p.from_amount))
        .put_opt("toAmount"@, opt_decimal(p.to_amount))
        .put_opt("validTime"@, opt_text(p.valid_time))
        .put_opt("recvWindow"@, opt_integer(p.recv_window))
}

/// What `send_quote_request` sends, parameter by parameter: each required parameter
/// under its name with the value given, each optional one exactly when it
/// is given, and no other parameter.
pub proof fn lemma_send_quote_request_query(p: SendQuoteRequestParams)
    ensures
        send_quote_request_query(p).dom().contains("fromAsset"@),
        send_quote_request_query(p)["fromAsset"@] == QueryValueView::Text(p.from_asset@),
        send_quote_request_query(p).dom().contains("toAsset"@),
        send_quote_request_query(p)["toAsset"@] == QueryValueView::Text(p.to_asset@),
        send_quote_request_query(p).dom().contains("fromAmount"@) == (p.from_amount is Some),
        p.from_amount is Some ==> send_quote_request_query(p)["fromAmount"@] == QueryValueView::DecimalNumber(p.from_amount->0),
        send_quote_request_query(p).dom().contains("toAmount"@) == (p.to_amount is Some),
        p.to_amount is Some ==> send_quote_request_query(p)["toAmount"@] == QueryValueView::DecimalNumber(p.to_amount->0),
        send_quote_request_query(p).dom().contains("validTime"@) == (p.valid_time is Some),
        p.valid_time is Some ==> send_quote_request_query(p)["validTime"@] == QueryValueView::Text(p.valid_time->0@),
        send_quote_request_query(p).dom().contains("recvWindow"@) == (p.recv_window is Some),
        p.recv_window is Some ==> send_quote_request_query(p)["recvWindow"@] == QueryValueView::Integer(p.recv_window->0),
        forall|k: Seq<char>| #[trigger] send_quote_request_query(p).dom().contains(k) ==> (k == "fromAsset"@ || k == "toAsset"@ || k == "fromAmount"@ || k == "toAmount"@ || k == "validTime"@ || k == "recvWindow"@),
{
    reveal_strlit("fromAsset");
    reveal_strlit("toAsset");
    reveal_strlit("fromAmount");
    reveal_strlit("toAmount");
    reveal_strlit("validTime");
    reveal_strlit("recvWindow");
    assert("fromAsset"@.len() == 9);
    assert("toAsset"@.len() == 7);
    assert("fromAmount"@.len() == 10);
    assert("toAmount"@.len() == 8);
    assert("validTime"@.len() == 9);
    assert("recvWindow"@.len() == 10);
    assert("fromAsset"@[0] == 'f');
    assert("validTime"@[0] == 'v');
    assert("fromAmount"@[0] == 'f');
    assert("recvWindow"@[0] == 'r');
    assert("fromAsset"@ != "toAsset"@);
    assert("fromAsset"@ != "fromAmount"@);
    assert("fromAsset"@ != "toAmount"@);
    assert("fromAsset"@ != "validTime"@);
    assert("fromAsset"@ != "recvWindow"@);
    assert("toAsset"@ != "fromAmount"@);
    assert("toAsset"@ != "toAmount"@);
    assert("toAsset"@ != "validTime"@);
    assert("toAsset"@ != "recvWindow"@);
    assert("fromAmount"@ != "toAmount"@);
    assert("fromAmount"@ != "validTime"@);
    assert("fromAmount"@ != "recvWindow"@);
    assert("toAmount"@ != "validTime"@);
    assert("toAmount"@ != "recvWindow"@);
    assert("validTime"@ != "recvWindow"@);
}

/// The request of the `send_quote_request` operation: POST `/fapi/v1/convert/getQuote`, signed.
pub fn send_quote_request(params: SendQuoteRequestParams) -> (req: RestRequest)
    ensures
        req@ == (RestRequestView {
            path: "/fapi/v1/convert/getQuote"@,
            method: HttpMethod::Post,
            query: send_quote_request_query(params),
            uses_time_unit: HAS_TIME_UNIT,
            signed: true,
        }),
        req@.query.dom().contains("fromAsset"@),
        req@.query["fromAsset"@] == QueryValueView::Text(params.from_asset@),
        req@.query.dom().contains("toAsset"@),
        req@.query["toAsset"@] == QueryValueView::Text(params.to_asset@),
        req@.query.dom().contains("fromAmount"@) == (params.from_amount is Some),
        params.from_amount is Some ==> req@.query["fromAmount"@] == QueryValueView::DecimalNumber(params.from_amount->0),
        req@.query.dom().contains("toAmount"@) == (params.to_amount is Some),
        params.to_amount is Some ==> req@.query["toAmount"@] == QueryValueView::DecimalNumber(params.to_amount->0),
        req@.query.dom().contains("validTime"@) == (params.valid_time is Some),
        params.valid_time is Some ==> req@.query["validTime"@] == QueryValueView::Text(params.valid_time->0@),
        req@.query.dom().contains("recvWindow"@) == (params.recv_window is Some),
        params.recv_window is Some ==> req@.query["recvWindow"@] == QueryValueView::Integer(params.recv_window->0),
        forall|k: Seq<char>| #[trigger] req@.query.dom().contains(k) ==> (k == "fromAsset"@ || k == "toAsset"@ || k == "fromAmount"@ || k == "toAmount"@ || k == "validTime"@ || k == "recvWindow"@),
{
    proof {
        lemma_send_quote_request_query(params);
    }
    let SendQuoteRequestParams { from_asset, to_asset, from_amount, to_amount, valid_time, recv_window } = params;
    let mut query = QueryParams::new();
    query.insert("fromAsset".to_owned(), QueryValue::Text(from_asset));
    query.insert("toAsset".to_owned(), QueryValue::Text(to_asset));
    if let Some(v) = from_amount {
        query.insert("fromAmount".to_owned(), QueryValue::DecimalNumber(v));
    }
    if let Some(v) = to_amount {
        query.insert("toAmount".to_owned(), QueryValue::DecimalNumber(v));
    }
    if let Some(v) = valid_time {
        query.insert("validTime".to_owned(), QueryValue::Text(v));
    }
    if let Some(v) = recv_window {
        query.insert("recvWindow".to_owned(), QueryValue::Integer(v));
    }
    RestRequest {
        path: "/fapi/v1/convert/getQuote",
        method: HttpMethod::Post,
        query,
        uses_time_unit: HAS_TIME_UNIT,
        signed: true,
    }
}

} // verus!
