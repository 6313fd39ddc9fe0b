//! The requests of the Account endpoints (`AccountApi`).
use vstd::prelude::*;
use crate::query::{
    HttpMethod, QueryMap, QueryMapBuild, QueryParams, QueryValue, QueryValueView, RestRequest, RestRequestView, HAS_TIME_UNIT, opt_integer, opt_text,
};

verus! {

/// Request parameters for the `account_information_v2` operation.
#[derive(Clone, Debug, Default)]
pub struct AccountInformationV2Params {
    /// Sent as `recvWindow`; optional.
    pub recv_window: Option<i64>,
}

/// Request parameters for the `account_information_v3` operation.
#[derive(Clone, Debug, Default)]
pub struct AccountInformationV3Params {
    /// Sent as `recvWindow`; optional.
    pub recv_window: Option<i64>,
}

/// Request parameters for the `futures_account_balance_v2` operation.
#[derive(Clone, Debug, Default)]
pub struct FuturesAccountBalanceV2Params {
    /// Sent as `recvWindow`; optional.
    pub recv_window: Option<i64>,
}

/// Request parameters for the `futures_account_balance_v3` operation.
#[derive(Clone, Debug, Default)]
pub struct FuturesAccountBalanceV3Params {
    /// Sent as `recvWindow`; optional.
    pub recv_window: Option<i64>,
}

/// Request parameters for the `futures_account_configuration` operation.
#[derive(Clone, Debug, Default)]
pub struct FuturesAccountConfigurationParams {
    /// Sent as `recvWindow`; optional.
    pub recv_window: Option<i64>,
}

/// Request parameters for the `futures_trading_quantitative_rules_indicators` operation.
#[derive(Clone, Debug, Default)]
pub struct FuturesTradingQuantitativeRulesIndicatorsParams {
    /// Sent as `symbol`; optional.
    pub symbol: Option<String>,
    /// Sent as `recvWindow`; optional.
    pub recv_window: Option<i64>,
}

/// Request parameters for the `get_bnb_burn_status` operation.
#[derive(Clone, Debug, Default)]
pub struct GetBnbBurnStatusParams {
    /// Sent as `recvWindow`; optional.
    pub recv_window: Option<i64>,
}

/// Request parameters for the `get_current_multi_assets_mode` operation.
#[derive(Clone, Debug, Default)]
pub struct GetCurrentMultiAssetsModeParams {
    /// Sent as `recvWindow`; optional.
    pub recv_window: Option<i64>,
}

/// Request parameters for the `get_current_position_mode` operation.
#[derive(Clone, Debug, Default)]
pub struct GetCurrentPositionModeParams {
    /// Sent as `recvWindow`; optional.
    pub recv_window: Option<i64>,
}

/// Request parameters for the `get_download_id_for_futures_order_history` operation.
#[derive(Clone, Debug)]
pub struct GetDownloadIdForFuturesOrderHistoryParams {
    /// Sent as `startTime`; required.
    pub start_time: i64,
    /// Sent as `endTime`; required.
    pub end_time: i64,
    /// Sent as `recvWindow`; optional.
    pub recv_window: Option<i64>,
}

/// Request parameters for the `get_download_id_for_futures_trade_history` operation.
#[derive(Clone, Debug)]
pub struct GetDownloadIdForFuturesTradeHistoryParams {
    /// Sent as `startTime`; required.
    pub start_time: i64,
    /// Sent as `endTime`; required.
    pub end_time: i64,
    /// Sent as `recvWindow`; optional.
    pub recv_window: Option<i64>,
}

/// Request parameters for the `get_download_id_for_futures_transaction_history` operation.
#[derive(Clone, Debug)]
pub struct GetDownloadIdForFuturesTransactionHistoryParams {
    /// Sent as `startTime`; required.
    pub start_time: i64,
    /// Sent as `endTime`; required.
    pub end_time: i64,
    /// Sent as `recvWindow`; optional.
    pub recv_window: Option<i64>,
}

/// Request parameters for the `get_futures_order_history_download_link_by_id` operation.
#[derive(Clone, Debug)]
pub struct GetFuturesOrderHistoryDownloadLinkByIdParams {
    /// Sent as `downloadId`; required.
    pub download_id: String,
    /// Sent as `recvWindow`; optional.
    pub recv_window: Option<i64>,
}

/// Request parameters for the `get_futures_trade_download_link_by_id` operation.
#[derive(Clone, Debug)]
pub struct GetFuturesTradeDownloadLinkByIdParams {
    /// Sent as `downloadId`; required.
    pub download_id: String,
    /// Sent as `recvWindow`; optional.
    pub recv_window: Option<i64>,
}

/// Request parameters for the `get_futures_transaction_history_download_link_by_id` operation.
#[derive(Clone, Debug)]
pub struct GetFuturesTransactionHistoryDownloadLinkByIdParams {
    /// Sent as `downloadId`; required.
    pub download_id: String,
    /// Sent as `recvWindow`; optional.
    pub recv_window: Option<i64>,
}

/// Request parameters for the `get_income_history` operation.
#[derive(Clone, Debug, Default)]
pub struct GetIncomeHistoryParams {
    /// Sent as `symbol`; optional.
    pub symbol: Option<String>,
    /// Sent as `incomeType`; optional.
    pub income_type: Option<String>,
    /// Sent as `startTime`; optional.
    pub start_time: Option<i64>,
    /// Sent as `endTime`; optional.
    pub end_time: Option<i64>,
    /// Sent as `page`; optional.
    pub page: Option<i64>,
    /// Sent as `limit`; optional.
    pub limit: Option<i64>,
    /// Sent as `recvWindow`; optional.
    pub recv_window: Option<i64>,
}

/// Request parameters for the `notional_and_leverage_brackets` operation.
#[derive(Clone, Debug, Default)]
pub struct NotionalAndLeverageBracketsParams {
    /// Sent as `symbol`; optional.
    pub symbol: Option<String>,
    /// Sent as `recvWindow`; optional.
    pub recv_window: Option<i64>,
}

/// Request parameters for the `query_user_rate_limit` operation.
#[derive(Clone, Debug, Default)]
pub struct QueryUserRateLimitParams {
    /// Sent as `recvWindow`; optional.
    pub recv_window: Option<i64>,
}

/// Request parameters for the `symbol_configuration` operation.
#[derive(Clone, Debug, Default)]
pub struct SymbolConfigurationParams {
    /// Sent as `symbol`; optional.
    pub symbol: Option<String>,
    /// Sent as `recvWindow`; optional.
    pub recv_window: Option<i64>,
}

/// Request parameters for the `toggle_bnb_burn_on_futures_trade` operation.
#[derive(Clone, Debug)]
pub struct ToggleBnbBurnOnFuturesTradeParams {
    /// Sent as `feeBurn`; required.
    pub fee_burn: String,
    /// Sent as `recvWindow`; optional.
    pub recv_window: Option<i64>,
}

/// Request parameters for the `user_commission_rate` operation.
#[derive(Clone, Debug)]
pub struct UserCommissionRateParams {
    /// Sent as `symbol`; required.
    pub symbol: String,
    /// Sent as `recvWindow`; optional.
    pub recv_window: Option<i64>,
}

/// The query parameters that `account_information_v2` sends for `p`.
pub open spec fn account_information_v2_query(p: AccountInformationV2Params) -> QueryMap {
    QueryMap::empty()
        .put_opt("recvWindow"@, opt_integer(p.recv_window))
}

/// What `account_information_v2` sends, parameter by parameter: each required parameter
/// under its name with the value given, each optional one exactly when it
/// is given, and no other parameter.
pub proof fn lemma_account_information_v2_query(p: AccountInformationV2Params)
    ensures
        account_information_v2_query(p).dom().contains("recvWindow"@) == (p.recv_window is Some),
        p.recv_window is Some ==> account_information_v2_query(p)["recvWindow"@] == QueryValueView::Integer(p.recv_window->0),
        forall|k: Seq<char>| #[trigger] account_information_v2_query(p).dom().contains(k) ==> (k == "recvWindow"@),
{
    reveal_strlit("recvWindow");
    assert("recvWindow"@.len() == 10);
}

/// The request of the `account_information_v2` operation: GET `/fapi/v2/account`, signed.
pub fn account_information_v2(params: AccountInformationV2Params) -> (req: RestRequest)
    ensures
        req@ == (RestRequestView {
            path: "/fapi/v2/account"@,
            method: HttpMethod::Get,
            query: account_information_v2_query(params),
            uses_time_unit: HAS_TIME_UNIT,
            signed: true,
        }),
        req@.query.dom().contains("recvWindow"@) == (params.recv_window is Some),
        params.recv_window is Some ==> req@.query["recvWindow"@] == QueryValueView::Integer(params.recv_window->0),
        forall|k: Seq<char>| #[trigger] req@.query.dom().contains(k) ==> (k == "recvWindow"@),
{
    proof {
        lemma_account_information_v2_query(params);
    }
    let AccountInformationV2Params { recv_window } = params;
    let mut query = QueryParams::new();
    if let Some(v) = recv_window {
        query.insert("recvWindow".to_owned(), QueryValue::Integer(v));
    }
    RestRequest {
        path: "/fapi/v2/account",
        method: HttpMethod::Get,
        query,
        uses_time_unit: HAS_TIME_UNIT,
        signed: true,
    }
}

/// The query parameters that `account_information_v3` sends for `p`.
pub open spec fn account_information_v3_query(p: AccountInformationV3Params) -> QueryMap {
    QueryMap::empty()
        .put_opt("recvWindow"@, opt_integer(p.recv_window))
}

/// What `account_information_v3` sends, parameter by parameter: each required parameter
/// under its name with the value given, each optional one exactly when it
/// is given, and no other parameter.
pub proof fn lemma_account_information_v3_query(p: AccountInformationV3Params)
    ensures
        account_information_v3_query(p).dom().contains("recvWindow"@) == (p.recv_window is Some),
        p.recv_window is Some ==> account_information_v3_query(p)["recvWindow"@] == QueryValueView::Integer(p.recv_window->0),
        forall|k: Seq<char>| #[trigger] account_information_v3_query(p).dom().contains(k) ==> (k == "recvWindow"@),
{
    reveal_strlit("recvWindow");
    assert("recvWindow"@.len() == 10);
}

/// The request of the `account_information_v3` operation: GET `/fapi/v3/account`, signed.
pub fn account_information_v3(params: AccountInformationV3Params) -> (req: RestRequest)
    ensures
        req@ == (RestRequestView {
            path: "/fapi/v3/account"@,
            method: HttpMethod::Get,
            query: account_information_v3_query(params),
            uses_time_unit: HAS_TIME_UNIT,
            signed: true,
        }),
        req@.query.dom().contains("recvWindow"@) == (params.recv_window is Some),
        params.recv_window is Some ==> req@.query["recvWindow"@] == QueryValueView::Integer(params.recv_window->0),
        forall|k: Seq<char>| #[trigger] req@.query.dom().contains(k) ==> (k == "recvWindow"@),
{
    proof {
        lemma_account_information_v3_query(params);
    }
    let AccountInformationV3Params { recv_window } = params;
    let mut query = QueryParams::new();
    if let Some(v) = recv_window {
        query.insert("recvWindow".to_owned(), QueryValue::Integer(v));
    }
    RestRequest {
        path: "/fapi/v3/account",
        method: HttpMethod::Get,
        query,
        uses_time_unit: HAS_TIME_UNIT,
        signed: true,
    }
}

/// The query parameters that `futures_account_balance_v2` sends for `p`.
pub open spec fn futures_account_balance_v2_query(p: FuturesAccountBalanceV2Params) -> QueryMap {
    QueryMap::empty()
        .put_opt("recvWindow"@, opt_integer(p.recv_window))
}

/// What `futures_account_balance_v2` sends, parameter by parameter: each required parameter
/// under its name with the value given, each optional one exactly when it
/// is given, and no other parameter.
pub proof fn lemma_futures_account_balance_v2_query(p: FuturesAccountBalanceV2Params)
    ensures
        futures_account_balance_v2_query(p).dom().contains("recvWindow"@) == (p.recv_window is Some),
        p.recv_window is Some ==> futures_account_balance_v2_query(p)["recvWindow"@] == QueryValueView::Integer(p.recv_window->0),
        forall|k: Seq<char>| #[trigger] futures_account_balance_v2_query(p).dom().contains(k) ==> (k == "recvWindow"@),
{
    reveal_strlit("recvWindow");
    assert("recvWindow"@.len() == 10);
}

/// The request of the `futures_account_balance_v2` operation: GET `/fapi/v2/balance`, signed.
pub fn futures_account_balance_v2(params: FuturesAccountBalanceV2Params) -> (req: RestRequest)
    ensures
        req@ == (RestRequestView {
            path: "/fapi/v2/balance"@,
            method: HttpMethod::Get,
            query: futures_account_balance_v2_query(params),
            uses_time_unit: HAS_TIME_UNIT,
            signed: true,
        }),
        req@.query.dom().contains("recvWindow"@) == (params.recv_window is Some),
        params.recv_window is Some ==> req@.query["recvWindow"@] == QueryValueView::Integer(params.recv_window->0),
        forall|k: Seq<char>| #[trigger] req@.query.dom().contains(k) ==> (k == "recvWindow"@),
{
    proof {
        lemma_futures_account_balance_v2_query(params);
    }
    let FuturesAccountBalanceV2Params { recv_window } = params;
    let mut query = QueryParams::new();
    if let Some(v) = recv_window {
        query.insert("recvWindow".to_owned(), QueryValue::Integer(v));
    }
    RestRequest {
        path: "/fapi/v2/balance",
        method: HttpMethod::Get,
        query,
        uses_time_unit: HAS_TIME_UNIT,
        signed: true,
    }
}

/// The query parameters that `futures_account_balance_v3` sends for `p`.
pub open spec fn futures_account_balance_v3_query(p: FuturesAccountBalanceV3Params) -> QueryMap {
    QueryMap::empty()
        .put_opt("recvWindow"@, opt_integer(p.recv_window))
}

/// What `futures_account_balance_v3` sends, parameter by parameter: each required parameter
/// under its name with the value given, each optional one exactly when it
/// is given, and no other parameter.
pub proof fn lemma_futures_account_balance_v3_query(p: FuturesAccountBalanceV3Params)
    ensures
        futures_account_balance_v3_query(p).dom().contains("recvWindow"@) == (p.recv_window is Some),
        p.recv_window is Some ==> futures_account_balance_v3_query(p)["recvWindow"@] == QueryValueView::Integer(p.recv_window->0),
        forall|k: Seq<char>| #[trigger] futures_account_balance_v3_query(p).dom().contains(k) ==> (k == "recvWindow"@),
{
    reveal_strlit("recvWindow");
    assert("recvWindow"@.len() == 10);
}

/// The request of the `futures_account_balance_v3` operation: GET `/fapi/v3/balance`, signed.
pub fn futures_account_balance_v3(params: FuturesAccountBalanceV3Params) -> (req: RestRequest)
    ensures
        req@ == (RestRequestView {
            path: "/fapi/v3/balance"@,
            method: HttpMethod::Get,
            query: futures_account_balance_v3_query(params),
            uses_time_unit: HAS_TIME_UNIT,
            signed: true,
        }),
        req@.query.dom().contains("recvWindow"@) == (params.recv_window is Some),
        params.recv_window is Some ==> req@.query["recvWindow"@] == QueryValueView::Integer(params.recv_window->0),
        forall|k: Seq<char>| #[trigger] req@.query.dom().contains(k) ==> (k == "recvWindow"@),
{
    proof {
        lemma_futures_account_balance_v3_query(params);
    }
    let FuturesAccountBalanceV3Params { recv_window } = params;
    let mut query = QueryParams::new();
    if let Some(v) = recv_window {
        query.insert("recvWindow".to_owned(), QueryValue::Integer(v));
    }
    RestRequest {
        path: "/fapi/v3/balance",
        method: HttpMethod::Get,
        query,
        uses_time_unit: HAS_TIME_UNIT,
        signed: true,
    }
}

/// The query parameters that `futures_account_configuration` sends for `p`.
pub open spec fn futures_account_configuration_query(p: FuturesAccountConfigurationParams) -> QueryMap {
    QueryMap::empty()
        .put_opt("recvWindow"@, opt_integer(p.recv_window))
}

/// What `futures_account_configuration` sends, parameter by parameter: each required parameter
/// under its name with the value given, each optional one exactly when it
/// is given, and no other parameter.
pub proof fn lemma_futures_account_configuration_query(p: FuturesAccountConfigurationParams)
    ensures
        futures_account_configuration_query(p).dom().contains("recvWindow"@) == (p.recv_window is Some),
        p.recv_window is Some ==> futures_account_configuration_query(p)["recvWindow"@] == QueryValueView::Integer(p.recv_window->0),
        forall|k: Seq<char>| #[trigger] futures_account_configuration_query(p).dom().contains(k) ==> (k == "recvWindow"@),
{
    reveal_strlit("recvWindow");
    assert("recvWindow"@.len() == 10);
}

/// The request of the `futures_account_configuration` operation: GET `/fapi/v1/accountConfig`, signed.
pub fn futures_account_configuration(params: FuturesAccountConfigurationParams) -> (req: RestRequest)
    ensures
        req@ == (RestRequestView {
            path: "/fapi/v1/accountConfig"@,
            method: HttpMethod::Get,
            query: futures_account_configuration_query(params),
            uses_time_unit: HAS_TIME_UNIT,
            signed: true,
        }),
        req@.query.dom().contains("recvWindow"@) == (params.recv_window is Some),
        params.recv_window is Some ==> req@.query["recvWindow"@] == QueryValueView::Integer(params.recv_window->0),
        forall|k: Seq<char>| #[trigger] req@.query.dom().contains(k) ==> (k == "recvWindow"@),
{
    proof {
        lemma_futures_account_configuration_query(params);
    }
    let FuturesAccountConfigurationParams { recv_window } = params;
    let mut query = QueryParams::new();
    if let Some(v) = recv_window {
        query.insert("recvWindow".to_owned(), QueryValue::Integer(v));
    }
    RestRequest {
        path: "/fapi/v1/accountConfig",
        method: HttpMethod::Get,
        query,
        uses_time_unit: HAS_TIME_UNIT,
        signed: true,
    }
}

/// The query parameters that `futures_trading_quantitative_rules_indicators` sends for `p`.
pub open spec fn futures_trading_quantitative_rules_indicators_query(p: FuturesTradingQuantitativeRulesIndicatorsParams) -> QueryMap {
    QueryMap::empty()
        .put_opt("symbol"@, opt_text(p.symbol))
        .put_opt("recvWindow"@, opt_integer(p.recv_window))
}

/// What `futures_trading_quantitative_rules_indicators` sends, parameter by parameter: each required parameter
/// under its name with the value given, each optional one exactly when it
/// is given, and no other parameter.
pub proof fn lemma_futures_trading_quantitative_rules_indicators_query(p: FuturesTradingQuantitativeRulesIndicatorsParams)
    ensures
        futures_trading_quantitative_rules_indicators_query(p).dom().contains("symbol"@) == (p.symbol is Some),
        p.symbol is Some ==> futures_trading_quantitative_rules_indicators_query(p)["symbol"@] == QueryValueView::Text(p.symbol->0@),
        futures_trading_quantitative_rules_indicators_query(p).dom().contains("recvWindow"@) == (p.recv_window is Some),
        p.recv_window is Some ==> futures_trading_quantitative_rules_indicators_query(p)["recvWindow"@] == QueryValueView::Integer(p.recv_window->0),
        forall|k: Seq<char>| #[trigger] futures_trading_quantitative_rules_indicators_query(p).dom().contains(k) ==> (k == "symbol"@ || k == "recvWindow"@),
{
    reveal_strlit("symbol");
    reveal_strlit("recvWindow");
    assert("symbol"@.len() == 6);
    assert("recvWindow"@.len() == 10);
    assert("symbol"@ != "recvWindow"@);
}

/// The request of the `futures_trading_quantitative_rules_indicators` operation: GET `/fapi/v1/apiTradingStatus`, signed.
pub fn futures_trading_quantitative_rules_indicators(params: FuturesTradingQuantitativeRulesIndicatorsParams) -> (req: RestRequest)
    ensures
        req@ == (RestRequestView {
            path: "/fapi/v1/apiTradingStatus"@,
            method: HttpMethod::Get,
            query: futures_trading_quantitative_rules_indicators_query(params),
            uses_time_unit: HAS_TIME_UNIT,
            signed: true,
        }),
        req@.query.dom().contains("symbol"@) == (params.symbol is Some),
        params.symbol is Some ==> req@.query["symbol"@] == QueryValueView::Text(params.symbol->0@),
        req@.query.dom().contains("recvWindow"@) == (params.recv_window is Some),
        params.recv_window is Some ==> req@.query["recvWindow"@] == QueryValueView::Integer(params.recv_window->0),
        forall|k: Seq<char>| #[trigger] req@.query.dom().contains(k) ==> (k == "symbol"@ || k == "recvWindow"@),
{
    proof {
        lemma_futures_trading_quantitative_rules_indicators_query(params);
    }
    let FuturesTradingQuantitativeRulesIndicatorsParams { symbol, recv_window } = params;
    let mut query = QueryParams::new();
    if let Some(v) = symbol {
        query.insert("symbol".to_owned(), QueryValue::Text(v));
    }
    if let Some(v) = recv_window {
        query.insert("recvWindow".to_owned(), QueryValue::Integer(v));
    }
    RestRequest {
        path: "/fapi/v1/apiTradingStatus",
        method: HttpMethod::Get,
        query,
        uses_time_unit: HAS_TIME_UNIT,
        signed: true,
    }
}

/// The query parameters that `get_bnb_burn_status` sends for `p`.
pub open spec fn get_bnb_burn_status_query(p: GetBnbBurnStatusParams) -> QueryMap {
    QueryMap::empty()
        .put_opt("recvWindow"@, opt_integer(p.recv_window))
}

/// What `get_bnb_burn_status` sends, parameter by parameter: each required parameter
/// under its name with the value given, each optional one exactly when it
/// is given, and no other parameter.
pub proof fn lemma_get_bnb_burn_status_query(p: GetBnbBurnStatusParams)
    ensures
        get_bnb_burn_status_query(p).dom().contains("recvWindow"@) == (p.recv_window is Some),
        p.recv_window is Some ==> get_bnb_burn_status_query(p)["recvWindow"@] == QueryValueView::Integer(p.recv_window->0),
        forall|k: Seq<char>| #[trigger] get_bnb_burn_status_query(p).dom().contains(k) ==> (k == "recvWindow"@),
{
    reveal_strlit("recvWindow");
    assert("recvWindow"@.len() == 10);
}

/// The request of the `get_bnb_burn_status` operation: GET `/fapi/v1/feeBurn`, signed.
pub fn get_bnb_burn_status(params: GetBnbBurnStatusParams) -> (req: RestRequest)
    ensures
        req@ == (RestRequestView {
            path: "/fapi/v1/feeBurn"@,
            method: HttpMethod::Get,
            query: get_bnb_burn_status_query(params),
            uses_time_unit: HAS_TIME_UNIT,
            signed: true,
        }),
        req@.query.dom().contains("recvWindow"@) == (params.recv_window is Some),
        params.recv_window is Some ==> req@.query["recvWindow"@] == QueryValueView::Integer(params.recv_window->0),
        forall|k: Seq<char>| #[trigger] req@.query.dom().contains(k) ==> (k == "recvWindow"@),
{
    proof {
        lemma_get_bnb_burn_status_query(params);
    }
    let GetBnbBurnStatusParams { recv_window } = params;
    let mut query = QueryParams::new();
    if let Some(v) = recv_window {
        query.insert("recvWindow".to_owned(), QueryValue::Integer(v));
    }
    RestRequest {
        path: "/fapi/v1/feeBurn",
        method: HttpMethod::Get,
        query,
        uses_time_unit: HAS_TIME_UNIT,
        signed: true,
    }
}

/// The query parameters that `get_current_multi_assets_mode` sends for `p`.
pub open spec fn get_current_multi_assets_mode_query(p: GetCurrentMultiAssetsModeParams) -> QueryMap {
    QueryMap::empty()
        .put_opt("recvWindow"@, opt_integer(p.recv_window))
}

/// What `get_current_multi_assets_mode` sends, parameter by parameter: each required parameter
/// under its name with the value given, each optional one exactly when it
/// is given, and no other parameter.
pub proof fn lemma_get_current_multi_assets_mode_query(p: GetCurrentMultiAssetsModeParams)
    ensures
        get_current_multi_assets_mode_query(p).dom().contains("recvWindow"@) == (p.recv_window is Some),
        p.recv_window is Some ==> get_current_multi_assets_mode_query(p)["recvWindow"@] == QueryValueView::Integer(p.recv_window->0),
        forall|k: Seq<char>| #[trigger] get_current_multi_assets_mode_query(p).dom().contains(k) ==> (k == "recvWindow"@),
{
    reveal_strlit("recvWindow");
    assert("recvWindow"@.len() == 10);
}

/// The request of the `get_current_multi_assets_mode` operation: GET `/fapi/v1/multiAssetsMargin`, signed.
pub fn get_current_multi_assets_mode(params: GetCurrentMultiAssetsModeParams) -> (req: RestRequest)
    ensures
        req@ == (RestRequestView {
            path: "/fapi/v1/multiAssetsMargin"@,
            method: HttpMethod::Get,
            query: get_current_multi_assets_mode_query(params),
            uses_time_unit: HAS_TIME_UNIT,
            signed: true,
        }),
        req@.query.dom().contains("recvWindow"@) == (params.recv_window is Some),
        params.recv_window is Some ==> req@.query["recvWindow"@] == QueryValueView::Integer(params.recv_window->0),
        forall|k: Seq<char>| #[trigger] req@.query.dom().contains(k) ==> (k == "recvWindow"@),
{
    proof {
        lemma_get_current_multi_assets_mode_query(params);
    }
    let GetCurrentMultiAssetsModeParams { recv_window } = params;
    let mut query = QueryParams::new();
    if let Some(v) = recv_window {
        query.insert("recvWindow".to_owned(), QueryValue::Integer(v));
    }
    RestRequest {
        path: "/fapi/v1/multiAssetsMargin",
        method: HttpMethod::Get,
        query,
        uses_time_unit: HAS_TIME_UNIT,
        signed: true,
    }
}

/// The query parameters that `get_current_position_mode` sends for `p`.
pub open spec fn get_current_position_mode_query(p: GetCurrentPositionModeParams) -> QueryMap {
    QueryMap::empty()
        .put_opt("recvWindow"@, opt_integer(p.recv_window))
}

/// What `get_current_position_mode` sends, parameter by parameter: each required parameter
/// under its name with the value given, each optional one exactly when it
/// is given, and no other parameter.
pub proof fn lemma_get_current_position_mode_query(p: GetCurrentPositionModeParams)
    ensures
        get_current_position_mode_query(p).dom().contains("recvWindow"@) == (p.recv_window is Some),
        p.recv_window is Some ==> get_current_position_mode_query(p)["recvWindow"@] == QueryValueView::Integer(p.recv_window->0),
        forall|k: Seq<char>| #[trigger] get_current_position_mode_query(p).dom().contains(k) ==> (k == "recvWindow"@),
{
    reveal_strlit("recvWindow");
    assert("recvWindow"@.len() == 10);
}

/// The request of the `get_current_position_mode` operation: GET `/fapi/v1/positionSide/dual`, signed.
pub fn get_current_position_mode(params: GetCurrentPositionModeParams) -> (req: RestRequest)
    ensures
        req@ == (RestRequestView {
            path: "/fapi/v1/positionSide/dual"@,
            method: HttpMethod::Get,
            query: get_current_position_mode_query(params),
            uses_time_unit: HAS_TIME_UNIT,
            signed: true,
        }),
        req@.query.dom().contains("recvWindow"@) == (params.recv_window is Some),
        params.recv_window is Some ==> req@.query["recvWindow"@] == QueryValueView::Integer(params.recv_window->0),
        forall|k: Seq<char>| #[trigger] req@.query.dom().contains(k) ==> (k == "recvWindow"@),
{
    proof {
        lemma_get_current_position_mode_query(params);
    }
    let GetCurrentPositionModeParams { recv_window } = params;
    let mut query = QueryParams::new();
    if let Some(v) = recv_window {
        query.insert("recvWindow".to_owned(), QueryValue::Integer(v));
    }
    RestRequest {
        path: "/fapi/v1/positionSide/dual",
        method: HttpMethod::Get,
        query,
        uses_time_unit: HAS_TIME_UNIT,
        signed: true,
    }
}

/// The query parameters that `get_download_id_for_futures_order_history` sends for `p`.
pub open spec fn get_download_id_for_futures_order_history_query(p: GetDownloadIdForFuturesOrderHistoryParams) -> QueryMap {
    QueryMap::empty()
        .put("startTime"@, QueryValueView::Integer(p.start_time))
        .put("endTime"@, QueryValueView::Integer(p.end_time))
        .put_opt("recvWindow"@, opt_integer(p.recv_window))
}

/// What `get_download_id_for_futures_order_history` sends, parameter by parameter: each required parameter
/// under its name with the value given, each optional one exactly when it
/// is given, and no other parameter.
pub proof fn lemma_get_download_id_for_futures_order_history_query(p: GetDownloadIdForFuturesOrderHistoryParams)
    ensures
        get_download_id_for_futures_order_history_query(p).dom().contains("startTime"@),
        get_download_id_for_futures_order_history_query(p)["startTime"@] == QueryValueView::Integer(p.start_time),
        get_download_id_for_futures_order_history_query(p).dom().contains("endTime"@),
        get_download_id_for_futures_order_history_query(p)["endTime"@] == QueryValueView::Integer(p.end_time),
        get_download_id_for_futures_order_history_query(p).dom().contains("recvWindow"@) == (p.recv_window is Some),
        p.recv_window is Some ==> get_download_id_for_futures_order_history_query(p)["recvWindow"@] == QueryValueView::Integer(p.recv_window->0),
        forall|k: Seq<char>| #[trigger] get_download_id_for_futures_order_history_query(p).dom().contains(k) ==> (k == "startTime"@ || k == "endTime"@ || k == "recvWindow"@),
{
    reveal_strlit("startTime");
    reveal_strlit("endTime");
    reveal_strlit("recvWindow");
    assert("startTime"@.len() == 9);
    assert("endTime"@.len() == 7);
    assert("recvWindow"@.len() == 10);
    assert("startTime"@ != "endTime"@);
    assert("startTime"@ != "recvWindow"@);
    assert("endTime"@ != "recvWindow"@);
}

/// The request of the `get_download_id_for_futures_order_history` operation: GET `/fapi/v1/order/asyn`, signed.
pub fn get_download_id_for_futures_order_history(params: GetDownloadIdForFuturesOrderHistoryParams) -> (req: RestRequest)
    ensures
        req@ == (RestRequestView {
            path: "/fapi/v1/order/asyn"@,
            method: HttpMethod::Get,
            query: get_download_id_for_futures_order_history_query(params),
            uses_time_unit: HAS_TIME_UNIT,
            signed: true,
        }),
        req@.query.dom().contains("startTime"@),
        req@.query["startTime"@] == QueryValueView::Integer(params.start_time),
        req@.query.dom().contains("endTime"@),
        req@.query["endTime"@] == QueryValueView::Integer(params.end_time),
        req@.query.dom().contains("recvWindow"@) == (params.recv_window is Some),
        params.recv_window is Some ==> req@.query["recvWindow"@] == QueryValueView::Integer(params.recv_window->0),
        forall|k: Seq<char>| #[trigger] req@.query.dom().contains(k) ==> (k == "startTime"@ || k == "endTime"@ || k == "recvWindow"@),
{
    proof {
        lemma_get_download_id_for_futures_order_history_query(params);
    }
    let GetDownloadIdForFuturesOrderHistoryParams { start_time, end_time, recv_window } = params;
    let mut query = QueryParams::new();
    query.insert("startTime".to_owned(), QueryValue::Integer(start_time));
    query.insert("endTime".to_owned(), QueryValue::Integer(end_time));
    if let Some(v) = recv_window {
        query.insert("recvWindow".to_owned(), QueryValue::Integer(v));
    }
    RestRequest {
        path: "/fapi/v1/order/asyn",
        method: HttpMethod::Get,
        query,
        uses_time_unit: HAS_TIME_UNIT,
        signed: true,
    }
}

/// The query parameters that `get_download_id_for_futures_trade_history` sends for `p`.
pub open spec fn get_download_id_for_futures_trade_history_query(p: GetDownloadIdForFuturesTradeHistoryParams) -> QueryMap {
    QueryMap::empty()
        .put("startTime"@, QueryValueView::Integer(p.start_time))
        .put("endTime"@, QueryValueView::Integer(p.end_time))
        .put_opt("recvWindow"@, opt_integer(p.recv_window))
}

/// What `get_download_id_for_futures_trade_history` sends, parameter by parameter: each required parameter
/// under its name with the value given, each optional one exactly when it
/// is given, and no other parameter.
pub proof fn lemma_get_download_id_for_futures_trade_history_query(p: GetDownloadIdForFuturesTradeHistoryParams)
    ensures
        get_download_id_for_futures_trade_history_query(p).dom().contains("startTime"@),
        get_download_id_for_futures_trade_history_query(p)["startTime"@] == QueryValueView::Integer(p.start_time),
        get_download_id_for_futures_trade_history_query(p).dom().contains("endTime"@),
        get_download_id_for_futures_trade_history_query(p)["endTime"@] == QueryValueView::Integer(p.end_time),
        get_download_id_for_futures_trade_history_query(p).dom().contains("recvWindow"@) == (p.recv_window is Some),
        p.recv_window is Some ==> get_download_id_for_futures_trade_history_query(p)["recvWindow"@] == QueryValueView::Integer(p.recv_window->0),
        forall|k: Seq<char>| #[trigger] get_download_id_for_futures_trade_history_query(p).dom().contains(k) ==> (k == "startTime"@ || k == "endTime"@ || k == "recvWindow"@),
{
    reveal_strlit("startTime");
    reveal_strlit("endTime");
    reveal_strlit("recvWindow");
    assert("startTime"@.len() == 9);
    assert("endTime"@.len() == 7);
    assert("recvWindow"@.len() == 10);
    assert("startTime"@ != "endTime"@);
    assert("startTime"@ != "recvWindow"@);
    assert("endTime"@ != "recvWindow"@);
}

/// The request of the `get_download_id_for_futures_trade_history` operation: GET `/fapi/v1/trade/asyn`, signed.
pub fn get_download_id_for_futures_trade_history(params: GetDownloadIdForFuturesTradeHistoryParams) -> (req: RestRequest)
    ensures
        req@ == (RestRequestView {
            path: "/fapi/v1/trade/asyn"@,
            method: HttpMethod::Get,
            query: get_download_id_for_futures_trade_history_query(params),
            uses_time_unit: HAS_TIME_UNIT,
            signed: true,
        }),
        req@.query.dom().contains("startTime"@),
        req@.query["startTime"@] == QueryValueView::Integer(params.start_time),
        req@.query.dom().contains("endTime"@),
        req@.query["endTime"@] == QueryValueView::Integer(params.end_time),
        req@.query.dom().contains("recvWindow"@) == (params.recv_window is Some),
        params.recv_window is Some ==> req@.query["recvWindow"@] == QueryValueView::Integer(params.recv_window->0),
        forall|k: Seq<char>| #[trigger] req@.query.dom().contains(k) ==> (k == "startTime"@ || k == "endTime"@ || k == "recvWindow"@),
{
    proof {
        lemma_get_download_id_for_futures_trade_history_query(params);
    }
    let GetDownloadIdForFuturesTradeHistoryParams { start_time, end_time, recv_window } = params;
    let mut query = QueryParams::new();
    query.insert("startTime".to_owned(), QueryValue::Integer(start_time));
    query.insert("endTime".to_owned(), QueryValue::Integer(end_time));
    if let Some(v) = recv_window {
        query.insert("recvWindow".to_owned(), QueryValue::Integer(v));
    }
    RestRequest {
        path: "/fapi/v1/trade/asyn",
        method: HttpMethod::Get,
        query,
        uses_time_unit: HAS_TIME_UNIT,
        signed: true,
    }
}

/// The query parameters that `get_download_id_for_futures_transaction_history` sends for `p`.
pub open spec fn get_download_id_for_futures_transaction_history_query(p: GetDownloadIdForFuturesTransactionHistoryParams) -> QueryMap {
    QueryMap::empty()
        .put("startTime"@, QueryValueView::Integer(p.start_time))
        .put("endTime"@, QueryValueView::Integer(p.end_time))
        .put_opt("recvWindow"@, opt_integer(p.recv_window))
}

/// What `get_download_id_for_futures_transaction_history` sends, parameter by parameter: each required parameter
/// under its name with the value given, each optional one exactly when it
/// is given, and no other parameter.
pub proof fn lemma_get_download_id_for_futures_transaction_history_query(p: GetDownloadIdForFuturesTransactionHistoryParams)
    ensures
        get_download_id_for_futures_transaction_history_query(p).dom().contains("startTime"@),
        get_download_id_for_futures_transaction_history_query(p)["startTime"@] == QueryValueView::Integer(p.start_time),
        get_download_id_for_futures_transaction_history_query(p).dom().contains("endTime"@),
        get_download_id_for_futures_transaction_history_query(p)["endTime"@] == QueryValueView::Integer(p.end_time),
        get_download_id_for_futures_transaction_history_query(p).dom().contains("recvWindow"@) == (p.recv_window is Some),
        p.recv_window is Some ==> get_download_id_for_futures_transaction_history_query(p)["recvWindow"@] == QueryValueView::Integer(p.recv_window->0),
        forall|k: Seq<char>| #[trigger] get_download_id_for_futures_transaction_history_query(p).dom().contains(k) ==> (k == "startTime"@ || k == "endTime"@ || k == "recvWindow"@),
{
    reveal_strlit("startTime");
    reveal_strlit("endTime");
    reveal_strlit("recvWindow");
    assert("startTime"@.len() == 9);
    assert("endTime"@.len() == 7);
    assert("recvWindow"@.len() == 10);
    assert("startTime"@ != "endTime"@);
    assert("startTime"@ != "recvWindow"@);
    assert("endTime"@ != "recvWindow"@);
}

/// The request of the `get_download_id_for_futures_transaction_history` operation: GET `/fapi/v1/income/asyn`, signed.
pub fn get_download_id_for_futures_transaction_history(params: GetDownloadIdForFuturesTransactionHistoryParams) -> (req: RestRequest)
    ensures
        req@ == (RestRequestView {
            path: "/fapi/v1/income/asyn"@,
            method: HttpMethod::Get,
            query: get_download_id_for_futures_transaction_history_query(params),
            uses_time_unit: HAS_TIME_UNIT,
            signed: true,
        }),
        req@.query.dom().contains("startTime"@),
        req@.query["startTime"@] == QueryValueView::Integer(params.start_time),
        req@.query.dom().contains("endTime"@),
        req@.query["endTime"@] == QueryValueView::Integer(params.end_time),
        req@.query.dom().contains("recvWindow"@) == (params.recv_window is Some),
        params.recv_window is Some ==> req@.query["recvWindow"@] == QueryValueView::Integer(params.recv_window->0),
        forall|k: Seq<char>| #[trigger] req@.query.dom().contains(k) ==> (k == "startTime"@ || k == "endTime"@ || k == "recvWindow"@),
{
    proof {
        lemma_get_download_id_for_futures_transaction_history_query(params);
    }
    let GetDownloadIdForFuturesTransactionHistoryParams { start_time, end_time, recv_window } = params;
    let mut query = QueryParams::new();
    query.insert("startTime".to_owned(), QueryValue::Integer(start_time));
    query.insert("endTime".to_owned(), QueryValue::Integer(end_time));
    if let Some(v) = recv_window {
        query.insert("recvWindow".to_owned(), QueryValue::Integer(v));
    }
    RestRequest {
        path: "/fapi/v1/income/asyn",
        method: HttpMethod::Get,
        query,
        uses_time_unit: HAS_TIME_UNIT,
        signed: true,
    }
}

/// The query parameters that `get_futures_order_history_download_link_by_id` sends for `p`.
pub open spec fn get_futures_order_history_download_link_by_id_query(p: GetFuturesOrderHistoryDownloadLinkByIdParams) -> QueryMap {
    QueryMap::empty()
        .put("downloadId"@, QueryValueView::Text(p.download_id@))
        .put_opt("recvWindow"@, opt_integer(p.recv_window))
}

/// What `get_futures_order_history_download_link_by_id` sends, parameter by parameter: each required parameter
/// under its name with the value given, each optional one exactly when it
/// is given, and no other parameter.
pub proof fn lemma_get_futures_order_history_download_link_by_id_query(p: GetFuturesOrderHistoryDownloadLinkByIdParams)
    ensures
        get_futures_order_history_download_link_by_id_query(p).dom().contains("downloadId"@),
        get_futures_order_history_download_link_by_id_query(p)["downloadId"@] == QueryValueView::Text(p.download_id@),
        get_futures_order_history_download_link_by_id_query(p).dom().contains("recvWindow"@) == (p.recv_window is Some),
        p.recv_window is Some ==> get_futures_order_history_download_link_by_id_query(p)["recvWindow"@] == QueryValueView::Integer(p.recv_window->0),
        forall|k: Seq<char>| #[trigger] get_futures_order_history_download_link_by_id_query(p).dom().contains(k) ==> (k == "downloadId"@ || k == "recvWindow"@),
{
    reveal_strlit("downloadId");
    reveal_strlit("recvWindow");
    assert("downloadId"@.len() == 10);
    assert("recvWindow"@.len() == 10);
    assert("downloadId"@[0] == 'd');
    assert("recvWindow"@[0] == 'r');
    assert("downloadId"@ != "recvWindow"@);
}

/// The request of the `get_futures_order_history_download_link_by_id` operation: GET `/fapi/v1/order/asyn/id`, signed.
pub fn get_futures_order_history_download_link_by_id(params: GetFuturesOrderHistoryDownloadLinkByIdParams) -> (req: RestRequest)
    ensures
        req@ == (RestRequestView {
            path: "/fapi/v1/order/asyn/id"@,
            method: HttpMethod::Get,
            query: get_futures_order_history_download_link_by_id_query(params),
            uses_time_unit: HAS_TIME_UNIT,
            signed: true,
        }),
        req@.query.dom().contains("downloadId"@),
        req@.query["downloadId"@] == QueryValueView::Text(params.download_id@),
        req@.query.dom().contains("recvWindow"@) == (params.recv_window is Some),
        params.recv_window is Some ==> req@.query["recvWindow"@] == QueryValueView::Integer(params.recv_window->0),
        forall|k: Seq<char>| #[trigger] req@.query.dom().contains(k) ==> (k == "downloadId"@ || k == "recvWindow"@),
{
    proof {
        lemma_get_futures_order_history_download_link_by_id_query(params);
    }
    let GetFuturesOrderHistoryDownloadLinkByIdParams { download_id, recv_window } = params;
    let mut query = QueryParams::new();
    query.insert("downloadId".to_owned(), QueryValue::Text(download_id));
    if let Some(v) = recv_window {
        query.insert("recvWindow".to_owned(), QueryValue::Integer(v));
    }
    RestRequest {
        path: "/fapi/v1/order/asyn/id",
        method: HttpMethod::Get,
        query,
        uses_time_unit: HAS_TIME_UNIT,
        signed: true,
    }
}

/// The query parameters that `get_futures_trade_download_link_by_id` sends for `p`.
pub open spec fn get_futures_trade_download_link_by_id_query(p: GetFuturesTradeDownloadLinkByIdParams) -> QueryMap {
    QueryMap::empty()
        .put("downloadId"@, QueryValueView::Text(p.download_id@))
        .put_opt("recvWindow"@, opt_integer(p.recv_window))
}

/// What `get_futures_trade_download_link_by_id` sends, parameter by parameter: each required parameter
/// under its name with the value given, each optional one exactly when it
/// is given, and no other parameter.
pub proof fn lemma_get_futures_trade_download_link_by_id_query(p: GetFuturesTradeDownloadLinkByIdParams)
    ensures
        get_futures_trade_download_link_by_id_query(p).dom().contains("downloadId"@),
        get_futures_trade_download_link_by_id_query(p)["downloadId"@] == QueryValueView::Text(p.download_id@),
        get_futures_trade_download_link_by_id_query(p).dom().contains("recvWindow"@) == (p.recv_window is Some),
        p.recv_window is Some ==> get_futures_trade_download_link_by_id_query(p)["recvWindow"@] == QueryValueView::Integer(p.recv_window->0),
        forall|k: Seq<char>| #[trigger] get_futures_trade_download_link_by_id_query(p).dom().contains(k) ==> (k == "downloadId"@ || k == "recvWindow"@),
{
    reveal_strlit("downloadId");
    reveal_strlit("recvWindow");
    assert("downloadId"@.len() == 10);
    assert("recvWindow"@.len() == 10);
    assert("downloadId"@[0] == 'd');
    assert("recvWindow"@[0] == 'r');
    assert("downloadId"@ != "recvWindow"@);
}

/// The request of the `get_futures_trade_download_link_by_id` operation: GET `/fapi/v1/trade/asyn/id`, signed.
pub fn get_futures_trade_download_link_by_id(params: GetFuturesTradeDownloadLinkByIdParams) -> (req: RestRequest)
    ensures
        req@ == (RestRequestView {
            path: "/fapi/v1/trade/asyn/id"@,
            method: HttpMethod::Get,
            query: get_futures_trade_download_link_by_id_query(params),
            uses_time_unit: HAS_TIME_UNIT,
            signed: true,
        }),
        req@.query.dom().contains("downloadId"@),
        req@.query["downloadId"@] == QueryValueView::Text(params.download_id@),
        req@.query.dom().contains("recvWindow"@) == (params.recv_window is Some),
        params.recv_window is Some ==> req@.query["recvWindow"@] == QueryValueView::Integer(params.recv_window->0),
        forall|k: Seq<char>| #[trigger] req@.query.dom().contains(k) ==> (k == "downloadId"@ || k == "recvWindow"@),
{
    proof {
        lemma_get_futures_trade_download_link_by_id_query(params);
    }
    let GetFuturesTradeDownloadLinkByIdParams { download_id, recv_window } = params;
    let mut query = QueryParams::new();
    query.insert("downloadId".to_owned(), QueryValue::Text(download_id));
    if let Some(v) = recv_window {
        query.insert("recvWindow".to_owned(), QueryValue::Integer(v));
    }
    RestRequest {
        path: "/fapi/v1/trade/asyn/id",
        method: HttpMethod::Get,
        query,
        uses_time_unit: HAS_TIME_UNIT,
        signed: true,
    }
}

/// The query parameters that `get_futures_transaction_history_download_link_by_id` sends for `p`.
pub open spec fn get_futures_transaction_history_download_link_by_id_query(p: GetFuturesTransactionHistoryDownloadLinkByIdParams) -> QueryMap {
    QueryMap::empty()
        .put("downloadId"@, QueryValueView::Text(p.download_id@))
        .put_opt("recvWindow"@, opt_integer(p.recv_window))
}

/// What `get_futures_transaction_history_download_link_by_id` sends, parameter by parameter: each required parameter
/// under its name with the value given, each optional one exactly when it
/// is given, and no other parameter.
pub proof fn lemma_get_futures_transaction_history_download_link_by_id_query(p: GetFuturesTransactionHistoryDownloadLinkByIdParams)
    ensures
        get_futures_transaction_history_download_link_by_id_query(p).dom().contains("downloadId"@),
        get_futures_transaction_history_download_link_by_id_query(p)["downloadId"@] == QueryValueView::Text(p.download_id@),
        get_futures_transaction_history_download_link_by_id_query(p).dom().contains("recvWindow"@) == (p.recv_window is Some),
        p.recv_window is Some ==> get_futures_transaction_history_download_link_by_id_query(p)["recvWindow"@] == QueryValueView::Integer(p.recv_window->0),
        forall|k: Seq<char>| #[trigger] get_futures_transaction_history_download_link_by_id_query(p).dom().contains(k) ==> (k == "downloadId"@ || k == "recvWindow"@),
{
    reveal_strlit("downloadId");
    reveal_strlit("recvWindow");
    assert("downloadId"@.len() == 10);
    assert("recvWindow"@.len() == 10);
    assert("downloadId"@[0] == 'd');
    assert("recvWindow"@[0] == 'r');
    assert("downloadId"@ != "recvWindow"@);
}

/// The request of the `get_futures_transaction_history_download_link_by_id` operation: GET `/fapi/v1/income/asyn/id`, signed.
pub fn get_futures_transaction_history_download_link_by_id(params: GetFuturesTransactionHistoryDownloadLinkByIdParams) -> (req: RestRequest)
    ensures
        req@ == (RestRequestView {
            path: "/fapi/v1/income/asyn/id"@,
            method: HttpMethod::Get,
            query: get_futures_transaction_history_download_link_by_id_query(params),
            uses_time_unit: HAS_TIME_UNIT,
            signed: true,
        }),
        req@.query.dom().contains("downloadId"@),
        req@.query["downloadId"@] == QueryValueView::Text(params.download_id@),
        req@.query.dom().contains("recvWindow"@) == (params.recv_window is Some),
        params.recv_window is Some ==> req@.query["recvWindow"@] == QueryValueView::Integer(params.recv_window->0),
        forall|k: Seq<char>| #[trigger] req@.query.dom().contains(k) ==> (k == "downloadId"@ || k == "recvWindow"@),
{
    proof {
        lemma_get_futures_transaction_history_download_link_by_id_query(params);
    }
    let GetFuturesTransactionHistoryDownloadLinkByIdParams { download_id, recv_window } = params;
    let mut query = QueryParams::new();
    query.insert("downloadId".to_owned(), QueryValue::Text(download_id));
    if let Some(v) = recv_window {
        query.insert("recvWindow".to_owned(), QueryValue::Integer(v));
    }
    RestRequest {
        path: "/fapi/v1/income/asyn/id",
        method: HttpMethod::Get,
        query,
        uses_time_unit: HAS_TIME_UNIT,
        signed: true,
    }
}

/// The query parameters that `get_income_history` sends for `p`.
pub open spec fn get_income_history_query(p: GetIncomeHistoryParams) -> QueryMap {
    QueryMap::empty()
        .put_opt("symbol"@, opt_text(p.symbol))
        .put_opt("incomeType"@, opt_text(p.income_type))
        .put_opt("startTime"@, opt_integer(p.start_time))
        .put_opt("endTime"@, opt_integer(p.end_time))
        .put_opt("page"@, opt_integer(p.page))
        .put_opt("limit"@, opt_integer(p.limit))
        .put_opt("recvWindow"@, opt_integer(p.recv_window))
}

/// What `get_income_history` sends, parameter by parameter: each required parameter
/// under its name with the value given, each optional one exactly when it
/// is given, and no other parameter.
pub proof fn lemma_get_income_history_query(p: GetIncomeHistoryParams)
    ensures
        get_income_history_query(p).dom().contains("symbol"@) == (p.symbol is Some),
        p.symbol is Some ==> get_income_history_query(p)["symbol"@] == QueryValueView::Text(p.symbol->0@),
        get_income_history_query(p).dom().contains("incomeType"@) == (p.income_type is Some),
        p.income_type is Some ==> get_income_history_query(p)["incomeType"@] == QueryValueView::Text(p.income_type->0@),
        get_income_history_query(p).dom().contains("startTime"@) == (p.start_time is Some),
        p.start_time is Some ==> get_income_history_query(p)["startTime"@] == QueryValueView::Integer(p.start_time->0),
        get_income_history_query(p).dom().contains("endTime"@) == (p.end_time is Some),
        p.end_time is Some ==> get_income_history_query(p)["endTime"@] == QueryValueView::Integer(p.end_time->0),
        get_income_history_query(p).dom().contains("page"@) == (p.page is Some),
        p.page is Some ==> get_income_history_query(p)["page"@] == QueryValueView::Integer(p.page->0),
        get_income_history_query(p).dom().contains("limit"@) == (p.limit is Some),
        p.limit is Some ==> get_income_history_query(p)["limit"@] == QueryValueView::Integer(p.limit->0),
        get_income_history_query(p).dom().contains("recvWindow"@) == (p.recv_window is Some),
        p.recv_window is Some ==> get_income_history_query(p)["recvWindow"@] == QueryValueView::Integer(p.recv_window->0),
        forall|k: Seq<char>| #[trigger] get_income_history_query(p).dom().contains(k) ==> (k == "symbol"@ || k == "incomeType"@ || k == "startTime"@ || k == "endTime"@ || k == "page"@ || k == "limit"@ || k == "recvWindow"@),
{
    reveal_strlit("symbol");
    reveal_strlit("incomeType");
    reveal_strlit("startTime");
    reveal_strlit("endTime");
    reveal_strlit("page");
    reveal_strlit("limit");
    reveal_strlit("recvWindow");
    assert("symbol"@.len() == 6);
    assert("incomeType"@.len() == 10);
    assert("startTime"@.len() == 9);
    assert("endTime"@.len() == 7);
    assert("page"@.len() == 4);
    assert("limit"@.len() == 5);
    assert("recvWindow"@.len() == 10);
    assert("incomeType"@[0] == 'i');
    assert("recvWindow"@[0] == 'r');
    assert("symbol"@ != "incomeType"@);
    assert("symbol"@ != "startTime"@);
    assert("symbol"@ != "endTime"@);
    assert("symbol"@ != "page"@);
    assert("symbol"@ != "limit"@);
    assert("symbol"@ != "recvWindow"@);
    assert("incomeType"@ != "startTime"@);
    assert("incomeType"@ != "endTime"@);
    assert("incomeType"@ != "page"@);
    assert("incomeType"@ != "limit"@);
    assert("incomeType"@ != "recvWindow"@);
    assert("startTime"@ != "endTime"@);
    assert("startTime"@ != "page"@);
    assert("startTime"@ != "limit"@);
    assert("startTime"@ != "recvWindow"@);
    assert("endTime"@ != "page"@);
    assert("endTime"@ != "limit"@);
    assert("endTime"@ != "recvWindow"@);
    assert("page"@ != "limit"@);
    assert("page"@ != "recvWindow"@);
    assert("limit"@ != "recvWindow"@);
}

/// The request of the `get_income_history` operation: GET `/fapi/v1/income`, signed.
pub fn get_income_history(params: GetIncomeHistoryParams) -> (req: RestRequest)
    ensures
        req@ == (RestRequestView {
            path: "/fapi/v1/income"@,
            method: HttpMethod::Get,
            query: get_income_history_query(params),
            uses_time_unit: HAS_TIME_UNIT,
            signed: true,
        }),
        req@.query.dom().contains("symbol"@) == (params.symbol is Some),
        params.symbol is Some ==> req@.query["symbol"@] == QueryValueView::Text(params.symbol->0@),
        req@.query.dom().contains("incomeType"@) == (params.income_type is Some),
        params.income_type is Some ==> req@.query["incomeType"@] == QueryValueView::Text(params.income_type->0@),
        req@.query.dom().contains("startTime"@) == (params.start_time is Some),
        params.start_time is Some ==> req@.query["startTime"@] == QueryValueView::Integer(params.start_time->0),
        req@.query.dom().contains("endTime"@) == (params.end_time is Some),
        params.end_time is Some ==> req@.query["endTime"@] == QueryValueView::Integer(params.end_time->0),
        req@.query.dom().contains("page"@) == (params.page is Some),
        params.page is Some ==> req@.query["page"@] == QueryValueView::Integer(params.page->0),
        req@.query.dom().contains("limit"@) == (params.limit is Some),
        params.limit is Some ==> req@.query["limit"@] == QueryValueView::Integer(params.limit->0),
        req@.query.dom().contains("recvWindow"@) == (params.recv_window is Some),
        params.recv_window is Some ==> req@.query["recvWindow"@] == QueryValueView::Integer(params.recv_window->0),
        forall|k: Seq<char>| #[trigger] req@.query.dom().contains(k) ==> (k == "symbol"@ || k == "incomeType"@ || k == "startTime"@ || k == "endTime"@ || k == "page"@ || k == "limit"@ || k == "recvWindow"@),
{
    proof {
        lemma_get_income_history_query(params);
    }
    let GetIncomeHistoryParams { symbol, income_type, start_time, end_time, page, limit, recv_window } = params;
    let mut query = QueryParams::new();
    if let Some(v) = symbol {
        query.insert("symbol".to_owned(), QueryValue::Text(v));
    }
    if let Some(v) = income_type {
        query.insert("incomeType".to_owned(), QueryValue::Text(v));
    }
    if let Some(v) = start_time {
        query.insert("startTime".to_owned(), QueryValue::Integer(v));
    }
    if let Some(v) = end_time {
        query.insert("endTime".to_owned(), QueryValue::Integer(v));
    }
    if let Some(v) = page {
        query.insert("page".to_owned(), QueryValue::Integer(v));
    }
    if let Some(v) = limit {
        query.insert("limit".to_owned(), QueryValue::Integer(v));
    }
    if let Some(v) = recv_window {
        query.insert("recvWindow".to_owned(), QueryValue::Integer(v));
    }
    RestRequest {
        path: "/fapi/v1/income",
        method: HttpMethod::Get,
        query,
        uses_time_unit: HAS_TIME_UNIT,
        signed: true,
    }
}

/// The query parameters that `notional_and_leverage_brackets` sends for `p`.
pub open spec fn notional_and_leverage_brackets_query(p: NotionalAndLeverageBracketsParams) -> QueryMap {
    QueryMap::empty()
        .put_opt("symbol"@, opt_text(p.symbol))
        .put_opt("recvWindow"@, opt_integer(p.recv_window))
}

/// What `notional_and_leverage_brackets` sends, parameter by parameter: each required parameter
/// under its name with the value given, each optional one exactly when it
/// is given, and no other parameter.
pub proof fn lemma_notional_and_leverage_brackets_query(p: NotionalAndLeverageBracketsParams)
    ensures
        notional_and_leverage_brackets_query(p).dom().contains("symbol"@) == (p.symbol is Some),
        p.symbol is Some ==> notional_and_leverage_brackets_query(p)["symbol"@] == QueryValueView::Text(p.symbol->0@),
        notional_and_leverage_brackets_query(p).dom().contains("recvWindow"@) == (p.recv_window is Some),
        p.recv_window is Some ==> notional_and_leverage_brackets_query(p)["recvWindow"@] == QueryValueView::Integer(p.recv_window->0),
        forall|k: Seq<char>| #[trigger] notional_and_leverage_brackets_query(p).dom().contains(k) ==> (k == "symbol"@ || k == "recvWindow"@),
{
    reveal_strlit("symbol");
    reveal_strlit("recvWindow");
    assert("symbol"@.len() == 6);
    assert("recvWindow"@.len() == 10);
    assert("symbol"@ != "recvWindow"@);
}

/// The request of the `notional_and_leverage_brackets` operation: GET `/fapi/v1/leverageBracket`, signed.
pub fn notional_and_leverage_brackets(params: NotionalAndLeverageBracketsParams) -> (req: RestRequest)
    ensures
        req@ == (RestRequestView {
            path: "/fapi/v1/leverageBracket"@,
            method: HttpMethod::Get,
            query: notional_and_leverage_brackets_query(params),
            uses_time_unit: HAS_TIME_UNIT,
            signed: true,
        }),
        req@.query.dom().contains("symbol"@) == (params.symbol is Some),
        params.symbol is Some ==> req@.query["symbol"@] == QueryValueView::Text(params.symbol->0@),
        req@.query.dom().contains("recvWindow"@) == (params.recv_window is Some),
        params.recv_window is Some ==> req@.query["recvWindow"@] == QueryValueView::Integer(params.recv_window->0),
        forall|k: Seq<char>| #[trigger] req@.query.dom().contains(k) ==> (k == "symbol"@ || k == "recvWindow"@),
{
    proof {
        lemma_notional_and_leverage_brackets_query(params);
    }
    let NotionalAndLeverageBracketsParams { symbol, recv_window } = params;
    let mut query = QueryParams::new();
    if let Some(v) = symbol {
        query.insert("symbol".to_owned(), QueryValue::Text(v));
    }
    if let Some(v) = recv_window {
        query.insert("recvWindow".to_owned(), QueryValue::Integer(v));
    }
    RestRequest {
        path: "/fapi/v1/leverageBracket",
        method: HttpMethod::Get,
        query,
        uses_time_unit: HAS_TIME_UNIT,
        signed: true,
    }
}

/// The query parameters that `query_user_rate_limit` sends for `p`.
pub open spec fn query_user_rate_limit_query(p: QueryUserRateLimitParams) -> QueryMap {
    QueryMap::empty()
        .put_opt("recvWindow"@, opt_integer(p.recv_window))
}

/// What `query_user_rate_limit` sends, parameter by parameter: each required parameter
/// under its name with the value given, each optional one exactly when it
/// is given, and no other parameter.
pub proof fn lemma_query_user_rate_limit_query(p: QueryUserRateLimitParams)
    ensures
        query_user_rate_limit_query(p).dom().contains("recvWindow"@) == (p.recv_window is Some),
        p.recv_window is Some ==> query_user_rate_limit_query(p)["recvWindow"@] == QueryValueView::Integer(p.recv_window->0),
        forall|k: Seq<char>| #[trigger] query_user_rate_limit_query(p).dom().contains(k) ==> (k == "recvWindow"@),
{
    reveal_strlit("recvWindow");
    assert("recvWindow"@.len() == 10);
}

/// The request of the `query_user_rate_limit` operation: GET `/fapi/v1/rateLimit/order`, signed.
pub fn query_user_rate_limit(params: QueryUserRateLimitParams) -> (req: RestRequest)
    ensures
        req@ == (RestRequestView {
            path: "/fapi/v1/rateLimit/order"@,
            method: HttpMethod::Get,
            query: query_user_rate_limit_query(params),
            uses_time_unit: HAS_TIME_UNIT,
            signed: true,
        }),
        req@.query.dom().contains("recvWindow"@) == (params.recv_window is Some),
        params.recv_window is Some ==> req@.query["recvWindow"@] == QueryValueView::Integer(params.recv_window->0),
        forall|k: Seq<char>| #[trigger] req@.query.dom().contains(k) ==> (k == "recvWindow"@),
{
    proof {
        lemma_query_user_rate_limit_query(params);
    }
    let QueryUserRateLimitParams { recv_window } = params;
    let mut query = QueryParams::new();
    if let Some(v) = recv_window {
        query.insert("recvWindow".to_owned(), QueryValue::Integer(v));
    }
    RestRequest {
        path: "/fapi/v1/rateLimit/order",
        method: HttpMethod::Get,
        query,
        uses_time_unit: HAS_TIME_UNIT,
        signed: true,
    }
}

/// The query parameters that `symbol_configuration` sends for `p`.
pub open spec fn symbol_configuration_query(p: SymbolConfigurationParams) -> QueryMap {
    QueryMap::empty()
        .put_opt("symbol"@, opt_text(p.symbol))
        .put_opt("recvWindow"@, opt_integer(p.recv_window))
}

/// What `symbol_configuration` sends, parameter by parameter: each required parameter
/// under its name with the value given, each optional one exactly when it
/// is given, and no other parameter.
pub proof fn lemma_symbol_configuration_query(p: SymbolConfigurationParams)
    ensures
        symbol_configuration_query(p).dom().contains("symbol"@) == (p.symbol is Some),
        p.symbol is Some ==> symbol_configuration_query(p)["symbol"@] == QueryValueView::Text(p.symbol->0@),
        symbol_configuration_query(p).dom().contains("recvWindow"@) == (p.recv_window is Some),
        p.recv_window is Some ==> symbol_configuration_query(p)["recvWindow"@] == QueryValueView::Integer(p.recv_window->0),
        forall|k: Seq<char>| #[trigger] symbol_configuration_query(p).dom().contains(k) ==> (k == "symbol"@ || k == "recvWindow"@),
{
    reveal_strlit("symbol");
    reveal_strlit("recvWindow");
    assert("symbol"@.len() == 6);
    assert("recvWindow"@.len() == 10);
    assert("symbol"@ != "recvWindow"@);
}

/// The request of the `symbol_configuration` operation: GET `/fapi/v1/symbolConfig`, signed.
pub fn symbol_configuration(params: SymbolConfigurationParams) -> (req: RestRequest)
    ensures
        req@ == (RestRequestView {
            path: "/fapi/v1/symbolConfig"@,
            method: HttpMethod::Get,
            query: symbol_configuration_query(params),
            uses_time_unit: HAS_TIME_UNIT,
            signed: true,
        }),
        req@.query.dom().contains("symbol"@) == (params.symbol is Some),
        params.symbol is Some ==> req@.query["symbol"@] == QueryValueView::Text(params.symbol->0@),
        req@.query.dom().contains("recvWindow"@) == (params.recv_window is Some),
        params.recv_window is Some ==> req@.query["recvWindow"@] == QueryValueView::Integer(params.recv_window->0),
        forall|k: Seq<char>| #[trigger] req@.query.dom().contains(k) ==> (k == "symbol"@ || k == "recvWindow"@),
{
    proof {
        lemma_symbol_configuration_query(params);
    }
    let SymbolConfigurationParams { symbol, recv_window } = params;
    let mut query = QueryParams::new();
    if let Some(v) = symbol {
        query.insert("symbol".to_owned(), QueryValue::Text(v));
    }
    if let Some(v) = recv_window {
        query.insert("recvWindow".to_owned(), QueryValue::Integer(v));
    }
    RestRequest {
        path: "/fapi/v1/symbolConfig",
        method: HttpMethod::Get,
        query,
        uses_time_unit: HAS_TIME_UNIT,
        signed: true,
    }
}

/// The query parameters that `toggle_bnb_burn_on_futures_trade` sends for `p`.
pub open spec fn toggle_bnb_burn_on_futures_trade_query(p: ToggleBnbBurnOnFuturesTradeParams) -> QueryMap {
    QueryMap::empty()
        .put("feeBurn"@, QueryValueView::Text(p.fee_burn@))
        .put_opt("recvWindow"@, opt_integer(p.recv_window))
}

/// What `toggle_bnb_burn_on_futures_trade` sends, parameter by parameter: each required parameter
/// under its name with the value given, each optional one exactly when it
/// is given, and no other parameter.
pub proof fn lemma_toggle_bnb_burn_on_futures_trade_query(p: ToggleBnbBurnOnFuturesTradeParams)
    ensures
        toggle_bnb_burn_on_futures_trade_query(p).dom().contains("feeBurn"@),
        toggle_bnb_burn_on_futures_trade_query(p)["feeBurn"@] == QueryValueView::Text(p.fee_burn@),
        toggle_bnb_burn_on_futures_trade_query(p).dom().contains("recvWindow"@) == (p.recv_window is Some),
        p.recv_window is Some ==> toggle_bnb_burn_on_futures_trade_query(p)["recvWindow"@] == QueryValueView::Integer(p.recv_window->0),
        forall|k: Seq<char>| #[trigger] toggle_bnb_burn_on_futures_trade_query(p).dom().contains(k) ==> (k == "feeBurn"@ || k == "recvWindow"@),
{
    reveal_strlit("feeBurn");
    reveal_strlit("recvWindow");
    assert("feeBurn"@.len() == 7);
    assert("recvWindow"@.len() == 10);
    assert("feeBurn"@ != "recvWindow"@);
}

/// The request of the `toggle_bnb_burn_on_futures_trade` operation: POST `/fapi/v1/feeBurn`, signed.
pub fn toggle_bnb_burn_on_futures_trade(params: ToggleBnbBurnOnFuturesTradeParams) -> (req: RestRequest)
    ensures
        req@ == (RestRequestView {
            path: "/fapi/v1/feeBurn"@,
            method: HttpMethod::Post,
            query: toggle_bnb_burn_on_futures_trade_query(params),
            uses_time_unit: HAS_TIME_UNIT,
            signed: true,
        }),
        req@.query.dom().contains("feeBurn"@),
        req@.query["feeBurn"@] == QueryValueView::Text(params.fee_burn@),
        req@.query.dom().contains("recvWindow"@) == (params.recv_window is Some),
        params.recv_window is Some ==> req@.query["recvWindow"@] == QueryValueView::Integer(params.recv_window->0),
        forall|k: Seq<char>| #[trigger] req@.query.dom().contains(k) ==> (k == "feeBurn"@ || k == "recvWindow"@),
{
    proof {
        lemma_toggle_bnb_burn_on_futures_trade_query(params);
    }
    let ToggleBnbBurnOnFuturesTradeParams { fee_burn, recv_window } = params;
    let mut query = QueryParams::new();
    query.insert("feeBurn".to_owned(), QueryValue::Text(fee_burn));
    if let Some(v) = recv_window {
        query.insert("recvWindow".to_owned(), QueryValue::Integer(v));
    }
    RestRequest {
        path: "/fapi/v1/feeBurn",
        method: HttpMethod::Post,
        query,
        uses_time_unit: HAS_TIME_UNIT,
        signed: true,
    }
}

/// The query parameters that `user_commission_rate` sends for `p`.
pub open spec fn user_commission_rate_query(p: UserCommissionRateParams) -> QueryMap {
    QueryMap::empty()
        .put("symbol"@, QueryValueView::Text(p.symbol@))
        .put_opt("recvWindow"@, opt_integer(p.recv_window))
}

/// What `user_commission_rate` sends, parameter by parameter: each required parameter
/// under its name with the value given, each optional one exactly when it
/// is given, and no other parameter.
pub proof fn lemma_user_commission_rate_query(p: UserCommissionRateParams)
    ensures
        user_commission_rate_query(p).dom().contains("symbol"@),
        user_commission_rate_query(p)["symbol"@] == QueryValueView::Text(p.symbol@),
        user_commission_rate_query(p).dom().contains("recvWindow"@) == (p.recv_window is Some),
        p.recv_window is Some ==> user_commission_rate_query(p)["recvWindow"@] == QueryValueView::Integer(p.recv_window->0),
        forall|k: Seq<char>| #[trigger] user_commission_rate_query(p).dom().contains(k) ==> (k == "symbol"@ || k == "recvWindow"@),
{
    reveal_strlit("symbol");
    reveal_strlit("recvWindow");
    assert("symbol"@.len() == 6);
    assert("recvWindow"@.len() == 10);
    assert("symbol"@ != "recvWindow"@);
}

/// The request of the `user_commission_rate` operation: GET `/fapi/v1/commissionRate`, signed.
pub fn user_commission_rate(params: UserCommissionRateParams) -> (req: RestRequest)
    ensures
        req@ == (RestRequestView {
            path: "/fapi/v1/commissionRate"@,
            method: HttpMethod::Get,
            query: user_commission_rate_query(params),
            uses_time_unit: HAS_TIME_UNIT,
            signed: true,
        }),
        req@.query.dom().contains("symbol"@),
        req@.query["symbol"@] == QueryValueView::Text(params.symbol@),
        req@.query.dom().contains("recvWindow"@) == (params.recv_window is Some),
        params.recv_window is Some ==> req@.query["recvWindow"@] == QueryValueView::Integer(params.recv_window->0),
        forall|k: Seq<char>| #[trigger] req@.query.dom().contains(k) ==> (k == "symbol"@ || k == "recvWindow"@),
{
    proof {
        lemma_user_commission_rate_query(params);
    }
    let UserCommissionRateParams { symbol, recv_window } = params;
    let mut query = QueryParams::new();
    query.insert("symbol".to_owned(), QueryValue::Text(symbol));
    if let Some(v) = recv_window {
        query.insert("recvWindow".to_owned(), QueryValue::Integer(v));
    }
    RestRequest {
        path: "/fapi/v1/commissionRate",
        method: HttpMethod::Get,
        query,
        uses_time_unit: HAS_TIME_UNIT,
        signed: true,
    }
}

} // verus!
