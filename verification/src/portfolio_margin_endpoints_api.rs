//! The requests of the Portfolio Margin Endpoints endpoints (`PortfolioMarginEndpointsApi`).
use vstd::prelude::*;
use crate::query::{
    HttpMethod, QueryMap, QueryMapBuild, QueryParams, QueryValue, QueryValueView, RestRequest, RestRequestView, HAS_TIME_UNIT, opt_integer,
};

verus! {

/// Request parameters for the `classic_portfolio_margin_account_information` operation.
#[derive(Clone, Debug)]
pub struct ClassicPortfolioMarginAccountInformationParams {
    /// Sent as `asset`; required.
    pub asset: String,
    /// Sent as `recvWindow`; optional.
    pub recv_window: Option<i64>,
}

/// The query parameters that `classic_portfolio_margin_account_information` sends for `p`.
pub open spec fn classic_portfolio_margin_account_information_query(p: ClassicPortfolioMarginAccountInformationParams) -> QueryMap {
    QueryMap::empty()
        .put("asset"@, QueryValueView::Text(p.asset@))
        .put_opt("recvWindow"@, opt_integer(p.recv_window))
}

/// What `classic_portfolio_margin_account_information` sends, parameter by parameter: each required parameter
/// under its name with the value given, each optional one exactly when it
/// is given, and no other parameter.
pub proof fn lemma_classic_portfolio_margin_account_information_query(p: ClassicPortfolioMarginAccountInformationParams)
    ensures
        classic_portfolio_margin_account_information_query(p).dom().contains("asset"@),
        classic_portfolio_margin_account_information_query(p)["asset"@] == QueryValueView::Text(p.asset@),
        classic_portfolio_margin_account_information_query(p).dom().contains("recvWindow"@) == (p.recv_window is Some),
        p.recv_window is Some ==> classic_portfolio_margin_account_information_query(p)["recvWindow"@] == QueryValueView::Integer(p.recv_window->0),
        forall|k: Seq<char>| #[trigger] classic_portfolio_margin_account_information_query(p).dom().contains(k) ==> (k == "asset"@ || k == "recvWindow"@),
{
    reveal_strlit("asset");
    reveal_strlit("recvWindow");
    assert("asset"@.len() == 5);
    assert("recvWindow"@.len() == 10);
    assert("asset"@ != "recvWindow"@);
}

/// The request of the `classic_portfolio_margin_account_information` operation: GET `/fapi/v1/pmAccountInfo`, signed.
pub fn classic_portfolio_margin_account_information(params: ClassicPortfolioMarginAccountInformationParams) -> (req: RestRequest)
    ensures
        req@ == (RestRequestView {
            path: "/fapi/v1/pmAccountInfo"@,
            method: HttpMethod::Get,
            query: classic_portfolio_margin_account_information_query(params),
            uses_time_unit: HAS_TIME_UNIT,
            signed: true,
        }),
        req@.query.dom().contains("asset"@),
        req@.query["asset"@] == QueryValueView::Text(params.asset@),
        req@.query.dom().contains("recvWindow"@) == (params.recv_window is Some),
        params.recv_window is Some ==> req@.query["recvWindow"@] == QueryValueView::Integer(params.recv_window->0),
        forall|k: Seq<char>| #[trigger] req@.query.dom().contains(k) ==> (k == "asset"@ || k == "recvWindow"@),
{
    proof {
        lemma_classic_portfolio_margin_account_information_query(params);
    }
    let ClassicPortfolioMarginAccountInformationParams { asset, recv_window } = params;
    let mut query = QueryParams::new();
    query.insert("asset".to_owned(), QueryValue::Text(asset));
    if let Some(v) = recv_window {
        query.insert("recvWindow".to_owned(), QueryValue::Integer(v));
    }
    RestRequest {
        path: "/fapi/v1/pmAccountInfo",
        method: HttpMethod::Get,
        query,
        uses_time_unit: HAS_TIME_UNIT,
        signed: true,
    }
}

} // verus!
