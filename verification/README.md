# arkin-binance

Request building for Binance's USDⓈ-M futures REST API, verified with Verus.

- `src/query.rs`: the request (`RestRequest`: path, HTTP method, signing,
  query) and its query parameters (`QueryParams`, a map from parameter name
  to `QueryValue` that holds each name once).
- `src/account_api.rs`, `convert_api.rs`, `market_data_api.rs`,
  `portfolio_margin_endpoints_api.rs`, `trade_api.rs`: for each endpoint its
  parameter struct and a function that builds its request, with a contract
  that states the exact path, method, signing and query; the enums of the
  endpoints with `as_str`, `parse`/`FromStr` and the proof that wire names
  round-trip.
- `app/`: the async clients (`AccountApi`, `TradeApi`, ...) that send the
  built requests, with the builder and serde derives on their parameter
  types.

`app/` is written against the connector's `common` module (`ConfigurationRestApi`,
`RestApiResponse`, `send_request`) and its `rest_api::models` module. Neither is
part of this crate, so `app/` builds only inside the connector that provides them.
