use arkin_binance::market_data_api::{BasisContractTypeEnum, BasisParams, BasisPeriodEnum, CompositeIndexSymbolInformationParams, CompressedAggregateTradesListParams, ContinuousContractKlineCandlestickDataContractTypeEnum, ContinuousContractKlineCandlestickDataIntervalEnum, ContinuousContractKlineCandlestickDataParams, GetFundingRateHistoryParams, IndexPriceKlineCandlestickDataIntervalEnum, IndexPriceKlineCandlestickDataParams, KlineCandlestickDataIntervalEnum, KlineCandlestickDataParams, LongShortRatioParams, LongShortRatioPeriodEnum, MarkPriceKlineCandlestickDataIntervalEnum, MarkPriceKlineCandlestickDataParams, MarkPriceParams, MultiAssetsModeAssetIndexParams, OldTradesLookupParams, OpenInterestParams, OpenInterestStatisticsParams, OpenInterestStatisticsPeriodEnum, OrderBookParams, PremiumIndexKlineDataIntervalEnum, PremiumIndexKlineDataParams, QuarterlyContractSettlementPriceParams, QueryIndexPriceConstituentsParams, QueryInsuranceFundBalanceSnapshotParams, RecentTradesListParams, SymbolOrderBookTickerParams, SymbolPriceTickerParams, SymbolPriceTickerV2Params, TakerBuySellVolumeParams, TakerBuySellVolumePeriodEnum, Ticker24hrPriceChangeStatisticsParams, TopTraderLongShortRatioAccountsParams, TopTraderLongShortRatioAccountsPeriodEnum, TopTraderLongShortRatioPositionsParams, TopTraderLongShortRatioPositionsPeriodEnum, basis, check_server_time, composite_index_symbol_information, compressed_aggregate_trades_list, continuous_contract_kline_candlestick_data, exchange_information, get_funding_rate_history, get_funding_rate_info, index_price_kline_candlestick_data, kline_candlestick_data, long_short_ratio, mark_price, mark_price_kline_candlestick_data, multi_assets_mode_asset_index, old_trades_lookup, open_interest, open_interest_statistics, order_book, premium_index_kline_data, quarterly_contract_settlement_price, query_index_price_constituents, query_insurance_fund_balance_snapshot, recent_trades_list, symbol_order_book_ticker, symbol_price_ticker, symbol_price_ticker_v2, taker_buy_sell_volume, test_connectivity, ticker24hr_price_change_statistics, top_trader_long_short_ratio_accounts, top_trader_long_short_ratio_positions};
use arkin_binance::query::{HttpMethod, QueryValue};
use std::str::FromStr;

#[test]
fn basis_contract_type_enum_wire_names() {
    assert_eq!(BasisContractTypeEnum::Perpetual.as_str(), "PERPETUAL");
    assert_eq!(BasisContractTypeEnum::from_str("PERPETUAL"), Ok(BasisContractTypeEnum::Perpetual));
    assert_eq!(BasisContractTypeEnum::CurrentMonth.as_str(), "CURRENT_MONTH");
    assert_eq!(BasisContractTypeEnum::from_str("CURRENT_MONTH"), Ok(BasisContractTypeEnum::CurrentMonth));
    assert_eq!(BasisContractTypeEnum::NextMonth.as_str(), "NEXT_MONTH");
    assert_eq!(BasisContractTypeEnum::from_str("NEXT_MONTH"), Ok(BasisContractTypeEnum::NextMonth));
    assert_eq!(BasisContractTypeEnum::CurrentQuarter.as_str(), "CURRENT_QUARTER");
    assert_eq!(BasisContractTypeEnum::from_str("CURRENT_QUARTER"), Ok(BasisContractTypeEnum::CurrentQuarter));
    assert_eq!(BasisContractTypeEnum::NextQuarter.as_str(), "NEXT_QUARTER");
    assert_eq!(BasisContractTypeEnum::from_str("NEXT_QUARTER"), Ok(BasisContractTypeEnum::NextQuarter));
    assert_eq!(BasisContractTypeEnum::PerpetualDelivering.as_str(), "PERPETUAL_DELIVERING");
    assert_eq!(BasisContractTypeEnum::from_str("PERPETUAL_DELIVERING"), Ok(BasisContractTypeEnum::PerpetualDelivering));
    assert_eq!(BasisContractTypeEnum::from_str("perpetualx"), Err("invalid BasisContractTypeEnum: perpetualx".to_string()));
    assert_eq!(BasisContractTypeEnum::parse(""), Err("invalid BasisContractTypeEnum: ".to_string()));
}

#[test]
fn basis_period_enum_wire_names() {
    assert_eq!(BasisPeriodEnum::Period5m.as_str(), "5m");
    assert_eq!(BasisPeriodEnum::from_str("5m"), Ok(BasisPeriodEnum::Period5m));
    assert_eq!(BasisPeriodEnum::Period15m.as_str(), "15m");
    assert_eq!(BasisPeriodEnum::from_str("15m"), Ok(BasisPeriodEnum::Period15m));
    assert_eq!(BasisPeriodEnum::Period30m.as_str(), "30m");
    assert_eq!(BasisPeriodEnum::from_str("30m"), Ok(BasisPeriodEnum::Period30m));
    assert_eq!(BasisPeriodEnum::Period1h.as_str(), "1h");
    assert_eq!(BasisPeriodEnum::from_str("1h"), Ok(BasisPeriodEnum::Period1h));
    assert_eq!(BasisPeriodEnum::Period2h.as_str(), "2h");
    assert_eq!(BasisPeriodEnum::from_str("2h"), Ok(BasisPeriodEnum::Period2h));
    assert_eq!(BasisPeriodEnum::Period4h.as_str(), "4h");
    assert_eq!(BasisPeriodEnum::from_str("4h"), Ok(BasisPeriodEnum::Period4h));
    assert_eq!(BasisPeriodEnum::Period6h.as_str(), "6h");
    assert_eq!(BasisPeriodEnum::from_str("6h"), Ok(BasisPeriodEnum::Period6h));
    assert_eq!(BasisPeriodEnum::Period12h.as_str(), "12h");
    assert_eq!(BasisPeriodEnum::from_str("12h"), Ok(BasisPeriodEnum::Period12h));
    assert_eq!(BasisPeriodEnum::Period1d.as_str(), "1d");
    assert_eq!(BasisPeriodEnum::from_str("1d"), Ok(BasisPeriodEnum::Period1d));
    assert_eq!(BasisPeriodEnum::from_str("5mx"), Err("invalid BasisPeriodEnum: 5mx".to_string()));
    assert_eq!(BasisPeriodEnum::parse(""), Err("invalid BasisPeriodEnum: ".to_string()));
}

#[test]
fn continuous_contract_kline_candlestick_data_contract_type_enum_wire_names() {
    assert_eq!(ContinuousContractKlineCandlestickDataContractTypeEnum::Perpetual.as_str(), "PERPETUAL");
    assert_eq!(ContinuousContractKlineCandlestickDataContractTypeEnum::from_str("PERPETUAL"), Ok(ContinuousContractKlineCandlestickDataContractTypeEnum::Perpetual));
    assert_eq!(ContinuousContractKlineCandlestickDataContractTypeEnum::CurrentMonth.as_str(), "CURRENT_MONTH");
    assert_eq!(ContinuousContractKlineCandlestickDataContractTypeEnum::from_str("CURRENT_MONTH"), Ok(ContinuousContractKlineCandlestickDataContractTypeEnum::CurrentMonth));
    assert_eq!(ContinuousContractKlineCandlestickDataContractTypeEnum::NextMonth.as_str(), "NEXT_MONTH");
    assert_eq!(ContinuousContractKlineCandlestickDataContractTypeEnum::from_str("NEXT_MONTH"), Ok(ContinuousContractKlineCandlestickDataContractTypeEnum::NextMonth));
    assert_eq!(ContinuousContractKlineCandlestickDataContractTypeEnum::CurrentQuarter.as_str(), "CURRENT_QUARTER");
    assert_eq!(ContinuousContractKlineCandlestickDataContractTypeEnum::from_str("CURRENT_QUARTER"), Ok(ContinuousContractKlineCandlestickDataContractTypeEnum::CurrentQuarter));
    assert_eq!(ContinuousContractKlineCandlestickDataContractTypeEnum::NextQuarter.as_str(), "NEXT_QUARTER");
    assert_eq!(ContinuousContractKlineCandlestickDataContractTypeEnum::from_str("NEXT_QUARTER"), Ok(ContinuousContractKlineCandlestickDataContractTypeEnum::NextQuarter));
    assert_eq!(ContinuousContractKlineCandlestickDataContractTypeEnum::PerpetualDelivering.as_str(), "PERPETUAL_DELIVERING");
    assert_eq!(ContinuousContractKlineCandlestickDataContractTypeEnum::from_str("PERPETUAL_DELIVERING"), Ok(ContinuousContractKlineCandlestickDataContractTypeEnum::PerpetualDelivering));
    assert_eq!(ContinuousContractKlineCandlestickDataContractTypeEnum::from_str("perpetualx"), Err("invalid ContinuousContractKlineCandlestickDataContractTypeEnum: perpetualx".to_string()));
    assert_eq!(ContinuousContractKlineCandlestickDataContractTypeEnum::parse(""), Err("invalid ContinuousContractKlineCandlestickDataContractTypeEnum: ".to_string()));
}

#[test]
fn continuous_contract_kline_candlestick_data_interval_enum_wire_names() {
    assert_eq!(ContinuousContractKlineCandlestickDataIntervalEnum::Interval1m.as_str(), "1m");
    assert_eq!(ContinuousContractKlineCandlestickDataIntervalEnum::from_str("1m"), Ok(ContinuousContractKlineCandlestickDataIntervalEnum::Interval1m));
    assert_eq!(ContinuousContractKlineCandlestickDataIntervalEnum::Interval3m.as_str(), "3m");
    assert_eq!(ContinuousContractKlineCandlestickDataIntervalEnum::from_str("3m"), Ok(ContinuousContractKlineCandlestickDataIntervalEnum::Interval3m));
    assert_eq!(ContinuousContractKlineCandlestickDataIntervalEnum::Interval5m.as_str(), "5m");
    assert_eq!(ContinuousContractKlineCandlestickDataIntervalEnum::from_str("5m"), Ok(ContinuousContractKlineCandlestickDataIntervalEnum::Interval5m));
    assert_eq!(ContinuousContractKlineCandlestickDataIntervalEnum::Interval15m.as_str(), "15m");
    assert_eq!(ContinuousContractKlineCandlestickDataIntervalEnum::from_str("15m"), Ok(ContinuousContractKlineCandlestickDataIntervalEnum::Interval15m));
    assert_eq!(ContinuousContractKlineCandlestickDataIntervalEnum::Interval30m.as_str(), "30m");
    assert_eq!(ContinuousContractKlineCandlestickDataIntervalEnum::from_str("30m"), Ok(ContinuousContractKlineCandlestickDataIntervalEnum::Interval30m));
    assert_eq!(ContinuousContractKlineCandlestickDataIntervalEnum::Interval1h.as_str(), "1h");
    assert_eq!(ContinuousContractKlineCandlestickDataIntervalEnum::from_str("1h"), Ok(ContinuousContractKlineCandlestickDataIntervalEnum::Interval1h));
    assert_eq!(ContinuousContractKlineCandlestickDataIntervalEnum::Interval2h.as_str(), "2h");
    assert_eq!(ContinuousContractKlineCandlestickDataIntervalEnum::from_str("2h"), Ok(ContinuousContractKlineCandlestickDataIntervalEnum::Interval2h));
    assert_eq!(ContinuousContractKlineCandlestickDataIntervalEnum::Interval4h.as_str(), "4h");
    assert_eq!(ContinuousContractKlineCandlestickDataIntervalEnum::from_str("4h"), Ok(ContinuousContractKlineCandlestickDataIntervalEnum::Interval4h));
    assert_eq!(ContinuousContractKlineCandlestickDataIntervalEnum::Interval6h.as_str(), "6h");
    assert_eq!(ContinuousContractKlineCandlestickDataIntervalEnum::from_str("6h"), Ok(ContinuousContractKlineCandlestickDataIntervalEnum::Interval6h));
    assert_eq!(ContinuousContractKlineCandlestickDataIntervalEnum::Interval8h.as_str(), "8h");
    assert_eq!(ContinuousContractKlineCandlestickDataIntervalEnum::from_str("8h"), Ok(ContinuousContractKlineCandlestickDataIntervalEnum::Interval8h));
    assert_eq!(ContinuousContractKlineCandlestickDataIntervalEnum::Interval12h.as_str(), "12h");
    assert_eq!(ContinuousContractKlineCandlestickDataIntervalEnum::from_str("12h"), Ok(ContinuousContractKlineCandlestickDataIntervalEnum::Interval12h));
    assert_eq!(ContinuousContractKlineCandlestickDataIntervalEnum::Interval1d.as_str(), "1d");
    assert_eq!(ContinuousContractKlineCandlestickDataIntervalEnum::from_str("1d"), Ok(ContinuousContractKlineCandlestickDataIntervalEnum::Interval1d));
    assert_eq!(ContinuousContractKlineCandlestickDataIntervalEnum::Interval3d.as_str(), "3d");
    assert_eq!(ContinuousContractKlineCandlestickDataIntervalEnum::from_str("3d"), Ok(ContinuousContractKlineCandlestickDataIntervalEnum::Interval3d));
    assert_eq!(ContinuousContractKlineCandlestickDataIntervalEnum::Interval1w.as_str(), "1w");
    assert_eq!(ContinuousContractKlineCandlestickDataIntervalEnum::from_str("1w"), Ok(ContinuousContractKlineCandlestickDataIntervalEnum::Interval1w));
    assert_eq!(ContinuousContractKlineCandlestickDataIntervalEnum::Interval1M.as_str(), "1M");
    assert_eq!(ContinuousContractKlineCandlestickDataIntervalEnum::from_str("1M"), Ok(ContinuousContractKlineCandlestickDataIntervalEnum::Interval1M));
    assert_eq!(ContinuousContractKlineCandlestickDataIntervalEnum::from_str("1mx"), Err("invalid ContinuousContractKlineCandlestickDataIntervalEnum: 1mx".to_string()));
    assert_eq!(ContinuousContractKlineCandlestickDataIntervalEnum::parse(""), Err("invalid ContinuousContractKlineCandlestickDataIntervalEnum: ".to_string()));
}

#[test]
fn index_price_kline_candlestick_data_interval_enum_wire_names() {
    assert_eq!(IndexPriceKlineCandlestickDataIntervalEnum::Interval1m.as_str(), "1m");
    assert_eq!(IndexPriceKlineCandlestickDataIntervalEnum::from_str("1m"), Ok(IndexPriceKlineCandlestickDataIntervalEnum::Interval1m));
    assert_eq!(IndexPriceKlineCandlestickDataIntervalEnum::Interval3m.as_str(), "3m");
    assert_eq!(IndexPriceKlineCandlestickDataIntervalEnum::from_str("3m"), Ok(IndexPriceKlineCandlestickDataIntervalEnum::Interval3m));
    assert_eq!(IndexPriceKlineCandlestickDataIntervalEnum::Interval5m.as_str(), "5m");
    assert_eq!(IndexPriceKlineCandlestickDataIntervalEnum::from_str("5m"), Ok(IndexPriceKlineCandlestickDataIntervalEnum::Interval5m));
    assert_eq!(IndexPriceKlineCandlestickDataIntervalEnum::Interval15m.as_str(), "15m");
    assert_eq!(IndexPriceKlineCandlestickDataIntervalEnum::from_str("15m"), Ok(IndexPriceKlineCandlestickDataIntervalEnum::Interval15m));
    assert_eq!(IndexPriceKlineCandlestickDataIntervalEnum::Interval30m.as_str(), "30m");
    assert_eq!(IndexPriceKlineCandlestickDataIntervalEnum::from_str("30m"), Ok(IndexPriceKlineCandlestickDataIntervalEnum::Interval30m));
    assert_eq!(IndexPriceKlineCandlestickDataIntervalEnum::Interval1h.as_str(), "1h");
    assert_eq!(IndexPriceKlineCandlestickDataIntervalEnum::from_str("1h"), Ok(IndexPriceKlineCandlestickDataIntervalEnum::Interval1h));
    assert_eq!(IndexPriceKlineCandlestickDataIntervalEnum::Interval2h.as_str(), "2h");
    assert_eq!(IndexPriceKlineCandlestickDataIntervalEnum::from_str("2h"), Ok(IndexPriceKlineCandlestickDataIntervalEnum::Interval2h));
    assert_eq!(IndexPriceKlineCandlestickDataIntervalEnum::Interval4h.as_str(), "4h");
    assert_eq!(IndexPriceKlineCandlestickDataIntervalEnum::from_str("4h"), Ok(IndexPriceKlineCandlestickDataIntervalEnum::Interval4h));
    assert_eq!(IndexPriceKlineCandlestickDataIntervalEnum::Interval6h.as_str(), "6h");
    assert_eq!(IndexPriceKlineCandlestickDataIntervalEnum::from_str("6h"), Ok(IndexPriceKlineCandlestickDataIntervalEnum::Interval6h));
    assert_eq!(IndexPriceKlineCandlestickDataIntervalEnum::Interval8h.as_str(), "8h");
    assert_eq!(IndexPriceKlineCandlestickDataIntervalEnum::from_str("8h"), Ok(IndexPriceKlineCandlestickDataIntervalEnum::Interval8h));
    assert_eq!(IndexPriceKlineCandlestickDataIntervalEnum::Interval12h.as_str(), "12h");
    assert_eq!(IndexPriceKlineCandlestickDataIntervalEnum::from_str("12h"), Ok(IndexPriceKlineCandlestickDataIntervalEnum::Interval12h));
    assert_eq!(IndexPriceKlineCandlestickDataIntervalEnum::Interval1d.as_str(), "1d");
    assert_eq!(IndexPriceKlineCandlestickDataIntervalEnum::from_str("1d"), Ok(IndexPriceKlineCandlestickDataIntervalEnum::Interval1d));
    assert_eq!(IndexPriceKlineCandlestickDataIntervalEnum::Interval3d.as_str(), "3d");
    assert_eq!(IndexPriceKlineCandlestickDataIntervalEnum::from_str("3d"), Ok(IndexPriceKlineCandlestickDataIntervalEnum::Interval3d));
    assert_eq!(IndexPriceKlineCandlestickDataIntervalEnum::Interval1w.as_str(), "1w");
    assert_eq!(IndexPriceKlineCandlestickDataIntervalEnum::from_str("1w"), Ok(IndexPriceKlineCandlestickDataIntervalEnum::Interval1w));
    assert_eq!(IndexPriceKlineCandlestickDataIntervalEnum::Interval1M.as_str(), "1M");
    assert_eq!(IndexPriceKlineCandlestickDataIntervalEnum::from_str("1M"), Ok(IndexPriceKlineCandlestickDataIntervalEnum::Interval1M));
    assert_eq!(IndexPriceKlineCandlestickDataIntervalEnum::from_str("1mx"), Err("invalid IndexPriceKlineCandlestickDataIntervalEnum: 1mx".to_string()));
    assert_eq!(IndexPriceKlineCandlestickDataIntervalEnum::parse(""), Err("invalid IndexPriceKlineCandlestickDataIntervalEnum: ".to_string()));
}

#[test]
fn kline_candlestick_data_interval_enum_wire_names() {
    assert_eq!(KlineCandlestickDataIntervalEnum::Interval1m.as_str(), "1m");
    assert_eq!(KlineCandlestickDataIntervalEnum::from_str("1m"), Ok(KlineCandlestickDataIntervalEnum::Interval1m));
    assert_eq!(KlineCandlestickDataIntervalEnum::Interval3m.as_str(), "3m");
    assert_eq!(KlineCandlestickDataIntervalEnum::from_str("3m"), Ok(KlineCandlestickDataIntervalEnum::Interval3m));
    assert_eq!(KlineCandlestickDataIntervalEnum::Interval5m.as_str(), "5m");
    assert_eq!(KlineCandlestickDataIntervalEnum::from_str("5m"), Ok(KlineCandlestickDataIntervalEnum::Interval5m));
    assert_eq!(KlineCandlestickDataIntervalEnum::Interval15m.as_str(), "15m");
    assert_eq!(KlineCandlestickDataIntervalEnum::from_str("15m"), Ok(KlineCandlestickDataIntervalEnum::Interval15m));
    assert_eq!(KlineCandlestickDataIntervalEnum::Interval30m.as_str(), "30m");
    assert_eq!(KlineCandlestickDataIntervalEnum::from_str("30m"), Ok(KlineCandlestickDataIntervalEnum::Interval30m));
    assert_eq!(KlineCandlestickDataIntervalEnum::Interval1h.as_str(), "1h");
    assert_eq!(KlineCandlestickDataIntervalEnum::from_str("1h"), Ok(KlineCandlestickDataIntervalEnum::Interval1h));
    assert_eq!(KlineCandlestickDataIntervalEnum::Interval2h.as_str(), "2h");
    assert_eq!(KlineCandlestickDataIntervalEnum::from_str("2h"), Ok(KlineCandlestickDataIntervalEnum::Interval2h));
    assert_eq!(KlineCandlestickDataIntervalEnum::Interval4h.as_str(), "4h");
    assert_eq!(KlineCandlestickDataIntervalEnum::from_str("4h"), Ok(KlineCandlestickDataIntervalEnum::Interval4h));
    assert_eq!(KlineCandlestickDataIntervalEnum::Interval6h.as_str(), "6h");
    assert_eq!(KlineCandlestickDataIntervalEnum::from_str("6h"), Ok(KlineCandlestickDataIntervalEnum::Interval6h));
    assert_eq!(KlineCandlestickDataIntervalEnum::Interval8h.as_str(), "8h");
    assert_eq!(KlineCandlestickDataIntervalEnum::from_str("8h"), Ok(KlineCandlestickDataIntervalEnum::Interval8h));
    assert_eq!(KlineCandlestickDataIntervalEnum::Interval12h.as_str(), "12h");
    assert_eq!(KlineCandlestickDataIntervalEnum::from_str("12h"), Ok(KlineCandlestickDataIntervalEnum::Interval12h));
    assert_eq!(KlineCandlestickDataIntervalEnum::Interval1d.as_str(), "1d");
    assert_eq!(KlineCandlestickDataIntervalEnum::from_str("1d"), Ok(KlineCandlestickDataIntervalEnum::Interval1d));
    assert_eq!(KlineCandlestickDataIntervalEnum::Interval3d.as_str(), "3d");
    assert_eq!(KlineCandlestickDataIntervalEnum::from_str("3d"), Ok(KlineCandlestickDataIntervalEnum::Interval3d));
    assert_eq!(KlineCandlestickDataIntervalEnum::Interval1w.as_str(), "1w");
    assert_eq!(KlineCandlestickDataIntervalEnum::from_str("1w"), Ok(KlineCandlestickDataIntervalEnum::Interval1w));
    assert_eq!(KlineCandlestickDataIntervalEnum::Interval1M.as_str(), "1M");
    assert_eq!(KlineCandlestickDataIntervalEnum::from_str("1M"), Ok(KlineCandlestickDataIntervalEnum::Interval1M));
    assert_eq!(KlineCandlestickDataIntervalEnum::from_str("1mx"), Err("invalid KlineCandlestickDataIntervalEnum: 1mx".to_string()));
    assert_eq!(KlineCandlestickDataIntervalEnum::parse(""), Err("invalid KlineCandlestickDataIntervalEnum: ".to_string()));
}

#[test]
fn long_short_ratio_period_enum_wire_names() {
    assert_eq!(LongShortRatioPeriodEnum::Period5m.as_str(), "5m");
    assert_eq!(LongShortRatioPeriodEnum::from_str("5m"), Ok(LongShortRatioPeriodEnum::Period5m));
    assert_eq!(LongShortRatioPeriodEnum::Period15m.as_str(), "15m");
    assert_eq!(LongShortRatioPeriodEnum::from_str("15m"), Ok(LongShortRatioPeriodEnum::Period15m));
    assert_eq!(LongShortRatioPeriodEnum::Period30m.as_str(), "30m");
    assert_eq!(LongShortRatioPeriodEnum::from_str("30m"), Ok(LongShortRatioPeriodEnum::Period30m));
    assert_eq!(LongShortRatioPeriodEnum::Period1h.as_str(), "1h");
    assert_eq!(LongShortRatioPeriodEnum::from_str("1h"), Ok(LongShortRatioPeriodEnum::Period1h));
    assert_eq!(LongShortRatioPeriodEnum::Period2h.as_str(), "2h");
    assert_eq!(LongShortRatioPeriodEnum::from_str("2h"), Ok(LongShortRatioPeriodEnum::Period2h));
    assert_eq!(LongShortRatioPeriodEnum::Period4h.as_str(), "4h");
    assert_eq!(LongShortRatioPeriodEnum::from_str("4h"), Ok(LongShortRatioPeriodEnum::Period4h));
    assert_eq!(LongShortRatioPeriodEnum::Period6h.as_str(), "6h");
    assert_eq!(LongShortRatioPeriodEnum::from_str("6h"), Ok(LongShortRatioPeriodEnum::Period6h));
    assert_eq!(LongShortRatioPeriodEnum::Period12h.as_str(), "12h");
    assert_eq!(LongShortRatioPeriodEnum::from_str("12h"), Ok(LongShortRatioPeriodEnum::Period12h));
    assert_eq!(LongShortRatioPeriodEnum::Period1d.as_str(), "1d");
    assert_eq!(LongShortRatioPeriodEnum::from_str("1d"), Ok(LongShortRatioPeriodEnum::Period1d));
    assert_eq!(LongShortRatioPeriodEnum::from_str("5mx"), Err("invalid LongShortRatioPeriodEnum: 5mx".to_string()));
    assert_eq!(LongShortRatioPeriodEnum::parse(""), Err("invalid LongShortRatioPeriodEnum: ".to_string()));
}

#[test]
fn mark_price_kline_candlestick_data_interval_enum_wire_names() {
    assert_eq!(MarkPriceKlineCandlestickDataIntervalEnum::Interval1m.as_str(), "1m");
    assert_eq!(MarkPriceKlineCandlestickDataIntervalEnum::from_str("1m"), Ok(MarkPriceKlineCandlestickDataIntervalEnum::Interval1m));
    assert_eq!(MarkPriceKlineCandlestickDataIntervalEnum::Interval3m.as_str(), "3m");
    assert_eq!(MarkPriceKlineCandlestickDataIntervalEnum::from_str("3m"), Ok(MarkPriceKlineCandlestickDataIntervalEnum::Interval3m));
    assert_eq!(MarkPriceKlineCandlestickDataIntervalEnum::Interval5m.as_str(), "5m");
    assert_eq!(MarkPriceKlineCandlestickDataIntervalEnum::from_str("5m"), Ok(MarkPriceKlineCandlestickDataIntervalEnum::Interval5m));
    assert_eq!(MarkPriceKlineCandlestickDataIntervalEnum::Interval15m.as_str(), "15m");
    assert_eq!(MarkPriceKlineCandlestickDataIntervalEnum::from_str("15m"), Ok(MarkPriceKlineCandlestickDataIntervalEnum::Interval15m));
    assert_eq!(MarkPriceKlineCandlestickDataIntervalEnum::Interval30m.as_str(), "30m");
    assert_eq!(MarkPriceKlineCandlestickDataIntervalEnum::from_str("30m"), Ok(MarkPriceKlineCandlestickDataIntervalEnum::Interval30m));
    assert_eq!(MarkPriceKlineCandlestickDataIntervalEnum::Interval1h.as_str(), "1h");
    assert_eq!(MarkPriceKlineCandlestickDataIntervalEnum::from_str("1h"), Ok(MarkPriceKlineCandlestickDataIntervalEnum::Interval1h));
    assert_eq!(MarkPriceKlineCandlestickDataIntervalEnum::Interval2h.as_str(), "2h");
    assert_eq!(MarkPriceKlineCandlestickDataIntervalEnum::from_str("2h"), Ok(MarkPriceKlineCandlestickDataIntervalEnum::Interval2h));
    assert_eq!(MarkPriceKlineCandlestickDataIntervalEnum::Interval4h.as_str(), "4h");
    assert_eq!(MarkPriceKlineCandlestickDataIntervalEnum::from_str("4h"), Ok(MarkPriceKlineCandlestickDataIntervalEnum::Interval4h));
    assert_eq!(MarkPriceKlineCandlestickDataIntervalEnum::Interval6h.as_str(), "6h");
    assert_eq!(MarkPriceKlineCandlestickDataIntervalEnum::from_str("6h"), Ok(MarkPriceKlineCandlestickDataIntervalEnum::Interval6h));
    assert_eq!(MarkPriceKlineCandlestickDataIntervalEnum::Interval8h.as_str(), "8h");
    assert_eq!(MarkPriceKlineCandlestickDataIntervalEnum::from_str("8h"), Ok(MarkPriceKlineCandlestickDataIntervalEnum::Interval8h));
    assert_eq!(MarkPriceKlineCandlestickDataIntervalEnum::Interval12h.as_str(), "12h");
    assert_eq!(MarkPriceKlineCandlestickDataIntervalEnum::from_str("12h"), Ok(MarkPriceKlineCandlestickDataIntervalEnum::Interval12h));
    assert_eq!(MarkPriceKlineCandlestickDataIntervalEnum::Interval1d.as_str(), "1d");
    assert_eq!(MarkPriceKlineCandlestickDataIntervalEnum::from_str("1d"), Ok(MarkPriceKlineCandlestickDataIntervalEnum::Interval1d));
    assert_eq!(MarkPriceKlineCandlestickDataIntervalEnum::Interval3d.as_str(), "3d");
    assert_eq!(MarkPriceKlineCandlestickDataIntervalEnum::from_str("3d"), Ok(MarkPriceKlineCandlestickDataIntervalEnum::Interval3d));
    assert_eq!(MarkPriceKlineCandlestickDataIntervalEnum::Interval1w.as_str(), "1w");
    assert_eq!(MarkPriceKlineCandlestickDataIntervalEnum::from_str("1w"), Ok(MarkPriceKlineCandlestickDataIntervalEnum::Interval1w));
    assert_eq!(MarkPriceKlineCandlestickDataIntervalEnum::Interval1M.as_str(), "1M");
    assert_eq!(MarkPriceKlineCandlestickDataIntervalEnum::from_str("1M"), Ok(MarkPriceKlineCandlestickDataIntervalEnum::Interval1M));
    assert_eq!(MarkPriceKlineCandlestickDataIntervalEnum::from_str("1mx"), Err("invalid MarkPriceKlineCandlestickDataIntervalEnum: 1mx".to_string()));
    assert_eq!(MarkPriceKlineCandlestickDataIntervalEnum::parse(""), Err("invalid MarkPriceKlineCandlestickDataIntervalEnum: ".to_string()));
}

#[test]
fn open_interest_statistics_period_enum_wire_names() {
    assert_eq!(OpenInterestStatisticsPeriodEnum::Period5m.as_str(), "5m");
    assert_eq!(OpenInterestStatisticsPeriodEnum::from_str("5m"), Ok(OpenInterestStatisticsPeriodEnum::Period5m));
    assert_eq!(OpenInterestStatisticsPeriodEnum::Period15m.as_str(), "15m");
    assert_eq!(OpenInterestStatisticsPeriodEnum::from_str("15m"), Ok(OpenInterestStatisticsPeriodEnum::Period15m));
    assert_eq!(OpenInterestStatisticsPeriodEnum::Period30m.as_str(), "30m");
    assert_eq!(OpenInterestStatisticsPeriodEnum::from_str("30m"), Ok(OpenInterestStatisticsPeriodEnum::Period30m));
    assert_eq!(OpenInterestStatisticsPeriodEnum::Period1h.as_str(), "1h");
    assert_eq!(OpenInterestStatisticsPeriodEnum::from_str("1h"), Ok(OpenInterestStatisticsPeriodEnum::Period1h));
    assert_eq!(OpenInterestStatisticsPeriodEnum::Period2h.as_str(), "2h");
    assert_eq!(OpenInterestStatisticsPeriodEnum::from_str("2h"), Ok(OpenInterestStatisticsPeriodEnum::Period2h));
    assert_eq!(OpenInterestStatisticsPeriodEnum::Period4h.as_str(), "4h");
    assert_eq!(OpenInterestStatisticsPeriodEnum::from_str("4h"), Ok(OpenInterestStatisticsPeriodEnum::Period4h));
    assert_eq!(OpenInterestStatisticsPeriodEnum::Period6h.as_str(), "6h");
    assert_eq!(OpenInterestStatisticsPeriodEnum::from_str("6h"), Ok(OpenInterestStatisticsPeriodEnum::Period6h));
    assert_eq!(OpenInterestStatisticsPeriodEnum::Period12h.as_str(), "12h");
    assert_eq!(OpenInterestStatisticsPeriodEnum::from_str("12h"), Ok(OpenInterestStatisticsPeriodEnum::Period12h));
    assert_eq!(OpenInterestStatisticsPeriodEnum::Period1d.as_str(), "1d");
    assert_eq!(OpenInterestStatisticsPeriodEnum::from_str("1d"), Ok(OpenInterestStatisticsPeriodEnum::Period1d));
    assert_eq!(OpenInterestStatisticsPeriodEnum::from_str("5mx"), Err("invalid OpenInterestStatisticsPeriodEnum: 5mx".to_string()));
    assert_eq!(OpenInterestStatisticsPeriodEnum::parse(""), Err("invalid OpenInterestStatisticsPeriodEnum: ".to_string()));
}

#[test]
fn premium_index_kline_data_interval_enum_wire_names() {
    assert_eq!(PremiumIndexKlineDataIntervalEnum::Interval1m.as_str(), "1m");
    assert_eq!(PremiumIndexKlineDataIntervalEnum::from_str("1m"), Ok(PremiumIndexKlineDataIntervalEnum::Interval1m));
    assert_eq!(PremiumIndexKlineDataIntervalEnum::Interval3m.as_str(), "3m");
    assert_eq!(PremiumIndexKlineDataIntervalEnum::from_str("3m"), Ok(PremiumIndexKlineDataIntervalEnum::Interval3m));
    assert_eq!(PremiumIndexKlineDataIntervalEnum::Interval5m.as_str(), "5m");
    assert_eq!(PremiumIndexKlineDataIntervalEnum::from_str("5m"), Ok(PremiumIndexKlineDataIntervalEnum::Interval5m));
    assert_eq!(PremiumIndexKlineDataIntervalEnum::Interval15m.as_str(), "15m");
    assert_eq!(PremiumIndexKlineDataIntervalEnum::from_str("15m"), Ok(PremiumIndexKlineDataIntervalEnum::Interval15m));
    assert_eq!(PremiumIndexKlineDataIntervalEnum::Interval30m.as_str(), "30m");
    assert_eq!(PremiumIndexKlineDataIntervalEnum::from_str("30m"), Ok(PremiumIndexKlineDataIntervalEnum::Interval30m));
    assert_eq!(PremiumIndexKlineDataIntervalEnum::Interval1h.as_str(), "1h");
    assert_eq!(PremiumIndexKlineDataIntervalEnum::from_str("1h"), Ok(PremiumIndexKlineDataIntervalEnum::Interval1h));
    assert_eq!(PremiumIndexKlineDataIntervalEnum::Interval2h.as_str(), "2h");
    assert_eq!(PremiumIndexKlineDataIntervalEnum::from_str("2h"), Ok(PremiumIndexKlineDataIntervalEnum::Interval2h));
    assert_eq!(PremiumIndexKlineDataIntervalEnum::Interval4h.as_str(), "4h");
    assert_eq!(PremiumIndexKlineDataIntervalEnum::from_str("4h"), Ok(PremiumIndexKlineDataIntervalEnum::Interval4h));
    assert_eq!(PremiumIndexKlineDataIntervalEnum::Interval6h.as_str(), "6h");
    assert_eq!(PremiumIndexKlineDataIntervalEnum::from_str("6h"), Ok(PremiumIndexKlineDataIntervalEnum::Interval6h));
    assert_eq!(PremiumIndexKlineDataIntervalEnum::Interval8h.as_str(), "8h");
    assert_eq!(PremiumIndexKlineDataIntervalEnum::from_str("8h"), Ok(PremiumIndexKlineDataIntervalEnum::Interval8h));
    assert_eq!(PremiumIndexKlineDataIntervalEnum::Interval12h.as_str(), "12h");
    assert_eq!(PremiumIndexKlineDataIntervalEnum::from_str("12h"), Ok(PremiumIndexKlineDataIntervalEnum::Interval12h));
    assert_eq!(PremiumIndexKlineDataIntervalEnum::Interval1d.as_str(), "1d");
    assert_eq!(PremiumIndexKlineDataIntervalEnum::from_str("1d"), Ok(PremiumIndexKlineDataIntervalEnum::Interval1d));
    assert_eq!(PremiumIndexKlineDataIntervalEnum::Interval3d.as_str(), "3d");
    assert_eq!(PremiumIndexKlineDataIntervalEnum::from_str("3d"), Ok(PremiumIndexKlineDataIntervalEnum::Interval3d));
    assert_eq!(PremiumIndexKlineDataIntervalEnum::Interval1w.as_str(), "1w");
    assert_eq!(PremiumIndexKlineDataIntervalEnum::from_str("1w"), Ok(PremiumIndexKlineDataIntervalEnum::Interval1w));
    assert_eq!(PremiumIndexKlineDataIntervalEnum::Interval1M.as_str(), "1M");
    assert_eq!(PremiumIndexKlineDataIntervalEnum::from_str("1M"), Ok(PremiumIndexKlineDataIntervalEnum::Interval1M));
    assert_eq!(PremiumIndexKlineDataIntervalEnum::from_str("1mx"), Err("invalid PremiumIndexKlineDataIntervalEnum: 1mx".to_string()));
    assert_eq!(PremiumIndexKlineDataIntervalEnum::parse(""), Err("invalid PremiumIndexKlineDataIntervalEnum: ".to_string()));
}

#[test]
fn taker_buy_sell_volume_period_enum_wire_names() {
    assert_eq!(TakerBuySellVolumePeriodEnum::Period5m.as_str(), "5m");
    assert_eq!(TakerBuySellVolumePeriodEnum::from_str("5m"), Ok(TakerBuySellVolumePeriodEnum::Period5m));
    assert_eq!(TakerBuySellVolumePeriodEnum::Period15m.as_str(), "15m");
    assert_eq!(TakerBuySellVolumePeriodEnum::from_str("15m"), Ok(TakerBuySellVolumePeriodEnum::Period15m));
    assert_eq!(TakerBuySellVolumePeriodEnum::Period30m.as_str(), "30m");
    assert_eq!(TakerBuySellVolumePeriodEnum::from_str("30m"), Ok(TakerBuySellVolumePeriodEnum::Period30m));
    assert_eq!(TakerBuySellVolumePeriodEnum::Period1h.as_str(), "1h");
    assert_eq!(TakerBuySellVolumePeriodEnum::from_str("1h"), Ok(TakerBuySellVolumePeriodEnum::Period1h));
    assert_eq!(TakerBuySellVolumePeriodEnum::Period2h.as_str(), "2h");
    assert_eq!(TakerBuySellVolumePeriodEnum::from_str("2h"), Ok(TakerBuySellVolumePeriodEnum::Period2h));
    assert_eq!(TakerBuySellVolumePeriodEnum::Period4h.as_str(), "4h");
    assert_eq!(TakerBuySellVolumePeriodEnum::from_str("4h"), Ok(TakerBuySellVolumePeriodEnum::Period4h));
    assert_eq!(TakerBuySellVolumePeriodEnum::Period6h.as_str(), "6h");
    assert_eq!(TakerBuySellVolumePeriodEnum::from_str("6h"), Ok(TakerBuySellVolumePeriodEnum::Period6h));
    assert_eq!(TakerBuySellVolumePeriodEnum::Period12h.as_str(), "12h");
    assert_eq!(TakerBuySellVolumePeriodEnum::from_str("12h"), Ok(TakerBuySellVolumePeriodEnum::Period12h));
    assert_eq!(TakerBuySellVolumePeriodEnum::Period1d.as_str(), "1d");
    assert_eq!(TakerBuySellVolumePeriodEnum::from_str("1d"), Ok(TakerBuySellVolumePeriodEnum::Period1d));
    assert_eq!(TakerBuySellVolumePeriodEnum::from_str("5mx"), Err("invalid TakerBuySellVolumePeriodEnum: 5mx".to_string()));
    assert_eq!(TakerBuySellVolumePeriodEnum::parse(""), Err("invalid TakerBuySellVolumePeriodEnum: ".to_string()));
}

#[test]
fn top_trader_long_short_ratio_accounts_period_enum_wire_names() {
    assert_eq!(TopTraderLongShortRatioAccountsPeriodEnum::Period5m.as_str(), "5m");
    assert_eq!(TopTraderLongShortRatioAccountsPeriodEnum::from_str("5m"), Ok(TopTraderLongShortRatioAccountsPeriodEnum::Period5m));
    assert_eq!(TopTraderLongShortRatioAccountsPeriodEnum::Period15m.as_str(), "15m");
    assert_eq!(TopTraderLongShortRatioAccountsPeriodEnum::from_str("15m"), Ok(TopTraderLongShortRatioAccountsPeriodEnum::Period15m));
    assert_eq!(TopTraderLongShortRatioAccountsPeriodEnum::Period30m.as_str(), "30m");
    assert_eq!(TopTraderLongShortRatioAccountsPeriodEnum::from_str("30m"), Ok(TopTraderLongShortRatioAccountsPeriodEnum::Period30m));
    assert_eq!(TopTraderLongShortRatioAccountsPeriodEnum::Period1h.as_str(), "1h");
    assert_eq!(TopTraderLongShortRatioAccountsPeriodEnum::from_str("1h"), Ok(TopTraderLongShortRatioAccountsPeriodEnum::Period1h));
    assert_eq!(TopTraderLongShortRatioAccountsPeriodEnum::Period2h.as_str(), "2h");
    assert_eq!(TopTraderLongShortRatioAccountsPeriodEnum::from_str("2h"), Ok(TopTraderLongShortRatioAccountsPeriodEnum::Period2h));
    assert_eq!(TopTraderLongShortRatioAccountsPeriodEnum::Period4h.as_str(), "4h");
    assert_eq!(TopTraderLongShortRatioAccountsPeriodEnum::from_str("4h"), Ok(TopTraderLongShortRatioAccountsPeriodEnum::Period4h));
    assert_eq!(TopTraderLongShortRatioAccountsPeriodEnum::Period6h.as_str(), "6h");
    assert_eq!(TopTraderLongShortRatioAccountsPeriodEnum::from_str("6h"), Ok(TopTraderLongShortRatioAccountsPeriodEnum::Period6h));
    assert_eq!(TopTraderLongShortRatioAccountsPeriodEnum::Period12h.as_str(), "12h");
    assert_eq!(TopTraderLongShortRatioAccountsPeriodEnum::from_str("12h"), Ok(TopTraderLongShortRatioAccountsPeriodEnum::Period12h));
    assert_eq!(TopTraderLongShortRatioAccountsPeriodEnum::Period1d.as_str(), "1d");
    assert_eq!(TopTraderLongShortRatioAccountsPeriodEnum::from_str("1d"), Ok(TopTraderLongShortRatioAccountsPeriodEnum::Period1d));
    assert_eq!(TopTraderLongShortRatioAccountsPeriodEnum::from_str("5mx"), Err("invalid TopTraderLongShortRatioAccountsPeriodEnum: 5mx".to_string()));
    assert_eq!(TopTraderLongShortRatioAccountsPeriodEnum::parse(""), Err("invalid TopTraderLongShortRatioAccountsPeriodEnum: ".to_string()));
}

#[test]
fn top_trader_long_short_ratio_positions_period_enum_wire_names() {
    assert_eq!(TopTraderLongShortRatioPositionsPeriodEnum::Period5m.as_str(), "5m");
    assert_eq!(TopTraderLongShortRatioPositionsPeriodEnum::from_str("5m"), Ok(TopTraderLongShortRatioPositionsPeriodEnum::Period5m));
    assert_eq!(TopTraderLongShortRatioPositionsPeriodEnum::Period15m.as_str(), "15m");
    assert_eq!(TopTraderLongShortRatioPositionsPeriodEnum::from_str("15m"), Ok(TopTraderLongShortRatioPositionsPeriodEnum::Period15m));
    assert_eq!(TopTraderLongShortRatioPositionsPeriodEnum::Period30m.as_str(), "30m");
    assert_eq!(TopTraderLongShortRatioPositionsPeriodEnum::from_str("30m"), Ok(TopTraderLongShortRatioPositionsPeriodEnum::Period30m));
    assert_eq!(TopTraderLongShortRatioPositionsPeriodEnum::Period1h.as_str(), "1h");
    assert_eq!(TopTraderLongShortRatioPositionsPeriodEnum::from_str("1h"), Ok(TopTraderLongShortRatioPositionsPeriodEnum::Period1h));
    assert_eq!(TopTraderLongShortRatioPositionsPeriodEnum::Period2h.as_str(), "2h");
    assert_eq!(TopTraderLongShortRatioPositionsPeriodEnum::from_str("2h"), Ok(TopTraderLongShortRatioPositionsPeriodEnum::Period2h));
    assert_eq!(TopTraderLongShortRatioPositionsPeriodEnum::Period4h.as_str(), "4h");
    assert_eq!(TopTraderLongShortRatioPositionsPeriodEnum::from_str("4h"), Ok(TopTraderLongShortRatioPositionsPeriodEnum::Period4h));
    assert_eq!(TopTraderLongShortRatioPositionsPeriodEnum::Period6h.as_str(), "6h");
    assert_eq!(TopTraderLongShortRatioPositionsPeriodEnum::from_str("6h"), Ok(TopTraderLongShortRatioPositionsPeriodEnum::Period6h));
    assert_eq!(TopTraderLongShortRatioPositionsPeriodEnum::Period12h.as_str(), "12h");
    assert_eq!(TopTraderLongShortRatioPositionsPeriodEnum::from_str("12h"), Ok(TopTraderLongShortRatioPositionsPeriodEnum::Period12h));
    assert_eq!(TopTraderLongShortRatioPositionsPeriodEnum::Period1d.as_str(), "1d");
    assert_eq!(TopTraderLongShortRatioPositionsPeriodEnum::from_str("1d"), Ok(TopTraderLongShortRatioPositionsPeriodEnum::Period1d));
    assert_eq!(TopTraderLongShortRatioPositionsPeriodEnum::from_str("5mx"), Err("invalid TopTraderLongShortRatioPositionsPeriodEnum: 5mx".to_string()));
    assert_eq!(TopTraderLongShortRatioPositionsPeriodEnum::parse(""), Err("invalid TopTraderLongShortRatioPositionsPeriodEnum: ".to_string()));
}

#[test]
fn basis_sends_every_given_parameter() {
    let params = BasisParams {
        pair: "pair-0".to_string(),
        contract_type: BasisContractTypeEnum::PerpetualDelivering,
        period: BasisPeriodEnum::Period1d,
        limit: 1003,
        start_time: Some(1004),
        end_time: Some(1005),
    };
    let req = basis(params);
    assert_eq!(req.path, "/futures/data/basis");
    assert_eq!(req.method, HttpMethod::Get);
    assert_eq!(req.signed, false);
    assert!(!req.uses_time_unit);
    match req.query.get("pair") {
        Some(QueryValue::Text(s)) => assert_eq!(s, "pair-0"),
        _ => panic!("pair is not sent as expected"),
    }
    match req.query.get("contractType") {
        Some(QueryValue::Text(s)) => assert_eq!(s, "PERPETUAL_DELIVERING"),
        _ => panic!("contractType is not sent as expected"),
    }
    match req.query.get("period") {
        Some(QueryValue::Text(s)) => assert_eq!(s, "1d"),
        _ => panic!("period is not sent as expected"),
    }
    match req.query.get("limit") {
        Some(QueryValue::Integer(n)) => assert_eq!(*n, 1003),
        _ => panic!("limit is not sent as expected"),
    }
    match req.query.get("startTime") {
        Some(QueryValue::Integer(n)) => assert_eq!(*n, 1004),
        _ => panic!("startTime is not sent as expected"),
    }
    match req.query.get("endTime") {
        Some(QueryValue::Integer(n)) => assert_eq!(*n, 1005),
        _ => panic!("endTime is not sent as expected"),
    }
    assert_eq!(req.query.into_entries().len(), 6);
}

#[test]
fn basis_leaves_out_absent_parameters() {
    let params = BasisParams {
        pair: "pair-0".to_string(),
        contract_type: BasisContractTypeEnum::PerpetualDelivering,
        period: BasisPeriodEnum::Period1d,
        limit: 1003,
        start_time: None,
        end_time: None,
    };
    let req = basis(params);
    match req.query.get("pair") {
        Some(QueryValue::Text(s)) => assert_eq!(s, "pair-0"),
        _ => panic!("pair is not sent as expected"),
    }
    match req.query.get("contractType") {
        Some(QueryValue::Text(s)) => assert_eq!(s, "PERPETUAL_DELIVERING"),
        _ => panic!("contractType is not sent as expected"),
    }
    match req.query.get("period") {
        Some(QueryValue::Text(s)) => assert_eq!(s, "1d"),
        _ => panic!("period is not sent as expected"),
    }
    match req.query.get("limit") {
        Some(QueryValue::Integer(n)) => assert_eq!(*n, 1003),
        _ => panic!("limit is not sent as expected"),
    }
    assert!(req.query.get("startTime").is_none());
    assert!(req.query.get("endTime").is_none());
    assert_eq!(req.query.into_entries().len(), 4);
}

#[test]
fn check_server_time_request() {
    let req = check_server_time();
    assert_eq!(req.path, "/fapi/v1/time");
    assert_eq!(req.method, HttpMethod::Get);
    assert_eq!(req.signed, false);
    assert!(!req.uses_time_unit);
    assert!(req.query.into_entries().is_empty());
}

#[test]
fn composite_index_symbol_information_sends_every_given_parameter() {
    let params = CompositeIndexSymbolInformationParams {
        symbol: Some("symbol-0".to_string()),
    };
    let req = composite_index_symbol_information(params);
    assert_eq!(req.path, "/fapi/v1/indexInfo");
    assert_eq!(req.method, HttpMethod::Get);
    assert_eq!(req.signed, false);
    assert!(!req.uses_time_unit);
    match req.query.get("symbol") {
        Some(QueryValue::Text(s)) => assert_eq!(s, "symbol-0"),
        _ => panic!("symbol is not sent as expected"),
    }
    assert_eq!(req.query.into_entries().len(), 1);
}

#[test]
fn composite_index_symbol_information_leaves_out_absent_parameters() {
    let params = CompositeIndexSymbolInformationParams {
        symbol: None,
    };
    let req = composite_index_symbol_information(params);
    assert!(req.query.get("symbol").is_none());
    assert_eq!(req.query.into_entries().len(), 0);
}

#[test]
fn compressed_aggregate_trades_list_sends_every_given_parameter() {
    let params = CompressedAggregateTradesListParams {
        symbol: "symbol-0".to_string(),
        from_id: Some(1001),
        start_time: Some(1002),
        end_time: Some(1003),
        limit: Some(1004),
    };
    let req = compressed_aggregate_trades_list(params);
    assert_eq!(req.path, "/fapi/v1/aggTrades");
    assert_eq!(req.method, HttpMethod::Get);
    assert_eq!(req.signed, false);
    assert!(!req.uses_time_unit);
    match req.query.get("symbol") {
        Some(QueryValue::Text(s)) => assert_eq!(s, "symbol-0"),
        _ => panic!("symbol is not sent as expected"),
    }
    match req.query.get("fromId") {
        Some(QueryValue::Integer(n)) => assert_eq!(*n, 1001),
        _ => panic!("fromId is not sent as expected"),
    }
    match req.query.get("startTime") {
        Some(QueryValue::Integer(n)) => assert_eq!(*n, 1002),
        _ => panic!("startTime is not sent as expected"),
    }
    match req.query.get("endTime") {
        Some(QueryValue::Integer(n)) => assert_eq!(*n, 1003),
        _ => panic!("endTime is not sent as expected"),
    }
    match req.query.get("limit") {
        Some(QueryValue::Integer(n)) => assert_eq!(*n, 1004),
        _ => panic!("limit is not sent as expected"),
    }
    assert_eq!(req.query.into_entries().len(), 5);
}

#[test]
fn compressed_aggregate_trades_list_leaves_out_absent_parameters() {
    let params = CompressedAggregateTradesListParams {
        symbol: "symbol-0".to_string(),
        from_id: None,
        start_time: None,
        end_time: None,
        limit: None,
    };
    let req = compressed_aggregate_trades_list(params);
    match req.query.get("symbol") {
        Some(QueryValue::Text(s)) => assert_eq!(s, "symbol-0"),
        _ => panic!("symbol is not sent as expected"),
    }
    assert!(req.query.get("fromId").is_none());
    assert!(req.query.get("startTime").is_none());
    assert!(req.query.get("endTime").is_none());
    assert!(req.query.get("limit").is_none());
    assert_eq!(req.query.into_entries().len(), 1);
}

#[test]
fn continuous_contract_kline_candlestick_data_sends_every_given_parameter() {
    let params = ContinuousContractKlineCandlestickDataParams {
        pair: "pair-0".to_string(),
        contract_type: ContinuousContractKlineCandlestickDataContractTypeEnum::PerpetualDelivering,
        interval: ContinuousContractKlineCandlestickDataIntervalEnum::Interval1M,
        start_time: Some(1003),
        end_time: Some(1004),
        limit: Some(1005),
    };
    let req = continuous_contract_kline_candlestick_data(params);
    assert_eq!(req.path, "/fapi/v1/continuousKlines");
    assert_eq!(req.method, HttpMethod::Get);
    assert_eq!(req.signed, false);
    assert!(!req.uses_time_unit);
    match req.query.get("pair") {
        Some(QueryValue::Text(s)) => assert_eq!(s, "pair-0"),
        _ => panic!("pair is not sent as expected"),
    }
    match req.query.get("contractType") {
        Some(QueryValue::Text(s)) => assert_eq!(s, "PERPETUAL_DELIVERING"),
        _ => panic!("contractType is not sent as expected"),
    }
    match req.query.get("interval") {
        Some(QueryValue::Text(s)) => assert_eq!(s, "1M"),
        _ => panic!("interval is not sent as expected"),
    }
    match req.query.get("startTime") {
        Some(QueryValue::Integer(n)) => assert_eq!(*n, 1003),
        _ => panic!("startTime is not sent as expected"),
    }
    match req.query.get("endTime") {
        Some(QueryValue::Integer(n)) => assert_eq!(*n, 1004),
        _ => panic!("endTime is not sent as expected"),
    }
    match req.query.get("limit") {
        Some(QueryValue::Integer(n)) => assert_eq!(*n, 1005),
        _ => panic!("limit is not sent as expected"),
    }
    assert_eq!(req.query.into_entries().len(), 6);
}

#[test]
fn continuous_contract_kline_candlestick_data_leaves_out_absent_parameters() {
    let params = ContinuousContractKlineCandlestickDataParams {
        pair: "pair-0".to_string(),
        contract_type: ContinuousContractKlineCandlestickDataContractTypeEnum::PerpetualDelivering,
        interval: ContinuousContractKlineCandlestickDataIntervalEnum::Interval1M,
        start_time: None,
        end_time: None,
        limit: None,
    };
    let req = continuous_contract_kline_candlestick_data(params);
    match req.query.get("pair") {
        Some(QueryValue::Text(s)) => assert_eq!(s, "pair-0"),
        _ => panic!("pair is not sent as expected"),
    }
    match req.query.get("contractType") {
        Some(QueryValue::Text(s)) => assert_eq!(s, "PERPETUAL_DELIVERING"),
        _ => panic!("contractType is not sent as expected"),
    }
    match req.query.get("interval") {
        Some(QueryValue::Text(s)) => assert_eq!(s, "1M"),
        _ => panic!("interval is not sent as expected"),
    }
    assert!(req.query.get("startTime").is_none());
    assert!(req.query.get("endTime").is_none());
    assert!(req.query.get("limit").is_none());
    assert_eq!(req.query.into_entries().len(), 3);
}

#[test]
fn exchange_information_request() {
    let req = exchange_information();
    assert_eq!(req.path, "/fapi/v1/exchangeInfo");
    assert_eq!(req.method, HttpMethod::Get);
    assert_eq!(req.signed, false);
    assert!(!req.uses_time_unit);
    assert!(req.query.into_entries().is_empty());
}

#[test]
fn get_funding_rate_history_sends_every_given_parameter() {
    let params = GetFundingRateHistoryParams {
        symbol: Some("symbol-0".to_string()),
        start_time: Some(1001),
        end_time: Some(1002),
        limit: Some(1003),
    };
    let req = get_funding_rate_history(params);
    assert_eq!(req.path, "/fapi/v1/fundingRate");
    assert_eq!(req.method, HttpMethod::Get);
    assert_eq!(req.signed, false);
    assert!(!req.uses_time_unit);
    match req.query.get("symbol") {
        Some(QueryValue::Text(s)) => assert_eq!(s, "symbol-0"),
        _ => panic!("symbol is not sent as expected"),
    }
    match req.query.get("startTime") {
        Some(QueryValue::Integer(n)) => assert_eq!(*n, 1001),
        _ => panic!("startTime is not sent as expected"),
    }
    match req.query.get("endTime") {
        Some(QueryValue::Integer(n)) => assert_eq!(*n, 1002),
        _ => panic!("endTime is not sent as expected"),
    }
    match req.query.get("limit") {
        Some(QueryValue::Integer(n)) => assert_eq!(*n, 1003),
        _ => panic!("limit is not sent as expected"),
    }
    assert_eq!(req.query.into_entries().len(), 4);
}

#[test]
fn get_funding_rate_history_leaves_out_absent_parameters() {
    let params = GetFundingRateHistoryParams {
        symbol: None,
        start_time: None,
        end_time: None,
        limit: None,
    };
    let req = get_funding_rate_history(params);
    assert!(req.query.get("symbol").is_none());
    assert!(req.query.get("startTime").is_none());
    assert!(req.query.get("endTime").is_none());
    assert!(req.query.get("limit").is_none());
    assert_eq!(req.query.into_entries().len(), 0);
}

#[test]
fn get_funding_rate_info_request() {
    let req = get_funding_rate_info();
    assert_eq!(req.path, "/fapi/v1/fundingInfo");
    assert_eq!(req.method, HttpMethod::Get);
    assert_eq!(req.signed, false);
    assert!(!req.uses_time_unit);
    assert!(req.query.into_entries().is_empty());
}

#[test]
fn index_price_kline_candlestick_data_sends_every_given_parameter() {
    let params = IndexPriceKlineCandlestickDataParams {
        pair: "pair-0".to_string(),
        interval: IndexPriceKlineCandlestickDataIntervalEnum::Interval1M,
        start_time: Some(1002),
        end_time: Some(1003),
        limit: Some(1004),
    };
    let req = index_price_kline_candlestick_data(params);
    assert_eq!(req.path, "/fapi/v1/indexPriceKlines");
    assert_eq!(req.method, HttpMethod::Get);
    assert_eq!(req.signed, false);
    assert!(!req.uses_time_unit);
    match req.query.get("pair") {
        Some(QueryValue::Text(s)) => assert_eq!(s, "pair-0"),
        _ => panic!("pair is not sent as expected"),
    }
    match req.query.get("interval") {
        Some(QueryValue::Text(s)) => assert_eq!(s, "1M"),
        _ => panic!("interval is not sent as expected"),
    }
    match req.query.get("startTime") {
        Some(QueryValue::Integer(n)) => assert_eq!(*n, 1002),
        _ => panic!("startTime is not sent as expected"),
    }
    match req.query.get("endTime") {
        Some(QueryValue::Integer(n)) => assert_eq!(*n, 1003),
        _ => panic!("endTime is not sent as expected"),
    }
    match req.query.get("limit") {
        Some(QueryValue::Integer(n)) => assert_eq!(*n, 1004),
        _ => panic!("limit is not sent as expected"),
    }
    assert_eq!(req.query.into_entries().len(), 5);
}

#[test]
fn index_price_kline_candlestick_data_leaves_out_absent_parameters() {
    let params = IndexPriceKlineCandlestickDataParams {
        pair: "pair-0".to_string(),
        interval: IndexPriceKlineCandlestickDataIntervalEnum::Interval1M,
        start_time: None,
        end_time: None,
        limit: None,
    };
    let req = index_price_kline_candlestick_data(params);
    match req.query.get("pair") {
        Some(QueryValue::Text(s)) => assert_eq!(s, "pair-0"),
        _ => panic!("pair is not sent as expected"),
    }
    match req.query.get("interval") {
        Some(QueryValue::Text(s)) => assert_eq!(s, "1M"),
        _ => panic!("interval is not sent as expected"),
    }
    assert!(req.query.get("startTime").is_none());
    assert!(req.query.get("endTime").is_none());
    assert!(req.query.get("limit").is_none());
    assert_eq!(req.query.into_entries().len(), 2);
}

#[test]
fn kline_candlestick_data_sends_every_given_parameter() {
    let params = KlineCandlestickDataParams {
        symbol: "symbol-0".to_string(),
        interval: KlineCandlestickDataIntervalEnum::Interval1M,
        start_time: Some(1002),
        end_time: Some(1003),
        limit: Some(1004),
    };
    let req = kline_candlestick_data(params);
    assert_eq!(req.path, "/fapi/v1/klines");
    assert_eq!(req.method, HttpMethod::Get);
    assert_eq!(req.signed, false);
    assert!(!req.uses_time_unit);
    match req.query.get("symbol") {
        Some(QueryValue::Text(s)) => assert_eq!(s, "symbol-0"),
        _ => panic!("symbol is not sent as expected"),
    }
    match req.query.get("interval") {
        Some(QueryValue::Text(s)) => assert_eq!(s, "1M"),
        _ => panic!("interval is not sent as expected"),
    }
    match req.query.get("startTime") {
        Some(QueryValue::Integer(n)) => assert_eq!(*n, 1002),
        _ => panic!("startTime is not sent as expected"),
    }
    match req.query.get("endTime") {
        Some(QueryValue::Integer(n)) => assert_eq!(*n, 1003),
        _ => panic!("endTime is not sent as expected"),
    }
    match req.query.get("limit") {
        Some(QueryValue::Integer(n)) => assert_eq!(*n, 1004),
        _ => panic!("limit is not sent as expected"),
    }
    assert_eq!(req.query.into_entries().len(), 5);
}

#[test]
fn kline_candlestick_data_leaves_out_absent_parameters() {
    let params = KlineCandlestickDataParams {
        symbol: "symbol-0".to_string(),
        interval: KlineCandlestickDataIntervalEnum::Interval1M,
        start_time: None,
        end_time: None,
        limit: None,
    };
    let req = kline_candlestick_data(params);
    match req.query.get("symbol") {
        Some(QueryValue::Text(s)) => assert_eq!(s, "symbol-0"),
        _ => panic!("symbol is not sent as expected"),
    }
    match req.query.get("interval") {
        Some(QueryValue::Text(s)) => assert_eq!(s, "1M"),
        _ => panic!("interval is not sent as expected"),
    }
    assert!(req.query.get("startTime").is_none());
    assert!(req.query.get("endTime").is_none());
    assert!(req.query.get("limit").is_none());
    assert_eq!(req.query.into_entries().len(), 2);
}

#[test]
fn long_short_ratio_sends_every_given_parameter() {
    let params = LongShortRatioParams {
        symbol: "symbol-0".to_string(),
        period: LongShortRatioPeriodEnum::Period1d,
        limit: Some(1002),
        start_time: Some(1003),
        end_time: Some(1004),
    };
    let req = long_short_ratio(params);
    assert_eq!(req.path, "/futures/data/globalLongShortAccountRatio");
    assert_eq!(req.method, HttpMethod::Get);
    assert_eq!(req.signed, false);
    assert!(!req.uses_time_unit);
    match req.query.get("symbol") {
        Some(QueryValue::Text(s)) => assert_eq!(s, "symbol-0"),
        _ => panic!("symbol is not sent as expected"),
    }
    match req.query.get("period") {
        Some(QueryValue::Text(s)) => assert_eq!(s, "1d"),
        _ => panic!("period is not sent as expected"),
    }
    match req.query.get("limit") {
        Some(QueryValue::Integer(n)) => assert_eq!(*n, 1002),
        _ => panic!("limit is not sent as expected"),
    }
    match req.query.get("startTime") {
        Some(QueryValue::Integer(n)) => assert_eq!(*n, 1003),
        _ => panic!("startTime is not sent as expected"),
    }
    match req.query.get("endTime") {
        Some(QueryValue::Integer(n)) => assert_eq!(*n, 1004),
        _ => panic!("endTime is not sent as expected"),
    }
    assert_eq!(req.query.into_entries().len(), 5);
}

#[test]
fn long_short_ratio_leaves_out_absent_parameters() {
    let params = LongShortRatioParams {
        symbol: "symbol-0".to_string(),
        period: LongShortRatioPeriodEnum::Period1d,
        limit: None,
        start_time: None,
        end_time: None,
    };
    let req = long_short_ratio(params);
    match req.query.get("symbol") {
        Some(QueryValue::Text(s)) => assert_eq!(s, "symbol-0"),
        _ => panic!("symbol is not sent as expected"),
    }
    match req.query.get("period") {
        Some(QueryValue::Text(s)) => assert_eq!(s, "1d"),
        _ => panic!("period is not sent as expected"),
    }
    assert!(req.query.get("limit").is_none());
    assert!(req.query.get("startTime").is_none());
    assert!(req.query.get("endTime").is_none());
    assert_eq!(req.query.into_entries().len(), 2);
}

#[test]
fn mark_price_sends_every_given_parameter() {
    let params = MarkPriceParams {
        symbol: Some("symbol-0".to_string()),
    };
    let req = mark_price(params);
    assert_eq!(req.path, "/fapi/v1/premiumIndex");
    assert_eq!(req.method, HttpMethod::Get);
    assert_eq!(req.signed, false);
    assert!(!req.uses_time_unit);
    match req.query.get("symbol") {
        Some(QueryValue::Text(s)) => assert_eq!(s, "symbol-0"),
        _ => panic!("symbol is not sent as expected"),
    }
    assert_eq!(req.query.into_entries().len(), 1);
}

#[test]
fn mark_price_leaves_out_absent_parameters() {
    let params = MarkPriceParams {
        symbol: None,
    };
    let req = mark_price(params);
    assert!(req.query.get("symbol").is_none());
    assert_eq!(req.query.into_entries().len(), 0);
}

#[test]
fn mark_price_kline_candlestick_data_sends_every_given_parameter() {
    let params = MarkPriceKlineCandlestickDataParams {
        symbol: "symbol-0".to_string(),
        interval: MarkPriceKlineCandlestickDataIntervalEnum::Interval1M,
        start_time: Some(1002),
        end_time: Some(1003),
        limit: Some(1004),
    };
    let req = mark_price_kline_candlestick_data(params);
    assert_eq!(req.path, "/fapi/v1/markPriceKlines");
    assert_eq!(req.method, HttpMethod::Get);
    assert_eq!(req.signed, false);
    assert!(!req.uses_time_unit);
    match req.query.get("symbol") {
        Some(QueryValue::Text(s)) => assert_eq!(s, "symbol-0"),
        _ => panic!("symbol is not sent as expected"),
    }
    match req.query.get("interval") {
        Some(QueryValue::Text(s)) => assert_eq!(s, "1M"),
        _ => panic!("interval is not sent as expected"),
    }
    match req.query.get("startTime") {
        Some(QueryValue::Integer(n)) => assert_eq!(*n, 1002),
        _ => panic!("startTime is not sent as expected"),
    }
    match req.query.get("endTime") {
        Some(QueryValue::Integer(n)) => assert_eq!(*n, 1003),
        _ => panic!("endTime is not sent as expected"),
    }
    match req.query.get("limit") {
        Some(QueryValue::Integer(n)) => assert_eq!(*n, 1004),
        _ => panic!("limit is not sent as expected"),
    }
    assert_eq!(req.query.into_entries().len(), 5);
}

#[test]
fn mark_price_kline_candlestick_data_leaves_out_absent_parameters() {
    let params = MarkPriceKlineCandlestickDataParams {
        symbol: "symbol-0".to_string(),
        interval: MarkPriceKlineCandlestickDataIntervalEnum::Interval1M,
        start_time: None,
        end_time: None,
        limit: None,
    };
    let req = mark_price_kline_candlestick_data(params);
    match req.query.get("symbol") {
        Some(QueryValue::Text(s)) => assert_eq!(s, "symbol-0"),
        _ => panic!("symbol is not sent as expected"),
    }
    match req.query.get("interval") {
        Some(QueryValue::Text(s)) => assert_eq!(s, "1M"),
        _ => panic!("interval is not sent as expected"),
    }
    assert!(req.query.get("startTime").is_none());
    assert!(req.query.get("endTime").is_none());
    assert!(req.query.get("limit").is_none());
    assert_eq!(req.query.into_entries().len(), 2);
}

#[test]
fn multi_assets_mode_asset_index_sends_every_given_parameter() {
    let params = MultiAssetsModeAssetIndexParams {
        symbol: Some("symbol-0".to_string()),
    };
    let req = multi_assets_mode_asset_index(params);
    assert_eq!(req.path, "/fapi/v1/assetIndex");
    assert_eq!(req.method, HttpMethod::Get);
    assert_eq!(req.signed, false);
    assert!(!req.uses_time_unit);
    match req.query.get("symbol") {
        Some(QueryValue::Text(s)) => assert_eq!(s, "symbol-0"),
        _ => panic!("symbol is not sent as expected"),
    }
    assert_eq!(req.query.into_entries().len(), 1);
}

#[test]
fn multi_assets_mode_asset_index_leaves_out_absent_parameters() {
    let params = MultiAssetsModeAssetIndexParams {
        symbol: None,
    };
    let req = multi_assets_mode_asset_index(params);
    assert!(req.query.get("symbol").is_none());
    assert_eq!(req.query.into_entries().len(), 0);
}

#[test]
fn old_trades_lookup_sends_every_given_parameter() {
    let params = OldTradesLookupParams {
        symbol: "symbol-0".to_string(),
        limit: Some(1001),
        from_id: Some(1002),
    };
    let req = old_trades_lookup(params);
    assert_eq!(req.path, "/fapi/v1/historicalTrades");
    assert_eq!(req.method, HttpMethod::Get);
    assert_eq!(req.signed, false);
    assert!(!req.uses_time_unit);
    match req.query.get("symbol") {
        Some(QueryValue::Text(s)) => assert_eq!(s, "symbol-0"),
        _ => panic!("symbol is not sent as expected"),
    }
    match req.query.get("limit") {
        Some(QueryValue::Integer(n)) => assert_eq!(*n, 1001),
        _ => panic!("limit is not sent as expected"),
    }
    match req.query.get("fromId") {
        Some(QueryValue::Integer(n)) => assert_eq!(*n, 1002),
        _ => panic!("fromId is not sent as expected"),
    }
    assert_eq!(req.query.into_entries().len(), 3);
}

#[test]
fn old_trades_lookup_leaves_out_absent_parameters() {
    let params = OldTradesLookupParams {
        symbol: "symbol-0".to_string(),
        limit: None,
        from_id: None,
    };
    let req = old_trades_lookup(params);
    match req.query.get("symbol") {
        Some(QueryValue::Text(s)) => assert_eq!(s, "symbol-0"),
        _ => panic!("symbol is not sent as expected"),
    }
    assert!(req.query.get("limit").is_none());
    assert!(req.query.get("fromId").is_none());
    assert_eq!(req.query.into_entries().len(), 1);
}

#[test]
fn open_interest_sends_every_given_parameter() {
    let params = OpenInterestParams {
        symbol: "symbol-0".to_string(),
    };
    let req = open_interest(params);
    assert_eq!(req.path, "/fapi/v1/openInterest");
    assert_eq!(req.method, HttpMethod::Get);
    assert_eq!(req.signed, false);
    assert!(!req.uses_time_unit);
    match req.query.get("symbol") {
        Some(QueryValue::Text(s)) => assert_eq!(s, "symbol-0"),
        _ => panic!("symbol is not sent as expected"),
    }
    assert_eq!(req.query.into_entries().len(), 1);
}

#[test]
fn open_interest_statistics_sends_every_given_parameter() {
    let params = OpenInterestStatisticsParams {
        symbol: "symbol-0".to_string(),
        period: OpenInterestStatisticsPeriodEnum::Period1d,
        limit: Some(1002),
        start_time: Some(1003),
        end_time: Some(1004),
    };
    let req = open_interest_statistics(params);
    assert_eq!(req.path, "/futures/data/openInterestHist");
    assert_eq!(req.method, HttpMethod::Get);
    assert_eq!(req.signed, false);
    assert!(!req.uses_time_unit);
    match req.query.get("symbol") {
        Some(QueryValue::Text(s)) => assert_eq!(s, "symbol-0"),
        _ => panic!("symbol is not sent as expected"),
    }
    match req.query.get("period") {
        Some(QueryValue::Text(s)) => assert_eq!(s, "1d"),
        _ => panic!("period is not sent as expected"),
    }
    match req.query.get("limit") {
        Some(QueryValue::Integer(n)) => assert_eq!(*n, 1002),
        _ => panic!("limit is not sent as expected"),
    }
    match req.query.get("startTime") {
        Some(QueryValue::Integer(n)) => assert_eq!(*n, 1003),
        _ => panic!("startTime is not sent as expected"),
    }
    match req.query.get("endTime") {
        Some(QueryValue::Integer(n)) => assert_eq!(*n, 1004),
        _ => panic!("endTime is not sent as expected"),
    }
    assert_eq!(req.query.into_entries().len(), 5);
}

#[test]
fn open_interest_statistics_leaves_out_absent_parameters() {
    let params = OpenInterestStatisticsParams {
        symbol: "symbol-0".to_string(),
        period: OpenInterestStatisticsPeriodEnum::Period1d,
        limit: None,
        start_time: None,
        end_time: None,
    };
    let req = open_interest_statistics(params);
    match req.query.get("symbol") {
        Some(QueryValue::Text(s)) => assert_eq!(s, "symbol-0"),
        _ => panic!("symbol is not sent as expected"),
    }
    match req.query.get("period") {
        Some(QueryValue::Text(s)) => assert_eq!(s, "1d"),
        _ => panic!("period is not sent as expected"),
    }
    assert!(req.query.get("limit").is_none());
    assert!(req.query.get("startTime").is_none());
    assert!(req.query.get("endTime").is_none());
    assert_eq!(req.query.into_entries().len(), 2);
}

#[test]
fn order_book_sends_every_given_parameter() {
    let params = OrderBookParams {
        symbol: "symbol-0".to_string(),
        limit: Some(1001),
    };
    let req = order_book(params);
    assert_eq!(req.path, "/fapi/v1/depth");
    assert_eq!(req.method, HttpMethod::Get);
    assert_eq!(req.signed, false);
    assert!(!req.uses_time_unit);
    match req.query.get("symbol") {
        Some(QueryValue::Text(s)) => assert_eq!(s, "symbol-0"),
        _ => panic!("symbol is not sent as expected"),
    }
    match req.query.get("limit") {
        Some(QueryValue::Integer(n)) => assert_eq!(*n, 1001),
        _ => panic!("limit is not sent as expected"),
    }
    assert_eq!(req.query.into_entries().len(), 2);
}

#[test]
fn order_book_leaves_out_absent_parameters() {
    let params = OrderBookParams {
        symbol: "symbol-0".to_string(),
        limit: None,
    };
    let req = order_book(params);
    match req.query.get("symbol") {
        Some(QueryValue::Text(s)) => assert_eq!(s, "symbol-0"),
        _ => panic!("symbol is not sent as expected"),
    }
    assert!(req.query.get("limit").is_none());
    assert_eq!(req.query.into_entries().len(), 1);
}

#[test]
fn premium_index_kline_data_sends_every_given_parameter() {
    let params = PremiumIndexKlineDataParams {
        symbol: "symbol-0".to_string(),
        interval: PremiumIndexKlineDataIntervalEnum::Interval1M,
        start_time: Some(1002),
        end_time: Some(1003),
        limit: Some(1004),
    };
    let req = premium_index_kline_data(params);
    assert_eq!(req.path, "/fapi/v1/premiumIndexKlines");
    assert_eq!(req.method, HttpMethod::Get);
    assert_eq!(req.signed, false);
    assert!(!req.uses_time_unit);
    match req.query.get("symbol") {
        Some(QueryValue::Text(s)) => assert_eq!(s, "symbol-0"),
        _ => panic!("symbol is not sent as expected"),
    }
    match req.query.get("interval") {
        Some(QueryValue::Text(s)) => assert_eq!(s, "1M"),
        _ => panic!("interval is not sent as expected"),
    }
    match req.query.get("startTime") {
        Some(QueryValue::Integer(n)) => assert_eq!(*n, 1002),
        _ => panic!("startTime is not sent as expected"),
    }
    match req.query.get("endTime") {
        Some(QueryValue::Integer(n)) => assert_eq!(*n, 1003),
        _ => panic!("endTime is not sent as expected"),
    }
    match req.query.get("limit") {
        Some(QueryValue::Integer(n)) => assert_eq!(*n, 1004),
        _ => panic!("limit is not sent as expected"),
    }
    assert_eq!(req.query.into_entries().len(), 5);
}

#[test]
fn premium_index_kline_data_leaves_out_absent_parameters() {
    let params = PremiumIndexKlineDataParams {
        symbol: "symbol-0".to_string(),
        interval: PremiumIndexKlineDataIntervalEnum::Interval1M,
        start_time: None,
        end_time: None,
        limit: None,
    };
    let req = premium_index_kline_data(params);
    match req.query.get("symbol") {
        Some(QueryValue::Text(s)) => assert_eq!(s, "symbol-0"),
        _ => panic!("symbol is not sent as expected"),
    }
    match req.query.get("interval") {
        Some(QueryValue::Text(s)) => assert_eq!(s, "1M"),
        _ => panic!("interval is not sent as expected"),
    }
    assert!(req.query.get("startTime").is_none());
    assert!(req.query.get("endTime").is_none());
    assert!(req.query.get("limit").is_none());
    assert_eq!(req.query.into_entries().len(), 2);
}

#[test]
fn quarterly_contract_settlement_price_sends_every_given_parameter() {
    let params = QuarterlyContractSettlementPriceParams {
        pair: "pair-0".to_string(),
    };
    let req = quarterly_contract_settlement_price(params);
    assert_eq!(req.path, "/futures/data/delivery-price");
    assert_eq!(req.method, HttpMethod::Get);
    assert_eq!(req.signed, false);
    assert!(!req.uses_time_unit);
    match req.query.get("pair") {
        Some(QueryValue::Text(s)) => assert_eq!(s, "pair-0"),
        _ => panic!("pair is not sent as expected"),
    }
    assert_eq!(req.query.into_entries().len(), 1);
}

#[test]
fn query_index_price_constituents_sends_every_given_parameter() {
    let params = QueryIndexPriceConstituentsParams {
        symbol: "symbol-0".to_string(),
    };
    let req = query_index_price_constituents(params);
    assert_eq!(req.path, "/fapi/v1/constituents");
    assert_eq!(req.method, HttpMethod::Get);
    assert_eq!(req.signed, false);
    assert!(!req.uses_time_unit);
    match req.query.get("symbol") {
        Some(QueryValue::Text(s)) => assert_eq!(s, "symbol-0"),
        _ => panic!("symbol is not sent as expected"),
    }
    assert_eq!(req.query.into_entries().len(), 1);
}

#[test]
fn query_insurance_fund_balance_snapshot_sends_every_given_parameter() {
    let params = QueryInsuranceFundBalanceSnapshotParams {
        symbol: Some("symbol-0".to_string()),
    };
    let req = query_insurance_fund_balance_snapshot(params);
    assert_eq!(req.path, "/fapi/v1/insuranceBalance");
    assert_eq!(req.method, HttpMethod::Get);
    assert_eq!(req.signed, false);
    assert!(!req.uses_time_unit);
    match req.query.get("symbol") {
        Some(QueryValue::Text(s)) => assert_eq!(s, "symbol-0"),
        _ => panic!("symbol is not sent as expected"),
    }
    assert_eq!(req.query.into_entries().len(), 1);
}

#[test]
fn query_insurance_fund_balance_snapshot_leaves_out_absent_parameters() {
    let params = QueryInsuranceFundBalanceSnapshotParams {
        symbol: None,
    };
    let req = query_insurance_fund_balance_snapshot(params);
    assert!(req.query.get("symbol").is_none());
    assert_eq!(req.query.into_entries().len(), 0);
}

#[test]
fn recent_trades_list_sends_every_given_parameter() {
    let params = RecentTradesListParams {
        symbol: "symbol-0".to_string(),
        limit: Some(1001),
    };
    let req = recent_trades_list(params);
    assert_eq!(req.path, "/fapi/v1/trades");
    assert_eq!(req.method, HttpMethod::Get);
    assert_eq!(req.signed, false);
    assert!(!req.uses_time_unit);
    match req.query.get("symbol") {
        Some(QueryValue::Text(s)) => assert_eq!(s, "symbol-0"),
        _ => panic!("symbol is not sent as expected"),
    }
    match req.query.get("limit") {
        Some(QueryValue::Integer(n)) => assert_eq!(*n, 1001),
        _ => panic!("limit is not sent as expected"),
    }
    assert_eq!(req.query.into_entries().len(), 2);
}

#[test]
fn recent_trades_list_leaves_out_absent_parameters() {
    let params = RecentTradesListParams {
        symbol: "symbol-0".to_string(),
        limit: None,
    };
    let req = recent_trades_list(params);
    match req.query.get("symbol") {
        Some(QueryValue::Text(s)) => assert_eq!(s, "symbol-0"),
        _ => panic!("symbol is not sent as expected"),
    }
    assert!(req.query.get("limit").is_none());
    assert_eq!(req.query.into_entries().len(), 1);
}

#[test]
fn symbol_order_book_ticker_sends_every_given_parameter() {
    let params = SymbolOrderBookTickerParams {
        symbol: Some("symbol-0".to_string()),
    };
    let req = symbol_order_book_ticker(params);
    assert_eq!(req.path, "/fapi/v1/ticker/bookTicker");
    assert_eq!(req.method, HttpMethod::Get);
    assert_eq!(req.signed, false);
    assert!(!req.uses_time_unit);
    match req.query.get("symbol") {
        Some(QueryValue::Text(s)) => assert_eq!(s, "symbol-0"),
        _ => panic!("symbol is not sent as expected"),
    }
    assert_eq!(req.query.into_entries().len(), 1);
}

#[test]
fn symbol_order_book_ticker_leaves_out_absent_parameters() {
    let params = SymbolOrderBookTickerParams {
        symbol: None,
    };
    let req = symbol_order_book_ticker(params);
    assert!(req.query.get("symbol").is_none());
    assert_eq!(req.query.into_entries().len(), 0);
}

#[test]
fn symbol_price_ticker_sends_every_given_parameter() {
    let params = SymbolPriceTickerParams {
        symbol: Some("symbol-0".to_string()),
    };
    let req = symbol_price_ticker(params);
    assert_eq!(req.path, "/fapi/v1/ticker/price");
    assert_eq!(req.method, HttpMethod::Get);
    assert_eq!(req.signed, false);
    assert!(!req.uses_time_unit);
    match req.query.get("symbol") {
        Some(QueryValue::Text(s)) => assert_eq!(s, "symbol-0"),
        _ => panic!("symbol is not sent as expected"),
    }
    assert_eq!(req.query.into_entries().len(), 1);
}

#[test]
fn symbol_price_ticker_leaves_out_absent_parameters() {
    let params = SymbolPriceTickerParams {
        symbol: None,
    };
    let req = symbol_price_ticker(params);
    assert!(req.query.get("symbol").is_none());
    assert_eq!(req.query.into_entries().len(), 0);
}

#[test]
fn symbol_price_ticker_v2_sends_every_given_parameter() {
    let params = SymbolPriceTickerV2Params {
        symbol: Some("symbol-0".to_string()),
    };
    let req = symbol_price_ticker_v2(params);
    assert_eq!(req.path, "/fapi/v2/ticker/price");
    assert_eq!(req.method, HttpMethod::Get);
    assert_eq!(req.signed, false);
    assert!(!req.uses_time_unit);
    match req.query.get("symbol") {
        Some(QueryValue::Text(s)) => assert_eq!(s, "symbol-0"),
        _ => panic!("symbol is not sent as expected"),
    }
    assert_eq!(req.query.into_entries().len(), 1);
}

#[test]
fn symbol_price_ticker_v2_leaves_out_absent_parameters() {
    let params = SymbolPriceTickerV2Params {
        symbol: None,
    };
    let req = symbol_price_ticker_v2(params);
    assert!(req.query.get("symbol").is_none());
    assert_eq!(req.query.into_entries().len(), 0);
}

#[test]
fn taker_buy_sell_volume_sends_every_given_parameter() {
    let params = TakerBuySellVolumeParams {
        symbol: "symbol-0".to_string(),
        period: TakerBuySellVolumePeriodEnum::Period1d,
        limit: Some(1002),
        start_time: Some(1003),
        end_time: Some(1004),
    };
    let req = taker_buy_sell_volume(params);
    assert_eq!(req.path, "/futures/data/takerlongshortRatio");
    assert_eq!(req.method, HttpMethod::Get);
    assert_eq!(req.signed, false);
    assert!(!req.uses_time_unit);
    match req.query.get("symbol") {
        Some(QueryValue::Text(s)) => assert_eq!(s, "symbol-0"),
        _ => panic!("symbol is not sent as expected"),
    }
    match req.query.get("period") {
        Some(QueryValue::Text(s)) => assert_eq!(s, "1d"),
        _ => panic!("period is not sent as expected"),
    }
    match req.query.get("limit") {
        Some(QueryValue::Integer(n)) => assert_eq!(*n, 1002),
        _ => panic!("limit is not sent as expected"),
    }
    match req.query.get("startTime") {
        Some(QueryValue::Integer(n)) => assert_eq!(*n, 1003),
        _ => panic!("startTime is not sent as expected"),
    }
    match req.query.get("endTime") {
        Some(QueryValue::Integer(n)) => assert_eq!(*n, 1004),
        _ => panic!("endTime is not sent as expected"),
    }
    assert_eq!(req.query.into_entries().len(), 5);
}

#[test]
fn taker_buy_sell_volume_leaves_out_absent_parameters() {
    let params = TakerBuySellVolumeParams {
        symbol: "symbol-0".to_string(),
        period: TakerBuySellVolumePeriodEnum::Period1d,
        limit: None,
        start_time: None,
        end_time: None,
    };
    let req = taker_buy_sell_volume(params);
    match req.query.get("symbol") {
        Some(QueryValue::Text(s)) => assert_eq!(s, "symbol-0"),
        _ => panic!("symbol is not sent as expected"),
    }
    match req.query.get("period") {
        Some(QueryValue::Text(s)) => assert_eq!(s, "1d"),
        _ => panic!("period is not sent as expected"),
    }
    assert!(req.query.get("limit").is_none());
    assert!(req.query.get("startTime").is_none());
    assert!(req.query.get("endTime").is_none());
    assert_eq!(req.query.into_entries().len(), 2);
}

#[test]
fn test_connectivity_request() {
    let req = test_connectivity();
    assert_eq!(req.path, "/fapi/v1/ping");
    assert_eq!(req.method, HttpMethod::Get);
    assert_eq!(req.signed, false);
    assert!(!req.uses_time_unit);
    assert!(req.query.into_entries().is_empty());
}

#[test]
fn ticker24hr_price_change_statistics_sends_every_given_parameter() {
    let params = Ticker24hrPriceChangeStatisticsParams {
        symbol: Some("symbol-0".to_string()),
    };
    let req = ticker24hr_price_change_statistics(params);
    assert_eq!(req.path, "/fapi/v1/ticker/24hr");
    assert_eq!(req.method, HttpMethod::Get);
    assert_eq!(req.signed, false);
    assert!(!req.uses_time_unit);
    match req.query.get("symbol") {
        Some(QueryValue::Text(s)) => assert_eq!(s, "symbol-0"),
        _ => panic!("symbol is not sent as expected"),
    }
    assert_eq!(req.query.into_entries().len(), 1);
}

#[test]
fn ticker24hr_price_change_statistics_leaves_out_absent_parameters() {
    let params = Ticker24hrPriceChangeStatisticsParams {
        symbol: None,
    };
    let req = ticker24hr_price_change_statistics(params);
    assert!(req.query.get("symbol").is_none());
    assert_eq!(req.query.into_entries().len(), 0);
}

#[test]
fn top_trader_long_short_ratio_accounts_sends_every_given_parameter() {
    let params = TopTraderLongShortRatioAccountsParams {
        symbol: "symbol-0".to_string(),
        period: TopTraderLongShortRatioAccountsPeriodEnum::Period1d,
        limit: Some(1002),
        start_time: Some(1003),
        end_time: Some(1004),
    };
    let req = top_trader_long_short_ratio_accounts(params);
    assert_eq!(req.path, "/futures/data/topLongShortAccountRatio");
    assert_eq!(req.method, HttpMethod::Get);
    assert_eq!(req.signed, false);
    assert!(!req.uses_time_unit);
    match req.query.get("symbol") {
        Some(QueryValue::Text(s)) => assert_eq!(s, "symbol-0"),
        _ => panic!("symbol is not sent as expected"),
    }
    match req.query.get("period") {
        Some(QueryValue::Text(s)) => assert_eq!(s, "1d"),
        _ => panic!("period is not sent as expected"),
    }
    match req.query.get("limit") {
        Some(QueryValue::Integer(n)) => assert_eq!(*n, 1002),
        _ => panic!("limit is not sent as expected"),
    }
    match req.query.get("startTime") {
        Some(QueryValue::Integer(n)) => assert_eq!(*n, 1003),
        _ => panic!("startTime is not sent as expected"),
    }
    match req.query.get("endTime") {
        Some(QueryValue::Integer(n)) => assert_eq!(*n, 1004),
        _ => panic!("endTime is not sent as expected"),
    }
    assert_eq!(req.query.into_entries().len(), 5);
}

#[test]
fn top_trader_long_short_ratio_accounts_leaves_out_absent_parameters() {
    let params = TopTraderLongShortRatioAccountsParams {
        symbol: "symbol-0".to_string(),
        period: TopTraderLongShortRatioAccountsPeriodEnum::Period1d,
        limit: None,
        start_time: None,
        end_time: None,
    };
    let req = top_trader_long_short_ratio_accounts(params);
    match req.query.get("symbol") {
        Some(QueryValue::Text(s)) => assert_eq!(s, "symbol-0"),
        _ => panic!("symbol is not sent as expected"),
    }
    match req.query.get("period") {
        Some(QueryValue::Text(s)) => assert_eq!(s, "1d"),
        _ => panic!("period is not sent as expected"),
    }
    assert!(req.query.get("limit").is_none());
    assert!(req.query.get("startTime").is_none());
    assert!(req.query.get("endTime").is_none());
    assert_eq!(req.query.into_entries().len(), 2);
}

#[test]
fn top_trader_long_short_ratio_positions_sends_every_given_parameter() {
    let params = TopTraderLongShortRatioPositionsParams {
        symbol: "symbol-0".to_string(),
        period: TopTraderLongShortRatioPositionsPeriodEnum::Period1d,
        limit: Some(1002),
        start_time: Some(1003),
        end_time: Some(1004),
    };
    let req = top_trader_long_short_ratio_positions(params);
    assert_eq!(req.path, "/futures/data/topLongShortPositionRatio");
    assert_eq!(req.method, HttpMethod::Get);
    assert_eq!(req.signed, false);
    assert!(!req.uses_time_unit);
    match req.query.get("symbol") {
        Some(QueryValue::Text(s)) => assert_eq!(s, "symbol-0"),
        _ => panic!("symbol is not sent as expected"),
    }
    match req.query.get("period") {
        Some(QueryValue::Text(s)) => assert_eq!(s, "1d"),
        _ => panic!("period is not sent as expected"),
    }
    match req.query.get("limit") {
        Some(QueryValue::Integer(n)) => assert_eq!(*n, 1002),
        _ => panic!("limit is not sent as expected"),
    }
    match req.query.get("startTime") {
        Some(QueryValue::Integer(n)) => assert_eq!(*n, 1003),
        _ => panic!("startTime is not sent as expected"),
    }
    match req.query.get("endTime") {
        Some(QueryValue::Integer(n)) => assert_eq!(*n, 1004),
        _ => panic!("endTime is not sent as expected"),
    }
    assert_eq!(req.query.into_entries().len(), 5);
}

#[test]
fn top_trader_long_short_ratio_positions_leaves_out_absent_parameters() {
    let params = TopTraderLongShortRatioPositionsParams {
        symbol: "symbol-0".to_string(),
        period: TopTraderLongShortRatioPositionsPeriodEnum::Period1d,
        limit: None,
        start_time: None,
        end_time: None,
    };
    let req = top_trader_long_short_ratio_positions(params);
    match req.query.get("symbol") {
        Some(QueryValue::Text(s)) => assert_eq!(s, "symbol-0"),
        _ => panic!("symbol is not sent as expected"),
    }
    match req.query.get("period") {
        Some(QueryValue::Text(s)) => assert_eq!(s, "1d"),
        _ => panic!("period is not sent as expected"),
    }
    assert!(req.query.get("limit").is_none());
    assert!(req.query.get("startTime").is_none());
    assert!(req.query.get("endTime").is_none());
    assert_eq!(req.query.into_entries().len(), 2);
}
