use arbitrage_watcher::calculator::{ArbitrageOpportunity, FeeCalculator, TradingFees};
use arbitrage_watcher::config::{ProfitThreshold, TradingPair};
use arbitrage_watcher::price::{PriceSource, SourcePrice};
use arbitrage_watcher::processor::ValidatedPricePair;

const NOW_MS: u64 = 1_700_000_000_000;

fn create_test_price_pair() -> ValidatedPricePair {
    let solana_price = SourcePrice::new(190_000_000, PriceSource::Solana, NOW_MS);
    let binance_price = SourcePrice::new(195_000_000, PriceSource::Binance, NOW_MS);
    ValidatedPricePair::new(solana_price, binance_price)
}

#[test]
fn test_trading_fees_creation() {
    let fees = TradingFees::default();
    assert_eq!(fees.binance_spot_fee, 100_000);
    assert_eq!(fees.solana_dex_fee, 250_000);

    let custom_fees = TradingFees::new(50_000, 300_000, 2_000, 100_000).unwrap();
    assert_eq!(custom_fees.binance_spot_fee, 50_000);
}

#[test]
fn test_invalid_fees() {
    // A gas fee above one whole base unit is rejected.
    assert!(TradingFees::new(100_000, 250_000, 1_000_001, 0).is_err());
    // A percentage above 100% is rejected.
    assert!(TradingFees::new(101_000_000, 250_000, 1_000, 0).is_err());
}

#[test]
fn test_fee_calculator_creation() {
    let calculator = FeeCalculator::default();
    assert_eq!(calculator.default_trade_amount(), 10_000_000);

    let fees = TradingFees::default();
    let custom_calculator = FeeCalculator::new(fees, 5_000_000).unwrap();
    assert_eq!(custom_calculator.default_trade_amount(), 5_000_000);
}

#[test]
fn test_invalid_trade_amount() {
    let fees = TradingFees::default();
    assert!(FeeCalculator::new(fees.clone(), 0).is_err());
    assert!(FeeCalculator::new(
        fees.clone(),
        arbitrage_watcher::calculator::MAX_TRADE_AMOUNT + 1
    )
    .is_err());
}

#[test]
fn test_arbitrage_opportunity_calculation() {
    let calculator = FeeCalculator::default();
    let price_pair = create_test_price_pair();

    let opportunity = calculator
        .calculate_opportunity(&price_pair, TradingPair::SolUsdt)
        .unwrap()
        .unwrap();

    assert_eq!(opportunity.buy_source, PriceSource::Solana);
    assert_eq!(opportunity.sell_source, PriceSource::Binance);
    assert_eq!(opportunity.buy_price, 190_000_000);
    assert_eq!(opportunity.sell_price, 195_000_000);
    assert_eq!(opportunity.raw_profit_per_unit, 5_000_000);
    assert!(opportunity.is_profitable());
}

#[test]
fn test_no_arbitrage_opportunity() {
    let calculator = FeeCalculator::default();

    // Solana is higher: the trade buys on the CEX instead.
    let solana_price = SourcePrice::new(200_000_000, PriceSource::Solana, NOW_MS);
    let binance_price = SourcePrice::new(195_000_000, PriceSource::Binance, NOW_MS);
    let price_pair = ValidatedPricePair::new(solana_price, binance_price);

    let opportunity = calculator
        .calculate_opportunity(&price_pair, TradingPair::SolUsdt)
        .unwrap();

    assert!(opportunity.is_some());
    let opp = opportunity.unwrap();
    assert_eq!(opp.buy_source, PriceSource::Binance);
    assert_eq!(opp.sell_source, PriceSource::Solana);
}

#[test]
fn test_profit_threshold_check() {
    let calculator = FeeCalculator::default();
    let price_pair = create_test_price_pair();

    let opportunity = calculator
        .calculate_opportunity(&price_pair, TradingPair::SolUsdt)
        .unwrap()
        .unwrap();

    let threshold = ProfitThreshold::new(1_000_000).unwrap();
    assert!(opportunity.exceeds_threshold(&threshold));

    let high_threshold = ProfitThreshold::new(10_000_000).unwrap();
    assert!(!opportunity.exceeds_threshold(&high_threshold));
}

#[test]
fn test_total_profit_calculation() {
    let calculator = FeeCalculator::default();
    let price_pair = create_test_price_pair();

    let opportunity = calculator
        .calculate_opportunity(&price_pair, TradingPair::SolUsdt)
        .unwrap()
        .unwrap();

    let profit_5_tokens = opportunity.calculate_total_profit(5_000_000).unwrap();
    let profit_10_tokens = opportunity.calculate_total_profit(10_000_000).unwrap();

    assert!(profit_10_tokens > profit_5_tokens);
    assert!(opportunity.calculate_total_profit(0).is_err());
}

#[test]
fn test_fee_calculation() {
    let fees = TradingFees::default();
    let calculator = FeeCalculator::new(fees, 10_000_000).unwrap();

    let buy_price = 190_000_000;
    let sell_price = 195_000_000;

    let total_fees = calculator.calculate_total_fees(
        buy_price,
        sell_price,
        PriceSource::Solana,
        PriceSource::Binance,
    );

    // Both trading fees plus the amortized gas fee for the DEX leg.
    assert!(total_fees > 0);
}

#[test]
fn test_trading_fee_getter() {
    let fees = TradingFees::default();

    assert_eq!(fees.get_trading_fee(PriceSource::Binance), 100_000);
    assert_eq!(fees.get_trading_fee(PriceSource::Solana), 250_000);
}

#[test]
fn test_calculator_setters() {
    let mut calculator = FeeCalculator::default();

    let new_fees = TradingFees::new(50_000, 200_000, 2_000, 100_000).unwrap();
    calculator.set_trading_fees(new_fees);

    assert_eq!(calculator.trading_fees().binance_spot_fee, 50_000);

    calculator.set_default_trade_amount(20_000_000).unwrap();
    assert_eq!(calculator.default_trade_amount(), 20_000_000);

    assert!(calculator.set_default_trade_amount(0).is_err());
}

#[test]
fn test_fee_breakdown_exact_values() {
    // A worked example with the default fees: 0.1% CEX, 0.25% DEX,
    // 0.001 base units of gas, no transfer fee, ten units per trade.
    let calculator = FeeCalculator::default();
    let total_fees = calculator.calculate_total_fees(
        190_000_000,
        195_000_000,
        PriceSource::Solana,
        PriceSource::Binance,
    );
    // 0.475 + 0.195 per unit, plus 0.19 of gas over ten units.
    assert_eq!(total_fees, 475_000 + 195_000 + 19_000);
}

#[test]
fn test_same_platform_round_trip_has_no_transfer_fee() {
    let fees = TradingFees::new(100_000, 250_000, 0, 77_000).unwrap();
    let calculator = FeeCalculator::new(fees, 10_000_000).unwrap();

    let cross = calculator.calculate_total_fees(
        190_000_000,
        195_000_000,
        PriceSource::Binance,
        PriceSource::Solana,
    );
    let same = calculator.calculate_total_fees(
        190_000_000,
        195_000_000,
        PriceSource::Binance,
        PriceSource::Binance,
    );
    // The cross-platform trip pays the flat transfer fee and different
    // percentage legs; the same-platform trip pays the CEX fee twice.
    assert_eq!(
        cross,
        190_000_000 * 100_000 / 100_000_000 + 195_000_000 * 250_000 / 100_000_000 + 77_000
    );
    assert_eq!(
        same,
        190_000_000 * 100_000 / 100_000_000 + 195_000_000 * 100_000 / 100_000_000
    );
}

#[test]
fn test_swapped_prices_reverse_assignment() {
    // Swapping the two source prices reverses the buy/sell assignment
    // and preserves the raw spread's magnitude.
    let calculator = FeeCalculator::default();

    let pair_a = ValidatedPricePair::new(
        SourcePrice::new(190_000_000, PriceSource::Solana, NOW_MS),
        SourcePrice::new(195_000_000, PriceSource::Binance, NOW_MS),
    );
    let pair_b = ValidatedPricePair::new(
        SourcePrice::new(195_000_000, PriceSource::Solana, NOW_MS),
        SourcePrice::new(190_000_000, PriceSource::Binance, NOW_MS),
    );

    let a = calculator
        .calculate_opportunity(&pair_a, TradingPair::SolUsdt)
        .unwrap()
        .unwrap();
    let b = calculator
        .calculate_opportunity(&pair_b, TradingPair::SolUsdt)
        .unwrap()
        .unwrap();

    assert_eq!(a.buy_source, b.sell_source);
    assert_eq!(a.sell_source, b.buy_source);
    assert_eq!(a.raw_profit_per_unit, b.raw_profit_per_unit);
}

#[test]
fn test_zero_fees_net_equals_raw() {
    // With all fees at zero the net profit per unit is exactly the raw
    // spread and the profit percentage is 100 * raw / buy.
    let fees = TradingFees::new(0, 0, 0, 0).unwrap();
    let calculator = FeeCalculator::new(fees, 10_000_000).unwrap();
    let pair = create_test_price_pair();

    let opp = calculator
        .calculate_opportunity(&pair, TradingPair::SolUsdt)
        .unwrap()
        .unwrap();

    assert_eq!(opp.net_profit_per_unit, opp.raw_profit_per_unit as i128);
    assert_eq!(
        opp.profit_percentage,
        opp.raw_profit_per_unit as i128 * 100_000_000 / opp.buy_price as i128
    );
}

#[test]
fn test_equal_prices_yield_no_opportunity() {
    let calculator = FeeCalculator::default();
    let pair = ValidatedPricePair::new(
        SourcePrice::new(195_000_000, PriceSource::Solana, NOW_MS),
        SourcePrice::new(195_000_000, PriceSource::Binance, NOW_MS),
    );
    let opportunity = calculator
        .calculate_opportunity(&pair, TradingPair::SolUsdt)
        .unwrap();
    assert!(opportunity.is_none());
}

#[test]
fn test_opportunity_wellformedness_helpers() {
    let opportunity = ArbitrageOpportunity {
        buy_source: PriceSource::Solana,
        sell_source: PriceSource::Binance,
        buy_price: 190_000_000,
        sell_price: 195_000_000,
        raw_profit_per_unit: 5_000_000,
        net_profit_per_unit: -1,
        profit_percentage: -1,
        total_fees_per_unit: 5_000_001,
        trading_pair: TradingPair::SolUsdt,
        recommended_amount: 1_000_000,
        estimated_total_profit: -10,
    };
    assert!(!opportunity.is_profitable());
}

#[test]
fn test_fee_model_is_pure() {
    // Identical inputs produce identical outputs, bit for bit, on
    // repeated calls.
    let calculator = FeeCalculator::default();
    let pair = create_test_price_pair();

    let first = calculator
        .calculate_opportunity(&pair, TradingPair::SolUsdt)
        .unwrap()
        .unwrap();
    let second = calculator
        .calculate_opportunity(&pair, TradingPair::SolUsdt)
        .unwrap()
        .unwrap();

    assert_eq!(first, second);
}
