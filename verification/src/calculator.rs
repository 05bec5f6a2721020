use vstd::prelude::*;

use crate::config::{ProfitThreshold, TradingPair};
use crate::price::PriceSource;
use crate::processor::ValidatedPricePair;

verus! {

/// Divisor that turns `price * fee_micro_pct` into a fee amount:
/// 100 percent times the micro scale.
pub const FEE_DIVISOR: u64 = 100_000_000;

/// One whole base unit, in micro-base units.
pub const UNIT_SCALE: u64 = 1_000_000;

/// Highest price this calculator accepts, in micro-quote units
/// (one million quote units per base unit). Keeps every intermediate
/// product inside the machine range.
pub const MAX_CALC_PRICE: u64 = 1_000_000_000_000;

/// Highest default trade amount this calculator accepts, in micro-base
/// units (one billion base units). Keeps every intermediate product inside
/// the machine range.
pub const MAX_TRADE_AMOUNT: u64 = 1_000_000_000_000_000;

/// Largest magnitude a computed net loss per unit can reach under the
/// bounds above.
pub const MAX_NET_MAGNITUDE: i128 = 2_000_000_000_000_000_000;

/// Errors that can occur during fee calculation.
#[derive(Debug, Clone, Copy, PartialEq, Eq, Structural)]
pub enum CalculatorError {
    /// The trading pair is not supported for fee calculation.
    InvalidTradingPair,
    /// The price data handed in is unusable.
    InvalidPriceData,
    /// A fee is out of its valid range (carries the offending value).
    InvalidFeePercentage(u64),
    /// A trade amount is zero or above the supported maximum.
    InvalidTradeAmount(u64),
}

/// Trading fees for the two platforms and the transfer between them.
/// Percentages are in micro-percent; the gas fee is in micro-base units;
/// the transfer fee is a flat micro-quote amount per unit.
#[derive(Debug, Clone, Copy, PartialEq, Eq, Structural)]
pub struct TradingFees {
    /// Binance spot trading fee (micro-percent).
    pub binance_spot_fee: u64,
    /// Solana DEX trading fee (micro-percent).
    pub solana_dex_fee: u64,
    /// Gas fee per Solana transaction (micro-SOL).
    pub solana_gas_fee: u64,
    /// Flat fee for moving funds between platforms (micro-quote per unit).
    pub transfer_fee: u64,
}

impl TradingFees {
    /// Valid fees: percentages of at most 100%, a gas fee of at most one
    /// whole base unit, and a transfer fee of at most 100 micro-quote
    /// units per micro-unit.
    pub open spec fn spec_valid(&self) -> bool {
        &&& self.binance_spot_fee <= FEE_DIVISOR
        &&& self.solana_dex_fee <= FEE_DIVISOR
        &&& self.transfer_fee <= FEE_DIVISOR
        &&& self.solana_gas_fee <= UNIT_SCALE
    }

    /// Create custom trading fees, validating each range.
    pub fn new(
        binance_spot_fee: u64,
        solana_dex_fee: u64,
        solana_gas_fee: u64,
        transfer_fee: u64,
    ) -> (r: Result<Self, CalculatorError>)
        ensures
            ({
                let fees = TradingFees {
                    binance_spot_fee,
                    solana_dex_fee,
                    solana_gas_fee,
                    transfer_fee,
                };
                if binance_spot_fee > FEE_DIVISOR {
                    r == Err::<TradingFees, CalculatorError>(
                        CalculatorError::InvalidFeePercentage(binance_spot_fee),
                    )
                } else if solana_dex_fee > FEE_DIVISOR {
                    r == Err::<TradingFees, CalculatorError>(
                        CalculatorError::InvalidFeePercentage(solana_dex_fee),
                    )
                } else if transfer_fee > FEE_DIVISOR {
                    r == Err::<TradingFees, CalculatorError>(
                        CalculatorError::InvalidFeePercentage(transfer_fee),
                    )
                } else if solana_gas_fee > UNIT_SCALE {
                    r == Err::<TradingFees, CalculatorError>(
                        CalculatorError::InvalidFeePercentage(solana_gas_fee),
                    )
                } else {
                    r == Ok::<TradingFees, CalculatorError>(fees) && fees.spec_valid()
                }
            }),
    {
        if binance_spot_fee > FEE_DIVISOR {
            return Err(CalculatorError::InvalidFeePercentage(binance_spot_fee));
        }
        if solana_dex_fee > FEE_DIVISOR {
            return Err(CalculatorError::InvalidFeePercentage(solana_dex_fee));
        }
        if transfer_fee > FEE_DIVISOR {
            return Err(CalculatorError::InvalidFeePercentage(transfer_fee));
        }
        if solana_gas_fee > UNIT_SCALE {
            return Err(CalculatorError::InvalidFeePercentage(solana_gas_fee));
        }
        Ok(TradingFees { binance_spot_fee, solana_dex_fee, solana_gas_fee, transfer_fee })
    }

    /// The trading fee charged by a given source, in micro-percent.
    pub open spec fn spec_fee_of(&self, source: PriceSource) -> u64 {
        match source {
            PriceSource::Binance => self.binance_spot_fee,
            PriceSource::Solana => self.solana_dex_fee,
        }
    }

    /// Get the trading fee for a specific source.
    pub fn get_trading_fee(&self, source: PriceSource) -> (r: u64)
        ensures
            r == self.spec_fee_of(source),
    {
        match source {
            PriceSource::Binance => self.binance_spot_fee,
            PriceSource::Solana => self.solana_dex_fee,
        }
    }
}

impl Default for TradingFees {
    /// Default fees: 0.1% Binance spot, 0.25% Solana DEX, 0.001 SOL of gas
    /// per transaction, and no transfer fee.
    fn default() -> (r: Self)
        ensures
            r == (TradingFees {
                binance_spot_fee: 100_000u64,
                solana_dex_fee: 250_000u64,
                solana_gas_fee: 1_000u64,
                transfer_fee: 0u64,
            }),
            r.spec_valid(),
    {
        TradingFees {
            binance_spot_fee: 100_000,
            solana_dex_fee: 250_000,
            solana_gas_fee: 1_000,
            transfer_fee: 0,
        }
    }
}

/// The buy and sell sources for a pair of venue prices: buy at the cheaper
/// venue, sell at the dearer one; the CEX is the buy side on an exact tie.
pub open spec fn spec_buy_sell(solana_price: u64, binance_price: u64) -> (PriceSource,
    PriceSource,
) {
    if solana_price < binance_price {
        (PriceSource::Solana, PriceSource::Binance)
    } else {
        (PriceSource::Binance, PriceSource::Solana)
    }
}

/// A percentage fee applied to a price: `price * fee / 100%`, truncating.
pub open spec fn spec_fee_amount(price: u64, fee_micro_pct: u64) -> int {
    price * fee_micro_pct / (FEE_DIVISOR as int)
}

/// Per-unit fees of the round trip: the buy-side fee, the sell-side fee,
/// and the flat transfer fee when the legs sit on different platforms.
pub open spec fn spec_per_unit_fees(
    fees: TradingFees,
    buy_source: PriceSource,
    sell_source: PriceSource,
    buy_price: u64,
    sell_price: u64,
) -> int {
    spec_fee_amount(buy_price, fees.spec_fee_of(buy_source)) + spec_fee_amount(
        sell_price,
        fees.spec_fee_of(sell_source),
    ) + if buy_source != sell_source {
        fees.transfer_fee as int
    } else {
        0
    }
}

/// Flat per-trade gas cost in micro-quote units: the gas amount converted
/// through the price of the DEX-side leg, when a DEX leg exists.
pub open spec fn spec_gas_quote(
    fees: TradingFees,
    buy_source: PriceSource,
    sell_source: PriceSource,
    buy_price: u64,
    sell_price: u64,
) -> int {
    if buy_source is Solana || sell_source is Solana {
        let dex_leg_price: u64 = if buy_source is Solana {
            buy_price
        } else {
            sell_price
        };
        fees.solana_gas_fee * dex_leg_price / (UNIT_SCALE as int)
    } else {
        0
    }
}

/// A per-trade amount amortized over the trade size, per unit.
pub open spec fn spec_amortized(per_trade: int, amount: u64) -> int {
    per_trade * UNIT_SCALE / (amount as int)
}

/// A signed value scaled by a micro-base amount, truncating toward zero as
/// machine division does.
pub open spec fn spec_scaled_by_amount(value: int, amount: u64) -> int {
    if value >= 0 {
        value * amount / (UNIT_SCALE as int)
    } else {
        -((-value) * amount / (UNIT_SCALE as int))
    }
}

/// Net profit per unit as a percentage of the buy price, in micro-percent,
/// truncating toward zero as machine division does.
pub open spec fn spec_profit_pct(net: int, buy_price: u64) -> int {
    if net >= 0 {
        net * FEE_DIVISOR / (buy_price as int)
    } else {
        -((-net) * FEE_DIVISOR / (buy_price as int))
    }
}

/// Helper: a fraction `x * f / d` with `f <= d` stays between zero and `x`.
proof fn lemma_mul_div_le(x: int, f: int, d: int)
    requires
        0 <= x,
        0 <= f <= d,
        0 < d,
    ensures
        0 <= x * f / d <= x,
{
    assert(x * f <= x * d) by (nonlinear_arith)
        requires
            0 <= x,
            f <= d,
    ;
    assert(x * f >= 0) by (nonlinear_arith)
        requires
            0 <= x,
            0 <= f,
    ;
    vstd::arithmetic::div_mod::lemma_div_is_ordered(x * f, x * d, d);
    vstd::arithmetic::div_mod::lemma_div_multiples_vanish(x, d);
    assert(x * d == d * x) by (nonlinear_arith);
    vstd::arithmetic::div_mod::lemma_div_pos_is_pos(x * f, d);
}

/// Helper: division by a positive amount never grows a non-negative value.
proof fn lemma_div_le_self(x: int, d: int)
    requires
        0 <= x,
        0 < d,
    ensures
        0 <= x / d <= x,
{
    vstd::arithmetic::div_mod::lemma_div_pos_is_pos(x, d);
    vstd::arithmetic::div_mod::lemma_div_nonincreasing(x, d);
}

/// Helper: a share of a whole, expressed in micro-percent, stays between
/// zero and one hundred percent.
pub proof fn lemma_rate_bounded(part: int, whole: int)
    requires
        0 <= part <= whole,
        0 < whole,
    ensures
        0 <= part * 100_000_000 / whole <= 100_000_000,
{
    assert(part * 100_000_000 <= whole * 100_000_000) by (nonlinear_arith)
        requires
            0 <= part <= whole,
    ;
    assert(part * 100_000_000 >= 0) by (nonlinear_arith)
        requires
            0 <= part,
    ;
    vstd::arithmetic::div_mod::lemma_div_is_ordered(
        part * 100_000_000,
        whole * 100_000_000,
        whole,
    );
    vstd::arithmetic::div_mod::lemma_div_multiples_vanish(100_000_000, whole);
    assert(whole * 100_000_000 == 100_000_000 * whole) by (nonlinear_arith);
    vstd::arithmetic::div_mod::lemma_div_pos_is_pos(part * 100_000_000, whole);
}

/// Result of an arbitrage opportunity calculation. Prices and per-unit
/// amounts are in micro-quote units, amounts in micro-base units, and the
/// profit percentage in micro-percent.
#[derive(Debug, Clone, Copy, PartialEq, Eq, Structural)]
pub struct ArbitrageOpportunity {
    /// Buy from this source (the lower price).
    pub buy_source: PriceSource,
    /// Sell to this source (the higher price).
    pub sell_source: PriceSource,
    /// Price to buy at.
    pub buy_price: u64,
    /// Price to sell at.
    pub sell_price: u64,
    /// Raw price difference before fees.
    pub raw_profit_per_unit: u64,
    /// Net profit per unit after all fees (may be negative).
    pub net_profit_per_unit: i128,
    /// Profit percentage based on the buy price, in micro-percent.
    pub profit_percentage: i128,
    /// Total fees incurred per unit, amortized gas included.
    pub total_fees_per_unit: u64,
    /// Trading pair.
    pub trading_pair: TradingPair,
    /// Recommended trade amount, in micro-base units.
    pub recommended_amount: u64,
    /// Estimated total profit for the recommended amount.
    pub estimated_total_profit: i128,
}

impl ArbitrageOpportunity {
    /// Bounds that every opportunity produced by the calculator satisfies.
    pub open spec fn spec_wf(&self) -> bool {
        &&& self.buy_price <= MAX_CALC_PRICE
        &&& self.sell_price <= MAX_CALC_PRICE
        &&& self.net_profit_per_unit <= MAX_CALC_PRICE
        &&& self.net_profit_per_unit >= -MAX_NET_MAGNITUDE
    }

    /// Check whether this opportunity reaches the profit threshold.
    pub fn exceeds_threshold(&self, threshold: &ProfitThreshold) -> (r: bool)
        ensures
            r == (self.profit_percentage >= threshold.spec_value() as i128),
    {
        self.profit_percentage >= threshold.value() as i128
    }

    /// Check whether the opportunity is profitable after all fees.
    pub fn is_profitable(&self) -> (r: bool)
        ensures
            r == (self.net_profit_per_unit > 0),
    {
        self.net_profit_per_unit > 0
    }

    /// Calculate the total profit for a specific trade amount, given in
    /// micro-base units. A zero amount is rejected.
    pub fn calculate_total_profit(&self, amount: u64) -> (r: Result<i128, CalculatorError>)
        requires
            self.spec_wf(),
        ensures
            amount == 0 ==> r == Err::<i128, CalculatorError>(
                CalculatorError::InvalidTradeAmount(0u64),
            ),
            amount > 0 ==> r == Ok::<i128, CalculatorError>(
                spec_scaled_by_amount(self.net_profit_per_unit as int, amount) as i128,
            ),
    {
        if amount == 0 {
            return Err(CalculatorError::InvalidTradeAmount(amount));
        }
        let net = self.net_profit_per_unit;
        if net >= 0 {
            proof {
                assert((net as u128) * (amount as u128) <= (MAX_CALC_PRICE as u128) * (u64::MAX
                    as u128)) by (nonlinear_arith)
                    requires
                        0 <= net <= MAX_CALC_PRICE,
                        amount <= u64::MAX,
                ;
            }
            let wide: u128 = (net as u128) * (amount as u128) / (UNIT_SCALE as u128);
            Ok(wide as i128)
        } else {
            let magnitude: u128 = (-net) as u128;
            proof {
                assert(magnitude * (amount as u128) <= (MAX_NET_MAGNITUDE as u128) * (u64::MAX
                    as u128)) by (nonlinear_arith)
                    requires
                        0 <= magnitude <= MAX_NET_MAGNITUDE as u128,
                        amount <= u64::MAX,
                ;
            }
            let wide: u128 = magnitude * (amount as u128) / (UNIT_SCALE as u128);
            Ok(-(wide as i128))
        }
    }
}

/// Fee calculator for arbitrage opportunities.
#[derive(Debug, Clone, Copy, PartialEq, Eq, Structural)]
pub struct FeeCalculator {
    trading_fees: TradingFees,
    default_trade_amount: u64,
}

impl FeeCalculator {
    pub closed spec fn spec_trading_fees(&self) -> TradingFees {
        self.trading_fees
    }

    pub closed spec fn spec_default_trade_amount(&self) -> u64 {
        self.default_trade_amount
    }

    /// The calculator's invariant: valid fees and a positive, bounded
    /// default trade amount.
    pub open spec fn spec_wf(&self) -> bool {
        &&& self.spec_trading_fees().spec_valid()
        &&& 0 < self.spec_default_trade_amount() <= MAX_TRADE_AMOUNT
    }

    /// Create a new fee calculator with custom fees. The default trade
    /// amount must be positive and within the supported range.
    pub fn new(trading_fees: TradingFees, default_trade_amount: u64) -> (r: Result<
        Self,
        CalculatorError,
    >)
        ensures
            default_trade_amount == 0 || default_trade_amount > MAX_TRADE_AMOUNT ==> r
                == Err::<FeeCalculator, CalculatorError>(
                CalculatorError::InvalidTradeAmount(default_trade_amount),
            ),
            0 < default_trade_amount <= MAX_TRADE_AMOUNT ==> (r matches Ok(c) && {
                &&& c.spec_trading_fees() == trading_fees
                &&& c.spec_default_trade_amount() == default_trade_amount
                &&& trading_fees.spec_valid() ==> c.spec_wf()
            }),
    {
        if default_trade_amount == 0 || default_trade_amount > MAX_TRADE_AMOUNT {
            return Err(CalculatorError::InvalidTradeAmount(default_trade_amount));
        }
        Ok(FeeCalculator { trading_fees, default_trade_amount })
    }

    /// Update the trading fees.
    pub fn set_trading_fees(&mut self, fees: TradingFees)
        ensures
            final(self).spec_trading_fees() == fees,
            final(self).spec_default_trade_amount() == old(self).spec_default_trade_amount(),
    {
        self.trading_fees = fees;
    }

    /// Get the current trading fees.
    pub fn trading_fees(&self) -> (r: &TradingFees)
        ensures
            *r == self.spec_trading_fees(),
    {
        &self.trading_fees
    }

    /// Set the default trade amount, in micro-base units.
    pub fn set_default_trade_amount(&mut self, amount: u64) -> (r: Result<(), CalculatorError>)
        ensures
            amount == 0 || amount > MAX_TRADE_AMOUNT ==> r == Err::<(), CalculatorError>(
                CalculatorError::InvalidTradeAmount(amount),
            ) && *final(self) == *old(self),
            0 < amount <= MAX_TRADE_AMOUNT ==> ({
                &&& r == Ok::<(), CalculatorError>(())
                &&& final(self).spec_default_trade_amount() == amount
                &&& final(self).spec_trading_fees() == old(self).spec_trading_fees()
            }),
    {
        if amount == 0 || amount > MAX_TRADE_AMOUNT {
            return Err(CalculatorError::InvalidTradeAmount(amount));
        }
        self.default_trade_amount = amount;
        Ok(())
    }

    /// Get the default trade amount, in micro-base units.
    pub fn default_trade_amount(&self) -> (r: u64)
        ensures
            r == self.spec_default_trade_amount(),
    {
        self.default_trade_amount
    }
}

/// The opportunity the fee model owes for a validated pair: buy at the
/// cheaper venue, and report the spread net of per-unit fees and of the
/// per-trade gas cost amortized over the default trade amount. A spread of
/// zero or less is no opportunity.
pub open spec fn spec_opportunity(
    fees: TradingFees,
    amount: u64,
    prices: ValidatedPricePair,
    pair: TradingPair,
) -> Option<ArbitrageOpportunity> {
    let sp = prices.solana_price.price;
    let bp = prices.binance_price.price;
    let direction = spec_buy_sell(sp, bp);
    let buy_source = direction.0;
    let sell_source = direction.1;
    let buy_price: u64 = if buy_source is Solana {
        sp
    } else {
        bp
    };
    let sell_price: u64 = if sell_source is Solana {
        sp
    } else {
        bp
    };
    if sell_price <= buy_price {
        None
    } else {
        let raw: int = sell_price - buy_price;
        let per_unit = spec_per_unit_fees(fees, buy_source, sell_source, buy_price, sell_price);
        let gas = spec_gas_quote(fees, buy_source, sell_source, buy_price, sell_price);
        let amortized = spec_amortized(gas, amount);
        let net = raw - per_unit - amortized;
        let recommended: u64 = if net > 0 {
            amount
        } else {
            UNIT_SCALE
        };
        Some(
            ArbitrageOpportunity {
                buy_source,
                sell_source,
                buy_price,
                sell_price,
                raw_profit_per_unit: raw as u64,
                net_profit_per_unit: net as i128,
                profit_percentage: spec_profit_pct(net, buy_price) as i128,
                total_fees_per_unit: (per_unit + amortized) as u64,
                trading_pair: pair,
                recommended_amount: recommended,
                estimated_total_profit: (spec_scaled_by_amount(raw - per_unit, recommended)
                    - gas) as i128,
            },
        )
    }
}

impl FeeCalculator {
    /// Calculate the arbitrage opportunity in a validated price pair.
    /// Always succeeds; the option says whether a positive raw spread
    /// exists at all.
    pub fn calculate_opportunity(&self, prices: &ValidatedPricePair, trading_pair: TradingPair)
        -> (r: Result<Option<ArbitrageOpportunity>, CalculatorError>)
        requires
            self.spec_wf(),
            0 < prices.solana_price.price <= MAX_CALC_PRICE,
            0 < prices.binance_price.price <= MAX_CALC_PRICE,
        ensures
            r == Ok::<Option<ArbitrageOpportunity>, CalculatorError>(
                spec_opportunity(
                    self.spec_trading_fees(),
                    self.spec_default_trade_amount(),
                    *prices,
                    trading_pair,
                ),
            ),
            (spec_opportunity(
                self.spec_trading_fees(),
                self.spec_default_trade_amount(),
                *prices,
                trading_pair,
            ) matches Some(o) ==> o.spec_wf()),
    {
        let sp = prices.solana_price.price;
        let bp = prices.binance_price.price;

        // Determine the buy and sell sources: buy where it is cheaper.
        let (buy_source, sell_source) = if sp < bp {
            (PriceSource::Solana, PriceSource::Binance)
        } else {
            (PriceSource::Binance, PriceSource::Solana)
        };
        let buy_price: u64 = if sp < bp {
            sp
        } else {
            bp
        };
        let sell_price: u64 = if sp < bp {
            bp
        } else {
            sp
        };

        // With no raw spread there is no arbitrage opportunity.
        if sell_price <= buy_price {
            return Ok(None);
        }
        let raw: u64 = sell_price - buy_price;

        let (per_unit_fees, per_trade_fees) = self.calculate_fee_breakdown(
            buy_price,
            sell_price,
            buy_source,
            sell_source,
        );

        // Amortize the per-trade gas cost over the default trade amount.
        proof {
            assert((per_trade_fees as u128) * (UNIT_SCALE as u128) <= (MAX_CALC_PRICE as u128) * (
            UNIT_SCALE as u128)) by (nonlinear_arith)
                requires
                    per_trade_fees <= MAX_CALC_PRICE,
            ;
            lemma_div_le_self(
                per_trade_fees * (UNIT_SCALE as int),
                self.spec_default_trade_amount() as int,
            );
        }
        let amortized: u64 = ((per_trade_fees as u128) * (UNIT_SCALE as u128)
            / (self.default_trade_amount as u128)) as u64;

        let net: i128 = raw as i128 - per_unit_fees as i128 - amortized as i128;

        // Profit as a percentage of the buy price, truncating toward zero.
        let profit_percentage: i128 = if net >= 0 {
            proof {
                assert((net as u128) * (FEE_DIVISOR as u128) <= (MAX_CALC_PRICE as u128) * (
                FEE_DIVISOR as u128)) by (nonlinear_arith)
                    requires
                        0 <= net <= MAX_CALC_PRICE as i128,
                ;
                lemma_div_le_self(net * (FEE_DIVISOR as int), buy_price as int);
            }
            (((net as u128) * (FEE_DIVISOR as u128)) / (buy_price as u128)) as i128
        } else {
            let magnitude: u128 = (-net) as u128;
            proof {
                assert(magnitude * (FEE_DIVISOR as u128) <= (MAX_NET_MAGNITUDE as u128) * (
                FEE_DIVISOR as u128)) by (nonlinear_arith)
                    requires
                        magnitude <= MAX_NET_MAGNITUDE as u128,
                ;
                lemma_div_le_self(magnitude as int * (FEE_DIVISOR as int), buy_price as int);
            }
            -(((magnitude * (FEE_DIVISOR as u128)) / (buy_price as u128)) as i128)
        };

        let recommended_amount = self.calculate_recommended_amount(buy_price, net);

        // Total profit: the variable per-unit margin over the recommended
        // amount, minus the flat per-trade cost.
        let variable: i128 = raw as i128 - per_unit_fees as i128;
        let scaled: i128 = if variable >= 0 {
            proof {
                assert((variable as u128) * (recommended_amount as u128) <= (MAX_CALC_PRICE
                    as u128) * (MAX_TRADE_AMOUNT as u128)) by (nonlinear_arith)
                    requires
                        0 <= variable <= MAX_CALC_PRICE as i128,
                        recommended_amount <= MAX_TRADE_AMOUNT,
                ;
                lemma_div_le_self(
                    variable * (recommended_amount as int),
                    UNIT_SCALE as int,
                );
            }
            (((variable as u128) * (recommended_amount as u128)) / (UNIT_SCALE as u128)) as i128
        } else {
            let magnitude: u128 = (-variable) as u128;
            proof {
                assert(magnitude * (recommended_amount as u128) <= (MAX_NET_MAGNITUDE as u128) * (
                MAX_TRADE_AMOUNT as u128)) by (nonlinear_arith)
                    requires
                        magnitude <= MAX_NET_MAGNITUDE as u128,
                        recommended_amount <= MAX_TRADE_AMOUNT,
                ;
                lemma_div_le_self(
                    magnitude as int * (recommended_amount as int),
                    UNIT_SCALE as int,
                );
            }
            -(((magnitude * (recommended_amount as u128)) / (UNIT_SCALE as u128)) as i128)
        };
        let estimated_total_profit: i128 = scaled - per_trade_fees as i128;

        let total_fees_per_unit: u64 = per_unit_fees + amortized;

        Ok(
            Some(
                ArbitrageOpportunity {
                    buy_source,
                    sell_source,
                    buy_price,
                    sell_price,
                    raw_profit_per_unit: raw,
                    net_profit_per_unit: net,
                    profit_percentage,
                    total_fees_per_unit,
                    trading_pair,
                    recommended_amount,
                    estimated_total_profit,
                },
            ),
        )
    }

    /// Break the trade's fees into the per-unit part (buy fee, sell fee,
    /// transfer fee) and the flat per-trade part (gas for the DEX leg).
    fn calculate_fee_breakdown(
        &self,
        buy_price: u64,
        sell_price: u64,
        buy_source: PriceSource,
        sell_source: PriceSource,
    ) -> (r: (u64, u64))
        requires
            self.spec_trading_fees().spec_valid(),
            buy_price <= MAX_CALC_PRICE,
            sell_price <= MAX_CALC_PRICE,
        ensures
            r.0 == spec_per_unit_fees(
                self.spec_trading_fees(),
                buy_source,
                sell_source,
                buy_price,
                sell_price,
            ),
            r.0 <= buy_price + sell_price + FEE_DIVISOR,
            r.1 == spec_gas_quote(
                self.spec_trading_fees(),
                buy_source,
                sell_source,
                buy_price,
                sell_price,
            ),
            r.1 <= MAX_CALC_PRICE,
    {
        // Buy-side fee, a percentage of the buy price.
        let buy_fee_pct = self.trading_fees.get_trading_fee(buy_source);
        proof {
            assert((buy_price as u128) * (buy_fee_pct as u128) <= (MAX_CALC_PRICE as u128) * (
            FEE_DIVISOR as u128)) by (nonlinear_arith)
                requires
                    buy_price <= MAX_CALC_PRICE,
                    buy_fee_pct <= FEE_DIVISOR,
            ;
            lemma_mul_div_le(buy_price as int, buy_fee_pct as int, FEE_DIVISOR as int);
        }
        let buy_fee: u64 = ((buy_price as u128) * (buy_fee_pct as u128) / (FEE_DIVISOR
            as u128)) as u64;

        // Sell-side fee, a percentage of the sell price.
        let sell_fee_pct = self.trading_fees.get_trading_fee(sell_source);
        proof {
            assert((sell_price as u128) * (sell_fee_pct as u128) <= (MAX_CALC_PRICE as u128) * (
            FEE_DIVISOR as u128)) by (nonlinear_arith)
                requires
                    sell_price <= MAX_CALC_PRICE,
                    sell_fee_pct <= FEE_DIVISOR,
            ;
            lemma_mul_div_le(sell_price as int, sell_fee_pct as int, FEE_DIVISOR as int);
        }
        let sell_fee: u64 = ((sell_price as u128) * (sell_fee_pct as u128) / (FEE_DIVISOR
            as u128)) as u64;

        // Transfer fee, only when funds move between different platforms.
        let transfer_fee: u64 = if buy_source != sell_source {
            self.trading_fees.transfer_fee
        } else {
            0
        };

        // Gas for the DEX leg, converted into quote units at that leg's
        // price: a flat per-trade cost.
        let gas_fee_quote: u64 = if buy_source.is_dex() || sell_source.is_dex() {
            let dex_leg_price: u64 = if buy_source.is_dex() {
                buy_price
            } else {
                sell_price
            };
            proof {
                assert((self.spec_trading_fees().solana_gas_fee as u128) * (dex_leg_price
                    as u128) <= (UNIT_SCALE as u128) * (MAX_CALC_PRICE as u128))
                    by (nonlinear_arith)
                    requires
                        self.spec_trading_fees().solana_gas_fee <= UNIT_SCALE,
                        dex_leg_price <= MAX_CALC_PRICE,
                ;
                lemma_mul_div_le(
                    dex_leg_price as int,
                    self.spec_trading_fees().solana_gas_fee as int,
                    UNIT_SCALE as int,
                );
                assert((self.spec_trading_fees().solana_gas_fee as int) * (dex_leg_price as int)
                    == (dex_leg_price as int) * (self.spec_trading_fees().solana_gas_fee as int))
                    by (nonlinear_arith);
            }
            ((self.trading_fees.solana_gas_fee as u128) * (dex_leg_price as u128) / (UNIT_SCALE
                as u128)) as u64
        } else {
            0
        };

        (buy_fee + sell_fee + transfer_fee, gas_fee_quote)
    }

    /// Calculate the total fees per unit for a complete round trip,
    /// amortized gas included.
    pub fn calculate_total_fees(
        &self,
        buy_price: u64,
        sell_price: u64,
        buy_source: PriceSource,
        sell_source: PriceSource,
    ) -> (r: u64)
        requires
            self.spec_wf(),
            buy_price <= MAX_CALC_PRICE,
            sell_price <= MAX_CALC_PRICE,
        ensures
            r == spec_per_unit_fees(
                self.spec_trading_fees(),
                buy_source,
                sell_source,
                buy_price,
                sell_price,
            ) + spec_amortized(
                spec_gas_quote(
                    self.spec_trading_fees(),
                    buy_source,
                    sell_source,
                    buy_price,
                    sell_price,
                ),
                self.spec_default_trade_amount(),
            ),
    {
        let (per_unit_fees, per_trade_fees) = self.calculate_fee_breakdown(
            buy_price,
            sell_price,
            buy_source,
            sell_source,
        );
        proof {
            assert((per_trade_fees as u128) * (UNIT_SCALE as u128) <= (MAX_CALC_PRICE as u128) * (
            UNIT_SCALE as u128)) by (nonlinear_arith)
                requires
                    per_trade_fees <= MAX_CALC_PRICE,
            ;
            lemma_div_le_self(
                per_trade_fees * (UNIT_SCALE as int),
                self.spec_default_trade_amount() as int,
            );
        }
        let amortized: u64 = ((per_trade_fees as u128) * (UNIT_SCALE as u128)
            / (self.default_trade_amount as u128)) as u64;
        per_unit_fees + amortized
    }

    /// Recommend a trade amount: the default amount while the trade is
    /// profitable, one whole unit otherwise.
    fn calculate_recommended_amount(&self, _buy_price: u64, net_profit_per_unit: i128) -> (r: u64)
        ensures
            r == if net_profit_per_unit > 0 {
                self.spec_default_trade_amount()
            } else {
                UNIT_SCALE
            },
    {
        if net_profit_per_unit > 0 {
            self.default_trade_amount
        } else {
            UNIT_SCALE
        }
    }
}

/// Law: the fee model is pure. Equal calculators applied to equal inputs
/// owe bit-for-bit equal results.
pub proof fn law_fee_model_is_pure(
    a: FeeCalculator,
    b: FeeCalculator,
    p: ValidatedPricePair,
    q: ValidatedPricePair,
    pair: TradingPair,
)
    requires
        a == b,
        p == q,
    ensures
        spec_opportunity(a.spec_trading_fees(), a.spec_default_trade_amount(), p, pair)
            == spec_opportunity(b.spec_trading_fees(), b.spec_default_trade_amount(), q, pair),
{
}

/// Law: with all fees at zero and a positive raw spread, the net profit per
/// unit equals the raw spread, and the profit percentage is exactly
/// `100 * raw / buy_price` in micro-percent.
pub proof fn law_zero_fees_net_is_raw(
    fees: TradingFees,
    amount: u64,
    prices: ValidatedPricePair,
    pair: TradingPair,
)
    requires
        fees.binance_spot_fee == 0,
        fees.solana_dex_fee == 0,
        fees.solana_gas_fee == 0,
        fees.transfer_fee == 0,
        amount > 0,
        prices.solana_price.price > 0,
        prices.binance_price.price > 0,
        prices.solana_price.price != prices.binance_price.price,
    ensures
        (spec_opportunity(fees, amount, prices, pair) matches Some(o) && {
            &&& o.net_profit_per_unit == o.raw_profit_per_unit
            &&& o.profit_percentage == o.raw_profit_per_unit * FEE_DIVISOR / (
            o.buy_price as int)
        }),
{
    let sp = prices.solana_price.price;
    let bp = prices.binance_price.price;
    let direction = spec_buy_sell(sp, bp);
    let buy_price: u64 = if direction.0 is Solana {
        sp
    } else {
        bp
    };
    let sell_price: u64 = if direction.1 is Solana {
        sp
    } else {
        bp
    };
    assert(sell_price > buy_price);
    let raw: int = sell_price - buy_price;
    assert(spec_fee_amount(buy_price, 0) == 0) by {
        assert(buy_price * 0 == 0);
        vstd::arithmetic::div_mod::lemma_div_of0(FEE_DIVISOR as int);
    }
    assert(spec_fee_amount(sell_price, 0) == 0) by {
        assert(sell_price * 0 == 0);
        vstd::arithmetic::div_mod::lemma_div_of0(FEE_DIVISOR as int);
    }
    let gas = spec_gas_quote(fees, direction.0, direction.1, buy_price, sell_price);
    assert(gas == 0) by {
        vstd::arithmetic::div_mod::lemma_div_of0(UNIT_SCALE as int);
    }
    assert(spec_amortized(0, amount) == 0) by {
        vstd::arithmetic::div_mod::lemma_div_of0(amount as int);
    }
    let per_unit = spec_per_unit_fees(fees, direction.0, direction.1, buy_price, sell_price);
    assert(per_unit == 0);
    let net = raw;
    assert(net * FEE_DIVISOR <= 0x1_0000_0000_0000_0000 * (FEE_DIVISOR as int))
        by (nonlinear_arith)
        requires
            0 <= net <= 0x1_0000_0000_0000_0000,
    ;
    lemma_div_le_self(net * (FEE_DIVISOR as int), buy_price as int);
}

/// Law: swapping the two source prices reverses the buy/sell assignment and
/// preserves the raw spread's magnitude. (On an exact tie the assignment is
/// the same fixed convention either way, so ties are excluded.)
pub proof fn law_swap_reverses_direction(solana_price: u64, binance_price: u64)
    requires
        solana_price != binance_price,
    ensures
        spec_buy_sell(solana_price, binance_price).0 == spec_buy_sell(
            binance_price,
            solana_price,
        ).1,
        spec_buy_sell(solana_price, binance_price).1 == spec_buy_sell(
            binance_price,
            solana_price,
        ).0,
        crate::processor::spec_spread(solana_price, binance_price)
            == crate::processor::spec_spread(binance_price, solana_price),
{
}

impl Default for FeeCalculator {
    /// Default calculator: default fees and a trade amount of ten base
    /// units.
    fn default() -> (r: Self)
        ensures
            r.spec_trading_fees() == (TradingFees {
                binance_spot_fee: 100_000u64,
                solana_dex_fee: 250_000u64,
                solana_gas_fee: 1_000u64,
                transfer_fee: 0u64,
            }),
            r.spec_default_trade_amount() == 10_000_000u64,
            r.spec_wf(),
    {
        FeeCalculator { trading_fees: TradingFees::default(), default_trade_amount: 10_000_000 }
    }
}

} // verus!
