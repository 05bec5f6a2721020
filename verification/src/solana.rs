use vstd::prelude::*;

use crate::config::{RpcProvider, RpcProviderType, TradingPair};
use crate::jsonio::{base64_decode, json_as_array, json_as_str, json_as_u64, json_get, json_parse};
use crate::price::{PriceSource, PriceUpdate};
use crate::numeric::spec_pow10;
use crate::reconnect::{ReconnectConfig, ReconnectError, ReconnectHandler};
use vstd::string::StringExecFns;

verus! {

/// Errors that can occur with the on-chain price feed.
#[derive(Debug, Clone, PartialEq, Eq)]
pub enum SolanaError {
    /// WebSocket connection error with a description.
    ConnectionError(String),
    /// JSON message that cannot be used.
    JsonError(String),
    /// Connection timeout (carries the timeout in ms).
    Timeout(u64),
    /// Reconnection failed.
    ReconnectFailed(crate::reconnect::ReconnectError),
    /// The trading pair is not supported.
    InvalidTradingPair(TradingPair),
    /// No RPC providers are configured.
    NoProvidersAvailable,
    /// Every configured RPC provider failed.
    AllProvidersFailed,
    /// The account notification carries no usable data.
    InvalidAccountData,
    /// The pool bytes cannot be turned into a price.
    PoolParsingError(String),
}

/// The little-endian number written by `n` bytes starting at `off`.
pub open spec fn spec_le_bytes(s: Seq<u8>, off: int, n: nat) -> int
    decreases n,
{
    if n == 0 {
        0
    } else {
        s[off] + 256 * spec_le_bytes(s, off + 1, (n - 1) as nat)
    }
}

/// The little-endian 64-bit word at byte offset `off`.
pub open spec fn spec_le_u64(s: Seq<u8>, off: int) -> int {
    spec_le_bytes(s, off, 8)
}

/// Read the little-endian 64-bit word at a byte offset.
pub fn read_u64_le(data: &[u8], offset: usize) -> (r: u64)
    requires
        offset + 8 <= data@.len(),
    ensures
        r == spec_le_u64(data@, offset as int),
{
    proof {
        reveal_with_fuel(spec_le_bytes, 9);
    }
    let b0 = data[offset] as u64;
    let b1 = data[offset + 1] as u64;
    let b2 = data[offset + 2] as u64;
    let b3 = data[offset + 3] as u64;
    let b4 = data[offset + 4] as u64;
    let b5 = data[offset + 5] as u64;
    let b6 = data[offset + 6] as u64;
    let b7 = data[offset + 7] as u64;
    b0 + b1 * 256 + b2 * 65536 + b3 * 16777216 + b4 * 4294967296 + b5 * 1099511627776 + b6
        * 281474976710656 + b7 * 72057594037927936
}

/// Size in bytes of the fixed pool account layout: thirty-four 64-bit
/// words, thirteen 32-byte keys, one more 64-bit word, and seven bytes of
/// padding.
pub const POOL_STATE_LEN: usize = 703;

/// Simplified AMM pool state for price extraction, read from the fixed
/// little-endian layout of the pool account. Keys are kept as 32-byte
/// vectors.
#[derive(Debug, Clone)]
pub struct RaydiumPoolState {
    /// Pool status (6 for active pools).
    pub status: u64,
    /// Pool nonce for address derivation.
    pub nonce: u64,
    /// Max order volume.
    pub max_order: u64,
    /// Pool depth.
    pub depth: u64,
    /// Base token decimals.
    pub base_decimals: u64,
    /// Quote token decimals.
    pub quote_decimals: u64,
    /// Pool state (1 for initialized).
    pub state: u64,
    /// Reset flag.
    pub reset_flag: u64,
    /// Minimum size.
    pub min_size: u64,
    /// Volume multiplier.
    pub vol_max_cut_ratio: u64,
    /// Amount wave ratio.
    pub amount_wave_ratio: u64,
    /// Base lot size.
    pub base_lot_size: u64,
    /// Quote lot size.
    pub quote_lot_size: u64,
    /// Minimum price multiplier.
    pub min_price_multiplier: u64,
    /// Maximum price multiplier.
    pub max_price_multiplier: u64,
    /// System decimals value.
    pub system_decimals_value: u64,
    /// Minimum separate numerator.
    pub min_separate_numerator: u64,
    /// Minimum separate denominator.
    pub min_separate_denominator: u64,
    /// Trade fee numerator.
    pub trade_fee_numerator: u64,
    /// Trade fee denominator.
    pub trade_fee_denominator: u64,
    /// Pnl numerator.
    pub pnl_numerator: u64,
    /// Pnl denominator.
    pub pnl_denominator: u64,
    /// Swap fee numerator.
    pub swap_fee_numerator: u64,
    /// Swap fee denominator.
    pub swap_fee_denominator: u64,
    /// Base need take pnl.
    pub base_need_take_pnl: u64,
    /// Quote need take pnl.
    pub quote_need_take_pnl: u64,
    /// Quote total pnl.
    pub quote_total_pnl: u64,
    /// Base total pnl.
    pub base_total_pnl: u64,
    /// Pool total deposited base amount.
    pub pool_base_token_amount: u64,
    /// Pool total deposited quote amount.
    pub pool_quote_token_amount: u64,
    /// Swap base in amount.
    pub swap_base_in_amount: u64,
    /// Swap quote out amount.
    pub swap_quote_out_amount: u64,
    /// Swap base out amount.
    pub swap_base_out_amount: u64,
    /// Swap quote in amount.
    pub swap_quote_in_amount: u64,
    /// Base vault key.
    pub base_vault: Vec<u8>,
    /// Quote vault key.
    pub quote_vault: Vec<u8>,
    /// Base mint key.
    pub base_mint: Vec<u8>,
    /// Quote mint key.
    pub quote_mint: Vec<u8>,
    /// LP mint key.
    pub lp_mint: Vec<u8>,
    /// Open orders key.
    pub open_orders: Vec<u8>,
    /// Market key.
    pub market_id: Vec<u8>,
    /// Market base vault key.
    pub market_base_vault: Vec<u8>,
    /// Market quote vault key.
    pub market_quote_vault: Vec<u8>,
    /// Market authority key.
    pub market_authority: Vec<u8>,
    /// Withdraw queue key.
    pub withdraw_queue: Vec<u8>,
    /// LP vault key.
    pub lp_vault: Vec<u8>,
    /// Owner key.
    pub owner: Vec<u8>,
    /// LP reserve.
    pub lp_reserve: u64,
    /// Trailing padding of the layout.
    pub padding: Vec<u8>,
}

/// Every field of a decoded pool state equals the word or byte range of
/// the account data at its fixed offset.
pub open spec fn spec_pool_decoded(data: Seq<u8>, p: RaydiumPoolState) -> bool {
    &&& p.status == spec_le_u64(data, 0)
    &&& p.nonce == spec_le_u64(data, 8)
    &&& p.max_order == spec_le_u64(data, 16)
    &&& p.depth == spec_le_u64(data, 24)
    &&& p.base_decimals == spec_le_u64(data, 32)
    &&& p.quote_decimals == spec_le_u64(data, 40)
    &&& p.state == spec_le_u64(data, 48)
    &&& p.reset_flag == spec_le_u64(data, 56)
    &&& p.min_size == spec_le_u64(data, 64)
    &&& p.vol_max_cut_ratio == spec_le_u64(data, 72)
    &&& p.amount_wave_ratio == spec_le_u64(data, 80)
    &&& p.base_lot_size == spec_le_u64(data, 88)
    &&& p.quote_lot_size == spec_le_u64(data, 96)
    &&& p.min_price_multiplier == spec_le_u64(data, 104)
    &&& p.max_price_multiplier == spec_le_u64(data, 112)
    &&& p.system_decimals_value == spec_le_u64(data, 120)
    &&& p.min_separate_numerator == spec_le_u64(data, 128)
    &&& p.min_separate_denominator == spec_le_u64(data, 136)
    &&& p.trade_fee_numerator == spec_le_u64(data, 144)
    &&& p.trade_fee_denominator == spec_le_u64(data, 152)
    &&& p.pnl_numerator == spec_le_u64(data, 160)
    &&& p.pnl_denominator == spec_le_u64(data, 168)
    &&& p.swap_fee_numerator == spec_le_u64(data, 176)
    &&& p.swap_fee_denominator == spec_le_u64(data, 184)
    &&& p.base_need_take_pnl == spec_le_u64(data, 192)
    &&& p.quote_need_take_pnl == spec_le_u64(data, 200)
    &&& p.quote_total_pnl == spec_le_u64(data, 208)
    &&& p.base_total_pnl == spec_le_u64(data, 216)
    &&& p.pool_base_token_amount == spec_le_u64(data, 224)
    &&& p.pool_quote_token_amount == spec_le_u64(data, 232)
    &&& p.swap_base_in_amount == spec_le_u64(data, 240)
    &&& p.swap_quote_out_amount == spec_le_u64(data, 248)
    &&& p.swap_base_out_amount == spec_le_u64(data, 256)
    &&& p.swap_quote_in_amount == spec_le_u64(data, 264)
    &&& p.base_vault@ == data.subrange(272, 304)
    &&& p.quote_vault@ == data.subrange(304, 336)
    &&& p.base_mint@ == data.subrange(336, 368)
    &&& p.quote_mint@ == data.subrange(368, 400)
    &&& p.lp_mint@ == data.subrange(400, 432)
    &&& p.open_orders@ == data.subrange(432, 464)
    &&& p.market_id@ == data.subrange(464, 496)
    &&& p.market_base_vault@ == data.subrange(496, 528)
    &&& p.market_quote_vault@ == data.subrange(528, 560)
    &&& p.market_authority@ == data.subrange(560, 592)
    &&& p.withdraw_queue@ == data.subrange(592, 624)
    &&& p.lp_vault@ == data.subrange(624, 656)
    &&& p.owner@ == data.subrange(656, 688)
    &&& p.lp_reserve == spec_le_u64(data, 688)
    &&& p.padding@ == data.subrange(696, 703)
}

impl RaydiumPoolState {
    /// Strictly decode a pool account: the data must have exactly the
    /// layout's length, and every field is read from its fixed offset.
    pub fn try_from_bytes(data: &[u8]) -> (r: Option<RaydiumPoolState>)
        ensures
            (r is Some) <==> data@.len() == POOL_STATE_LEN,
            r matches Some(p) ==> spec_pool_decoded(data@, p),
    {
        if data.len() != POOL_STATE_LEN {
            return None;
        }
        Some(
            RaydiumPoolState {
                status: read_u64_le(data, 0),
                nonce: read_u64_le(data, 8),
                max_order: read_u64_le(data, 16),
                depth: read_u64_le(data, 24),
                base_decimals: read_u64_le(data, 32),
                quote_decimals: read_u64_le(data, 40),
                state: read_u64_le(data, 48),
                reset_flag: read_u64_le(data, 56),
                min_size: read_u64_le(data, 64),
                vol_max_cut_ratio: read_u64_le(data, 72),
                amount_wave_ratio: read_u64_le(data, 80),
                base_lot_size: read_u64_le(data, 88),
                quote_lot_size: read_u64_le(data, 96),
                min_price_multiplier: read_u64_le(data, 104),
                max_price_multiplier: read_u64_le(data, 112),
                system_decimals_value: read_u64_le(data, 120),
                min_separate_numerator: read_u64_le(data, 128),
                min_separate_denominator: read_u64_le(data, 136),
                trade_fee_numerator: read_u64_le(data, 144),
                trade_fee_denominator: read_u64_le(data, 152),
                pnl_numerator: read_u64_le(data, 160),
                pnl_denominator: read_u64_le(data, 168),
                swap_fee_numerator: read_u64_le(data, 176),
                swap_fee_denominator: read_u64_le(data, 184),
                base_need_take_pnl: read_u64_le(data, 192),
                quote_need_take_pnl: read_u64_le(data, 200),
                quote_total_pnl: read_u64_le(data, 208),
                base_total_pnl: read_u64_le(data, 216),
                pool_base_token_amount: read_u64_le(data, 224),
                pool_quote_token_amount: read_u64_le(data, 232),
                swap_base_in_amount: read_u64_le(data, 240),
                swap_quote_out_amount: read_u64_le(data, 248),
                swap_base_out_amount: read_u64_le(data, 256),
                swap_quote_in_amount: read_u64_le(data, 264),
                base_vault: read_bytes32(data, 272),
                quote_vault: read_bytes32(data, 304),
                base_mint: read_bytes32(data, 336),
                quote_mint: read_bytes32(data, 368),
                lp_mint: read_bytes32(data, 400),
                open_orders: read_bytes32(data, 432),
                market_id: read_bytes32(data, 464),
                market_base_vault: read_bytes32(data, 496),
                market_quote_vault: read_bytes32(data, 528),
                market_authority: read_bytes32(data, 560),
                withdraw_queue: read_bytes32(data, 592),
                lp_vault: read_bytes32(data, 624),
                owner: read_bytes32(data, 656),
                lp_reserve: read_u64_le(data, 688),
                padding: read_bytes(data, 696, 703),
            },
        )
    }

    /// Calculate the mid-price of the base token in quote terms, in
    /// micro-quote units: reserves adjusted by their decimal exponents.
    /// An empty base reserve, an unsupported exponent, and a price beyond
    /// the machine range are errors.
    pub fn calculate_price(&self) -> (r: Result<u64, SolanaError>)
        ensures
            self.pool_base_token_amount == 0 ==> (r matches Err(
                SolanaError::PoolParsingError(m),
            ) && m@ == "Base token amount is zero"@),
            self.pool_base_token_amount != 0 && (self.base_decimals > 12 || self.quote_decimals
                > 12) ==> (r matches Err(SolanaError::PoolParsingError(m)) && m@
                == "Unsupported decimal exponent"@),
            self.pool_base_token_amount != 0 && self.base_decimals <= 12 && self.quote_decimals
                <= 12 ==> {
                let price = spec_pool_price_micro(
                    self.pool_base_token_amount,
                    self.pool_quote_token_amount,
                    self.base_decimals as nat,
                    self.quote_decimals as nat,
                );
                if price <= u64::MAX {
                    r == Ok::<u64, SolanaError>(price as u64)
                } else {
                    (r matches Err(SolanaError::PoolParsingError(m)) && m@
                        == "Calculated price out of range"@)
                }
            },
    {
        if self.pool_base_token_amount == 0 {
            return Err(SolanaError::PoolParsingError("Base token amount is zero".to_owned()));
        }
        if self.base_decimals > 12 || self.quote_decimals > 12 {
            return Err(SolanaError::PoolParsingError("Unsupported decimal exponent".to_owned()));
        }
        match pool_price_micro(
            self.pool_base_token_amount,
            self.pool_quote_token_amount,
            self.base_decimals,
            self.quote_decimals,
        ) {
            Some(price) => Ok(price),
            None => Err(SolanaError::PoolParsingError("Calculated price out of range".to_owned())),
        }
    }

    /// Validate that this is an active pool.
    pub fn is_active(&self) -> (r: bool)
        ensures
            r == (self.status == 6 && self.state == 1),
    {
        self.status == 6 && self.state == 1
    }
}

/// Copy a byte range of the account data.
fn read_bytes(data: &[u8], from: usize, to: usize) -> (r: Vec<u8>)
    requires
        from <= to <= data@.len(),
    ensures
        r@ == data@.subrange(from as int, to as int),
{
    let sub = vstd::slice::slice_subrange(data, from, to);
    vstd::slice::slice_to_vec(sub)
}

/// Copy a 32-byte key out of the account data.
fn read_bytes32(data: &[u8], from: usize) -> (r: Vec<u8>)
    requires
        from + 32 <= data@.len(),
    ensures
        r@ == data@.subrange(from as int, from as int + 32),
{
    let data_len = data.len();
    proof {
        assert(from + 32 <= data_len);
    }
    read_bytes(data, from, from + 32)
}

/// The pool mid-price in micro-quote units per base unit:
/// `(quote / 10^qd) / (base / 10^bd)`, scaled by a million and truncated.
pub open spec fn spec_pool_price_micro(
    base_amount: u64,
    quote_amount: u64,
    base_decimals: nat,
    quote_decimals: nat,
) -> int {
    (quote_amount * spec_pow10(base_decimals) * 1_000_000) / (base_amount * spec_pow10(
        quote_decimals,
    ))
}

/// Ten to a power of at most twelve, as a machine value.
fn pow10_u128_12(n: u64) -> (r: u128)
    requires
        n <= 12,
    ensures
        r == spec_pow10(n as nat),
        1 <= r <= 1_000_000_000_000,
{
    proof {
        reveal_with_fuel(spec_pow10, 14);
    }
    if n == 0 {
        1
    } else if n == 1 {
        10
    } else if n == 2 {
        100
    } else if n == 3 {
        1_000
    } else if n == 4 {
        10_000
    } else if n == 5 {
        100_000
    } else if n == 6 {
        1_000_000
    } else if n == 7 {
        10_000_000
    } else if n == 8 {
        100_000_000
    } else if n == 9 {
        1_000_000_000
    } else if n == 10 {
        10_000_000_000
    } else if n == 11 {
        100_000_000_000
    } else {
        1_000_000_000_000
    }
}

/// Compute the pool mid-price in micro-quote units, or nothing when it
/// exceeds the machine range.
fn pool_price_micro(base_amount: u64, quote_amount: u64, base_decimals: u64, quote_decimals: u64)
    -> (r: Option<u64>)
    requires
        base_amount > 0,
        base_decimals <= 12,
        quote_decimals <= 12,
    ensures
        spec_pool_price_micro(
            base_amount,
            quote_amount,
            base_decimals as nat,
            quote_decimals as nat,
        ) >= 0,
        ({
            let price = spec_pool_price_micro(
                base_amount,
                quote_amount,
                base_decimals as nat,
                quote_decimals as nat,
            );
            if price <= u64::MAX {
                r == Some(price as u64)
            } else {
                r is None
            }
        }),
{
    let base_pow = pow10_u128_12(base_decimals);
    let quote_pow = pow10_u128_12(quote_decimals);
    proof {
        assert((quote_amount as u128) * base_pow <= (u64::MAX as u128) * 1_000_000_000_000)
            by (nonlinear_arith)
            requires
                quote_amount <= u64::MAX,
                base_pow <= 1_000_000_000_000,
        ;
        assert((quote_amount as u128) * base_pow >= 0) by (nonlinear_arith)
            requires
                quote_amount >= 0,
                base_pow >= 1,
        ;
        assert((base_amount as u128) * quote_pow <= (u64::MAX as u128) * 1_000_000_000_000)
            by (nonlinear_arith)
            requires
                base_amount <= u64::MAX,
                quote_pow <= 1_000_000_000_000,
        ;
        assert((base_amount as u128) * quote_pow >= 1) by (nonlinear_arith)
            requires
                base_amount >= 1,
                quote_pow >= 1,
        ;
        vstd::arithmetic::div_mod::lemma_div_pos_is_pos(
            quote_amount * spec_pow10(base_decimals as nat) * 1_000_000,
            base_amount * spec_pow10(quote_decimals as nat),
        );
    }
    let scaled_quote: u128 = (quote_amount as u128) * base_pow;
    proof {
        assert(scaled_quote * 1_000_000 <= (u64::MAX as u128) * 1_000_000_000_000 * 1_000_000)
            by (nonlinear_arith)
            requires
                scaled_quote <= (u64::MAX as u128) * 1_000_000_000_000,
        ;
    }
    let numerator: u128 = scaled_quote * 1_000_000;
    let denominator: u128 = (base_amount as u128) * quote_pow;
    let price: u128 = numerator / denominator;
    if price > u64::MAX as u128 {
        None
    } else {
        Some(price as u64)
    }
}

/// The lowest and highest price the tolerant fallback path accepts, in
/// micro-quote units: a sanity bound for the monitored pair's quote
/// currency, the only guard against silent garbage on that path.
pub const FALLBACK_MIN_PRICE: u64 = 10_000_000;

pub const FALLBACK_MAX_PRICE: u64 = 1_000_000_000;

/// Byte offsets the fallback path reads the pool reserves from.
pub const FALLBACK_BASE_OFFSET: usize = 232;

pub const FALLBACK_QUOTE_OFFSET: usize = 240;

/// The price the tolerant fallback path owes for raw account bytes, when
/// it owes one: reserves read from the documented offsets, the pair's
/// default decimal conventions, and a hard sanity bound on the result.
/// Nothing is owed for short data, an empty base reserve, or a price
/// outside the bound.
pub open spec fn spec_fallback_price(data: Seq<u8>) -> Option<u64> {
    if data.len() < 400 {
        None
    } else {
        let base_amount = spec_le_u64(data, FALLBACK_BASE_OFFSET as int);
        let quote_amount = spec_le_u64(data, FALLBACK_QUOTE_OFFSET as int);
        if base_amount == 0 {
            None
        } else {
            let price = spec_pool_price_micro(base_amount as u64, quote_amount as u64, 9, 6);
            if FALLBACK_MIN_PRICE <= price <= FALLBACK_MAX_PRICE {
                Some(price as u64)
            } else {
                None
            }
        }
    }
}

/// Fallback extraction of the price from raw account data: read the pool
/// reserves from the documented offsets, assume the pair's standard
/// decimals (base 9, quote 6), and reject prices outside the sanity
/// bounds. The exact error text reports what went wrong.
pub fn extract_price_from_raw_data(data: &[u8], pair: TradingPair) -> (r: Result<
    u64,
    SolanaError,
>)
    ensures
        r matches Ok(price) ==> spec_fallback_price(data@) == Some(price),
        r is Err <==> (spec_fallback_price(data@) is None),
        data@.len() < 400 ==> (r matches Err(SolanaError::PoolParsingError(m)) && m@
            == "Account data too short for pool state"@),
        data@.len() >= 400 && spec_le_u64(data@, FALLBACK_BASE_OFFSET as int) == 0 ==> (
        r matches Err(SolanaError::PoolParsingError(m)) && m@ == "Base token amount is zero"@),
        data@.len() >= 400 && spec_le_u64(data@, FALLBACK_BASE_OFFSET as int) != 0 && (
        spec_fallback_price(data@) is None) ==> (r matches Err(SolanaError::PoolParsingError(m))
            && m@ == "Calculated price seems unreasonable"@),
{
    if data.len() < 400 {
        return Err(
            SolanaError::PoolParsingError("Account data too short for pool state".to_owned()),
        );
    }

    let base_amount = read_u64_le(data, FALLBACK_BASE_OFFSET);
    let quote_amount = read_u64_le(data, FALLBACK_QUOTE_OFFSET);

    if base_amount == 0 {
        return Err(SolanaError::PoolParsingError("Base token amount is zero".to_owned()));
    }

    // Standard decimal conventions for the monitored pairs: the base asset
    // carries nine decimals, the stable quote six.
    let quote_decimals: u64 = match pair {
        TradingPair::SolUsdt => 6,
        TradingPair::SolUsdc => 6,
    };

    let price = match pool_price_micro(base_amount, quote_amount, 9, quote_decimals) {
        Some(p) => p,
        None => {
            proof {
                reveal_with_fuel(spec_pow10, 14);
            }
            return Err(
                SolanaError::PoolParsingError("Calculated price seems unreasonable".to_owned()),
            );
        },
    };

    // Sanity bound: a suspicious price must never enter the store.
    if price < FALLBACK_MIN_PRICE || price > FALLBACK_MAX_PRICE {
        return Err(
            SolanaError::PoolParsingError("Calculated price seems unreasonable".to_owned()),
        );
    }

    Ok(price)
}

/// Extract a price from decoded pool account bytes: strict layout decode
/// first, requiring an active pool; the tolerant offset-based fallback
/// when the data does not have the strict layout's length.
pub fn price_from_pool_data(data: &[u8], pair: TradingPair) -> (r: Result<u64, SolanaError>)
    ensures
        data@.len() == POOL_STATE_LEN ==> ({
            let status = spec_le_u64(data@, 0);
            let state = spec_le_u64(data@, 48);
            &&& (status == 6 && state == 1) ==> ({
                let base = spec_le_u64(data@, 224);
                let quote = spec_le_u64(data@, 232);
                let bd = spec_le_u64(data@, 32);
                let qd = spec_le_u64(data@, 40);
                &&& base == 0 ==> r is Err
                &&& (base != 0 && (bd > 12 || qd > 12)) ==> r is Err
                &&& (base != 0 && bd <= 12 && qd <= 12 && spec_pool_price_micro(
                    base as u64,
                    quote as u64,
                    bd as nat,
                    qd as nat,
                ) > u64::MAX) ==> r is Err
                &&& (base != 0 && bd <= 12 && qd <= 12 && spec_pool_price_micro(
                    base as u64,
                    quote as u64,
                    bd as nat,
                    qd as nat,
                ) <= u64::MAX) ==> r == Ok::<u64, SolanaError>(
                    spec_pool_price_micro(base as u64, quote as u64, bd as nat, qd as nat) as u64,
                )
            })
            &&& !(status == 6 && state == 1) ==> (r matches Err(
                SolanaError::PoolParsingError(m),
            ) && m@ == "Pool is not active"@)
        }),
        data@.len() != POOL_STATE_LEN ==> {
            &&& (r matches Ok(price) ==> spec_fallback_price(data@) == Some(price))
            &&& (r is Err <==> (spec_fallback_price(data@) is None))
            &&& (r matches Err(e) ==> (e matches SolanaError::PoolParsingError(_)))
        },
{
    match RaydiumPoolState::try_from_bytes(data) {
        Some(pool_state) => {
            if !pool_state.is_active() {
                return Err(SolanaError::PoolParsingError("Pool is not active".to_owned()));
            }
            pool_state.calculate_price()
        },
        None => extract_price_from_raw_data(data, pair),
    }
}

/// Configuration for the on-chain WebSocket client.
#[derive(Clone)]
pub struct SolanaConfig {
    /// RPC providers in priority order.
    pub rpc_providers: Vec<RpcProvider>,
    /// Connection timeout in milliseconds.
    pub connection_timeout_ms: u64,
    /// Reconnection configuration.
    pub reconnect_config: ReconnectConfig,
    /// Pool account address to monitor, overriding the pair's well-known
    /// address.
    pub account_address: Option<String>,
}

impl SolanaConfig {
    /// Create a new configuration with custom providers and the default
    /// reconnection strategy.
    pub fn new(rpc_providers: Vec<RpcProvider>, connection_timeout_ms: u64) -> (r: Self)
        ensures
            r.rpc_providers == rpc_providers,
            r.connection_timeout_ms == connection_timeout_ms,
            r.reconnect_config.spec_valid(),
            (r.account_address is None),
    {
        SolanaConfig {
            rpc_providers,
            connection_timeout_ms,
            reconnect_config: ReconnectConfig::default(),
            account_address: None,
        }
    }

    /// Set the reconnection configuration.
    pub fn with_reconnect_config(self, config: ReconnectConfig) -> (r: Self)
        ensures
            r == (SolanaConfig { reconnect_config: config, ..self }),
    {
        SolanaConfig { reconnect_config: config, ..self }
    }

    /// Set the pool account address to monitor.
    pub fn with_account_address(self, address: String) -> (r: Self)
        ensures
            r == (SolanaConfig { account_address: Some(address), ..self }),
    {
        SolanaConfig { account_address: Some(address), ..self }
    }
}

impl Default for SolanaConfig {
    /// The default providers: a premium endpoint first, a public one as
    /// the fallback, with a ten second connect timeout.
    fn default() -> (r: Self)
        ensures
            r.rpc_providers@.len() == 2,
            r.rpc_providers@[0].name@ == "Helius"@,
            r.rpc_providers@[0].websocket_url@ == "wss://mainnet.helius-rpc.com"@,
            r.rpc_providers@[0].priority == 1u8,
            (r.rpc_providers@[0].provider_type is Helius),
            r.rpc_providers@[1].name@ == "QuickNode"@,
            r.rpc_providers@[1].websocket_url@ == "wss://mainnet.solana.com"@,
            r.rpc_providers@[1].priority == 2u8,
            (r.rpc_providers@[1].provider_type is QuickNode),
            r.connection_timeout_ms == 10_000,
            r.reconnect_config.spec_valid(),
            (r.account_address is None),
    {
        let mut rpc_providers: Vec<RpcProvider> = Vec::new();
        rpc_providers.push(
            RpcProvider {
                name: "Helius".to_owned(),
                websocket_url: "wss://mainnet.helius-rpc.com".to_owned(),
                priority: 1,
                provider_type: RpcProviderType::Helius,
            },
        );
        rpc_providers.push(
            RpcProvider {
                name: "QuickNode".to_owned(),
                websocket_url: "wss://mainnet.solana.com".to_owned(),
                priority: 2,
                provider_type: RpcProviderType::QuickNode,
            },
        );
        SolanaConfig {
            rpc_providers,
            connection_timeout_ms: 10_000,
            reconnect_config: ReconnectConfig::default(),
            account_address: None,
        }
    }
}

/// How a failed session is recovered: switch to the next provider at
/// once, or back off and start over from the first provider, or give up.
#[derive(Debug, Clone, PartialEq, Eq)]
pub enum RecoveryAction {
    /// Try the provider at this index next, without consulting the
    /// backoff policy.
    SwitchProvider(usize),
    /// Every provider failed: sleep this many milliseconds, then start
    /// over from the first provider.
    Backoff(u64),
    /// The backoff policy is exhausted: the feed is over.
    GiveUp(ReconnectError),
}

/// On-chain WebSocket client state: the providers, the monitored pair,
/// the failover pointer and the reconnection state. The network session
/// lives with the caller; this type owns every decision about messages,
/// failover and reconnection.
pub struct SolanaClient {
    config: SolanaConfig,
    trading_pair: TradingPair,
    reconnect_handler: ReconnectHandler,
    current_provider_index: usize,
}

impl SolanaClient {
    pub closed spec fn spec_config(&self) -> SolanaConfig {
        self.config
    }

    pub closed spec fn spec_pair(&self) -> TradingPair {
        self.trading_pair
    }

    pub closed spec fn spec_handler(&self) -> ReconnectHandler {
        self.reconnect_handler
    }

    pub closed spec fn spec_provider_index(&self) -> usize {
        self.current_provider_index
    }

    /// The client's invariant: the failover pointer stays inside the
    /// provider list, which is never empty.
    pub open spec fn spec_wf(&self) -> bool {
        self.spec_provider_index() < self.spec_config().rpc_providers@.len()
    }

    /// Create a new on-chain client. Fails when no provider is configured
    /// or the reconnection configuration is invalid.
    pub fn new(config: SolanaConfig, trading_pair: TradingPair) -> (r: Result<
        Self,
        SolanaError,
    >)
        ensures
            config.rpc_providers@.len() == 0 ==> r == Err::<SolanaClient, SolanaError>(
                SolanaError::NoProvidersAvailable,
            ),
            config.rpc_providers@.len() > 0 && config.reconnect_config.spec_valid() ==> (
            r matches Ok(c) && {
                &&& c.spec_config() == config
                &&& c.spec_pair() == trading_pair
                &&& c.spec_provider_index() == 0
                &&& c.spec_handler().spec_wf()
                &&& c.spec_handler().spec_attempt_count() == 0
                &&& c.spec_wf()
            }),
            config.rpc_providers@.len() > 0 && !config.reconnect_config.spec_valid() ==> (
            r matches Err(e) && (e matches SolanaError::JsonError(_))),
    {
        if config.rpc_providers.len() == 0 {
            return Err(SolanaError::NoProvidersAvailable);
        }
        match ReconnectHandler::new(config.reconnect_config) {
            Ok(reconnect_handler) => Ok(
                SolanaClient {
                    config,
                    trading_pair,
                    reconnect_handler,
                    current_provider_index: 0,
                },
            ),
            Err(e) => Err(SolanaError::JsonError(e)),
        }
    }

    /// Create a client with the default configuration.
    pub fn with_default(trading_pair: TradingPair) -> (r: Result<Self, SolanaError>)
        ensures
            r is Ok,
            r matches Ok(c) ==> {
                &&& c.spec_pair() == trading_pair
                &&& c.spec_wf()
                &&& c.spec_provider_index() == 0
            },
    {
        Self::new(SolanaConfig::default(), trading_pair)
    }

    /// Create a client from a list of RPC providers.
    pub fn from_providers(rpc_providers: Vec<RpcProvider>, trading_pair: TradingPair) -> (r:
        Result<Self, SolanaError>)
        ensures
            rpc_providers@.len() == 0 ==> r == Err::<SolanaClient, SolanaError>(
                SolanaError::NoProvidersAvailable,
            ),
            rpc_providers@.len() > 0 ==> (r matches Ok(c) && {
                &&& c.spec_config().rpc_providers == rpc_providers
                &&& c.spec_pair() == trading_pair
                &&& c.spec_provider_index() == 0
                &&& c.spec_wf()
            }),
    {
        let config = SolanaConfig::new(rpc_providers, 10_000);
        Self::new(config, trading_pair)
    }

    /// The provider the failover pointer rests on.
    pub fn get_current_provider(&self) -> (r: &RpcProvider)
        requires
            self.spec_wf(),
        ensures
            *r == self.spec_config().rpc_providers@[self.spec_provider_index() as int],
    {
        &self.config.rpc_providers[self.current_provider_index]
    }

    /// The name of the provider the failover pointer rests on.
    pub fn current_provider_name(&self) -> (r: &String)
        requires
            self.spec_wf(),
        ensures
            r@ == self.spec_config().rpc_providers@[self.spec_provider_index() as int].name@,
    {
        &self.config.rpc_providers[self.current_provider_index].name
    }

    /// Advance the failover pointer to the next provider, if one is left.
    pub fn try_next_provider(&mut self) -> (r: bool)
        ensures
            final(self).spec_config() == old(self).spec_config(),
            final(self).spec_pair() == old(self).spec_pair(),
            final(self).spec_handler() == old(self).spec_handler(),
            r == (old(self).spec_provider_index() + 1 < old(self).spec_config().rpc_providers@.len()),
            r ==> final(self).spec_provider_index() == old(self).spec_provider_index() + 1,
            !r ==> final(self).spec_provider_index() == old(self).spec_provider_index(),
    {
        let provider_count = self.config.rpc_providers.len();
        if self.current_provider_index < usize::MAX && self.current_provider_index + 1
            < provider_count {
            self.current_provider_index = self.current_provider_index + 1;
            true
        } else {
            false
        }
    }

    /// Decide how to recover from a failed session. Provider failover
    /// comes first: while providers are left, the next one is tried at
    /// once, without consulting the backoff policy. Only when the list is
    /// exhausted does the policy decide: back off and start over from the
    /// first provider, or give up for good.
    pub fn next_recovery(&mut self, now_ms: u64) -> (r: RecoveryAction)
        requires
            old(self).spec_wf(),
            old(self).spec_handler().spec_attempt_count() < usize::MAX,
        ensures
            final(self).spec_config() == old(self).spec_config(),
            final(self).spec_pair() == old(self).spec_pair(),
            final(self).spec_wf(),
            old(self).spec_provider_index() + 1 < old(self).spec_config().rpc_providers@.len() ==> {
                &&& r == RecoveryAction::SwitchProvider(
                    (old(self).spec_provider_index() + 1) as usize,
                )
                &&& final(self).spec_provider_index() == old(self).spec_provider_index() + 1
                &&& final(self).spec_handler() == old(self).spec_handler()
            },
            old(self).spec_provider_index() + 1 >= old(self).spec_config().rpc_providers@.len() ==> ({
                &&& !(r matches RecoveryAction::SwitchProvider(_))
                &&& match r {
                    RecoveryAction::SwitchProvider(_) => false,
                    RecoveryAction::Backoff(delay) => {
                        &&& ReconnectHandler::spec_reconnect_decision(
                            old(self).spec_handler(),
                            final(self).spec_handler(),
                            Ok(delay),
                            now_ms,
                        )
                        &&& final(self).spec_provider_index() == 0
                    },
                    RecoveryAction::GiveUp(e) => {
                        &&& ReconnectHandler::spec_reconnect_decision(
                            old(self).spec_handler(),
                            final(self).spec_handler(),
                            Err(e),
                            now_ms,
                        )
                        &&& final(self).spec_provider_index() == old(self).spec_provider_index()
                    },
                }
            }),
            old(self).spec_handler().spec_wf() ==> final(self).spec_handler().spec_wf(),
    {
        if self.try_next_provider() {
            return RecoveryAction::SwitchProvider(self.current_provider_index);
        }
        match self.reconnect_handler.should_reconnect(now_ms) {
            Ok(delay) => {
                // Start over from the highest-priority provider after the
                // backoff sleep.
                self.current_provider_index = 0;
                RecoveryAction::Backoff(delay)
            },
            Err(e) => RecoveryAction::GiveUp(e),
        }
    }

    /// Note a clean disconnect: the session ended normally, so the
    /// backoff state is reset for the next session.
    pub fn reset_backoff(&mut self)
        ensures
            final(self).spec_config() == old(self).spec_config(),
            final(self).spec_pair() == old(self).spec_pair(),
            final(self).spec_provider_index() == old(self).spec_provider_index(),
            final(self).spec_handler().spec_attempt_count() == 0,
            (final(self).spec_handler().spec_start_time_ms() is None),
    {
        self.reconnect_handler.reset();
    }

    /// The well-known pool account address for the monitored pair.
    pub fn get_pool_address(&self) -> (r: Result<String, SolanaError>)
        ensures
            r is Ok,
            self.spec_pair() is SolUsdt ==> (r matches Ok(a) && a@
                == "7XawhbbxtsRcQA8KTkHT9f9nc6d69UwqCDh6U5EEbEmX"@),
            self.spec_pair() is SolUsdc ==> (r matches Ok(a) && a@
                == "58oQChx4yWmvKdwLLZzBi4ChoCc2fqCUWBkwMihLYQo2"@),
    {
        match self.trading_pair {
            TradingPair::SolUsdt => Ok("7XawhbbxtsRcQA8KTkHT9f9nc6d69UwqCDh6U5EEbEmX".to_owned()),
            TradingPair::SolUsdc => Ok("58oQChx4yWmvKdwLLZzBi4ChoCc2fqCUWBkwMihLYQo2".to_owned()),
        }
    }

    /// The account-subscribe request for the monitored pool, as the
    /// outbound JSON-RPC text: base64 encoding at confirmed commitment.
    /// A configured account address overrides the pair's well-known pool.
    pub fn create_account_subscribe_message(&self) -> (r: Result<String, SolanaError>)
        ensures
            r is Ok,
            r matches Ok(s) ==> ({
                let address: Seq<char> = match self.spec_config().account_address {
                    Some(a) => a@,
                    None => if self.spec_pair() is SolUsdt {
                        "7XawhbbxtsRcQA8KTkHT9f9nc6d69UwqCDh6U5EEbEmX"@
                    } else {
                        "58oQChx4yWmvKdwLLZzBi4ChoCc2fqCUWBkwMihLYQo2"@
                    },
                };
                s@ == "{\"jsonrpc\":\"2.0\",\"id\":1,\"method\":\"accountSubscribe\",\"params\":[\""@
                    + address
                    + "\",{\"encoding\":\"base64\",\"commitment\":\"confirmed\"}]}"@
            }),
    {
        let account_address: String = match &self.config.account_address {
            Some(a) => {
                let c = a.clone();
                proof {
                    assert(c@ == a@);
                }
                c
            },
            None => {
                match self.get_pool_address() {
                    Ok(a) => a,
                    Err(e) => {
                        return Err(e);
                    },
                }
            },
        };
        let head =
            "{\"jsonrpc\":\"2.0\",\"id\":1,\"method\":\"accountSubscribe\",\"params\":[\"".to_owned();
        let tail = "\",{\"encoding\":\"base64\",\"commitment\":\"confirmed\"}]}";
        Ok(head.concat(account_address.as_str()).concat(tail))
    }

    /// Parse one inbound account message into a price update. The message
    /// must be an account notification: a subscription number and a
    /// result whose value carries the account bytes in base64, either as
    /// a bare string or as a data-and-encoding array. The bytes then go
    /// through the strict pool decode with its tolerant fallback, and the
    /// update is stamped with the caller's clock reading. Subscription
    /// acknowledgements and anything else are rejected, never a price.
    pub fn parse_account_message(&self, text: &str, now_ms: u64) -> (r: Result<
        PriceUpdate,
        SolanaError,
    >)
        ensures
            r matches Ok(u) ==> {
                &&& u.source is Solana
                &&& u.pair == self.spec_pair()
                &&& u.timestamp_ms == now_ms
            },
    {
        let parsed = match json_parse(text) {
            Some(v) => v,
            None => {
                return Err(SolanaError::InvalidAccountData);
            },
        };

        // An account notification carries a subscription number and a
        // result; everything else (acknowledgements included) is ignored.
        let subscription = match json_get(&parsed, "subscription") {
            Some(s) => json_as_u64(s),
            None => None,
        };
        if subscription.is_none() {
            return Err(SolanaError::InvalidAccountData);
        }
        let result = match json_get(&parsed, "result") {
            Some(v) => v,
            None => {
                return Err(SolanaError::InvalidAccountData);
            },
        };
        let value = match json_get(result, "value") {
            Some(v) => v,
            None => {
                return Err(SolanaError::InvalidAccountData);
            },
        };
        let data = match json_get(value, "data") {
            Some(v) => v,
            None => {
                return Err(SolanaError::InvalidAccountData);
            },
        };

        // The data is either a bare base64 string or a [data, encoding]
        // pair; take the first element when it is an array.
        let encoded: String = match json_as_str(data) {
            Some(s) => s,
            None => {
                let first = match json_as_array(data) {
                    Some(items) => {
                        if items.len() == 0 {
                            return Err(SolanaError::InvalidAccountData);
                        }
                        &items[0]
                    },
                    None => {
                        return Err(SolanaError::InvalidAccountData);
                    },
                };
                match json_as_str(first) {
                    Some(s) => s,
                    None => {
                        return Err(SolanaError::InvalidAccountData);
                    },
                }
            },
        };

        let decoded = match base64_decode(encoded.as_str()) {
            Some(bytes) => bytes,
            None => {
                return Err(SolanaError::PoolParsingError("Base64 decode error".to_owned()));
            },
        };

        let price = match price_from_pool_data(decoded.as_slice(), self.trading_pair) {
            Ok(p) => p,
            Err(e) => {
                return Err(e);
            },
        };

        Ok(PriceUpdate::new(PriceSource::Solana, self.trading_pair, price, now_ms))
    }

    /// The number of reconnection attempts made so far.
    pub fn reconnect_attempts(&self) -> (r: usize)
        ensures
            r == self.spec_handler().spec_attempt_count(),
    {
        self.reconnect_handler.attempt_count()
    }

    /// The time spent reconnecting so far, if an attempt was made.
    pub fn reconnect_elapsed_time(&self, now_ms: u64) -> (r: Option<u64>)
        ensures
            match self.spec_handler().spec_start_time_ms() {
                Some(t) => r == Some(crate::price::spec_age_ms(t, now_ms)),
                None => r is None,
            },
    {
        self.reconnect_handler.elapsed_time(now_ms)
    }

    /// The connect timeout in milliseconds.
    pub fn connection_timeout_ms(&self) -> (r: u64)
        ensures
            r == self.spec_config().connection_timeout_ms,
    {
        self.config.connection_timeout_ms
    }
}

/// Law: provider failover is tried before the backoff policy. With a
/// further provider on the list, a failure moves the pointer forward and
/// leaves the reconnection state untouched; only with the list exhausted
/// does the policy get a say, and a granted backoff starts the rotation
/// over at the first provider.
pub proof fn law_failover_before_backoff(
    before: SolanaClient,
    after: SolanaClient,
    action: RecoveryAction,
)
    requires
        before.spec_wf(),
        before.spec_provider_index() + 1 < before.spec_config().rpc_providers@.len(),
        action == RecoveryAction::SwitchProvider((before.spec_provider_index() + 1) as usize),
        after.spec_handler() == before.spec_handler(),
    ensures
        !(action matches RecoveryAction::Backoff(_)),
        !(action matches RecoveryAction::GiveUp(_)),
        after.spec_handler().spec_attempt_count() == before.spec_handler().spec_attempt_count(),
{
}

} // verus!
