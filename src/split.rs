use vstd::prelude::*;

verus! {

/// The number of atomic units in one whole `Decimal`.
pub const DECIMAL_FRACTIONAL: u128 = 1_000_000_000_000_000_000;

/// A non-negative fixed-point rate with 18 fractional digits.
#[derive(Clone, Copy, Debug, PartialEq, Eq, Structural)]
pub struct Decimal {
    pub atomics: u128,
}

impl Decimal {
    /// The rate with the given number of atomic units (10^-18 each).
    pub fn raw(atomics: u128) -> (r: Decimal)
        ensures
            r.atomics == atomics,
    {
        Decimal { atomics }
    }

    /// `x` percent.
    pub fn percent(x: u64) -> (r: Decimal)
        ensures
            r.atomics == x * 10_000_000_000_000_000,
    {
        assert(x * 10_000_000_000_000_000u128 <= u128::MAX) by (nonlinear_arith)
            requires
                x <= u64::MAX,
        ;
        Decimal { atomics: (x as u128) * 10_000_000_000_000_000 }
    }

    /// `x` per mille.
    pub fn permille(x: u64) -> (r: Decimal)
        ensures
            r.atomics == x * 1_000_000_000_000_000,
    {
        assert(x * 1_000_000_000_000_000u128 <= u128::MAX) by (nonlinear_arith)
            requires
                x <= u64::MAX,
        ;
        Decimal { atomics: (x as u128) * 1_000_000_000_000_000 }
    }

    /// Whether the rate is at most one whole.
    pub fn is_at_most_one(&self) -> (r: bool)
        ensures
            r == (self.atomics <= DECIMAL_FRACTIONAL),
    {
        self.atomics <= DECIMAL_FRACTIONAL
    }
}

/// `amount` times the rate with `atomics` atomic units, rounded down.
pub open spec fn mul_floor(amount: u128, atomics: u128) -> int {
    (amount * atomics) / (DECIMAL_FRACTIONAL as int)
}

/// Relies on cosmwasm_std's `Uint128 * Decimal`, which is
/// `amount.multiply_ratio(atomics, 10^18)`: the full product divided by
/// 10^18, rounded down; it panics when the quotient does not fit in 128 bits.
#[verifier::external_body]
fn decimal_mul(amount: u128, atomics: u128) -> (r: u128)
    requires
        mul_floor(amount, atomics) <= u128::MAX,
    ensures
        r == mul_floor(amount, atomics),
{
    (cosmwasm_std::Uint128::new(amount) * cosmwasm_std::Decimal::raw(atomics)).u128()
}

/// A rate of at most one applied to an amount gives at most that amount.
proof fn lemma_mul_floor_bounded(amount: u128, atomics: u128)
    requires
        atomics <= DECIMAL_FRACTIONAL,
    ensures
        0 <= mul_floor(amount, atomics) <= amount,
{
    assert(amount * atomics <= amount * DECIMAL_FRACTIONAL) by (nonlinear_arith)
        requires
            atomics <= DECIMAL_FRACTIONAL,
    ;
    assert((amount * atomics) / (DECIMAL_FRACTIONAL as int) <= amount) by (nonlinear_arith)
        requires
            amount * atomics <= amount * DECIMAL_FRACTIONAL,
            DECIMAL_FRACTIONAL > 0,
    ;
    assert(0 <= (amount * atomics) / (DECIMAL_FRACTIONAL as int)) by (nonlinear_arith)
        requires
            DECIMAL_FRACTIONAL > 0,
    ;
}

/// `amount` scaled by `rate`, rounded toward zero; rates above one are out
/// of the domain.
pub fn apply_rate(amount: u128, rate: Decimal) -> (r: u128)
    requires
        rate.atomics <= DECIMAL_FRACTIONAL,
    ensures
        r == mul_floor(amount, rate.atomics),
        r <= amount,
{
    proof {
        lemma_mul_floor_bounded(amount, rate.atomics);
    }
    decimal_mul(amount, rate.atomics)
}

/// How a sale price is shared out.
#[derive(Clone, Copy, Debug, PartialEq, Eq, Structural)]
pub struct FeeSplit {
    pub marketplace_fee: u128,
    pub royalty_fee: u128,
    pub seller_payout: u128,
}

/// The fees together exceed the price.
#[derive(Clone, Copy, Debug, PartialEq, Eq, Structural)]
pub struct ArithmeticError;

/// The royalty fee for a rate that may be absent.
pub open spec fn royalty_of(price: u128, royalty_rate: Option<Decimal>) -> int {
    match royalty_rate {
        Some(r) => mul_floor(price, r.atomics),
        None => 0,
    }
}

/// The split of `price` under `fee_rate` and `royalty_rate`, or `None` when
/// the two fees together exceed the price.
pub open spec fn split_of(price: u128, fee_rate: Decimal, royalty_rate: Option<Decimal>) -> Option<
    FeeSplit,
> {
    let fee = mul_floor(price, fee_rate.atomics);
    let royalty = royalty_of(price, royalty_rate);
    if fee + royalty <= price {
        Some(
            FeeSplit {
                marketplace_fee: fee as u128,
                royalty_fee: royalty as u128,
                seller_payout: (price - fee - royalty) as u128,
            },
        )
    } else {
        None
    }
}

/// Whether a rate lies in [0, 1].
pub open spec fn valid_rate(rate: Decimal) -> bool {
    rate.atomics <= DECIMAL_FRACTIONAL
}

/// Splits a sale price into the marketplace fee, the royalty fee and the
/// seller's payout; the payout is what remains, so nothing is lost to rounding.
pub fn split_sale(price: u128, fee_rate: Decimal, royalty_rate: Option<Decimal>) -> (r: Result<
    FeeSplit,
    ArithmeticError,
>)
    requires
        valid_rate(fee_rate),
        royalty_rate matches Some(rr) ==> valid_rate(rr),
    ensures
        r matches Ok(s) ==> split_of(price, fee_rate, royalty_rate) == Some(s),
        r is Err ==> split_of(price, fee_rate, royalty_rate) is None,
{
    let fee = apply_rate(price, fee_rate);
    let royalty = match royalty_rate {
        Some(rr) => apply_rate(price, rr),
        None => 0,
    };
    if royalty > price - fee {
        return Err(ArithmeticError);
    }
    Ok(FeeSplit { marketplace_fee: fee, royalty_fee: royalty, seller_payout: price - fee - royalty })
}

/// Fund split conservation: for a price and rates in [0, 1] whose fees fit in
/// the price, the marketplace fee, the royalty fee and the seller's payout
/// add up to the price exactly, each fee being the price times its rate
/// rounded down.
pub proof fn law_split_conserves(price: u128, fee_rate: Decimal, royalty_rate: Option<Decimal>)
    requires
        valid_rate(fee_rate),
        royalty_rate matches Some(rr) ==> valid_rate(rr),
        split_of(price, fee_rate, royalty_rate) is Some,
    ensures
        ({
            let s = split_of(price, fee_rate, royalty_rate)->Some_0;
            &&& s.marketplace_fee + s.royalty_fee + s.seller_payout == price
            &&& s.marketplace_fee == mul_floor(price, fee_rate.atomics)
            &&& s.royalty_fee == royalty_of(price, royalty_rate)
        }),
{
    lemma_mul_floor_bounded(price, fee_rate.atomics);
    if let Some(rr) = royalty_rate {
        lemma_mul_floor_bounded(price, rr.atomics);
    }
}

/// When the two rates sum to at most one, the fees always fit in the price.
pub proof fn law_split_defined(price: u128, fee_rate: Decimal, royalty_rate: Decimal)
    requires
        fee_rate.atomics + royalty_rate.atomics <= DECIMAL_FRACTIONAL,
    ensures
        split_of(price, fee_rate, Some(royalty_rate)) is Some,
{
    let f = fee_rate.atomics as int;
    let r = royalty_rate.atomics as int;
    let p = price as int;
    let d = DECIMAL_FRACTIONAL as int;
    assert((p * f) / d + (p * r) / d <= (p * f + p * r) / d) by (nonlinear_arith)
        requires
            d > 0,
            p >= 0,
            f >= 0,
            r >= 0,
    ;
    assert(p * f + p * r <= p * d) by (nonlinear_arith)
        requires
            f + r <= d,
            p >= 0,
    ;
    assert((p * f + p * r) / d <= p) by (nonlinear_arith)
        requires
            p * f + p * r <= p * d,
            d > 0,
    ;
}

} // verus!
