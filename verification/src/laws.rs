//! What holds of the curve whatever its state: laws over the specification
//! functions that the contracts of the operations are stated in.

use vstd::prelude::*;
use crate::arith::{lemma_quotient_times_divisor, lemma_share_bounded, lemma_share_monotonic};
use crate::constants::VOLUME_WINDOW;
use crate::contexts::global::Global;
use crate::curve::{BondingCurve, CurveState};
use crate::errors::HypeBondError;
use crate::instructions::buy::buy_result;
use crate::instructions::sell::sell_result;

verus! {

/// With an end price that does not exceed the start price, the discovery
/// price stays between the two at every time.
pub proof fn lemma_discovery_price_bounded(curve: BondingCurve, now: i64)
    requires
        curve.discovery_end_price <= curve.discovery_start_price,
    ensures
        curve.discovery_end_price <= curve.discovery_price(now) <= curve.discovery_start_price,
{
    if !curve.discovery_over(now) && curve.elapsed(now) > 0 {
        lemma_share_bounded(curve.price_range(), curve.elapsed(now), curve.discovery_duration as int);
    }
}

/// With an end price that does not exceed the start price, the discovery
/// price never rises as time goes on.
pub proof fn lemma_discovery_price_non_increasing(curve: BondingCurve, earlier: i64, later: i64)
    requires
        curve.discovery_end_price <= curve.discovery_start_price,
        earlier <= later,
    ensures
        curve.discovery_price(later) <= curve.discovery_price(earlier),
{
    lemma_discovery_price_bounded(curve, earlier);
    lemma_discovery_price_bounded(curve, later);
    if !curve.discovery_over(later) && curve.elapsed(earlier) > 0 {
        lemma_share_monotonic(
            curve.price_range(),
            curve.elapsed(earlier),
            curve.elapsed(later),
            curve.discovery_duration as int,
        );
    }
}

/// Once the elapsed time has reached the duration, the discovery price is
/// the end price.
pub proof fn lemma_discovery_price_ends_at_end_price(curve: BondingCurve, now: i64)
    requires
        now - curve.discovery_start_time >= curve.discovery_duration,
    ensures
        curve.discovery_price(now) == curve.discovery_end_price,
{
}

/// The phase check changes nothing when it is repeated at the same time,
/// and a curve in the constant-product phase is left as it is at any time:
/// the transition happens once and is never undone.
pub proof fn lemma_advance_idempotent(curve: BondingCurve, now: i64, later: i64)
    ensures
        curve.advance_result(now) matches Ok(next) ==> {
            &&& next.advance_result(now) == Ok::<BondingCurve, HypeBondError>(next)
            &&& next.curve_state == CurveState::BondingCurve ==> next.advance_result(later) == Ok::<
                BondingCurve,
                HypeBondError,
            >(next)
            &&& curve.curve_state == CurveState::BondingCurve ==> next == curve
        },
        curve.advance_result(now) is Err ==> curve.advance_result(now) == Err::<
            BondingCurve,
            HypeBondError,
        >(HypeBondError::MathOverflow),
{
}

/// Once a curve is in the constant-product phase, neither a settlement nor
/// a volume record nor a whole purchase or sale takes it back to discovery.
pub proof fn lemma_phase_never_reverts(
    curve: BondingCurve,
    global: Global,
    amount: u64,
    sol_amount: u64,
    is_buy: bool,
    sol_limit: u64,
    now: i64,
)
    requires
        curve.curve_state == CurveState::BondingCurve,
    ensures
        curve.settle_result(amount, sol_amount, is_buy) matches Ok(next) ==> next.curve_state
            == CurveState::BondingCurve,
        curve.with_volume(amount, now).curve_state == CurveState::BondingCurve,
        buy_result(curve, global, amount, sol_limit, now) matches Ok(outcome) ==> outcome.0.curve_state
            == CurveState::BondingCurve,
        sell_result(curve, global, amount, sol_limit, now) matches Ok(outcome) ==> outcome.0.curve_state
            == CurveState::BondingCurve,
{
}

/// A trade recorded more than a window after an earlier one, and more than
/// a window after the start of the window that the earlier one found, starts
/// the window again: the volume is the later amount alone and the window
/// starts at the later time.
pub proof fn lemma_volume_resets_after_window(
    curve: BondingCurve,
    first_amount: u64,
    first_time: i64,
    second_amount: u64,
    second_time: i64,
)
    requires
        second_time - first_time > VOLUME_WINDOW,
        second_time - curve.last_hour_timestamp > VOLUME_WINDOW,
    ensures
        curve.with_volume(first_amount, first_time).with_volume(second_amount, second_time).last_hour_volume
            == second_amount,
        curve.with_volume(first_amount, first_time).with_volume(second_amount, second_time).last_hour_timestamp
            == second_time,
{
}

/// The start of the volume window never moves back.
pub proof fn lemma_volume_window_moves_forward(curve: BondingCurve, amount: u64, now: i64)
    ensures
        curve.with_volume(amount, now).last_hour_timestamp >= curve.last_hour_timestamp,
{
}

/// A settlement never takes the product of the virtual reserves out of
/// the 64-bit range. A product that fits before a settlement fits after it;
/// in the constant-product phase a settlement succeeds only where the product
/// fits both before and after; and a settlement that fails reports
/// `MathOverflow`.
pub proof fn lemma_settle_keeps_product_in_range(
    curve: BondingCurve,
    token_amount: u64,
    sol_amount: u64,
    is_buy: bool,
)
    ensures
        curve.settle_result(token_amount, sol_amount, is_buy) matches Ok(next) ==> {
            &&& curve.constant_product() <= u64::MAX ==> next.constant_product() <= u64::MAX
            &&& curve.curve_state == CurveState::BondingCurve ==> curve.constant_product() <= u64::MAX
                && next.constant_product() <= u64::MAX
            &&& curve.curve_state == CurveState::PriceDiscovery ==> next.constant_product()
                == curve.constant_product()
        },
        curve.settle_result(token_amount, sol_amount, is_buy) matches Err(e) ==> e
            == HypeBondError::MathOverflow,
{
}

/// A whole purchase or sale never takes the product of the virtual reserves
/// out of the 64-bit range: a product that fits before the trade fits after
/// it, and a curve that the trade leaves in the constant-product phase has a
/// product that fits.
pub proof fn lemma_trade_keeps_product_in_range(
    curve: BondingCurve,
    global: Global,
    amount: u64,
    sol_limit: u64,
    now: i64,
)
    ensures
        buy_result(curve, global, amount, sol_limit, now) matches Ok(outcome) ==> {
            &&& curve.constant_product() <= u64::MAX ==> outcome.0.constant_product() <= u64::MAX
            &&& outcome.0.curve_state == CurveState::BondingCurve ==> outcome.0.constant_product()
                <= u64::MAX
        },
        sell_result(curve, global, amount, sol_limit, now) matches Ok(outcome) ==> {
            &&& curve.constant_product() <= u64::MAX ==> outcome.0.constant_product() <= u64::MAX
            &&& outcome.0.curve_state == CurveState::BondingCurve ==> outcome.0.constant_product()
                <= u64::MAX
        },
{
}

/// In the constant-product phase, a trade settled at its base price, or at
/// a price further from it in the direction of the protections (a buy that
/// pays at least the base price, a sell that returns at most the base price),
/// does not raise the product of the virtual reserves.
pub proof fn lemma_settle_at_base_price_does_not_raise_product(
    curve: BondingCurve,
    token_amount: u64,
    sol_amount: u64,
    is_buy: bool,
)
    requires
        curve.curve_state == CurveState::BondingCurve,
        curve.base_price(token_amount, is_buy) matches Ok(base) && (if is_buy {
            sol_amount >= base
        } else {
            sol_amount <= base
        }),
        curve.settle_result(token_amount, sol_amount, is_buy) is Ok,
    ensures
        curve.settle_result(token_amount, sol_amount, is_buy)->Ok_0.constant_product()
            <= curve.constant_product(),
{
    let next = curve.settle_result(token_amount, sol_amount, is_buy)->Ok_0;
    let k = curve.constant_product();
    let after = curve.token_reserve_after(token_amount, is_buy);
    curve.lemma_sol_reserve_after(token_amount, is_buy);
    assert(next.virtual_token_reserves == after);
    assert(0 <= next.virtual_sol_reserves <= k / after);
    lemma_quotient_times_divisor(k, after);
    assert(after * next.virtual_sol_reserves <= after * (k / after)) by (nonlinear_arith)
        requires
            0 <= after,
            0 <= next.virtual_sol_reserves <= k / after,
    ;
}

} // verus!
