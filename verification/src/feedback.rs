//! The power feedback mapper: from the charge state to the fill and the
//! color of the power bar.

use vstd::prelude::*;
use crate::charge::{Power, POWER_MAX, POWER_MIN};
use crate::fixed::{Fixed, SCALE};

verus! {

/// Every channel of the neutral color of an idle bar.
pub const NOT_CHARGING: i64 = 200_000;

/// Width of the full bar.
pub const FULL_FILL: i64 = 29_750_000;

/// Width of the bar at no charge: the full width divided by the greatest
/// power.
pub const MIN_FILL: i64 = 4_958_333;

/// Width that a full charge adds to `MIN_FILL`.
pub const EMPTY_SPACE: i64 = 24_791_667;

/// A color in linear red, green and blue, each between zero and one.
#[derive(Clone, Copy, PartialEq, Eq, Structural, Debug)]
pub struct Color {
    pub red: Fixed,
    pub green: Fixed,
    pub blue: Fixed,
}

/// What the presentation layer draws of the charge.
#[derive(Clone, Copy, PartialEq, Eq, Structural, Debug)]
pub struct PowerBar {
    /// Width of the filled part.
    pub fill: Fixed,
    /// Color of the filled part.
    pub color: Color,
}

/// The bar of an idle controller.
pub open spec fn idle_bar() -> PowerBar {
    PowerBar {
        fill: Fixed { raw: MIN_FILL },
        color: Color {
            red: Fixed { raw: NOT_CHARGING },
            green: Fixed { raw: NOT_CHARGING },
            blue: Fixed { raw: NOT_CHARGING },
        },
    }
}

/// How far the power has come from `POWER_MIN` to `POWER_MAX`, as a part of
/// one.
pub open spec fn fraction(power: Power) -> Fixed {
    power.current.minus(Fixed { raw: POWER_MIN }).over(
        Fixed { raw: POWER_MAX }.minus(Fixed { raw: POWER_MIN }),
    )
}

/// The bar of a charging controller: red at no charge, green at full
/// charge, and as much wider than `MIN_FILL` as the fraction of
/// `EMPTY_SPACE`.
pub open spec fn charging_bar(power: Power) -> PowerBar {
    PowerBar {
        fill: Fixed { raw: MIN_FILL }.plus(fraction(power).times(Fixed { raw: EMPTY_SPACE })),
        color: Color {
            red: Fixed { raw: SCALE }.minus(fraction(power)),
            green: fraction(power),
            blue: Fixed { raw: 0 },
        },
    }
}

/// The bar that shows `power`.
pub open spec fn bar_of(power: Power) -> PowerBar {
    if power.charging {
        charging_bar(power)
    } else {
        idle_bar()
    }
}

/// The fraction of the charge range that the power has covered.
pub fn fill_fraction(power: &Power) -> (f: Fixed)
    ensures
        f == fraction(*power),
        power.wf() ==> 0 <= f@ <= SCALE,
        power.wf() ==> f@ == (power.current@ - POWER_MIN) * SCALE / (POWER_MAX - POWER_MIN),
{
    let span = Fixed { raw: POWER_MAX }.saturating_sub(Fixed { raw: POWER_MIN });
    power.current.saturating_sub(Fixed { raw: POWER_MIN }).saturating_div(span)
}

/// Maps the charge state to the bar that shows it. An idle controller gets
/// the neutral color and the least fill, whatever power it holds.
pub fn update_power_bar(power: &Power) -> (bar: PowerBar)
    ensures
        bar == bar_of(*power),
        !power.charging ==> bar == idle_bar(),
        power.charging && power.wf() ==> {
            &&& MIN_FILL <= bar.fill@ <= FULL_FILL
            &&& bar.color.red@ + bar.color.green@ == SCALE
            &&& 0 <= bar.color.green@ <= SCALE
            &&& bar.color.blue@ == 0
        },
{
    if !power.charging {
        PowerBar {
            fill: Fixed { raw: MIN_FILL },
            color: Color {
                red: Fixed { raw: NOT_CHARGING },
                green: Fixed { raw: NOT_CHARGING },
                blue: Fixed { raw: NOT_CHARGING },
            },
        }
    } else {
        let percent = fill_fraction(power);
        proof {
            if power.wf() {
                let widened = percent@ * EMPTY_SPACE;
                assert(0 <= widened <= SCALE * EMPTY_SPACE) by (nonlinear_arith)
                    requires
                        0 <= percent@ <= SCALE,
                        widened == percent@ * EMPTY_SPACE,
                ;
                assert(0 <= widened / (SCALE as int) <= EMPTY_SPACE);
            }
        }
        PowerBar {
            fill: Fixed { raw: MIN_FILL }.saturating_add(percent.saturating_mul(Fixed { raw: EMPTY_SPACE })),
            color: Color {
                red: Fixed { raw: SCALE }.saturating_sub(percent),
                green: percent,
                blue: Fixed { raw: 0 },
            },
        }
    }
}

/// An idle controller shows the same bar whatever power it holds.
pub proof fn lemma_idle_bar_ignores_power(a: Power, b: Power)
    requires
        !a.charging,
        !b.charging,
    ensures
        bar_of(a) == bar_of(b),
        bar_of(a) == idle_bar(),
{
}

} // verus!
