//! Clock-tree plans for the two boards, as plain numbers. The firmware turns
//! a plan into the HAL's configuration; the laws below check the documented
//! frequencies against the dividers and multipliers of each plan.

use vstd::prelude::*;

verus! {

/// A PLL: input divider, multiplier, and the optional dividers of its P, Q
/// and R outputs.
#[derive(Clone, Copy, Debug, PartialEq, Eq, Structural)]
pub struct PllPlan {
    pub prediv: u32,
    pub mul: u32,
    pub divp: Option<u32>,
    pub divq: Option<u32>,
    pub divr: Option<u32>,
}

/// The frequency of a PLL output fed from `source_hz`:
/// `source / prediv * mul / div`, or `None` when that output is disabled.
pub open spec fn pll_output_hz(source_hz: int, pll: PllPlan, div: Option<u32>) -> Option<int> {
    match div {
        Some(d) => Some(source_hz / pll.prediv as int * pll.mul as int / d as int),
        None => None,
    }
}

/// Clock plan of the STM32F411 BlackPill: the 25 MHz crystal (HSE in
/// oscillator mode) feeds the main PLL, whose P output drives SYSCLK and
/// whose Q output drives USB; the internal HSI is switched off.
#[derive(Clone, Copy, Debug, PartialEq, Eq, Structural)]
pub struct F411ClockPlan {
    pub hse_hz: u32,
    /// HSE driven by an external clock (bypass) rather than by the crystal.
    pub hse_bypass: bool,
    pub hsi_enabled: bool,
    /// The main PLL takes its input from HSE (otherwise from HSI).
    pub pll_from_hse: bool,
    pub pll: PllPlan,
    /// SYSCLK comes from the main PLL's P output (otherwise from HSI).
    pub sysclk_from_pll_p: bool,
    pub ahb_div: u32,
    pub apb1_div: u32,
    pub apb2_div: u32,
}

/// The F411 plan: HSE 25 MHz crystal in oscillator mode, feeding the PLL, /25 to 1 MHz, x192 to a 192 MHz VCO, P /2 for
/// a 96 MHz SYSCLK, Q /4 for the 48 MHz USB clock; AHB /1, APB1 /2, APB2 /1.
pub open spec fn f411_plan_spec() -> F411ClockPlan {
    F411ClockPlan {
        hse_hz: 25_000_000,
        hse_bypass: false,
        hsi_enabled: false,
        pll_from_hse: true,
        pll: PllPlan { prediv: 25, mul: 192, divp: Some(2), divq: Some(4), divr: None },
        sysclk_from_pll_p: true,
        ahb_div: 1,
        apb1_div: 2,
        apb2_div: 1,
    }
}

/// Build the F411 clock plan.
pub fn f411_clock_config() -> (c: F411ClockPlan)
    ensures
        c == f411_plan_spec(),
{
    F411ClockPlan {
        hse_hz: 25_000_000,
        hse_bypass: false,
        hsi_enabled: false,
        pll_from_hse: true,
        pll: PllPlan { prediv: 25, mul: 192, divp: Some(2), divq: Some(4), divr: None },
        sysclk_from_pll_p: true,
        ahb_div: 1,
        apb1_div: 2,
        apb2_div: 1,
    }
}

/// SYSCLK of an F411 plan whose PLL runs from HSE and drives SYSCLK: the
/// PLL's P output.
pub open spec fn f411_sysclk_hz(c: F411ClockPlan) -> Option<int> {
    if c.pll_from_hse && c.sysclk_from_pll_p {
        pll_output_hz(c.hse_hz as int, c.pll, c.pll.divp)
    } else {
        None
    }
}

/// The timer clock of an APB bus: the bus clock itself when the bus is not
/// divided, twice the bus clock otherwise.
pub open spec fn apb_timer_hz(hclk: int, apb_div: int) -> int {
    if apb_div == 1 {
        hclk
    } else {
        hclk / apb_div * 2
    }
}

/// The F411 plan gives the documented clock tree: the 25 MHz crystal in
/// oscillator mode as the only oscillator (HSI off), feeding the PLL, whose P
/// output is SYSCLK; a 1 MHz PLL input, a
/// 192 MHz VCO, 96 MHz SYSCLK and HCLK, 48 MHz USB, PCLK1 48 MHz with its
/// timers (TIM2..5) at 96 MHz, and PCLK2 96 MHz with its timers (TIM1, 9,
/// 10, 11) at 96 MHz.
pub proof fn law_f411_clock_tree()
    ensures
        ({
            let c = f411_plan_spec();
            let hclk = f411_sysclk_hz(c).unwrap() / c.ahb_div as int;
            &&& c.hse_hz == 25_000_000
            &&& !c.hse_bypass
            &&& !c.hsi_enabled
            &&& c.pll_from_hse
            &&& c.sysclk_from_pll_p
            &&& c.hse_hz as int / c.pll.prediv as int == 1_000_000
            &&& c.hse_hz as int / c.pll.prediv as int * c.pll.mul as int == 192_000_000
            &&& f411_sysclk_hz(c) == Some(96_000_000int)
            &&& pll_output_hz(c.hse_hz as int, c.pll, c.pll.divq) == Some(48_000_000int)
            &&& hclk == 96_000_000
            &&& hclk / c.apb1_div as int == 48_000_000
            &&& apb_timer_hz(hclk, c.apb1_div as int) == 96_000_000
            &&& hclk / c.apb2_div as int == 96_000_000
            &&& apb_timer_hz(hclk, c.apb2_div as int) == 96_000_000
        }),
{
}

/// Clock plan of the NUCLEO-H743ZI2: SYSCLK stays on the HAL's default
/// internal oscillator, while USB takes its 48 MHz from PLL3's Q output fed
/// by the 8 MHz clock that the on-board ST-LINK provides (HSE in bypass
/// mode); the HSI48 oscillator is switched off.
#[derive(Clone, Copy, Debug, PartialEq, Eq, Structural)]
pub struct H743ClockPlan {
    pub hse_hz: u32,
    pub hse_bypass: bool,
    pub hsi48_enabled: bool,
    /// PLL3 takes its input from HSE.
    pub pll3_from_hse: bool,
    pub pll3: PllPlan,
    /// The USB kernel clock comes from PLL3's Q output.
    pub usb_from_pll3_q: bool,
}

/// The H743 plan: HSE 8 MHz bypass, PLL3 /2, x120, Q /10, P and R off.
pub open spec fn h743_plan_spec() -> H743ClockPlan {
    H743ClockPlan {
        hse_hz: 8_000_000,
        hse_bypass: true,
        hsi48_enabled: false,
        pll3_from_hse: true,
        pll3: PllPlan { prediv: 2, mul: 120, divp: None, divq: Some(10), divr: None },
        usb_from_pll3_q: true,
    }
}

/// Build the H743 clock plan.
pub fn h743_clock_config() -> (c: H743ClockPlan)
    ensures
        c == h743_plan_spec(),
{
    H743ClockPlan {
        hse_hz: 8_000_000,
        hse_bypass: true,
        hsi48_enabled: false,
        pll3_from_hse: true,
        pll3: PllPlan { prediv: 2, mul: 120, divp: None, divq: Some(10), divr: None },
        usb_from_pll3_q: true,
    }
}

/// The H743 plan derives USB's exact 48 MHz from PLL3 Q, fed by the 8 MHz
/// ST-LINK clock on HSE in bypass mode (a 480 MHz VCO from a 4 MHz input),
/// with PLL3's P and R outputs disabled and HSI48 off.
pub proof fn law_h743_usb_clock()
    ensures
        ({
            let c = h743_plan_spec();
            &&& c.hse_hz == 8_000_000
            &&& c.hse_bypass
            &&& !c.hsi48_enabled
            &&& c.pll3_from_hse
            &&& c.usb_from_pll3_q
            &&& c.hse_hz as int / c.pll3.prediv as int * c.pll3.mul as int == 480_000_000
            &&& pll_output_hz(c.hse_hz as int, c.pll3, c.pll3.divq) == Some(48_000_000int)
            &&& pll_output_hz(c.hse_hz as int, c.pll3, c.pll3.divp) is None
            &&& pll_output_hz(c.hse_hz as int, c.pll3, c.pll3.divr) is None
        }),
{
}

} // verus!
