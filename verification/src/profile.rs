//! Target clock profiles: PLL coefficients, voltage scaling, flash latency
//! and bus prescalers for one chip.

use vstd::prelude::*;

verus! {

/// Division of the VCO output that yields the system clock (PLLP).
#[derive(Clone, Copy, Debug, PartialEq, Eq, Structural)]
pub enum PllSysDiv {
    Div2,
    Div4,
    Div6,
    Div8,
}

/// Division of the system clock that yields the AHB clock (HPRE). The
/// hardware has no divide-by-32 tap.
#[derive(Clone, Copy, Debug, PartialEq, Eq, Structural)]
pub enum AhbPrescaler {
    Div1,
    Div2,
    Div4,
    Div8,
    Div16,
    Div64,
    Div128,
    Div256,
    Div512,
}

/// Division of the AHB clock that yields an APB clock (PPRE1, PPRE2).
#[derive(Clone, Copy, Debug, PartialEq, Eq, Structural)]
pub enum ApbPrescaler {
    Div1,
    Div2,
    Div4,
    Div8,
    Div16,
}

/// Everything the bring-up sequence needs to know about its target clock
/// configuration. A profile is fixed per chip and never changes at run time.
#[derive(Clone, Copy, Debug, PartialEq, Eq, Structural)]
pub struct ChipProfile {
    /// Division of the oscillator input before the VCO (PLLM).
    pub pll_input_div: u8,
    /// Multiplication inside the VCO (PLLN).
    pub pll_vco_mult: u16,
    /// Division of the VCO output for the system clock (PLLP).
    pub pll_sys_div: PllSysDiv,
    /// Division of the VCO output for the 48 MHz domain (PLLQ).
    pub pll_usb_div: u8,
    /// Regulator output range, as the VOS field encodes it.
    pub voltage_scale: u8,
    /// Whether the regulator has to enter over-drive before the PLL locks.
    pub overdrive_enabled: bool,
    /// Flash wait states needed at the target core clock.
    pub flash_wait_states: u8,
    /// AHB prescaler.
    pub ahb_prescaler: AhbPrescaler,
    /// APB1 (low-speed) prescaler.
    pub apb1_prescaler: ApbPrescaler,
    /// APB2 (high-speed) prescaler.
    pub apb2_prescaler: ApbPrescaler,
}

/// What a chip variant has beyond the common clock tree.
#[derive(Clone, Copy, Debug, PartialEq, Eq, Structural)]
pub struct Capabilities {
    /// The chip has a separate source selector for its 48 MHz peripheral
    /// clock that must be set explicitly.
    pub clk48_mux: bool,
}

/// The smallest input division the PLL accepts.
pub const PLL_INPUT_DIV_MIN: u8 = 2;

/// The largest input division the six-bit PLLM field holds.
pub const PLL_INPUT_DIV_MAX: u8 = 63;

/// The smallest VCO multiplication the PLL accepts.
pub const PLL_VCO_MULT_MIN: u16 = 50;

/// The largest VCO multiplication the PLL accepts.
pub const PLL_VCO_MULT_MAX: u16 = 432;

/// The smallest division the PLL accepts for the 48 MHz domain.
pub const PLL_USB_DIV_MIN: u8 = 2;

/// The largest division the four-bit PLLQ field holds.
pub const PLL_USB_DIV_MAX: u8 = 15;

/// The lowest regulator range the two-bit VOS field encodes; zero is
/// reserved.
pub const VOLTAGE_SCALE_MIN: u8 = 1;

/// The highest regulator range the two-bit VOS field encodes.
pub const VOLTAGE_SCALE_MAX: u8 = 3;

/// The most wait states the four-bit LATENCY field holds.
pub const FLASH_WAIT_STATES_MAX: u8 = 15;

impl ChipProfile {
    /// Every numeric setting lies in the range its register field accepts.
    pub open spec fn wf(self) -> bool {
        &&& PLL_INPUT_DIV_MIN <= self.pll_input_div <= PLL_INPUT_DIV_MAX
        &&& PLL_VCO_MULT_MIN <= self.pll_vco_mult <= PLL_VCO_MULT_MAX
        &&& PLL_USB_DIV_MIN <= self.pll_usb_div <= PLL_USB_DIV_MAX
        &&& VOLTAGE_SCALE_MIN <= self.voltage_scale <= VOLTAGE_SCALE_MAX
        &&& self.flash_wait_states <= FLASH_WAIT_STATES_MAX
    }

    /// Checks the profile against the legal ranges.
    pub fn is_valid(&self) -> (ok: bool)
        ensures
            ok == self.wf(),
    {
        PLL_INPUT_DIV_MIN <= self.pll_input_div && self.pll_input_div <= PLL_INPUT_DIV_MAX
            && PLL_VCO_MULT_MIN <= self.pll_vco_mult && self.pll_vco_mult <= PLL_VCO_MULT_MAX
            && PLL_USB_DIV_MIN <= self.pll_usb_div && self.pll_usb_div <= PLL_USB_DIV_MAX
            && VOLTAGE_SCALE_MIN <= self.voltage_scale && self.voltage_scale
            <= VOLTAGE_SCALE_MAX && self.flash_wait_states <= FLASH_WAIT_STATES_MAX
    }
}

/// The chips for which a profile is built in.
#[derive(Clone, Copy, Debug, PartialEq, Eq, Structural)]
pub enum Target {
    /// STM32F411 with a 25 MHz crystal, run at 96 MHz.
    Stm32f411,
    /// STM32F767 with an 8 MHz crystal, run at 216 MHz.
    Stm32f767,
}

impl Target {
    /// The profile table.
    pub open spec fn spec_profile(self) -> ChipProfile {
        match self {
            Target::Stm32f411 => ChipProfile {
                pll_input_div: 25,
                pll_vco_mult: 192,
                pll_sys_div: PllSysDiv::Div2,
                pll_usb_div: 4,
                voltage_scale: 3,
                overdrive_enabled: false,
                flash_wait_states: 3,
                ahb_prescaler: AhbPrescaler::Div1,
                apb1_prescaler: ApbPrescaler::Div2,
                apb2_prescaler: ApbPrescaler::Div1,
            },
            Target::Stm32f767 => ChipProfile {
                pll_input_div: 8,
                pll_vco_mult: 216,
                pll_sys_div: PllSysDiv::Div2,
                pll_usb_div: 9,
                voltage_scale: 3,
                overdrive_enabled: true,
                flash_wait_states: 7,
                ahb_prescaler: AhbPrescaler::Div1,
                apb1_prescaler: ApbPrescaler::Div4,
                apb2_prescaler: ApbPrescaler::Div2,
            },
        }
    }

    /// The capability table.
    pub open spec fn spec_capabilities(self) -> Capabilities {
        match self {
            Target::Stm32f411 => Capabilities { clk48_mux: false },
            Target::Stm32f767 => Capabilities { clk48_mux: true },
        }
    }

    /// The clock profile of this chip.
    pub fn profile(self) -> (p: ChipProfile)
        ensures
            p == self.spec_profile(),
            p.wf(),
    {
        match self {
            Target::Stm32f411 => ChipProfile {
                pll_input_div: 25,
                pll_vco_mult: 192,
                pll_sys_div: PllSysDiv::Div2,
                pll_usb_div: 4,
                voltage_scale: 3,
                overdrive_enabled: false,
                flash_wait_states: 3,
                ahb_prescaler: AhbPrescaler::Div1,
                apb1_prescaler: ApbPrescaler::Div2,
                apb2_prescaler: ApbPrescaler::Div1,
            },
            Target::Stm32f767 => ChipProfile {
                pll_input_div: 8,
                pll_vco_mult: 216,
                pll_sys_div: PllSysDiv::Div2,
                pll_usb_div: 9,
                voltage_scale: 3,
                overdrive_enabled: true,
                flash_wait_states: 7,
                ahb_prescaler: AhbPrescaler::Div1,
                apb1_prescaler: ApbPrescaler::Div4,
                apb2_prescaler: ApbPrescaler::Div2,
            },
        }
    }

    /// What this chip has beyond the common clock tree.
    pub fn capabilities(self) -> (c: Capabilities)
        ensures
            c == self.spec_capabilities(),
    {
        match self {
            Target::Stm32f411 => Capabilities { clk48_mux: false },
            Target::Stm32f767 => Capabilities { clk48_mux: true },
        }
    }
}

} // verus!
