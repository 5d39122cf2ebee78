//! The register-level vocabulary of the bring-up: which fields exist, what
//! one write transaction carries, which status flags can be polled, and a
//! model of the control fields that records what has been written.

use crate::profile::{AhbPrescaler, ApbPrescaler, PllSysDiv};
use crate::profile::{
    FLASH_WAIT_STATES_MAX, PLL_INPUT_DIV_MAX, PLL_USB_DIV_MAX, PLL_VCO_MULT_MAX,
    VOLTAGE_SCALE_MAX,
};
use vstd::prelude::*;

verus! {

/// The peripherals the bring-up touches.
#[derive(Clone, Copy, Debug, PartialEq, Eq, Structural)]
pub enum Peripheral {
    /// Reset and clock control.
    Rcc,
    /// Power control.
    Pwr,
    /// Flash interface.
    Flash,
}

/// The control registers the bring-up writes.
#[derive(Clone, Copy, Debug, PartialEq, Eq, Structural)]
pub enum Register {
    /// RCC clock control.
    RccCr,
    /// RCC PLL configuration.
    RccPllCfgr,
    /// RCC clock configuration.
    RccCfgr,
    /// RCC APB1 peripheral clock enable.
    RccApb1Enr,
    /// RCC dedicated clocks configuration.
    RccDckCfgr,
    /// PWR control.
    PwrCr,
    /// FLASH access control.
    FlashAcr,
}

/// The control fields the bring-up writes.
#[derive(Clone, Copy, Debug, PartialEq, Eq, Structural)]
pub enum Field {
    PllOn,
    HseOn,
    PllSrc,
    PllM,
    PllN,
    PllP,
    PllQ,
    Sw,
    Hpre,
    Ppre1,
    Ppre2,
    PwrEn,
    Ck48mSel,
    Vos,
    OdEn,
    OdSwEn,
    Latency,
}

/// The flags the bring-up polls.
#[derive(Clone, Copy, Debug, PartialEq, Eq, Structural)]
pub enum StatusFlag {
    /// The PLL enable bit, read back.
    PllOn,
    /// The external oscillator is stable.
    OscillatorReady,
    /// The PLL has locked.
    PllReady,
    /// Over-drive mode is ready.
    OverdriveReady,
    /// The regulator has switched to over-drive.
    OverdriveSwitchReady,
    /// The status mirror reports the PLL as the active system clock.
    SystemClockIsPll,
}

/// One write to one register. Fields that share a register and belong
/// together travel in one transaction.
#[derive(Clone, Copy, Debug, PartialEq, Eq, Structural)]
pub enum Transaction {
    /// Set or clear the PLL enable bit.
    PllPower(bool),
    /// Open the clock gate of the power controller.
    PowerClockEnable,
    /// Select the regulator output range.
    VoltageScale(u8),
    /// Start the external oscillator.
    OscillatorEnable,
    /// Feed the PLL from the external oscillator.
    PllSourceExternal,
    /// All four PLL coefficients at once.
    PllCoefficients { input_div: u8, vco_mult: u16, sys_div: PllSysDiv, usb_div: u8 },
    /// Ask the regulator for over-drive mode.
    OverdriveEnable,
    /// Switch the regulator over to over-drive.
    OverdriveSwitch,
    /// Set the flash wait states.
    FlashLatency(u8),
    /// All three bus prescalers at once.
    BusPrescalers { ahb: AhbPrescaler, apb1: ApbPrescaler, apb2: ApbPrescaler },
    /// Run the system clock from the PLL.
    SystemClockPll,
    /// Run the 48 MHz peripheral clock from the PLL.
    Clk48Pll,
}

impl Register {
    /// The peripheral a register belongs to.
    pub open spec fn spec_peripheral(self) -> Peripheral {
        match self {
            Register::PwrCr => Peripheral::Pwr,
            Register::FlashAcr => Peripheral::Flash,
            _ => Peripheral::Rcc,
        }
    }

    /// The peripheral a register belongs to.
    pub fn peripheral(self) -> (p: Peripheral)
        ensures
            p == self.spec_peripheral(),
    {
        match self {
            Register::PwrCr => Peripheral::Pwr,
            Register::FlashAcr => Peripheral::Flash,
            _ => Peripheral::Rcc,
        }
    }
}

impl Field {
    /// The register a field lives in.
    pub open spec fn register(self) -> Register {
        match self {
            Field::PllOn | Field::HseOn => Register::RccCr,
            Field::PllSrc | Field::PllM | Field::PllN | Field::PllP | Field::PllQ =>
                Register::RccPllCfgr,
            Field::Sw | Field::Hpre | Field::Ppre1 | Field::Ppre2 => Register::RccCfgr,
            Field::PwrEn => Register::RccApb1Enr,
            Field::Ck48mSel => Register::RccDckCfgr,
            Field::Vos | Field::OdEn | Field::OdSwEn => Register::PwrCr,
            Field::Latency => Register::FlashAcr,
        }
    }
}

impl StatusFlag {
    /// Whether the hardware alone decides what a poll of the flag reads.
    /// Every flag is of this kind but the PLL enable bit, which reads back
    /// what was last written to it.
    pub open spec fn hardware_driven(self) -> bool {
        self != StatusFlag::PllOn
    }

    /// The peripheral whose registers hold the flag.
    pub open spec fn spec_peripheral(self) -> Peripheral {
        match self {
            StatusFlag::OverdriveReady | StatusFlag::OverdriveSwitchReady => Peripheral::Pwr,
            _ => Peripheral::Rcc,
        }
    }

    /// The peripheral whose registers hold the flag.
    pub fn peripheral(self) -> (p: Peripheral)
        ensures
            p == self.spec_peripheral(),
    {
        match self {
            StatusFlag::OverdriveReady | StatusFlag::OverdriveSwitchReady => Peripheral::Pwr,
            _ => Peripheral::Rcc,
        }
    }
}

impl Transaction {
    /// The fields a transaction writes.
    pub open spec fn fields(self) -> Set<Field> {
        match self {
            Transaction::PllPower(_) => set![Field::PllOn],
            Transaction::PowerClockEnable => set![Field::PwrEn],
            Transaction::VoltageScale(_) => set![Field::Vos],
            Transaction::OscillatorEnable => set![Field::HseOn],
            Transaction::PllSourceExternal => set![Field::PllSrc],
            Transaction::PllCoefficients { .. } => set![
                Field::PllM,
                Field::PllN,
                Field::PllP,
                Field::PllQ
            ],
            Transaction::OverdriveEnable => set![Field::OdEn],
            Transaction::OverdriveSwitch => set![Field::OdSwEn],
            Transaction::FlashLatency(_) => set![Field::Latency],
            Transaction::BusPrescalers { .. } => set![Field::Hpre, Field::Ppre1, Field::Ppre2],
            Transaction::SystemClockPll => set![Field::Sw],
            Transaction::Clk48Pll => set![Field::Ck48mSel],
        }
    }

    /// The register a transaction writes.
    pub open spec fn spec_register(self) -> Register {
        match self {
            Transaction::PllPower(_) | Transaction::OscillatorEnable => Register::RccCr,
            Transaction::PowerClockEnable => Register::RccApb1Enr,
            Transaction::VoltageScale(_) | Transaction::OverdriveEnable
            | Transaction::OverdriveSwitch => Register::PwrCr,
            Transaction::PllSourceExternal | Transaction::PllCoefficients { .. } =>
                Register::RccPllCfgr,
            Transaction::FlashLatency(_) => Register::FlashAcr,
            Transaction::BusPrescalers { .. } | Transaction::SystemClockPll => Register::RccCfgr,
            Transaction::Clk48Pll => Register::RccDckCfgr,
        }
    }

    /// Every value carried fits the field it is written to.
    pub open spec fn wf(self) -> bool {
        match self {
            Transaction::VoltageScale(scale) => scale <= VOLTAGE_SCALE_MAX,
            Transaction::PllCoefficients { input_div, vco_mult, sys_div, usb_div } => {
                &&& input_div <= PLL_INPUT_DIV_MAX
                &&& vco_mult <= PLL_VCO_MULT_MAX
                &&& usb_div <= PLL_USB_DIV_MAX
            },
            Transaction::FlashLatency(wait_states) => wait_states <= FLASH_WAIT_STATES_MAX,
            _ => true,
        }
    }

    /// The register a transaction writes.
    pub fn register(&self) -> (r: Register)
        ensures
            r == self.spec_register(),
            forall|f: Field| #[trigger] self.fields().contains(f) ==> f.register() == r,
    {
        match self {
            Transaction::PllPower(_) | Transaction::OscillatorEnable => Register::RccCr,
            Transaction::PowerClockEnable => Register::RccApb1Enr,
            Transaction::VoltageScale(_) | Transaction::OverdriveEnable
            | Transaction::OverdriveSwitch => Register::PwrCr,
            Transaction::PllSourceExternal | Transaction::PllCoefficients { .. } =>
                Register::RccPllCfgr,
            Transaction::FlashLatency(_) => Register::FlashAcr,
            Transaction::BusPrescalers { .. } | Transaction::SystemClockPll => Register::RccCfgr,
            Transaction::Clk48Pll => Register::RccDckCfgr,
        }
    }
}

/// The control fields as the last writes left them. Status flags that the
/// hardware drives on its own are not part of it.
#[derive(Clone, Copy, Debug, PartialEq, Eq, Structural)]
pub struct RegisterFile {
    pub pll_on: bool,
    pub oscillator_on: bool,
    pub pll_source_external: bool,
    pub pll_input_div: u8,
    pub pll_vco_mult: u16,
    pub pll_sys_div: PllSysDiv,
    pub pll_usb_div: u8,
    pub system_clock_pll: bool,
    pub ahb_prescaler: AhbPrescaler,
    pub apb1_prescaler: ApbPrescaler,
    pub apb2_prescaler: ApbPrescaler,
    pub power_clock: bool,
    pub clk48_pll: bool,
    pub voltage_scale: u8,
    pub overdrive: bool,
    pub overdrive_switch: bool,
    pub flash_wait_states: u8,
}

impl RegisterFile {
    /// The register file once `txn` has been written to it.
    pub open spec fn after(self, txn: Transaction) -> RegisterFile {
        match txn {
            Transaction::PllPower(on) => RegisterFile { pll_on: on, ..self },
            Transaction::PowerClockEnable => RegisterFile { power_clock: true, ..self },
            Transaction::VoltageScale(scale) => RegisterFile { voltage_scale: scale, ..self },
            Transaction::OscillatorEnable => RegisterFile { oscillator_on: true, ..self },
            Transaction::PllSourceExternal => RegisterFile { pll_source_external: true, ..self },
            Transaction::PllCoefficients { input_div, vco_mult, sys_div, usb_div } => RegisterFile {
                pll_input_div: input_div,
                pll_vco_mult: vco_mult,
                pll_sys_div: sys_div,
                pll_usb_div: usb_div,
                ..self
            },
            Transaction::OverdriveEnable => RegisterFile { overdrive: true, ..self },
            Transaction::OverdriveSwitch => RegisterFile { overdrive_switch: true, ..self },
            Transaction::FlashLatency(wait_states) => RegisterFile {
                flash_wait_states: wait_states,
                ..self
            },
            Transaction::BusPrescalers { ahb, apb1, apb2 } => RegisterFile {
                ahb_prescaler: ahb,
                apb1_prescaler: apb1,
                apb2_prescaler: apb2,
                ..self
            },
            Transaction::SystemClockPll => RegisterFile { system_clock_pll: true, ..self },
            Transaction::Clk48Pll => RegisterFile { clk48_pll: true, ..self },
        }
    }

    /// The register file once every transaction of `txns` has been written
    /// to it, first to last.
    pub open spec fn after_all(self, txns: Seq<Transaction>) -> RegisterFile
        decreases txns.len(),
    {
        if txns.len() == 0 {
            self
        } else {
            self.after_all(txns.drop_last()).after(txns.last())
        }
    }

    /// Both register files hold the same value in `field`.
    pub open spec fn agrees_on(self, other: RegisterFile, field: Field) -> bool {
        match field {
            Field::PllOn => self.pll_on == other.pll_on,
            Field::HseOn => self.oscillator_on == other.oscillator_on,
            Field::PllSrc => self.pll_source_external == other.pll_source_external,
            Field::PllM => self.pll_input_div == other.pll_input_div,
            Field::PllN => self.pll_vco_mult == other.pll_vco_mult,
            Field::PllP => self.pll_sys_div == other.pll_sys_div,
            Field::PllQ => self.pll_usb_div == other.pll_usb_div,
            Field::Sw => self.system_clock_pll == other.system_clock_pll,
            Field::Hpre => self.ahb_prescaler == other.ahb_prescaler,
            Field::Ppre1 => self.apb1_prescaler == other.apb1_prescaler,
            Field::Ppre2 => self.apb2_prescaler == other.apb2_prescaler,
            Field::PwrEn => self.power_clock == other.power_clock,
            Field::Ck48mSel => self.clk48_pll == other.clk48_pll,
            Field::Vos => self.voltage_scale == other.voltage_scale,
            Field::OdEn => self.overdrive == other.overdrive,
            Field::OdSwEn => self.overdrive_switch == other.overdrive_switch,
            Field::Latency => self.flash_wait_states == other.flash_wait_states,
        }
    }

    /// What a poll of `flag` reads, where the flag is a control bit read
    /// back; `None` where the hardware alone decides.
    pub open spec fn spec_readback(self, flag: StatusFlag) -> Option<bool> {
        if flag.hardware_driven() {
            None
        } else {
            Some(self.pll_on)
        }
    }

    /// Writes `txn` to the register file.
    pub fn apply(&mut self, txn: Transaction)
        ensures
            *final(self) == old(self).after(txn),
    {
        match txn {
            Transaction::PllPower(on) => {
                self.pll_on = on;
            },
            Transaction::PowerClockEnable => {
                self.power_clock = true;
            },
            Transaction::VoltageScale(scale) => {
                self.voltage_scale = scale;
            },
            Transaction::OscillatorEnable => {
                self.oscillator_on = true;
            },
            Transaction::PllSourceExternal => {
                self.pll_source_external = true;
            },
            Transaction::PllCoefficients { input_div, vco_mult, sys_div, usb_div } => {
                self.pll_input_div = input_div;
                self.pll_vco_mult = vco_mult;
                self.pll_sys_div = sys_div;
                self.pll_usb_div = usb_div;
            },
            Transaction::OverdriveEnable => {
                self.overdrive = true;
            },
            Transaction::OverdriveSwitch => {
                self.overdrive_switch = true;
            },
            Transaction::FlashLatency(wait_states) => {
                self.flash_wait_states = wait_states;
            },
            Transaction::BusPrescalers { ahb, apb1, apb2 } => {
                self.ahb_prescaler = ahb;
                self.apb1_prescaler = apb1;
                self.apb2_prescaler = apb2;
            },
            Transaction::SystemClockPll => {
                self.system_clock_pll = true;
            },
            Transaction::Clk48Pll => {
                self.clk48_pll = true;
            },
        }
    }

    /// What a poll of `flag` reads, where the flag is a control bit read
    /// back; `None` where the hardware alone decides.
    pub fn readback(&self, flag: StatusFlag) -> (level: Option<bool>)
        ensures
            level == self.spec_readback(flag),
    {
        match flag {
            StatusFlag::PllOn => Some(self.pll_on),
            _ => None,
        }
    }
}

/// Writing a transaction changes no field outside the ones it names.
pub proof fn lemma_write_is_framed(regs: RegisterFile, txn: Transaction, field: Field)
    requires
        !txn.fields().contains(field),
    ensures
        regs.after(txn).agrees_on(regs, field),
{
}

/// Writing the same transaction twice leaves the registers as writing it
/// once.
pub proof fn lemma_write_is_idempotent(regs: RegisterFile, txn: Transaction)
    ensures
        regs.after(txn).after(txn) == regs.after(txn),
{
}

/// Disabling a PLL that is already disabled changes nothing, and the enable
/// bit reads back as off afterwards in any case.
pub proof fn lemma_pll_disable_is_idempotent(regs: RegisterFile)
    ensures
        !regs.pll_on ==> regs.after(Transaction::PllPower(false)) == regs,
        regs.after(Transaction::PllPower(false)).spec_readback(StatusFlag::PllOn) == Some(false),
{
}

} // verus!
