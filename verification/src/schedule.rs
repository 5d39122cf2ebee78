//! The bring-up schedule: the operations a profile calls for, in the only
//! order in which the hardware tolerates them.

use crate::profile::{Capabilities, ChipProfile};
use crate::registers::{Field, StatusFlag, Transaction};
use vstd::prelude::*;

verus! {

/// One thing the caller has to do to the hardware.
#[derive(Clone, Copy, Debug, PartialEq, Eq, Structural)]
pub enum Op {
    /// Write one transaction to its register.
    Write(Transaction),
    /// Let a no-operation delay pass so that the last write can settle.
    Settle,
    /// Poll `flag` until it reads `level`. There is no timeout.
    Await { flag: StatusFlag, level: bool },
}

/// The named steps of the bring-up, in their required order.
#[derive(Clone, Copy, Debug, PartialEq, Eq, Structural)]
pub enum Step {
    PllDisable,
    PowerDomainEnable,
    VoltageScaleSet,
    ExternalOscillatorEnable,
    PllSourceSelect,
    PllCoefficientSet,
    PllEnable,
    OverdriveEnable,
    OverdriveSwitch,
    FlashLatencySet,
    BusPrescalerSet,
    SystemClockSwitch,
    PeripheralClockSelect,
}

impl Step {
    /// The place of a step in the required order, counted from zero.
    pub open spec fn spec_rank(self) -> u8 {
        match self {
            Step::PllDisable => 0,
            Step::PowerDomainEnable => 1,
            Step::VoltageScaleSet => 2,
            Step::ExternalOscillatorEnable => 3,
            Step::PllSourceSelect => 4,
            Step::PllCoefficientSet => 5,
            Step::PllEnable => 6,
            Step::OverdriveEnable => 7,
            Step::OverdriveSwitch => 8,
            Step::FlashLatencySet => 9,
            Step::BusPrescalerSet => 10,
            Step::SystemClockSwitch => 11,
            Step::PeripheralClockSelect => 12,
        }
    }

    /// The place of a step in the required order, counted from zero.
    #[verifier::when_used_as_spec(spec_rank)]
    pub fn rank(self) -> (rank: u8)
        ensures
            rank == self.spec_rank(),
    {
        match self {
            Step::PllDisable => 0,
            Step::PowerDomainEnable => 1,
            Step::VoltageScaleSet => 2,
            Step::ExternalOscillatorEnable => 3,
            Step::PllSourceSelect => 4,
            Step::PllCoefficientSet => 5,
            Step::PllEnable => 6,
            Step::OverdriveEnable => 7,
            Step::OverdriveSwitch => 8,
            Step::FlashLatencySet => 9,
            Step::BusPrescalerSet => 10,
            Step::SystemClockSwitch => 11,
            Step::PeripheralClockSelect => 12,
        }
    }
}

impl Transaction {
    /// The step whose write this transaction is.
    pub open spec fn spec_step(self) -> Step {
        match self {
            Transaction::PllPower(false) => Step::PllDisable,
            Transaction::PowerClockEnable => Step::PowerDomainEnable,
            Transaction::VoltageScale(_) => Step::VoltageScaleSet,
            Transaction::OscillatorEnable => Step::ExternalOscillatorEnable,
            Transaction::PllSourceExternal => Step::PllSourceSelect,
            Transaction::PllCoefficients { .. } => Step::PllCoefficientSet,
            Transaction::PllPower(true) => Step::PllEnable,
            Transaction::OverdriveEnable => Step::OverdriveEnable,
            Transaction::OverdriveSwitch => Step::OverdriveSwitch,
            Transaction::FlashLatency(_) => Step::FlashLatencySet,
            Transaction::BusPrescalers { .. } => Step::BusPrescalerSet,
            Transaction::SystemClockPll => Step::SystemClockSwitch,
            Transaction::Clk48Pll => Step::PeripheralClockSelect,
        }
    }

    /// The step whose write this transaction is.
    #[verifier::when_used_as_spec(spec_step)]
    pub fn step(self) -> (step: Step)
        ensures
            step == self.spec_step(),
    {
        match self {
            Transaction::PllPower(false) => Step::PllDisable,
            Transaction::PowerClockEnable => Step::PowerDomainEnable,
            Transaction::VoltageScale(_) => Step::VoltageScaleSet,
            Transaction::OscillatorEnable => Step::ExternalOscillatorEnable,
            Transaction::PllSourceExternal => Step::PllSourceSelect,
            Transaction::PllCoefficients { .. } => Step::PllCoefficientSet,
            Transaction::PllPower(true) => Step::PllEnable,
            Transaction::OverdriveEnable => Step::OverdriveEnable,
            Transaction::OverdriveSwitch => Step::OverdriveSwitch,
            Transaction::FlashLatency(_) => Step::FlashLatencySet,
            Transaction::BusPrescalers { .. } => Step::BusPrescalerSet,
            Transaction::SystemClockPll => Step::SystemClockSwitch,
            Transaction::Clk48Pll => Step::PeripheralClockSelect,
        }
    }
}

/// The write that programs all PLL coefficients of `profile`.
pub open spec fn coefficient_write(profile: ChipProfile) -> Transaction {
    Transaction::PllCoefficients {
        input_div: profile.pll_input_div,
        vco_mult: profile.pll_vco_mult,
        sys_div: profile.pll_sys_div,
        usb_div: profile.pll_usb_div,
    }
}

/// The write that programs all bus prescalers of `profile`.
pub open spec fn prescaler_write(profile: ChipProfile) -> Transaction {
    Transaction::BusPrescalers {
        ahb: profile.ahb_prescaler,
        apb1: profile.apb1_prescaler,
        apb2: profile.apb2_prescaler,
    }
}

/// From PLL shutdown up to and including the write that starts the PLL
/// again with its new coefficients.
pub open spec fn pll_setup(profile: ChipProfile) -> Seq<Op> {
    seq![
        Op::Write(Transaction::PllPower(false)),
        Op::Await { flag: StatusFlag::PllOn, level: false },
        Op::Write(Transaction::PowerClockEnable),
        Op::Settle,
        Op::Write(Transaction::VoltageScale(profile.voltage_scale)),
        Op::Settle,
        Op::Write(Transaction::OscillatorEnable),
        Op::Await { flag: StatusFlag::OscillatorReady, level: true },
        Op::Write(Transaction::PllSourceExternal),
        Op::Settle,
        Op::Write(coefficient_write(profile)),
        Op::Settle,
        Op::Write(Transaction::PllPower(true)),
    ]
}

/// The over-drive negotiation. It runs while the PLL is still locking.
pub open spec fn overdrive_entry() -> Seq<Op> {
    seq![
        Op::Write(Transaction::OverdriveEnable),
        Op::Await { flag: StatusFlag::OverdriveReady, level: true },
        Op::Write(Transaction::OverdriveSwitch),
        Op::Await { flag: StatusFlag::OverdriveSwitchReady, level: true },
    ]
}

/// From the wait for PLL lock to the confirmed switch of the system clock.
pub open spec fn clock_switch(profile: ChipProfile) -> Seq<Op> {
    seq![
        Op::Await { flag: StatusFlag::PllReady, level: true },
        Op::Write(Transaction::FlashLatency(profile.flash_wait_states)),
        Op::Write(prescaler_write(profile)),
        Op::Settle,
        Op::Write(Transaction::SystemClockPll),
        Op::Await { flag: StatusFlag::SystemClockIsPll, level: true },
    ]
}

/// The source selection of the 48 MHz peripheral clock.
pub open spec fn clk48_select() -> Seq<Op> {
    seq![Op::Write(Transaction::Clk48Pll)]
}

/// Everything the bring-up does for `profile` on a chip with `caps`, first
/// to last.
pub open spec fn schedule(profile: ChipProfile, caps: Capabilities) -> Seq<Op> {
    pll_setup(profile) + (if profile.overdrive_enabled {
        overdrive_entry()
    } else {
        Seq::empty()
    }) + clock_switch(profile) + (if caps.clk48_mux {
        clk48_select()
    } else {
        Seq::empty()
    })
}

/// The number of operations of the over-drive negotiation under `profile`.
pub open spec fn overdrive_len(profile: ChipProfile) -> nat {
    if profile.overdrive_enabled {
        4
    } else {
        0
    }
}

/// The writes among the first `n` operations of `ops`, in order: what a
/// register trace shows once those operations have been carried out.
pub open spec fn trace_at(ops: Seq<Op>, n: nat) -> Seq<Transaction>
    decreases n,
{
    if n == 0 {
        Seq::empty()
    } else {
        match ops[n - 1] {
            Op::Write(txn) => trace_at(ops, (n - 1) as nat).push(txn),
            _ => trace_at(ops, (n - 1) as nat),
        }
    }
}

/// The schedule spelled out index by index.
pub proof fn lemma_schedule_layout(profile: ChipProfile, caps: Capabilities)
    ensures
        ({
            let s = schedule(profile, caps);
            let od = overdrive_len(profile) as int;
            &&& s.len() == 19 + od + (if caps.clk48_mux { 1int } else { 0int })
            &&& s[0] == Op::Write(Transaction::PllPower(false))
            &&& s[1] == (Op::Await { flag: StatusFlag::PllOn, level: false })
            &&& s[2] == Op::Write(Transaction::PowerClockEnable)
            &&& s[3] == Op::Settle
            &&& s[4] == Op::Write(Transaction::VoltageScale(profile.voltage_scale))
            &&& s[5] == Op::Settle
            &&& s[6] == Op::Write(Transaction::OscillatorEnable)
            &&& s[7] == (Op::Await { flag: StatusFlag::OscillatorReady, level: true })
            &&& s[8] == Op::Write(Transaction::PllSourceExternal)
            &&& s[9] == Op::Settle
            &&& s[10] == Op::Write(coefficient_write(profile))
            &&& s[11] == Op::Settle
            &&& s[12] == Op::Write(Transaction::PllPower(true))
            &&& profile.overdrive_enabled ==> {
                &&& s[13] == Op::Write(Transaction::OverdriveEnable)
                &&& s[14] == (Op::Await { flag: StatusFlag::OverdriveReady, level: true })
                &&& s[15] == Op::Write(Transaction::OverdriveSwitch)
                &&& s[16] == (Op::Await { flag: StatusFlag::OverdriveSwitchReady, level: true })
            }
            &&& s[13 + od] == (Op::Await { flag: StatusFlag::PllReady, level: true })
            &&& s[14 + od] == Op::Write(Transaction::FlashLatency(profile.flash_wait_states))
            &&& s[15 + od] == Op::Write(prescaler_write(profile))
            &&& s[16 + od] == Op::Settle
            &&& s[17 + od] == Op::Write(Transaction::SystemClockPll)
            &&& s[18 + od] == (Op::Await { flag: StatusFlag::SystemClockIsPll, level: true })
            &&& caps.clk48_mux ==> s[19 + od] == Op::Write(Transaction::Clk48Pll)
        }),
{
}

impl Step {
    /// Whether a bring-up for `profile` on a chip with `caps` includes this
    /// step. The over-drive steps go by the profile, the peripheral clock
    /// selection by the chip; every other step is always taken.
    pub open spec fn applies(self, profile: ChipProfile, caps: Capabilities) -> bool {
        match self {
            Step::OverdriveEnable | Step::OverdriveSwitch => profile.overdrive_enabled,
            Step::PeripheralClockSelect => caps.clk48_mux,
            _ => true,
        }
    }

    /// Where the schedule for `profile` holds the write of this step.
    pub open spec fn write_index(self, profile: ChipProfile) -> int {
        let od = overdrive_len(profile) as int;
        match self {
            Step::PllDisable => 0,
            Step::PowerDomainEnable => 2,
            Step::VoltageScaleSet => 4,
            Step::ExternalOscillatorEnable => 6,
            Step::PllSourceSelect => 8,
            Step::PllCoefficientSet => 10,
            Step::PllEnable => 12,
            Step::OverdriveEnable => 13,
            Step::OverdriveSwitch => 15,
            Step::FlashLatencySet => 14 + od,
            Step::BusPrescalerSet => 15 + od,
            Step::SystemClockSwitch => 17 + od,
            Step::PeripheralClockSelect => 19 + od,
        }
    }
}

impl StatusFlag {
    /// Whether the flag belongs to the over-drive negotiation.
    pub open spec fn is_overdrive(self) -> bool {
        self == StatusFlag::OverdriveReady || self == StatusFlag::OverdriveSwitchReady
    }
}

/// Writes appear in the order of their steps: of two writes, the later one
/// belongs to the later step.
pub proof fn lemma_writes_follow_step_order(
    profile: ChipProfile,
    caps: Capabilities,
    i: int,
    j: int,
)
    requires
        0 <= i < j < schedule(profile, caps).len(),
        schedule(profile, caps)[i] is Write,
        schedule(profile, caps)[j] is Write,
    ensures
        schedule(profile, caps)[i]->Write_0.step().rank() < schedule(
            profile,
            caps,
        )[j]->Write_0.step().rank(),
{
    lemma_schedule_layout(profile, caps);
}

/// No step is skipped and none is taken twice: the write of a step stands
/// in the schedule if and only if the step applies, and then at one place
/// only.
pub proof fn lemma_each_step_written_once(
    profile: ChipProfile,
    caps: Capabilities,
    step: Step,
    i: int,
)
    requires
        0 <= i < schedule(profile, caps).len(),
    ensures
        step.applies(profile, caps) ==> {
            &&& 0 <= step.write_index(profile) < schedule(profile, caps).len()
            &&& schedule(profile, caps)[step.write_index(profile)] is Write
            &&& schedule(profile, caps)[step.write_index(profile)]->Write_0.step() == step
        },
        schedule(profile, caps)[i] is Write && schedule(profile, caps)[i]->Write_0.step() == step
            ==> step.applies(profile, caps) && i == step.write_index(profile),
{
    lemma_schedule_layout(profile, caps);
}

/// Fields that belong together are written together: the four PLL
/// coefficients are touched by one write only, which carries all four as
/// the profile gives them, and likewise the three bus prescalers.
pub proof fn lemma_grouped_fields_written_at_once(
    profile: ChipProfile,
    caps: Capabilities,
    i: int,
    field: Field,
)
    requires
        0 <= i < schedule(profile, caps).len(),
        schedule(profile, caps)[i] is Write,
        schedule(profile, caps)[i]->Write_0.fields().contains(field),
    ensures
        field == Field::PllM || field == Field::PllN || field == Field::PllP || field
            == Field::PllQ ==> {
            &&& i == Step::PllCoefficientSet.write_index(profile)
            &&& schedule(profile, caps)[i] == Op::Write(coefficient_write(profile))
            &&& coefficient_write(profile).fields() == set![
                Field::PllM,
                Field::PllN,
                Field::PllP,
                Field::PllQ
            ]
        },
        field == Field::Hpre || field == Field::Ppre1 || field == Field::Ppre2 ==> {
            &&& i == Step::BusPrescalerSet.write_index(profile)
            &&& schedule(profile, caps)[i] == Op::Write(prescaler_write(profile))
            &&& prescaler_write(profile).fields() == set![
                Field::Hpre,
                Field::Ppre1,
                Field::Ppre2
            ]
        },
{
    lemma_schedule_layout(profile, caps);
}

/// No field is written twice, but for the PLL enable bit, which is cleared
/// at the start and set once the PLL is configured.
pub proof fn lemma_fields_written_once(
    profile: ChipProfile,
    caps: Capabilities,
    i: int,
    j: int,
    field: Field,
)
    requires
        0 <= i < j < schedule(profile, caps).len(),
        schedule(profile, caps)[i] is Write,
        schedule(profile, caps)[j] is Write,
        schedule(profile, caps)[i]->Write_0.fields().contains(field),
        schedule(profile, caps)[j]->Write_0.fields().contains(field),
    ensures
        field == Field::PllOn,
        schedule(profile, caps)[i] == Op::Write(Transaction::PllPower(false)),
        schedule(profile, caps)[j] == Op::Write(Transaction::PllPower(true)),
{
    lemma_schedule_layout(profile, caps);
}

/// With over-drive enabled, the schedule enables over-drive, waits for it,
/// switches to it and waits for the switch, in this order and directly
/// after the PLL has been started; the one wait for PLL lock follows.
pub proof fn lemma_overdrive_precedes_pll_lock(profile: ChipProfile, caps: Capabilities, i: int)
    requires
        profile.overdrive_enabled,
        0 <= i < schedule(profile, caps).len(),
    ensures
        schedule(profile, caps)[12] == Op::Write(Transaction::PllPower(true)),
        schedule(profile, caps)[13] == Op::Write(Transaction::OverdriveEnable),
        schedule(profile, caps)[14] == (Op::Await {
            flag: StatusFlag::OverdriveReady,
            level: true,
        }),
        schedule(profile, caps)[15] == Op::Write(Transaction::OverdriveSwitch),
        schedule(profile, caps)[16] == (Op::Await {
            flag: StatusFlag::OverdriveSwitchReady,
            level: true,
        }),
        schedule(profile, caps)[17] == (Op::Await { flag: StatusFlag::PllReady, level: true }),
        schedule(profile, caps)[i] is Await && schedule(profile, caps)[i]->flag
            == StatusFlag::PllReady ==> i == 17,
{
    lemma_schedule_layout(profile, caps);
}

/// With over-drive disabled, the schedule holds no over-drive write and no
/// wait for an over-drive flag.
pub proof fn lemma_overdrive_absent_when_disabled(
    profile: ChipProfile,
    caps: Capabilities,
    i: int,
)
    requires
        !profile.overdrive_enabled,
        0 <= i < schedule(profile, caps).len(),
    ensures
        schedule(profile, caps)[i] != Op::Write(Transaction::OverdriveEnable),
        schedule(profile, caps)[i] != Op::Write(Transaction::OverdriveSwitch),
        schedule(profile, caps)[i] is Await ==> !schedule(profile, caps)[i]->flag.is_overdrive(),
{
    lemma_schedule_layout(profile, caps);
}

/// The flash wait states are written before the system clock is switched,
/// whatever the profile.
pub proof fn lemma_flash_latency_precedes_clock_switch(
    profile: ChipProfile,
    caps: Capabilities,
    i: int,
    j: int,
)
    requires
        0 <= i < schedule(profile, caps).len(),
        0 <= j < schedule(profile, caps).len(),
        schedule(profile, caps)[i] is Write,
        schedule(profile, caps)[i]->Write_0 is FlashLatency,
        schedule(profile, caps)[j] == Op::Write(Transaction::SystemClockPll),
    ensures
        i < j,
        schedule(profile, caps)[i] == Op::Write(Transaction::FlashLatency(profile.flash_wait_states)),
{
    lemma_schedule_layout(profile, caps);
}

/// A valid profile yields only writes whose values fit their fields.
pub proof fn lemma_writes_fit_their_fields(profile: ChipProfile, caps: Capabilities, i: int)
    requires
        profile.wf(),
        0 <= i < schedule(profile, caps).len(),
        schedule(profile, caps)[i] is Write,
    ensures
        schedule(profile, caps)[i]->Write_0.wf(),
{
    lemma_schedule_layout(profile, caps);
}

} // verus!
