//! The state machine that walks a caller through the bring-up schedule.
//!
//! The machine performs nothing itself. It names the pending operation, the
//! caller carries it out and reports an [`Event`], and the machine decides
//! whether the schedule may move on. A wait moves on only when the awaited
//! level has been read, however often the caller polls.

use crate::profile::{Capabilities, ChipProfile};
use crate::registers::{StatusFlag, Transaction};
use crate::schedule::{
    lemma_schedule_layout, lemma_writes_fit_their_fields, overdrive_len, schedule, Op, Step,
};
use vstd::prelude::*;

verus! {

/// What the caller reports after carrying out the pending operation.
#[derive(Clone, Copy, Debug, PartialEq, Eq, Structural)]
pub enum Event {
    /// A write or a delay has been performed.
    Done,
    /// A poll has read this level.
    Level(bool),
}

impl Op {
    /// Whether `event` finishes this operation: any report finishes a write
    /// or a delay, only a reading of the awaited level finishes a wait.
    pub open spec fn finished_by(self, event: Event) -> bool {
        match self {
            Op::Await { flag, level } => event == Event::Level(level),
            _ => true,
        }
    }

    /// Whether `event` finishes this operation.
    pub fn is_finished_by(&self, event: Event) -> (done: bool)
        ensures
            done == self.finished_by(event),
    {
        match self {
            Op::Await { flag, level } => match event {
                Event::Level(read) => read == *level,
                Event::Done => false,
            },
            _ => true,
        }
    }
}

/// How far a bring-up has come: a profile, the chip's capabilities, and the
/// number of operations of the schedule that are finished.
pub struct Progress {
    pub profile: ChipProfile,
    pub caps: Capabilities,
    pub position: nat,
}

impl Progress {
    /// The schedule being walked.
    pub open spec fn ops(self) -> Seq<Op> {
        schedule(self.profile, self.caps)
    }

    /// The position lies within the schedule or just past its end.
    pub open spec fn wf(self) -> bool {
        self.position <= self.ops().len()
    }

    /// The operation to carry out next, if any is left.
    pub open spec fn pending(self) -> Option<Op> {
        if self.position < self.ops().len() {
            Some(self.ops()[self.position as int])
        } else {
            None
        }
    }

    /// Every operation of the schedule is finished.
    pub open spec fn configured(self) -> bool {
        self.position >= self.ops().len()
    }

    /// The progress after `event` has been reported: one operation further
    /// if the event finishes the pending one, unchanged otherwise.
    pub open spec fn advance(self, event: Event) -> Progress {
        match self.pending() {
            Some(op) => if op.finished_by(event) {
                Progress { position: self.position + 1, ..self }
            } else {
                self
            },
            None => self,
        }
    }
}

/// The states of the bring-up. Each state but the last has one operation
/// pending.
#[derive(Clone, Copy, Debug, PartialEq, Eq, Structural)]
pub enum State {
    DisablePll,
    AwaitPllOff,
    EnablePowerDomain,
    SettlePowerDomain,
    SetVoltageScale,
    SettleVoltageScale,
    EnableOscillator,
    AwaitOscillator,
    SelectPllSource,
    SettlePllSource,
    SetPllCoefficients,
    SettlePllCoefficients,
    EnablePll,
    EnableOverdrive,
    AwaitOverdrive,
    SwitchOverdrive,
    AwaitOverdriveSwitch,
    AwaitPllLock,
    SetFlashLatency,
    SetBusPrescalers,
    SettleBusPrescalers,
    SwitchSystemClock,
    AwaitSystemClock,
    SelectPeripheralClock,
    Configured,
}

impl State {
    /// Whether a bring-up for `profile` on a chip with `caps` ever enters
    /// this state.
    pub open spec fn reachable(self, profile: ChipProfile, caps: Capabilities) -> bool {
        match self {
            State::EnableOverdrive | State::AwaitOverdrive | State::SwitchOverdrive
            | State::AwaitOverdriveSwitch => profile.overdrive_enabled,
            State::SelectPeripheralClock => caps.clk48_mux,
            _ => true,
        }
    }

    /// The number of operations finished when the machine is in this state.
    pub open spec fn position(self, profile: ChipProfile, caps: Capabilities) -> nat {
        let od = overdrive_len(profile);
        match self {
            State::DisablePll => 0,
            State::AwaitPllOff => 1,
            State::EnablePowerDomain => 2,
            State::SettlePowerDomain => 3,
            State::SetVoltageScale => 4,
            State::SettleVoltageScale => 5,
            State::EnableOscillator => 6,
            State::AwaitOscillator => 7,
            State::SelectPllSource => 8,
            State::SettlePllSource => 9,
            State::SetPllCoefficients => 10,
            State::SettlePllCoefficients => 11,
            State::EnablePll => 12,
            State::EnableOverdrive => 13,
            State::AwaitOverdrive => 14,
            State::SwitchOverdrive => 15,
            State::AwaitOverdriveSwitch => 16,
            State::AwaitPllLock => 13 + od,
            State::SetFlashLatency => 14 + od,
            State::SetBusPrescalers => 15 + od,
            State::SettleBusPrescalers => 16 + od,
            State::SwitchSystemClock => 17 + od,
            State::AwaitSystemClock => 18 + od,
            State::SelectPeripheralClock => 19 + od,
            State::Configured => schedule(profile, caps).len(),
        }
    }

    /// The step of the bring-up this state belongs to.
    pub open spec fn spec_step(self) -> Option<Step> {
        match self {
            State::DisablePll | State::AwaitPllOff => Some(Step::PllDisable),
            State::EnablePowerDomain | State::SettlePowerDomain => Some(Step::PowerDomainEnable),
            State::SetVoltageScale | State::SettleVoltageScale => Some(Step::VoltageScaleSet),
            State::EnableOscillator | State::AwaitOscillator => Some(
                Step::ExternalOscillatorEnable,
            ),
            State::SelectPllSource | State::SettlePllSource => Some(Step::PllSourceSelect),
            State::SetPllCoefficients | State::SettlePllCoefficients => Some(
                Step::PllCoefficientSet,
            ),
            State::EnablePll | State::AwaitPllLock => Some(Step::PllEnable),
            State::EnableOverdrive | State::AwaitOverdrive => Some(Step::OverdriveEnable),
            State::SwitchOverdrive | State::AwaitOverdriveSwitch => Some(Step::OverdriveSwitch),
            State::SetFlashLatency => Some(Step::FlashLatencySet),
            State::SetBusPrescalers | State::SettleBusPrescalers => Some(Step::BusPrescalerSet),
            State::SwitchSystemClock | State::AwaitSystemClock => Some(Step::SystemClockSwitch),
            State::SelectPeripheralClock => Some(Step::PeripheralClockSelect),
            State::Configured => None,
        }
    }

    /// The step of the bring-up this state belongs to; `None` once the
    /// bring-up is complete.
    pub fn step(self) -> (step: Option<Step>)
        ensures
            step == self.spec_step(),
    {
        match self {
            State::DisablePll | State::AwaitPllOff => Some(Step::PllDisable),
            State::EnablePowerDomain | State::SettlePowerDomain => Some(Step::PowerDomainEnable),
            State::SetVoltageScale | State::SettleVoltageScale => Some(Step::VoltageScaleSet),
            State::EnableOscillator | State::AwaitOscillator => Some(
                Step::ExternalOscillatorEnable,
            ),
            State::SelectPllSource | State::SettlePllSource => Some(Step::PllSourceSelect),
            State::SetPllCoefficients | State::SettlePllCoefficients => Some(
                Step::PllCoefficientSet,
            ),
            State::EnablePll | State::AwaitPllLock => Some(Step::PllEnable),
            State::EnableOverdrive | State::AwaitOverdrive => Some(Step::OverdriveEnable),
            State::SwitchOverdrive | State::AwaitOverdriveSwitch => Some(Step::OverdriveSwitch),
            State::SetFlashLatency => Some(Step::FlashLatencySet),
            State::SetBusPrescalers | State::SettleBusPrescalers => Some(Step::BusPrescalerSet),
            State::SwitchSystemClock | State::AwaitSystemClock => Some(Step::SystemClockSwitch),
            State::SelectPeripheralClock => Some(Step::PeripheralClockSelect),
            State::Configured => None,
        }
    }

    /// The operation pending in this state.
    fn operation(self, profile: &ChipProfile, caps: &Capabilities) -> (op: Option<Op>)
        requires
            self.reachable(*profile, *caps),
        ensures
            op == (Progress {
                profile: *profile,
                caps: *caps,
                position: self.position(*profile, *caps),
            }).pending(),
    {
        proof {
            lemma_schedule_layout(*profile, *caps);
        }
        match self {
            State::DisablePll => Some(Op::Write(Transaction::PllPower(false))),
            State::AwaitPllOff => Some(Op::Await { flag: StatusFlag::PllOn, level: false }),
            State::EnablePowerDomain => Some(Op::Write(Transaction::PowerClockEnable)),
            State::SetVoltageScale => Some(
                Op::Write(Transaction::VoltageScale(profile.voltage_scale)),
            ),
            State::EnableOscillator => Some(Op::Write(Transaction::OscillatorEnable)),
            State::AwaitOscillator => Some(
                Op::Await { flag: StatusFlag::OscillatorReady, level: true },
            ),
            State::SelectPllSource => Some(Op::Write(Transaction::PllSourceExternal)),
            State::SetPllCoefficients => Some(
                Op::Write(
                    Transaction::PllCoefficients {
                        input_div: profile.pll_input_div,
                        vco_mult: profile.pll_vco_mult,
                        sys_div: profile.pll_sys_div,
                        usb_div: profile.pll_usb_div,
                    },
                ),
            ),
            State::EnablePll => Some(Op::Write(Transaction::PllPower(true))),
            State::EnableOverdrive => Some(Op::Write(Transaction::OverdriveEnable)),
            State::AwaitOverdrive => Some(
                Op::Await { flag: StatusFlag::OverdriveReady, level: true },
            ),
            State::SwitchOverdrive => Some(Op::Write(Transaction::OverdriveSwitch)),
            State::AwaitOverdriveSwitch => Some(
                Op::Await { flag: StatusFlag::OverdriveSwitchReady, level: true },
            ),
            State::AwaitPllLock => Some(Op::Await { flag: StatusFlag::PllReady, level: true }),
            State::SetFlashLatency => Some(
                Op::Write(Transaction::FlashLatency(profile.flash_wait_states)),
            ),
            State::SetBusPrescalers => Some(
                Op::Write(
                    Transaction::BusPrescalers {
                        ahb: profile.ahb_prescaler,
                        apb1: profile.apb1_prescaler,
                        apb2: profile.apb2_prescaler,
                    },
                ),
            ),
            State::SwitchSystemClock => Some(Op::Write(Transaction::SystemClockPll)),
            State::AwaitSystemClock => Some(
                Op::Await { flag: StatusFlag::SystemClockIsPll, level: true },
            ),
            State::SelectPeripheralClock => Some(Op::Write(Transaction::Clk48Pll)),
            State::SettlePowerDomain | State::SettleVoltageScale | State::SettlePllSource
            | State::SettlePllCoefficients | State::SettleBusPrescalers => Some(Op::Settle),
            State::Configured => None,
        }
    }

    /// The state entered when the operation pending in this one is
    /// finished.
    fn successor(self, profile: &ChipProfile, caps: &Capabilities) -> (next: State)
        requires
            self.reachable(*profile, *caps),
        ensures
            next.reachable(*profile, *caps),
            self != State::Configured ==> next.position(*profile, *caps) == self.position(
                *profile,
                *caps,
            ) + 1,
            self == State::Configured ==> next == State::Configured,
    {
        proof {
            lemma_schedule_layout(*profile, *caps);
        }
        match self {
            State::DisablePll => State::AwaitPllOff,
            State::AwaitPllOff => State::EnablePowerDomain,
            State::EnablePowerDomain => State::SettlePowerDomain,
            State::SettlePowerDomain => State::SetVoltageScale,
            State::SetVoltageScale => State::SettleVoltageScale,
            State::SettleVoltageScale => State::EnableOscillator,
            State::EnableOscillator => State::AwaitOscillator,
            State::AwaitOscillator => State::SelectPllSource,
            State::SelectPllSource => State::SettlePllSource,
            State::SettlePllSource => State::SetPllCoefficients,
            State::SetPllCoefficients => State::SettlePllCoefficients,
            State::SettlePllCoefficients => State::EnablePll,
            State::EnablePll => if profile.overdrive_enabled {
                State::EnableOverdrive
            } else {
                State::AwaitPllLock
            },
            State::EnableOverdrive => State::AwaitOverdrive,
            State::AwaitOverdrive => State::SwitchOverdrive,
            State::SwitchOverdrive => State::AwaitOverdriveSwitch,
            State::AwaitOverdriveSwitch => State::AwaitPllLock,
            State::AwaitPllLock => State::SetFlashLatency,
            State::SetFlashLatency => State::SetBusPrescalers,
            State::SetBusPrescalers => State::SettleBusPrescalers,
            State::SettleBusPrescalers => State::SwitchSystemClock,
            State::SwitchSystemClock => State::AwaitSystemClock,
            State::AwaitSystemClock => if caps.clk48_mux {
                State::SelectPeripheralClock
            } else {
                State::Configured
            },
            State::SelectPeripheralClock => State::Configured,
            State::Configured => State::Configured,
        }
    }
}

/// The bring-up of one chip in progress.
#[derive(Clone, Copy, Debug)]
pub struct Configurator {
    profile: ChipProfile,
    caps: Capabilities,
    state: State,
}

impl View for Configurator {
    type V = Progress;

    closed spec fn view(&self) -> Progress {
        Progress {
            profile: self.profile,
            caps: self.caps,
            position: self.state.position(self.profile, self.caps),
        }
    }
}

impl Configurator {
    #[verifier::type_invariant]
    closed spec fn inv(self) -> bool {
        &&& self.profile.wf()
        &&& self.state.reachable(self.profile, self.caps)
    }

    /// The state the machine is in.
    pub closed spec fn spec_state(self) -> State {
        self.state
    }

    /// A bring-up for `profile` on a chip with `caps`, with nothing done
    /// yet.
    pub fn new(profile: ChipProfile, caps: Capabilities) -> (machine: Configurator)
        requires
            profile.wf(),
        ensures
            machine@ == (Progress { profile, caps, position: 0 }),
            machine.spec_state() == State::DisablePll,
    {
        Configurator { profile, caps, state: State::DisablePll }
    }

    /// The profile being brought up.
    pub fn profile(&self) -> (profile: ChipProfile)
        ensures
            profile == self@.profile,
            profile.wf(),
    {
        proof {
            use_type_invariant(self);
        }
        self.profile
    }

    /// The capabilities of the chip.
    pub fn capabilities(&self) -> (caps: Capabilities)
        ensures
            caps == self@.caps,
    {
        self.caps
    }

    /// The state the machine is in.
    pub fn state(&self) -> (state: State)
        ensures
            state == self.spec_state(),
            state.reachable(self@.profile, self@.caps),
            state.position(self@.profile, self@.caps) == self@.position,
            self@.wf(),
    {
        proof {
            use_type_invariant(self);
            lemma_schedule_layout(self.profile, self.caps);
        }
        self.state
    }

    /// The operation the caller has to carry out next; `None` once the
    /// bring-up is complete. A write it hands out carries only values that
    /// fit their fields.
    pub fn pending(&self) -> (op: Option<Op>)
        ensures
            op == self@.pending(),
            op matches Some(Op::Write(txn)) ==> txn.wf(),
    {
        proof {
            use_type_invariant(self);
            lemma_schedule_layout(self.profile, self.caps);
            if self@.position < self@.ops().len() {
                if self@.ops()[self@.position as int] is Write {
                    lemma_writes_fit_their_fields(
                        self.profile,
                        self.caps,
                        self@.position as int,
                    );
                }
            }
        }
        self.state.operation(&self.profile, &self.caps)
    }

    /// Whether every operation of the schedule is finished.
    pub fn is_configured(&self) -> (done: bool)
        ensures
            done == self@.configured(),
            done == (self.spec_state() == State::Configured),
    {
        proof {
            use_type_invariant(self);
            lemma_schedule_layout(self.profile, self.caps);
        }
        match self.state {
            State::Configured => true,
            _ => false,
        }
    }

    /// Takes the caller's report on the pending operation. The machine
    /// moves on by one operation if the report finishes it and stays where
    /// it is otherwise; in particular it stays in a wait for as long as
    /// the reports are not the awaited level.
    pub fn advance(&mut self, event: Event)
        ensures
            final(self)@ == old(self)@.advance(event),
    {
        proof {
            use_type_invariant(&*self);
            lemma_schedule_layout(self.profile, self.caps);
        }
        match self.state.operation(&self.profile, &self.caps) {
            Some(op) => {
                if op.is_finished_by(event) {
                    self.state = self.state.successor(&self.profile, &self.caps);
                }
            },
            None => {},
        }
    }
}

/// A wait holds for as long as the awaited level is not reported: the
/// progress is left exactly as it was, whatever else the event says.
pub proof fn lemma_unanswered_wait_holds(progress: Progress, event: Event)
    requires
        progress.pending() is Some,
        progress.pending()->Some_0 is Await,
        event != Event::Level(progress.pending()->Some_0->level),
    ensures
        progress.advance(event) == progress,
{
}

/// An event finishes at most the one pending operation: the machine never
/// skips an operation, never goes back and never leaves the schedule, and
/// the profile and the capabilities stay as they were.
pub proof fn lemma_advance_is_one_step(progress: Progress, event: Event)
    requires
        progress.wf(),
    ensures
        progress.advance(event).wf(),
        progress.advance(event).profile == progress.profile,
        progress.advance(event).caps == progress.caps,
        progress.advance(event).position == progress.position || progress.advance(
            event,
        ).position == progress.position + 1,
        progress.configured() ==> progress.advance(event) == progress,
{
}

/// Among the states a bring-up can be in, the number of finished
/// operations tells which one it is.
pub proof fn lemma_position_determines_state(
    profile: ChipProfile,
    caps: Capabilities,
    a: State,
    b: State,
)
    requires
        a.reachable(profile, caps),
        b.reachable(profile, caps),
        a.position(profile, caps) == b.position(profile, caps),
    ensures
        a == b,
{
    lemma_schedule_layout(profile, caps);
}

} // verus!
