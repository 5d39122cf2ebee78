//! Runs of the bring-up against a register model and a script of poll
//! results, cut off when the script ends.

use crate::profile::{Capabilities, ChipProfile};
use crate::registers::{Register, RegisterFile, StatusFlag, Transaction};
use crate::schedule::{
    coefficient_write, lemma_schedule_layout, overdrive_len, prescaler_write, schedule, trace_at,
    Op,
};
use crate::sequencer::{Configurator, Event, Progress};
use vstd::prelude::*;

verus! {

/// The registers once the first `n` operations of `ops` have been carried
/// out on `initial`.
pub open spec fn registers_at(ops: Seq<Op>, initial: RegisterFile, n: nat) -> RegisterFile
    decreases n,
{
    if n == 0 {
        initial
    } else {
        let before = registers_at(ops, initial, (n - 1) as nat);
        match ops[n - 1] {
            Op::Write(txn) => before.after(txn),
            _ => before,
        }
    }
}

/// How many operations of `ops` are finished when a run that has already
/// finished `pos` of them comes to rest. A wait on a control bit reads that
/// bit back from the registers; every other wait takes the next entry of
/// `readings` per poll. The run rests when the schedule is finished, when a
/// bit read back can never take the awaited level, or when a wait has used
/// up the readings.
pub open spec fn reach(ops: Seq<Op>, initial: RegisterFile, pos: nat, readings: Seq<bool>) -> nat
    decreases readings.len(), ops.len() - pos,
{
    if pos >= ops.len() {
        pos
    } else {
        match ops[pos as int] {
            Op::Await { flag, level } => match registers_at(ops, initial, pos).spec_readback(
                flag,
            ) {
                Some(read) => if read == level {
                    reach(ops, initial, pos + 1, readings)
                } else {
                    pos
                },
                None => if readings.len() == 0 {
                    pos
                } else if readings[0] == level {
                    reach(ops, initial, pos + 1, readings.drop_first())
                } else {
                    reach(ops, initial, pos, readings.drop_first())
                },
            },
            _ => reach(ops, initial, pos + 1, readings),
        }
    }
}

/// How a run ended.
#[derive(Clone, Copy, Debug, PartialEq, Eq, Structural)]
pub enum Outcome {
    /// Every operation of the schedule was carried out.
    Configured,
    /// The run was still waiting for this flag when it was cut off.
    HardwareNotReady(StatusFlag),
}

/// The outcome of a run that came to rest with `end` operations finished.
pub open spec fn outcome_at(ops: Seq<Op>, end: nat) -> Outcome {
    if end < ops.len() && ops[end as int] is Await {
        Outcome::HardwareNotReady(ops[end as int]->flag)
    } else {
        Outcome::Configured
    }
}

/// What a run left behind.
pub struct Run {
    /// How the run ended.
    pub outcome: Outcome,
    /// The number of operations of the schedule that were finished.
    pub finished: usize,
    /// The writes that were issued, in order.
    pub writes: Vec<Transaction>,
    /// The registers after the last write.
    pub registers: RegisterFile,
}

/// Runs the bring-up for `profile` on a chip with `caps`, starting from the
/// registers `initial`. Each poll of a hardware-driven flag reads the next
/// entry of `readings`; a wait that finds no entry left ends the run.
pub fn simulate(
    profile: ChipProfile,
    caps: Capabilities,
    initial: RegisterFile,
    readings: &Vec<bool>,
) -> (run: Run)
    requires
        profile.wf(),
    ensures
        run.finished == reach(schedule(profile, caps), initial, 0, readings@),
        run.finished <= schedule(profile, caps).len(),
        run.writes@ == trace_at(schedule(profile, caps), run.finished as nat),
        run.registers == registers_at(schedule(profile, caps), initial, run.finished as nat),
        run.outcome == outcome_at(schedule(profile, caps), run.finished as nat),
        run.outcome == Outcome::Configured <==> run.finished == schedule(profile, caps).len(),
        forall|i: int| 0 <= i < run.writes@.len() ==> (#[trigger] run.writes@[i]).wf(),
{
    let ghost ops = schedule(profile, caps);
    let mut machine = Configurator::new(profile, caps);
    let mut registers = initial;
    let mut writes: Vec<Transaction> = Vec::new();
    let mut finished: usize = 0;
    let mut polls: usize = 0;
    proof {
        lemma_schedule_layout(profile, caps);
        assert(readings@.skip(0) == readings@);
    }
    loop
        invariant
            ops == schedule(profile, caps),
            ops.len() <= 24,
            machine@ == (Progress { profile, caps, position: finished as nat }),
            finished <= ops.len(),
            polls <= readings.len(),
            reach(ops, initial, 0, readings@) == reach(
                ops,
                initial,
                finished as nat,
                readings@.skip(polls as int),
            ),
            writes@ == trace_at(ops, finished as nat),
            registers == registers_at(ops, initial, finished as nat),
            forall|i: int| 0 <= i < writes@.len() ==> (#[trigger] writes@[i]).wf(),
        decreases readings.len() - polls, ops.len() - finished,
    {
        let event = match machine.pending() {
            None => {
                return Run { outcome: Outcome::Configured, finished, writes, registers };
            },
            Some(Op::Write(txn)) => {
                registers.apply(txn);
                writes.push(txn);
                Event::Done
            },
            Some(Op::Settle) => Event::Done,
            Some(Op::Await { flag, level }) => {
                match registers.readback(flag) {
                    Some(read) => {
                        if read != level {
                            return Run {
                                outcome: Outcome::HardwareNotReady(flag),
                                finished,
                                writes,
                                registers,
                            };
                        }
                        Event::Level(read)
                    },
                    None => {
                        if polls >= readings.len() {
                            return Run {
                                outcome: Outcome::HardwareNotReady(flag),
                                finished,
                                writes,
                                registers,
                            };
                        }
                        let read = readings[polls];
                        proof {
                            let rest = readings@.skip(polls as int);
                            assert(rest[0] == read);
                            assert(rest.drop_first() == readings@.skip(polls + 1));
                        }
                        polls = polls + 1;
                        if read != level {
                            machine.advance(Event::Level(read));
                            continue ;
                        }
                        Event::Level(read)
                    },
                }
            },
        };
        machine.advance(event);
        finished = finished + 1;
    }
}

/// The registers a run leaves behind are the initial ones with the trace
/// written to them, first write to last.
pub proof fn lemma_registers_replay_trace(ops: Seq<Op>, initial: RegisterFile, n: nat)
    ensures
        registers_at(ops, initial, n) == initial.after_all(trace_at(ops, n)),
    decreases n,
{
    if n > 0 {
        let before = (n - 1) as nat;
        lemma_registers_replay_trace(ops, initial, before);
        match ops[n - 1] {
            Op::Write(txn) => {
                assert(trace_at(ops, before).push(txn).drop_last() == trace_at(ops, before));
            },
            _ => {},
        }
    }
}

/// A run never moves backwards, never leaves the schedule, and rests
/// either at its end or in a wait.
pub proof fn lemma_reach_bounds(
    ops: Seq<Op>,
    initial: RegisterFile,
    pos: nat,
    readings: Seq<bool>,
)
    requires
        pos <= ops.len(),
    ensures
        pos <= reach(ops, initial, pos, readings) <= ops.len(),
        reach(ops, initial, pos, readings) < ops.len() ==> ops[reach(
            ops,
            initial,
            pos,
            readings,
        ) as int] is Await,
    decreases readings.len(), ops.len() - pos,
{
    if pos < ops.len() {
        match ops[pos as int] {
            Op::Await { flag, level } => match registers_at(ops, initial, pos).spec_readback(
                flag,
            ) {
                Some(read) => {
                    if read == level {
                        lemma_reach_bounds(ops, initial, pos + 1, readings);
                    }
                },
                None => {
                    if readings.len() > 0 {
                        if readings[0] == level {
                            lemma_reach_bounds(ops, initial, pos + 1, readings.drop_first());
                        } else {
                            lemma_reach_bounds(ops, initial, pos, readings.drop_first());
                        }
                    }
                },
            },
            _ => {
                lemma_reach_bounds(ops, initial, pos + 1, readings);
            },
        }
    }
}

/// A run over `first + second` is the run over `first`, continued over
/// `second` from where it came to rest.
pub proof fn lemma_reach_continues(
    ops: Seq<Op>,
    initial: RegisterFile,
    pos: nat,
    first: Seq<bool>,
    second: Seq<bool>,
)
    ensures
        reach(ops, initial, pos, first + second) == reach(
            ops,
            initial,
            reach(ops, initial, pos, first),
            second,
        ),
    decreases first.len(), ops.len() - pos,
{
    if pos < ops.len() {
        match ops[pos as int] {
            Op::Await { flag, level } => match registers_at(ops, initial, pos).spec_readback(
                flag,
            ) {
                Some(read) => {
                    if read == level {
                        lemma_reach_continues(ops, initial, pos + 1, first, second);
                    }
                },
                None => {
                    if first.len() == 0 {
                        assert(first + second == second);
                    } else {
                        assert((first + second).drop_first() == first.drop_first() + second);
                        if first[0] == level {
                            lemma_reach_continues(
                                ops,
                                initial,
                                pos + 1,
                                first.drop_first(),
                                second,
                            );
                        } else {
                            lemma_reach_continues(ops, initial, pos, first.drop_first(), second);
                        }
                    }
                },
            },
            _ => {
                lemma_reach_continues(ops, initial, pos + 1, first, second);
            },
        }
    }
}

/// A run that starts at or before a wait on a hardware-driven flag and
/// never reads the awaited level does not get past that wait, however
/// long it polls.
pub proof fn lemma_unready_wait_is_never_passed(
    ops: Seq<Op>,
    initial: RegisterFile,
    pos: nat,
    wait: nat,
    readings: Seq<bool>,
)
    requires
        pos <= wait < ops.len(),
        ops[wait as int] is Await,
        ops[wait as int]->flag.hardware_driven(),
        forall|i: int| 0 <= i < readings.len() ==> readings[i] != ops[wait as int]->level,
    ensures
        reach(ops, initial, pos, readings) <= wait,
    decreases readings.len(), ops.len() - pos,
{
    match ops[pos as int] {
        Op::Await { flag, level } => match registers_at(ops, initial, pos).spec_readback(flag) {
            Some(read) => {
                if read == level {
                    lemma_unready_wait_is_never_passed(ops, initial, pos + 1, wait, readings);
                }
            },
            None => {
                if readings.len() > 0 {
                    let rest = readings.drop_first();
                    assert forall|i: int| 0 <= i < rest.len() implies rest[i] != ops[wait as int]->level by {
                        assert(rest[i] == readings[i + 1]);
                    }
                    if readings[0] == level {
                        lemma_unready_wait_is_never_passed(ops, initial, pos + 1, wait, rest);
                    } else {
                        lemma_unready_wait_is_never_passed(ops, initial, pos, wait, rest);
                    }
                }
            },
        },
        _ => {
            lemma_unready_wait_is_never_passed(ops, initial, pos + 1, wait, readings);
        },
    }
}

/// Once a run rests in a wait on a hardware-driven flag, further polls
/// that never read the awaited level leave it there: it finishes no
/// further operation and issues no further write.
pub proof fn lemma_forced_unready_flag_hangs(
    ops: Seq<Op>,
    initial: RegisterFile,
    before: Seq<bool>,
    after: Seq<bool>,
)
    requires
        reach(ops, initial, 0, before) < ops.len(),
        ops[reach(ops, initial, 0, before) as int]->flag.hardware_driven(),
        forall|i: int|
            0 <= i < after.len() ==> after[i] != ops[reach(ops, initial, 0, before) as int]->level,
    ensures
        reach(ops, initial, 0, before + after) == reach(ops, initial, 0, before),
        trace_at(ops, reach(ops, initial, 0, before + after)) == trace_at(
            ops,
            reach(ops, initial, 0, before),
        ),
{
    let rest = reach(ops, initial, 0, before);
    lemma_reach_bounds(ops, initial, 0, before);
    lemma_reach_continues(ops, initial, 0, before, after);
    lemma_unready_wait_is_never_passed(ops, initial, rest, rest, after);
    lemma_reach_bounds(ops, initial, rest, after);
}

/// The number of waits on hardware-driven flags among the operations of
/// `ops` from index `from` on.
pub open spec fn hardware_waits(ops: Seq<Op>, from: nat) -> nat
    decreases ops.len() - from,
{
    if from >= ops.len() {
        0
    } else if ops[from as int] is Await && ops[from as int]->flag.hardware_driven() {
        1 + hardware_waits(ops, from + 1)
    } else {
        hardware_waits(ops, from + 1)
    }
}

/// Whether a run from `pos` on meets only waits that responsive hardware
/// satisfies: a hardware-driven flag is awaited high, and a control bit
/// read back already has the awaited level.
pub open spec fn waits_answerable(ops: Seq<Op>, initial: RegisterFile, pos: nat) -> bool {
    forall|k: int|
        pos <= k < ops.len() && (#[trigger] ops[k]) is Await ==> if ops[k]->flag.hardware_driven() {
            ops[k]->level
        } else {
            registers_at(ops, initial, k as nat).spec_readback(ops[k]->flag) == Some(
                ops[k]->level,
            )
        }
}

/// A run whose polls all read high finishes the schedule, given one
/// reading for each wait on a hardware-driven flag.
pub proof fn lemma_answered_run_completes(
    ops: Seq<Op>,
    initial: RegisterFile,
    pos: nat,
    readings: Seq<bool>,
)
    requires
        pos <= ops.len(),
        waits_answerable(ops, initial, pos),
        readings.len() >= hardware_waits(ops, pos),
        forall|i: int| 0 <= i < readings.len() ==> readings[i],
    ensures
        reach(ops, initial, pos, readings) == ops.len(),
    decreases ops.len() - pos,
{
    if pos < ops.len() {
        let op = ops[pos as int];
        if op is Await && op->flag.hardware_driven() {
            let rest = readings.drop_first();
            assert forall|i: int| 0 <= i < rest.len() implies rest[i] by {
                assert(rest[i] == readings[i + 1]);
            }
            lemma_answered_run_completes(ops, initial, pos + 1, rest);
        } else {
            lemma_answered_run_completes(ops, initial, pos + 1, readings);
        }
    }
}

/// On hardware that answers every poll with "ready", the bring-up runs to
/// completion: three readings suffice without over-drive, five with it.
pub proof fn lemma_responsive_run_completes(
    profile: ChipProfile,
    caps: Capabilities,
    initial: RegisterFile,
    readings: Seq<bool>,
)
    requires
        readings.len() >= (if profile.overdrive_enabled { 5int } else { 3int }),
        forall|i: int| 0 <= i < readings.len() ==> readings[i],
    ensures
        reach(schedule(profile, caps), initial, 0, readings) == schedule(profile, caps).len(),
{
    let ops = schedule(profile, caps);
    lemma_schedule_layout(profile, caps);
    let od = overdrive_len(profile);
    assert(hardware_waits(ops, 13 + od) == 2) by {
        reveal_with_fuel(hardware_waits, 8);
    }
    assert(hardware_waits(ops, 13) == 2 + od / 2) by {
        reveal_with_fuel(hardware_waits, 5);
    }
    assert(hardware_waits(ops, 7) == 3 + od / 2) by {
        reveal_with_fuel(hardware_waits, 7);
    }
    assert(hardware_waits(ops, 0) == 3 + od / 2) by {
        reveal_with_fuel(hardware_waits, 8);
    }
    assert(waits_answerable(ops, initial, 0)) by {
        reveal_with_fuel(registers_at, 2);
    }
    lemma_answered_run_completes(ops, initial, 0, readings);
}

/// The PLL is shut down first, and the wait that confirms it always
/// passes: the enable bit reads back as off once it has been cleared. On a
/// PLL that was off already the step changes no register.
pub proof fn lemma_pll_disable_step_is_idempotent(
    profile: ChipProfile,
    caps: Capabilities,
    initial: RegisterFile,
    readings: Seq<bool>,
)
    ensures
        schedule(profile, caps)[0] == Op::Write(Transaction::PllPower(false)),
        schedule(profile, caps)[1] == (Op::Await { flag: StatusFlag::PllOn, level: false }),
        registers_at(schedule(profile, caps), initial, 1).spec_readback(StatusFlag::PllOn) == Some(
            false,
        ),
        !initial.pll_on ==> registers_at(schedule(profile, caps), initial, 2) == initial,
        reach(schedule(profile, caps), initial, 0, readings) >= 2,
{
    let ops = schedule(profile, caps);
    lemma_schedule_layout(profile, caps);
    reveal_with_fuel(registers_at, 3);
    assert(reach(ops, initial, 0, readings) == reach(ops, initial, 1, readings));
    assert(reach(ops, initial, 1, readings) == reach(ops, initial, 2, readings));
    lemma_reach_bounds(ops, initial, 2, readings);
}

/// The PLL configuration register is written only while the PLL enable bit
/// is clear, whatever the registers held at the start.
pub proof fn lemma_pll_configured_while_off(
    profile: ChipProfile,
    caps: Capabilities,
    initial: RegisterFile,
    n: nat,
)
    requires
        n < schedule(profile, caps).len(),
        schedule(profile, caps)[n as int] is Write,
        schedule(profile, caps)[n as int]->Write_0.spec_register() == Register::RccPllCfgr,
    ensures
        !registers_at(schedule(profile, caps), initial, n).pll_on,
{
    lemma_schedule_layout(profile, caps);
    reveal_with_fuel(registers_at, 11);
    assert(n == 8 || n == 10);
}

/// The registers after `to` operations are those after `from` operations
/// with the writes in between applied in order. At most seven operations
/// are unfolded at a time.
proof fn lemma_registers_advance(ops: Seq<Op>, initial: RegisterFile, from: nat, to: nat)
    requires
        from <= to <= from + 7,
    ensures
        registers_at(ops, initial, to) == registers_between(
            ops,
            registers_at(ops, initial, from),
            from,
            to,
        ),
    decreases to - from,
{
    if from < to {
        lemma_registers_advance(ops, initial, from, (to - 1) as nat);
    }
}

/// The registers `start` with the writes among the operations `from` up
/// to `to` of `ops` applied in order.
spec fn registers_between(ops: Seq<Op>, start: RegisterFile, from: nat, to: nat) -> RegisterFile
    decreases to - from,
{
    if from >= to {
        start
    } else {
        let before = registers_between(ops, start, from, (to - 1) as nat);
        match ops[to - 1] {
            Op::Write(txn) => before.after(txn),
            _ => before,
        }
    }
}

/// The registers after a completed bring-up, as the initial registers with
/// each write of the schedule applied in turn.
spec fn configured_registers(
    profile: ChipProfile,
    caps: Capabilities,
    initial: RegisterFile,
) -> RegisterFile {
    let at_pll_start = initial.after(Transaction::PllPower(false)).after(
        Transaction::PowerClockEnable,
    ).after(Transaction::VoltageScale(profile.voltage_scale)).after(
        Transaction::OscillatorEnable,
    ).after(Transaction::PllSourceExternal).after(coefficient_write(profile)).after(
        Transaction::PllPower(true),
    );
    let at_pll_lock = if profile.overdrive_enabled {
        at_pll_start.after(Transaction::OverdriveEnable).after(Transaction::OverdriveSwitch)
    } else {
        at_pll_start
    };
    let at_switch = at_pll_lock.after(Transaction::FlashLatency(profile.flash_wait_states)).after(
        prescaler_write(profile),
    ).after(Transaction::SystemClockPll);
    if caps.clk48_mux {
        at_switch.after(Transaction::Clk48Pll)
    } else {
        at_switch
    }
}

/// The registers when the PLL has just been started again.
proof fn lemma_registers_at_pll_start(
    profile: ChipProfile,
    caps: Capabilities,
    initial: RegisterFile,
)
    ensures
        registers_at(schedule(profile, caps), initial, 13) == initial.after(
            Transaction::PllPower(false),
        ).after(Transaction::PowerClockEnable).after(
            Transaction::VoltageScale(profile.voltage_scale),
        ).after(Transaction::OscillatorEnable).after(Transaction::PllSourceExternal).after(
            coefficient_write(profile),
        ).after(Transaction::PllPower(true)),
{
    let ops = schedule(profile, caps);
    lemma_schedule_layout(profile, caps);
    lemma_registers_advance(ops, initial, 0, 7);
    lemma_registers_advance(ops, initial, 7, 13);
    reveal_with_fuel(registers_between, 8);
}

/// The registers when the wait for PLL lock begins: over-drive has been
/// entered by then if the profile asks for it.
proof fn lemma_registers_at_pll_lock(
    profile: ChipProfile,
    caps: Capabilities,
    initial: RegisterFile,
)
    ensures
        registers_at(schedule(profile, caps), initial, 13 + overdrive_len(profile)) == if 
            profile.overdrive_enabled {
            registers_at(schedule(profile, caps), initial, 13).after(
                Transaction::OverdriveEnable,
            ).after(Transaction::OverdriveSwitch)
        } else {
            registers_at(schedule(profile, caps), initial, 13)
        },
{
    let ops = schedule(profile, caps);
    lemma_schedule_layout(profile, caps);
    if profile.overdrive_enabled {
        lemma_registers_advance(ops, initial, 13, 17);
        reveal_with_fuel(registers_between, 5);
    }
}

/// The registers when the system clock has been switched.
proof fn lemma_registers_at_clock_switch(
    profile: ChipProfile,
    caps: Capabilities,
    initial: RegisterFile,
)
    ensures
        registers_at(schedule(profile, caps), initial, 19 + overdrive_len(profile))
            == registers_at(schedule(profile, caps), initial, 13 + overdrive_len(profile)).after(
            Transaction::FlashLatency(profile.flash_wait_states),
        ).after(prescaler_write(profile)).after(Transaction::SystemClockPll),
{
    let ops = schedule(profile, caps);
    lemma_schedule_layout(profile, caps);
    if profile.overdrive_enabled {
        lemma_registers_advance(ops, initial, 17, 23);
    } else {
        lemma_registers_advance(ops, initial, 13, 19);
    }
    reveal_with_fuel(registers_between, 7);
}

/// The registers at the end of the schedule.
proof fn lemma_registers_when_configured(
    profile: ChipProfile,
    caps: Capabilities,
    initial: RegisterFile,
)
    ensures
        registers_at(schedule(profile, caps), initial, schedule(profile, caps).len())
            == configured_registers(profile, caps, initial),
{
    let ops = schedule(profile, caps);
    let od = overdrive_len(profile);
    lemma_schedule_layout(profile, caps);
    lemma_registers_at_pll_start(profile, caps, initial);
    lemma_registers_at_pll_lock(profile, caps, initial);
    lemma_registers_at_clock_switch(profile, caps, initial);
    if caps.clk48_mux {
        assert(registers_at(ops, initial, 20 + od) == registers_at(ops, initial, 19 + od).after(
            Transaction::Clk48Pll,
        ));
    }
}

/// A completed bring-up leaves every field at the value the profile gives
/// it, with the PLL running and selected as system clock, whatever the
/// registers held at the start. Fields of steps that do not apply keep
/// their initial value.
pub proof fn lemma_configured_registers_match_profile(
    profile: ChipProfile,
    caps: Capabilities,
    initial: RegisterFile,
)
    ensures
        registers_at(schedule(profile, caps), initial, schedule(profile, caps).len())
            == (RegisterFile {
            pll_on: true,
            oscillator_on: true,
            pll_source_external: true,
            pll_input_div: profile.pll_input_div,
            pll_vco_mult: profile.pll_vco_mult,
            pll_sys_div: profile.pll_sys_div,
            pll_usb_div: profile.pll_usb_div,
            system_clock_pll: true,
            ahb_prescaler: profile.ahb_prescaler,
            apb1_prescaler: profile.apb1_prescaler,
            apb2_prescaler: profile.apb2_prescaler,
            power_clock: true,
            clk48_pll: caps.clk48_mux || initial.clk48_pll,
            voltage_scale: profile.voltage_scale,
            overdrive: profile.overdrive_enabled || initial.overdrive,
            overdrive_switch: profile.overdrive_enabled || initial.overdrive_switch,
            flash_wait_states: profile.flash_wait_states,
        }),
{
    lemma_registers_when_configured(profile, caps, initial);
}

} // verus!
