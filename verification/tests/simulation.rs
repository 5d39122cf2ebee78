use stm32_clock::profile::{
    AhbPrescaler, ApbPrescaler, Capabilities, ChipProfile, PllSysDiv, Target,
};
use stm32_clock::registers::{RegisterFile, StatusFlag, Transaction};
use stm32_clock::simulation::{simulate, Outcome, Run};

/// The control fields as a reset leaves them.
fn after_reset() -> RegisterFile {
    RegisterFile {
        pll_on: false,
        oscillator_on: false,
        pll_source_external: false,
        pll_input_div: 16,
        pll_vco_mult: 192,
        pll_sys_div: PllSysDiv::Div2,
        pll_usb_div: 4,
        system_clock_pll: false,
        ahb_prescaler: AhbPrescaler::Div1,
        apb1_prescaler: ApbPrescaler::Div1,
        apb2_prescaler: ApbPrescaler::Div1,
        power_clock: false,
        clk48_pll: false,
        voltage_scale: 2,
        overdrive: false,
        overdrive_switch: false,
        flash_wait_states: 0,
    }
}

/// The control fields as an earlier bring-up with other settings left them.
fn running_on_pll() -> RegisterFile {
    RegisterFile {
        pll_on: true,
        oscillator_on: true,
        pll_source_external: true,
        pll_input_div: 4,
        pll_vco_mult: 100,
        pll_sys_div: PllSysDiv::Div8,
        pll_usb_div: 7,
        system_clock_pll: true,
        ahb_prescaler: AhbPrescaler::Div512,
        apb1_prescaler: ApbPrescaler::Div16,
        apb2_prescaler: ApbPrescaler::Div8,
        power_clock: true,
        clk48_pll: false,
        voltage_scale: 1,
        overdrive: false,
        overdrive_switch: false,
        flash_wait_states: 15,
    }
}

fn run_on(target: Target, initial: RegisterFile, readings: &[bool]) -> Run {
    simulate(target.profile(), target.capabilities(), initial, &readings.to_vec())
}

fn position(writes: &[Transaction], wanted: &Transaction) -> Option<usize> {
    writes.iter().position(|t| t == wanted)
}

fn replay(initial: RegisterFile, writes: &[Transaction]) -> RegisterFile {
    let mut regs = initial;
    for txn in writes {
        regs.apply(*txn);
    }
    regs
}

#[test]
fn profile_fidelity_at_96mhz() {
    let profile = ChipProfile {
        pll_input_div: 25,
        pll_vco_mult: 192,
        pll_sys_div: PllSysDiv::Div2,
        pll_usb_div: 4,
        voltage_scale: 3,
        overdrive_enabled: false,
        flash_wait_states: 3,
        ahb_prescaler: AhbPrescaler::Div1,
        apb1_prescaler: ApbPrescaler::Div2,
        apb2_prescaler: ApbPrescaler::Div1,
    };
    let run = simulate(profile, Capabilities { clk48_mux: false }, after_reset(), &vec![true; 3]);
    assert_eq!(run.outcome, Outcome::Configured);
    assert!(run.registers.system_clock_pll);
    assert_eq!(run.registers.flash_wait_states, 3);
    assert_eq!(run.registers.ahb_prescaler, AhbPrescaler::Div1);
    assert_eq!(run.registers.apb1_prescaler, ApbPrescaler::Div2);
    assert_eq!(run.registers.apb2_prescaler, ApbPrescaler::Div1);
    assert_eq!(
        run.registers,
        RegisterFile {
            pll_on: true,
            oscillator_on: true,
            pll_source_external: true,
            pll_input_div: 25,
            pll_vco_mult: 192,
            pll_sys_div: PllSysDiv::Div2,
            pll_usb_div: 4,
            system_clock_pll: true,
            ahb_prescaler: AhbPrescaler::Div1,
            apb1_prescaler: ApbPrescaler::Div2,
            apb2_prescaler: ApbPrescaler::Div1,
            power_clock: true,
            clk48_pll: false,
            voltage_scale: 3,
            overdrive: false,
            overdrive_switch: false,
            flash_wait_states: 3,
        }
    );
}

#[test]
fn profile_fidelity_at_216mhz() {
    let run = run_on(Target::Stm32f767, after_reset(), &[true; 5]);
    assert_eq!(run.outcome, Outcome::Configured);
    assert_eq!(run.finished, 24);
    assert_eq!(
        run.registers,
        RegisterFile {
            pll_on: true,
            oscillator_on: true,
            pll_source_external: true,
            pll_input_div: 8,
            pll_vco_mult: 216,
            pll_sys_div: PllSysDiv::Div2,
            pll_usb_div: 9,
            system_clock_pll: true,
            ahb_prescaler: AhbPrescaler::Div1,
            apb1_prescaler: ApbPrescaler::Div4,
            apb2_prescaler: ApbPrescaler::Div2,
            power_clock: true,
            clk48_pll: true,
            voltage_scale: 3,
            overdrive: true,
            overdrive_switch: true,
            flash_wait_states: 7,
        }
    );
}

#[test]
fn final_registers_do_not_depend_on_the_initial_ones() {
    let from_reset = run_on(Target::Stm32f767, after_reset(), &[true; 5]);
    let from_pll = run_on(Target::Stm32f767, running_on_pll(), &[true; 5]);
    assert_eq!(from_reset.registers, from_pll.registers);
    assert_eq!(from_reset.writes, from_pll.writes);
}

#[test]
fn stm32f411_trace_in_full() {
    let run = run_on(Target::Stm32f411, after_reset(), &[true; 3]);
    assert_eq!(run.finished, 19);
    assert_eq!(
        run.writes,
        vec![
            Transaction::PllPower(false),
            Transaction::PowerClockEnable,
            Transaction::VoltageScale(3),
            Transaction::OscillatorEnable,
            Transaction::PllSourceExternal,
            Transaction::PllCoefficients {
                input_div: 25,
                vco_mult: 192,
                sys_div: PllSysDiv::Div2,
                usb_div: 4,
            },
            Transaction::PllPower(true),
            Transaction::FlashLatency(3),
            Transaction::BusPrescalers {
                ahb: AhbPrescaler::Div1,
                apb1: ApbPrescaler::Div2,
                apb2: ApbPrescaler::Div1,
            },
            Transaction::SystemClockPll,
        ]
    );
}

#[test]
fn writes_follow_the_step_order() {
    for target in [Target::Stm32f411, Target::Stm32f767] {
        let run = run_on(target, after_reset(), &[true; 5]);
        assert_eq!(run.outcome, Outcome::Configured);
        for pair in run.writes.windows(2) {
            assert!(pair[0].step().rank() < pair[1].step().rank());
        }
    }
}

#[test]
fn pll_is_configured_only_while_disabled() {
    for target in [Target::Stm32f411, Target::Stm32f767] {
        let run = run_on(target, running_on_pll(), &[true; 5]);
        let source = position(&run.writes, &Transaction::PllSourceExternal).unwrap();
        let coefficients = run
            .writes
            .iter()
            .position(|t| matches!(t, Transaction::PllCoefficients { .. }))
            .unwrap();
        assert!(!replay(running_on_pll(), &run.writes[..source]).pll_on);
        assert!(!replay(running_on_pll(), &run.writes[..coefficients]).pll_on);
        assert!(replay(running_on_pll(), &run.writes).pll_on);
    }
}

#[test]
fn registers_are_the_trace_replayed() {
    for readings in [0usize, 1, 2, 3, 4, 5] {
        let run = run_on(Target::Stm32f767, running_on_pll(), &vec![true; readings]);
        assert_eq!(run.registers, replay(running_on_pll(), &run.writes));
    }
}

#[test]
fn disabling_a_disabled_pll_changes_nothing() {
    let mut regs = after_reset();
    regs.apply(Transaction::PllPower(false));
    assert_eq!(regs, after_reset());
    assert_eq!(regs.readback(StatusFlag::PllOn), Some(false));
}

#[test]
fn disabling_a_running_pll_is_confirmed_too() {
    let mut regs = running_on_pll();
    regs.apply(Transaction::PllPower(false));
    assert_eq!(regs.readback(StatusFlag::PllOn), Some(false));
    regs.apply(Transaction::PllPower(false));
    assert_eq!(regs.readback(StatusFlag::PllOn), Some(false));
    assert_eq!(regs, RegisterFile { pll_on: false, ..running_on_pll() });
}

#[test]
fn the_pll_off_wait_needs_no_reading() {
    for initial in [after_reset(), running_on_pll()] {
        let run = run_on(Target::Stm32f411, initial, &[]);
        assert_eq!(run.finished, 7);
        assert_eq!(run.outcome, Outcome::HardwareNotReady(StatusFlag::OscillatorReady));
        assert!(!run.registers.pll_on);
    }
}

#[test]
fn only_the_pll_enable_bit_is_read_back() {
    let regs = running_on_pll();
    assert_eq!(regs.readback(StatusFlag::PllOn), Some(true));
    assert_eq!(regs.readback(StatusFlag::OscillatorReady), None);
    assert_eq!(regs.readback(StatusFlag::PllReady), None);
    assert_eq!(regs.readback(StatusFlag::OverdriveReady), None);
    assert_eq!(regs.readback(StatusFlag::OverdriveSwitchReady), None);
    assert_eq!(regs.readback(StatusFlag::SystemClockIsPll), None);
}

#[test]
fn grouped_fields_are_written_in_one_transaction() {
    for target in [Target::Stm32f411, Target::Stm32f767] {
        let run = run_on(target, after_reset(), &[true; 5]);
        let p = target.profile();
        let coefficient_writes: Vec<&Transaction> = run
            .writes
            .iter()
            .filter(|t| matches!(t, Transaction::PllCoefficients { .. }))
            .collect();
        assert_eq!(
            coefficient_writes,
            vec![&Transaction::PllCoefficients {
                input_div: p.pll_input_div,
                vco_mult: p.pll_vco_mult,
                sys_div: p.pll_sys_div,
                usb_div: p.pll_usb_div,
            }]
        );
        let prescaler_writes: Vec<&Transaction> = run
            .writes
            .iter()
            .filter(|t| matches!(t, Transaction::BusPrescalers { .. }))
            .collect();
        assert_eq!(
            prescaler_writes,
            vec![&Transaction::BusPrescalers {
                ahb: p.ahb_prescaler,
                apb1: p.apb1_prescaler,
                apb2: p.apb2_prescaler,
            }]
        );
    }
}

#[test]
fn overdrive_comes_before_the_pll_ready_wait() {
    // Three readings answer the oscillator and both over-drive waits; the
    // run is then cut off in the wait for PLL lock.
    let run = run_on(Target::Stm32f767, after_reset(), &[true; 3]);
    assert_eq!(run.outcome, Outcome::HardwareNotReady(StatusFlag::PllReady));
    assert_eq!(run.finished, 17);
    let enable = position(&run.writes, &Transaction::OverdriveEnable).unwrap();
    let switch = position(&run.writes, &Transaction::OverdriveSwitch).unwrap();
    let pll_on = position(&run.writes, &Transaction::PllPower(true)).unwrap();
    assert!(pll_on < enable);
    assert!(enable < switch);
    assert_eq!(run.writes.len(), switch + 1);
    assert!(run.registers.overdrive);
    assert!(run.registers.overdrive_switch);
}

#[test]
fn each_overdrive_write_waits_for_its_ready_bit() {
    let run = run_on(Target::Stm32f767, after_reset(), &[true]);
    assert_eq!(run.outcome, Outcome::HardwareNotReady(StatusFlag::OverdriveReady));
    assert_eq!(run.writes.last(), Some(&Transaction::OverdriveEnable));
    let run = run_on(Target::Stm32f767, after_reset(), &[true, true]);
    assert_eq!(run.outcome, Outcome::HardwareNotReady(StatusFlag::OverdriveSwitchReady));
    assert_eq!(run.writes.last(), Some(&Transaction::OverdriveSwitch));
}

#[test]
fn no_overdrive_without_the_profile_asking() {
    let run = run_on(Target::Stm32f411, after_reset(), &[true; 3]);
    assert_eq!(run.outcome, Outcome::Configured);
    assert_eq!(position(&run.writes, &Transaction::OverdriveEnable), None);
    assert_eq!(position(&run.writes, &Transaction::OverdriveSwitch), None);
    assert!(!run.registers.overdrive);
    assert!(!run.registers.overdrive_switch);

    let plain = ChipProfile { overdrive_enabled: false, ..Target::Stm32f767.profile() };
    let run = simulate(plain, Target::Stm32f767.capabilities(), after_reset(), &vec![true; 3]);
    assert_eq!(run.outcome, Outcome::Configured);
    assert_eq!(position(&run.writes, &Transaction::OverdriveEnable), None);
    assert_eq!(position(&run.writes, &Transaction::OverdriveSwitch), None);
}

#[test]
fn flash_latency_is_set_before_the_clock_switch() {
    for target in [Target::Stm32f411, Target::Stm32f767] {
        let run = run_on(target, after_reset(), &[true; 5]);
        let latency = run
            .writes
            .iter()
            .position(|t| matches!(t, Transaction::FlashLatency(_)))
            .unwrap();
        let switch = position(&run.writes, &Transaction::SystemClockPll).unwrap();
        assert!(latency < switch);
        assert_eq!(
            run.writes[latency],
            Transaction::FlashLatency(target.profile().flash_wait_states)
        );
    }
}

#[test]
fn an_oscillator_that_never_starts_hangs_the_bring_up() {
    let short = run_on(Target::Stm32f411, after_reset(), &[false; 10]);
    let long = run_on(Target::Stm32f411, after_reset(), &[false; 10_000]);
    for run in [&short, &long] {
        assert_eq!(run.outcome, Outcome::HardwareNotReady(StatusFlag::OscillatorReady));
        assert_eq!(run.finished, 7);
        assert_eq!(
            run.writes,
            vec![
                Transaction::PllPower(false),
                Transaction::PowerClockEnable,
                Transaction::VoltageScale(3),
                Transaction::OscillatorEnable,
            ]
        );
    }
    assert_eq!(short.registers, long.registers);
}

#[test]
fn a_pll_that_never_locks_hangs_the_bring_up() {
    let mut readings = vec![true];
    readings.extend(vec![false; 500]);
    let run = run_on(Target::Stm32f411, after_reset(), &readings);
    assert_eq!(run.outcome, Outcome::HardwareNotReady(StatusFlag::PllReady));
    assert_eq!(run.finished, 13);
    assert_eq!(run.writes.last(), Some(&Transaction::PllPower(true)));
    assert_eq!(run.registers.flash_wait_states, 0);
    assert!(!run.registers.system_clock_pll);
}

#[test]
fn a_clock_switch_that_is_never_confirmed_hangs_the_bring_up() {
    let mut readings = vec![true; 4];
    readings.extend(vec![false; 500]);
    let run = run_on(Target::Stm32f767, after_reset(), &readings);
    assert_eq!(run.outcome, Outcome::HardwareNotReady(StatusFlag::SystemClockIsPll));
    assert_eq!(run.finished, 22);
    assert_eq!(run.writes.last(), Some(&Transaction::SystemClockPll));
    assert!(!run.registers.clk48_pll);
}

#[test]
fn slow_hardware_only_delays_the_bring_up() {
    let readings = [false, false, true, false, true, true];
    let slow = run_on(Target::Stm32f411, after_reset(), &readings);
    let fast = run_on(Target::Stm32f411, after_reset(), &[true; 3]);
    assert_eq!(slow.outcome, Outcome::Configured);
    assert_eq!(slow.writes, fast.writes);
    assert_eq!(slow.registers, fast.registers);
}

#[test]
fn readings_left_over_are_ignored() {
    let run = run_on(Target::Stm32f411, after_reset(), &[true, true, true, false, false]);
    assert_eq!(run.outcome, Outcome::Configured);
    assert_eq!(run.finished, 19);
}

#[test]
fn peripheral_clock_is_selected_last_where_the_chip_has_the_mux() {
    let run = run_on(Target::Stm32f767, after_reset(), &[true; 5]);
    assert_eq!(run.writes.last(), Some(&Transaction::Clk48Pll));
    let run = run_on(Target::Stm32f411, after_reset(), &[true; 3]);
    assert_eq!(run.writes.last(), Some(&Transaction::SystemClockPll));
    assert_eq!(position(&run.writes, &Transaction::Clk48Pll), None);
}

#[test]
fn every_write_changes_only_its_own_fields() {
    let mut regs = after_reset();
    regs.apply(Transaction::PllCoefficients {
        input_div: 8,
        vco_mult: 216,
        sys_div: PllSysDiv::Div4,
        usb_div: 9,
    });
    assert_eq!(
        regs,
        RegisterFile {
            pll_input_div: 8,
            pll_vco_mult: 216,
            pll_sys_div: PllSysDiv::Div4,
            pll_usb_div: 9,
            ..after_reset()
        }
    );
    regs.apply(Transaction::BusPrescalers {
        ahb: AhbPrescaler::Div2,
        apb1: ApbPrescaler::Div4,
        apb2: ApbPrescaler::Div8,
    });
    regs.apply(Transaction::VoltageScale(1));
    regs.apply(Transaction::FlashLatency(5));
    regs.apply(Transaction::PowerClockEnable);
    regs.apply(Transaction::OscillatorEnable);
    regs.apply(Transaction::PllSourceExternal);
    regs.apply(Transaction::OverdriveEnable);
    regs.apply(Transaction::OverdriveSwitch);
    regs.apply(Transaction::SystemClockPll);
    regs.apply(Transaction::Clk48Pll);
    regs.apply(Transaction::PllPower(true));
    assert_eq!(
        regs,
        RegisterFile {
            pll_on: true,
            oscillator_on: true,
            pll_source_external: true,
            pll_input_div: 8,
            pll_vco_mult: 216,
            pll_sys_div: PllSysDiv::Div4,
            pll_usb_div: 9,
            system_clock_pll: true,
            ahb_prescaler: AhbPrescaler::Div2,
            apb1_prescaler: ApbPrescaler::Div4,
            apb2_prescaler: ApbPrescaler::Div8,
            power_clock: true,
            clk48_pll: true,
            voltage_scale: 1,
            overdrive: true,
            overdrive_switch: true,
            flash_wait_states: 5,
        }
    );
}
