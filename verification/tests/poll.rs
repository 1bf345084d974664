use da14531_hal::poll::{Budget, Polled, Stalled};
use da14531_hal::regs::{CpuOp, Field, Instr};

#[test]
fn a_settled_field_ends_the_wait_at_once() {
    let mut budget = Budget::new(Some(0));
    assert_eq!(budget.observe(Instr::WaitSet(Field::Tfe), 1), Polled::Settled);
    assert_eq!(budget.observe(Instr::WaitSet(Field::Tfe), 0x80), Polled::Settled);
    assert_eq!(budget.observe(Instr::WaitClear(Field::DbgIsUp), 0), Polled::Settled);
    assert_eq!(budget.observe(Instr::Cpu(CpuOp::Nop), 0), Polled::Settled);
    assert_eq!(budget.observe(Instr::Touch(Field::ClrTxAbrt), 5), Polled::Settled);
}

#[test]
fn a_budget_of_three_gives_up_at_the_fourth_poll() {
    let mut budget = Budget::new(Some(3));
    let wait = Instr::WaitSet(Field::CtrlEnable);
    assert_eq!(budget.observe(wait, 0), Polled::Again);
    assert_eq!(budget.observe(wait, 0), Polled::Again);
    assert_eq!(budget.observe(wait, 0), Polled::Again);
    assert_eq!(budget.observe(wait, 0), Polled::TimedOut);
    assert_eq!(budget.observe(wait, 0), Polled::TimedOut);
    assert_eq!(budget.observe(wait, 1), Polled::Settled);
}

#[test]
fn a_budget_of_nothing_gives_up_at_the_first_unsettled_poll() {
    let mut budget = Budget::new(Some(0));
    assert_eq!(budget.observe(Instr::WaitClear(Field::GpAdcStart), 1), Polled::TimedOut);
}

#[test]
fn settling_in_time_costs_only_the_polls_before() {
    let mut budget = Budget::new(Some(2));
    let wait = Instr::WaitClear(Field::MstActivity);
    assert_eq!(budget.observe(wait, 1), Polled::Again);
    assert_eq!(budget.observe(wait, 0), Polled::Settled);
    assert_eq!(budget.observe(wait, 1), Polled::Again);
    assert_eq!(budget.observe(wait, 1), Polled::TimedOut);
}

#[test]
fn without_limit_a_wait_never_gives_up() {
    let mut budget = Budget::new(None);
    let wait = Instr::WaitSet(Field::Rxflr);
    for _ in 0..10_000 {
        assert_eq!(budget.observe(wait, 0), Polled::Again);
    }
    assert_eq!(budget.observe(wait, 3), Polled::Settled);
}

#[test]
fn a_stall_names_the_wait() {
    assert_eq!(Stalled { at: 4 }, Stalled { at: 4 });
    assert_ne!(Stalled { at: 4 }, Stalled { at: 5 });
}
