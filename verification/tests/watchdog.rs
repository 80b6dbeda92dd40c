use emonhp::watchdog::{WdtAction, WdtTask, WDT_TIMEOUT_US};

#[test]
fn unleashed_once_then_petted_after_every_pause() {
    let mut task = WdtTask::new();
    assert_eq!(task.action(), WdtAction::Unleash);
    task.advance();
    for _ in 0..5 {
        assert_eq!(task.action(), WdtAction::Pause(250));
        task.advance();
        assert_eq!(task.action(), WdtAction::Pet);
        task.advance();
    }
}

#[test]
fn watchdog_waits_a_second() {
    assert_eq!(WDT_TIMEOUT_US, 1_000_000);
}
