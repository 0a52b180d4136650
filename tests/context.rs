use imgui_baseview::context::{reactivation_step, ContextStep, CONTEXT_RETRY_MICROS};

#[test]
fn reactivation_runs_retries_or_ignores() {
    assert_eq!(reactivation_step(true, true), ContextStep::Run);
    assert_eq!(
        reactivation_step(true, false),
        ContextStep::Retry { wait_micros: 10 }
    );
    assert_eq!(CONTEXT_RETRY_MICROS, 10);
    assert_eq!(reactivation_step(false, false), ContextStep::Ignore);
    assert_eq!(reactivation_step(false, true), ContextStep::Ignore);
}
