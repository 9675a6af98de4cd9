use mlx9061x::register_access::mlx90615::WAKE_DELAY_MS;
use mlx9061x::{wake_mlx90615, Next, PinStep};

/// Carries out a wake pulse as a caller would, on a pin that fails at the
/// step given, and returns the steps it was asked for and how the pulse
/// ended.
fn run_wake(failing: Option<usize>) -> (Vec<PinStep>, Result<(), &'static str>) {
    let mut steps = Vec::new();
    let mut report = None;
    loop {
        match wake_mlx90615(report) {
            Next::Finished(result) => return (steps, result),
            Next::Conclude(step, result) => {
                steps.push(step);
                return (steps, result);
            }
            Next::Perform(step) => {
                let outcome = if failing == Some(steps.len()) { Err("stuck") } else { Ok(()) };
                steps.push(step);
                report = Some((step, outcome));
                assert!(steps.len() <= 8);
            }
        }
    }
}

#[test]
fn wake_delay_is_39_ms() {
    assert_eq!(WAKE_DELAY_MS, 39);
}

#[test]
fn wake_goes_low_holds_and_goes_high() {
    let (steps, result) = run_wake(None);
    assert_eq!(result, Ok(()));
    assert_eq!(steps, vec![PinStep::SetLow, PinStep::DelayMs(39), PinStep::SetHigh]);
}

#[test]
fn wake_never_goes_high_when_low_fails() {
    let (steps, result) = run_wake(Some(0));
    assert_eq!(result, Err("stuck"));
    assert_eq!(steps, vec![PinStep::SetLow]);
}

#[test]
fn wake_reports_a_failure_to_go_high() {
    let (steps, result) = run_wake(Some(2));
    assert_eq!(result, Err("stuck"));
    assert_eq!(steps, vec![PinStep::SetLow, PinStep::DelayMs(39), PinStep::SetHigh]);
}

#[test]
fn wake_step_by_step() {
    assert_eq!(wake_mlx90615::<u8>(None), Next::Perform(PinStep::SetLow));
    assert_eq!(
        wake_mlx90615::<u8>(Some((PinStep::SetLow, Ok(())))),
        Next::Perform(PinStep::DelayMs(39))
    );
    assert_eq!(wake_mlx90615::<u8>(Some((PinStep::SetLow, Err(1)))), Next::Finished(Err(1)));
    assert_eq!(
        wake_mlx90615::<u8>(Some((PinStep::DelayMs(39), Ok(())))),
        Next::Perform(PinStep::SetHigh)
    );
    assert_eq!(wake_mlx90615::<u8>(Some((PinStep::DelayMs(39), Err(3)))), Next::Finished(Err(3)));
    assert_eq!(wake_mlx90615::<u8>(Some((PinStep::SetHigh, Ok(())))), Next::Finished(Ok(())));
    assert_eq!(wake_mlx90615::<u8>(Some((PinStep::SetHigh, Err(2)))), Next::Finished(Err(2)));
}
