use p5::driver::{Driver, Phase, Step};

#[test]
fn start_hands_out_setup_once() {
    let mut d = Driver::new();
    assert_eq!(d.phase(), Phase::Uninitialized);
    assert!(!d.is_running());
    assert!(d.frame().is_empty());
    assert_eq!(d.start(), vec![Step::SetupContext, Step::UserSetup]);
    assert_eq!(d.phase(), Phase::Running);
    assert!(d.start().is_empty());
    assert_eq!(d.phase(), Phase::Running);
}

#[test]
fn each_frame_draws_then_runs_poll_and_present() {
    let mut d = Driver::new();
    d.start();
    let expected = vec![Step::UserDraw, Step::PollEvents, Step::SwapBuffers, Step::RunQueued];
    assert_eq!(d.frame(), expected);
    assert_eq!(d.frame(), expected);
}

#[test]
fn stopped_sketch_never_runs_again() {
    let mut d = Driver::new();
    d.start();
    d.stop();
    assert_eq!(d.phase(), Phase::Stopped);
    assert!(!d.is_running());
    assert!(d.frame().is_empty());
    assert!(d.start().is_empty());
    assert_eq!(d.phase(), Phase::Stopped);
}
