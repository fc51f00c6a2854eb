use arcwrap::library::{ArcError, Cmd, Runner};

fn step(prog: &str) -> Cmd {
    Cmd {
        prog: String::from(prog),
        args: Vec::new(),
        cwd: String::from("/work"),
        env: Vec::new(),
        stdin: None,
        inherit_output: true,
    }
}

#[test]
fn runner_hands_out_steps_in_order() {
    let mut r = Runner::new(vec![step("one"), step("two")]);
    assert_eq!(r.current().unwrap().prog, "one");
    r.advance(true);
    assert_eq!(r.current().unwrap().prog, "two");
    r.advance(true);
    assert!(r.current().is_none());
    assert!(r.succeeded());
}

#[test]
fn a_failed_step_aborts_the_remaining_steps() {
    let mut r = Runner::new(vec![step("one"), step("two"), step("three")]);
    r.advance(true);
    r.advance(false);
    assert!(r.current().is_none());
    assert!(!r.succeeded());
}

#[test]
fn an_empty_plan_succeeds_at_once() {
    let r = Runner::new(Vec::new());
    assert!(r.current().is_none());
    assert!(r.succeeded());
}

#[test]
fn error_messages_name_the_failure() {
    assert_eq!(ArcError::InvalidRate.message(), "the compression rate must be an integer from 0 to 9");
    assert_eq!(ArcError::CommandNotFound.message(), "a required external command was not found");
    assert_eq!(ArcError::StepFailed.message(), "an external command failed");
    assert_eq!(ArcError::ArtifactMissing.message(), "the archive was not produced");
    assert_eq!(ArcError::SaveFailed.message(), "the archive could not be saved to the destination");
    assert_eq!(ArcError::UnsupportedCombination.message(), "this format cannot archive these inputs");
}
