use upgrade_dryrun::error::PipelineError;
use upgrade_dryrun::identity::{check, CheckOutcome, Identity};

fn ident(name: &str, version: u32) -> Identity {
    Identity { name: String::from(name), version, raw: Vec::new() }
}

#[test]
fn matching_identities_succeed_strict() {
    let r = check(&ident("demo", 5), &ident("demo", 5), true);
    assert_eq!(r, Ok(CheckOutcome::Match));
}

#[test]
fn matching_identities_succeed_lenient() {
    let r = check(&ident("demo", 5), &ident("demo", 5), false);
    assert_eq!(r, Ok(CheckOutcome::Match));
}

#[test]
fn version_mismatch_aborts_when_strict() {
    let r = check(&ident("demo", 5), &ident("demo", 6), true);
    assert_eq!(r, Err(PipelineError::Consistency));
}

#[test]
fn version_mismatch_warns_when_lenient() {
    let r = check(&ident("demo", 5), &ident("demo", 6), false);
    assert_eq!(r, Ok(CheckOutcome::MismatchWarned));
}

#[test]
fn name_mismatch_aborts_when_strict() {
    let r = check(&ident("demo", 5), &ident("other", 5), true);
    assert_eq!(r, Err(PipelineError::Consistency));
}

#[test]
fn raw_form_is_not_compared() {
    let a = Identity { name: String::from("demo"), version: 5, raw: vec![1, 2, 3] };
    let b = Identity { name: String::from("demo"), version: 5, raw: vec![9, 9] };
    assert_eq!(check(&a, &b, true), Ok(CheckOutcome::Match));
}

#[test]
fn error_stage_names() {
    assert_eq!(PipelineError::Consistency.stage(), "live identity mismatch");
    assert_eq!(PipelineError::Fetch.stage(), "state fetch failed");
    assert_eq!(PipelineError::Decode.stage(), "decode failed");
    assert_eq!(PipelineError::Execution.stage(), "entry point execution failed");
    assert_eq!(PipelineError::Encoding.stage(), "argument encoding failed");
}
