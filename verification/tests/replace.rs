use signet::platform::system::Next;
use signet::platform::system::Place;
use signet::platform::system::Step;
use signet::system::Failure;
use signet::system::FailureKind;

fn failure() -> Failure {
    Failure { kind: FailureKind::Other, message: "disk full".to_owned() }
}

#[test]
fn replacement_takes_four_steps_in_order() {
    let mut taken = Vec::new();
    let mut step = Step::first();
    let result = loop {
        taken.push(step);
        match step.proceed(Ok(())) {
            Next::Take(next) => step = next,
            Next::Stop(result) => break result,
        }
    };
    assert!(result.is_ok());
    assert_eq!(taken, vec![Step::Stage, Step::Park, Step::Promote, Step::Discard]);
}

#[test]
fn replacement_stops_at_the_first_failure() {
    for step in [Step::Stage, Step::Park, Step::Promote, Step::Discard] {
        match step.proceed(Err(failure())) {
            Next::Stop(Err(error)) => {
                assert_eq!(error.kind, FailureKind::Other);
                assert_eq!(error.message, "disk full");
            }
            _ => panic!("a step was taken after a failure"),
        }
    }
}

#[test]
fn siblings_differ_from_the_document_by_extension() {
    assert_eq!(Place::Document.extension(), None);
    assert_eq!(Place::Staging.extension(), Some("new"));
    assert_eq!(Place::Backup.extension(), Some("old"));
}
