//! Resumed sessions.

use dagq::domain::RunEvent;
use dagq::json::{Fields, Json};
use dagq::supervise::resume::resume_in_progress;

fn event(id: i64, kind: &str, payload: Json) -> RunEvent {
    RunEvent {
        id,
        kind: kind.to_owned(),
        at_millis: None,
        payload,
    }
}

fn attempt(n: i128) -> Json {
    Fields::new().number("attempt", n).done()
}

fn created(workspace: &str, n: i128) -> Json {
    Fields::new()
        .text("workspace_id", workspace)
        .number("resume_attempt", n)
        .done()
}

/// The resume a run is in needs its `resume_started` to be the last resume
/// event and the workspace of that attempt recorded after it.
#[test]
fn the_resume_in_progress_is_the_last_started_one_with_its_workspace() {
    let mut events = vec![
        event(1, "resume_started", attempt(1)),
        event(2, "workspace_created", created("w1", 1)),
    ];
    assert_eq!(
        resume_in_progress(&events),
        Some((1, 1, "w1".to_owned()))
    );
    events.push(event(3, "resume_finished", attempt(1)));
    assert_eq!(resume_in_progress(&events), None);
    // A second attempt whose workspace was never recorded: the first
    // attempt's workspace is not taken for it.
    events.push(event(4, "resume_started", attempt(2)));
    assert_eq!(resume_in_progress(&events), None);
    events.push(event(5, "workspace_created", created("w2", 2)));
    assert_eq!(
        resume_in_progress(&events),
        Some((4, 2, "w2".to_owned()))
    );
    assert_eq!(resume_in_progress(&Vec::new()), None);
}
