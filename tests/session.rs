use todoodler::session::{Action, Stage};

fn drive(outcomes: &[Result<(), String>]) -> (Vec<Action>, Stage) {
    let mut stage = Stage::start();
    let mut actions = Vec::new();
    for outcome in outcomes {
        if matches!(stage, Stage::Finished) {
            break;
        }
        actions.push(stage.action());
        stage = stage.advance(outcome.clone());
    }
    (actions, stage)
}

fn releases(actions: &[Action]) -> usize {
    actions.iter().filter(|a| matches!(a, Action::Release)).count()
}

fn ok() -> Result<(), String> {
    Ok(())
}

fn err(s: &str) -> Result<(), String> {
    Err(s.to_string())
}

#[test]
fn clean_run_releases_once_and_exits() {
    let (actions, stage) = drive(&[ok(), ok(), ok(), ok()]);
    assert!(matches!(stage, Stage::Finished));
    assert_eq!(actions.len(), 3);
    assert!(matches!(actions[0], Action::Acquire));
    assert!(matches!(actions[1], Action::RunLoop));
    assert!(matches!(actions[2], Action::Release));
    assert!(matches!(Stage::Finished.action(), Action::Exit));
}

#[test]
fn loop_error_is_reported_after_release() {
    let (actions, stage) = drive(&[ok(), err("read failed"), ok(), ok()]);
    assert!(matches!(stage, Stage::Finished));
    assert_eq!(releases(&actions), 1);
    assert!(matches!(actions[2], Action::Release));
    match &actions[3] {
        Action::Report(e) => assert_eq!(e, "read failed"),
        other => panic!("expected a report, got {:?}", other),
    }
}

#[test]
fn setup_error_still_releases() {
    let (actions, stage) = drive(&[err("no tty"), ok(), ok(), ok()]);
    assert!(matches!(stage, Stage::Finished));
    assert_eq!(actions.len(), 3);
    assert!(matches!(actions[1], Action::Release));
    assert!(matches!(&actions[2], Action::Report(e) if e == "no tty"));
}

#[test]
fn first_error_wins_over_a_release_error() {
    let (actions, _) = drive(&[ok(), err("draw failed"), err("restore failed"), ok()]);
    assert!(matches!(&actions[3], Action::Report(e) if e == "draw failed"));
}

#[test]
fn release_error_alone_is_reported() {
    let (actions, stage) = drive(&[ok(), ok(), err("restore failed"), ok()]);
    assert!(matches!(stage, Stage::Finished));
    assert!(matches!(&actions[3], Action::Report(e) if e == "restore failed"));
}

#[test]
fn every_outcome_pattern_releases_exactly_once() {
    for mask in 0..16u32 {
        let outcomes: Vec<Result<(), String>> =
            (0..4).map(|i| if mask & (1 << i) != 0 { err("e") } else { ok() }).collect();
        let (actions, stage) = drive(&outcomes);
        assert!(matches!(stage, Stage::Finished), "mask {}", mask);
        assert_eq!(releases(&actions), 1, "mask {}", mask);
    }
}
