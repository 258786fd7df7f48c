use wahoo::dispatch_error::{room_log_line, translate, DispatchError};
use wahoo::onboarding::{step, JoinAction, JoinEvent, JoinState};
use wahoo::router::{Route, Router};

/// A table of team rows that answers the onboarding actions, failing when asked to.
struct Table {
    rows: Vec<(i64, String)>,
    fail_lookups: bool,
    fail_inserts: bool,
    calls: usize,
}

impl Table {
    fn new() -> Table {
        Table { rows: vec![], fail_lookups: false, fail_inserts: false, calls: 0 }
    }

    fn sentinels(&self, room_id: i64) -> usize {
        self.rows.iter().filter(|(id, name)| *id == room_id && name.is_empty()).count()
    }

    /// Handles one join notification to its end; returns the actions issued.
    fn join(&mut self, room_id: i64, is_new: bool) -> Vec<JoinAction> {
        let mut actions = vec![];
        let (mut state, mut action) = step(JoinState::Idle, JoinEvent::Joined { room_id, is_new });
        loop {
            actions.push(action);
            let event = match action {
                JoinAction::FindSentinel { room_id } => {
                    self.calls += 1;
                    if self.fail_lookups {
                        JoinEvent::StoreFailed
                    } else if self.sentinels(room_id) > 0 {
                        JoinEvent::SentinelFound
                    } else {
                        JoinEvent::SentinelAbsent
                    }
                }
                JoinAction::InsertSentinel { room_id } => {
                    self.calls += 1;
                    if self.fail_inserts {
                        JoinEvent::StoreFailed
                    } else {
                        self.rows.push((room_id, String::new()));
                        JoinEvent::Inserted
                    }
                }
                _ => break,
            };
            let next = step(state, event);
            state = next.0;
            action = next.1;
        }
        assert_eq!(state, JoinState::Done);
        actions
    }
}

#[test]
fn repeated_new_joins_leave_one_sentinel() {
    let mut t = Table::new();
    for _ in 0..5 {
        t.join(7, true);
        assert_eq!(t.sentinels(7), 1);
    }
    assert_eq!(t.rows.len(), 1);
}

#[test]
fn configured_rows_coexist_with_sentinel() {
    let mut t = Table::new();
    t.rows.push((7, String::from("Wahoo")));
    t.join(7, true);
    t.join(7, true);
    assert_eq!(t.sentinels(7), 1);
    assert_eq!(t.rows.len(), 2);
}

#[test]
fn rejoin_issues_no_store_call() {
    let mut t = Table::new();
    let actions = t.join(9, false);
    assert_eq!(actions, vec![JoinAction::Nothing]);
    assert_eq!(t.calls, 0);
    assert!(t.rows.is_empty());
}

#[test]
fn failed_insert_is_reported_and_retried_on_next_join() {
    let mut t = Table::new();
    t.fail_inserts = true;
    let actions = t.join(3, true);
    assert_eq!(actions.last(), Some(&JoinAction::ReportInsertFailure { room_id: 3 }));
    assert_eq!(t.sentinels(3), 0);
    t.fail_inserts = false;
    t.join(3, true);
    assert_eq!(t.sentinels(3), 1);
}

#[test]
fn failed_lookup_is_reported() {
    let mut t = Table::new();
    t.fail_lookups = true;
    let actions = t.join(3, true);
    assert_eq!(
        actions,
        vec![JoinAction::FindSentinel { room_id: 3 }, JoinAction::ReportLookupFailure { room_id: 3 }]
    );
    assert!(t.rows.is_empty());
}

#[test]
fn steps_of_onboarding() {
    assert_eq!(
        step(JoinState::Idle, JoinEvent::Joined { room_id: -1, is_new: true }),
        (JoinState::Looking { room_id: -1 }, JoinAction::FindSentinel { room_id: -1 })
    );
    assert_eq!(
        step(JoinState::Looking { room_id: 5 }, JoinEvent::SentinelAbsent),
        (JoinState::Inserting { room_id: 5 }, JoinAction::InsertSentinel { room_id: 5 })
    );
    assert_eq!(
        step(JoinState::Looking { room_id: 5 }, JoinEvent::SentinelFound),
        (JoinState::Done, JoinAction::Nothing)
    );
    assert_eq!(
        step(JoinState::Inserting { room_id: 5 }, JoinEvent::Inserted),
        (JoinState::Done, JoinAction::Nothing)
    );
    assert_eq!(step(JoinState::Done, JoinEvent::Inserted), (JoinState::Done, JoinAction::Nothing));
    assert_eq!(
        step(JoinState::Idle, JoinEvent::SentinelFound),
        (JoinState::Idle, JoinAction::Nothing)
    );
}

#[test]
fn room_forty_two_scenario() {
    let mut t = Table::new();
    t.join(42, true);
    assert_eq!(t.rows, vec![(42, String::new())]);
    t.join(42, true);
    assert_eq!(t.rows, vec![(42, String::new())]);

    let router = Router::standard();
    let route = router.route("<team");
    let error = DispatchError::NotEnoughArguments { min: 1, given: 0 };
    assert_eq!(route, Route::Rejected { error: error.clone() });
    assert_eq!(translate(&error), "Not enough arguments; expected 1, got 0.");
    assert_eq!(
        room_log_line(42, &error.description()),
        "[room_id 42]: NotEnoughArguments { min: 1, given: 0 }"
    );
}
