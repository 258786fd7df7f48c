//! First-contact setup of a room: one default configuration row per newly joined room.
//!
//! The decisions are a state machine from state and event to next state and
//! action. The caller performs each action against the store and feeds the
//! outcome back as the next event, holding exclusive access to the store for
//! the whole exchange.
use vstd::prelude::*;

verus! {

/// The statement that looks for a room's default row.
pub const FIND_SENTINEL_SQL: &'static str = "SELECT server_id, team_name FROM teams WHERE server_id = $1 AND team_name = ''";

/// The statement that adds a room's default row.
pub const INSERT_SENTINEL_SQL: &'static str = "INSERT INTO teams (server_id, team_name) VALUES ($1, '')";

/// Where the onboarding of one join notification stands.
#[derive(Debug, Clone, Copy, PartialEq, Eq, Structural)]
pub enum JoinState {
    /// No notification has been handled yet.
    Idle,
    /// Waiting for the store to say whether the room has its default row.
    Looking { room_id: i64 },
    /// Waiting for the store to add the room's default row.
    Inserting { room_id: i64 },
    /// Nothing more is to be done for this notification.
    Done,
}

/// What the caller reports to the state machine.
#[derive(Debug, Clone, Copy, PartialEq, Eq, Structural)]
pub enum JoinEvent {
    /// The gateway reports that the agent is in room `room_id`; `is_new` when it just arrived.
    Joined { room_id: i64, is_new: bool },
    /// The lookup found the default row.
    SentinelFound,
    /// The lookup found no default row.
    SentinelAbsent,
    /// The default row was added.
    Inserted,
    /// The last store call failed.
    StoreFailed,
}

/// What the state machine asks the caller to do.
#[derive(Debug, Clone, Copy, PartialEq, Eq, Structural)]
pub enum JoinAction {
    /// Nothing is to be done.
    Nothing,
    /// Run `FIND_SENTINEL_SQL` for the room.
    FindSentinel { room_id: i64 },
    /// Run `INSERT_SENTINEL_SQL` for the room.
    InsertSentinel { room_id: i64 },
    /// Log that the lookup failed; the room stays unconfigured until its next join.
    ReportLookupFailure { room_id: i64 },
    /// Log that adding the default row failed; the room stays unconfigured until its next join.
    ReportInsertFailure { room_id: i64 },
}

/// The transition function of onboarding. An event that does not fit the state changes nothing.
pub open spec fn join_step(state: JoinState, event: JoinEvent) -> (JoinState, JoinAction) {
    match (state, event) {
        (JoinState::Idle, JoinEvent::Joined { room_id, is_new }) => if is_new {
            (JoinState::Looking { room_id }, JoinAction::FindSentinel { room_id })
        } else {
            (JoinState::Done, JoinAction::Nothing)
        },
        (JoinState::Looking { room_id: _ }, JoinEvent::SentinelFound) => (
            JoinState::Done,
            JoinAction::Nothing,
        ),
        (JoinState::Looking { room_id }, JoinEvent::SentinelAbsent) => (
            JoinState::Inserting { room_id },
            JoinAction::InsertSentinel { room_id },
        ),
        (JoinState::Looking { room_id }, JoinEvent::StoreFailed) => (
            JoinState::Done,
            JoinAction::ReportLookupFailure { room_id },
        ),
        (JoinState::Inserting { room_id: _ }, JoinEvent::Inserted) => (
            JoinState::Done,
            JoinAction::Nothing,
        ),
        (JoinState::Inserting { room_id }, JoinEvent::StoreFailed) => (
            JoinState::Done,
            JoinAction::ReportInsertFailure { room_id },
        ),
        _ => (state, JoinAction::Nothing),
    }
}

/// Takes one step of onboarding.
pub fn step(state: JoinState, event: JoinEvent) -> (r: (JoinState, JoinAction))
    ensures
        r == join_step(state, event),
{
    match (state, event) {
        (JoinState::Idle, JoinEvent::Joined { room_id, is_new }) => if is_new {
            (JoinState::Looking { room_id }, JoinAction::FindSentinel { room_id })
        } else {
            (JoinState::Done, JoinAction::Nothing)
        },
        (JoinState::Looking { room_id: _ }, JoinEvent::SentinelFound) => (
            JoinState::Done,
            JoinAction::Nothing,
        ),
        (JoinState::Looking { room_id }, JoinEvent::SentinelAbsent) => (
            JoinState::Inserting { room_id },
            JoinAction::InsertSentinel { room_id },
        ),
        (JoinState::Looking { room_id }, JoinEvent::StoreFailed) => (
            JoinState::Done,
            JoinAction::ReportLookupFailure { room_id },
        ),
        (JoinState::Inserting { room_id: _ }, JoinEvent::Inserted) => (
            JoinState::Done,
            JoinAction::Nothing,
        ),
        (JoinState::Inserting { room_id }, JoinEvent::StoreFailed) => (
            JoinState::Done,
            JoinAction::ReportInsertFailure { room_id },
        ),
        _ => (state, JoinAction::Nothing),
    }
}

/// Whether an action reads or writes the store.
pub open spec fn touches_store(a: JoinAction) -> bool {
    a is FindSentinel || a is InsertSentinel
}

/// A row of the `teams` table: a room id and a team name.
pub type TeamRow = (i64, Seq<char>);

/// The number of default rows `(room_id, "")` in `rows`.
pub open spec fn sentinel_count(rows: Seq<TeamRow>, room_id: i64) -> nat
    decreases rows.len(),
{
    if rows.len() == 0 {
        0
    } else {
        sentinel_count(rows.drop_last(), room_id) + if rows.last() == (room_id, Seq::<char>::empty()) {
            1nat
        } else {
            0nat
        }
    }
}

/// How the store answers a store action: the rows after it and the event reported back.
/// A failing call changes nothing and reports `StoreFailed`.
pub open spec fn store_answer(rows: Seq<TeamRow>, a: JoinAction, fails: bool) -> (Seq<TeamRow>, JoinEvent) {
    if fails {
        (rows, JoinEvent::StoreFailed)
    } else {
        match a {
            JoinAction::FindSentinel { room_id } => (
                rows,
                if sentinel_count(rows, room_id) > 0 {
                    JoinEvent::SentinelFound
                } else {
                    JoinEvent::SentinelAbsent
                },
            ),
            JoinAction::InsertSentinel { room_id } => (
                rows.push((room_id, Seq::empty())),
                JoinEvent::Inserted,
            ),
            _ => (rows, JoinEvent::StoreFailed),
        }
    }
}

/// Runs onboarding from `state` on `event` against the store, with exclusive access to it.
/// `faults[i]` says whether the `i`-th store call fails; the run stops when an action needs
/// no store call or the flags run out. Gives the rows, the state and the actions issued.
pub open spec fn run_against_store(
    rows: Seq<TeamRow>,
    state: JoinState,
    event: JoinEvent,
    faults: Seq<bool>,
) -> (Seq<TeamRow>, JoinState, Seq<JoinAction>)
    decreases faults.len(),
{
    let (next, action) = join_step(state, event);
    if touches_store(action) && faults.len() > 0 {
        let (rows2, answer) = store_answer(rows, action, faults[0]);
        let (rows3, last, actions) = run_against_store(rows2, next, answer, faults.drop_first());
        (rows3, last, seq![action] + actions)
    } else {
        (rows, next, seq![action])
    }
}

/// One join notification handled to its end; `faults` as for `run_against_store`.
pub open spec fn handle_join(rows: Seq<TeamRow>, room_id: i64, is_new: bool, faults: Seq<bool>) -> (
    Seq<TeamRow>,
    JoinState,
    Seq<JoinAction>,
) {
    run_against_store(rows, JoinState::Idle, JoinEvent::Joined { room_id, is_new }, faults)
}

/// The rows after `n` notifications that room `room_id` is new, handled one after another
/// by a store whose calls succeed.
pub open spec fn repeated_joins(rows: Seq<TeamRow>, room_id: i64, n: nat) -> Seq<TeamRow>
    decreases n,
{
    if n == 0 {
        rows
    } else {
        handle_join(repeated_joins(rows, room_id, (n - 1) as nat), room_id, true, seq![false, false]).0
    }
}

/// A notification that room `room_id` is new never leaves it with a second default row,
/// whichever store calls fail; when none fails it leaves exactly one.
pub proof fn lemma_join_keeps_one_sentinel(rows: Seq<TeamRow>, room_id: i64, faults: Seq<bool>)
    requires
        sentinel_count(rows, room_id) <= 1,
    ensures
        sentinel_count(handle_join(rows, room_id, true, faults).0, room_id) <= 1,
        handle_join(rows, room_id, true, faults).1 is Done || faults.len() < 2,
        faults.len() >= 2 && !faults[0] && !faults[1] ==> sentinel_count(
            handle_join(rows, room_id, true, faults).0,
            room_id,
        ) == 1,
{
    let pushed = rows.push((room_id, Seq::<char>::empty()));
    assert(pushed.drop_last() =~= rows);
    reveal_with_fuel(run_against_store, 4);
    if faults.len() >= 2 && sentinel_count(rows, room_id) == 0 && !faults[0] && !faults[1] {
        assert(handle_join(rows, room_id, true, faults).0 == pushed);
    }
}

/// Onboarding is idempotent: however many times a room is reported new, it ends with
/// exactly one default row, provided it did not start with more than one.
pub proof fn lemma_onboarding_idempotent(rows: Seq<TeamRow>, room_id: i64, n: nat)
    requires
        n >= 1,
        sentinel_count(rows, room_id) <= 1,
    ensures
        sentinel_count(repeated_joins(rows, room_id, n), room_id) == 1,
    decreases n,
{
    let prev = repeated_joins(rows, room_id, (n - 1) as nat);
    if n > 1 {
        lemma_onboarding_idempotent(rows, room_id, (n - 1) as nat);
    }
    lemma_join_keeps_one_sentinel(prev, room_id, seq![false, false]);
}

/// A join notification for a room that is not new issues no store read or write and
/// leaves the rows as they were.
pub proof fn lemma_rejoin_is_no_op(rows: Seq<TeamRow>, room_id: i64, faults: Seq<bool>)
    ensures
        handle_join(rows, room_id, false, faults).0 == rows,
        handle_join(rows, room_id, false, faults).1 == JoinState::Done,
        forall|i: int|
            0 <= i < handle_join(rows, room_id, false, faults).2.len() ==> !touches_store(
                #[trigger] handle_join(rows, room_id, false, faults).2[i],
            ),
{
    assert(handle_join(rows, room_id, false, faults).2 =~= seq![JoinAction::Nothing]);
}

} // verus!
