//! The session run against a scripted driver.
//!
//! A script says, for each driver call in the order in which the calls are
//! made, when the call finishes and what it returns. Replaying a script
//! runs the sequencer and the deadline guard over it, with no hardware and
//! no clock, and reports which calls were made, how long the session waited
//! and how it ended.

use crate::deadline::{guard, time_waited, Completion};
use crate::fault::{Exit, Fault};
use crate::outcome::{DriverError, StageOutcome};
use crate::sequencer::{
    Action, ActionView, Operation, Progress, Reply, Sequencer, Stage, LINK_DEADLINE_MS,
};
use vstd::prelude::*;

verus! {

/// What a replay found.
#[derive(Clone, Debug, PartialEq, Eq)]
pub struct Report {
    /// How the session ended, or `None` where it never ends: it waits,
    /// without a deadline, for a call that never returns.
    pub exit: Option<Exit>,
    /// The driver calls that were made, in order.
    pub calls: Vec<Action>,
    /// The milliseconds that the session waited until it ended, or until
    /// its endless wait began. The sum stops at the largest `u64`.
    pub elapsed_ms: u64,
    /// The sequencer as the session left it.
    pub sequencer: Sequencer,
}

/// A report, with its calls as a sequence of action views.
pub struct ReportView {
    pub exit: Option<Exit>,
    pub calls: Seq<ActionView>,
    pub elapsed_ms: u64,
    pub sequencer: Sequencer,
}

/// The views of a sequence of actions.
pub open spec fn views(actions: Seq<Action>) -> Seq<ActionView> {
    Seq::new(actions.len(), |k: int| actions[k]@)
}

impl View for Report {
    type V = ReportView;

    open spec fn view(&self) -> ReportView {
        ReportView {
            exit: self.exit,
            calls: views(self.calls@),
            elapsed_ms: self.elapsed_ms,
            sequencer: self.sequencer,
        }
    }
}

/// The sum of two waits, which stops at the largest `u64`.
pub open spec fn add_wait(elapsed: u64, waited: u64) -> u64 {
    if elapsed + waited > u64::MAX {
        u64::MAX
    } else {
        (elapsed + waited) as u64
    }
}

/// What the script says of its call number `i`. A call that the script
/// does not reach never returns.
pub open spec fn entry(script: Seq<Completion<Result<Reply, DriverError>>>, i: nat) -> Completion<
    Result<Reply, DriverError>,
> {
    if i < script.len() {
        script[i as int]
    } else {
        Completion::Never
    }
}

/// The outcome of the call `op` where the driver behaves as `completion`
/// says, and how long the session waits for it. A guarded call is raced
/// against its deadline. `None`: the call has no deadline and never
/// returns, so that the session waits for ever.
pub open spec fn outcome_of(op: Operation, completion: Completion<Result<Reply, DriverError>>)
    -> Option<(StageOutcome<Reply>, u64)> {
    match op.deadline() {
        Some(deadline_ms) => Some(
            (
                StageOutcome::of_guarded(completion.guarded(deadline_ms)),
                completion.waited(deadline_ms),
            ),
        ),
        None => match completion {
            Completion::After { elapsed_ms, output } => Some(
                (StageOutcome::of_driver(output), elapsed_ms),
            ),
            Completion::Never => None,
        },
    }
}

/// How many calls the session still has before it.
pub open spec fn calls_left(s: Sequencer) -> nat {
    match s.progress {
        Progress::Waiting(op) => (10 - op.ordinal()) as nat,
        _ => 0,
    }
}

/// The report of the session that stands at `s`, has made `calls` and
/// waited `elapsed` so far, and takes the answers to its further calls from
/// `script`, beginning at entry `i`.
pub open spec fn played(
    s: Sequencer,
    script: Seq<Completion<Result<Reply, DriverError>>>,
    i: nat,
    calls: Seq<ActionView>,
    elapsed: u64,
) -> ReportView
    decreases calls_left(s),
{
    match s.progress {
        Progress::Waiting(op) => match outcome_of(op, entry(script, i)) {
            Some((outcome, waited)) => played(
                s.after(outcome),
                script,
                i + 1,
                calls.push(op.action()),
                add_wait(elapsed, waited),
            ),
            None => ReportView {
                exit: None,
                calls: calls.push(op.action()),
                elapsed_ms: elapsed,
                sequencer: s,
            },
        },
        _ => ReportView { exit: s.exit_spec(), calls, elapsed_ms: elapsed, sequencer: s },
    }
}

/// The report of a whole session against `script`.
pub open spec fn replayed(script: Seq<Completion<Result<Reply, DriverError>>>) -> ReportView {
    played(Sequencer::initial().started(), script, 0, Seq::empty(), 0)
}

/// Runs a whole session against a scripted driver: entry `i` of the script
/// answers the session's call number `i`.
pub fn replay(script: &Vec<Completion<Result<Reply, DriverError>>>) -> (report: Report)
    ensures
        report@ == replayed(script@),
{
    let (first, first_action) = Sequencer::new().start();
    let mut sequencer = first;
    let mut action = first_action;
    let mut calls: Vec<Action> = Vec::new();
    let mut elapsed: u64 = 0;
    let mut i: usize = 0;
    assert(views(calls@) =~= Seq::<ActionView>::empty());
    loop
        invariant
            i + calls_left(sequencer) <= 10,
            action@ == sequencer.directive_spec(),
            played(sequencer, script@, i as nat, views(calls@), elapsed) == replayed(script@),
        decreases calls_left(sequencer),
    {
        match sequencer.progress {
            Progress::Waiting(op) => {
                let completion = if i < script.len() {
                    script[i]
                } else {
                    Completion::Never
                };
                let stepped = match op.time_limit() {
                    Some(deadline_ms) => {
                        let waited = time_waited(&completion, deadline_ms);
                        Some((StageOutcome::from_guarded(guard(completion, deadline_ms)), waited))
                    },
                    None => match completion {
                        Completion::After { elapsed_ms, output } => Some(
                            (StageOutcome::from_driver(output), elapsed_ms),
                        ),
                        Completion::Never => None,
                    },
                };
                proof {
                    assert(views(calls@.push(action)) =~= views(calls@).push(op.action()));
                }
                calls.push(action);
                match stepped {
                    Some((outcome, waited)) => {
                        elapsed = elapsed.saturating_add(waited);
                        let (next, next_action) = sequencer.on_outcome(outcome);
                        sequencer = next;
                        action = next_action;
                        i = i + 1;
                    },
                    None => {
                        return Report { exit: None, calls, elapsed_ms: elapsed, sequencer };
                    },
                }
            },
            _ => {
                return Report { exit: sequencer.exit(), calls, elapsed_ms: elapsed, sequencer };
            },
        }
    }
}

/// Whether the calls are calls of the session, with the session's own
/// arguments, and stand in the order of the session, from the first on and
/// with none left out: call number `k` is the session's call number `k`.
pub open spec fn in_session_order(calls: Seq<ActionView>) -> bool {
    forall|k: int|
        0 <= k < calls.len() ==> (#[trigger] calls[k]).ordinal() == k && calls[k].is_session_call()
}

/// What holds of a sequencer and the calls made so far at every point of a
/// replay.
spec fn on_course(s: Sequencer, calls: Seq<ActionView>) -> bool {
    &&& s.wf()
    &&& !(s.progress is Idle)
    &&& in_session_order(calls)
    &&& s.progress matches Progress::Waiting(op) ==> op.ordinal() == calls.len()
    &&& s.progress is Done ==> calls.len() == 10
    &&& s.progress is Failed ==> 0 < calls.len() <= 10
    &&& s.exit_spec() == Some(Exit::Halted(Fault::Timeout)) ==> calls.last().deadline().is_some()
}

/// What holds of every report.
spec fn sound(report: ReportView) -> bool {
    &&& report.sequencer.wf()
    &&& in_session_order(report.calls)
    &&& 0 < report.calls.len() <= 10
    &&& report.exit == Some(Exit::Success) ==> report.calls.len() == 10
    &&& report.exit == Some(Exit::Halted(Fault::Timeout)) ==> report.calls.last().deadline().is_some()
    &&& report.exit is Some ==> report.exit == report.sequencer.exit_spec()
    &&& report.exit is None ==> report.sequencer.directive_spec() == report.calls.last()
        && report.calls.last().deadline().is_none() && report.sequencer.exit_spec().is_none()
}

proof fn lemma_played_is_sound(
    s: Sequencer,
    script: Seq<Completion<Result<Reply, DriverError>>>,
    i: nat,
    calls: Seq<ActionView>,
    elapsed: u64,
)
    requires
        on_course(s, calls),
    ensures
        sound(played(s, script, i, calls, elapsed)),
    decreases calls_left(s),
{
    match s.progress {
        Progress::Waiting(op) => {
            let made = calls.push(op.action());
            assert(in_session_order(made)) by {
                assert forall|k: int| 0 <= k < made.len() implies (#[trigger] made[k]).ordinal()
                    == k && made[k].is_session_call() by {
                    if k < calls.len() {
                        assert(made[k] == calls[k]);
                    }
                }
            }
            assert(made.last() == op.action());
            match outcome_of(op, entry(script, i)) {
                Some((outcome, waited)) => {
                    lemma_played_is_sound(
                        s.after(outcome),
                        script,
                        i + 1,
                        made,
                        add_wait(elapsed, waited),
                    );
                },
                None => {},
            }
        },
        _ => {},
    }
}

/// Every session makes its calls in the one order of the session, each at
/// most once and none before the one before it: call number `k` of a report
/// is the session's call number `k`, with the session's own arguments. A
/// session that ends in success has made all ten; one that ends in a
/// timeout has made a guarded call last, and nothing after it; one that
/// never ends waits in an unguarded call.
pub proof fn lemma_calls_in_session_order(script: Seq<Completion<Result<Reply, DriverError>>>)
    ensures
        in_session_order(replayed(script).calls),
        0 < replayed(script).calls.len() <= 10,
        replayed(script).exit == Some(Exit::Success) ==> replayed(script).calls.len() == 10,
        replayed(script).exit == Some(Exit::Halted(Fault::Timeout)) ==> replayed(
            script,
        ).calls.last().deadline().is_some(),
        replayed(script).exit is Some ==> replayed(script).exit == replayed(
            script,
        ).sequencer.exit_spec(),
        replayed(script).exit is None ==> replayed(script).calls.last().deadline().is_none()
            && replayed(script).sequencer.directive_spec() == replayed(script).calls.last(),
        replayed(script).sequencer.wf(),
{
    lemma_played_is_sound(Sequencer::initial().started(), script, 0, Seq::empty(), 0);
}

/// A link that is not attached by the deadline halts the session at the
/// deadline, to the millisecond, and the resolver is never called: where
/// the first two calls succeed after `t0` and `t1` and the wait for the link
/// is not over in time, the session ends in `Timeout` after `t0`, `t1` and
/// the link deadline, with the wait as its third and last call.
pub proof fn lemma_unattached_link_times_out(
    script: Seq<Completion<Result<Reply, DriverError>>>,
    t0: u64,
    t1: u64,
)
    requires
        entry(script, 0) == (Completion::After { elapsed_ms: t0, output: Ok::<Reply, DriverError>(Reply::Ready) }),
        entry(script, 1) == (Completion::After { elapsed_ms: t1, output: Ok::<Reply, DriverError>(Reply::Ready) }),
        !entry(script, 2).in_time(LINK_DEADLINE_MS),
    ensures
        replayed(script).exit == Some(Exit::Halted(Fault::Timeout)),
        replayed(script).calls == seq![
            Operation::InitModem.action(),
            Operation::CreateLink.action(),
            Operation::AwaitAttach.action(),
        ],
        replayed(script).elapsed_ms == add_wait(add_wait(t0, t1), LINK_DEADLINE_MS),
        replayed(script).sequencer.progress == (Progress::Failed {
            at: Stage::LinkEstablishing,
            fault: Fault::Timeout,
        }),
{
    reveal_with_fuel(played, 5);
    let s0 = Sequencer::initial().started();
    let s1 = s0.after(StageOutcome::Success(Reply::Ready));
    let s2 = s1.after(StageOutcome::Success(Reply::Ready));
    let s3 = s2.after(StageOutcome::Timeout);
    let c1 = Seq::<ActionView>::empty().push(Operation::InitModem.action());
    let c2 = c1.push(Operation::CreateLink.action());
    let c3 = c2.push(Operation::AwaitAttach.action());
    let e1 = add_wait(0, t0);
    let e2 = add_wait(e1, t1);
    let e3 = add_wait(e2, LINK_DEADLINE_MS);
    assert(outcome_of(Operation::InitModem, entry(script, 0)) == Some(
        (StageOutcome::Success(Reply::Ready), t0),
    ));
    assert(outcome_of(Operation::CreateLink, entry(script, 1)) == Some(
        (StageOutcome::Success(Reply::Ready), t1),
    ));
    assert(outcome_of(Operation::AwaitAttach, entry(script, 2)) == Some(
        (StageOutcome::<Reply>::Timeout, LINK_DEADLINE_MS),
    ));
    assert(played(s3, script, 3, c3, e3) == ReportView {
        exit: Some(Exit::Halted(Fault::Timeout)),
        calls: c3,
        elapsed_ms: e3,
        sequencer: s3,
    });
    assert(played(s2, script, 2, c2, e2) == played(s3, script, 3, c3, e3));
    assert(played(s1, script, 1, c1, e1) == played(s2, script, 2, c2, e2));
    assert(replayed(script) == played(s1, script, 1, c1, e1));
    assert(c3 =~= seq![
        Operation::InitModem.action(),
        Operation::CreateLink.action(),
        Operation::AwaitAttach.action(),
    ]);
}

} // verus!
