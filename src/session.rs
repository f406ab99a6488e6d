//! The terminal session: take the terminal, run the loop, give the terminal
//! back on every path, then report the first error.

use vstd::prelude::*;

verus! {

/// How far the session has come. A held error is the first one seen.
#[derive(Debug)]
pub enum Stage {
    /// The terminal has not been taken yet.
    Setup,
    /// The terminal is held and the render loop is to run.
    Running,
    /// The terminal is to be given back; the error, if any, waits.
    Restoring(Option<String>),
    /// The terminal is back; the error is to be printed.
    Reporting(String),
    /// Nothing is left to do.
    Finished,
}

/// The work the session asks of its driver next.
#[derive(Debug)]
pub enum Action {
    /// Enable raw input, enter the alternate screen, capture the mouse.
    Acquire,
    /// Run the render loop until it quits or fails.
    RunLoop,
    /// Disable raw input, leave the alternate screen, release the mouse, show the cursor.
    Release,
    /// Print the error.
    Report(String),
    /// End the process normally.
    Exit,
}

/// The action that a stage asks for.
pub open spec fn action_of(s: Stage) -> Action {
    match s {
        Stage::Setup => Action::Acquire,
        Stage::Running => Action::RunLoop,
        Stage::Restoring(_) => Action::Release,
        Stage::Reporting(e) => Action::Report(e),
        Stage::Finished => Action::Exit,
    }
}

/// The stage after the action of `s` ended with `outcome`. A failed
/// acquisition or loop still leads to the release; the first error is kept.
pub open spec fn advance(s: Stage, outcome: Result<(), String>) -> Stage {
    match s {
        Stage::Setup => match outcome {
            Ok(()) => Stage::Running,
            Err(e) => Stage::Restoring(Some(e)),
        },
        Stage::Running => match outcome {
            Ok(()) => Stage::Restoring(None),
            Err(e) => Stage::Restoring(Some(e)),
        },
        Stage::Restoring(held) => match held {
            Some(e) => Stage::Reporting(e),
            None => match outcome {
                Ok(()) => Stage::Finished,
                Err(e) => Stage::Reporting(e),
            },
        },
        Stage::Reporting(_) => Stage::Finished,
        Stage::Finished => Stage::Finished,
    }
}

/// The actions a driver performs from `s` when the outcomes come in order;
/// it stops at `Finished` or when the outcomes run out.
pub open spec fn trace(s: Stage, outcomes: Seq<Result<(), String>>) -> Seq<Action>
    decreases outcomes.len(),
{
    if s is Finished || outcomes.len() == 0 {
        Seq::empty()
    } else {
        seq![action_of(s)] + trace(advance(s, outcomes[0]), outcomes.drop_first())
    }
}

/// The stage a driver reaches from `s` with the outcomes in order.
pub open spec fn reached(s: Stage, outcomes: Seq<Result<(), String>>) -> Stage
    decreases outcomes.len(),
{
    if s is Finished || outcomes.len() == 0 {
        s
    } else {
        reached(advance(s, outcomes[0]), outcomes.drop_first())
    }
}

/// How many of the actions give the terminal back.
pub open spec fn releases(actions: Seq<Action>) -> nat
    decreases actions.len(),
{
    if actions.len() == 0 {
        0
    } else {
        (if actions[0] is Release { 1nat } else { 0nat }) + releases(actions.drop_first())
    }
}

/// The terminal has been given back at this stage.
pub open spec fn released(s: Stage) -> bool {
    s is Reporting || s is Finished
}

/// An upper bound on the actions left before `Finished`.
pub open spec fn steps_left(s: Stage) -> nat {
    match s {
        Stage::Setup => 4,
        Stage::Running => 3,
        Stage::Restoring(_) => 2,
        Stage::Reporting(_) => 1,
        Stage::Finished => 0,
    }
}

impl Stage {
    /// The stage a session starts in.
    pub fn start() -> (r: Stage)
        ensures
            r is Setup,
    {
        Stage::Setup
    }

    /// The action this stage asks for.
    pub fn action(&self) -> (r: Action)
        ensures
            r == action_of(*self),
    {
        match self {
            Stage::Setup => Action::Acquire,
            Stage::Running => Action::RunLoop,
            Stage::Restoring(_) => Action::Release,
            Stage::Reporting(e) => Action::Report(e.clone()),
            Stage::Finished => Action::Exit,
        }
    }

    /// The stage after this one's action ended with `outcome`.
    pub fn advance(self, outcome: Result<(), String>) -> (r: Stage)
        ensures
            r == advance(self, outcome),
    {
        match self {
            Stage::Setup => match outcome {
                Ok(()) => Stage::Running,
                Err(e) => Stage::Restoring(Some(e)),
            },
            Stage::Running => match outcome {
                Ok(()) => Stage::Restoring(None),
                Err(e) => Stage::Restoring(Some(e)),
            },
            Stage::Restoring(held) => match held {
                Some(e) => Stage::Reporting(e),
                None => match outcome {
                    Ok(()) => Stage::Finished,
                    Err(e) => Stage::Reporting(e),
                },
            },
            Stage::Reporting(_) => Stage::Finished,
            Stage::Finished => Stage::Finished,
        }
    }
}

proof fn lemma_releases_from(s: Stage, outcomes: Seq<Result<(), String>>)
    ensures
        releases(trace(s, outcomes)) <= (if released(s) { 0nat } else { 1nat }),
        reached(s, outcomes) is Finished && !released(s) ==> releases(trace(s, outcomes)) == 1,
        outcomes.len() >= steps_left(s) ==> reached(s, outcomes) is Finished,
    decreases outcomes.len(),
{
    if !(s is Finished || outcomes.len() == 0) {
        let next = advance(s, outcomes[0]);
        let rest = outcomes.drop_first();
        lemma_releases_from(next, rest);
        let t = trace(s, outcomes);
        assert(t.drop_first() =~= trace(next, rest));
        assert(t[0] == action_of(s));
    }
}

/// Whatever the acquisition, the loop and the release return, a session
/// gives the terminal back at most once, exactly once when it finishes, and
/// finishes after at most four outcomes.
pub proof fn lemma_release_once(outcomes: Seq<Result<(), String>>)
    ensures
        releases(trace(Stage::Setup, outcomes)) <= 1,
        reached(Stage::Setup, outcomes) is Finished ==> releases(trace(Stage::Setup, outcomes)) == 1,
        outcomes.len() >= 4 ==> reached(Stage::Setup, outcomes) is Finished,
{
    lemma_releases_from(Stage::Setup, outcomes);
}

} // verus!
