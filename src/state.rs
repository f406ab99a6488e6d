//! The render loop's state and how one input event changes it.

use vstd::prelude::*;

verus! {

/// The key that quits the loop.
pub const QUIT_KEY: char = 'q';

/// The key that toggles the popup flag.
pub const POPUP_KEY: char = 'p';

/// One input event, as the render loop sees it.
#[derive(Clone, Copy, Debug, PartialEq, Eq, Structural)]
pub enum Input {
    /// A key press that produced a character.
    Char(char),
    /// Any other event: another key, the mouse, a resize.
    Other,
}

/// The whole state of the user interface.
#[derive(Clone, Copy, Debug, PartialEq, Eq, Structural)]
pub struct App {
    pub show_popup: bool,
}

/// What the loop does after an event: go on with a state, or stop.
#[derive(Clone, Copy, Debug, PartialEq, Eq, Structural)]
pub enum Flow {
    Continue(App),
    Quit,
}

/// The state the loop starts in.
pub open spec fn initial() -> App {
    App { show_popup: false }
}

/// One transition of the loop: quit on the quit key, toggle the popup flag
/// on the popup key, and leave the state alone on anything else.
pub open spec fn step(app: App, input: Input) -> Flow {
    match input {
        Input::Char(c) => if c == QUIT_KEY {
            Flow::Quit
        } else if c == POPUP_KEY {
            Flow::Continue(App { show_popup: !app.show_popup })
        } else {
            Flow::Continue(app)
        },
        Input::Other => Flow::Continue(app),
    }
}

/// Where a run of the loop over a sequence of events ends: stopped, or
/// still running in some state.
pub open spec fn run(app: App, inputs: Seq<Input>) -> Flow
    decreases inputs.len(),
{
    if inputs.len() == 0 {
        Flow::Continue(app)
    } else {
        match step(app, inputs[0]) {
            Flow::Quit => Flow::Quit,
            Flow::Continue(next) => run(next, inputs.drop_first()),
        }
    }
}

/// How many of the events are presses of the popup key.
pub open spec fn popup_presses(inputs: Seq<Input>) -> nat
    decreases inputs.len(),
{
    if inputs.len() == 0 {
        0
    } else {
        (if inputs[0] == Input::Char(POPUP_KEY) { 1nat } else { 0nat })
            + popup_presses(inputs.drop_first())
    }
}

/// The events hold no press of the quit key.
pub open spec fn no_quit(inputs: Seq<Input>) -> bool {
    forall|i: int| 0 <= i < inputs.len() ==> inputs[i] != Input::Char(QUIT_KEY)
}

impl App {
    /// The state at startup: the popup is hidden.
    pub fn new() -> (r: App)
        ensures
            r == initial(),
    {
        App { show_popup: false }
    }

    /// Decides what one input event does to the state.
    pub fn handle_input(self, input: Input) -> (r: Flow)
        ensures
            r == step(self, input),
    {
        match input {
            Input::Char(c) => {
                if c == QUIT_KEY {
                    Flow::Quit
                } else if c == POPUP_KEY {
                    Flow::Continue(App { show_popup: !self.show_popup })
                } else {
                    Flow::Continue(self)
                }
            },
            Input::Other => Flow::Continue(self),
        }
    }
}

/// Without the quit key the loop is still running after any events, and the
/// popup flag has been flipped once for each press of the popup key.
pub proof fn lemma_popup_parity(app: App, inputs: Seq<Input>)
    requires
        no_quit(inputs),
    ensures
        run(app, inputs) == Flow::Continue(
            App { show_popup: app.show_popup != (popup_presses(inputs) % 2 == 1) },
        ),
    decreases inputs.len(),
{
    if inputs.len() > 0 {
        let rest = inputs.drop_first();
        assert(inputs[0] != Input::Char(QUIT_KEY));
        assert forall|i: int| 0 <= i < rest.len() implies rest[i] != Input::Char(QUIT_KEY) by {
            assert(rest[i] == inputs[i + 1]);
        }
        match step(app, inputs[0]) {
            Flow::Continue(next) => lemma_popup_parity(next, rest),
            Flow::Quit => {},
        }
    }
}

/// A sequence of events without the quit key never stops the loop.
pub proof fn lemma_never_stops_without_quit(app: App, inputs: Seq<Input>)
    requires
        no_quit(inputs),
    ensures
        run(app, inputs) is Continue,
{
    lemma_popup_parity(app, inputs);
}

/// From startup, an even number of popup-key presses (and no quit key) leaves
/// the popup hidden, and an odd number leaves it shown.
pub proof fn lemma_popup_from_start(inputs: Seq<Input>)
    requires
        no_quit(inputs),
    ensures
        popup_presses(inputs) % 2 == 0 ==> run(initial(), inputs) == Flow::Continue(initial()),
        popup_presses(inputs) % 2 == 1 ==> run(initial(), inputs) == Flow::Continue(
            App { show_popup: true },
        ),
{
    lemma_popup_parity(initial(), inputs);
}

/// A press of the quit key anywhere in the events stops the loop, in whatever
/// state the earlier events left it.
pub proof fn lemma_quit_stops(app: App, inputs: Seq<Input>, k: int)
    requires
        0 <= k < inputs.len(),
        inputs[k] == Input::Char(QUIT_KEY),
    ensures
        run(app, inputs) == Flow::Quit,
    decreases inputs.len(),
{
    if k > 0 {
        let rest = inputs.drop_first();
        assert(rest[k - 1] == inputs[k]);
        match step(app, inputs[0]) {
            Flow::Continue(next) => lemma_quit_stops(next, rest, k - 1),
            Flow::Quit => {},
        }
    }
}

} // verus!
