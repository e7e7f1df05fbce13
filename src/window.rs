//! The show-main-window operation as a sequence of decisions.
//!
//! Looking a window up in the host's registry and asking it to show itself
//! are the host's work. What to ask for, in what order, and what to report
//! back is decided here: `step` maps the operation's state and the host's
//! latest reply to the next state and the next request to the host.
use vstd::prelude::*;

verus! {

/// The label under which the host registers the window to be shown.
pub const MAIN_WINDOW: &'static str = "main";

/// Why the show-main-window operation did not complete.
#[derive(Clone, Copy, Debug, PartialEq, Eq)]
pub enum ShowError {
    /// The registry holds no window under the main label.
    WindowNotFound,
    /// The window was found, but the host refused to show it.
    ShowFailed,
}

/// The text that describes `e` to the presentation layer.
pub open spec fn error_text(e: ShowError) -> Seq<char> {
    match e {
        ShowError::WindowNotFound => "no window is registered under the main label"@,
        ShowError::ShowFailed => "the main window could not be shown"@,
    }
}

impl ShowError {
    /// Describes the error in words, for the presentation layer.
    pub fn message(&self) -> (r: String)
        ensures
            r@ == error_text(*self),
    {
        match self {
            ShowError::WindowNotFound => String::from_str(
                "no window is registered under the main label",
            ),
            ShowError::ShowFailed => String::from_str("the main window could not be shown"),
        }
    }
}

/// Where the show-main-window operation stands.
#[derive(Clone, Copy, Debug, PartialEq, Eq)]
pub enum ShowState {
    /// Not yet invoked.
    Idle,
    /// Waiting for the host to look up the main window.
    LookingUp,
    /// Waiting for the host to show the window it found.
    Showing,
    /// Completed; later replies change nothing.
    Done,
}

/// What the host reports to the operation.
#[derive(Clone, Copy, Debug, PartialEq, Eq)]
pub enum ShowEvent {
    /// A caller invoked the operation.
    Invoked,
    /// The lookup found a window under the main label.
    WindowFound,
    /// The lookup found no window under the main label.
    WindowMissing,
    /// The host showed the window.
    Shown,
    /// The host could not show the window.
    ShowRefused,
}

/// What the operation asks of the host next.
#[derive(Clone, Copy, Debug, PartialEq, Eq)]
pub enum ShowAction {
    /// Look up the window registered under `MAIN_WINDOW`.
    LookUp,
    /// Show the window that the lookup found.
    Show,
    /// Hand this outcome back to the caller; the operation is over.
    Finish(Result<(), ShowError>),
    /// The reply does not fit the current state: nothing to do.
    Ignore,
}

/// The transition relation of the operation, as a function.
pub open spec fn next(state: ShowState, event: ShowEvent) -> (ShowState, ShowAction) {
    match (state, event) {
        (ShowState::Idle, ShowEvent::Invoked) => (ShowState::LookingUp, ShowAction::LookUp),
        (ShowState::LookingUp, ShowEvent::WindowFound) => (ShowState::Showing, ShowAction::Show),
        (ShowState::LookingUp, ShowEvent::WindowMissing) => (
            ShowState::Done,
            ShowAction::Finish(Err(ShowError::WindowNotFound)),
        ),
        (ShowState::Showing, ShowEvent::Shown) => (ShowState::Done, ShowAction::Finish(Ok(()))),
        (ShowState::Showing, ShowEvent::ShowRefused) => (
            ShowState::Done,
            ShowAction::Finish(Err(ShowError::ShowFailed)),
        ),
        _ => (state, ShowAction::Ignore),
    }
}

/// Takes one step of the operation: from `state`, on the host's reply
/// `event`, to the next state and the next request to the host. A reply
/// that does not fit the state leaves it as it is.
pub fn step(state: ShowState, event: ShowEvent) -> (r: (ShowState, ShowAction))
    ensures
        r == next(state, event),
{
    match (state, event) {
        (ShowState::Idle, ShowEvent::Invoked) => (ShowState::LookingUp, ShowAction::LookUp),
        (ShowState::LookingUp, ShowEvent::WindowFound) => (ShowState::Showing, ShowAction::Show),
        (ShowState::LookingUp, ShowEvent::WindowMissing) => (
            ShowState::Done,
            ShowAction::Finish(Err(ShowError::WindowNotFound)),
        ),
        (ShowState::Showing, ShowEvent::Shown) => (ShowState::Done, ShowAction::Finish(Ok(()))),
        (ShowState::Showing, ShowEvent::ShowRefused) => (
            ShowState::Done,
            ShowAction::Finish(Err(ShowError::ShowFailed)),
        ),
        _ => (state, ShowAction::Ignore),
    }
}

/// The reply of a host whose registry does or does not hold a window under
/// the main label (`registered`), and which can or cannot show that window
/// (`showable`), to the request `action`. A request that needs no reply has
/// none.
pub open spec fn host_reply(action: ShowAction, registered: bool, showable: bool) -> Option<
    ShowEvent,
> {
    match action {
        ShowAction::LookUp => Some(
            if registered {
                ShowEvent::WindowFound
            } else {
                ShowEvent::WindowMissing
            },
        ),
        ShowAction::Show => Some(
            if showable {
                ShowEvent::Shown
            } else {
                ShowEvent::ShowRefused
            },
        ),
        _ => None,
    }
}

/// The requests that the operation makes, starting with `action` in `state`,
/// of a host that answers each as `host_reply` says, for at most `fuel`
/// replies.
pub open spec fn exchange(
    state: ShowState,
    action: ShowAction,
    registered: bool,
    showable: bool,
    fuel: nat,
) -> Seq<ShowAction>
    decreases fuel,
{
    if fuel == 0 {
        seq![action]
    } else {
        match host_reply(action, registered, showable) {
            None => seq![action],
            Some(event) => {
                let (s, a) = next(state, event);
                seq![action] + exchange(s, a, registered, showable, (fuel - 1) as nat)
            },
        }
    }
}

/// The requests that one invocation of the operation makes of such a host.
pub open spec fn invocation(registered: bool, showable: bool, fuel: nat) -> Seq<ShowAction> {
    let (s, a) = next(ShowState::Idle, ShowEvent::Invoked);
    exchange(s, a, registered, showable, fuel)
}

/// Invoked while a window is registered under the main label, the operation
/// looks it up, asks the host to show it, and reports success exactly when
/// the host showed it. Invoked while none is registered, it asks for no
/// show and reports that the window was not found. Either way it is over
/// after at most three requests, and more replies change nothing.
pub proof fn lemma_show_main_window(registered: bool, showable: bool, fuel: nat)
    requires
        fuel >= 2,
    ensures
        invocation(registered, showable, fuel) == if !registered {
            seq![ShowAction::LookUp, ShowAction::Finish(Err(ShowError::WindowNotFound))]
        } else if showable {
            seq![ShowAction::LookUp, ShowAction::Show, ShowAction::Finish(Ok(()))]
        } else {
            seq![
                ShowAction::LookUp,
                ShowAction::Show,
                ShowAction::Finish(Err(ShowError::ShowFailed)),
            ]
        },
{
    let f1 = (fuel - 1) as nat;
    let f2 = (fuel - 2) as nat;
    let fin = if !registered {
        ShowAction::Finish(Err(ShowError::WindowNotFound))
    } else if showable {
        ShowAction::Finish(Ok(()))
    } else {
        ShowAction::Finish(Err(ShowError::ShowFailed))
    };
    if registered {
        assert(exchange(ShowState::Done, fin, registered, showable, f2) =~= seq![fin]);
        assert(exchange(ShowState::Showing, ShowAction::Show, registered, showable, f1) =~= seq![
            ShowAction::Show,
            fin,
        ]);
    } else {
        assert(exchange(ShowState::Done, fin, registered, showable, f1) =~= seq![fin]);
    }
    assert(invocation(registered, showable, fuel) =~= exchange(
        ShowState::LookingUp,
        ShowAction::LookUp,
        registered,
        showable,
        fuel,
    ));
}

/// The operation reports an outcome at most once: a step that hands an
/// outcome back ends in `Done`, and in `Done` every reply is ignored.
pub proof fn lemma_finishes_once(state: ShowState, event: ShowEvent)
    ensures
        next(state, event).1 is Finish ==> next(state, event).0 == ShowState::Done,
        next(ShowState::Done, event) == (ShowState::Done, ShowAction::Ignore),
{
}

} // verus!
