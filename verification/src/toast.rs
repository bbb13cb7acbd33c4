//! The small notification that shows the progress of a file operation and
//! goes away by itself.

use vstd::prelude::*;
use vstd::string::*;
use crate::text::{push_word, texts};

verus! {

/// The timer that looks for the final message.
pub const POLL_TIMER_ID: usize = 1;

/// The timer that takes the notification away.
pub const DISMISS_TIMER_ID: usize = 2;

/// Milliseconds between two looks for the final message.
pub const POLL_MS: u32 = 100;

/// Milliseconds for which the final message stays.
pub const DISMISS_MS: u32 = 1500;

/// The width of the notification.
pub const TOAST_WIDTH: i32 = 350;

/// The height of the notification.
pub const TOAST_HEIGHT: i32 = 36;

/// Where the notification goes: a little to the right of the cursor, and
/// above it.
pub fn toast_position(cursor_x: i32, cursor_y: i32) -> (corner: (i32, i32))
    requires
        cursor_x + 16 <= i32::MAX,
        cursor_y - TOAST_HEIGHT - 8 >= i32::MIN,
    ensures
        corner.0 == cursor_x + 16,
        corner.1 == cursor_y - TOAST_HEIGHT - 8,
{
    (cursor_x + 16, cursor_y - TOAST_HEIGHT - 8)
}

/// How far a notification has come.
#[derive(Clone, Copy, Debug, PartialEq, Eq, Structural)]
pub enum ToastPhase {
    /// The window is not there yet.
    Fresh,
    /// The first message is shown; the final one is waited for.
    Polling,
    /// The final message is shown.
    Dismissing,
    /// The window is being destroyed.
    Closing,
    /// The window is gone.
    Closed,
}

/// What reaches the notification's window.
#[derive(Debug)]
pub enum ToastEvent {
    /// The window was created.
    Created,
    /// The timer `id` fired; `incoming` is the final message, where it has
    /// arrived.
    Timer { id: usize, incoming: Option<String> },
    /// The window was destroyed.
    Destroyed,
}

/// What the window does in answer.
#[derive(Clone, Copy, Debug, PartialEq, Eq, Structural)]
pub enum ToastAction {
    /// Start the timer `id` with the period `ms`.
    Start { id: usize, ms: u32 },
    /// Show the new message, stop the timer `stop` and start the timer
    /// `id` with the period `ms`.
    Replace { stop: usize, id: usize, ms: u32 },
    /// Stop the timer `stop` and destroy the window.
    Close { stop: usize },
    /// Release what the window held and end its message loop.
    Quit,
    /// Nothing.
    Nothing,
}

/// A notification as the contracts see it.
pub struct ToastView {
    pub phase: ToastPhase,
    pub message: Seq<char>,
}

/// The notification after an event, and the answer. The final message
/// replaces the first one once, and stays for the dismiss time; timers that
/// are not expected do nothing.
pub open spec fn toast_step(
    toast: ToastView,
    timer: Option<(usize, Option<Seq<char>>)>,
    created: bool,
) -> (ToastView, ToastAction) {
    match timer {
        None => if created {
            if toast.phase == ToastPhase::Fresh {
                (
                    ToastView { phase: ToastPhase::Polling, ..toast },
                    ToastAction::Start { id: POLL_TIMER_ID, ms: POLL_MS },
                )
            } else {
                (toast, ToastAction::Nothing)
            }
        } else {
            if toast.phase == ToastPhase::Closed {
                (toast, ToastAction::Nothing)
            } else {
                (ToastView { phase: ToastPhase::Closed, ..toast }, ToastAction::Quit)
            }
        },
        Some((id, incoming)) => if id == POLL_TIMER_ID && toast.phase == ToastPhase::Polling {
            match incoming {
                Some(message) => (
                    ToastView { phase: ToastPhase::Dismissing, message },
                    ToastAction::Replace {
                        stop: POLL_TIMER_ID,
                        id: DISMISS_TIMER_ID,
                        ms: DISMISS_MS,
                    },
                ),
                None => (toast, ToastAction::Nothing),
            }
        } else if id == DISMISS_TIMER_ID && toast.phase == ToastPhase::Dismissing {
            (
                ToastView { phase: ToastPhase::Closing, ..toast },
                ToastAction::Close { stop: DISMISS_TIMER_ID },
            )
        } else {
            (toast, ToastAction::Nothing)
        },
    }
}

/// The event as `toast_step` takes it.
pub open spec fn timer_of(event: ToastEvent) -> Option<(usize, Option<Seq<char>>)> {
    match event {
        ToastEvent::Timer { id, incoming } => Some(
            (
                id,
                match incoming {
                    Some(message) => Some(message@),
                    None => None,
                },
            ),
        ),
        _ => None,
    }
}

/// A notification.
#[derive(Debug)]
pub struct Toast {
    phase: ToastPhase,
    message: String,
}

impl Toast {
    /// The notification as the contracts see it.
    pub closed spec fn view(&self) -> ToastView {
        ToastView { phase: self.phase, message: self.message@ }
    }

    /// A notification that will show `initial_message` first.
    pub fn show(initial_message: &str) -> (toast: Self)
        ensures
            toast@ == (ToastView { phase: ToastPhase::Fresh, message: initial_message@ }),
    {
        Toast { phase: ToastPhase::Fresh, message: String::from_str(initial_message) }
    }

    /// The message that the window shows.
    pub fn message(&self) -> (text: &str)
        ensures
            text@ == self@.message,
    {
        self.message.as_str()
    }

    /// Whether the window is gone.
    pub fn closed(&self) -> (gone: bool)
        ensures
            gone == (self@.phase == ToastPhase::Closed),
    {
        matches!(self.phase, ToastPhase::Closed)
    }

    /// Handles one event of the window.
    pub fn wndproc(&mut self, event: ToastEvent) -> (action: ToastAction)
        ensures
            (final(self)@, action) == toast_step(old(self)@, timer_of(event), event is Created),
    {
        match event {
            ToastEvent::Created => match self.phase {
                ToastPhase::Fresh => {
                    self.phase = ToastPhase::Polling;
                    ToastAction::Start { id: POLL_TIMER_ID, ms: POLL_MS }
                },
                _ => ToastAction::Nothing,
            },
            ToastEvent::Timer { id, incoming } => {
                if id == POLL_TIMER_ID && matches!(self.phase, ToastPhase::Polling) {
                    match incoming {
                        Some(message) => {
                            self.message = message;
                            self.phase = ToastPhase::Dismissing;
                            ToastAction::Replace {
                                stop: POLL_TIMER_ID,
                                id: DISMISS_TIMER_ID,
                                ms: DISMISS_MS,
                            }
                        },
                        None => ToastAction::Nothing,
                    }
                } else if id == DISMISS_TIMER_ID && matches!(self.phase, ToastPhase::Dismissing) {
                    self.phase = ToastPhase::Closing;
                    ToastAction::Close { stop: DISMISS_TIMER_ID }
                } else {
                    ToastAction::Nothing
                }
            },
            ToastEvent::Destroyed => match self.phase {
                ToastPhase::Closed => ToastAction::Nothing,
                _ => {
                    self.phase = ToastPhase::Closed;
                    ToastAction::Quit
                },
            },
        }
    }
}

/// What is left to do for a notification in `phase` once the final message
/// is there: create the window, show the message, close, and quit, as far
/// as that has not happened yet.
pub open spec fn remaining(phase: ToastPhase) -> Seq<ToastAction> {
    let start = ToastAction::Start { id: POLL_TIMER_ID, ms: POLL_MS };
    let replace = ToastAction::Replace {
        stop: POLL_TIMER_ID,
        id: DISMISS_TIMER_ID,
        ms: DISMISS_MS,
    };
    let close = ToastAction::Close { stop: DISMISS_TIMER_ID };
    match phase {
        ToastPhase::Fresh => seq![start, replace, close, ToastAction::Quit],
        ToastPhase::Polling => seq![replace, close, ToastAction::Quit],
        ToastPhase::Dismissing => seq![close, ToastAction::Quit],
        ToastPhase::Closing => seq![ToastAction::Quit],
        ToastPhase::Closed => Seq::empty(),
    }
}

impl Toast {
    /// Hands over the final message and carries the window through to its
    /// end. The answers of the window are returned in order.
    pub fn finish(self, message: &str) -> (actions: Vec<ToastAction>)
        ensures
            actions@ == remaining(self@.phase),
    {
        let mut toast = self;
        let mut actions: Vec<ToastAction> = Vec::new();
        if matches!(toast.phase, ToastPhase::Fresh) {
            let action = toast.wndproc(ToastEvent::Created);
            actions.push(action);
        }
        if matches!(toast.phase, ToastPhase::Polling) {
            let action = toast.wndproc(
                ToastEvent::Timer { id: POLL_TIMER_ID, incoming: Some(String::from_str(message)) },
            );
            actions.push(action);
        }
        if matches!(toast.phase, ToastPhase::Dismissing) {
            let action = toast.wndproc(ToastEvent::Timer { id: DISMISS_TIMER_ID, incoming: None });
            actions.push(action);
        }
        if matches!(toast.phase, ToastPhase::Closing) {
            let action = toast.wndproc(ToastEvent::Destroyed);
            actions.push(action);
        }
        assert(actions@ =~= remaining(self@.phase));
        actions
    }
}

/// The arguments with which `notify-send` shows `message`.
pub fn notify_args(message: &str) -> (args: Vec<String>)
    ensures
        texts(args@) == seq!["--app-name=muhenkan-switch"@, "muhenkan-switch"@, message@],
{
    let mut args: Vec<String> = Vec::new();
    assert(texts(args@) =~= Seq::empty());
    push_word(&mut args, "--app-name=muhenkan-switch");
    push_word(&mut args, "muhenkan-switch");
    push_word(&mut args, message);
    assert(texts(args@) =~= seq!["--app-name=muhenkan-switch"@, "muhenkan-switch"@, message@]);
    args
}

/// The length of the text in `units`: up to the first zero, or all of it.
pub fn text_len(units: &Vec<u16>) -> (len: usize)
    ensures
        len <= units@.len(),
        forall|i: int| 0 <= i < len ==> units@[i] != 0,
        len < units@.len() ==> units@[len as int] == 0,
{
    let mut i: usize = 0;
    while i < units.len()
        invariant
            i <= units.len(),
            forall|j: int| 0 <= j < i ==> units@[j] != 0,
        decreases units.len() - i,
    {
        if units[i] == 0 {
            return i;
        }
        i += 1;
    }
    i
}

} // verus!
