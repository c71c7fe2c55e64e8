//! What the user asks for, and the one request that it becomes.

use vstd::prelude::*;

verus! {

/// The four keyboard modifiers that go with a key, each by itself.
#[derive(Clone, Copy, Debug, PartialEq, Eq, Structural)]
pub struct Modifiers {
    pub shift: bool,
    pub control: bool,
    pub alt: bool,
    pub command: bool,
}

/// The action named on the command line.
#[derive(Clone, Debug, PartialEq, Eq)]
pub enum Action {
    /// List the hotkeys that are registered.
    List,
    /// Trigger the hotkey of this name.
    Trigger { hotkey_name: String },
    /// Press a key, with the modifiers whose switch is set.
    Sequence { key_id: String, shift: bool, control: bool, alt: bool, command: bool },
}

/// What an `Action` stands for.
pub enum ActionView {
    List,
    Trigger { hotkey_name: Seq<char> },
    Sequence { key_id: Seq<char>, shift: bool, control: bool, alt: bool, command: bool },
}

impl View for Action {
    type V = ActionView;

    open spec fn view(&self) -> ActionView {
        match *self {
            Action::List => ActionView::List,
            Action::Trigger { hotkey_name } => ActionView::Trigger { hotkey_name: hotkey_name@ },
            Action::Sequence { key_id, shift, control, alt, command } => ActionView::Sequence {
                key_id: key_id@,
                shift,
                control,
                alt,
                command,
            },
        }
    }
}

/// A request to the remote service.
#[derive(Clone, Debug, PartialEq, Eq)]
pub enum Request {
    /// Ask for the names of all hotkeys.
    ListHotkeys,
    /// Trigger the hotkey of exactly this name.
    TriggerByName { name: String },
    /// Press this key with these modifiers, all at once.
    TriggerBySequence { key_id: String, modifiers: Modifiers },
}

/// What a `Request` stands for.
pub enum RequestView {
    ListHotkeys,
    TriggerByName { name: Seq<char> },
    TriggerBySequence { key_id: Seq<char>, modifiers: Modifiers },
}

impl View for Request {
    type V = RequestView;

    open spec fn view(&self) -> RequestView {
        match *self {
            Request::ListHotkeys => RequestView::ListHotkeys,
            Request::TriggerByName { name } => RequestView::TriggerByName { name: name@ },
            Request::TriggerBySequence { key_id, modifiers } => RequestView::TriggerBySequence {
                key_id: key_id@,
                modifiers,
            },
        }
    }
}

/// The request that an action becomes. Each modifier comes from its own
/// switch; the name and the key are passed on as they are.
pub open spec fn request_of(action: ActionView) -> RequestView {
    match action {
        ActionView::List => RequestView::ListHotkeys,
        ActionView::Trigger { hotkey_name } => RequestView::TriggerByName { name: hotkey_name },
        ActionView::Sequence { key_id, shift, control, alt, command } => {
            RequestView::TriggerBySequence {
                key_id,
                modifiers: Modifiers { shift, control, alt, command },
            }
        },
    }
}

impl Modifiers {
    /// The modifier set of four switches.
    pub fn from_switches(shift: bool, control: bool, alt: bool, command: bool) -> (r: Modifiers)
        ensures
            r == (Modifiers { shift, control, alt, command }),
    {
        Modifiers { shift, control, alt, command }
    }
}

impl Action {
    /// Turns the action into its request.
    pub fn into_request(self) -> (r: Request)
        ensures
            r@ == request_of(self@),
    {
        match self {
            Action::List => Request::ListHotkeys,
            Action::Trigger { hotkey_name } => Request::TriggerByName { name: hotkey_name },
            Action::Sequence { key_id, shift, control, alt, command } => {
                Request::TriggerBySequence {
                    key_id,
                    modifiers: Modifiers::from_switches(shift, control, alt, command),
                }
            },
        }
    }
}

} // verus!
