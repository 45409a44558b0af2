//! A button that performs an action, after a confirmation if it is asked to.
use vstd::prelude::*;

verus! {

/// Initializes an [`ActionButton`].
#[derive(Debug, Clone, PartialEq, Eq)]
pub struct ActionButtonInit {
    /// A short piece of text below the button.
    pub label: Option<String>,
    /// The icon name on the button.
    pub icon: String,
    /// A longer piece of text when hovering over the button.
    pub tooltip: Option<String>,
    /// If `true`, then the button will ask for a confirmation before the
    /// action message is sent.
    pub require_confirm: bool,
}

/// What the button shows.
#[derive(Debug, Clone, Copy, PartialEq, Eq, Structural)]
pub enum ActionButtonState {
    /// The button asks whether the action is meant.
    ConfirmTheAction,
    Normal,
}

/// Tells the parent to perform the action.
#[derive(Debug, Clone, Copy, PartialEq, Eq, Structural)]
pub struct ActionButtonOutput;

/// What the user did to the button.
#[derive(Debug, Clone, Copy, PartialEq, Eq, Structural)]
pub enum ActionButtonMsg {
    /// The button itself was pressed.
    Unconfirmed,
    /// The confirmation was pressed.
    Confirmation,
    /// The action was called off.
    Cancel,
}

/// An icon button with a label below that can be used to perform an action.
#[derive(Debug, Clone, Copy, PartialEq, Eq, Structural)]
pub struct ActionButton {
    pub state: ActionButtonState,
    pub require_confirm: bool,
}

impl ActionButton {
    /// Whether `message` makes the button perform its action.  A button that
    /// requires no confirmation acts when it is pressed; one that does acts
    /// only on the confirmation that it has asked for.
    pub open spec fn acts_on(self, message: ActionButtonMsg) -> bool {
        if self.require_confirm {
            message is Confirmation && self.state is ConfirmTheAction
        } else {
            !(message is Cancel)
        }
    }

    /// What the button shows after `message`.  It asks for the confirmation
    /// where it requires one and is pressed, and is back to normal after
    /// anything else.
    pub open spec fn state_after(self, message: ActionButtonMsg) -> ActionButtonState {
        if self.require_confirm && !(message is Cancel) && (self.state is Normal || message
            is Unconfirmed) {
            ActionButtonState::ConfirmTheAction
        } else {
            ActionButtonState::Normal
        }
    }

    /// The button as it is first shown.
    pub fn init(init: &ActionButtonInit) -> (r: Self)
        ensures
            r == (ActionButton {
                state: ActionButtonState::Normal,
                require_confirm: init.require_confirm,
            }),
    {
        ActionButton { state: ActionButtonState::Normal, require_confirm: init.require_confirm }
    }

    /// Answers what the user did: see [`ActionButton::acts_on`] and
    /// [`ActionButton::state_after`].
    pub fn update(&mut self, message: ActionButtonMsg) -> (r: Option<ActionButtonOutput>)
        ensures
            r is Some == old(self).acts_on(message),
            final(self).state == old(self).state_after(message),
            final(self).require_confirm == old(self).require_confirm,
    {
        match (message, self.state, self.require_confirm) {
            (ActionButtonMsg::Cancel, _, _) => {
                self.state = ActionButtonState::Normal;
                None
            },
            (ActionButtonMsg::Unconfirmed, ActionButtonState::Normal, true) => {
                self.state = ActionButtonState::ConfirmTheAction;
                None
            },
            (ActionButtonMsg::Confirmation, ActionButtonState::Normal, true) => {
                self.state = ActionButtonState::ConfirmTheAction;
                None
            },
            (ActionButtonMsg::Confirmation, ActionButtonState::ConfirmTheAction, true) => {
                self.state = ActionButtonState::Normal;
                Some(ActionButtonOutput)
            },
            (ActionButtonMsg::Unconfirmed, ActionButtonState::ConfirmTheAction, true) => None,
            (_, _, false) => {
                self.state = ActionButtonState::Normal;
                Some(ActionButtonOutput)
            },
        }
    }
}

/// A button that requires a confirmation never acts on one message alone:
/// whatever it showed before, after a message on which it did not act it acts
/// on the confirmation only.
pub proof fn lemma_confirmation_is_asked_for(button: ActionButton, message: ActionButtonMsg)
    requires
        button.require_confirm,
        button.state is Normal,
    ensures
        !button.acts_on(message),
{
}

} // verus!
