//! The list of the notifications that are shown to the user.
use vstd::prelude::*;

use crate::gui::component::greetd_controls::MessageType;

verus! {

/// A notification: a text with markup, and how to style it.
#[derive(Debug, Clone, PartialEq, Eq)]
pub struct NotificationItemInit {
    pub markup_text: String,
    pub message_type: MessageType,
}

/// What a notification tells the list.
#[derive(Debug, Clone, Copy, PartialEq, Eq, Structural)]
pub enum NotificationItemOutput {
    /// The notification at this place was dismissed.
    Dismissed(usize),
}

/// What the list can be asked to do.
#[derive(Debug, Clone, PartialEq, Eq)]
pub enum NotificationListMsg {
    /// Dismisses the notification at this index.
    Dismiss(usize),
    /// Shows a notification.
    Notify(NotificationItemInit),
}

/// The notifications that are shown, the oldest first.
#[derive(Debug, Clone, PartialEq, Eq)]
pub struct NotificationList {
    pub items: Vec<NotificationItemInit>,
}

/// The message by which a notification's output reaches the list.
pub fn output_to_parent_input(output: NotificationItemOutput) -> (r: Option<NotificationListMsg>)
    ensures
        r matches Some(NotificationListMsg::Dismiss(index)) && output
            == NotificationItemOutput::Dismissed(index),
{
    let NotificationItemOutput::Dismissed(index) = output;
    Some(NotificationListMsg::Dismiss(index))
}

impl NotificationList {
    /// The list that shows `init` at first.
    pub fn init(init: Vec<NotificationItemInit>) -> (r: Self)
        ensures
            r.items@ == init@,
    {
        NotificationList { items: init }
    }

    /// Answers a message: a dismissed notification leaves the list, the
    /// others staying in their order, and a new one is added at the end.  To
    /// dismiss what is not in the list changes nothing.
    pub fn update(&mut self, message: NotificationListMsg)
        ensures
            final(self).items@ == match message {
                NotificationListMsg::Dismiss(index) => if index < old(self).items@.len() {
                    old(self).items@.remove(index as int)
                } else {
                    old(self).items@
                },
                NotificationListMsg::Notify(init) => old(self).items@.push(init),
            },
    {
        match message {
            NotificationListMsg::Dismiss(index) => {
                if index < self.items.len() {
                    self.items.remove(index);
                }
            },
            NotificationListMsg::Notify(init) => {
                self.items.push(init);
            },
        }
    }
}

} // verus!
