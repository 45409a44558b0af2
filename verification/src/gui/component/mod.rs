//! Setup for using the greeter as a set of components, each as a model with
//! its update function.
use vstd::prelude::*;

pub mod action_button;
pub mod auth_ui;
pub mod greetd_controls;
pub mod laws;
pub mod notification_list;
pub mod selector;

pub use greetd_controls::CommandOutput;
pub use greetd_controls::Exchange;
pub use greetd_controls::GreetdState;
pub use greetd_controls::GreetdControls;
pub use greetd_controls::GreetdControlsInit;
pub use greetd_controls::GreetdControlsMsg;
pub use greetd_controls::GreetdControlsOutput;
pub use selector::EntryOrDropDown;
pub use notification_list::NotificationItemInit;

verus! {

/// What the greeter's window can be told.
#[derive(Debug, Clone, PartialEq, Eq)]
pub enum AppMsg {
    Reboot,
    Poweroff,
    ShowNotification(NotificationItemInit),
    SessionStarted,
}

/// What a message makes the greeter do.
#[derive(Debug, Clone, PartialEq, Eq)]
pub enum AppEffect {
    /// Nothing.
    Nothing,
    /// Run this command and log how it ended.
    Exec(Vec<String>),
    /// Show this notification.
    Notify(NotificationItemInit),
    /// Leave: the session has been started.
    Quit,
}

/// The model of the greeter's window: the commands behind its two buttons.
#[derive(Debug, Clone, PartialEq, Eq)]
pub struct App {
    pub reboot_cmd: Vec<String>,
    pub poweroff_cmd: Vec<String>,
}

/// What a command to run comes to: executing an empty command is a noop.
pub open spec fn exec_of(cmd: Seq<Seq<char>>) -> Option<Seq<Seq<char>>> {
    if cmd.len() == 0 {
        None
    } else {
        Some(cmd)
    }
}

/// Decides whether `cmd` is run: see [`exec_of`].
pub fn exec(cmd: &Vec<String>) -> (r: AppEffect)
    ensures
        match r {
            AppEffect::Exec(words) => exec_of(cmd.deep_view()) == Some(words.deep_view()),
            AppEffect::Nothing => exec_of(cmd.deep_view()) is None,
            _ => false,
        },
{
    if cmd.len() == 0 {
        AppEffect::Nothing
    } else {
        AppEffect::Exec(crate::text::clone_strings(cmd))
    }
}

impl App {
    /// Answers a message: the two buttons run their commands, a notification
    /// is shown, and the start of the session ends the greeter.
    pub fn update(&self, message: AppMsg) -> (r: AppEffect)
        ensures
            match message {
                AppMsg::Reboot => match r {
                    AppEffect::Exec(words) => exec_of(self.reboot_cmd.deep_view()) == Some(
                        words.deep_view(),
                    ),
                    AppEffect::Nothing => exec_of(self.reboot_cmd.deep_view()) is None,
                    _ => false,
                },
                AppMsg::Poweroff => match r {
                    AppEffect::Exec(words) => exec_of(self.poweroff_cmd.deep_view()) == Some(
                        words.deep_view(),
                    ),
                    AppEffect::Nothing => exec_of(self.poweroff_cmd.deep_view()) is None,
                    _ => false,
                },
                AppMsg::ShowNotification(item) => r == AppEffect::Notify(item),
                AppMsg::SessionStarted => r is Quit,
            },
    {
        match message {
            AppMsg::Reboot => exec(&self.reboot_cmd),
            AppMsg::Poweroff => exec(&self.poweroff_cmd),
            AppMsg::ShowNotification(item) => AppEffect::Notify(item),
            AppMsg::SessionStarted => AppEffect::Quit,
        }
    }
}

} // verus!
