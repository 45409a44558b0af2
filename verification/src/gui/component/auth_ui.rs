//! The part of the greeter in which a user chooses who logs in and into
//! which session: it holds the cache of last sessions and passes on what the
//! two selectors and the session controller tell it.
use vstd::prelude::*;
use vstd::string::*;

use crate::cache::dedup;
use crate::cache::Cache;
use crate::cache::EntryView;
use crate::cache::SessionIdOrCmdline;
use crate::cache::SessionIdOrCmdlineView;
use crate::cmdline::shlex_split;
use crate::cmdline::split;
use crate::cmdline::words_view;
use crate::greetd::option_text;
use crate::gui::component::greetd_controls::command_view;
use crate::gui::component::greetd_controls::GreetdControlsInit;
use crate::gui::component::greetd_controls::GreetdControlsMsg;
use crate::gui::component::greetd_controls::GreetdControlsMsgView;
use crate::gui::component::greetd_controls::GreetdControlsOutput;
use crate::gui::component::greetd_controls::GreetdState;
use crate::gui::component::selector::EntryOrDropDown;
use crate::gui::component::selector::EntryOrDropDownView;
use crate::gui::component::selector::SelectorInit;
use crate::gui::component::selector::SelectorMsg;
use crate::gui::component::selector::SelectorMsgView;
use crate::gui::component::selector::SelectorOption;
use crate::gui::component::selector::SelectorOutput;
use crate::string_map::has_key;
use crate::string_map::map_of;
use crate::string_map::Pair;
use crate::string_map::StringMap;
use crate::sysutil::SessionInfo;
use crate::sysutil::User;
use crate::text::clone_strings;

verus! {

/// Initializes an [`AuthUi`].
#[derive(Debug)]
pub struct AuthUiInit<C> {
    /// The users of the system by their login names, each with the name to
    /// show for it, if it has one.
    pub users: StringMap<Option<String>>,
    /// The sessions of the system by the IDs of their desktop files.
    pub sessions: StringMap<SessionInfo>,
    /// The environment that a session is started with.
    pub env: StringMap<String>,
    pub initial_user: String,
    pub cache: Cache,
    pub greetd_state: GreetdState<C>,
}

/// What the component tells its parent.
#[derive(Debug, Clone, PartialEq, Eq)]
pub enum AuthUiOutput {
    ShowError(String),
    SessionStarted,
}

/// What the component is told by its children.
#[derive(Debug, Clone, PartialEq, Eq)]
pub enum AuthUiMsg {
    UserChanged(EntryOrDropDown),
    SessionChanged(Option<Vec<String>>),
    ShowError(String),
    CreatedSessionFor(String),
    SessionCanceledFor(String),
    SessionStarted,
}

/// What a [`AuthUiMsg`] holds, as mathematical values.
pub enum AuthUiMsgView {
    UserChanged(EntryOrDropDownView),
    SessionChanged(Option<Seq<Seq<char>>>),
    ShowError(Seq<char>),
    CreatedSessionFor(Seq<char>),
    SessionCanceledFor(Seq<char>),
    SessionStarted,
}

impl View for AuthUiMsg {
    type V = AuthUiMsgView;

    open spec fn view(&self) -> AuthUiMsgView {
        match *self {
            AuthUiMsg::UserChanged(entry) => AuthUiMsgView::UserChanged(entry@),
            AuthUiMsg::SessionChanged(command) => AuthUiMsgView::SessionChanged(
                command_view(command),
            ),
            AuthUiMsg::ShowError(error) => AuthUiMsgView::ShowError(error@),
            AuthUiMsg::CreatedSessionFor(name) => AuthUiMsgView::CreatedSessionFor(name@),
            AuthUiMsg::SessionCanceledFor(name) => AuthUiMsgView::SessionCanceledFor(name@),
            AuthUiMsg::SessionStarted => AuthUiMsgView::SessionStarted,
        }
    }
}

/// Something that a message makes the component do.
#[derive(Debug)]
pub enum AuthUiEffect {
    /// Pass the message on to the session controller.
    GreetdControls(GreetdControlsMsg),
    /// Pass the message on to the selector of the user.
    UserSelector(SelectorMsg),
    /// Pass the message on to the selector of the session.
    SessionSelector(SelectorMsg),
    /// Save the cache.
    SaveCache(Cache),
    /// Tell the parent.
    Output(AuthUiOutput),
}

/// What an [`AuthUiEffect`] holds, as mathematical values.
pub enum AuthUiEffectView {
    GreetdControls(GreetdControlsMsgView),
    UserSelector(SelectorMsgView),
    SessionSelector(SelectorMsgView),
    SaveCache(Seq<EntryView>),
    ShowError(Seq<char>),
    SessionStarted,
}

impl View for AuthUiEffect {
    type V = AuthUiEffectView;

    open spec fn view(&self) -> AuthUiEffectView {
        match *self {
            AuthUiEffect::GreetdControls(message) => AuthUiEffectView::GreetdControls(message@),
            AuthUiEffect::UserSelector(message) => AuthUiEffectView::UserSelector(message@),
            AuthUiEffect::SessionSelector(message) => AuthUiEffectView::SessionSelector(message@),
            AuthUiEffect::SaveCache(cache) => AuthUiEffectView::SaveCache(cache@),
            AuthUiEffect::Output(AuthUiOutput::ShowError(error)) => AuthUiEffectView::ShowError(
                error@,
            ),
            AuthUiEffect::Output(AuthUiOutput::SessionStarted) => AuthUiEffectView::SessionStarted,
        }
    }
}

/// The views of a list of effects.
pub open spec fn effects_view(effects: Seq<AuthUiEffect>) -> Seq<AuthUiEffectView> {
    effects.map_values(|effect: AuthUiEffect| effect@)
}

/// The message by which the session controller's output reaches the
/// component.
pub fn forward_output(output: GreetdControlsOutput) -> (r: AuthUiMsg)
    ensures
        r@ == match output {
            GreetdControlsOutput::NotifyError(error) => AuthUiMsgView::ShowError(error@),
            GreetdControlsOutput::CreatedSessionFor(name) => AuthUiMsgView::CreatedSessionFor(name@),
            GreetdControlsOutput::SessionCanceledFor(name) => AuthUiMsgView::SessionCanceledFor(
                name@,
            ),
            GreetdControlsOutput::SessionStarted => AuthUiMsgView::SessionStarted,
        },
{
    match output {
        GreetdControlsOutput::NotifyError(error) => AuthUiMsg::ShowError(error),
        GreetdControlsOutput::CreatedSessionFor(username) => AuthUiMsg::CreatedSessionFor(username),
        GreetdControlsOutput::SessionCanceledFor(username) => AuthUiMsg::SessionCanceledFor(
            username,
        ),
        GreetdControlsOutput::SessionStarted => AuthUiMsg::SessionStarted,
    }
}

/// How a cached session is selected: a desktop file by its ID among the
/// options, a command line as a free text.
pub open spec fn selection_of(session: SessionIdOrCmdlineView) -> EntryOrDropDownView {
    match session {
        SessionIdOrCmdlineView::XdgDektopFile(id) => EntryOrDropDownView::DropDown(id),
        SessionIdOrCmdlineView::Command(line) => EntryOrDropDownView::Entry(line),
    }
}

/// How a selected session is cached: the reverse of [`selection_of`].
pub open spec fn cached_as(selection: EntryOrDropDownView) -> SessionIdOrCmdlineView {
    match selection {
        EntryOrDropDownView::DropDown(id) => SessionIdOrCmdlineView::XdgDektopFile(id),
        EntryOrDropDownView::Entry(line) => SessionIdOrCmdlineView::Command(line),
    }
}

/// The session that is selected at first.  It is the session that the last
/// user started last, unless that is a desktop file that the system does not
/// have; else the first session of the system; else an empty command line.
pub open spec fn initial_session<V>(cache: Seq<EntryView>, sessions: Seq<Pair<V>>) -> EntryOrDropDownView {
    if cache.len() > 0 && !(cache[0].1 matches SessionIdOrCmdlineView::XdgDektopFile(id)
        && !has_key(sessions, id)) {
        selection_of(cache[0].1)
    } else if sessions.len() > 0 {
        EntryOrDropDownView::DropDown(sessions[0].0)
    } else {
        EntryOrDropDownView::Entry(Seq::empty())
    }
}

/// How a user is selected: by the login name among the options where the
/// system has the user, else as a free text.
pub open spec fn user_selection<V>(users: Seq<Pair<V>>, username: Seq<char>) -> EntryOrDropDownView {
    if has_key(users, username) {
        EntryOrDropDownView::DropDown(username)
    } else {
        EntryOrDropDownView::Entry(username)
    }
}

/// The user who is selected at first: the one who logged in last, if the
/// system still has that user; else the first user of the system; else no
/// one.
pub open spec fn initial_user_of<V>(cache: Seq<EntryView>, users: Seq<Pair<V>>) -> Seq<char> {
    if cache.len() > 0 && has_key(users, cache[0].0) {
        cache[0].0
    } else if users.len() > 0 {
        users[0].0
    } else {
        Seq::empty()
    }
}

/// The user who is selected at first: see [`initial_user_of`].
pub fn initial_user(cache: &Cache, users: &StringMap<User>) -> (r: String)
    ensures
        r@ == initial_user_of(cache@, users.entries()),
{
    match cache.last_user() {
        Some(user) => {
            if users.contains_key(user) {
                return user.to_owned();
            }
        },
        None => {},
    }
    if users.len() > 0 {
        users.key_at(0).to_owned()
    } else {
        String::new()
    }
}

/// The names under which the users are offered: each user's full name.
pub fn display_names(users: &StringMap<User>) -> (names: StringMap<Option<String>>)
    ensures
        names.entries().len() == users.entries().len(),
        forall|i: int|
            0 <= i < users.entries().len() ==> (#[trigger] names.entries()[i]).0
                == users.entries()[i].0 && option_text(names.entries()[i].1) == Some(
                users.entries()[i].1@.full_name,
            ),
{
    let mut names: StringMap<Option<String>> = StringMap::new();
    let len = users.len();
    let mut i: usize = 0;
    while i < len
        invariant
            i <= len == users.entries().len(),
            crate::string_map::distinct_keys(users.entries()),
            names.entries().len() == i,
            forall|j: int|
                0 <= j < i ==> (#[trigger] names.entries()[j]).0 == users.entries()[j].0
                    && option_text(names.entries()[j].1) == Some(users.entries()[j].1@.full_name),
        decreases len - i,
    {
        let key = users.key_at(i).to_owned();
        let name = users.value_at(i).full_name().to_owned();
        let ghost before = names.entries();
        proof {
            assert(!names@.contains_key(key@)) by {
                if has_key(before, key@) {
                    let j = choose|j: int| 0 <= j < before.len() && (#[trigger] before[j]).0 == key@;
                    assert(users.entries()[j].0 == users.entries()[i as int].0);
                }
            }
        }
        names.insert(key, Some(name));
        i += 1;
    }
    names
}

/// The environment as greetd takes it: an entry `KEY=VALUE` for each
/// variable.
pub fn env_list(env: &StringMap<String>) -> (list: Vec<String>)
    ensures
        list.len() == env.entries().len(),
        forall|i: int|
            0 <= i < list.len() ==> (#[trigger] list[i])@ == env.entries()[i].0 + seq!['=']
                + env.entries()[i].1@,
{
    let mut list: Vec<String> = Vec::new();
    let len = env.len();
    let mut i: usize = 0;
    while i < len
        invariant
            i <= len == env.entries().len(),
            list.len() == i,
            forall|j: int|
                0 <= j < i ==> (#[trigger] list[j])@ == env.entries()[j].0 + seq!['=']
                    + env.entries()[j].1@,
        decreases len - i,
    {
        let mut entry = env.key_at(i).to_owned();
        proof {
            reveal_strlit("=");
            assert("="@ =~= seq!['=']);
        }
        entry.append("=");
        entry.append(env.value_at(i).as_str());
        list.push(entry);
        i += 1;
    }
    list
}

/// The command that a selected session is started with: the words of a
/// command line, if it can be split into words, and the command of a session
/// of the system, if the system has it.
pub open spec fn command_of(
    sessions: Map<Seq<char>, SessionInfo>,
    selection: EntryOrDropDownView,
) -> Option<Seq<Seq<char>>> {
    match selection {
        EntryOrDropDownView::Entry(line) => shlex_split(line),
        EntryOrDropDownView::DropDown(id) => if sessions.contains_key(id) {
            Some(sessions[id]@.command)
        } else {
            None
        },
    }
}

/// The model of the component.
#[derive(Debug)]
pub struct AuthUi {
    cache: Cache,
    user_gecos: StringMap<Option<String>>,
    sessions: StringMap<SessionInfo>,
    current_username: String,
    current_session: EntryOrDropDown,
    authenticating_as: Option<String>,
}

/// What an [`AuthUi`] holds, as mathematical values.
pub struct AuthUiView {
    pub cache: Seq<EntryView>,
    /// The login names of the users of the system.
    pub users: Seq<Pair<Option<String>>>,
    pub sessions: Map<Seq<char>, SessionInfo>,
    pub current_username: Seq<char>,
    pub current_session: EntryOrDropDownView,
    /// The user for whom a session exists, while one does.
    pub authenticating_as: Option<Seq<char>>,
}

impl View for AuthUi {
    type V = AuthUiView;

    closed spec fn view(&self) -> AuthUiView {
        AuthUiView {
            cache: self.cache@,
            users: self.user_gecos.entries(),
            sessions: self.sessions@,
            current_username: self.current_username@,
            current_session: self.current_session@,
            authenticating_as: option_text(self.authenticating_as),
        }
    }
}

/// Whether the cache holds an entry for `user` at place `i`, and none before.
pub open spec fn first_entry_for(cache: Seq<EntryView>, user: Seq<char>, i: int) -> bool {
    0 <= i < cache.len() && cache[i].0 == user && !crate::cache::has_user(cache.take(i), user)
}

impl AuthUiView {
    /// What the component does on a message, in this order, and the
    /// component after it.
    pub open spec fn update(self, message: AuthUiMsgView) -> (Self, Seq<AuthUiEffectView>) {
        match message {
            AuthUiMsgView::UserChanged(entry) => {
                let username = match entry {
                    EntryOrDropDownView::DropDown(username) => username,
                    EntryOrDropDownView::Entry(username) => username,
                };
                let told = seq![
                    AuthUiEffectView::GreetdControls(GreetdControlsMsgView::UpdateUser(username)),
                ];
                if crate::cache::has_user(self.cache, username) {
                    let i = choose|i: int| first_entry_for(self.cache, username, i);
                    (
                        self,
                        told.push(
                            AuthUiEffectView::SessionSelector(
                                SelectorMsgView::SetSelection(selection_of(self.cache[i].1)),
                            ),
                        ),
                    )
                } else {
                    (self, told)
                }
            },
            AuthUiMsgView::SessionChanged(command) => (
                self,
                seq![
                    AuthUiEffectView::GreetdControls(GreetdControlsMsgView::UpdateSession(command)),
                ],
            ),
            AuthUiMsgView::CreatedSessionFor(username) => (
                AuthUiView { authenticating_as: Some(username), ..self },
                seq![AuthUiEffectView::UserSelector(SelectorMsgView::Lock)],
            ),
            AuthUiMsgView::SessionCanceledFor(username) => (
                AuthUiView { authenticating_as: None, ..self },
                seq![
                    AuthUiEffectView::UserSelector(SelectorMsgView::Unlock),
                    AuthUiEffectView::UserSelector(
                        SelectorMsgView::SetSelection(user_selection(self.users, username)),
                    ),
                ],
            ),
            AuthUiMsgView::ShowError(error) => (self, seq![AuthUiEffectView::ShowError(error)]),
            AuthUiMsgView::SessionStarted => (
                AuthUiView { cache: Seq::empty(), ..self },
                seq![
                    AuthUiEffectView::UserSelector(SelectorMsgView::Lock),
                    AuthUiEffectView::SessionSelector(SelectorMsgView::Lock),
                    AuthUiEffectView::SaveCache(
                        dedup(
                            seq![(self.current_username, cached_as(self.current_session))]
                                + self.cache,
                        ),
                    ),
                    AuthUiEffectView::SessionStarted,
                ],
            ),
        }
    }
}

/// What [`AuthUi::init`] makes: the component, and what its children are
/// made from.
#[derive(Debug)]
pub struct AuthUiParts<C> {
    pub model: AuthUi,
    pub user_selector: SelectorInit,
    pub session_selector: SelectorInit,
    pub greetd_controls: GreetdControlsInit<C>,
}

impl AuthUi {
    /// Makes the component and what its children are made from.
    ///
    /// The selector of the user offers the users of the system and selects
    /// the initial user; it is locked where a session exists already.  The
    /// selector of the session offers the sessions of the system and selects
    /// the [`initial_session`].  The session controller takes over the state
    /// of the connection, the initial user and the environment.  Its command
    /// is that of the session that is stored under the initial user's name,
    /// and empty where there is none: the command of the selected session
    /// reaches the controller with the first message of the session's
    /// selector.
    pub fn init<C>(init: AuthUiInit<C>) -> (parts: AuthUiParts<C>)
        ensures
            parts.model@ == (AuthUiView {
                cache: init.cache@,
                users: init.users.entries(),
                sessions: init.sessions@,
                current_username: init.initial_user@,
                current_session: initial_session(init.cache@, init.sessions.entries()),
                authenticating_as: None,
            }),
            parts.user_selector.initial_selection@ == user_selection(
                init.users.entries(),
                init.initial_user@,
            ),
            parts.user_selector.locked == !(init.greetd_state@ is NotCreated),
            parts.user_selector.entry_placeholder@ == "System username"@,
            parts.user_selector.toggle_icon_name@ == "document-edit-symbolic"@,
            parts.user_selector.toggle_tooltip@ == "Manually enter a system username"@,
            parts.session_selector.entry_placeholder@ == "Session command"@,
            parts.session_selector.toggle_icon_name@ == "document-edit-symbolic"@,
            parts.session_selector.toggle_tooltip@ == "Manually enter session command"@,
            parts.user_selector.options@.len() == init.users.entries().len(),
            forall|i: int|
                0 <= i < init.users.entries().len() ==> (#[trigger] parts.user_selector.options[i]).id@
                    == init.users.entries()[i].0 && parts.user_selector.options[i].text@
                    == match init.users.entries()[i].1 {
                    Some(name) => name@,
                    None => init.users.entries()[i].0,
                },
            parts.session_selector.initial_selection@ == initial_session(
                init.cache@,
                init.sessions.entries(),
            ),
            !parts.session_selector.locked,
            parts.session_selector.options@.len() == init.sessions.entries().len(),
            forall|i: int|
                0 <= i < init.sessions.entries().len() ==> (
                #[trigger] parts.session_selector.options[i]).id@ == init.sessions.entries()[i].0
                    && parts.session_selector.options[i].text@ == init.sessions.entries()[i].1.name@,
            parts.greetd_controls.greetd_state@ == init.greetd_state@,
            parts.greetd_controls.username@ == init.initial_user@,
            parts.greetd_controls.command.deep_view() == if init.sessions@.contains_key(
                init.initial_user@,
            ) {
                init.sessions@[init.initial_user@]@.command
            } else {
                Seq::empty()
            },
            parts.greetd_controls.env@.len() == init.env.entries().len(),
            forall|i: int|
                0 <= i < init.env.entries().len() ==> (#[trigger] parts.greetd_controls.env[i])@
                    == init.env.entries()[i].0 + seq!['='] + init.env.entries()[i].1@,
    {
        let AuthUiInit { sessions, users, env, initial_user, cache, greetd_state } = init;
        let initial_session = Self::initial_session(&cache, &sessions);
        let user_entry = if users.contains_key(initial_user.as_str()) {
            EntryOrDropDown::DropDown(initial_user.clone())
        } else {
            EntryOrDropDown::Entry(initial_user.clone())
        };
        let mut user_options: Vec<SelectorOption> = Vec::new();
        let users_len = users.len();
        let mut i: usize = 0;
        while i < users_len
            invariant
                i <= users_len == users.entries().len(),
                user_options.len() == i,
                forall|j: int|
                    0 <= j < i ==> (#[trigger] user_options[j]).id@ == users.entries()[j].0
                        && user_options[j].text@ == match users.entries()[j].1 {
                        Some(name) => name@,
                        None => users.entries()[j].0,
                    },
            decreases users_len - i,
        {
            let system = users.key_at(i);
            let text = match users.value_at(i) {
                Some(display) => display.clone(),
                None => system.to_owned(),
            };
            user_options.push(SelectorOption { id: system.to_owned(), text });
            i += 1;
        }
        let mut session_options: Vec<SelectorOption> = Vec::new();
        let sessions_len = sessions.len();
        let mut i: usize = 0;
        while i < sessions_len
            invariant
                i <= sessions_len == sessions.entries().len(),
                session_options.len() == i,
                forall|j: int|
                    0 <= j < i ==> (#[trigger] session_options[j]).id@ == sessions.entries()[j].0
                        && session_options[j].text@ == sessions.entries()[j].1.name@,
            decreases sessions_len - i,
        {
            session_options.push(
                SelectorOption {
                    id: sessions.key_at(i).to_owned(),
                    text: sessions.value_at(i).name.clone(),
                },
            );
            i += 1;
        }
        let initial_command = match sessions.get(initial_user.as_str()) {
            Some(session) => clone_strings(&session.command),
            None => {
                let none: Vec<String> = Vec::new();
                assert(none.deep_view() =~= Seq::<Seq<char>>::empty());
                none
            },
        };
        let locked = match &greetd_state {
            GreetdState::NotCreated(_) => false,
            _ => true,
        };
        let user_selector = SelectorInit {
            entry_placeholder: String::from_str("System username"),
            options: user_options,
            initial_selection: user_entry,
            locked,
            toggle_icon_name: String::from_str("document-edit-symbolic"),
            toggle_tooltip: String::from_str("Manually enter a system username"),
        };
        let session_selector = SelectorInit {
            entry_placeholder: String::from_str("Session command"),
            options: session_options,
            initial_selection: initial_session.duplicate(),
            locked: false,
            toggle_icon_name: String::from_str("document-edit-symbolic"),
            toggle_tooltip: String::from_str("Manually enter session command"),
        };
        let greetd_controls = GreetdControlsInit {
            greetd_state,
            username: initial_user.clone(),
            command: initial_command,
            env: env_list(&env),
        };
        let model = AuthUi {
            cache,
            user_gecos: users,
            sessions,
            current_username: initial_user,
            current_session: initial_session,
            authenticating_as: None,
        };
        AuthUiParts { model, user_selector, session_selector, greetd_controls }
    }

    /// The session that is selected at first: see [`initial_session`].
    pub fn initial_session(cache: &Cache, sessions: &StringMap<SessionInfo>) -> (r: EntryOrDropDown)
        ensures
            r@ == initial_session(cache@, sessions.entries()),
    {
        if cache.user_to_last_sess.len() > 0 {
            match &cache.user_to_last_sess[0].1 {
                SessionIdOrCmdline::XdgDektopFile(id) => {
                    if sessions.contains_key(id.as_str()) {
                        return EntryOrDropDown::DropDown(id.clone());
                    }
                },
                SessionIdOrCmdline::Command(cmd) => {
                    return EntryOrDropDown::Entry(cmd.clone());
                },
            }
        }
        if sessions.len() > 0 {
            EntryOrDropDown::DropDown(sessions.key_at(0).to_owned())
        } else {
            EntryOrDropDown::Entry(String::new())
        }
    }

    /// The command that the selected session is started with: see
    /// [`command_of`].
    pub fn session_command(&self, selection: &EntryOrDropDown) -> (r: Option<Vec<String>>)
        ensures
            words_view(r) == command_of(self@.sessions, selection@),
    {
        match selection {
            EntryOrDropDown::Entry(cmdline) => split(cmdline.as_str()),
            EntryOrDropDown::DropDown(id) => match self.sessions.get(id.as_str()) {
                Some(session) => Some(clone_strings(&session.command)),
                None => None,
            },
        }
    }

    /// The message by which the selection of a session reaches the
    /// component: it carries the command that the session is started with.
    pub fn forward_session(&self, output: SelectorOutput) -> (r: AuthUiMsg)
        ensures
            r@ == AuthUiMsgView::SessionChanged(command_of(self@.sessions, output->0@)),
    {
        let SelectorOutput::CurrentSelection(entry) = output;
        AuthUiMsg::SessionChanged(self.session_command(&entry))
    }

    /// The user for whom a session exists, while one does.
    pub fn authenticating_as(&self) -> (r: Option<&str>)
        ensures
            crate::sysutil::str_view(r) == self@.authenticating_as,
    {
        match &self.authenticating_as {
            Some(username) => Some(username.as_str()),
            None => None,
        }
    }

    /// The name under which `username` is shown, if the user has one.
    pub fn display_name(&self, username: &str) -> (r: Option<&str>)
        ensures
            match r {
                Some(name) => map_of(self@.users).contains_key(username@) && option_text(
                    map_of(self@.users)[username@],
                ) == Some(name@),
                None => !map_of(self@.users).contains_key(username@) || map_of(
                    self@.users,
                )[username@] is None,
            },
    {
        match self.user_gecos.get(username) {
            Some(Some(name)) => Some(name.as_str()),
            _ => None,
        }
    }

    /// Answers a message: see [`AuthUiView::update`].
    pub fn update(&mut self, message: AuthUiMsg) -> (effects: Vec<AuthUiEffect>)
        ensures
            final(self)@ == old(self)@.update(message@).0,
            effects_view(effects@) == old(self)@.update(message@).1,
    {
        let mut effects: Vec<AuthUiEffect> = Vec::new();
        match message {
            AuthUiMsg::UserChanged(entry) => {
                let username = match entry {
                    EntryOrDropDown::DropDown(username) => username,
                    EntryOrDropDown::Entry(username) => username,
                };
                effects.push(
                    AuthUiEffect::GreetdControls(GreetdControlsMsg::UpdateUser(username.clone())),
                );
                match self.cache.last_user_session(username.as_str()) {
                    Some(last_session) => {
                        let selection = match last_session {
                            SessionIdOrCmdline::Command(cmd) => EntryOrDropDown::Entry(cmd.clone()),
                            SessionIdOrCmdline::XdgDektopFile(id) => EntryOrDropDown::DropDown(
                                id.clone(),
                            ),
                        };
                        proof {
                            let cache = self@.cache;
                            let found = choose|i: int|
                                0 <= i < cache.len() && (#[trigger] cache[i]) == (
                                    username@,
                                    last_session@,
                                ) && !crate::cache::has_user(cache.take(i), username@);
                            assert(first_entry_for(cache, username@, found));
                            assert(crate::cache::has_user(cache, username@));
                            let i = choose|i: int| first_entry_for(cache, username@, i);
                            if i < found {
                                assert(cache.take(found)[i].0 == username@);
                            }
                            if found < i {
                                assert(cache.take(i)[found].0 == username@);
                            }
                            assert(selection@ == selection_of(cache[i].1));
                        }
                        effects.push(
                            AuthUiEffect::SessionSelector(SelectorMsg::SetSelection(selection)),
                        );
                    },
                    None => {},
                }
            },
            AuthUiMsg::SessionChanged(entry) => {
                effects.push(AuthUiEffect::GreetdControls(GreetdControlsMsg::UpdateSession(entry)));
            },
            AuthUiMsg::CreatedSessionFor(username) => {
                effects.push(AuthUiEffect::UserSelector(SelectorMsg::Lock));
                self.authenticating_as = Some(username);
            },
            AuthUiMsg::SessionCanceledFor(username) => {
                effects.push(AuthUiEffect::UserSelector(SelectorMsg::Unlock));
                let selection = if self.user_gecos.contains_key(username.as_str()) {
                    EntryOrDropDown::DropDown(username)
                } else {
                    EntryOrDropDown::Entry(username)
                };
                effects.push(AuthUiEffect::UserSelector(SelectorMsg::SetSelection(selection)));
                self.authenticating_as = None;
            },
            AuthUiMsg::ShowError(error) => {
                effects.push(AuthUiEffect::Output(AuthUiOutput::ShowError(error)));
            },
            AuthUiMsg::SessionStarted => {
                effects.push(AuthUiEffect::UserSelector(SelectorMsg::Lock));
                effects.push(AuthUiEffect::SessionSelector(SelectorMsg::Lock));
                let session = match &self.current_session {
                    EntryOrDropDown::Entry(cmd) => SessionIdOrCmdline::Command(cmd.clone()),
                    EntryOrDropDown::DropDown(id) => SessionIdOrCmdline::XdgDektopFile(id.clone()),
                };
                self.cache.set_last_login(self.current_username.clone(), session);
                let mut cache = Cache::default();
                core::mem::swap(&mut cache, &mut self.cache);
                effects.push(AuthUiEffect::SaveCache(cache));
                effects.push(AuthUiEffect::Output(AuthUiOutput::SessionStarted));
            },
        }
        assert(effects_view(effects@) =~= old(self)@.update(message@).1);
        effects
    }
}

} // verus!
