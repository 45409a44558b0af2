//! Helper for system utilities like users and sessions.
//!
//! Nothing here reads the system: the functions take what was read from it,
//! the password database and the session files, and work out which users and
//! sessions the greeter offers.
use vstd::prelude::*;
use vstd::std_specs::convert::IntoSpec;
use vstd::string::*;

use crate::cmdline::shlex_split;
use crate::cmdline::split;
use crate::greetd::option_text;
use crate::string_map::StringMap;
use crate::text::char_is_whitespace;
use crate::text::chars_of;
use crate::text::clone_strings;
use crate::text::concat_strings;
use crate::text::find;
use crate::text::has_prefix;
use crate::text::is_whitespace;
use crate::text::lines;
use crate::text::next_line;
use crate::text::parse_radix;
use crate::text::parse_radix_in;
use crate::text::str_eq;
use crate::text::trim_bounds;
use crate::text::trimmed;
use crate::text::until;

verus! {

/// A user of the system, as the greeter shows it.
#[derive(Default, Debug, Clone, PartialEq, Eq)]
pub struct User {
    pub full_name: String,
    login_shell: Option<String>,
}

/// The shell of a user who has none configured.
pub open spec fn default_shell() -> Seq<char> {
    "/bin/sh"@
}

/// What a [`User`] holds, as mathematical values.
pub struct UserView {
    pub full_name: Seq<char>,
    pub login_shell: Option<Seq<char>>,
}

impl View for User {
    type V = UserView;

    closed spec fn view(&self) -> UserView {
        UserView { full_name: self.full_name@, login_shell: option_text(self.login_shell) }
    }
}

impl User {
    /// The shell of a user who has none configured.
    pub const DEFAULT_SHELL: &'static str = "/bin/sh";

    /// A user with this full name and, if there is one, this login shell.
    pub fn new(full_name: String, login_shell: Option<String>) -> (r: Self)
        ensures
            r@ == (UserView { full_name: full_name@, login_shell: option_text(login_shell) }),
    {
        User { full_name, login_shell }
    }

    /// The user's full name.
    pub fn full_name(&self) -> (r: &str)
        ensures
            r@ == self@.full_name,
    {
        self.full_name.as_str()
    }

    /// The shell that the user logs into: the one that is configured, else
    /// `/bin/sh`.
    pub fn shell(&self) -> (r: &str)
        ensures
            r@ == match self@.login_shell {
                Some(shell) => shell,
                None => default_shell(),
            },
    {
        match &self.login_shell {
            Some(shell) => shell.as_str(),
            None => "/bin/sh",
        }
    }
}

/// A named tuple of min and max that stores UID limits for normal users.
#[derive(Debug, Clone, Copy, PartialEq, Eq, Structural)]
pub struct NormalUser {
    pub min_uid: u64,
    pub max_uid: u64,
}

impl Default for NormalUser {
    fn default() -> (r: Self)
        ensures
            r == (NormalUser { min_uid: 1_000, max_uid: 60_000 }),
    {
        NormalUser { min_uid: 1_000, max_uid: 60_000 }
    }
}

/// The number that a text writes, as `login.defs` writes numbers: white space
/// around it is ignored, a number that begins with `0x` is hexadecimal, any
/// other that begins with `0` is octal, and the rest are decimal.
pub open spec fn number_of(text: Seq<char>) -> Option<u64> {
    let num = trimmed(text);
    if num == seq!['0'] {
        Some(0u64)
    } else if num.len() > 0 && num[0] == '0' {
        let octal = num.skip(1);
        if octal.len() > 0 && octal[0] == 'x' {
            parse_radix(octal.skip(1), 16)
        } else {
            parse_radix(octal, 8)
        }
    } else {
        parse_radix(num, 10)
    }
}

/// The value that a line gives to `key`: the line begins with the key, white
/// space follows it, and the rest of the line writes a number.
pub open spec fn line_value(line: Seq<char>, key: Seq<char>) -> Option<u64> {
    if key.is_prefix_of(line) && line.len() > key.len() && is_whitespace(line[key.len() as int]) {
        number_of(line.skip(key.len() as int))
    } else {
        None
    }
}

/// The value that the first of the lines that gives one gives to `key`.
pub open spec fn first_value(lines: Seq<Seq<char>>, key: Seq<char>) -> Option<u64>
    decreases lines.len(),
{
    if lines.len() == 0 {
        None
    } else {
        match line_value(trimmed(lines[0]), key) {
            Some(value) => Some(value),
            None => first_value(lines.skip(1), key),
        }
    }
}

/// The value, or the default where there is none.
pub open spec fn value_or(value: Option<u64>, default: u64) -> u64 {
    match value {
        Some(value) => value,
        None => default,
    }
}

/// Reads the number that `s[from..to]` writes.
fn parse_number_in(s: &Vec<char>, from: usize, to: usize) -> (r: Option<u64>)
    requires
        from <= to <= s.len(),
    ensures
        r == number_of(s@.subrange(from as int, to as int)),
{
    let (a, b) = trim_bounds(s, from, to);
    let ghost num = s@.subrange(a as int, b as int);
    if b - a == 1 && s[a] == '0' {
        assert(num =~= seq!['0']);
        return Some(0);
    }
    if a < b && s[a] == '0' {
        assert(num[0] == '0');
        assert(num.skip(1) =~= s@.subrange(a as int + 1, b as int));
        if a + 1 < b && s[a + 1] == 'x' {
            assert(num.skip(1)[0] == 'x');
            assert(num.skip(1).skip(1) =~= s@.subrange(a as int + 2, b as int));
            return parse_radix_in(s, a + 2, b, 16);
        }
        return parse_radix_in(s, a + 1, b, 8);
    }
    parse_radix_in(s, a, b, 10)
}

/// Reads the value that the line `s[from..to]` gives to `key`.
fn line_value_in(s: &Vec<char>, from: usize, to: usize, key: &Vec<char>) -> (r: Option<u64>)
    requires
        from <= to <= s.len(),
    ensures
        r == line_value(s@.subrange(from as int, to as int), key@),
{
    let ghost line = s@.subrange(from as int, to as int);
    if has_prefix(s, from, to, key) && to - from > key.len() && char_is_whitespace(
        s[from + key.len()],
    ) {
        assert(line[key@.len() as int] == s[from + key.len()]);
        assert(line.skip(key@.len() as int) =~= s@.subrange(from + key.len(), to as int));
        parse_number_in(s, from + key.len(), to)
    } else {
        None
    }
}

impl NormalUser {
    /// Path to a file that can be parsed by [`Self::parse_login_defs`].
    pub const PATH: &'static str = "/etc/login.defs";

    pub const MIN_DEFAULT: u64 = 1_000;

    pub const MAX_DEFAULT: u64 = 60_000;

    /// Parses the content of the `login.defs` file and looks for `UID_MIN`
    /// and `UID_MAX` definitions.  Each limit is taken from the first line
    /// that defines it with a number; where no line does, the default is
    /// used.
    pub fn parse_login_defs(text: &str) -> (r: Self)
        ensures
            r.min_uid == value_or(first_value(lines(text@), "UID_MIN"@), 1_000),
            r.max_uid == value_or(first_value(lines(text@), "UID_MAX"@), 60_000),
    {
        let chars = chars_of(text);
        let key_min = chars_of("UID_MIN");
        let key_max = chars_of("UID_MAX");
        let mut min: Option<u64> = None;
        let mut max: Option<u64> = None;
        let mut pos: usize = 0;
        assert(chars@.skip(0) =~= chars@);
        while pos < chars.len() && !(min.is_some() && max.is_some())
            invariant
                pos <= chars.len(),
                chars@ == text@,
                key_min@ == "UID_MIN"@,
                key_max@ == "UID_MAX"@,
                first_value(lines(text@), key_min@) == match min {
                    Some(value) => Some(value),
                    None => first_value(lines(chars@.skip(pos as int)), key_min@),
                },
                first_value(lines(text@), key_max@) == match max {
                    Some(value) => Some(value),
                    None => first_value(lines(chars@.skip(pos as int)), key_max@),
                },
            decreases chars.len() - pos,
        {
            let (end, next) = next_line(&chars, pos);
            let (a, b) = trim_bounds(&chars, pos, end);
            proof {
                let line = chars@.subrange(pos as int, end as int);
                let rest = lines(chars@.skip(next as int));
                let all = lines(chars@.skip(pos as int));
                assert(all == seq![line] + rest);
                assert(all[0] == line);
                assert(all.skip(1) =~= rest);
            }
            if min.is_none() {
                min = line_value_in(&chars, a, b, &key_min);
            }
            if max.is_none() {
                max = line_value_in(&chars, a, b, &key_max);
            }
            pos = next;
        }
        proof {
            if pos >= chars.len() {
                assert(chars@.skip(pos as int) =~= Seq::<char>::empty());
            }
        }
        NormalUser {
            min_uid: match min {
                Some(value) => value,
                None => 1_000,
            },
            max_uid: match max {
                Some(value) => value,
                None => 60_000,
            },
        }
    }

    /// Whether `uid` is the ID of a regular user: one from `min_uid` up to,
    /// but not including, `max_uid`.
    pub open spec fn is_normal(&self, uid: u64) -> bool {
        self.min_uid <= uid < self.max_uid
    }

    /// Returns true for regular users, false for those outside the UID limit,
    /// eg. git or root.  The ID may be of any type that converts into a
    /// `u64`; the result is stated for the types whose conversion is known to
    /// keep the value, as that of the narrower unsigned integers is.
    pub fn is_normal_user<T: Into<u64>>(&self, uid: T) -> (r: bool)
        ensures
            T::obeys_into_spec() ==> r == self.is_normal(uid.into_spec()),
    {
        let uid: u64 = uid.into();
        self.min_uid <= uid && uid < self.max_uid
    }

    /// Reads a number as `login.defs` writes it: see [`number_of`].
    pub fn parse_number(num: &str) -> (r: Option<u64>)
        ensures
            r == number_of(num@),
    {
        let chars = chars_of(num);
        assert(chars@.subrange(0, chars@.len() as int) =~= num@);
        parse_number_in(&chars, 0, chars.len())
    }
}

/// The uppercase form of a character as `char::to_uppercase` gives it: one
/// character for most, several for some.
pub uninterp spec fn uppercase_of(c: char) -> Seq<char>;

/// Calls `char::to_uppercase`, which gives the characters of the uppercase
/// form of `c` by Unicode's mapping.  The contract claims only that the
/// result is a function of the character: it names that function
/// [`uppercase_of`].
#[verifier::external_body]
fn to_uppercase(c: char) -> (upper: String)
    ensures
        upper@ == uppercase_of(c),
{
    c.to_uppercase().collect()
}

/// The text with its first character in uppercase.
pub open spec fn capitalized(s: Seq<char>) -> Seq<char> {
    if s.len() == 0 {
        Seq::empty()
    } else {
        uppercase_of(s[0]) + s.skip(1)
    }
}

/// Returns input, but the first character is capitalized.
pub fn capitalize(s: &str) -> (r: String)
    ensures
        r@ == capitalized(s@),
{
    let chars = chars_of(s);
    if chars.len() == 0 {
        String::new()
    } else {
        let mut capital = to_uppercase(chars[0]);
        let rest = s.substring_char(1, chars.len());
        assert(rest@ =~= s@.skip(1));
        capital.append(rest);
        capital
    }
}

/// An entry of the password database, as far as the greeter reads it.
#[derive(Debug, Clone, PartialEq, Eq)]
pub struct PasswdEntry {
    /// The login name.
    pub name: String,
    /// The user ID.
    pub uid: u32,
    /// The comment field, which by convention begins with the full name.
    pub gecos: Option<String>,
    /// The login shell.
    pub shell: String,
}

/// What a [`PasswdEntry`] holds, as mathematical values.
pub struct PasswdEntryView {
    pub name: Seq<char>,
    pub uid: u32,
    pub gecos: Option<Seq<char>>,
    pub shell: Seq<char>,
}

impl View for PasswdEntry {
    type V = PasswdEntryView;

    open spec fn view(&self) -> PasswdEntryView {
        PasswdEntryView {
            name: self.name@,
            uid: self.uid,
            gecos: option_text(self.gecos),
            shell: self.shell@,
        }
    }
}

/// The full name of a user.  It is the part of the comment field before the
/// first comma, without the white space around it; where that part is `&`, it
/// is the login name with a capital; and where the comment field is missing
/// or empty, it is the login name.
pub open spec fn full_name_of(name: Seq<char>, gecos: Option<Seq<char>>) -> Seq<char> {
    match gecos {
        Some(gecos) => if gecos.len() == 0 {
            name
        } else {
            let first = trimmed(gecos.take(until(gecos, ',') as int));
            if first == seq!['&'] {
                capitalized(name)
            } else {
                first
            }
        },
        None => name,
    }
}

/// The user that an entry of the password database describes.
pub open spec fn user_of(entry: PasswdEntryView) -> UserView {
    UserView {
        full_name: full_name_of(entry.name, entry.gecos),
        login_shell: if entry.shell.len() > 0 {
            Some(entry.shell)
        } else {
            None
        },
    }
}

/// The users that the greeter offers: those of the entries whose ID is that
/// of a regular user, each under its login name.  Of two entries with one
/// name the later counts.
pub open spec fn users_of(uid_limit: NormalUser, entries: Seq<PasswdEntryView>) -> Map<
    Seq<char>,
    UserView,
>
    decreases entries.len(),
{
    if entries.len() == 0 {
        Map::empty()
    } else if uid_limit.is_normal(entries.last().uid as u64) {
        users_of(uid_limit, entries.drop_last()).insert(entries.last().name, user_of(entries.last()))
    } else {
        users_of(uid_limit, entries.drop_last())
    }
}

/// The views of the users in a map.
pub open spec fn users_view(users: Map<Seq<char>, User>) -> Map<Seq<char>, UserView> {
    users.map_values(|user: User| user@)
}

/// The full name of the user `name` whose comment field is `gecos`.
pub fn full_name(name: &str, gecos: Option<&str>) -> (r: String)
    ensures
        r@ == full_name_of(
            name@,
            match gecos {
                Some(gecos) => Some(gecos@),
                None => None,
            },
        ),
{
    let gecos = match gecos {
        Some(gecos) => gecos,
        None => {
            return name.to_owned();
        },
    };
    let chars = chars_of(gecos);
    if chars.len() == 0 {
        return name.to_owned();
    }
    let comma = find(&chars, 0, chars.len(), ',');
    assert(chars@.subrange(0, chars@.len() as int) =~= gecos@);
    assert(chars@.subrange(0, comma as int) =~= gecos@.take(comma as int));
    let (a, b) = trim_bounds(&chars, 0, comma);
    let ghost first = chars@.subrange(a as int, b as int);
    assert(first == trimmed(gecos@.take(until(gecos@, ',') as int)));
    if b - a == 1 && chars[a] == '&' {
        assert(first =~= seq!['&']);
        capitalize(name)
    } else {
        proof {
            if first == seq!['&'] {
                assert(first.len() == 1);
                assert(first[0] == '&');
            }
        }
        gecos.substring_char(a, b).to_owned()
    }
}

/// Works out the users that the greeter offers from the entries of the
/// password database.
pub fn init_users(uid_limit: NormalUser, entries: &Vec<PasswdEntry>) -> (users: StringMap<User>)
    ensures
        users_view(users@) == users_of(
            uid_limit,
            entries@.map_values(|entry: PasswdEntry| entry@),
        ),
{
    let ghost all = entries@.map_values(|entry: PasswdEntry| entry@);
    let mut users: StringMap<User> = StringMap::new();
    let mut i: usize = 0;
    assert(all.take(0) =~= Seq::<PasswdEntryView>::empty());
    assert(users_view(users@) =~= Map::<Seq<char>, UserView>::empty());
    while i < entries.len()
        invariant
            i <= entries.len(),
            all == entries@.map_values(|entry: PasswdEntry| entry@),
            users_view(users@) == users_of(uid_limit, all.take(i as int)),
        decreases entries.len() - i,
    {
        let entry = &entries[i];
        proof {
            assert(all.take(i + 1).drop_last() =~= all.take(i as int));
            assert(all.take(i + 1).last() == entry@);
        }
        if uid_limit.is_normal_user(entry.uid) {
            let full_name = full_name(
                entry.name.as_str(),
                match &entry.gecos {
                    Some(gecos) => Some(gecos.as_str()),
                    None => None,
                },
            );
            let login_shell = if entry.shell.as_str().is_empty() {
                None
            } else {
                Some(entry.shell.clone())
            };
            let user = User::new(full_name, login_shell);
            let ghost before = users@;
            users.insert(entry.name.clone(), user);
            assert(users_view(users@) =~= users_view(before).insert(entry.name@, user@));
        }
        i += 1;
    }
    assert(all.take(i as int) =~= all);
    users
}

/// A session that the system offers.
#[derive(Debug, Clone, PartialEq, Eq)]
pub struct SessionInfo {
    /// The displayed name of the session.
    pub name: String,
    /// The command to run when the session starts.
    pub command: Vec<String>,
}

/// What a [`SessionInfo`] holds, as mathematical values.
pub struct SessionInfoView {
    pub name: Seq<char>,
    pub command: Seq<Seq<char>>,
}

impl View for SessionInfo {
    type V = SessionInfoView;

    open spec fn view(&self) -> SessionInfoView {
        SessionInfoView { name: self.name@, command: self.command.deep_view() }
    }
}

/// The view of a session that may be absent.
pub open spec fn session_view(session: Option<SessionInfo>) -> Option<SessionInfoView> {
    match session {
        Some(session) => Some(session@),
        None => None,
    }
}

/// Represents errors from loading the xdg desktop files.
#[derive(Debug, Clone, PartialEq, Eq)]
pub enum DesktopFileError {
    /// The file is no desktop entry; the text describes why.
    Xdg(String),
}

#[verifier::external_type_specification]
#[verifier::external_body]
pub struct ExEntry(freedesktop_entry_parser::Entry);

#[verifier::external_type_specification]
#[verifier::external_body]
pub struct ExParseError(freedesktop_entry_parser::ParseError);

/// What a parsed desktop entry holds: the value of each attribute that has
/// one, under the name of its section and its own name.
pub uninterp spec fn entry_attrs(entry: freedesktop_entry_parser::Entry) -> Map<
    (Seq<char>, Seq<char>),
    Seq<char>,
>;

/// What `Entry::parse` reads from the bytes of a desktop file: the attributes
/// of the entry, or `None` where the bytes are no desktop entry.
pub uninterp spec fn parsed_attrs(input: Seq<u8>) -> Option<Map<(Seq<char>, Seq<char>), Seq<char>>>;

/// Calls `Entry::parse`, which parses an entry from a byte buffer.  The
/// contract claims only that success and the entry's attributes are a
/// function of the bytes: it names that function [`parsed_attrs`].
#[verifier::external_body]
fn parse_entry(input: &[u8]) -> (r: Result<
    freedesktop_entry_parser::Entry,
    freedesktop_entry_parser::ParseError,
>)
    ensures
        match r {
            Ok(entry) => parsed_attrs(input@) == Some(entry_attrs(entry)),
            Err(_) => parsed_attrs(input@) is None,
        },
{
    freedesktop_entry_parser::Entry::parse(input)
}

/// Calls `Entry::section` and `AttrSelector::attr`, which give the value of
/// the attribute `name` of the section `section` if the entry has it.  The
/// contract says so over [`entry_attrs`].
#[verifier::external_body]
fn entry_attr<'a>(entry: &'a freedesktop_entry_parser::Entry, section: &str, name: &str) -> (r:
    Option<&'a str>)
    ensures
        match r {
            Some(value) => entry_attrs(*entry).contains_key((section@, name@)) && value@
                == entry_attrs(*entry)[(section@, name@)],
            None => !entry_attrs(*entry).contains_key((section@, name@)),
        },
{
    entry.section(section).attr(name)
}

/// Calls `to_string` on a `ParseError`, which gives the text that describes
/// the error.  Nothing is claimed of the text.
#[verifier::external_body]
fn parse_error_text(error: &freedesktop_entry_parser::ParseError) -> (text: String) {
    error.to_string()
}

/// The view of a string slice that may be absent.
pub open spec fn str_view(text: Option<&str>) -> Option<Seq<char>> {
    match text {
        Some(text) => Some(text@),
        None => None,
    }
}

/// The name and the command line of a session, if the session is to be
/// listed: it is neither hidden nor kept from display, and has both a name
/// and a command line.
pub open spec fn listed_session(
    hidden: Option<Seq<char>>,
    no_display: Option<Seq<char>>,
    name: Option<Seq<char>>,
    exec: Option<Seq<char>>,
) -> Option<(Seq<char>, Seq<char>)> {
    if hidden == Some("true"@) || no_display == Some("true"@) {
        None
    } else {
        match (name, exec) {
            (Some(name), Some(exec)) => Some((name, exec)),
            _ => None,
        }
    }
}

/// The value of an attribute of the section `Desktop Entry`.
pub open spec fn desktop_attr(
    attrs: Map<(Seq<char>, Seq<char>), Seq<char>>,
    name: Seq<char>,
) -> Option<Seq<char>> {
    if attrs.contains_key(("Desktop Entry"@, name)) {
        Some(attrs[("Desktop Entry"@, name)])
    } else {
        None
    }
}

/// The session that a desktop entry with these attributes describes, if it
/// describes one that is to be listed and whose command line can be split
/// into words.
pub open spec fn session_of(attrs: Map<(Seq<char>, Seq<char>), Seq<char>>) -> Option<
    SessionInfoView,
> {
    match listed_session(
        desktop_attr(attrs, "Hidden"@),
        desktop_attr(attrs, "NoDisplay"@),
        desktop_attr(attrs, "Name"@),
        desktop_attr(attrs, "Exec"@),
    ) {
        Some((name, exec)) => match shlex_split(exec) {
            Some(command) => Some(SessionInfoView { name, command }),
            None => None,
        },
        None => None,
    }
}

impl SessionInfo {
    /// Decides from the attributes of a desktop entry whether its session is
    /// to be listed, and gives the session's name and command line if it is.
    pub fn listed<'a>(
        hidden: Option<&str>,
        no_display: Option<&str>,
        name: Option<&'a str>,
        exec: Option<&'a str>,
    ) -> (r: Option<(&'a str, &'a str)>)
        ensures
            match r {
                Some((name_text, exec_text)) => listed_session(
                    str_view(hidden),
                    str_view(no_display),
                    str_view(name),
                    str_view(exec),
                ) == Some((name_text@, exec_text@)),
                None => listed_session(
                    str_view(hidden),
                    str_view(no_display),
                    str_view(name),
                    str_view(exec),
                ) is None,
            },
    {
        match hidden {
            Some(hidden) => {
                if str_eq(hidden, "true") {
                    return None;
                }
            },
            None => {},
        }
        match no_display {
            Some(no_display) => {
                if str_eq(no_display, "true") {
                    return None;
                }
            },
            None => {},
        }
        match (name, exec) {
            (Some(name), Some(exec)) => Some((name, exec)),
            _ => None,
        }
    }

    /// The session that a parsed desktop entry describes: see [`session_of`].
    pub fn from_entry(entry: &freedesktop_entry_parser::Entry) -> (r: Option<Self>)
        ensures
            session_view(r) == session_of(entry_attrs(*entry)),
    {
        let hidden = entry_attr(entry, "Desktop Entry", "Hidden");
        let no_display = entry_attr(entry, "Desktop Entry", "NoDisplay");
        let name = entry_attr(entry, "Desktop Entry", "Name");
        let exec = entry_attr(entry, "Desktop Entry", "Exec");
        match SessionInfo::listed(hidden, no_display, name, exec) {
            Some((name, exec)) => match split(exec) {
                Some(command) => Some(SessionInfo { name: name.to_owned(), command }),
                None => None,
            },
            None => None,
        }
    }

    /// Reads a session from the content of its desktop file.  Content that
    /// is no desktop entry is an error; an entry that describes no session to
    /// list gives `None`.
    pub fn load(contents: &[u8]) -> (r: Result<Option<Self>, DesktopFileError>)
        ensures
            match parsed_attrs(contents@) {
                Some(attrs) => r matches Ok(session) && session_view(session) == session_of(attrs),
                None => r is Err,
            },
    {
        match parse_entry(contents) {
            Ok(entry) => Ok(SessionInfo::from_entry(&entry)),
            Err(error) => Err(DesktopFileError::Xdg(parse_error_text(&error))),
        }
    }
}

/// The views of the sessions in a map.
pub open spec fn sessions_view(sessions: Map<Seq<char>, SessionInfo>) -> Map<
    Seq<char>,
    SessionInfoView,
> {
    sessions.map_values(|session: SessionInfo| session@)
}

/// The session with `prefix` before its command.
pub open spec fn with_prefix(prefix: Seq<Seq<char>>, session: SessionInfoView) -> SessionInfoView {
    SessionInfoView { name: session.name, command: prefix + session.command }
}

/// The sessions that the desktop files describe, each under its ID.  Of two
/// files with one ID the first that describes a session counts.
pub open spec fn desktop_entries(files: Seq<(Seq<char>, Seq<u8>)>) -> Map<
    Seq<char>,
    SessionInfoView,
>
    decreases files.len(),
{
    if files.len() == 0 {
        Map::empty()
    } else {
        let before = desktop_entries(files.drop_last());
        let (id, contents) = files.last();
        if before.contains_key(id) {
            before
        } else {
            match parsed_attrs(contents) {
                Some(attrs) => match session_of(attrs) {
                    Some(session) => before.insert(id, session),
                    None => before,
                },
                None => before,
            }
        }
    }
}

/// The view of a desktop file: its ID and its content.
pub open spec fn file_view(file: (String, Vec<u8>)) -> (Seq<char>, Seq<u8>) {
    (file.0@, file.1@)
}

/// Stores info of all regular users and sessions.
#[derive(Debug)]
pub struct SystemUsersAndSessions {
    /// Maps from system username to [`User`].
    pub users: StringMap<User>,
    /// Maps a session's xdg desktop file id to [`SessionInfo`].
    pub sessions: StringMap<SessionInfo>,
}

impl SystemUsersAndSessions {
    /// Works out the users and sessions of the system from what was read of
    /// it: the content of `login.defs` if it could be read, the entries of the
    /// password database, and the desktop files of the X11 and of the Wayland
    /// sessions, each with its ID, in the order of the directories they were
    /// found in.
    pub fn load(
        x11_prefix: &Vec<String>,
        login_defs: Option<&str>,
        passwd: &Vec<PasswdEntry>,
        x11_files: &Vec<(String, Vec<u8>)>,
        wayland_files: &Vec<(String, Vec<u8>)>,
    ) -> (r: Self)
        ensures
            users_view(r.users@) == users_of(
                match login_defs {
                    Some(text) => NormalUser {
                        min_uid: value_or(first_value(lines(text@), "UID_MIN"@), 1_000),
                        max_uid: value_or(first_value(lines(text@), "UID_MAX"@), 60_000),
                    },
                    None => NormalUser { min_uid: 1_000, max_uid: 60_000 },
                },
                passwd@.map_values(|entry: PasswdEntry| entry@),
            ),
            sessions_view(r.sessions@) == desktop_entries(
                x11_files@.map_values(|file: (String, Vec<u8>)| file_view(file)),
            ).map_values(|session: SessionInfoView| with_prefix(x11_prefix.deep_view(), session))
                .union_prefer_right(
                desktop_entries(
                    wayland_files@.map_values(|file: (String, Vec<u8>)| file_view(file)),
                ),
            ),
    {
        let uid_limit = match login_defs {
            Some(text) => NormalUser::parse_login_defs(text),
            None => NormalUser::default(),
        };
        let users = init_users(uid_limit, passwd);
        let x11_entries = Self::get_desktop_entries_in_dirs(x11_files);
        let wayland_entries = Self::get_desktop_entries_in_dirs(wayland_files);
        let sessions = Self::init_sessions(x11_prefix, &x11_entries, &wayland_entries);
        SystemUsersAndSessions { users, sessions }
    }

    /// Puts together the graphical sessions: the X11 sessions, each with
    /// `x11_prefix` before its command, and the Wayland sessions, which take
    /// priority where an X11 session has the same ID.
    pub fn init_sessions(
        x11_prefix: &Vec<String>,
        x11_entries: &StringMap<SessionInfo>,
        wayland_entries: &StringMap<SessionInfo>,
    ) -> (sessions: StringMap<SessionInfo>)
        ensures
            sessions_view(sessions@) == sessions_view(x11_entries@).map_values(
                |session: SessionInfoView| with_prefix(x11_prefix.deep_view(), session),
            ).union_prefer_right(sessions_view(wayland_entries@)),
    {
        let ghost prefix = x11_prefix.deep_view();
        let ghost prefixed = |session: SessionInfoView| with_prefix(prefix, session);
        let mut sessions: StringMap<SessionInfo> = StringMap::new();
        let x11_len = x11_entries.len();
        let ghost x11 = x11_entries.entries();
        let mut i: usize = 0;
        proof {
            assert(x11.take(0) =~= Seq::empty());
            assert(sessions_view(sessions@) =~= sessions_view(
                crate::string_map::map_of(x11.take(0)),
            ).map_values(prefixed));
        }
        while i < x11_len
            invariant
                i <= x11_len == x11.len(),
                x11 == x11_entries.entries(),
                crate::string_map::distinct_keys(x11),
                prefix == x11_prefix.deep_view(),
                prefixed == |session: SessionInfoView| with_prefix(prefix, session),
                sessions_view(sessions@) == sessions_view(
                    crate::string_map::map_of(x11.take(i as int)),
                ).map_values(prefixed),
            decreases x11_len - i,
        {
            let id = x11_entries.key_at(i).to_owned();
            let entry = x11_entries.value_at(i);
            let session = SessionInfo {
                name: entry.name.clone(),
                command: concat_strings(x11_prefix, &entry.command),
            };
            proof {
                let seen = x11.take(i as int);
                assert(x11.take(i + 1) =~= seen.push(x11[i as int]));
                assert(crate::string_map::distinct_keys(seen));
                assert(!crate::string_map::has_key(seen, x11[i as int].0)) by {
                    if crate::string_map::has_key(seen, x11[i as int].0) {
                        let j = choose|j: int|
                            0 <= j < seen.len() && (#[trigger] seen[j]).0 == x11[i as int].0;
                        assert(x11[j].0 == x11[i as int].0);
                    }
                }
                crate::string_map::lemma_map_of_push(seen, x11[i as int].0, x11[i as int].1);
                assert(session@ == with_prefix(prefix, entry@));
            }
            let ghost before = sessions@;
            sessions.insert(id, session);
            proof {
                assert(sessions_view(sessions@) =~= sessions_view(before).insert(
                    x11[i as int].0,
                    session@,
                ));
                assert(sessions_view(crate::string_map::map_of(x11.take(i + 1))).map_values(prefixed)
                    =~= sessions_view(crate::string_map::map_of(x11.take(i as int))).map_values(
                    prefixed,
                ).insert(x11[i as int].0, prefixed(x11[i as int].1@)));
            }
            i += 1;
        }
        let ghost base = sessions_view(x11_entries@).map_values(prefixed);
        proof {
            assert(x11.take(i as int) =~= x11);
        }
        let wayland_len = wayland_entries.len();
        let ghost wayland = wayland_entries.entries();
        let mut j: usize = 0;
        proof {
            assert(wayland.take(0) =~= Seq::empty());
            assert(sessions_view(sessions@) =~= base.union_prefer_right(
                sessions_view(crate::string_map::map_of(wayland.take(0))),
            ));
        }
        while j < wayland_len
            invariant
                j <= wayland_len == wayland.len(),
                wayland == wayland_entries.entries(),
                crate::string_map::distinct_keys(wayland),
                sessions_view(sessions@) == base.union_prefer_right(
                    sessions_view(crate::string_map::map_of(wayland.take(j as int))),
                ),
            decreases wayland_len - j,
        {
            let id = wayland_entries.key_at(j).to_owned();
            let entry = wayland_entries.value_at(j);
            let session = SessionInfo {
                name: entry.name.clone(),
                command: clone_strings(&entry.command),
            };
            proof {
                let seen = wayland.take(j as int);
                assert(wayland.take(j + 1) =~= seen.push(wayland[j as int]));
                assert(crate::string_map::distinct_keys(seen));
                assert(!crate::string_map::has_key(seen, wayland[j as int].0)) by {
                    if crate::string_map::has_key(seen, wayland[j as int].0) {
                        let k = choose|k: int|
                            0 <= k < seen.len() && (#[trigger] seen[k]).0 == wayland[j as int].0;
                        assert(wayland[k].0 == wayland[j as int].0);
                    }
                }
                crate::string_map::lemma_map_of_push(
                    seen,
                    wayland[j as int].0,
                    wayland[j as int].1,
                );
                assert(session@ == entry@);
            }
            let ghost before = sessions@;
            sessions.insert(id, session);
            proof {
                assert(sessions_view(sessions@) =~= sessions_view(before).insert(
                    wayland[j as int].0,
                    session@,
                ));
                assert(sessions_view(crate::string_map::map_of(wayland.take(j + 1))) =~= sessions_view(
                    crate::string_map::map_of(wayland.take(j as int)),
                ).insert(wayland[j as int].0, wayland[j as int].1@));
            }
            j += 1;
        }
        proof {
            assert(wayland.take(j as int) =~= wayland);
        }
        sessions
    }

    /// Reads the sessions from the desktop files that were found, each with
    /// the ID of its file.  A file whose ID was seen before with a session is
    /// skipped, and so is one that describes no session.
    pub fn get_desktop_entries_in_dirs(files: &Vec<(String, Vec<u8>)>) -> (map: StringMap<
        SessionInfo,
    >)
        ensures
            sessions_view(map@) == desktop_entries(
                files@.map_values(|file: (String, Vec<u8>)| file_view(file)),
            ),
    {
        let ghost all = files@.map_values(|file: (String, Vec<u8>)| file_view(file));
        let mut map: StringMap<SessionInfo> = StringMap::new();
        let mut i: usize = 0;
        proof {
            assert(all.take(0) =~= Seq::empty());
            assert(sessions_view(map@) =~= Map::<Seq<char>, SessionInfoView>::empty());
        }
        while i < files.len()
            invariant
                i <= files.len(),
                all == files@.map_values(|file: (String, Vec<u8>)| file_view(file)),
                sessions_view(map@) == desktop_entries(all.take(i as int)),
            decreases files.len() - i,
        {
            proof {
                assert(all.take(i + 1).drop_last() =~= all.take(i as int));
                assert(all.take(i + 1).last() == file_view(files[i as int]));
            }
            let id = files[i].0.as_str();
            if !map.contains_key(id) {
                match SessionInfo::load(files[i].1.as_slice()) {
                    Ok(Some(session)) => {
                        let ghost before = map@;
                        map.insert(id.to_owned(), session);
                        assert(sessions_view(map@) =~= sessions_view(before).insert(id@, session@));
                    },
                    _ => {},
                }
            }
            i += 1;
        }
        proof {
            assert(all.take(i as int) =~= all);
        }
        map
    }
}

} // verus!
