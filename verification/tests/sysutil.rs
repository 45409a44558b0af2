use regreet::string_map::StringMap;
use regreet::sysutil::capitalize;
use regreet::sysutil::full_name;
use regreet::sysutil::init_users;
use regreet::sysutil::DesktopFileError;
use regreet::sysutil::NormalUser;
use regreet::sysutil::PasswdEntry;
use regreet::sysutil::SessionInfo;
use regreet::sysutil::SystemUsersAndSessions;
use regreet::sysutil::User;

fn limits(min_uid: u64, max_uid: u64) -> NormalUser {
    NormalUser { min_uid, max_uid }
}

#[test]
fn parse_login_defs_both_configured() {
    assert_eq!(
        NormalUser::parse_login_defs(
            "UID_MIN 1
            UID_MAX 10"
        ),
        limits(1, 10)
    );
}

#[test]
fn parse_login_defs_reverse_order() {
    assert_eq!(
        NormalUser::parse_login_defs(
            "UID_MAX 10
            UID_MIN 1"
        ),
        limits(1, 10)
    );
}

#[test]
fn parse_login_defs_complex_file() {
    assert_eq!(
        NormalUser::parse_login_defs(
            "OTHER 20
            # Comment

            UID_MAX 10
            UID_MIN 1
            MORE_TEXT 40
            "
        ),
        limits(1, 10)
    );
}

#[test]
fn parse_login_defs_no_space() {
    assert_eq!(NormalUser::parse_login_defs("UID_MAX10"), NormalUser::default());
}

#[test]
fn parse_login_defs_takes_the_first_line_with_a_number() {
    assert_eq!(NormalUser::parse_login_defs(""), limits(1_000, 60_000));
    assert_eq!(NormalUser::default(), limits(1_000, 60_000));
    assert_eq!(NormalUser::MIN_DEFAULT, 1_000);
    assert_eq!(NormalUser::MAX_DEFAULT, 60_000);
    assert_eq!(NormalUser::PATH, "/etc/login.defs");
    assert_eq!(
        NormalUser::parse_login_defs("UID_MIN\t0x10\r\nUID_MIN 5\nUID_MAX 0777\nUID_MAX 3\n"),
        limits(16, 0o777)
    );
    assert_eq!(
        NormalUser::parse_login_defs("UID_MIN nothing\nUID_MIN 7\n#UID_MAX 9\nUID_MAXIMUM 9"),
        limits(7, 60_000)
    );
    assert_eq!(NormalUser::parse_login_defs("UID_MIN 5 # lowest"), limits(1_000, 60_000));
    assert_eq!(NormalUser::parse_login_defs("  UID_MAX   42  "), limits(1_000, 42));
}

#[test]
fn parse_number_empty() {
    assert_eq!(NormalUser::parse_number(""), None);
}

#[test]
fn parse_number_string() {
    assert_eq!(NormalUser::parse_number("no"), None);
}

#[test]
fn parse_number_zero() {
    assert_eq!(NormalUser::parse_number("0"), Some(0));
}

#[test]
fn parse_number_0x_is_not_a_hex_number() {
    assert_eq!(NormalUser::parse_number("0x"), None);
}

#[test]
fn parse_number_decimal() {
    assert_eq!(NormalUser::parse_number("10"), Some(10));
}

#[test]
fn parse_number_octal() {
    assert_eq!(NormalUser::parse_number("0777"), Some(0o777));
}

#[test]
fn parse_number_hex() {
    assert_eq!(NormalUser::parse_number("0xDeadBeef"), Some(0xDeadBeef));
}

#[test]
fn parse_number_edges() {
    assert_eq!(NormalUser::parse_number("  12\t"), Some(12));
    assert_eq!(NormalUser::parse_number("00"), Some(0));
    assert_eq!(NormalUser::parse_number("08"), None);
    assert_eq!(NormalUser::parse_number("0X10"), None);
    assert_eq!(NormalUser::parse_number("+5"), Some(5));
    assert_eq!(NormalUser::parse_number("-5"), None);
    assert_eq!(NormalUser::parse_number("18446744073709551615"), Some(u64::MAX));
    assert_eq!(NormalUser::parse_number("18446744073709551616"), None);
    assert_eq!(NormalUser::parse_number("0xffffffffffffffff"), Some(u64::MAX));
    assert_eq!(NormalUser::parse_number("1 2"), None);
}

#[test]
fn normal_users_are_between_the_limits() {
    let limit = limits(1_000, 60_000);
    assert!(!limit.is_normal_user(0u32));
    assert!(!limit.is_normal_user(999u32));
    assert!(limit.is_normal_user(1_000u32));
    assert!(limit.is_normal_user(59_999u64));
    assert!(!limit.is_normal_user(60_000u16));
    assert!(!limits(5, 5).is_normal_user(5u8));
    assert!(limits(0, u64::MAX).is_normal_user(u32::MAX));
}

#[test]
fn shell_falls_back_to_sh() {
    assert_eq!(User::new("A".to_string(), None).shell(), "/bin/sh");
    assert_eq!(User::DEFAULT_SHELL, "/bin/sh");
    assert_eq!(User::new("A".to_string(), Some("/bin/zsh".to_string())).shell(), "/bin/zsh");
    assert_eq!(User::new("A B".to_string(), None).full_name(), "A B");
    assert_eq!(User::default().shell(), "/bin/sh");
}

#[test]
fn capitalize_raises_the_first_character() {
    assert_eq!(capitalize(""), "");
    assert_eq!(capitalize("alice"), "Alice");
    assert_eq!(capitalize("Alice"), "Alice");
    assert_eq!(capitalize("élan"), "Élan");
    assert_eq!(capitalize("ßeta"), "SSeta");
    assert_eq!(capitalize("1a"), "1a");
}

#[test]
fn full_name_comes_from_the_comment_field() {
    assert_eq!(full_name("alice", None), "alice");
    assert_eq!(full_name("alice", Some("")), "alice");
    assert_eq!(full_name("alice", Some("Alice Liddell")), "Alice Liddell");
    assert_eq!(full_name("alice", Some(" Alice Liddell ,Room 1,555")), "Alice Liddell");
    assert_eq!(full_name("alice", Some("&")), "Alice");
    assert_eq!(full_name("alice", Some(" & ,,,")), "Alice");
    assert_eq!(full_name("alice", Some("& Liddell")), "& Liddell");
    assert_eq!(full_name("alice", Some(",,,")), "");
    assert_eq!(full_name("alice", Some("  ")), "");
}

fn entry(name: &str, uid: u32, gecos: Option<&str>, shell: &str) -> PasswdEntry {
    PasswdEntry {
        name: name.to_string(),
        uid,
        gecos: gecos.map(|g| g.to_string()),
        shell: shell.to_string(),
    }
}

#[test]
fn init_users_keeps_the_regular_users() {
    let entries = vec![
        entry("root", 0, Some("root"), "/bin/bash"),
        entry("alice", 1000, Some("Alice,,,"), "/bin/zsh"),
        entry("git", 998, None, "/usr/bin/git-shell"),
        entry("bob", 1001, None, ""),
        entry("nobody", 65534, Some("Nobody"), "/usr/bin/nologin"),
        entry("alice", 1002, Some("&"), ""),
    ];
    let users = init_users(NormalUser::default(), &entries);
    assert_eq!(users.len(), 2);
    assert_eq!(users.key_at(0), "alice");
    assert_eq!(users.key_at(1), "bob");
    assert_eq!(users.get("alice"), Some(&User::new("Alice".to_string(), None)));
    assert_eq!(users.get("bob"), Some(&User::new("bob".to_string(), None)));
    assert_eq!(users.get("root"), None);

    let all = init_users(limits(0, 100_000), &entries);
    assert_eq!(all.len(), 5);
    assert_eq!(
        all.get("git"),
        Some(&User::new("git".to_string(), Some("/usr/bin/git-shell".to_string())))
    );
    assert_eq!(all.get("git").map(|user| user.shell()), Some("/usr/bin/git-shell"));
}

const SWAY: &str = "[Desktop Entry]
Name=Sway
Comment=An i3-compatible Wayland compositor
Exec=sway --unsupported-gpu 'quoted arg'
Type=Application
";

#[test]
fn session_is_loaded_from_a_desktop_file() {
    assert_eq!(
        SessionInfo::load(SWAY.as_bytes()),
        Ok(Some(SessionInfo {
            name: "Sway".to_string(),
            command: vec![
                "sway".to_string(),
                "--unsupported-gpu".to_string(),
                "quoted arg".to_string()
            ],
        }))
    );
}

#[test]
fn hidden_sessions_are_skipped() {
    for extra in ["Hidden=true\n", "NoDisplay=true\n"] {
        let text = format!("{SWAY}{extra}");
        assert_eq!(SessionInfo::load(text.as_bytes()), Ok(None));
    }
    for extra in ["Hidden=false\n", "NoDisplay=false\n", "Hidden=True\n"] {
        let text = format!("{SWAY}{extra}");
        assert!(matches!(SessionInfo::load(text.as_bytes()), Ok(Some(_))));
    }
}

#[test]
fn sessions_without_name_or_command_are_skipped() {
    assert_eq!(SessionInfo::load(b"[Desktop Entry]\nExec=sway\n"), Ok(None));
    assert_eq!(SessionInfo::load(b"[Desktop Entry]\nName=Sway\n"), Ok(None));
    assert_eq!(SessionInfo::load(b"[Other]\nName=Sway\nExec=sway\n"), Ok(None));
    // A command line that ends inside a quotation has no words.
    assert_eq!(SessionInfo::load(b"[Desktop Entry]\nName=Sway\nExec=sway 'x\n"), Ok(None));
}

#[test]
fn content_that_is_no_desktop_entry_is_an_error() {
    assert!(matches!(
        SessionInfo::load(b"Name=Sway\nExec=sway\n"),
        Err(DesktopFileError::Xdg(_))
    ));
}

#[test]
fn listed_decides_from_the_attributes() {
    assert_eq!(SessionInfo::listed(None, None, Some("n"), Some("e")), Some(("n", "e")));
    assert_eq!(SessionInfo::listed(Some("false"), Some(""), Some("n"), Some("e")), Some(("n", "e")));
    assert_eq!(SessionInfo::listed(Some("true"), None, Some("n"), Some("e")), None);
    assert_eq!(SessionInfo::listed(None, Some("true"), Some("n"), Some("e")), None);
    assert_eq!(SessionInfo::listed(None, None, None, Some("e")), None);
    assert_eq!(SessionInfo::listed(None, None, Some("n"), None), None);
}

fn session(name: &str, command: &[&str]) -> SessionInfo {
    SessionInfo { name: name.to_string(), command: command.iter().map(|w| w.to_string()).collect() }
}

fn desktop_file(id: &str, name: &str, exec: &str) -> (String, Vec<u8>) {
    (id.to_string(), format!("[Desktop Entry]\nName={name}\nExec={exec}\n").into_bytes())
}

#[test]
fn first_desktop_file_with_a_session_counts() {
    let files = vec![
        desktop_file("sway", "Sway", "sway"),
        ("broken".to_string(), b"no entry".to_vec()),
        desktop_file("sway", "Other Sway", "other"),
        ("broken".to_string(), b"[Desktop Entry]\nName=Fixed\nExec=fixed\n".to_vec()),
        ("hidden".to_string(), b"[Desktop Entry]\nName=H\nExec=h\nHidden=true\n".to_vec()),
    ];
    let map = SystemUsersAndSessions::get_desktop_entries_in_dirs(&files);
    assert_eq!(map.len(), 2);
    assert_eq!(map.get("sway"), Some(&session("Sway", &["sway"])));
    assert_eq!(map.get("broken"), Some(&session("Fixed", &["fixed"])));
    assert_eq!(map.get("hidden"), None);
}

#[test]
fn x11_sessions_get_the_prefix_and_wayland_sessions_take_priority() {
    let prefix = vec!["startx".to_string(), "/usr/bin/env".to_string()];
    let mut x11 = StringMap::new();
    x11.insert("i3".to_string(), session("i3", &["i3"]));
    x11.insert("gnome".to_string(), session("GNOME on Xorg", &["gnome-session"]));
    let mut wayland = StringMap::new();
    wayland.insert("gnome".to_string(), session("GNOME", &["gnome-session", "--wayland"]));
    wayland.insert("sway".to_string(), session("Sway", &["sway"]));
    let sessions = SystemUsersAndSessions::init_sessions(&prefix, &x11, &wayland);
    assert_eq!(sessions.len(), 3);
    assert_eq!(sessions.get("i3"), Some(&session("i3", &["startx", "/usr/bin/env", "i3"])));
    assert_eq!(sessions.get("gnome"), Some(&session("GNOME", &["gnome-session", "--wayland"])));
    assert_eq!(sessions.get("sway"), Some(&session("Sway", &["sway"])));
}

#[test]
fn system_is_put_together_from_what_was_read() {
    let system = SystemUsersAndSessions::load(
        &vec!["startx".to_string()],
        Some("UID_MIN 500\nUID_MAX 600\n"),
        &vec![entry("alice", 1000, None, ""), entry("bob", 500, Some("Bob"), "/bin/sh")],
        &vec![desktop_file("i3", "i3", "i3 -V")],
        &vec![desktop_file("sway", "Sway", "sway")],
    );
    assert_eq!(system.users.len(), 1);
    assert_eq!(system.users.get("bob").map(|user| user.full_name()), Some("Bob"));
    assert_eq!(system.sessions.get("i3"), Some(&session("i3", &["startx", "i3", "-V"])));
    assert_eq!(system.sessions.get("sway"), Some(&session("Sway", &["sway"])));

    let system = SystemUsersAndSessions::load(
        &vec![],
        None,
        &vec![entry("alice", 1000, None, ""), entry("bob", 500, None, "")],
        &vec![],
        &vec![],
    );
    assert_eq!(system.users.len(), 1);
    assert!(system.users.contains_key("alice"));
    assert!(system.sessions.is_empty());
}

#[test]
fn string_map_keeps_one_value_for_each_key() {
    let mut map: StringMap<u8> = StringMap::new();
    assert!(map.is_empty());
    assert_eq!(map.insert("a".to_string(), 1), None);
    assert_eq!(map.insert("b".to_string(), 2), None);
    assert_eq!(map.insert("c".to_string(), 3), None);
    assert_eq!(map.insert("a".to_string(), 4), Some(1));
    assert_eq!(map.len(), 3);
    assert!(!map.is_empty());
    assert_eq!(map.get("a"), Some(&4));
    assert_eq!(map.get("b"), Some(&2));
    assert_eq!(map.get("d"), None);
    assert!(map.contains_key("c"));
    assert!(!map.contains_key(""));
    assert_eq!((map.key_at(0), *map.value_at(0)), ("a", 4));
    assert_eq!((map.key_at(1), *map.value_at(1)), ("b", 2));
    assert_eq!((map.key_at(2), *map.value_at(2)), ("c", 3));
}
