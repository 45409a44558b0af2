use regreet::cache::Cache;
use regreet::cache::SessionIdOrCmdline;

fn xdg(name: &str) -> SessionIdOrCmdline {
    SessionIdOrCmdline::XdgDektopFile(name.to_string())
}

fn three_users() -> Cache {
    Cache {
        user_to_last_sess: (1..=3).map(|i: i32| (i.to_string(), xdg("before"))).collect(),
    }
}

fn logged_in(index: i32) -> Vec<(String, String)> {
    let mut cache = three_users();
    cache.set_last_login(index.to_string(), xdg("after"));
    cache
        .user_to_last_sess
        .into_iter()
        .map(|(user, session)| {
            (user, {
                let SessionIdOrCmdline::XdgDektopFile(file) = session else {
                    unreachable!();
                };
                file
            })
        })
        .collect()
}

#[test]
fn set_last_login_beginning() {
    assert_eq!(
        logged_in(1),
        vec![
            (1.to_string(), "after".to_string()),
            (2.to_string(), "before".to_string()),
            (3.to_string(), "before".to_string()),
        ]
    );
}

#[test]
fn set_last_login_middle() {
    assert_eq!(
        logged_in(2),
        vec![
            (2.to_string(), "after".to_string()),
            (1.to_string(), "before".to_string()),
            (3.to_string(), "before".to_string()),
        ]
    );
}

#[test]
fn set_last_login_end() {
    assert_eq!(
        logged_in(3),
        vec![
            ("3".to_string(), "after".to_string()),
            ("1".to_string(), "before".to_string()),
            ("2".to_string(), "before".to_string()),
        ]
    );
}

#[test]
fn set_last_login_new_user_goes_first() {
    let mut cache = three_users();
    cache.set_last_login("9".to_string(), SessionIdOrCmdline::Command("sh".to_string()));
    assert_eq!(cache.user_to_last_sess.len(), 4);
    assert_eq!(cache.last_user(), Some("9"));
    assert_eq!(
        cache.last_user_session("9"),
        Some(&SessionIdOrCmdline::Command("sh".to_string()))
    );
}

#[test]
fn last_user_of_empty_cache_is_none() {
    let cache = Cache::default();
    assert_eq!(cache.last_user(), None);
    assert_eq!(cache.last_user_session("anyone"), None);
    assert!(cache.user_to_last_sess.is_empty());
}

#[test]
fn last_user_session_finds_the_first_entry() {
    let cache = Cache {
        user_to_last_sess: vec![
            ("a".to_string(), xdg("one")),
            ("b".to_string(), xdg("two")),
            ("a".to_string(), xdg("three")),
        ],
    };
    assert_eq!(cache.last_user(), Some("a"));
    assert_eq!(cache.last_user_session("a"), Some(&xdg("one")));
    assert_eq!(cache.last_user_session("b"), Some(&xdg("two")));
    assert_eq!(cache.last_user_session("c"), None);
}

#[test]
fn dedup_keeps_the_first_entry_of_each_user() {
    let mut cache = Cache {
        user_to_last_sess: vec![
            ("a".to_string(), xdg("1")),
            ("b".to_string(), xdg("2")),
            ("a".to_string(), xdg("3")),
            ("c".to_string(), xdg("4")),
            ("b".to_string(), xdg("5")),
            ("a".to_string(), xdg("6")),
        ],
    };
    cache.dedup_user_to_last_sess();
    assert_eq!(
        cache.user_to_last_sess,
        vec![
            ("a".to_string(), xdg("1")),
            ("b".to_string(), xdg("2")),
            ("c".to_string(), xdg("4")),
        ]
    );
    let again = Cache { user_to_last_sess: cache.user_to_last_sess.clone() }.save(10);
    assert_eq!(again, cache);
}

#[test]
fn load_drops_repeated_users_then_truncates() {
    let entries = vec![
        ("a".to_string(), xdg("1")),
        ("a".to_string(), xdg("2")),
        ("b".to_string(), xdg("3")),
        ("c".to_string(), xdg("4")),
    ];
    let cache = Cache::load(entries.clone(), 2);
    assert_eq!(
        cache.user_to_last_sess,
        vec![("a".to_string(), xdg("1")), ("b".to_string(), xdg("3"))]
    );
    assert_eq!(Cache::load(entries.clone(), 0), Cache::default());
    assert_eq!(Cache::load(entries.clone(), 3).user_to_last_sess.len(), 3);
    assert_eq!(Cache::load(entries, 100).user_to_last_sess.len(), 3);
}

#[test]
fn save_drops_repeated_users_then_truncates() {
    let cache = Cache {
        user_to_last_sess: vec![
            ("a".to_string(), xdg("1")),
            ("b".to_string(), xdg("2")),
            ("b".to_string(), xdg("3")),
            ("c".to_string(), xdg("4")),
        ],
    };
    assert_eq!(
        cache.save(2).user_to_last_sess,
        vec![("a".to_string(), xdg("1")), ("b".to_string(), xdg("2"))]
    );
}
