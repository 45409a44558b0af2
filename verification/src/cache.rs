//! Utility for caching info between logins.
//!
//! The cache remembers, for each user, the session that the user started
//! last.  It is an ordered list, the most recent login first, in which no
//! user occurs twice.
use vstd::prelude::*;
use vstd::string::*;

verus! {

/// What a user logged into: a session of the system, named by the ID of its
/// XDG desktop file, or a command line that the user typed.
#[derive(Clone, Debug, PartialEq, Eq)]
pub enum SessionIdOrCmdline {
    XdgDektopFile(String),
    Command(String),
}

/// What a [`SessionIdOrCmdline`] holds, as mathematical values.
pub enum SessionIdOrCmdlineView {
    XdgDektopFile(Seq<char>),
    Command(Seq<char>),
}

impl View for SessionIdOrCmdline {
    type V = SessionIdOrCmdlineView;

    open spec fn view(&self) -> SessionIdOrCmdlineView {
        match *self {
            SessionIdOrCmdline::XdgDektopFile(id) => SessionIdOrCmdlineView::XdgDektopFile(id@),
            SessionIdOrCmdline::Command(line) => SessionIdOrCmdlineView::Command(line@),
        }
    }
}

/// An entry of the cache as mathematical values: a username and the session
/// that the user started last.
pub type EntryView = (Seq<char>, SessionIdOrCmdlineView);

/// The view of an entry of the cache.
pub open spec fn entry_view(entry: (String, SessionIdOrCmdline)) -> EntryView {
    (entry.0@, entry.1@)
}

/// Whether one of `entries` is for `user`.
pub open spec fn has_user(entries: Seq<EntryView>, user: Seq<char>) -> bool {
    exists|i: int| 0 <= i < entries.len() && (#[trigger] entries[i]).0 == user
}

/// The entries without the repeated users: of the entries for one user only
/// the first stays, and the order of those that stay is kept.
pub open spec fn dedup(entries: Seq<EntryView>) -> Seq<EntryView>
    decreases entries.len(),
{
    if entries.len() == 0 {
        Seq::empty()
    } else if has_user(entries.drop_last(), entries.last().0) {
        dedup(entries.drop_last())
    } else {
        dedup(entries.drop_last()).push(entries.last())
    }
}

/// The first `limit` of the entries that are left when repeated users are
/// dropped.
pub open spec fn bounded(entries: Seq<EntryView>, limit: nat) -> Seq<EntryView> {
    if limit < dedup(entries).len() {
        dedup(entries).take(limit as int)
    } else {
        dedup(entries)
    }
}

/// Holds info needed to persist between logins.
#[derive(Debug, PartialEq, Eq)]
pub struct Cache {
    /// An ordered map from username to the last session.  First is most
    /// recent.
    pub user_to_last_sess: Vec<(String, SessionIdOrCmdline)>,
}

impl View for Cache {
    type V = Seq<EntryView>;

    open spec fn view(&self) -> Seq<EntryView> {
        self.user_to_last_sess@.map_values(|entry: (String, SessionIdOrCmdline)| entry_view(entry))
    }
}

impl Default for Cache {
    /// The cache that remembers nothing.
    fn default() -> (r: Self)
        ensures
            r@ == Seq::<EntryView>::empty(),
    {
        let cache = Cache { user_to_last_sess: Vec::new() };
        assert(cache@ =~= Seq::<EntryView>::empty());
        cache
    }
}

/// A user occurs among the entries that stay exactly if the user occurs at
/// all.
pub proof fn lemma_dedup_keeps_users(entries: Seq<EntryView>, user: Seq<char>)
    ensures
        has_user(dedup(entries), user) <==> has_user(entries, user),
    decreases entries.len(),
{
    if entries.len() > 0 {
        let init = entries.drop_last();
        let last = entries.last();
        let kept = dedup(entries);
        lemma_dedup_keeps_users(init, user);
        lemma_dedup_keeps_users(init, last.0);
        if has_user(init, user) {
            let j = choose|j: int| 0 <= j < init.len() && (#[trigger] init[j]).0 == user;
            assert(entries[j].0 == user);
            let k = choose|k: int| 0 <= k < dedup(init).len() && (#[trigger] dedup(init)[k]).0 == user;
            assert(kept[k].0 == user);
        } else if last.0 == user {
            assert(entries[entries.len() - 1].0 == user);
            assert(kept == dedup(init).push(last));
            assert(kept[kept.len() - 1].0 == user);
        } else {
            if has_user(entries, user) {
                let i = choose|i: int| 0 <= i < entries.len() && (#[trigger] entries[i]).0 == user;
                assert(init[i].0 == user);
            }
            if has_user(kept, user) {
                let i = choose|i: int| 0 <= i < kept.len() && (#[trigger] kept[i]).0 == user;
                assert(dedup(init)[i].0 == user);
            }
        }
    }
}

/// No user occurs twice among the entries.
pub open spec fn distinct_users(entries: Seq<EntryView>) -> bool {
    forall|i: int, j: int|
        0 <= i < j < entries.len() ==> (#[trigger] entries[i]).0 != (#[trigger] entries[j]).0
}

/// Among the entries that stay, no user occurs twice.
pub proof fn lemma_dedup_distinct(entries: Seq<EntryView>)
    ensures
        distinct_users(dedup(entries)),
    decreases entries.len(),
{
    if entries.len() > 0 {
        let init = entries.drop_last();
        let last = entries.last();
        lemma_dedup_distinct(init);
        lemma_dedup_keeps_users(init, last.0);
        if !has_user(init, last.0) {
            let kept = dedup(init).push(last);
            assert forall|i: int, j: int| 0 <= i < j < kept.len() implies (#[trigger] kept[i]).0 != (
            #[trigger] kept[j]).0 by {
                if j == kept.len() - 1 {
                    assert(dedup(init)[i] == kept[i]);
                } else {
                    assert(dedup(init)[i] == kept[i]);
                    assert(dedup(init)[j] == kept[j]);
                }
            }
        }
    }
}

/// Where no user occurs twice, every entry stays.
pub proof fn lemma_dedup_of_distinct(entries: Seq<EntryView>)
    requires
        distinct_users(entries),
    ensures
        dedup(entries) == entries,
    decreases entries.len(),
{
    if entries.len() > 0 {
        let init = entries.drop_last();
        let last = entries.last();
        assert forall|i: int, j: int| 0 <= i < j < init.len() implies (#[trigger] init[i]).0 != (
        #[trigger] init[j]).0 by {
            assert(init[i] == entries[i]);
            assert(init[j] == entries[j]);
        }
        lemma_dedup_of_distinct(init);
        if has_user(init, last.0) {
            let i = choose|i: int| 0 <= i < init.len() && (#[trigger] init[i]).0 == last.0;
            assert(entries[i].0 == entries[entries.len() - 1].0);
        }
        assert(init.push(last) =~= entries);
    } else {
        assert(entries =~= Seq::empty());
    }
}

/// The most recent login is first: an entry that is put in front of the
/// others stays, and stays in front.
pub proof fn lemma_dedup_keeps_front(first: EntryView, rest: Seq<EntryView>)
    ensures
        dedup(seq![first] + rest).len() > 0,
        dedup(seq![first] + rest)[0] == first,
    decreases rest.len(),
{
    let entries = seq![first] + rest;
    if rest.len() == 0 {
        assert(entries.drop_last() =~= Seq::empty());
        assert(dedup(entries.drop_last()) =~= Seq::empty());
        assert(!has_user(entries.drop_last(), first.0));
        assert(dedup(entries) == Seq::<EntryView>::empty().push(entries.last()));
    } else {
        assert(entries.drop_last() =~= seq![first] + rest.drop_last());
        lemma_dedup_keeps_front(first, rest.drop_last());
    }
}

/// Of the entries for one user the first stays: the session that is found for
/// a user is the same before and after the repeated users are dropped.
pub proof fn lemma_dedup_keeps_first_session(entries: Seq<EntryView>, i: int)
    requires
        0 <= i < entries.len(),
        !has_user(entries.take(i), entries[i].0),
    ensures
        exists|k: int|
            0 <= k < dedup(entries).len() && #[trigger] dedup(entries)[k] == entries[i] && !has_user(
                dedup(entries).take(k),
                entries[i].0,
            ),
    decreases entries.len(),
{
    let init = entries.drop_last();
    let last = entries.last();
    let user = entries[i].0;
    lemma_dedup_distinct(entries);
    if i == entries.len() - 1 {
        assert(entries.take(i) =~= init);
        let k = dedup(init).len() as int;
        assert(dedup(entries) == dedup(init).push(last));
        assert(dedup(entries)[k] == entries[i]);
        assert(dedup(entries).take(k) =~= dedup(init));
        lemma_dedup_keeps_users(init, user);
    } else {
        assert(init.take(i) =~= entries.take(i));
        assert(init[i] == entries[i]);
        lemma_dedup_keeps_first_session(init, i);
        let k = choose|k: int|
            0 <= k < dedup(init).len() && #[trigger] dedup(init)[k] == init[i] && !has_user(
                dedup(init).take(k),
                user,
            );
        assert(dedup(entries)[k] == entries[i]);
        assert(dedup(entries).take(k) =~= dedup(init).take(k));
    }
}

/// What is loaded and what is saved holds no more than `limit` entries, no
/// user twice, and the most recent logins: it is the beginning of the list
/// without repeated users.
pub proof fn lemma_bounded(entries: Seq<EntryView>, limit: nat)
    ensures
        bounded(entries, limit).len() <= limit,
        distinct_users(bounded(entries, limit)),
        bounded(entries, limit).is_prefix_of(dedup(entries)),
        limit >= dedup(entries).len() ==> bounded(entries, limit) == dedup(entries),
{
    lemma_dedup_distinct(entries);
    let kept = bounded(entries, limit);
    assert forall|i: int, j: int| 0 <= i < j < kept.len() implies (#[trigger] kept[i]).0 != (
    #[trigger] kept[j]).0 by {
        assert(kept[i] == dedup(entries)[i]);
        assert(kept[j] == dedup(entries)[j]);
    }
    assert(kept =~= dedup(entries).subrange(0, kept.len() as int));
}

/// Whether `entries[..upto]` holds an entry for `user`.
fn contains_user(entries: &Vec<(String, SessionIdOrCmdline)>, upto: usize, user: &String) -> (r:
    bool)
    requires
        upto <= entries.len(),
    ensures
        r == has_user(
            entries@.map_values(|entry: (String, SessionIdOrCmdline)| entry_view(entry)).take(
                upto as int,
            ),
            user@,
        ),
{
    let ghost view = entries@.map_values(|entry: (String, SessionIdOrCmdline)| entry_view(entry));
    let mut j: usize = 0;
    while j < upto
        invariant
            j <= upto <= entries.len(),
            view == entries@.map_values(|entry: (String, SessionIdOrCmdline)| entry_view(entry)),
            forall|i: int| 0 <= i < j ==> (#[trigger] view[i]).0 != user@,
        decreases upto - j,
    {
        if entries[j].0 == *user {
            assert(view.take(upto as int)[j as int].0 == user@);
            return true;
        }
        j += 1;
    }
    assert forall|i: int| 0 <= i < view.take(upto as int).len() implies (#[trigger] view.take(
        upto as int,
    )[i]).0 != user@ by {
        assert(view.take(upto as int)[i] == view[i]);
    }
    false
}

impl Cache {
    /// Takes in the entries as they were read from disk: repeated users are
    /// dropped, and of what is left no more than `limit` entries are kept.
    pub fn load(user_to_last_sess: Vec<(String, SessionIdOrCmdline)>, limit: usize) -> (cache: Self)
        ensures
            cache@ == bounded(
                user_to_last_sess@.map_values(
                    |entry: (String, SessionIdOrCmdline)| entry_view(entry),
                ),
                limit as nat,
            ),
    {
        let mut cache = Cache { user_to_last_sess };
        cache.dedup_user_to_last_sess();
        cache.truncate(limit);
        cache
    }

    /// Gives the entries as they are to be written to disk: without repeated
    /// users, and no more than `limit` of them.
    pub fn save(self, limit: usize) -> (cache: Self)
        ensures
            cache@ == bounded(self@, limit as nat),
    {
        let mut cache = self;
        cache.dedup_user_to_last_sess();
        cache.truncate(limit);
        cache
    }

    /// Keeps the first `limit` entries.
    fn truncate(&mut self, limit: usize)
        ensures
            final(self)@ == if limit < old(self)@.len() {
                old(self)@.take(limit as int)
            } else {
                old(self)@
            },
    {
        self.user_to_last_sess.truncate(limit);
        proof {
            if limit < old(self)@.len() {
                assert(self@ =~= old(self)@.take(limit as int));
            } else {
                assert(self@ =~= old(self)@);
            }
        }
    }

    /// The session that `username` started last: that of the first entry for
    /// the user, if there is one.
    pub fn last_user_session(&self, username: &str) -> (r: Option<&SessionIdOrCmdline>)
        ensures
            match r {
                Some(session) => exists|i: int|
                    0 <= i < self@.len() && (#[trigger] self@[i]) == (username@, session@) && !has_user(
                        self@.take(i),
                        username@,
                    ),
                None => !has_user(self@, username@),
            },
    {
        let user = username.to_owned();
        let mut i: usize = 0;
        while i < self.user_to_last_sess.len()
            invariant
                i <= self.user_to_last_sess.len(),
                user@ == username@,
                forall|j: int| 0 <= j < i ==> (#[trigger] self@[j]).0 != username@,
            decreases self.user_to_last_sess.len() - i,
        {
            if self.user_to_last_sess[i].0 == user {
                assert(self@[i as int] == (username@, self.user_to_last_sess[i as int].1@));
                assert forall|j: int| 0 <= j < self@.take(i as int).len() implies (
                #[trigger] self@.take(i as int)[j]).0 != username@ by {
                    assert(self@.take(i as int)[j] == self@[j]);
                }
                return Some(&self.user_to_last_sess[i].1);
            }
            i += 1;
        }
        None
    }

    /// Records that `username` has logged into `session`: the entry goes to
    /// the front, and an older entry for the same user is dropped.
    pub fn set_last_login(&mut self, username: String, session: SessionIdOrCmdline)
        ensures
            final(self)@ == dedup(seq![(username@, session@)] + old(self)@),
    {
        self.user_to_last_sess.insert(0, (username, session));
        assert(self@ =~= seq![(username@, session@)] + old(self)@);
        self.dedup_user_to_last_sess()
    }

    /// The user who logged in last, if anyone has.
    pub fn last_user(&self) -> (r: Option<&str>)
        ensures
            match r {
                Some(user) => self@.len() > 0 && user@ == self@[0].0,
                None => self@.len() == 0,
            },
    {
        if self.user_to_last_sess.len() > 0 {
            Some(self.user_to_last_sess[0].0.as_str())
        } else {
            None
        }
    }

    /// Drops every entry whose user has an entry before it.
    pub fn dedup_user_to_last_sess(&mut self)
        ensures
            final(self)@ == dedup(old(self)@),
    {
        let ghost all = self@;
        let ghost mut done: int = 0;
        let mut i: usize = 0;
        assert(all.take(0) =~= Seq::<EntryView>::empty());
        assert(self@ =~= dedup(all.take(0)) + all.skip(0));
        while i < self.user_to_last_sess.len()
            invariant
                0 <= done <= all.len(),
                i == dedup(all.take(done)).len(),
                self@ == dedup(all.take(done)) + all.skip(done),
            decreases all.len() - done,
        {
            let ghost kept = dedup(all.take(done));
            let ghost next = all.take(done + 1);
            proof {
                assert(self@.len() == kept.len() + (all.len() - done));
                assert(done < all.len());
                assert(next.drop_last() =~= all.take(done));
                assert(next.last() == all[done]);
                assert(self@[i as int] == all[done]);
                assert(self@.take(i as int) =~= kept);
                lemma_dedup_keeps_users(all.take(done), all[done].0);
            }
            let repeated = contains_user(&self.user_to_last_sess, i, &self.user_to_last_sess[i].0);
            if repeated {
                let ghost before = self@;
                self.user_to_last_sess.remove(i);
                proof {
                    assert(self@ =~= before.remove(i as int));
                    assert(self@ =~= dedup(next) + all.skip(done + 1));
                }
            } else {
                proof {
                    assert(self@ =~= dedup(next) + all.skip(done + 1));
                }
                i += 1;
            }
            proof {
                done = done + 1;
            }
        }
        proof {
            assert(self@.len() == i);
            assert(done == all.len());
            assert(all.take(done) =~= all);
            assert(self@ =~= dedup(all));
        }
    }
}

} // verus!
