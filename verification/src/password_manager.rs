//! A store of passwords that can only be read and filled while unlocked.

use core::marker::PhantomData;
use vstd::prelude::*;

verus! {

/// Marks a manager whose passwords cannot be reached.
pub struct Locked;

/// Marks a manager whose passwords can be read and added to.
pub struct Unlocked;

/// A password manager in the state `State`.
pub struct PasswordManager<State = Locked> {
    master_pass: String,
    passwords: Vec<(String, String)>,
    state: PhantomData<State>,
}

/// The names among `entries`, in their order.
pub open spec fn names(entries: Seq<(String, String)>) -> Seq<Seq<char>> {
    Seq::new(entries.len(), |i: int| entries[i].0@)
}

/// The passwords as a map from each name to its password.
pub open spec fn as_map(entries: Seq<(String, String)>) -> Map<Seq<char>, Seq<char>>
    decreases entries.len(),
{
    if entries.len() == 0 {
        Map::empty()
    } else {
        as_map(entries.drop_last()).insert(entries.last().0@, entries.last().1@)
    }
}

/// Storing a pair behind the others stores it in the map.
proof fn lemma_as_map_push(entries: Seq<(String, String)>, pair: (String, String))
    ensures
        as_map(entries.push(pair)) == as_map(entries).insert(pair.0@, pair.1@),
{
    assert(entries.push(pair).drop_last() =~= entries);
}

/// Where no name occurs twice, putting a pair in the place of one with the
/// same name stores its password under that name and changes nothing else.
proof fn lemma_as_map_update(entries: Seq<(String, String)>, i: int, pair: (String, String))
    requires
        0 <= i < entries.len(),
        names(entries).no_duplicates(),
        entries[i].0@ == pair.0@,
    ensures
        as_map(entries.update(i, pair)) == as_map(entries).insert(pair.0@, pair.1@),
        names(entries.update(i, pair)) == names(entries),
    decreases entries.len(),
{
    let updated = entries.update(i, pair);
    assert(names(updated) =~= names(entries));
    let rest = entries.drop_last();
    if i == entries.len() - 1 {
        assert(updated.drop_last() =~= rest);
        assert(as_map(updated) =~= as_map(entries).insert(pair.0@, pair.1@));
    } else {
        assert(names(rest).no_duplicates()) by {
            assert forall|j: int, k: int|
                0 <= j < names(rest).len() && 0 <= k < names(rest).len() && j != k implies names(rest)[j]
                != names(rest)[k] by {
                assert(names(entries)[j] == names(rest)[j]);
                assert(names(entries)[k] == names(rest)[k]);
            }
        }
        lemma_as_map_update(rest, i, pair);
        assert(updated.drop_last() =~= rest.update(i, pair));
        assert(updated.last() == entries.last());
        assert(names(entries)[i] != names(entries)[entries.len() - 1]);
        assert(as_map(updated) =~= as_map(entries).insert(pair.0@, pair.1@));
    }
}

impl<State> PasswordManager<State> {
    /// The master password.
    pub closed spec fn master(&self) -> Seq<char> {
        self.master_pass@
    }

    /// The stored passwords: each name with its password.
    pub closed spec fn stored(&self) -> Map<Seq<char>, Seq<char>> {
        as_map(self.passwords@)
    }

    /// The manager's validity: no name is stored twice.
    pub closed spec fn wf(&self) -> bool {
        names(self.passwords@).no_duplicates()
    }
}

impl PasswordManager<Locked> {
    /// Unlocks the manager. The password given becomes the master
    /// password; the stored passwords stay.
    pub fn unlock(self, master_pass: String) -> (unlocked: PasswordManager<Unlocked>)
        requires
            self.wf(),
        ensures
            unlocked.wf(),
            unlocked.master() == master_pass@,
            unlocked.stored() == self.stored(),
    {
        PasswordManager { master_pass: master_pass, passwords: self.passwords, state: PhantomData }
    }
}

impl PasswordManager<Unlocked> {
    /// Locks the manager. Nothing that it holds changes.
    pub fn lock(self) -> (locked: PasswordManager<Locked>)
        requires
            self.wf(),
        ensures
            locked.wf(),
            locked.master() == self.master(),
            locked.stored() == self.stored(),
    {
        PasswordManager { master_pass: self.master_pass, passwords: self.passwords, state: PhantomData }
    }

    /// The stored passwords: each name once, with its password.
    pub fn list_passwords(&self) -> (passwords: &Vec<(String, String)>)
        requires
            self.wf(),
        ensures
            as_map(passwords@) == self.stored(),
            names(passwords@).no_duplicates(),
    {
        &self.passwords
    }

    /// Stores `password` under `username`, in place of the password that
    /// was stored under that name, if there was one.
    pub fn add_password(&mut self, username: String, password: String)
        requires
            old(self).wf(),
        ensures
            final(self).wf(),
            final(self).master() == old(self).master(),
            final(self).stored() == old(self).stored().insert(username@, password@),
    {
        let n = self.passwords.len();
        let mut i: usize = 0;
        while i < n
            invariant
                i <= n,
                n == self.passwords.len(),
                self.passwords == old(self).passwords,
                self.master_pass == old(self).master_pass,
                names(self.passwords@).no_duplicates(),
                forall|k: int| 0 <= k < i ==> self.passwords@[k].0@ != username@,
            decreases n - i,
        {
            if self.passwords[i].0 == username {
                proof {
                    lemma_as_map_update(self.passwords@, i as int, (username, password));
                }
                self.passwords.set(i, (username, password));
                return ;
            }
            i = i + 1;
        }
        proof {
            lemma_as_map_push(self.passwords@, (username, password));
            let grown = self.passwords@.push((username, password));
            assert forall|j: int, k: int|
                0 <= j < names(grown).len() && 0 <= k < names(grown).len() && j != k implies names(grown)[j]
                != names(grown)[k] by {
                if j < n {
                    assert(names(grown)[j] == names(self.passwords@)[j]);
                }
                if k < n {
                    assert(names(grown)[k] == names(self.passwords@)[k]);
                }
            }
        }
        self.passwords.push((username, password));
    }
}

impl PasswordManager {
    /// A locked manager with the given master password and no passwords.
    pub fn new(master_pass: String) -> (manager: Self)
        ensures
            manager.wf(),
            manager.master() == master_pass@,
            manager.stored() == Map::<Seq<char>, Seq<char>>::empty(),
    {
        PasswordManager { master_pass: master_pass, passwords: Vec::new(), state: PhantomData }
    }
}

} // verus!
