//! In-memory directory of registered identities, keyed by username. The
//! directory enforces username uniqueness with an atomic check-and-insert and
//! holds at most one enrolled passkey per identity. It is generic in the type
//! of the verified credential record it stores, which it never inspects.

use vstd::prelude::*;

use crate::error::{Error, ErrorKind};

verus! {

/// One registered identity: its opaque identifier, the verified credential
/// record once enrollment finished, and an optional derived-key artifact.
pub struct User<P> {
    pub id: u128,
    pub passkey: Option<P>,
    pub keypkg: Option<Vec<u8>>,
}

/// A directory row: the unique username and the identity registered under it.
pub struct Entry<P> {
    pub username: String,
    pub user: User<P>,
}

/// The identity directory. Usernames are unique; an entry is created at
/// registration start and its passkey is set at registration finish.
pub struct Directory<P> {
    entries: Vec<Entry<P>>,
}

impl<P> Directory<P> {
    /// The rows of the directory, in insertion order.
    pub closed spec fn rows(self) -> Seq<Entry<P>> {
        self.entries@
    }

    /// Well-formedness: no two rows share a username.
    pub open spec fn wf(self) -> bool {
        forall|i: int, j: int|
            0 <= i < j < self.rows().len() ==> self.rows()[i].username@ != self.rows()[j].username@
    }

    /// Whether some row is registered under the given username.
    pub open spec fn contains_name(self, name: Seq<char>) -> bool {
        exists|i: int| 0 <= i < self.rows().len() && self.rows()[i].username@ == name
    }

    /// The row index registered under the given username.
    pub open spec fn index_of(self, name: Seq<char>) -> int {
        choose|i: int| 0 <= i < self.rows().len() && self.rows()[i].username@ == name
    }

    /// The identity registered under the given username.
    pub open spec fn user_of(self, name: Seq<char>) -> User<P> {
        self.rows()[self.index_of(name)].user
    }

    /// Whether some row holds an identity with the given identifier.
    pub open spec fn has_id(self, id: u128) -> bool {
        exists|i: int| 0 <= i < self.rows().len() && self.rows()[i].user.id == id
    }

    /// An empty directory.
    pub fn new() -> (d: Self)
        ensures
            d.wf(),
            d.rows().len() == 0,
    {
        Directory { entries: Vec::new() }
    }

    /// The number of registered identities.
    pub fn len(&self) -> (n: usize)
        ensures
            n == self.rows().len(),
    {
        self.entries.len()
    }

    /// The row index registered under `username`, if any. Exec counterpart of
    /// `contains_name` / `index_of`.
    pub fn find(&self, username: &String) -> (r: Option<usize>)
        requires
            self.wf(),
        ensures
            r matches Some(i) ==> i < self.rows().len() && self.rows()[i as int].username@
                == username@ && i == self.index_of(username@),
            r is None <==> !self.contains_name(username@),
    {
        let n = self.entries.len();
        let mut i: usize = 0;
        while i < n
            invariant
                self.wf(),
                n == self.rows().len(),
                i <= n,
                forall|j: int| 0 <= j < i ==> self.rows()[j].username@ != username@,
            decreases n - i,
        {
            if self.entries[i].username.eq(username) {
                proof {
                    assert(self.contains_name(username@));
                    let k = self.index_of(username@);
                    assert(0 <= k < self.rows().len() && self.rows()[k].username@ == username@);
                    lemma_username_unique(*self, username@, k, i as int);
                }
                return Some(i);
            }
            i = i + 1;
        }
        None
    }

    /// Atomic check-and-insert at registration start: create a row for
    /// `username` only if none exists, with no enrolled passkey yet; reject
    /// with `AlreadyExists` otherwise, leaving the directory unchanged.
    pub fn insert_new(&mut self, username: String, id: u128) -> (r: Result<(), Error>)
        requires
            old(self).wf(),
        ensures
            final(self).wf(),
            r is Ok <==> !old(self).contains_name(username@),
            r is Ok ==> final(self).rows() == old(self).rows().push(
                Entry { username, user: User { id, passkey: None, keypkg: None } },
            ),
            r matches Err(e) ==> e.kind == ErrorKind::AlreadyExists && final(self).rows() == old(
                self,
            ).rows(),
    {
        match self.find(&username) {
            Some(_) => Err(Error::new(ErrorKind::AlreadyExists, "user already exists")),
            None => {
                let entry = Entry { username, user: User { id, passkey: None, keypkg: None } };
                self.entries.push(entry);
                proof {
                    assert forall|i: int, j: int|
                        0 <= i < j < self.rows().len() implies self.rows()[i].username@ != self
                        .rows()[j].username@ by {
                        if j == self.rows().len() - 1 {
                            assert(old(self).rows()[i] == self.rows()[i]);
                        }
                    }
                }
                Ok(())
            },
        }
    }

    /// The identity id and enrolled passkey for `username`, for scoping an
    /// authentication ceremony: `NoSuchUser` when the name was never
    /// registered, `NotEnrolled` when registration never finished.
    pub fn auth_material(&self, username: &String) -> (r: Result<(u128, &P), Error>)
        requires
            self.wf(),
        ensures
            !self.contains_name(username@) ==> (r matches Err(e) && e.kind == ErrorKind::NoSuchUser),
            self.contains_name(username@) && self.user_of(username@).passkey is None ==> (
            r matches Err(e) && e.kind == ErrorKind::NotEnrolled),
            r matches Err(e) ==> e.kind == ErrorKind::NoSuchUser || e.kind == ErrorKind::NotEnrolled,
            (r matches Err(e) && e.kind == ErrorKind::NoSuchUser) ==> !self.contains_name(
                username@,
            ),
            (r matches Err(e) && e.kind == ErrorKind::NotEnrolled) ==> self.contains_name(username@)
                && self.user_of(username@).passkey is None,
            r matches Ok(p) ==> self.contains_name(username@) && p.0 == self.user_of(username@).id
                && (self.user_of(username@).passkey matches Some(pk) && *p.1 == pk),
    {
        match self.find(username) {
            None => Err(Error::new(ErrorKind::NoSuchUser, "no such user")),
            Some(i) => {
                let user = &self.entries[i].user;
                match &user.passkey {
                    None => Err(Error::new(ErrorKind::NotEnrolled, "user has no passkey")),
                    Some(pk) => Ok((user.id, pk)),
                }
            },
        }
    }

    /// Set the passkey of the first row whose identity bears `id`, at
    /// registration finish. `UnknownIdentity` when no row does, with the
    /// directory untouched: a failed finish leaves no partial write.
    pub fn set_passkey(&mut self, id: u128, passkey: P) -> (r: Result<(), Error>)
        requires
            old(self).wf(),
        ensures
            final(self).wf(),
            r is Ok <==> old(self).has_id(id),
            r is Ok ==> passkey_set(*old(self), *final(self), id, passkey),
            r matches Err(e) ==> e.kind == ErrorKind::UnknownIdentity && final(self).rows() == old(
                self,
            ).rows(),
    {
        let n = self.entries.len();
        let mut i: usize = 0;
        while i < n
            invariant
                old(self).wf(),
                n == self.rows().len(),
                i <= n,
                *self == *old(self),
                forall|j: int| 0 <= j < i ==> self.rows()[j].user.id != id,
            decreases n - i,
        {
            if self.entries[i].user.id == id {
                let ghost old_rows = self.rows();
                let ghost old_entry = self.rows()[i as int];
                let entry = self.entries.remove(i);
                let updated = Entry {
                    username: entry.username,
                    user: User { id, passkey: Some(passkey), keypkg: entry.user.keypkg },
                };
                self.entries.insert(i, updated);
                proof {
                    let new_entry = Entry {
                        username: old_entry.username,
                        user: User { id, passkey: Some(passkey), keypkg: old_entry.user.keypkg },
                    };
                    assert(self.rows() =~= old_rows.update(i as int, new_entry));
                    assert(old_rows == old(self).rows());
                    assert forall|x: int|
                        0 <= x < self.rows().len() implies self.rows()[x].username == old(
                        self,
                    ).rows()[x].username by {
                        if x != i as int {
                            assert(self.rows()[x] == old_rows[x]);
                        }
                    }
                    assert forall|x: int, y: int|
                        0 <= x < y < self.rows().len() implies self.rows()[x].username@ != self
                        .rows()[y].username@ by {
                        assert(self.rows()[x].username == old(self).rows()[x].username);
                        assert(self.rows()[y].username == old(self).rows()[y].username);
                        assert(old(self).rows()[x].username@ != old(self).rows()[y].username@);
                    }
                }
                return Ok(());
            }
            i = i + 1;
        }
        Err(Error::new(ErrorKind::UnknownIdentity, "no user found for id"))
    }
}

/// How a finished registration changes the directory: the first row whose
/// identity bears `id` gets its passkey set to the verified record, and no
/// other row moves.
pub open spec fn passkey_set<P>(pre: Directory<P>, post: Directory<P>, id: u128, passkey: P) -> bool {
    exists|i: int|
        0 <= i < pre.rows().len() && pre.rows()[i].user.id == id && (forall|j: int|
            0 <= j < i ==> pre.rows()[j].user.id != id) && post.rows() == pre.rows().update(
            i,
            Entry {
                username: pre.rows()[i].username,
                user: User { id, passkey: Some(passkey), keypkg: pre.rows()[i].user.keypkg },
            },
        )
}

/// Username uniqueness, as a law: in a well-formed directory at most one row
/// is registered under any given name, so a duplicate registration start can
/// never leave two rows behind.
pub proof fn lemma_username_unique<P>(d: Directory<P>, name: Seq<char>, i: int, j: int)
    requires
        d.wf(),
        0 <= i < d.rows().len(),
        0 <= j < d.rows().len(),
        d.rows()[i].username@ == name,
        d.rows()[j].username@ == name,
    ensures
        i == j,
{
}

} // verus!
