use crate::user::{collides, User, UserView};
use vstd::prelude::*;

verus! {

/// Whether some stored user collides with `u`.
pub open spec fn taken(users: Seq<UserView>, u: UserView) -> bool {
    exists|i: int| 0 <= i < users.len() && #[trigger] collides(users[i], u)
}

/// No two stored users share an identifier, an email or a username.
pub open spec fn all_distinct(users: Seq<UserView>) -> bool {
    forall|i: int, j: int|
        0 <= i < j < users.len() ==> !#[trigger] collides(users[i], users[j])
}

/// A failure of the storage layer, kept apart from the business-rule
/// failures.
pub struct StorageError {
    description: String,
}

impl StorageError {
    pub closed spec fn description_view(&self) -> Seq<char> {
        self.description@
    }

    pub fn new(description: String) -> (r: StorageError)
        ensures
            r.description_view() == description@,
    {
        StorageError { description }
    }

    /// What went wrong, in words.
    pub fn description(&self) -> (r: String)
        ensures
            r@ == self.description_view(),
    {
        self.description.clone()
    }
}

/// The store of registered users, in the order they were created.
pub struct UserRepository {
    users: Vec<User>,
}

impl View for UserRepository {
    type V = Seq<UserView>;

    closed spec fn view(&self) -> Seq<UserView> {
        self.users@.map_values(|u: User| u@)
    }
}

impl UserRepository {
    /// An empty store.
    pub fn new() -> (r: UserRepository)
        ensures
            r@ == Seq::<UserView>::empty(),
    {
        let r = UserRepository { users: Vec::new() };
        assert(r@ =~= Seq::<UserView>::empty());
        r
    }

    /// Appends `user` and hands it back. The store has no failure of its own
    /// today, so this always succeeds.
    pub fn create(&mut self, user: User) -> (r: Result<User, StorageError>)
        ensures
            r matches Ok(u) && u@ == user@,
            final(self)@ == old(self)@.push(user@),
            all_distinct(old(self)@) && !taken(old(self)@, user@) ==> all_distinct(final(self)@),
    {
        let stored = user.clone();
        self.users.push(stored);
        assert(self@ =~= old(self)@.push(user@));
        proof {
            if all_distinct(old(self)@) && !taken(old(self)@, user@) {
                assert forall|i: int, j: int| 0 <= i < j < self@.len() implies !#[trigger] collides(
                    self@[i],
                    self@[j],
                ) by {
                    if j == old(self)@.len() {
                        if collides(self@[i], self@[j]) {
                            assert(collides(old(self)@[i], user@));
                        }
                    } else {
                        assert(self@[i] == old(self)@[i]);
                        assert(self@[j] == old(self)@[j]);
                    }
                }
            }
        }
        Ok(user)
    }

    /// Whether some stored user shares the identifier, the email or the
    /// username of `user`.
    pub fn user_exists(&self, user: &User) -> (r: bool)
        ensures
            r == taken(self@, user@),
    {
        let mut i: usize = 0;
        while i < self.users.len()
            invariant
                i <= self.users@.len(),
                forall|j: int| 0 <= j < i ==> !collides(#[trigger] self@[j], user@),
            decreases self.users@.len() - i,
        {
            if self.users[i].collides_with(user) {
                assert(collides(self@[i as int], user@));
                return true;
            }
            i = i + 1;
        }
        assert(!taken(self@, user@));
        false
    }

    /// The number of stored users.
    pub fn len(&self) -> (r: usize)
        ensures
            r == self@.len(),
    {
        self.users.len()
    }
}

} // verus!
