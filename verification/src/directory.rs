//! A small directory of users.
use vstd::prelude::*;
use vstd::string::*;

verus! {

/// One user of the directory.
#[derive(Debug, PartialEq, Eq)]
pub struct User {
    pub id: u64,
    pub name: String,
    pub email: String,
    pub active: bool,
}

/// The view of a [`User`].
pub struct UserView {
    pub id: u64,
    pub name: Seq<char>,
    pub email: Seq<char>,
    pub active: bool,
}

impl View for User {
    type V = UserView;

    open spec fn view(&self) -> UserView {
        UserView { id: self.id, name: self.name@, email: self.email@, active: self.active }
    }
}

impl User {
    /// An active user.
    pub fn new(id: u64, name: &str, email: &str) -> (user: User)
        ensures
            user@ == (UserView { id, name: name@, email: email@, active: true }),
    {
        User { id, name: String::from_str(name), email: String::from_str(email), active: true }
    }

    /// Marks the user inactive; nothing else changes.
    pub fn deactivate(&mut self)
        ensures
            final(self)@ == (UserView { active: false, ..old(self)@ }),
    {
        self.active = false;
    }
}

/// Whether a user with this id stands before position `limit`.
pub open spec fn listed_before(users: Seq<User>, id: u64, limit: int) -> bool {
    exists|i: int| 0 <= i < limit && i < users.len() && (#[trigger] users[i]).id == id
}

/// Whether a user with this id is among `users`.
pub open spec fn listed(users: Seq<User>, id: u64) -> bool {
    exists|i: int| 0 <= i < users.len() && (#[trigger] users[i]).id == id
}

/// Looks `id` up among all users. Of several users with the id, the first
/// is found; where no user has it, and so among no users at all, none is.
pub fn find_user_by_id(users: &[User], id: u64) -> (found: Option<&User>)
    ensures
        found is Some <==> listed(users@, id),
        found matches Some(user) ==> exists|i: int|
            {
                &&& 0 <= i < users@.len()
                &&& *user == #[trigger] users@[i]
                &&& user.id == id
                &&& !listed_before(users@, id, i)
            },
{
    let mut i: usize = 0;
    while i < users.len()
        invariant
            i <= users@.len(),
            !listed_before(users@, id, i as int),
        decreases users@.len() - i,
    {
        if users[i].id == id {
            assert(listed(users@, id));
            return Some(&users[i]);
        }
        i = i + 1;
    }
    assert(!listed(users@, id)) by {
        if listed(users@, id) {
            let k = choose|k: int| 0 <= k < users@.len() && (#[trigger] users@[k]).id == id;
            assert(listed_before(users@, id, users@.len() as int));
        }
    }
    None
}

} // verus!
