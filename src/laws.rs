use crate::repository::{all_distinct, taken};
use crate::service::{
    envelope_encodes, expected_outcome, status_encodes, store_after, AltResult,
    CreateUserAltResponse, CreateUserResponse, OutcomeView, StatusCode, StatusReply,
};
use crate::user::{collides, email_accepted, username_accepted, UserView};
use vstd::prelude::*;

verus! {

/// Whether a stored user has `email` or `username`.
pub open spec fn names_taken(users: Seq<UserView>, email: Seq<char>, username: Seq<char>) -> bool {
    exists|i: int|
        0 <= i < users.len() && (#[trigger] users[i].email == email || users[i].username
            == username)
}

/// Whether a stored user has `username`.
pub open spec fn username_taken(users: Seq<UserView>, username: Seq<char>) -> bool {
    exists|i: int| 0 <= i < users.len() && #[trigger] users[i].username == username
}

/// A valid email and username that collide with no stored user are created,
/// the new user's identifier differs from every stored one, and the store
/// stays free of collisions.
pub proof fn lemma_created_user_is_unique(
    users: Seq<UserView>,
    email: Seq<char>,
    username: Seq<char>,
    id: u128,
)
    requires
        all_distinct(users),
        email_accepted(email),
        username_accepted(username),
        !taken(users, UserView { id, email, username }),
    ensures
        expected_outcome(users, email, username, id) == OutcomeView::Created(
            UserView { id, email, username },
        ),
        all_distinct(store_after(users, expected_outcome(users, email, username, id))),
        forall|i: int| 0 <= i < users.len() ==> #[trigger] users[i].id != id,
{
    let u = UserView { id, email, username };
    let s = users.push(u);
    assert forall|i: int| 0 <= i < users.len() implies #[trigger] users[i].id != id by {
        if users[i].id == id {
            assert(collides(users[i], u));
        }
    }
    assert forall|i: int, j: int| 0 <= i < j < s.len() implies !#[trigger] collides(s[i], s[j]) by {
        if j == users.len() {
            if collides(s[i], s[j]) {
                assert(collides(users[i], u));
            }
        } else {
            assert(s[i] == users[i] && s[j] == users[j]);
        }
    }
}

/// Submitting the same valid email and username a second time is a
/// duplicate, whatever identifier each attempt draws, unless the first
/// attempt failed only because its drawn identifier was already in use.
pub proof fn lemma_repeat_is_duplicate(
    users: Seq<UserView>,
    email: Seq<char>,
    username: Seq<char>,
    first_id: u128,
    second_id: u128,
)
    requires
        email_accepted(email),
        username_accepted(username),
        expected_outcome(users, email, username, first_id) is Created || names_taken(
            users,
            email,
            username,
        ),
    ensures
        expected_outcome(
            store_after(users, expected_outcome(users, email, username, first_id)),
            email,
            username,
            second_id,
        ) == OutcomeView::Duplicate,
{
    let first = expected_outcome(users, email, username, first_id);
    let s = store_after(users, first);
    let u = UserView { id: second_id, email, username };
    if first is Created {
        let k = users.len() as int;
        assert(s[k].email == email);
        assert(collides(s[k], u));
    } else {
        let i = choose|i: int|
            0 <= i < users.len() && (#[trigger] users[i].email == email || users[i].username
                == username);
        assert(collides(s[i], u));
    }
}

/// The store after a series of create attempts that all use `username`,
/// each with its own email and drawn identifier.
pub open spec fn run_attempts(
    users: Seq<UserView>,
    username: Seq<char>,
    attempts: Seq<(Seq<char>, u128)>,
) -> Seq<UserView>
    decreases attempts.len(),
{
    if attempts.len() == 0 {
        users
    } else {
        let s = run_attempts(users, username, attempts.drop_last());
        let a = attempts.last();
        store_after(s, expected_outcome(s, a.0, username, a.1))
    }
}

/// How many of those attempts created a user.
pub open spec fn successes(
    users: Seq<UserView>,
    username: Seq<char>,
    attempts: Seq<(Seq<char>, u128)>,
) -> nat
    decreases attempts.len(),
{
    if attempts.len() == 0 {
        0
    } else {
        let s = run_attempts(users, username, attempts.drop_last());
        let a = attempts.last();
        successes(users, username, attempts.drop_last()) + if expected_outcome(
            s,
            a.0,
            username,
            a.1,
        ) is Created {
            1nat
        } else {
            0nat
        }
    }
}

/// However many create attempts share one username, and in whatever order
/// they are served, at most one of them succeeds; none does where the
/// username is already stored, and exactly one does where the first attempt
/// served succeeds.
pub proof fn lemma_one_success_per_username(
    users: Seq<UserView>,
    username: Seq<char>,
    attempts: Seq<(Seq<char>, u128)>,
)
    ensures
        successes(users, username, attempts) <= 1,
        username_taken(users, username) ==> successes(users, username, attempts) == 0,
        successes(users, username, attempts) >= 1 ==> username_taken(
            run_attempts(users, username, attempts),
            username,
        ),
        username_taken(users, username) ==> username_taken(
            run_attempts(users, username, attempts),
            username,
        ),
        attempts.len() > 0 && expected_outcome(users, attempts[0].0, username, attempts[0].1)
            is Created ==> successes(users, username, attempts) == 1,
    decreases attempts.len(),
{
    if attempts.len() > 0 {
        let prefix = attempts.drop_last();
        lemma_one_success_per_username(users, username, prefix);
        if prefix.len() > 0 {
            assert(prefix[0] == attempts[0]);
        }
        let s = run_attempts(users, username, prefix);
        let a = attempts.last();
        let o = expected_outcome(s, a.0, username, a.1);
        if o is Created {
            let u = UserView { id: a.1, email: a.0, username };
            if username_taken(s, username) {
                let i = choose|i: int| 0 <= i < s.len() && #[trigger] s[i].username == username;
                assert(collides(s[i], u));
            }
            let t = s.push(u);
            assert(t[s.len() as int].username == username);
            if username_taken(s, username) {
                let i = choose|i: int| 0 <= i < s.len() && #[trigger] s[i].username == username;
                assert(t[i].username == username);
            }
        }
    }
}

/// How a reply classifies the request.
pub ghost enum Classification {
    Created,
    Validation,
    AlreadyExists,
    Creation,
    Unknown,
}

pub open spec fn status_classification(r: &Result<CreateUserResponse, StatusReply>) -> Classification {
    match r {
        Ok(_) => Classification::Created,
        Err(s) => match s.code {
            StatusCode::InvalidArgument => Classification::Validation,
            StatusCode::AlreadyExists => Classification::AlreadyExists,
            StatusCode::Internal => Classification::Creation,
        },
    }
}

pub open spec fn envelope_classification(r: &CreateUserAltResponse) -> Classification {
    match r.result {
        AltResult::Success(_) => Classification::Created,
        AltResult::Error(d) => if d.code@ == "VALIDATION_ERROR"@ {
            Classification::Validation
        } else if d.code@ == "ALREADY_EXISTS"@ {
            Classification::AlreadyExists
        } else if d.code@ == "CREATION_ERROR"@ {
            Classification::Creation
        } else {
            Classification::Unknown
        },
    }
}

proof fn lemma_codes_differ()
    ensures
        "VALIDATION_ERROR"@ != "ALREADY_EXISTS"@,
        "VALIDATION_ERROR"@ != "CREATION_ERROR"@,
        "ALREADY_EXISTS"@ != "CREATION_ERROR"@,
{
    reveal_strlit("VALIDATION_ERROR");
    reveal_strlit("ALREADY_EXISTS");
    reveal_strlit("CREATION_ERROR");
    assert("VALIDATION_ERROR"@[0] != "ALREADY_EXISTS"@[0]);
    assert("VALIDATION_ERROR"@[0] != "CREATION_ERROR"@[0]);
    assert("ALREADY_EXISTS"@[0] != "CREATION_ERROR"@[0]);
}

/// The two conventions classify every outcome alike.
pub proof fn lemma_encodings_agree(
    o: OutcomeView,
    a: Result<CreateUserResponse, StatusReply>,
    b: CreateUserAltResponse,
)
    requires
        status_encodes(o, &a),
        envelope_encodes(o, &b),
    ensures
        status_classification(&a) == envelope_classification(&b),
{
    lemma_codes_differ();
}

/// The two operations, on the same store and request, both reject an invalid
/// email or username as a validation failure, both reject an email or
/// username already stored as a duplicate, and agree on everything when
/// they draw the same identifier.
pub proof fn lemma_operations_agree(
    users: Seq<UserView>,
    email: Seq<char>,
    username: Seq<char>,
    id_a: u128,
    id_b: u128,
    a: Result<CreateUserResponse, StatusReply>,
    b: CreateUserAltResponse,
)
    requires
        status_encodes(expected_outcome(users, email, username, id_a), &a),
        envelope_encodes(expected_outcome(users, email, username, id_b), &b),
    ensures
        !(email_accepted(email) && username_accepted(username)) ==> status_classification(&a)
            == Classification::Validation && envelope_classification(&b)
            == Classification::Validation,
        email_accepted(email) && username_accepted(username) && names_taken(users, email, username)
            ==> status_classification(&a) == Classification::AlreadyExists
            && envelope_classification(&b) == Classification::AlreadyExists,
        id_a == id_b ==> status_classification(&a) == envelope_classification(&b),
{
    lemma_codes_differ();
    if email_accepted(email) && username_accepted(username) && names_taken(users, email, username) {
        let i = choose|i: int|
            0 <= i < users.len() && (#[trigger] users[i].email == email || users[i].username
                == username);
        assert(collides(users[i], UserView { id: id_a, email, username }));
        assert(collides(users[i], UserView { id: id_b, email, username }));
    }
    if id_a == id_b {
        lemma_encodings_agree(expected_outcome(users, email, username, id_a), a, b);
    }
}

} // verus!
