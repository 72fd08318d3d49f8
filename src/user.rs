use vstd::prelude::*;
use vstd::string::*;

verus! {

/// The text that explains a rejected username.
pub open spec fn username_rule() -> Seq<char> {
    "Username must be between 3 and 30 characters and contain only alphanumeric characters and underscores"@
}

pub fn username_rule_text() -> (r: String)
    ensures
        r@ == username_rule(),
{
    String::from_str(
        "Username must be between 3 and 30 characters and contain only alphanumeric characters and underscores",
    )
}

/// What `email_address` decides of an address: whether it parses as an
/// email address.
pub uninterp spec fn email_accepted(s: Seq<char>) -> bool;

/// Relies on `email_address::EmailAddress::is_valid`: whether the text parses
/// as an email address, which depends on the text alone.
#[verifier::external_body]
fn email_parses(s: &str) -> (r: bool)
    ensures
        r == email_accepted(s@),
{
    email_address::EmailAddress::is_valid(s)
}

pub open spec fn is_ascii_letter(c: char) -> bool {
    ('a' <= c && c <= 'z') || ('A' <= c && c <= 'Z')
}

pub open spec fn is_ascii_digit(c: char) -> bool {
    '0' <= c && c <= '9'
}

/// A character that may follow the first one of a username.
pub open spec fn is_username_tail_char(c: char) -> bool {
    is_ascii_letter(c) || is_ascii_digit(c) || c == '_'
}

/// A username has 3 to 30 characters, starts with an ASCII letter and
/// continues with ASCII letters, digits and underscores.
pub open spec fn username_accepted(s: Seq<char>) -> bool {
    &&& 3 <= s.len() <= 30
    &&& is_ascii_letter(s[0])
    &&& forall|i: int| 1 <= i < s.len() ==> #[trigger] is_username_tail_char(s[i])
}

fn is_letter(c: char) -> (r: bool)
    ensures
        r == is_ascii_letter(c),
{
    ('a' <= c && c <= 'z') || ('A' <= c && c <= 'Z')
}

fn is_tail_char(c: char) -> (r: bool)
    ensures
        r == is_username_tail_char(c),
{
    is_letter(c) || ('0' <= c && c <= '9') || c == '_'
}

/// Whether `username` is an acceptable username.
pub fn is_valid_username(username: &str) -> (r: bool)
    ensures
        r == username_accepted(username@),
{
    let n = username.unicode_len();
    if n < 3 || n > 30 {
        return false;
    }
    if !is_letter(username.get_char(0)) {
        return false;
    }
    let mut i: usize = 1;
    while i < n
        invariant
            1 <= i <= n,
            n == username@.len(),
            forall|j: int| 1 <= j < i ==> #[trigger] is_username_tail_char(username@[j]),
        decreases n - i,
    {
        if !is_tail_char(username.get_char(i)) {
            return false;
        }
        i = i + 1;
    }
    true
}

/// Whether `email` is a well-formed email address.
pub fn is_valid_email(email: &str) -> (r: bool)
    ensures
        r == email_accepted(email@),
{
    email_parses(email)
}

/// The text form of an identifier, as `uuid` writes it.
pub uninterp spec fn uuid_text(id: u128) -> Seq<char>;

/// Relies on `uuid::Uuid::new_v4`: a random version-4 UUID, taken as its
/// 128-bit value. Nothing is promised of the value.
#[verifier::external_body]
fn random_id() -> (r: u128) {
    uuid::Uuid::new_v4().as_u128()
}

/// Relies on `uuid::Uuid::from_u128` and `Display` for `Uuid`: the
/// hyphenated lower-case form, 32 hex digits and 4 hyphens.
#[verifier::external_body]
pub(crate) fn id_text(id: u128) -> (r: String)
    ensures
        r@ == uuid_text(id),
        r@.len() == 36,
{
    uuid::Uuid::from_u128(id).to_string()
}

/// Why a candidate user was refused.
pub enum UserError {
    /// The email is not well formed; holds the email.
    InvalidEmail(String),
    /// The username breaks the username rule; holds the rule.
    InvalidUsername(String),
}

impl UserError {
    pub open spec fn message_view(&self) -> Seq<char> {
        match self {
            UserError::InvalidEmail(e) => "Invalid email format: "@ + e@,
            UserError::InvalidUsername(m) => "Invalid username: "@ + m@,
        }
    }

    /// The human-readable description of the error.
    pub fn message(&self) -> (r: String)
        ensures
            r@ == self.message_view(),
    {
        match self {
            UserError::InvalidEmail(e) => String::from_str("Invalid email format: ").concat(e.as_str()),
            UserError::InvalidUsername(m) => String::from_str("Invalid username: ").concat(m.as_str()),
        }
    }
}

/// The abstract content of a user.
pub ghost struct UserView {
    pub id: u128,
    pub email: Seq<char>,
    pub username: Seq<char>,
}

/// Two users that could not both be stored: they share an identifier, an
/// email or a username.
pub open spec fn collides(a: UserView, b: UserView) -> bool {
    a.id == b.id || a.email == b.email || a.username == b.username
}

/// One registered account. Its fields never change once built.
pub struct User {
    id: u128,
    email: String,
    username: String,
}

impl View for User {
    type V = UserView;

    closed spec fn view(&self) -> UserView {
        UserView { id: self.id, email: self.email@, username: self.username@ }
    }
}

/// What building a user from `email` and `username` gives: the email is
/// checked first, then the username, and a user holds both as given.
pub open spec fn built_from(r: Result<User, UserError>, email: Seq<char>, username: Seq<char>) -> bool {
    if !email_accepted(email) {
        (r matches Err(UserError::InvalidEmail(e)) && e@ == email)
    } else if !username_accepted(username) {
        (r matches Err(UserError::InvalidUsername(m)) && m@ == username_rule())
    } else {
        (r matches Ok(u) && u@.email == email && u@.username == username)
    }
}

impl User {
    /// Builds a user with the given identifier from an email and a username,
    /// checking the email first and then the username.
    pub fn with_id(email: String, username: String, id: u128) -> (r: Result<User, UserError>)
        ensures
            built_from(r, email@, username@),
            r is Ok ==> r->Ok_0@.id == id,
    {
        if !is_valid_email(email.as_str()) {
            return Err(UserError::InvalidEmail(email));
        }
        if !is_valid_username(username.as_str()) {
            return Err(UserError::InvalidUsername(username_rule_text()));
        }
        Ok(User { id, email, username })
    }

    /// Builds a user with a fresh random identifier, checking the email first
    /// and then the username.
    pub fn new(email: String, username: String) -> (r: Result<User, UserError>)
        ensures
            built_from(r, email@, username@),
    {
        if !is_valid_email(email.as_str()) {
            return Err(UserError::InvalidEmail(email));
        }
        if !is_valid_username(username.as_str()) {
            return Err(UserError::InvalidUsername(username_rule_text()));
        }
        let id = random_id();
        User::with_id(email, username, id)
    }

    pub fn id(&self) -> (r: u128)
        ensures
            r == self@.id,
    {
        self.id
    }

    pub fn email(&self) -> (r: &str)
        ensures
            r@ == self@.email,
    {
        self.email.as_str()
    }

    pub fn username(&self) -> (r: &str)
        ensures
            r@ == self@.username,
    {
        self.username.as_str()
    }

    /// Whether the two users share an identifier, an email or a username.
    pub fn collides_with(&self, other: &User) -> (r: bool)
        ensures
            r == collides(self@, other@),
    {
        self.id == other.id || self.email == other.email || self.username == other.username
    }

    /// The identifier in its text form.
    pub fn id_string(&self) -> (r: String)
        ensures
            r@ == uuid_text(self@.id),
    {
        id_text(self.id)
    }
}

impl Clone for User {
    fn clone(&self) -> (r: User)
        ensures
            r@ == self@,
    {
        User { id: self.id, email: self.email.clone(), username: self.username.clone() }
    }
}

} // verus!
