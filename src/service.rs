use crate::repository::{all_distinct, taken, StorageError, UserRepository};
use crate::user::{email_accepted, username_accepted, username_rule, uuid_text, User, UserError, UserView};
use vstd::prelude::*;
use vstd::string::*;

verus! {

/// The state a newly created user starts in.
#[derive(Clone, Copy, Debug, PartialEq, Eq, Structural)]
pub enum UserStatus {
    Pending,
}

/// A request to create a user.
pub struct CreateUserRequest {
    pub email: String,
    pub username: String,
}

/// The success reply of the status convention.
pub struct CreateUserResponse {
    pub user_id: String,
    pub status: UserStatus,
}

/// The kind of a failure status.
#[derive(Clone, Copy, Debug, PartialEq, Eq, Structural)]
pub enum StatusCode {
    InvalidArgument,
    AlreadyExists,
    Internal,
}

/// The structured, machine-readable part of a failure status.
pub enum ErrorDetail {
    /// A request field and what is wrong with it.
    BadRequest { field: String, description: String },
    /// A failure inside the service: its reason, the domain it comes from
    /// and key/value metadata.
    ErrorInfo { reason: String, domain: String, metadata: Vec<(String, String)> },
}

/// A failure reported through the status convention.
pub struct StatusReply {
    pub code: StatusCode,
    pub message: String,
    pub detail: ErrorDetail,
}

/// The data of a created user in the envelope convention.
pub struct UserData {
    pub user_id: String,
    pub status: UserStatus,
}

/// The error of the envelope convention: a fixed code and a message.
pub struct ErrorDetails {
    pub code: String,
    pub message: String,
}

/// Exactly one of the two shapes of the envelope.
pub enum AltResult {
    Success(UserData),
    Error(ErrorDetails),
}

/// The reply of the envelope convention, which always arrives normally.
pub struct CreateUserAltResponse {
    pub result: AltResult,
}

/// Why a create request failed.
pub enum CreateError {
    /// The email or the username was refused.
    Invalid(UserError),
    /// A stored user already has this identifier, email or username.
    Duplicate,
    /// The store failed.
    Storage(StorageError),
}

/// The abstract outcome of a create request.
pub ghost enum OutcomeView {
    Created(UserView),
    InvalidEmail(Seq<char>),
    InvalidUsername(Seq<char>),
    Duplicate,
    StorageFailure(Seq<char>),
}

pub open spec fn outcome_view(o: &Result<User, CreateError>) -> OutcomeView {
    match o {
        Ok(u) => OutcomeView::Created(u@),
        Err(CreateError::Invalid(UserError::InvalidEmail(e))) => OutcomeView::InvalidEmail(e@),
        Err(CreateError::Invalid(UserError::InvalidUsername(m))) => OutcomeView::InvalidUsername(m@),
        Err(CreateError::Duplicate) => OutcomeView::Duplicate,
        Err(CreateError::Storage(s)) => OutcomeView::StorageFailure(s.description_view()),
    }
}

/// What a create request with `email` and `username` comes to on a store
/// holding `users`, where `id` is the identifier the new user would get.
pub open spec fn expected_outcome(
    users: Seq<UserView>,
    email: Seq<char>,
    username: Seq<char>,
    id: u128,
) -> OutcomeView {
    if !email_accepted(email) {
        OutcomeView::InvalidEmail(email)
    } else if !username_accepted(username) {
        OutcomeView::InvalidUsername(username_rule())
    } else if taken(users, UserView { id, email, username }) {
        OutcomeView::Duplicate
    } else {
        OutcomeView::Created(UserView { id, email, username })
    }
}

/// The store after an outcome: only a creation adds a user.
pub open spec fn store_after(users: Seq<UserView>, o: OutcomeView) -> Seq<UserView> {
    match o {
        OutcomeView::Created(u) => users.push(u),
        _ => users,
    }
}

pub open spec fn duplicate_message() -> Seq<char> {
    "User with this email or username already exists"@
}

/// A validation failure status naming `field`.
pub open spec fn is_bad_request(
    r: &Result<CreateUserResponse, StatusReply>,
    code: StatusCode,
    message: Seq<char>,
    field: Seq<char>,
    description: Seq<char>,
) -> bool {
    match r {
        Err(s) => s.code == code && s.message@ == message && match s.detail {
            ErrorDetail::BadRequest { field: f, description: d } => f@ == field && d@
                == description,
            _ => false,
        },
        _ => false,
    }
}

/// How the status convention encodes an outcome.
pub open spec fn status_encodes(o: OutcomeView, r: &Result<CreateUserResponse, StatusReply>) -> bool {
    match o {
        OutcomeView::Created(u) => match r {
            Ok(resp) => resp.user_id@ == uuid_text(u.id) && resp.status == UserStatus::Pending,
            _ => false,
        },
        OutcomeView::InvalidEmail(e) => is_bad_request(
            r,
            StatusCode::InvalidArgument,
            "Validation error"@,
            "email"@,
            e,
        ),
        OutcomeView::InvalidUsername(m) => is_bad_request(
            r,
            StatusCode::InvalidArgument,
            "Validation error"@,
            "username"@,
            m,
        ),
        OutcomeView::Duplicate => is_bad_request(
            r,
            StatusCode::AlreadyExists,
            "Resource already exists"@,
            "user"@,
            duplicate_message(),
        ),
        OutcomeView::StorageFailure(d) => match r {
            Err(s) => s.code == StatusCode::Internal && s.message@ == "could not create user"@
                && match s.detail {
                ErrorDetail::ErrorInfo { reason, domain, metadata } => reason@
                    == "could not create user"@ && domain@ == "UserService"@ && metadata@.len()
                    == 2 && metadata@[0].0@ == "error_type"@ && metadata@[0].1@
                    == "database_error"@ && metadata@[1].0@ == "error_detail"@ && metadata@[1].1@
                    == d,
                _ => false,
            },
            _ => false,
        },
    }
}

/// An envelope that carries an error with `code` and `message`.
pub open spec fn is_error_envelope(r: &CreateUserAltResponse, code: Seq<char>, message: Seq<char>) -> bool {
    match r.result {
        AltResult::Error(d) => d.code@ == code && d.message@ == message,
        _ => false,
    }
}

/// How the envelope convention encodes an outcome.
pub open spec fn envelope_encodes(o: OutcomeView, r: &CreateUserAltResponse) -> bool {
    match o {
        OutcomeView::Created(u) => match r.result {
            AltResult::Success(d) => d.user_id@ == uuid_text(u.id) && d.status
                == UserStatus::Pending,
            _ => false,
        },
        OutcomeView::InvalidEmail(e) => is_error_envelope(
            r,
            "VALIDATION_ERROR"@,
            "Invalid email format: "@ + e,
        ),
        OutcomeView::InvalidUsername(m) => is_error_envelope(
            r,
            "VALIDATION_ERROR"@,
            "Invalid username: "@ + m,
        ),
        OutcomeView::Duplicate => is_error_envelope(r, "ALREADY_EXISTS"@, duplicate_message()),
        OutcomeView::StorageFailure(d) => is_error_envelope(
            r,
            "CREATION_ERROR"@,
            "Failed to create user: "@ + d,
        ),
    }
}

fn text(s: &str) -> (r: String)
    ensures
        r@ == s@,
{
    String::from_str(s)
}

fn bad_request(code: StatusCode, message: &str, field: &str, description: String) -> (r:
    StatusReply)
    ensures
        is_bad_request(&Err(r), code, message@, field@, description@),
{
    StatusReply {
        code,
        message: text(message),
        detail: ErrorDetail::BadRequest { field: text(field), description },
    }
}

/// Encodes an outcome in the status convention.
pub fn status_reply(o: Result<User, CreateError>) -> (r: Result<CreateUserResponse, StatusReply>)
    ensures
        status_encodes(outcome_view(&o), &r),
{
    match o {
        Ok(u) => Ok(CreateUserResponse { user_id: u.id_string(), status: UserStatus::Pending }),
        Err(CreateError::Invalid(UserError::InvalidEmail(e))) => Err(
            bad_request(StatusCode::InvalidArgument, "Validation error", "email", e),
        ),
        Err(CreateError::Invalid(UserError::InvalidUsername(m))) => Err(
            bad_request(StatusCode::InvalidArgument, "Validation error", "username", m),
        ),
        Err(CreateError::Duplicate) => Err(
            bad_request(
                StatusCode::AlreadyExists,
                "Resource already exists",
                "user",
                text("User with this email or username already exists"),
            ),
        ),
        Err(CreateError::Storage(s)) => {
            let metadata = vec![
                (text("error_type"), text("database_error")),
                (text("error_detail"), s.description()),
            ];
            Err(
                StatusReply {
                    code: StatusCode::Internal,
                    message: text("could not create user"),
                    detail: ErrorDetail::ErrorInfo {
                        reason: text("could not create user"),
                        domain: text("UserService"),
                        metadata,
                    },
                },
            )
        },
    }
}

fn error_envelope(code: &str, message: String) -> (r: CreateUserAltResponse)
    ensures
        is_error_envelope(&r, code@, message@),
{
    CreateUserAltResponse { result: AltResult::Error(ErrorDetails { code: text(code), message }) }
}

/// Encodes an outcome in the envelope convention.
pub fn envelope(o: Result<User, CreateError>) -> (r: CreateUserAltResponse)
    ensures
        envelope_encodes(outcome_view(&o), &r),
{
    match o {
        Ok(u) => CreateUserAltResponse {
            result: AltResult::Success(
                UserData { user_id: u.id_string(), status: UserStatus::Pending },
            ),
        },
        Err(CreateError::Invalid(e)) => error_envelope("VALIDATION_ERROR", e.message()),
        Err(CreateError::Duplicate) => error_envelope(
            "ALREADY_EXISTS",
            text("User with this email or username already exists"),
        ),
        Err(CreateError::Storage(s)) => error_envelope(
            "CREATION_ERROR",
            text("Failed to create user: ").concat(s.description().as_str()),
        ),
    }
}

/// What the service makes of a candidate on a store holding `users`: a
/// refused candidate keeps its reason, a colliding one is a duplicate, any
/// other is created.
pub open spec fn candidate_outcome(users: Seq<UserView>, candidate: &Result<User, UserError>) -> OutcomeView {
    match candidate {
        Err(UserError::InvalidEmail(e)) => OutcomeView::InvalidEmail(e@),
        Err(UserError::InvalidUsername(m)) => OutcomeView::InvalidUsername(m@),
        Ok(u) => if taken(users, u@) {
            OutcomeView::Duplicate
        } else {
            OutcomeView::Created(u@)
        },
    }
}

/// Handles create requests on a store it owns. Holding the store by `&mut`
/// makes each check-then-create step one uninterrupted unit.
pub struct UserServiceImpl {
    repository: UserRepository,
}

impl View for UserServiceImpl {
    type V = Seq<UserView>;

    closed spec fn view(&self) -> Seq<UserView> {
        self.repository@
    }
}

impl UserServiceImpl {
    pub fn new(repository: UserRepository) -> (r: UserServiceImpl)
        ensures
            r@ == repository@,
    {
        UserServiceImpl { repository }
    }

    /// The business operation shared by both conventions: a valid candidate
    /// is stored unless it collides with a stored user.
    pub fn register(&mut self, candidate: Result<User, UserError>) -> (r: Result<User, CreateError>)
        ensures
            outcome_view(&r) == candidate_outcome(old(self)@, &candidate),
            final(self)@ == store_after(old(self)@, outcome_view(&r)),
            all_distinct(old(self)@) ==> all_distinct(final(self)@),
    {
        let user = match candidate {
            Ok(user) => user,
            Err(e) => {
                return Err(CreateError::Invalid(e));
            },
        };
        if self.repository.user_exists(&user) {
            return Err(CreateError::Duplicate);
        }
        match self.repository.create(user) {
            Ok(u) => Ok(u),
            Err(e) => Err(CreateError::Storage(e)),
        }
    }

    /// Validates and stores a user, reporting failures through a status with
    /// structured details.
    pub fn create_user(&mut self, request: CreateUserRequest) -> (r: Result<
        CreateUserResponse,
        StatusReply,
    >)
        ensures
            exists|id: u128|
                {
                    let o = #[trigger] expected_outcome(
                        old(self)@,
                        request.email@,
                        request.username@,
                        id,
                    );
                    &&& status_encodes(o, &r)
                    &&& final(self)@ == store_after(old(self)@, o)
                },
            all_distinct(old(self)@) ==> all_distinct(final(self)@),
    {
        let ghost users = self@;
        let ghost email = request.email@;
        let ghost username = request.username@;
        let candidate = User::new(request.email, request.username);
        let ghost id: u128 = match &candidate {
            Ok(u) => u@.id,
            Err(_) => 0,
        };
        let o = self.register(candidate);
        assert(outcome_view(&o) == expected_outcome(users, email, username, id));
        let r = status_reply(o);
        r
    }

    /// Validates and stores a user, reporting the outcome inside a reply that
    /// always arrives normally.
    pub fn create_user_alt(&mut self, request: CreateUserRequest) -> (r: CreateUserAltResponse)
        ensures
            exists|id: u128|
                {
                    let o = #[trigger] expected_outcome(
                        old(self)@,
                        request.email@,
                        request.username@,
                        id,
                    );
                    &&& envelope_encodes(o, &r)
                    &&& final(self)@ == store_after(old(self)@, o)
                },
            all_distinct(old(self)@) ==> all_distinct(final(self)@),
    {
        let ghost users = self@;
        let ghost email = request.email@;
        let ghost username = request.username@;
        let candidate = User::new(request.email, request.username);
        let ghost id: u128 = match &candidate {
            Ok(u) => u@.id,
            Err(_) => 0,
        };
        let o = self.register(candidate);
        assert(outcome_view(&o) == expected_outcome(users, email, username, id));
        envelope(o)
    }

    /// The users stored so far.
    pub fn user_count(&self) -> (r: usize)
        ensures
            r == self@.len(),
    {
        self.repository.len()
    }
}

} // verus!
