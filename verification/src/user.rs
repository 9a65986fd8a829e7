use vstd::prelude::*;
use vstd::utf8::encode_utf8;

use password_auth::VerifyError;

use crate::error::AppError;
use crate::models::UserRecord;

verus! {

/// Credentials as typed into the login form, not yet checked.
pub struct UnauthenticatedUser {
    username: String,
    password: String,
}

/// Typed-in credentials as plain text.
pub struct CredentialsView {
    pub username: Seq<char>,
    pub password: Seq<char>,
}

impl View for UnauthenticatedUser {
    type V = CredentialsView;

    closed spec fn view(&self) -> CredentialsView {
        CredentialsView { username: self.username@, password: self.password@ }
    }
}

impl UnauthenticatedUser {
    pub fn new(username: String, password: String) -> (r: Self)
        ensures
            r@ == (CredentialsView { username: username@, password: password@ }),
    {
        Self { username, password }
    }
}

/// An authenticated user: the database id and the user name.
pub struct User {
    id: i64,
    username: String,
}

/// A user as plain values.
pub struct UserView {
    pub id: i64,
    pub username: Seq<char>,
}

impl View for User {
    type V = UserView;

    closed spec fn view(&self) -> UserView {
        UserView { id: self.id, username: self.username@ }
    }
}

impl User {
    pub fn new(id: i64, username: String) -> (r: Self)
        ensures
            r@ == (UserView { id, username: username@ }),
    {
        Self { id, username }
    }

    pub fn username(&self) -> (r: &String)
        ensures
            r@ == self@.username,
    {
        &self.username
    }

    pub fn id(&self) -> (r: i64)
        ensures
            r == self@.id,
    {
        self.id
    }
}

/// What `password_auth::verify_password` answers for a password and a
/// stored hash: `Some(true)` when the password verifies, `Some(false)`
/// when it does not, `None` when the hash does not parse.
pub uninterp spec fn password_verdict(password: Seq<char>, hash: Seq<char>) -> Option<bool>;

/// `password_auth::verify_password`, its three outcomes told apart; the
/// result is named by `password_verdict` of the password and the hash.
#[verifier::external_body]
fn check_password(password: &str, hash: &str) -> (verdict: Option<bool>)
    ensures
        verdict == password_verdict(password@, hash@),
{
    match password_auth::verify_password(password, hash) {
        Ok(()) => Some(true),
        Err(VerifyError::PasswordInvalid) => Some(false),
        Err(VerifyError::Parse(_)) => None,
    }
}

/// `password_auth::generate_hash`: an Argon2 hash of the password under a
/// fresh random salt, so the result itself is not stated; what is stated
/// is what the crate's own tests check: the hash parses (it is the PHC
/// string that `PasswordHash`'s `Display` writes, which `PasswordHash::new`
/// reads back), so every password gets a verdict against it, and the
/// password itself verifies against it. Hashing fails, and the function
/// panics, on a password of more than `u32::MAX` bytes.
#[verifier::external_body]
fn generate_hash(password: &str) -> (hash: String)
    requires
        encode_utf8(password@).len() <= u32::MAX,
    ensures
        password_verdict(password@, hash@) == Some(true),
        forall|any: Seq<char>| #[trigger] password_verdict(any, hash@) is Some,
{
    password_auth::generate_hash(password)
}

/// Whether a stored hash parses, asked through `password_auth::is_hash_obsolete`,
/// which parses the hash exactly as `verify_password` does
/// (`PasswordHash::new`) and fails only where that parse fails. Since the
/// parse is the only step of `verify_password` that depends on the hash
/// alone and its only source of an undecided answer, every password gets
/// a verdict against a hash that parses, and none against one that does not.
#[verifier::external_body]
fn hash_parses(hash: &str) -> (parses: bool)
    ensures
        forall|any: Seq<char>| parses == (#[trigger] password_verdict(any, hash@) is Some),
{
    password_auth::is_hash_obsolete(hash).is_ok()
}

/// Whether a driver error reports a violated unique constraint
/// (`DatabaseError::is_unique_violation`). Nothing is stated: the answer
/// rests on the database's error code, which the driver keeps opaque.
#[verifier::external_body]
fn is_unique_violation(e: &sqlx::Error) -> bool {
    match e {
        sqlx::Error::Database(db_err) => db_err.is_unique_violation(),
        _ => false,
    }
}

/// The user of a database record.
pub open spec fn record_user(record: UserRecord) -> UserView {
    UserView { id: record.id, username: record.username@ }
}

/// An outcome with the user taken as plain values.
pub open spec fn outcome_view(r: Result<User, AppError>) -> Result<UserView, AppError> {
    match r {
        Ok(user) => Ok(user@),
        Err(e) => Err(e),
    }
}

/// The outcome of signing in with `password`, given what looking the user
/// name up gave: a failed lookup and an unknown name are refused, and a
/// known user signs in exactly when the password verifies against the
/// stored hash. `None` where the stored hash does not parse: there the
/// service cannot decide and stops.
pub open spec fn authentication_outcome(
    password: Seq<char>,
    found: Result<Option<UserRecord>, sqlx::Error>,
) -> Option<Result<UserView, AppError>> {
    match found {
        Err(e) => Some(Err(AppError::Database(e))),
        Ok(None) => Some(Err(AppError::UserDoesNotExist)),
        Ok(Some(record)) => match password_verdict(password, record.password_hash@) {
            Some(true) => Some(Ok(record_user(record))),
            Some(false) => Some(Err(AppError::InvalidCredentials)),
            None => None,
        },
    }
}

/// The outcome of registering, given what inserting the new user gave and
/// whether a failure was a violated unique constraint.
pub open spec fn registration_outcome(
    inserted: Result<UserRecord, sqlx::Error>,
    unique_violation: bool,
) -> Result<UserView, AppError> {
    match inserted {
        Ok(record) => Ok(record_user(record)),
        Err(e) => if unique_violation {
            Err(AppError::UsernameTaken)
        } else {
            Err(AppError::Database(e))
        },
    }
}

impl UnauthenticatedUser {
    /// The outcome of a login attempt, given what looking the user name up
    /// in the database gave. The stored hash must parse: where it does not,
    /// the service cannot tell a right password from a wrong one and stops.
    pub fn authenticate(&self, found: Result<Option<UserRecord>, sqlx::Error>) -> (r: Result<
        User,
        AppError,
    >)
        requires
            authentication_outcome(self@.password, found) is Some,
        ensures
            Some(outcome_view(r)) == authentication_outcome(self@.password, found),
    {
        let record = match found {
            Ok(Some(record)) => record,
            Ok(None) => return Err(AppError::UserDoesNotExist),
            Err(e) => return Err(AppError::Database(e)),
        };
        match check_password(self.password.as_str(), record.password_hash.as_str()) {
            Some(true) => Ok(User::new(record.id, record.username)),
            _ => Err(AppError::InvalidCredentials),
        }
    }

    /// Like `authenticate`, for any lookup result: `None` exactly where the
    /// stored hash does not parse (where the service stops).
    pub fn try_authenticate(&self, found: Result<Option<UserRecord>, sqlx::Error>) -> (r: Option<
        Result<User, AppError>,
    >)
        ensures
            r matches Some(outcome) ==> authentication_outcome(self@.password, found) == Some(
                outcome_view(outcome),
            ),
            r is None ==> authentication_outcome(self@.password, found) is None,
    {
        if let Ok(Some(record)) = &found {
            if !hash_parses(record.password_hash.as_str()) {
                proof {
                    assert(password_verdict(self@.password, record.password_hash@) is None);
                }
                return None;
            }
            proof {
                assert(password_verdict(self@.password, record.password_hash@) is Some);
            }
        }
        Some(self.authenticate(found))
    }

    /// A fresh hash of the password, to be stored for a new user; the
    /// password verifies against it, and every password gets a verdict.
    pub fn password_hash(&self) -> (hash: String)
        requires
            encode_utf8(self@.password).len() <= u32::MAX,
        ensures
            password_verdict(self@.password, hash@) == Some(true),
            forall|any: Seq<char>| #[trigger] password_verdict(any, hash@) is Some,
    {
        generate_hash(self.password.as_str())
    }

    /// The outcome of a registration, given what inserting the new user
    /// gave and whether a failure was a violated unique constraint (the
    /// user name is taken).
    pub fn registration_result(
        inserted: Result<UserRecord, sqlx::Error>,
        unique_violation: bool,
    ) -> (r: Result<User, AppError>)
        ensures
            outcome_view(r) == registration_outcome(inserted, unique_violation),
    {
        match inserted {
            Ok(record) => Ok(User::new(record.id, record.username)),
            Err(e) => if unique_violation {
                Err(AppError::UsernameTaken)
            } else {
                Err(AppError::Database(e))
            },
        }
    }

    /// The outcome of a registration, given what inserting the new user
    /// gave: a taken user name is reported as such, other failures of the
    /// database are passed on.
    pub fn register(self, inserted: Result<UserRecord, sqlx::Error>) -> (r: Result<User, AppError>)
        ensures
            exists|unique_violation: bool|
                outcome_view(r) == #[trigger] registration_outcome(inserted, unique_violation),
    {
        let unique_violation = match &inserted {
            Ok(_) => false,
            Err(e) => is_unique_violation(e),
        };
        let r = Self::registration_result(inserted, unique_violation);
        assert(outcome_view(r) == registration_outcome(inserted, unique_violation));
        r
    }
}

/// What the login form does after an authentication attempt.
pub enum LoginStep {
    /// Signed in as this user.
    SignedIn(User),
    /// The name is unknown: register it with the given password.
    Register,
    /// Refused with this error.
    Refused(AppError),
}

/// The login decision: a known user with the right password signs in, an
/// unknown user name is registered, any other failure is final.
pub fn login_step(attempt: Result<User, AppError>) -> (step: LoginStep)
    ensures
        attempt matches Ok(user) ==> step == LoginStep::SignedIn(user),
        attempt matches Err(e) ==> step == (if e is UserDoesNotExist {
            LoginStep::Register
        } else {
            LoginStep::Refused(e)
        }),
{
    match attempt {
        Ok(user) => LoginStep::SignedIn(user),
        Err(AppError::UserDoesNotExist) => LoginStep::Register,
        Err(other) => LoginStep::Refused(other),
    }
}

/// The session token read from the request's `token` cookie, or the
/// failure of a request that carries none.
pub fn require_token(token: Option<String>) -> (r: Result<String, AppError>)
    ensures
        token matches Some(t) ==> r == Ok::<String, AppError>(t),
        token is None ==> r == Err::<String, AppError>(AppError::MissingAuthorization),
{
    match token {
        Some(t) => Ok(t),
        None => Err(AppError::MissingAuthorization),
    }
}

impl User {
    /// The signed-in user, given what looking the token's user id up in the
    /// database gave: the record's id and name; a user who no longer exists
    /// is refused.
    pub fn from_lookup(found: Result<Option<UserRecord>, sqlx::Error>) -> (r: Result<
        User,
        AppError,
    >)
        ensures
            found matches Err(e) ==> r == Err::<User, AppError>(AppError::Database(e)),
            found matches Ok(None) ==> r == Err::<User, AppError>(AppError::UserDoesNotExist),
            found matches Ok(Some(record)) ==> (r matches Ok(user) && user@ == record_user(record)),
    {
        match found {
            Ok(Some(record)) => Ok(User::new(record.id, record.username)),
            Ok(None) => Err(AppError::UserDoesNotExist),
            Err(e) => Err(AppError::Database(e)),
        }
    }
}

} // verus!