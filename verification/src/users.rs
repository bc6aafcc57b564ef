//! The users of the server, and what signing up and logging in ask of them.

use bcrypt::BcryptError;
use crate::pattern::{find_first, regex_first_match};
use crate::text::{chars_of, concat2, matches_at, occurs_at, same_text};
use vstd::prelude::*;
use vstd::string::{StrSliceExecFns, StringExecFns};

verus! {

/// A user as the session knows them.
#[derive(Debug, PartialEq, Eq)]
pub struct User {
    pub username: String,
    pub anonymous: bool,
}

impl Clone for User {
    fn clone(&self) -> (copy: User)
        ensures
            copy.username@ == self.username@,
            copy.anonymous == self.anonymous,
    {
        User { username: self.username.clone(), anonymous: self.anonymous }
    }
}

impl Default for User {
    /// The guest: anonymous, and called `Guest`.
    fn default() -> (user: User)
        ensures
            user.username@ == "Guest"@,
            user.anonymous,
    {
        User { username: "Guest".to_owned(), anonymous: true }
    }
}

impl User {
    /// Whether the user has logged in: whoever is not anonymous has.
    pub fn is_authenticated(&self) -> (authenticated: bool)
        ensures
            authenticated == !self.anonymous,
    {
        !self.anonymous
    }

    /// Whether the user may act. Every user may.
    pub fn is_active(&self) -> (active: bool)
        ensures
            active,
    {
        true
    }

    /// Whether the user is the guest.
    pub fn is_anonymous(&self) -> (anonymous: bool)
        ensures
            anonymous == self.anonymous,
    {
        self.anonymous
    }
}

/// A user as the database holds them.
#[derive(Debug, PartialEq, Eq)]
pub struct SqlUser {
    pub username: String,
    pub password_hash: String,
}

impl SqlUser {
    /// The user of a record: of the same name, and not anonymous.
    pub fn into_user(self) -> (user: User)
        ensures
            user.username@ == self.username@,
            !user.anonymous,
    {
        User { username: self.username, anonymous: false }
    }
}

/// Why the server turned a request down.
#[derive(Clone, Copy, Debug, PartialEq, Eq)]
pub enum ServerError {
    PoolMissing,
    AuthSessionMissing,
    UsernameTaken,
    UsernameInvalid,
    PasswordMismatch,
    CreateUserFailed,
    UserMissing,
    IncorrectPassword,
    AuthenticationRequired,
    ReadFailed,
    NoteTooLong,
}

impl ServerError {
    /// The message of the error.
    pub open spec fn message_text(self) -> Seq<char> {
        match self {
            ServerError::PoolMissing => "Pool missing"@,
            ServerError::AuthSessionMissing => "Auth session missing"@,
            ServerError::UsernameTaken => "Username is taken"@,
            ServerError::UsernameInvalid => "Username is invalid"@,
            ServerError::PasswordMismatch => "Passwords did not match"@,
            ServerError::CreateUserFailed => "Failed to create user"@,
            ServerError::UserMissing => "User does not exist"@,
            ServerError::IncorrectPassword => "Incorrect password"@,
            ServerError::AuthenticationRequired => "Authentication required"@,
            ServerError::ReadFailed => "Error reading markdown file"@,
            ServerError::NoteTooLong => "Note is too long"@,
        }
    }

    /// The message of the error.
    pub fn message(&self) -> (message: &'static str)
        ensures
            message@ == self.message_text(),
    {
        match self {
            ServerError::PoolMissing => "Pool missing",
            ServerError::AuthSessionMissing => "Auth session missing",
            ServerError::UsernameTaken => "Username is taken",
            ServerError::UsernameInvalid => "Username is invalid",
            ServerError::PasswordMismatch => "Passwords did not match",
            ServerError::CreateUserFailed => "Failed to create user",
            ServerError::UserMissing => "User does not exist",
            ServerError::IncorrectPassword => "Incorrect password",
            ServerError::AuthenticationRequired => "Authentication required",
            ServerError::ReadFailed => "Error reading markdown file",
            ServerError::NoteTooLong => "Note is too long",
        }
    }
}

/// The pattern of the characters that a username is made of.
pub open spec fn username_pattern() -> Seq<char> {
    "[a-zA-Z0-9_-]+"@
}

/// A username is valid when the leftmost match of [`username_pattern`] in it
/// is the whole of it.
pub open spec fn valid_username(username: Seq<char>) -> bool {
    regex_first_match(username_pattern(), username) == Some(username)
}

/// Whether what was found in a username is the whole of it.
pub fn is_whole_match(username: &str, found: &Option<String>) -> (whole: bool)
    ensures
        whole == (found.deep_view() == Some(username@)),
{
    match found {
        Some(mat) => same_text(username, mat.as_str()),
        None => false,
    }
}

/// Whether a username is valid.
pub fn validate_username(username: &str) -> (valid: bool)
    ensures
        valid == valid_username(username@),
{
    let found = find_first("[a-zA-Z0-9_-]+", username);
    is_whole_match(username, &found)
}

/// What signing up creates for a user in the data directory.
#[derive(Debug, PartialEq, Eq)]
pub struct SignupPlan {
    /// The directory of the user's notes.
    pub notes_dir: String,
    /// The directory of the user's media.
    pub resources_dir: String,
    /// The first note, created empty.
    pub index_file: String,
}

/// The view of a [`SignupPlan`].
pub struct PlanView {
    pub notes_dir: Seq<char>,
    pub resources_dir: Seq<char>,
    pub index_file: Seq<char>,
}

impl View for SignupPlan {
    type V = PlanView;

    open spec fn view(&self) -> PlanView {
        PlanView {
            notes_dir: self.notes_dir@,
            resources_dir: self.resources_dir@,
            index_file: self.index_file@,
        }
    }
}

/// The directories and the file of a user.
pub open spec fn plan_for(data_dir: Seq<char>, username: Seq<char>) -> PlanView {
    let user_dir = data_dir + "/"@ + username;
    PlanView {
        notes_dir: user_dir + "/notes"@,
        resources_dir: user_dir + "/resources"@,
        index_file: user_dir + "/notes/index.md"@,
    }
}

/// What signing up comes to. A name that is taken is turned down first, then
/// a name that is not valid, then a password that differs from its
/// confirmation; else the user's directories are to be created.
pub open spec fn signup_outcome(
    data_dir: Seq<char>,
    taken: bool,
    username: Seq<char>,
    password: Seq<char>,
    password_confirmation: Seq<char>,
) -> Result<PlanView, ServerError> {
    if taken {
        Err(ServerError::UsernameTaken)
    } else if !valid_username(username) {
        Err(ServerError::UsernameInvalid)
    } else if password != password_confirmation {
        Err(ServerError::PasswordMismatch)
    } else {
        Ok(plan_for(data_dir, username))
    }
}

/// The view of the result of signing up.
pub open spec fn plan_result(result: Result<SignupPlan, ServerError>) -> Result<
    PlanView,
    ServerError,
> {
    match result {
        Ok(plan) => Ok(plan@),
        Err(e) => Err(e),
    }
}

/// Decides on a signup; `taken` says whether the name is a user's already.
pub fn signup(
    data_dir: &str,
    taken: bool,
    username: &str,
    password: &str,
    password_confirmation: &str,
) -> (result: Result<SignupPlan, ServerError>)
    ensures
        plan_result(result) == signup_outcome(
            data_dir@,
            taken,
            username@,
            password@,
            password_confirmation@,
        ),
{
    if taken {
        return Err(ServerError::UsernameTaken);
    }
    if !validate_username(username) {
        return Err(ServerError::UsernameInvalid);
    }
    if !same_text(password, password_confirmation) {
        return Err(ServerError::PasswordMismatch);
    }
    let mut user_dir = concat2(data_dir, "/");
    user_dir.append(username);
    Ok(
        SignupPlan {
            notes_dir: concat2(user_dir.as_str(), "/notes"),
            resources_dir: concat2(user_dir.as_str(), "/resources"),
            index_file: concat2(user_dir.as_str(), "/notes/index.md"),
        },
    )
}

/// The page of a user's first note.
pub open spec fn home_of(username: Seq<char>) -> Seq<char> {
    "/"@ + username + "/notes/index.md"@
}

/// The page of a user's first note.
pub fn home_page(username: &str) -> (page: String)
    ensures
        page@ == home_of(username@),
{
    let mut page = concat2("/", username);
    page.append("/notes/index.md");
    page
}

/// Where the logo leads: to the first note of a user who has logged in, to
/// the front page for anyone else.
pub fn logo_link(user: &Option<User>) -> (link: String)
    ensures
        link@ == (match user {
            Some(u) if !u.anonymous => home_of(u.username@),
            _ => "/home"@,
        }),
{
    match user {
        Some(u) if u.is_authenticated() => home_page(u.username.as_str()),
        _ => "/home".to_owned(),
    }
}

/// Whether a user may see what belongs to `owner`: the user has logged in and
/// is the owner.
pub fn may_access(user: &Option<User>, owner: &str) -> (allowed: bool)
    ensures
        allowed == (user matches Some(u) && !u.anonymous && u.username@ == owner@),
{
    match user {
        Some(u) => u.is_authenticated() && same_text(u.username.as_str(), owner),
        None => false,
    }
}

/// The cost at which passwords are hashed: the default of `bcrypt`.
pub const HASH_COST: u32 = 12;

#[verifier::external_type_specification]
#[verifier::external_body]
pub struct ExBcryptError(BcryptError);

/// What `bcrypt::verify` answers for a password and a hash: whether they
/// match, and `None` where it cannot read the hash.
pub uninterp spec fn bcrypt_verify(password: Seq<char>, hash: Seq<char>) -> Option<bool>;

/// Calls `bcrypt::verify`, which recomputes the hash from the password with
/// the salt and the cost that the hash names, and compares. The two arguments
/// decide the answer, and the contract names it [`bcrypt_verify`].
#[verifier::external_body]
fn verify_password(password: &str, hash: &str) -> (matches: Result<bool, BcryptError>)
    ensures
        matches matches Ok(m) ==> bcrypt_verify(password@, hash@) == Some(m),
        matches is Err ==> bcrypt_verify(password@, hash@) is None,
{
    bcrypt::verify(password, hash)
}

/// The character of a decimal digit.
pub open spec fn digit_char(digit: int) -> char
    recommends
        0 <= digit <= 9,
{
    ((48 + digit) as u8) as char
}

/// How a hash begins that was made at `cost`: the version `2b`, then the cost
/// in two digits, each after a `$`, and a `$` again.
pub open spec fn cost_prefix(cost: u32) -> Seq<char> {
    seq!['$', '2', 'b', '$', digit_char(cost as int / 10), digit_char(cost as int % 10), '$']
}

/// Whether a hash names `cost` as the cost it was made at. A cost is from 4
/// to 31.
pub open spec fn hashed_at(hash: Seq<char>, cost: u32) -> bool {
    4 <= cost <= 31 && hash.len() >= 7 && hash.take(7) == cost_prefix(cost)
}

/// Calls `bcrypt::hash`, which hashes the password with a salt drawn at
/// random: what comes out differs from call to call. Of every hash that comes
/// out the contract says that `bcrypt::verify` matches it with the password,
/// and that it names the cost it was made at; a cost out of range gives an
/// error.
#[verifier::external_body]
fn hash_password(password: &str, cost: u32) -> (hash: Result<String, BcryptError>)
    ensures
        hash matches Ok(h) ==> bcrypt_verify(password@, h@) == Some(true) && hashed_at(h@, cost),
{
    bcrypt::hash(password, cost)
}

/// The record of a new user: the name, and a hash of the password made at
/// [`HASH_COST`]. Fails with [`ServerError::CreateUserFailed`] where the
/// password cannot be hashed.
pub fn new_record(username: &str, password: &str) -> (record: Result<SqlUser, ServerError>)
    ensures
        match record {
            Ok(r) => {
                &&& r.username@ == username@
                &&& bcrypt_verify(password@, r.password_hash@) == Some(true)
                &&& hashed_at(r.password_hash@, HASH_COST)
            },
            Err(e) => e == ServerError::CreateUserFailed,
        },
{
    match hash_password(password, HASH_COST) {
        Ok(password_hash) => Ok(SqlUser { username: username.to_owned(), password_hash }),
        Err(_) => Err(ServerError::CreateUserFailed),
    }
}

/// What logging in comes to. A name that no user has is turned down first,
/// then a name that is not valid, then a password that the user's hash does
/// not match; a hash that cannot be read matches no password. Else the user
/// is logged in and sent to their first note.
pub open spec fn login_outcome(
    user: Option<(Seq<char>, Seq<char>)>,
    username: Seq<char>,
    password: Seq<char>,
) -> Result<Seq<char>, ServerError> {
    match user {
        None => Err(ServerError::UserMissing),
        Some((name, hash)) => if !valid_username(username) {
            Err(ServerError::UsernameInvalid)
        } else if bcrypt_verify(password, hash) != Some(true) {
            Err(ServerError::IncorrectPassword)
        } else {
            Ok(home_of(name))
        },
    }
}

/// The name and the hash of an optional record.
pub open spec fn option_record(user: Option<SqlUser>) -> Option<(Seq<char>, Seq<char>)> {
    match user {
        Some(u) => Some((u.username@, u.password_hash@)),
        None => None,
    }
}

/// The view of the result of logging in.
pub open spec fn page_result(result: Result<String, ServerError>) -> Result<
    Seq<char>,
    ServerError,
> {
    match result {
        Ok(page) => Ok(page@),
        Err(e) => Err(e),
    }
}

/// Decides on a login; `user` is the record found under the name, if there
/// is one. On success the result is the page to send the user to.
pub fn login(user: &Option<SqlUser>, username: &str, password: &str) -> (result: Result<
    String,
    ServerError,
>)
    ensures
        page_result(result) == login_outcome(option_record(*user), username@, password@),
{
    let user = match user {
        Some(user) => user,
        None => {
            return Err(ServerError::UserMissing);
        },
    };
    if !validate_username(username) {
        return Err(ServerError::UsernameInvalid);
    }
    match verify_password(password, user.password_hash.as_str()) {
        Ok(true) => Ok(home_page(user.username.as_str())),
        _ => Err(ServerError::IncorrectPassword),
    }
}

/// What the server puts before the message of a failed request.
pub open spec fn failure_prefix() -> Seq<char> {
    "error running server function: "@
}

/// The text shown for a failed request: the message without the server's
/// prefix, and `fallback` where the message does not begin with the prefix.
pub open spec fn shown_error(message: Seq<char>, fallback: Seq<char>) -> Seq<char> {
    if occurs_at(message, 0, failure_prefix()) {
        message.skip(failure_prefix().len() as int)
    } else {
        fallback
    }
}

/// The text shown for a failed request.
pub fn error_text(message: &str, fallback: &str) -> (shown: String)
    ensures
        shown@ == shown_error(message@, fallback@),
{
    let chars = chars_of(message);
    let prefix = chars_of("error running server function: ");
    if matches_at(&chars, 0, &prefix) {
        let rest = message.substring_char(prefix.len(), chars.len());
        assert(message@.subrange(prefix@.len() as int, message@.len() as int) =~= message@.skip(
            prefix@.len() as int,
        ));
        rest.to_owned()
    } else {
        fallback.to_owned()
    }
}

} // verus!
