//! Types shared by every feature: the caller's identity, the body of an error
//! reply, HTTP status numbers, and string helpers.
use vstd::prelude::*;
use vstd::string::*;

verus! {

pub const STATUS_OK: u16 = 200;
pub const STATUS_CREATED: u16 = 201;
pub const STATUS_BAD_REQUEST: u16 = 400;
pub const STATUS_UNAUTHORIZED: u16 = 401;
pub const STATUS_FORBIDDEN: u16 = 403;
pub const STATUS_NOT_FOUND: u16 = 404;
pub const STATUS_CONFLICT: u16 = 409;
pub const STATUS_INTERNAL_SERVER_ERROR: u16 = 500;

/// The authenticated caller, as taken from the access token.
#[derive(Debug, Clone)]
pub struct UserData {
    pub id: u64,
    pub role: String,
    pub projects_list: Vec<u64>,
}

impl UserData {
    /// Whether the caller may work on `project_id`: it is one of the caller's projects.
    pub fn has_access(&self, project_id: u64) -> (r: bool)
        ensures
            r == self.projects_list@.contains(project_id),
    {
        let n = self.projects_list.len();
        for i in 0..n
            invariant
                n == self.projects_list.len(),
                forall|j: int| 0 <= j < i ==> self.projects_list@[j] != project_id,
        {
            if self.projects_list[i] == project_id {
                return true;
            }
        }
        false
    }
}

/// The identity injected for every request when test user data is switched on:
/// user 1, role "admin", projects 1, 2 and 3.
pub fn test_user_data() -> (u: UserData)
    ensures
        u.id == 1,
        u.role@ == "admin"@,
        u.projects_list@ == seq![1u64, 2u64, 3u64],
{
    let mut projects: Vec<u64> = Vec::new();
    projects.push(1);
    projects.push(2);
    projects.push(3);
    UserData { id: 1, role: String::from_str("admin"), projects_list: projects }
}

/// The JSON body of an error reply, with its HTTP status.
#[derive(Debug)]
pub struct ErrorBody {
    pub status: u16,
    pub error: String,
    pub message: String,
}

/// Model of an error reply: status, machine-readable code, human-readable message.
pub struct ErrorBodyModel {
    pub status: u16,
    pub error: Seq<char>,
    pub message: Seq<char>,
}

impl View for ErrorBody {
    type V = ErrorBodyModel;

    open spec fn view(&self) -> ErrorBodyModel {
        ErrorBodyModel { status: self.status, error: self.error@, message: self.message@ }
    }
}

/// The error body with the given status, code and message.
pub open spec fn body(status: u16, error: Seq<char>, message: Seq<char>) -> ErrorBodyModel {
    ErrorBodyModel { status, error, message }
}

pub fn make_body(status: u16, error: &str, message: String) -> (b: ErrorBody)
    ensures
        b@ == body(status, error@, message@),
{
    ErrorBody { status, error: String::from_str(error), message }
}

/// `a` followed by `b`.
pub fn concat2(a: &str, b: &str) -> (r: String)
    ensures
        r@ == a@ + b@,
{
    let mut r = String::from_str(a);
    r.append(b);
    r
}

/// `a`, `b` and `c` one after another.
pub fn concat3(a: &str, b: &str, c: &str) -> (r: String)
    ensures
        r@ == a@ + b@ + c@,
{
    let mut r = String::from_str(a);
    r.append(b);
    r.append(c);
    r
}

/// Copies an optional string.
pub fn clone_opt(o: &Option<String>) -> (r: Option<String>)
    ensures
        r.deep_view() == o.deep_view(),
{
    match o {
        Some(s) => Some(s.clone()),
        None => None,
    }
}

/// The string, or the empty string when absent.
pub open spec fn or_empty(o: Option<Seq<char>>) -> Seq<char> {
    match o {
        Some(s) => s,
        None => Seq::empty(),
    }
}

/// Copies the string, or gives the empty string when absent.
pub fn unwrap_or_empty(o: &Option<String>) -> (r: String)
    ensures
        r@ == or_empty(o.deep_view()),
{
    match o {
        Some(s) => s.clone(),
        None => String::new(),
    }
}

/// Copies a list of strings.
pub fn clone_strings(v: &Vec<String>) -> (r: Vec<String>)
    ensures
        r.deep_view() == v.deep_view(),
{
    let mut r: Vec<String> = Vec::new();
    let n = v.len();
    for i in 0..n
        invariant
            n == v.len(),
            r@.len() == i,
            forall|j: int| 0 <= j < i ==> #[trigger] r@[j]@ == v@[j]@,
    {
        r.push(v[i].clone());
    }
    assert(r.deep_view() =~= v.deep_view());
    r
}


/// A result seen through the views of its two sides.
pub open spec fn res_view<T: View, E: View>(r: Result<T, E>) -> Result<T::V, E::V> {
    match r {
        Ok(t) => Ok(t@),
        Err(e) => Err(e@),
    }
}

/// A unit result whose error is a message, as a model.
pub open spec fn unit_res(r: Result<(), String>) -> Result<(), Seq<char>> {
    match r {
        Ok(_) => Ok(()),
        Err(e) => Err(e@),
    }
}

/// Model of the failures every feature can report.
pub enum ErrorModel {
    Database(Seq<char>),
    Decode(Seq<char>),
    AccessDenied,
    AlreadyExists(Seq<char>),
    ProjectNotFound,
    EntityNotFound(Seq<char>),
    RelationNotFound,
    ConnectionAlreadyExists,
    InvalidMultipart,
    FileFieldMissing,
    FileReadError,
    JsonParse(Seq<char>),
}

/// The reply to any database failure: 500 `DATABASE_ERROR`.
pub open spec fn database_error_body() -> ErrorBodyModel {
    body(500, "DATABASE_ERROR"@, "An internal database error occurred. Please try again later."@)
}

/// The reply to a caller without access to the project: 403 `ACCESS_DENIED`.
pub open spec fn access_denied_body() -> ErrorBodyModel {
    body(403, "ACCESS_DENIED"@, "You don't have access to this project."@)
}

/// The reply to a row that could not be decoded, where the message is fixed.
pub open spec fn decode_error_body() -> ErrorBodyModel {
    body(500, "DECODE_ERROR"@, "Failed to decode database row."@)
}

/// The reply to a row that could not be decoded, quoting the driver's message.
pub open spec fn decode_error_body_with(m: Seq<char>) -> ErrorBodyModel {
    body(500, "DECODE_ERROR"@, "An error occurred while decoding data: "@ + m)
}

/// The reply to a request that broke field rules: 400 `VALIDATION_ERROR`.
pub open spec fn validation_error_body(e: Seq<crate::validation::ViolationModel>) -> ErrorBodyModel {
    body(400, "VALIDATION_ERROR"@, crate::validation::violations_text(e))
}

pub fn make_database_error_body() -> (b: ErrorBody)
    ensures
        b@ == database_error_body(),
{
    make_body(500, "DATABASE_ERROR", String::from_str("An internal database error occurred. Please try again later."))
}

pub fn make_access_denied_body() -> (b: ErrorBody)
    ensures
        b@ == access_denied_body(),
{
    make_body(403, "ACCESS_DENIED", String::from_str("You don't have access to this project."))
}

pub fn make_decode_error_body() -> (b: ErrorBody)
    ensures
        b@ == decode_error_body(),
{
    make_body(500, "DECODE_ERROR", String::from_str("Failed to decode database row."))
}

pub fn make_decode_error_body_with(m: &String) -> (b: ErrorBody)
    ensures
        b@ == decode_error_body_with(m@),
{
    make_body(500, "DECODE_ERROR", concat2("An error occurred while decoding data: ", m.as_str()))
}

pub fn make_validation_error_body(e: &crate::validation::ValidationErrors) -> (b: ErrorBody)
    ensures
        b@ == validation_error_body(e@),
{
    make_body(400, "VALIDATION_ERROR", e.message())
}

/// `Validation error: ` followed by the validation message.
pub fn validation_error_message(e: &crate::validation::ValidationErrors) -> (m: String)
    ensures
        m@ == "Validation error: "@ + crate::validation::violations_text(e@),
{
    let t = e.message();
    concat2("Validation error: ", t.as_str())
}

} // verus!
