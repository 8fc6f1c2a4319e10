//! The session transport vocabulary: request and response bodies and
//! their error type. Encoding to the wire format is transport work and
//! stays outside the library; what stands here is the data itself and
//! the choice of error code and detail that an encoded failure carries.

use vstd::prelude::*;

verus! {

/// The errors a session request can fail with.
#[derive(Debug)]
pub enum CustomError {
    SessionCreationError,
    SessionCreationError2,
    SessionJoinError(JoinSessionErrorData),
    ActixWebError(String),
    LogicError,
}

/// The machine-readable code that identifies each error kind on the
/// wire.
pub open spec fn spec_error_code(e: CustomError) -> Seq<char> {
    match e {
        CustomError::SessionCreationError => "SESSION_CREATION_ERROR"@,
        CustomError::SessionCreationError2 => "SESSION_CREATION_ERROR2"@,
        CustomError::SessionJoinError(_) => "SESSION_JOIN_ERROR"@,
        CustomError::ActixWebError(_) => "ACTIX_WEB_ERROR"@,
        CustomError::LogicError => "LOGIC_ERROR"@,
    }
}

/// The human-readable detail an encoded failure carries beside the
/// code, for the kinds that have one.
pub open spec fn spec_error_detail(e: CustomError) -> Option<Seq<char>> {
    match e {
        CustomError::SessionJoinError(data) => Some(data.detail@),
        CustomError::ActixWebError(detail) => Some(detail@),
        _ => None,
    }
}

impl CustomError {
    /// The machine-readable error code of this error.
    pub fn error_code(&self) -> (r: String)
        ensures
            r@ == spec_error_code(*self),
    {
        match self {
            CustomError::SessionCreationError => "SESSION_CREATION_ERROR".to_owned(),
            CustomError::SessionCreationError2 => "SESSION_CREATION_ERROR2".to_owned(),
            CustomError::SessionJoinError(_) => "SESSION_JOIN_ERROR".to_owned(),
            CustomError::ActixWebError(_) => "ACTIX_WEB_ERROR".to_owned(),
            CustomError::LogicError => "LOGIC_ERROR".to_owned(),
        }
    }

    /// The detail string of this error, for the kinds that carry one.
    pub fn error_detail(&self) -> (r: Option<String>)
        ensures
            r is Some <==> spec_error_detail(*self) is Some,
            r matches Some(s) ==> spec_error_detail(*self) == Some(s@),
    {
        match self {
            CustomError::SessionJoinError(data) => Some(data.detail.clone()),
            CustomError::ActixWebError(detail) => Some(detail.clone()),
            _ => None,
        }
    }
}

/// A decoded session request: which action, with its body.
#[derive(Debug, PartialEq)]
pub enum Request {
    CreateSession(CreateSessionRequest),
    JoinSession(JoinSessionRequest),
}

/// The body of a session-creation request.
#[derive(Debug, PartialEq)]
pub struct CreateSessionRequest {
    pub user_name: String,
    pub flag: bool,
}

/// The body of a session-join request.
#[derive(Debug, PartialEq)]
pub struct JoinSessionRequest {
    pub user_name: String,
}

/// The detail accompanying a failed session join.
#[derive(Debug)]
pub struct JoinSessionErrorData {
    pub detail: String,
}

impl JoinSessionErrorData {
    /// The human-readable rendering of the detail.
    pub fn message(&self) -> (r: String)
        ensures
            r@ == "Detail: "@ + self.detail@,
    {
        let mut r = "Detail: ".to_owned();
        append_str(&mut r, self.detail.as_str());
        r
    }
}

/// Relies on `String::push_str`: appends the given string slice onto
/// the end of the string.
#[verifier::external_body]
fn append_str(s: &mut String, t: &str)
    ensures
        final(s)@ == old(s)@ + t@,
{
    s.push_str(t);
}

/// The body of a subscription request: the version the caller already
/// has, so only later events are delivered.
#[derive(Clone, Copy, Debug, PartialEq, Eq, Structural)]
pub struct SubscribeRoomDTO {
    pub version: u32,
}

/// A session response: either outcome, with its data.
#[derive(Debug)]
#[allow(non_camel_case_types)]
pub enum SessionResponse {
    SUCCESS(SuccessData),
    FAILURE(CustomError),
}

/// The data of a successful session response.
#[derive(Debug)]
pub enum SuccessData {
    Create(CreateSessionSuccessData),
    Join(JoinSessionSuccessData),
}

/// What a successful session creation reports.
#[derive(Debug)]
pub struct CreateSessionSuccessData {
    pub user_name: String,
    pub session_id: String,
}

/// What a successful session join reports.
#[derive(Debug)]
pub struct JoinSessionSuccessData {
    pub user_name: String,
    pub session_id: String,
    pub joined_at: String,
}

} // verus!
