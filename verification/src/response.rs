//! Helpers around responses: status codes as results, errors in context,
//! the login response, and the stored session token.
use vstd::prelude::*;
use vstd::string::*;
use crate::error::{AppResult, ErrorKind};
use crate::json::{
    get_i32, get_text, i32_member, json_members, json_object_members, members_result_view,
    text_member, JsonField, Members,
};
use crate::text::{decimal_text, int_to_string};
use crate::transport::{decode_failure_message, handle_response, is_success};

verus! {

pub open spec fn answer_view(r: Result<bool, String>) -> Result<bool, Seq<char>> {
    match r {
        Ok(b) => Ok(b),
        Err(e) => Err(e@),
    }
}

/// The text of a failed operation: its name, then the status code.
pub open spec fn status_failure(operation: Seq<char>, status: u16) -> Seq<char> {
    operation + " failed with status: "@ + decimal_text(status as int)
}

/// `Ok(true)` for a success status, else an error that names the operation
/// and the status.
pub fn status_to_result(status: u16, operation: &str) -> (r: Result<bool, String>)
    ensures
        answer_view(r) == if is_success(status) {
            Ok::<bool, Seq<char>>(true)
        } else {
            Err::<bool, Seq<char>>(status_failure(operation@, status))
        },
{
    if 200 <= status && status < 300 {
        Ok(true)
    } else {
        Err(
            String::from_str(operation).concat(" failed with status: ").concat(
                int_to_string(status as i64).as_str(),
            ),
        )
    }
}

/// The text of an error in its context: the context, a colon, the error.
pub fn log_error(err: &str, context: &str) -> (r: String)
    ensures
        r@ == context@ + ": "@ + err@,
{
    String::from_str(context).concat(": ").concat(err)
}

/// What the backend answers to a login.
#[derive(Clone, Debug, PartialEq, Eq)]
pub struct LoginResponse {
    pub token: String,
    pub user_id: i32,
    pub username: String,
    pub role: String,
}

pub struct LoginResponseView {
    pub token: Seq<char>,
    pub user_id: i32,
    pub username: Seq<char>,
    pub role: Seq<char>,
}

impl View for LoginResponse {
    type V = LoginResponseView;

    open spec fn view(&self) -> LoginResponseView {
        LoginResponseView {
            token: self.token@,
            user_id: self.user_id,
            username: self.username@,
            role: self.role@,
        }
    }
}

/// The login response that the members of an object spell out.
pub open spec fn login_spec(ms: Members) -> Option<LoginResponseView> {
    match (
        text_member(ms, "token"@),
        i32_member(ms, "user_id"@),
        text_member(ms, "username"@),
        text_member(ms, "role"@),
    ) {
        (Some(token), Some(user_id), Some(username), Some(role)) => Some(
            LoginResponseView { token, user_id, username, role },
        ),
        _ => None,
    }
}

/// What the body of a login response decodes to: the response, or an internal
/// failure that quotes the decoder.
pub open spec fn login_decoded(parsed: Result<Members, Seq<char>>) -> Result<
    LoginResponseView,
    (ErrorKind, Seq<char>),
> {
    match parsed {
        Ok(ms) => match login_spec(ms) {
            Some(v) => Ok(v),
            None => Err(
                (ErrorKind::Internal, decode_failure_message("missing or invalid member"@)),
            ),
        },
        Err(e) => Err((ErrorKind::Internal, decode_failure_message(e))),
    }
}

pub open spec fn login_result_view(r: AppResult<LoginResponse>) -> Result<
    LoginResponseView,
    (ErrorKind, Seq<char>),
> {
    match r {
        Ok(v) => Ok(v@),
        Err(e) => Err(e@),
    }
}

/// Builds the login response from the parsed body.
pub fn login_from_parsed(parsed: Result<Vec<(String, JsonField)>, String>) -> (r: AppResult<
    LoginResponse,
>)
    ensures
        login_result_view(r) == login_decoded(members_result_view(parsed)),
{
    let decoded: Result<LoginResponse, String> = match parsed {
        Ok(members) => {
            let token = get_text(&members, "token");
            let user_id = get_i32(&members, "user_id");
            let username = get_text(&members, "username");
            let role = get_text(&members, "role");
            match (token, user_id, username, role) {
                (Some(token), Some(user_id), Some(username), Some(role)) => Ok(
                    LoginResponse { token, user_id, username, role },
                ),
                _ => Err(String::from_str("missing or invalid member")),
            }
        },
        Err(e) => Err(e),
    };
    handle_response(decoded)
}

/// Decodes the body of a login response.
pub fn decode_login_response(body: &str) -> (r: AppResult<LoginResponse>)
    ensures
        login_result_view(r) == login_decoded(json_members(body@)),
{
    login_from_parsed(json_object_members(body))
}

/// The store of the key-value plugin that holds the session.
pub const TOKEN_STORE: &'static str = "user";

/// The key of the session token in [`TOKEN_STORE`].
pub const TOKEN_KEY: &'static str = "token";

/// What the token entry of the key-value store holds.
#[derive(Clone, Debug, PartialEq, Eq)]
pub enum StoredToken {
    /// No entry.
    Absent,
    /// An entry that is a string.
    Text(String),
    /// An entry that is no string.
    Other,
}

/// The session token of a store entry: none without an entry, the text of a
/// string entry, the empty text for any other entry.
pub fn session_token(entry: StoredToken) -> (r: Option<String>)
    ensures
        crate::models::text_of(r) == match entry {
            StoredToken::Absent => None::<Seq<char>>,
            StoredToken::Text(t) => Some(t@),
            StoredToken::Other => Some(Seq::<char>::empty()),
        },
{
    match entry {
        StoredToken::Absent => None,
        StoredToken::Text(t) => Some(t),
        StoredToken::Other => Some(String::new()),
    }
}

} // verus!
