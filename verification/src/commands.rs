//! The command surface: the requests that commands assemble from their
//! arguments, and what they answer to the user interface: the success
//! payload, or the error in string form.
use vstd::prelude::*;
use vstd::string::*;
use crate::dto::{GetUsersRequest, RegisterFcmTokenRequest, SearchField, SendTestNotificationRequest};
use crate::error::{AppError, AppResult};
use crate::models::text_of;
use crate::response::answer_view;
use crate::router::{Emission, EmissionView, Payload, PayloadView};
use crate::text::{decimal_text, int_to_string};
use crate::transport::is_success;

verus! {

/// What a status-reporting command answers: `true` for a success status; for
/// another status `failure`, a comma and the status; for a failed request
/// the failure's display text.
pub open spec fn command_answer(outcome: AppResult<u16>, failure: Seq<char>) -> Result<
    bool,
    Seq<char>,
> {
    match outcome {
        Ok(status) => if is_success(status) {
            Ok(true)
        } else {
            Err(failure + ", status: "@ + decimal_text(status as int))
        },
        Err(e) => Err(e.display()),
    }
}

/// The answer of a status-reporting command.
pub fn status_answer(outcome: AppResult<u16>, failure: &str) -> (r: Result<bool, String>)
    ensures
        answer_view(r) == command_answer(outcome, failure@),
{
    match outcome {
        Ok(status) => {
            if 200 <= status && status < 300 {
                Ok(true)
            } else {
                Err(
                    String::from_str(failure).concat(", status: ").concat(
                        int_to_string(status as i64).as_str(),
                    ),
                )
            }
        },
        Err(e) => Err(e.to_string()),
    }
}

/// The answer of the registration command.
pub fn register(outcome: AppResult<u16>) -> (r: Result<bool, String>)
    ensures
        answer_view(r) == match outcome {
            Ok(status) => if is_success(status) {
                Ok::<bool, Seq<char>>(true)
            } else {
                Err::<bool, Seq<char>>("Failed to register"@)
            },
            Err(e) => Err::<bool, Seq<char>>("Error: "@ + e.display()),
        },
{
    match outcome {
        Ok(status) => {
            if 200 <= status && status < 300 {
                Ok(true)
            } else {
                Err(String::from_str("Failed to register"))
            }
        },
        Err(e) => Err(String::from_str("Error: ").concat(e.to_string().as_str())),
    }
}

pub fn forgot_password(outcome: AppResult<u16>) -> (r: Result<bool, String>)
    ensures
        answer_view(r) == command_answer(outcome, "Failed to send forgot password request"@),
{
    status_answer(outcome, "Failed to send forgot password request")
}

pub fn reset_password(outcome: AppResult<u16>) -> (r: Result<bool, String>)
    ensures
        answer_view(r) == command_answer(outcome, "Failed to reset password"@),
{
    status_answer(outcome, "Failed to reset password")
}

pub fn share_playlist(outcome: AppResult<u16>) -> (r: Result<bool, String>)
    ensures
        answer_view(r) == command_answer(outcome, "Failed to share playlist"@),
{
    status_answer(outcome, "Failed to share playlist")
}

pub fn mark_shared_playlist_viewed(outcome: AppResult<u16>) -> (r: Result<bool, String>)
    ensures
        answer_view(r) == command_answer(outcome, "Failed to mark playlist as viewed"@),
{
    status_answer(outcome, "Failed to mark playlist as viewed")
}

pub fn set_fcm_token(outcome: AppResult<u16>) -> (r: Result<bool, String>)
    ensures
        answer_view(r) == command_answer(outcome, "Failed to set FCM token"@),
{
    status_answer(outcome, "Failed to set FCM token")
}

pub fn send_test_notification(outcome: AppResult<u16>) -> (r: Result<bool, String>)
    ensures
        answer_view(r) == command_answer(outcome, "Failed to send test notification"@),
{
    status_answer(outcome, "Failed to send test notification")
}

/// The registration of a push token, with the default device and platform.
pub fn fcm_token_request(token: String) -> (r: RegisterFcmTokenRequest)
    ensures
        r.token@ == token@,
        r.device_id matches Some(d) && d@ == "default_device_id"@,
        r.platform matches Some(p) && p@ == "default_platform"@,
{
    RegisterFcmTokenRequest {
        token,
        device_id: Some(String::from_str("default_device_id")),
        platform: Some(String::from_str("default_platform")),
    }
}

/// The test notification for a user: it routes to the registration page.
pub fn test_notification_request(title: String, body: String, user_id: i32) -> (r:
    SendTestNotificationRequest)
    ensures
        r.user_id == user_id,
        r.title@ == title@,
        r.body@ == body@,
        r.data matches Some(entries) && entries@.len() == 1 && entries@[0].0@ == "route"@
            && entries@[0].1@ == "/register"@,
{
    let mut data: Vec<(String, String)> = Vec::new();
    data.push((String::from_str("route"), String::from_str("/register")));
    SendTestNotificationRequest { user_id, title, body, data: Some(data) }
}


/// The filter of the user search: users by name, the caller left out.
pub fn search_users(search: Option<String>) -> (r: GetUsersRequest)
    ensures
        r.include_deleted == Some(false),
        text_of(r.search) == text_of(search),
        r.search_field == Some(SearchField::Username),
        r.limit == Some(100i32),
        r.offset is None,
        !r.friends_priority,
        !r.exclude_friends,
        r.exclude_self == Some(true),
{
    GetUsersRequest {
        include_deleted: Some(false),
        search,
        search_field: Some(SearchField::Username),
        limit: Some(100),
        offset: None,
        friends_priority: false,
        exclude_friends: false,
        exclude_self: Some(true),
    }
}

/// The filter of the search for users who are no friends yet.
pub fn search_non_friends_users(search: Option<String>) -> (r: GetUsersRequest)
    ensures
        r.include_deleted == Some(false),
        text_of(r.search) == text_of(search),
        r.search_field == Some(SearchField::Username),
        r.limit == Some(100i32),
        r.offset is None,
        r.friends_priority,
        r.exclude_friends,
        r.exclude_self == Some(true),
{
    GetUsersRequest {
        include_deleted: Some(false),
        search,
        search_field: Some(SearchField::Username),
        limit: Some(100),
        offset: None,
        friends_priority: true,
        exclude_friends: true,
        exclude_self: Some(true),
    }
}

/// The error of a command that failed: what it was doing, a colon, the
/// failure's display text.
pub fn failure_text(context: &str, e: &AppError) -> (r: String)
    ensures
        r@ == context@ + ": "@ + e.display(),
{
    String::from_str(context).concat(": ").concat(e.to_string().as_str())
}

pub open spec fn text_result_view(r: Result<String, String>) -> Result<Seq<char>, Seq<char>> {
    match r {
        Ok(s) => Ok(s@),
        Err(e) => Err(e@),
    }
}

/// The answer of the command that obtains the Spotify authorization address:
/// the address, which the caller also opens in a browser tab.
pub fn get_autorization_url_spotify(outcome: AppResult<String>) -> (r: Result<String, String>)
    ensures
        text_result_view(r) == match outcome {
            Ok(url) => Ok::<Seq<char>, Seq<char>>(url@),
            Err(e) => Err::<Seq<char>, Seq<char>>("Error: "@ + e.display()),
        },
{
    match outcome {
        Ok(url) => Ok(url),
        Err(e) => Err(String::from_str("Error: ").concat(e.to_string().as_str())),
    }
}

/// An event on a channel with the empty string as payload.
pub open spec fn signal(channel: Seq<char>) -> EmissionView {
    EmissionView { channel, payload: PayloadView::Text(Seq::empty()) }
}

/// The event that tells the user interface to log out.
pub fn logout() -> (r: Emission)
    ensures
        r@ == signal("logout"@),
{
    Emission { channel: String::from_str("logout"), payload: Payload::Text(String::new()) }
}

} // verus!
