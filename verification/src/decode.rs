//! Decoding of inbound JSON: push-notification payloads, with their tolerant
//! `shared_notification` member, and the login response.
use vstd::prelude::*;
use vstd::string::*;
use crate::json::{
    find_member, get_i32, get_text, i32_member, json_members, json_object_members, member,
    members_result_view, members_view, text_member, JsonField, JsonFieldView, Members,
};
use crate::models::{
    Notification, NotificationView, SharedNotificationData, SharedNotificationDataView,
};

verus! {

/// The shared-playlist data that the members of an object spell out, if all
/// four are there with the right types.
pub open spec fn shared_data_spec(ms: Members) -> Option<SharedNotificationDataView> {
    match (
        i32_member(ms, "playlist_id"@),
        text_member(ms, "playlist_name"@),
        i32_member(ms, "shared_by_id"@),
        text_member(ms, "shared_by_username"@),
    ) {
        (Some(playlist_id), Some(playlist_name), Some(shared_by_id), Some(shared_by_username)) => {
            Some(
                SharedNotificationDataView {
                    playlist_id,
                    playlist_name,
                    shared_by_id,
                    shared_by_username,
                },
            )
        },
        _ => None,
    }
}

pub open spec fn shared_option_view(o: Option<SharedNotificationData>) -> Option<
    SharedNotificationDataView,
> {
    match o {
        Some(d) => Some(d@),
        None => None,
    }
}

pub open spec fn shared_result_view(r: Result<Option<SharedNotificationData>, String>) -> Result<
    Option<SharedNotificationDataView>,
    Seq<char>,
> {
    match r {
        Ok(o) => Ok(shared_option_view(o)),
        Err(e) => Err(e@),
    }
}

/// Reads the four members of the shared-playlist data.
pub fn shared_data_from_members(members: &Vec<(String, JsonField)>) -> (r: Option<
    SharedNotificationData,
>)
    ensures
        shared_option_view(r) == shared_data_spec(members_view(members@)),
{
    let playlist_id = get_i32(members, "playlist_id");
    let playlist_name = get_text(members, "playlist_name");
    let shared_by_id = get_i32(members, "shared_by_id");
    let shared_by_username = get_text(members, "shared_by_username");
    match (playlist_id, playlist_name, shared_by_id, shared_by_username) {
        (Some(playlist_id), Some(playlist_name), Some(shared_by_id), Some(shared_by_username)) => {
            Some(
                SharedNotificationData {
                    playlist_id,
                    playlist_name,
                    shared_by_id,
                    shared_by_username,
                },
            )
        },
        _ => None,
    }
}

/// What a parsed nested object decodes to; `form` says how the member was
/// encoded (`string` or `object`) and appears in the message of a failure.
pub open spec fn nested_shared_spec(parsed: Result<Members, Seq<char>>, form: Seq<char>) -> Result<
    Option<SharedNotificationDataView>,
    Seq<char>,
> {
    match parsed {
        Ok(ms) => match shared_data_spec(ms) {
            Some(d) => Ok(Some(d)),
            None => Err(
                "Failed to parse shared_notification "@ + form + ": missing or invalid member"@,
            ),
        },
        Err(e) => Err("Failed to parse shared_notification "@ + form + ": "@ + e),
    }
}

/// Decodes the members of the nested object, however it was encoded.
pub fn shared_notification_from_parsed(
    parsed: Result<Vec<(String, JsonField)>, String>,
    form: &str,
) -> (r: Result<Option<SharedNotificationData>, String>)
    ensures
        shared_result_view(r) == nested_shared_spec(members_result_view(parsed), form@),
{
    match parsed {
        Ok(members) => match shared_data_from_members(&members) {
            Some(d) => Ok(Some(d)),
            None => Err(
                String::from_str("Failed to parse shared_notification ").concat(form).concat(
                    ": missing or invalid member",
                ),
            ),
        },
        Err(e) => Err(
            String::from_str("Failed to parse shared_notification ").concat(form).concat(
                ": ",
            ).concat(e.as_str()),
        ),
    }
}

/// The tolerant decoding of the `shared_notification` member: absent or null
/// is no data; a string is taken as JSON text of the object; an object is
/// taken as it is; anything else is an error.
pub open spec fn shared_notification_spec(field: Option<JsonFieldView>) -> Result<
    Option<SharedNotificationDataView>,
    Seq<char>,
> {
    match field {
        None => Ok(None),
        Some(JsonFieldView::Null) => Ok(None),
        Some(JsonFieldView::Text(s)) => nested_shared_spec(json_members(s), "string"@),
        Some(JsonFieldView::Object(s)) => nested_shared_spec(json_members(s), "object"@),
        Some(_) => Err("invalid type: expected string or object for shared_notification"@),
    }
}

pub open spec fn field_option_view(o: Option<&JsonField>) -> Option<JsonFieldView> {
    match o {
        Some(f) => Some(f@),
        None => None,
    }
}

/// Decodes the `shared_notification` member of a payload.
pub fn deserialize_shared_notification(field: Option<&JsonField>) -> (r: Result<
    Option<SharedNotificationData>,
    String,
>)
    ensures
        shared_result_view(r) == shared_notification_spec(field_option_view(field)),
{
    match field {
        None => Ok(None),
        Some(JsonField::Null) => Ok(None),
        Some(JsonField::Text(s)) => shared_notification_from_parsed(
            json_object_members(s.as_str()),
            "string",
        ),
        Some(JsonField::Object(s)) => shared_notification_from_parsed(
            json_object_members(s.as_str()),
            "object",
        ),
        Some(_) => Err(
            String::from_str("invalid type: expected string or object for shared_notification"),
        ),
    }
}

/// The optional `route` member: absent or null is no route, a string is the
/// route, anything else is an error.
pub open spec fn route_spec(field: Option<JsonFieldView>) -> Result<Option<Seq<char>>, Seq<char>> {
    match field {
        None => Ok(None),
        Some(JsonFieldView::Null) => Ok(None),
        Some(JsonFieldView::Text(s)) => Ok(Some(s)),
        Some(_) => Err("invalid type: expected a string for route"@),
    }
}

/// The notification that the members of a payload spell out.
pub open spec fn notification_spec(ms: Members) -> Result<NotificationView, Seq<char>> {
    match text_member(ms, "type"@) {
        None => Err("missing or invalid member `type`"@),
        Some(notification_type) => match route_spec(member(ms, "route"@)) {
            Err(e) => Err(e),
            Ok(route) => match shared_notification_spec(member(ms, "shared_notification"@)) {
                Err(e) => Err(e),
                Ok(shared_notification) => Ok(
                    NotificationView { notification_type, route, shared_notification },
                ),
            },
        },
    }
}

pub open spec fn notification_result_view(r: Result<Notification, String>) -> Result<
    NotificationView,
    Seq<char>,
> {
    match r {
        Ok(n) => Ok(n@),
        Err(e) => Err(e@),
    }
}

/// Builds the notification from the members of its payload.
pub fn notification_from_members(members: &Vec<(String, JsonField)>) -> (r: Result<
    Notification,
    String,
>)
    ensures
        notification_result_view(r) == notification_spec(members_view(members@)),
{
    let notification_type = match get_text(members, "type") {
        Some(t) => t,
        None => {
            return Err(String::from_str("missing or invalid member `type`"));
        },
    };
    let route = match find_member(members, "route") {
        None => None,
        Some(JsonField::Null) => None,
        Some(JsonField::Text(s)) => Some(s.clone()),
        Some(_) => {
            return Err(String::from_str("invalid type: expected a string for route"));
        },
    };
    match deserialize_shared_notification(find_member(members, "shared_notification")) {
        Err(e) => Err(e),
        Ok(shared_notification) => Ok(Notification { notification_type, route, shared_notification }),
    }
}

/// What a payload decodes to.
pub open spec fn payload_spec(payload: Seq<char>) -> Result<NotificationView, Seq<char>> {
    match json_members(payload) {
        Ok(ms) => notification_spec(ms),
        Err(e) => Err(e),
    }
}

/// Decodes a push-notification payload from its JSON text.
pub fn decode_notification(payload: &str) -> (r: Result<Notification, String>)
    ensures
        notification_result_view(r) == payload_spec(payload@),
{
    match json_object_members(payload) {
        Ok(members) => notification_from_members(&members),
        Err(e) => Err(e),
    }
}

/// The same object decodes to the same data whether the payload carries it
/// as an object or as a string of JSON text.
pub proof fn law_tolerant_decode(text: Seq<char>)
    ensures
        shared_notification_spec(Some(JsonFieldView::Text(text))) is Ok
            <==> shared_notification_spec(Some(JsonFieldView::Object(text))) is Ok,
        shared_notification_spec(Some(JsonFieldView::Text(text))) is Ok
            ==> shared_notification_spec(Some(JsonFieldView::Text(text)))
            == shared_notification_spec(Some(JsonFieldView::Object(text))),
{
}

} // verus!
