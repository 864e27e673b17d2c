//! Payloads exchanged with the user interface: push notifications coming in,
//! error notifications going out.
use vstd::prelude::*;
use vstd::string::*;

verus! {

/// What a "playlist shared" push notification says about the playlist.
#[derive(Clone, Debug, PartialEq, Eq)]
pub struct SharedNotificationData {
    pub playlist_id: i32,
    pub playlist_name: String,
    pub shared_by_id: i32,
    pub shared_by_username: String,
}

/// The mathematical value of a [`SharedNotificationData`].
pub struct SharedNotificationDataView {
    pub playlist_id: i32,
    pub playlist_name: Seq<char>,
    pub shared_by_id: i32,
    pub shared_by_username: Seq<char>,
}

impl View for SharedNotificationData {
    type V = SharedNotificationDataView;

    open spec fn view(&self) -> SharedNotificationDataView {
        SharedNotificationDataView {
            playlist_id: self.playlist_id,
            playlist_name: self.playlist_name@,
            shared_by_id: self.shared_by_id,
            shared_by_username: self.shared_by_username@,
        }
    }
}

/// A push notification as delivered by the host platform.
#[derive(Clone, Debug, PartialEq, Eq)]
pub struct Notification {
    /// The `type` member of the payload.
    pub notification_type: String,
    pub route: Option<String>,
    pub shared_notification: Option<SharedNotificationData>,
}

/// The mathematical value of a [`Notification`].
pub struct NotificationView {
    pub notification_type: Seq<char>,
    pub route: Option<Seq<char>>,
    pub shared_notification: Option<SharedNotificationDataView>,
}

/// The view of an optional string.
pub open spec fn text_of(o: Option<String>) -> Option<Seq<char>> {
    match o {
        Some(s) => Some(s@),
        None => None,
    }
}

impl View for Notification {
    type V = NotificationView;

    open spec fn view(&self) -> NotificationView {
        NotificationView {
            notification_type: self.notification_type@,
            route: text_of(self.route),
            shared_notification: match self.shared_notification {
                Some(d) => Some(d@),
                None => None,
            },
        }
    }
}

impl Notification {
    /// The route to open, or the empty string when the payload names none.
    pub open spec fn route_or_empty(&self) -> Seq<char> {
        match self.route {
            Some(r) => r@,
            None => Seq::empty(),
        }
    }

    pub fn get_route(&self) -> (r: String)
        ensures
            r@ == self.route_or_empty(),
    {
        match &self.route {
            Some(route) => route.clone(),
            None => String::new(),
        }
    }

    pub fn get_shared_data(&self) -> (r: Option<&SharedNotificationData>)
        ensures
            r is Some <==> self.shared_notification is Some,
            r matches Some(d) ==> self.shared_notification == Some(*d),
    {
        match &self.shared_notification {
            Some(data) => Some(data),
            None => None,
        }
    }
}

/// The channel on which the pipeline reports errors to the user interface.
pub const ERROR_NOTIFICATION_CHANNEL: &'static str = "error_notification";

/// An event for the `error_notification` channel of the user interface.
#[derive(Clone, Debug, PartialEq, Eq)]
pub enum ErrorNotification {
    ServerError { message: String },
    NetworkError { message: String },
}

/// The mathematical value of an [`ErrorNotification`].
pub enum ErrorNotificationView {
    ServerError { message: Seq<char> },
    NetworkError { message: Seq<char> },
}

impl View for ErrorNotification {
    type V = ErrorNotificationView;

    open spec fn view(&self) -> ErrorNotificationView {
        match self {
            ErrorNotification::ServerError { message } => ErrorNotificationView::ServerError {
                message: message@,
            },
            ErrorNotification::NetworkError { message } => ErrorNotificationView::NetworkError {
                message: message@,
            },
        }
    }
}

impl ErrorNotification {
    pub fn server_error(message: &str) -> (r: ErrorNotification)
        ensures
            r@ == (ErrorNotificationView::ServerError { message: message@ }),
    {
        ErrorNotification::ServerError { message: String::from_str(message) }
    }

    pub fn network_error(message: &str) -> (r: ErrorNotification)
        ensures
            r@ == (ErrorNotificationView::NetworkError { message: message@ }),
    {
        ErrorNotification::NetworkError { message: String::from_str(message) }
    }
}

} // verus!
