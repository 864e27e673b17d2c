//! Push notifications: the outbound events that one causes.
use vstd::prelude::*;
use vstd::string::*;
use crate::models::{Notification, NotificationView, SharedNotificationData};
use crate::router::{Emission, EmissionView, Payload, PayloadView};
use crate::text::str_eq;

verus! {

pub open spec fn emissions_view(v: Seq<Emission>) -> Seq<EmissionView> {
    Seq::new(v.len(), |i: int| v[i]@)
}

/// An event that carries the whole notification.
pub open spec fn notification_event(channel: Seq<char>, n: NotificationView) -> EmissionView {
    EmissionView { channel, payload: PayloadView::Notification(n) }
}

/// The events of a received notification, in order: the notification itself
/// on `notification_data`; its route on `routing`, unless it is empty; and
/// the notification on `playlist_shared` if that is its type.
pub open spec fn received_events(n: Notification) -> Seq<EmissionView> {
    seq![notification_event("notification_data"@, n@)] + (if n.route_or_empty().len() > 0 {
        seq![EmissionView { channel: "routing"@, payload: PayloadView::Text(n.route_or_empty()) }]
    } else {
        Seq::empty()
    }) + (if n.notification_type@ == "playlist_shared"@ {
        seq![notification_event("playlist_shared"@, n@)]
    } else {
        Seq::empty()
    })
}

/// The events of a clicked notification: those of a received one, then the
/// notification on `notification_clicked`.
pub open spec fn clicked_events(n: Notification) -> Seq<EmissionView> {
    received_events(n).push(notification_event("notification_clicked"@, n@))
}

/// A copy of a notification.
pub fn copy_notification(n: &Notification) -> (r: Notification)
    ensures
        r@ == n@,
{
    Notification {
        notification_type: n.notification_type.clone(),
        route: match &n.route {
            Some(route) => Some(route.clone()),
            None => None,
        },
        shared_notification: match &n.shared_notification {
            Some(d) => Some(
                SharedNotificationData {
                    playlist_id: d.playlist_id,
                    playlist_name: d.playlist_name.clone(),
                    shared_by_id: d.shared_by_id,
                    shared_by_username: d.shared_by_username.clone(),
                },
            ),
            None => None,
        },
    }
}

fn event_of(channel: &str, n: &Notification) -> (r: Emission)
    ensures
        r@ == notification_event(channel@, n@),
{
    Emission { channel: String::from_str(channel), payload: Payload::Notification(copy_notification(n)) }
}

/// The events to emit for a notification received while the application runs.
pub fn handle_notification_data(data: &Notification) -> (r: Vec<Emission>)
    ensures
        emissions_view(r@) == received_events(*data),
{
    let route = data.get_route();
    let mut events: Vec<Emission> = Vec::new();
    events.push(event_of("notification_data", data));
    if route.as_str().unicode_len() > 0 {
        events.push(Emission { channel: String::from_str("routing"), payload: Payload::Text(route) });
    }
    if str_eq(data.notification_type.as_str(), "playlist_shared") {
        events.push(event_of("playlist_shared", data));
    }
    proof {
        assert(emissions_view(events@) =~= received_events(*data));
    }
    events
}

/// The events to emit for a notification whose click opened the application.
pub fn handle_notification(data: Notification) -> (r: Vec<Emission>)
    ensures
        emissions_view(r@) == clicked_events(data),
{
    let mut events = handle_notification_data(&data);
    let ghost before = events@;
    events.push(event_of("notification_clicked", &data));
    proof {
        assert(emissions_view(events@) =~= emissions_view(before).push(
            notification_event("notification_clicked"@, data@),
        ));
    }
    events
}

} // verus!
