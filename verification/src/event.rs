//! Classification of raw timeline events.
//!
//! One raw event from a message page is either not a message at all, a text
//! message, a media message, or a message whose content is gone (redacted or
//! deleted server-side). Classification inspects the event alone; resolving
//! the sender to a display name and downloading media are separate concerns.

use vstd::prelude::*;
use crate::util::str_eq;

verus! {

/// The event type that carries a room message; every other type is skipped.
pub const ROOM_MESSAGE_TYPE: &'static str = "m.room.message";

/// One raw event of a message page, as the history endpoint reports it.
pub struct RawEvent {
    /// The event's type tag.
    pub event_type: String,
    /// The sender's user id.
    pub sender: String,
    /// Milliseconds since the Unix epoch.
    pub origin_server_ts: i64,
    /// Text body, when the content still has one.
    pub body: Option<String>,
    /// Media locator, present exactly on media messages.
    pub url: Option<String>,
    /// Payload type tag of the content, when present.
    pub msgtype: Option<String>,
}

/// Why an event produced no message.
pub enum SkipReason {
    /// The event is not a room message at all.
    NotAMessage,
    /// The event is a room message whose content is gone.
    Unavailable,
}

/// The decision taken for one raw event.
pub enum Classified {
    /// The event contributes nothing to the history.
    Skip { reason: SkipReason },
    /// A text message: sender, timestamp in Unix milliseconds, body.
    TextMessage { author: String, ts: i64, body: String },
    /// A media message: sender, timestamp in Unix milliseconds, media locator.
    MediaMessage { author: String, ts: i64, url: String },
}

/// The classification rules:
/// a non-message event is skipped; a message with a media locator is a media
/// message; a message with a body and no locator is a text message; a message
/// with neither has had its content removed and is skipped.
pub open spec fn spec_classify(e: RawEvent) -> Classified {
    if e.event_type@ != ROOM_MESSAGE_TYPE@ {
        Classified::Skip { reason: SkipReason::NotAMessage }
    } else if e.url is Some {
        Classified::MediaMessage {
            author: e.sender,
            ts: e.origin_server_ts,
            url: e.url->Some_0,
        }
    } else if e.body is Some {
        Classified::TextMessage {
            author: e.sender,
            ts: e.origin_server_ts,
            body: e.body->Some_0,
        }
    } else {
        Classified::Skip { reason: SkipReason::Unavailable }
    }
}

/// Classifies one raw event.
pub fn classify(e: &RawEvent) -> (c: Classified)
    ensures
        c == spec_classify(*e),
{
    if !str_eq(&e.event_type, ROOM_MESSAGE_TYPE) {
        Classified::Skip { reason: SkipReason::NotAMessage }
    } else if let Some(u) = &e.url {
        Classified::MediaMessage {
            author: e.sender.clone(),
            ts: e.origin_server_ts,
            url: u.clone(),
        }
    } else if let Some(b) = &e.body {
        Classified::TextMessage {
            author: e.sender.clone(),
            ts: e.origin_server_ts,
            body: b.clone(),
        }
    } else {
        Classified::Skip { reason: SkipReason::Unavailable }
    }
}

/// Classifies every event of a page, in page order.
pub fn classify_events(events: &Vec<RawEvent>) -> (r: Vec<Classified>)
    ensures
        r@.len() == events@.len(),
        forall|i: int| 0 <= i < events@.len() ==> r@[i] == spec_classify(events@[i]),
{
    let mut r: Vec<Classified> = Vec::new();
    let mut i: usize = 0;
    while i < events.len()
        invariant
            i <= events.len(),
            r@.len() == i,
            forall|j: int| 0 <= j < i ==> r@[j] == spec_classify(events@[j]),
        decreases events.len() - i,
    {
        r.push(classify(&events[i]));
        i = i + 1;
    }
    r
}

} // verus!
