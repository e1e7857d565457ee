//! The names of the events that are sent without a request.

use vstd::prelude::*;

verus! {

pub const NEW_POST: &'static str = "event.new_post";

pub const POST_UPDATED: &'static str = "event.post_updated";

pub const POST_DELETED: &'static str = "event.post_deleted";

pub const NEW_NOTIFICATION: &'static str = "event.new_notification";

pub const STREAM_CONNECTED: &'static str = "event.stream_connected";

pub const STREAM_DISCONNECTED: &'static str = "event.stream_disconnected";

pub const RATE_LIMIT_WARNING: &'static str = "event.rate_limit_warning";

pub const ERROR: &'static str = "event.error";

} // verus!
