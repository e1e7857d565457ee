//! The names of the methods that a request can call.

use vstd::prelude::*;

verus! {

pub const AUTH_START: &'static str = "auth.start";

pub const AUTH_CALLBACK: &'static str = "auth.callback";

pub const AUTH_LOGOUT: &'static str = "auth.logout";

pub const AUTH_GET_ACCOUNTS: &'static str = "auth.get_accounts";

pub const AUTH_SWITCH_ACCOUNT: &'static str = "auth.switch_account";

pub const AUTH_DELETE_ACCOUNT: &'static str = "auth.delete_account";

pub const AUTH_SET_DEFAULT: &'static str = "auth.set_default";

pub const SETTINGS_GET: &'static str = "settings.get";

pub const SETTINGS_SET: &'static str = "settings.set";

pub const SETTINGS_GET_ALL: &'static str = "settings.get_all";

pub const TIMELINE_GET: &'static str = "timeline.get";

pub const TIMELINE_STREAM_START: &'static str = "timeline.stream.start";

pub const TIMELINE_STREAM_STOP: &'static str = "timeline.stream.stop";

pub const POST_CREATE: &'static str = "post.create";

pub const POST_DELETE: &'static str = "post.delete";

pub const POST_EDIT: &'static str = "post.edit";

pub const POST_BOOST: &'static str = "post.boost";

pub const POST_UNBOOST: &'static str = "post.unboost";

pub const POST_FAVOURITE: &'static str = "post.favourite";

pub const POST_UNFAVOURITE: &'static str = "post.unfavourite";

pub const POST_BOOKMARK: &'static str = "post.bookmark";

pub const POST_UNBOOKMARK: &'static str = "post.unbookmark";

pub const POST_GET_CONTEXT: &'static str = "post.get_context";

pub const USER_GET: &'static str = "user.get";

pub const USER_FOLLOW: &'static str = "user.follow";

pub const USER_UNFOLLOW: &'static str = "user.unfollow";

pub const USER_BLOCK: &'static str = "user.block";

pub const USER_UNBLOCK: &'static str = "user.unblock";

pub const USER_MUTE: &'static str = "user.mute";

pub const USER_UNMUTE: &'static str = "user.unmute";

pub const NOTIFICATIONS_GET: &'static str = "notifications.get";

pub const NOTIFICATIONS_CLEAR: &'static str = "notifications.clear";

pub const NOTIFICATIONS_DISMISS: &'static str = "notifications.dismiss";

pub const SEARCH: &'static str = "search";

pub const MEDIA_UPLOAD: &'static str = "media.upload";

pub const INSTANCE_GET: &'static str = "instance.get";

pub const PING: &'static str = "ping";

pub const SHUTDOWN: &'static str = "shutdown";

} // verus!
