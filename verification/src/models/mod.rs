//! The data that the backend exchanges with its peer and keeps about accounts.

pub mod account;
pub mod error_codes;
pub mod events;
pub mod ipc_message;
pub mod media;
pub mod methods;
pub mod notification;
pub mod post;
pub mod timeline;
pub mod user;

pub use ipc_message::{IpcError, IpcErrorModel, IpcMessage, MessageModel, MessageType};
pub use post::{
    Application, CustomEmoji, Mention, NewPoll, NewPollModel, NewPost, NewPostModel, PollOption,
    Post, PostModel, Tag, Visibility,
};
pub use timeline::{
    DisplayDensity, TimelineRequest, TimelineRequestModel, TimelineResponse,
    TimelineResponseModel, TimelineSettings, TimelineType, TimelineTypeModel,
};
pub use account::{
    AuthCallback, AuthRequest, AuthResponse, AuthResult, InstanceFacts, InstanceInfo,
    InstanceInfoModel, OAuthApp, StoredAccount, StoredAccountModel,
};
pub use notification::{
    Notification, NotificationFilter, NotificationModel, NotificationRequest,
    NotificationRequestModel, NotificationResponse, NotificationResponseModel, NotificationType,
};
pub use media::{
    MediaAttachment, MediaFocus, MediaFocusModel, MediaType, MediaUploadRequest,
    MediaUploadRequestModel,
};
pub use user::{Relationship, User, UserModel};
