//! Users of the network.

use crate::json::Json;
use crate::json::JsonModel;
use vstd::prelude::*;

verus! {

/// A user as the backend reads one: the names and the picture, from which an
/// account is made, and the document that is relayed to the peer.
#[derive(Debug, Clone, PartialEq, Eq)]
pub struct User {
    /// The name without the domain.
    pub username: String,
    /// The full name on the network.
    pub acct: String,
    pub display_name: String,
    /// The address of the user's picture.
    pub avatar: String,
    pub document: Json,
}

/// What a `User` is, as a mathematical value.
pub ghost struct UserModel {
    pub username: Seq<char>,
    pub acct: Seq<char>,
    pub display_name: Seq<char>,
    pub avatar: Seq<char>,
    pub document: JsonModel,
}

impl View for User {
    type V = UserModel;

    open spec fn view(&self) -> UserModel {
        UserModel {
            username: self.username@,
            acct: self.acct@,
            display_name: self.display_name@,
            avatar: self.avatar@,
            document: self.document@,
        }
    }
}

/// How the current user and another account stand to each other.
#[derive(Debug, Clone, PartialEq, Eq)]
pub struct Relationship {
    pub id: String,
    pub following: bool,
    pub showing_reblogs: bool,
    pub notifying: bool,
    pub languages: Option<Vec<String>>,
    pub followed_by: bool,
    pub blocking: bool,
    pub blocked_by: bool,
    pub muting: bool,
    pub muting_notifications: bool,
    pub requested: bool,
    pub requested_by: bool,
    pub domain_blocking: bool,
    pub endorsed: bool,
    pub note: String,
}

} // verus!
