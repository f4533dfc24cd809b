use vstd::prelude::*;

verus! {

/// A user's emoji status.
#[derive(Debug, Clone, PartialEq, Eq)]
pub enum EmojiStatus {
    Status(Status),
    Until(EmojiStatusUntil),
}

/// An emoji status without an end.
#[derive(Debug, Clone, PartialEq, Eq)]
pub struct Status {
    pub document_id: i64,
}

/// An emoji status that lasts until a given time.
#[derive(Debug, Clone, PartialEq, Eq)]
pub struct EmojiStatusUntil {
    pub document_id: i64,
    pub until: i32,
}

/// Why a user is restricted, on which platform.
#[derive(Debug, Clone, PartialEq, Eq)]
pub struct RestrictionReason {
    pub platform: String,
    pub reason: String,
    pub text: String,
}

/// A user's profile photo.
#[derive(Debug, Clone, PartialEq, Eq)]
pub struct UserProfilePhoto {
    pub has_video: bool,
    pub personal: bool,
    pub photo_id: i64,
    pub stripped_thumb: Option<Vec<u8>>,
    pub dc_id: i32,
}

/// When a user was last seen.
#[derive(Debug, Clone, PartialEq, Eq)]
pub enum UserStatus {
    Empty,
    Online(UserStatusOnline),
    Offline(UserStatusOffline),
    Recently,
    LastWeek,
    LastMonth,
}

/// Online until `expires`.
#[derive(Debug, Clone, PartialEq, Eq)]
pub struct UserStatusOnline {
    pub expires: i32,
}

/// Last online at `was_online`.
#[derive(Debug, Clone, PartialEq, Eq)]
pub struct UserStatusOffline {
    pub was_online: i32,
}

/// One of a user's usernames.
#[derive(Debug, Clone, PartialEq, Eq)]
pub struct Username {
    pub editable: bool,
    pub active: bool,
    pub username: String,
}

/// The record produced for one phone number that the service resolved.
#[derive(Debug, Clone, PartialEq, Eq)]
pub struct UserData {
    pub is_self: bool,
    pub contact: bool,
    pub mutual_contact: bool,
    pub deleted: bool,
    pub bot: bool,
    pub bot_chat_history: bool,
    pub bot_nochats: bool,
    pub verified: bool,
    pub restricted: bool,
    pub min: bool,
    pub bot_inline_geo: bool,
    pub support: bool,
    pub scam: bool,
    pub apply_min_photo: bool,
    pub fake: bool,
    pub bot_attach_menu: bool,
    pub premium: bool,
    pub attach_menu_enabled: bool,
    pub bot_can_edit: bool,
    pub close_friend: bool,
    pub stories_hidden: bool,
    pub stories_unavailable: bool,
    pub id: i64,
    pub access_hash: Option<i64>,
    pub first_name: Option<String>,
    pub last_name: Option<String>,
    pub username: Option<String>,
    pub phone: Option<String>,
    pub photo: Option<UserProfilePhoto>,
    pub status: Option<UserStatus>,
    pub bot_info_version: Option<i32>,
    pub restriction_reason: Option<Vec<RestrictionReason>>,
    pub bot_inline_placeholder: Option<String>,
    pub lang_code: Option<String>,
    pub emoji_status: Option<EmojiStatus>,
    pub usernames: Option<Vec<Username>>,
    pub stories_max_id: Option<i32>,
    pub color: Option<i32>,
    pub background_emoji_id: Option<i64>,
}

} // verus!
