//! Request and response bodies exchanged with clients.

use vstd::prelude::*;

verus! {

#[derive(Debug)]
pub struct CreateUserRequest {
    pub username: String,
    pub email: String,
    pub password: String,
}

#[derive(Debug)]
pub struct LoginRequest {
    pub username: String,
    pub password: String,
}

#[derive(Debug)]
pub struct AuthResponse {
    pub token: String,
    pub user_id: String,
    pub username: String,
    pub is_admin: bool,
}

#[derive(Debug)]
pub struct ChangeUsernameRequest {
    pub new_username: String,
}

#[derive(Debug)]
pub struct ForgotPasswordRequest {
    pub email: String,
}

#[derive(Debug)]
pub struct ResetPasswordRequest {
    pub token: String,
    pub new_password: String,
}

#[derive(Debug)]
pub struct TimeoutUserRequest {
    pub user_id: String,
    pub minutes: i64,
}

#[derive(Debug)]
pub struct UpdateProfileRequest {
    pub theme: Option<String>,
    pub avatar_url: Option<String>,
    pub description: Option<String>,
    pub name_color: Option<String>,
    pub name_glow: Option<i32>,
}

#[derive(Debug)]
pub struct UploadProfilePicRequest {
    pub image_data: String,
}

/// What an administrator may set on a user's profile; absent fields keep
/// their stored value.
#[derive(Debug)]
pub struct AdminUpdateUserRequest {
    pub tags: Option<Vec<String>>,
    pub memes: Option<Vec<String>>,
    pub name_color: Option<String>,
    pub name_glow: Option<i32>,
    pub badge: Option<String>,
}

#[derive(Debug)]
pub struct CreatePlaylistRequest {
    pub name: String,
    pub description: Option<String>,
    pub matches: Vec<String>,
}

#[derive(Debug)]
pub struct UpdatePlaylistRequest {
    pub name: Option<String>,
    pub description: Option<String>,
    pub matches: Option<Vec<String>>,
}

#[derive(Debug)]
pub struct SendMessageRequest {
    pub content: String,
}

#[derive(Debug)]
pub struct GetMessagesQuery {
    pub limit: Option<i64>,
    pub offset: Option<i64>,
}

#[derive(Debug)]
pub struct DefaultSourceSetting {
    pub id: i32,
    pub source_name: String,
    pub is_default: bool,
    pub priority: i32,
    pub is_active: bool,
}

#[derive(Debug)]
pub struct UpdateDefaultSourceRequest {
    pub source_name: String,
    pub is_default: bool,
    pub priority: Option<i32>,
    pub is_active: Option<bool>,
}

#[derive(Debug)]
pub struct DefaultSourceResponse {
    pub default_source: Option<String>,
    pub all_sources: Vec<DefaultSourceSetting>,
}

#[derive(Debug)]
pub struct SyncSourcesRequest {
    pub sources: Vec<String>,
}

#[derive(Debug)]
pub struct TrackViewRequest {
    pub match_id: String,
}

#[derive(Debug)]
pub struct ViewResponse {
    pub views: i32,
}

#[derive(Debug)]
pub struct AllViewsResponse {
    pub match_id: String,
    pub views: i32,
}

} // verus!
