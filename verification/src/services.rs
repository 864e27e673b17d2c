//! The domain services: one per area of the backend. Each assembles the
//! request of an operation; the pipeline of its client carries it out.
use vstd::prelude::*;
use vstd::string::*;
use crate::dto::{
    login_json, AddFriendRequest, AddTokenRequest, CreateUserRequest, ForgotPasswordRequest,
    GetPlaylistsParams, GetSharedPlaylistsParams, GetUsersRequest, LoginEmailRequest, LoginRequest,
    RegisterFcmTokenRequest, RemoveFriendRequest, ResetPasswordRequest,
    SendTestNotificationRequest, SharePlaylistRequest, VerifyTokenRequest,
};
use crate::error::{AppError, AppResult, ErrorKind};
use crate::models::text_of;
use crate::text::{decimal_text, int_to_string};
use crate::transport::{
    base_url_spec, endpoint_url, BackendClient, Expect, Method, Platform, RequestSpec,
    RequestSpecView,
};
use crate::validators::{
    email_format, email_is_valid, has_space, password_verdict_spec, regex_is_match, regex_matches,
    password_verdict, validate_no_spaces, PASSWORD_PATTERN,
};

verus! {

/// The request of an operation on a client with the given base address.
pub open spec fn request_of(
    method: Method,
    base: Seq<char>,
    endpoint: Seq<char>,
    body: Option<Seq<char>>,
    expect: Expect,
) -> RequestSpecView {
    RequestSpecView { method, url: endpoint_url(base, endpoint), body, expect }
}

/// The endpoint of an operation on one item: base, `/`, the id, the suffix.
pub open spec fn item_endpoint(base: Seq<char>, id: int, suffix: Seq<char>) -> Seq<char> {
    base + "/"@ + decimal_text(id) + suffix
}

fn item_path(base: &str, id: i32, suffix: &str) -> (r: String)
    ensures
        r@ == item_endpoint(base@, id as int, suffix@),
{
    let mut path = String::from_str(base);
    path.append("/");
    path.append(int_to_string(id as i64).as_str());
    path.append(suffix);
    path
}

pub open spec fn length_ok(s: Seq<char>, min: nat, max: nat) -> bool {
    min <= s.len() <= max
}

/// The message with which a registration is rejected, if it is: the first
/// rule that fails, in the order username, password, first name, last name,
/// e-mail address. `password_format` and `email_ok` are the outcomes of the
/// two format checks.
pub open spec fn create_user_verdict(
    request: CreateUserRequest,
    password_format: Option<bool>,
    email_ok: bool,
) -> Option<Seq<char>> {
    if !length_ok(request.username@, 3, 200) {
        Some("username must be between 3 and 200 characters"@)
    } else if has_space(request.username@) {
        Some("Username cannot contain spaces"@)
    } else if password_verdict_spec(password_format, request.password@) is Some {
        Some(password_verdict_spec(password_format, request.password@).unwrap().1)
    } else if !length_ok(request.first_name@, 3, 20) {
        Some("first_name must be between 3 and 20 characters"@)
    } else if !length_ok(request.last_name@, 3, 20) {
        Some("last_name must be between 3 and 20 characters"@)
    } else if !email_ok {
        Some("email must be a valid e-mail address"@)
    } else {
        None
    }
}

fn check_length(s: &str, min: usize, max: usize) -> (b: bool)
    ensures
        b == length_ok(s@, min as nat, max as nat),
{
    let n = s.unicode_len();
    min <= n && n <= max
}

fn validation(message: &str) -> (r: Result<(), AppError>)
    ensures
        r matches Err(e) && e@ == (ErrorKind::Validation, message@),
{
    Err(AppError::Validation(String::from_str(message)))
}

pub open spec fn check_view(r: Result<(), AppError>) -> Option<(ErrorKind, Seq<char>)> {
    match r {
        Ok(_) => None,
        Err(e) => Some(e@),
    }
}

pub open spec fn validation_view(message: Option<Seq<char>>) -> Option<(ErrorKind, Seq<char>)> {
    match message {
        Some(m) => Some((ErrorKind::Validation, m)),
        None => None,
    }
}

/// Applies the registration rules, the two format checks being made already.
pub fn check_create_user(request: &CreateUserRequest, password_format: Option<bool>, email_ok: bool)
    -> (r: Result<(), AppError>)
    ensures
        check_view(r) == validation_view(create_user_verdict(*request, password_format, email_ok)),
{
    if !check_length(request.username.as_str(), 3, 200) {
        return validation("username must be between 3 and 200 characters");
    }
    match validate_no_spaces(request.username.as_str()) {
        Err(e) => {
            return Err(AppError::Validation(e.message));
        },
        Ok(_) => {},
    }
    match password_verdict(password_format, request.password.as_str()) {
        Err(e) => {
            return Err(AppError::Validation(e.message));
        },
        Ok(_) => {},
    }
    if !check_length(request.first_name.as_str(), 3, 20) {
        return validation("first_name must be between 3 and 20 characters");
    }
    if !check_length(request.last_name.as_str(), 3, 20) {
        return validation("last_name must be between 3 and 20 characters");
    }
    if !email_ok {
        return validation("email must be a valid e-mail address");
    }
    Ok(())
}

/// Applies the registration rules to a request.
pub fn validate_create_user(request: &CreateUserRequest) -> (r: Result<(), AppError>)
    ensures
        check_view(r) == validation_view(
            create_user_verdict(
                *request,
                regex_matches(PASSWORD_PATTERN@, request.password@),
                email_format(request.email@),
            ),
        ),
{
    let password_format = regex_is_match(PASSWORD_PATTERN, request.password.as_str());
    let email_ok = email_is_valid(request.email.as_str());
    check_create_user(request, password_format, email_ok)
}

/// Accounts, sessions and friends.
pub struct UserService {
    pub backend_client: BackendClient,
}

impl UserService {
    pub fn new(platform: Platform, debug: bool, dev_host: Option<String>) -> (s: Self)
        ensures
            s.backend_client.base() == base_url_spec(platform, debug, text_of(dev_host)),
            s.backend_client.pending() is None,
    {
        Self { backend_client: BackendClient::new(platform, debug, dev_host) }
    }

    /// The registration request, unless a rule rejects the input: then a
    /// validation failure, and nothing to send.
    pub fn register(&self, request: CreateUserRequest) -> (r: AppResult<RequestSpec>)
        ensures
            match create_user_verdict(
                request,
                regex_matches(PASSWORD_PATTERN@, request.password@),
                email_format(request.email@),
            ) {
                Some(message) => r matches Err(e) && e@ == (ErrorKind::Validation, message),
                None => r matches Ok(spec) && spec@ == request_of(
                    Method::Post,
                    self.backend_client.base(),
                    "register"@,
                    Some(request.json()),
                    Expect::Status,
                ),
            },
    {
        match validate_create_user(&request) {
            Err(e) => Err(e),
            Ok(_) => Ok(self.backend_client.post("register", request.to_json())),
        }
    }

    pub fn login(&self, login_request: LoginRequest) -> (r: RequestSpec)
        ensures
            r@ == request_of(
                Method::Post,
                self.backend_client.base(),
                "auth/login"@,
                Some(login_request.json()),
                Expect::Json,
            ),
    {
        self.backend_client.post_with_return("auth/login", login_request.to_json())
    }

    pub fn login_email(&self, login_request: LoginEmailRequest) -> (r: RequestSpec)
        ensures
            r@ == request_of(
                Method::Post,
                self.backend_client.base(),
                "auth/login_email"@,
                Some(login_request.json()),
                Expect::Json,
            ),
    {
        self.backend_client.post_with_return("auth/login_email", login_request.to_json())
    }

    pub fn verify_token(&self, request: VerifyTokenRequest) -> (r: RequestSpec)
        ensures
            r@ == request_of(
                Method::Post,
                self.backend_client.base(),
                "auth/verify_token"@,
                Some(request.json()),
                Expect::Json,
            ),
    {
        self.backend_client.post_with_return("auth/verify_token", request.to_json())
    }

    pub fn forgot_password(&self, req: ForgotPasswordRequest) -> (r: RequestSpec)
        ensures
            r@ == request_of(
                Method::Post,
                self.backend_client.base(),
                "auth/forgot-password"@,
                Some(req.json()),
                Expect::Status,
            ),
    {
        self.backend_client.post("auth/forgot-password", req.to_json())
    }

    /// Arms `token` for the next request of this service's client, then
    /// assembles the reset request.
    pub fn reset_password(&mut self, token: String, request: ResetPasswordRequest) -> (r:
        RequestSpec)
        ensures
            final(self).backend_client.pending() == Some(token@),
            final(self).backend_client.base() == old(self).backend_client.base(),
            r@ == request_of(
                Method::Post,
                old(self).backend_client.base(),
                "users/reset-password"@,
                Some(request.json()),
                Expect::Status,
            ),
    {
        self.backend_client.set_temporary_token(token);
        self.backend_client.post("users/reset-password", request.to_json())
    }

    pub fn get_users(&self, request: GetUsersRequest) -> (r: RequestSpec)
        ensures
            r@ == request_of(
                Method::Get,
                self.backend_client.base(),
                "users"@,
                Some(request.json()),
                Expect::Json,
            ),
    {
        self.backend_client.get_with_body("users", request.to_json())
    }

    pub fn get_friends(&self) -> (r: RequestSpec)
        ensures
            r@ == request_of(
                Method::Get,
                self.backend_client.base(),
                "users/friends"@,
                None,
                Expect::Json,
            ),
    {
        self.backend_client.get("users/friends")
    }

    pub fn add_friend(&self, request: AddFriendRequest) -> (r: RequestSpec)
        ensures
            r@ == request_of(
                Method::Post,
                self.backend_client.base(),
                "users/friends/add"@,
                Some(request.json()),
                Expect::Status,
            ),
    {
        self.backend_client.post("users/friends/add", request.to_json())
    }

    pub fn remove_friend(&self, request: RemoveFriendRequest) -> (r: RequestSpec)
        ensures
            r@ == request_of(
                Method::Post,
                self.backend_client.base(),
                "users/friends/remove"@,
                Some(request.json()),
                Expect::Status,
            ),
    {
        self.backend_client.post("users/friends/remove", request.to_json())
    }
}

/// Logins, by name or by e-mail address.
pub struct AuthService {
    pub backend_client: BackendClient,
}

impl AuthService {
    pub fn new(platform: Platform, debug: bool, dev_host: Option<String>) -> (s: Self)
        ensures
            s.backend_client.base() == base_url_spec(platform, debug, text_of(dev_host)),
            s.backend_client.pending() is None,
    {
        Self { backend_client: BackendClient::new(platform, debug, dev_host) }
    }

    pub fn login(&self, username: &str, password: &str) -> (r: RequestSpec)
        ensures
            r@ == request_of(
                Method::Post,
                self.backend_client.base(),
                "auth/login"@,
                Some(login_json(username@, password@)),
                Expect::Json,
            ),
    {
        let request = LoginRequest {
            username: String::from_str(username),
            password: String::from_str(password),
        };
        let body = request.to_json();
        self.backend_client.post_with_return("auth/login", body)
    }

    pub fn login_email(&self, request: LoginEmailRequest) -> (r: RequestSpec)
        ensures
            r@ == request_of(
                Method::Post,
                self.backend_client.base(),
                "auth/login_email"@,
                Some(request.json()),
                Expect::Json,
            ),
    {
        self.backend_client.post_with_return("auth/login_email", request.to_json())
    }
}

/// Playlists: listing, sending, sharing.
pub struct PlaylistService {
    pub backend_client: BackendClient,
    /// The endpoint that the operations of this service live under.
    pub base_url: String,
}

impl PlaylistService {
    pub open spec fn root(&self) -> Seq<char> {
        self.base_url@
    }

    pub fn new(platform: Platform, debug: bool, dev_host: Option<String>) -> (s: Self)
        ensures
            s.backend_client.base() == base_url_spec(platform, debug, text_of(dev_host)),
            s.backend_client.pending() is None,
            s.root() == "playlists"@,
    {
        Self {
            backend_client: BackendClient::new(platform, debug, dev_host),
            base_url: String::from_str("playlists"),
        }
    }

    pub fn get_playlists(&self, params: GetPlaylistsParams) -> (r: RequestSpec)
        ensures
            r@ == request_of(
                Method::Get,
                self.backend_client.base(),
                self.root(),
                Some(params.json()),
                Expect::Json,
            ),
    {
        self.backend_client.get_with_body(self.base_url.as_str(), params.to_json())
    }

    /// Sends a playlist to another service; `target` is the serialized target.
    pub fn send_playlist(&self, playlist_id: i32, target: String) -> (r: RequestSpec)
        ensures
            r@ == request_of(
                Method::Post,
                self.backend_client.base(),
                item_endpoint(self.root(), playlist_id as int, "/send"@),
                Some(target@),
                Expect::Json,
            ),
    {
        let url = item_path(self.base_url.as_str(), playlist_id, "/send");
        self.backend_client.post_with_return(url.as_str(), target)
    }

    pub fn share_playlist(&self, playlist_id: i32, req: SharePlaylistRequest) -> (r: RequestSpec)
        ensures
            r@ == request_of(
                Method::Post,
                self.backend_client.base(),
                item_endpoint(self.root(), playlist_id as int, "/share"@),
                Some(req.json()),
                Expect::Status,
            ),
    {
        let url = item_path(self.base_url.as_str(), playlist_id, "/share");
        self.backend_client.post(url.as_str(), req.to_json())
    }

    pub fn get_shared_playlists(&self) -> (r: RequestSpec)
        ensures
            r@ == request_of(
                Method::Get,
                self.backend_client.base(),
                self.root() + "/shared"@,
                Some((GetSharedPlaylistsParams { include_musics: true }).json()),
                Expect::Json,
            ),
    {
        let params = GetSharedPlaylistsParams { include_musics: true };
        let mut url = self.base_url.clone();
        url.append("/shared");
        self.backend_client.get_with_body(url.as_str(), params.to_json())
    }

    pub fn mark_shared_playlist_viewed(&self, shared_playlist_id: i32) -> (r: RequestSpec)
        ensures
            r@ == request_of(
                Method::Post,
                self.backend_client.base(),
                item_endpoint(self.root() + "/shared"@, shared_playlist_id as int, "/viewed"@),
                Some("{}"@),
                Expect::Status,
            ),
    {
        let mut shared = self.base_url.clone();
        shared.append("/shared");
        let url = item_path(shared.as_str(), shared_playlist_id, "/viewed");
        self.backend_client.post(url.as_str(), String::from_str("{}"))
    }

    pub fn get_playlist_musics(&self, playlist_id: i32) -> (r: RequestSpec)
        ensures
            r@ == request_of(
                Method::Get,
                self.backend_client.base(),
                item_endpoint(self.root(), playlist_id as int, "/musics"@),
                None,
                Expect::Json,
            ),
    {
        let url = item_path(self.base_url.as_str(), playlist_id, "/musics");
        self.backend_client.get(url.as_str())
    }
}

/// The Spotify connection.
pub struct SpotifyClient {
    pub backend_client: BackendClient,
}

impl SpotifyClient {
    pub fn new(platform: Platform, debug: bool, dev_host: Option<String>) -> (s: Self)
        ensures
            s.backend_client.base() == base_url_spec(platform, debug, text_of(dev_host)),
            s.backend_client.pending() is None,
    {
        Self { backend_client: BackendClient::new(platform, debug, dev_host) }
    }

    pub fn get_auth_url(&self) -> (r: RequestSpec)
        ensures
            r@ == request_of(
                Method::Get,
                self.backend_client.base(),
                "spotify/authorization-url"@,
                None,
                Expect::Json,
            ),
    {
        self.backend_client.get("spotify/authorization-url")
    }

    pub fn add_token(&self, req: AddTokenRequest) -> (r: RequestSpec)
        ensures
            r@ == request_of(
                Method::Post,
                self.backend_client.base(),
                "spotify/token"@,
                Some(req.json()),
                Expect::Status,
            ),
    {
        self.backend_client.post("spotify/token", req.to_json())
    }

    /// Asks the backend to import the user's playlists; the body is empty.
    pub fn import_playlist_backend_request(&self) -> (r: RequestSpec)
        ensures
            r@ == request_of(
                Method::Post,
                self.backend_client.base(),
                "spotify/playlist"@,
                Some(Seq::empty()),
                Expect::Status,
            ),
    {
        self.backend_client.post("spotify/playlist", String::new())
    }

    pub fn disconnect(&self) -> (r: RequestSpec)
        ensures
            r@ == request_of(
                Method::Delete,
                self.backend_client.base(),
                "spotify/disconnect"@,
                None,
                Expect::Status,
            ),
    {
        self.backend_client.delete("spotify/disconnect")
    }
}

/// The YouTube Music connection.
pub struct YoutubeClient {
    pub backend_client: BackendClient,
}

impl YoutubeClient {
    pub fn new(platform: Platform, debug: bool, dev_host: Option<String>) -> (s: Self)
        ensures
            s.backend_client.base() == base_url_spec(platform, debug, text_of(dev_host)),
            s.backend_client.pending() is None,
    {
        Self { backend_client: BackendClient::new(platform, debug, dev_host) }
    }

    pub fn get_auth_url(&self) -> (r: RequestSpec)
        ensures
            r@ == request_of(
                Method::Get,
                self.backend_client.base(),
                "youtube/authorization-url"@,
                None,
                Expect::Json,
            ),
    {
        self.backend_client.get("youtube/authorization-url")
    }

    pub fn add_token(&self, req: AddTokenRequest) -> (r: RequestSpec)
        ensures
            r@ == request_of(
                Method::Post,
                self.backend_client.base(),
                "youtube/token"@,
                Some(req.json()),
                Expect::Status,
            ),
    {
        self.backend_client.post("youtube/token", req.to_json())
    }

    pub fn disconnect(&self) -> (r: RequestSpec)
        ensures
            r@ == request_of(
                Method::Delete,
                self.backend_client.base(),
                "youtube/disconnect"@,
                None,
                Expect::Status,
            ),
    {
        self.backend_client.delete("youtube/disconnect")
    }
}

/// The Apple Music connection.
pub struct AppleService {
    pub backend_client: BackendClient,
}

impl AppleService {
    pub fn new(platform: Platform, debug: bool, dev_host: Option<String>) -> (s: Self)
        ensures
            s.backend_client.base() == base_url_spec(platform, debug, text_of(dev_host)),
            s.backend_client.pending() is None,
    {
        Self { backend_client: BackendClient::new(platform, debug, dev_host) }
    }

    pub fn get_developer_token(&self) -> (r: RequestSpec)
        ensures
            r@ == request_of(
                Method::Get,
                self.backend_client.base(),
                "apple/developer-token"@,
                None,
                Expect::Json,
            ),
    {
        self.backend_client.get("apple/developer-token")
    }

    pub fn send_authorization_token(&self, request: AddTokenRequest) -> (r: RequestSpec)
        ensures
            r@ == request_of(
                Method::Post,
                self.backend_client.base(),
                "apple/token"@,
                Some(request.json()),
                Expect::Status,
            ),
    {
        self.backend_client.post("apple/token", request.to_json())
    }

    /// Asks the backend to synchronize the playlists; the body is JSON `null`.
    pub fn synchronize_playlists(&self) -> (r: RequestSpec)
        ensures
            r@ == request_of(
                Method::Post,
                self.backend_client.base(),
                "apple/synchronize"@,
                Some("null"@),
                Expect::Status,
            ),
    {
        self.backend_client.post("apple/synchronize", String::from_str("null"))
    }

    pub fn disconnect(&self) -> (r: RequestSpec)
        ensures
            r@ == request_of(
                Method::Delete,
                self.backend_client.base(),
                "apple/disconnect"@,
                None,
                Expect::Status,
            ),
    {
        self.backend_client.delete("apple/disconnect")
    }
}

/// Push-notification registration.
pub struct NotificationService {
    pub backend_client: BackendClient,
}

impl NotificationService {
    pub fn new(platform: Platform, debug: bool, dev_host: Option<String>) -> (s: Self)
        ensures
            s.backend_client.base() == base_url_spec(platform, debug, text_of(dev_host)),
            s.backend_client.pending() is None,
    {
        Self { backend_client: BackendClient::new(platform, debug, dev_host) }
    }

    pub fn set_fcm_token(&self, register_fcm_token_request: RegisterFcmTokenRequest) -> (r:
        RequestSpec)
        ensures
            r@ == request_of(
                Method::Post,
                self.backend_client.base(),
                "notifications/fcm-token"@,
                Some(register_fcm_token_request.json()),
                Expect::Status,
            ),
    {
        self.backend_client.post("notifications/fcm-token", register_fcm_token_request.to_json())
    }

    pub fn send_test_notification(&self, notification_request: SendTestNotificationRequest) -> (r:
        RequestSpec)
        ensures
            r@ == request_of(
                Method::Post,
                self.backend_client.base(),
                "notifications/test-notification"@,
                Some(notification_request.json()),
                Expect::Status,
            ),
    {
        self.backend_client.post(
            "notifications/test-notification",
            notification_request.to_json(),
        )
    }
}

/// The Deezer area has no operation yet.
pub struct DeezerClient {
    pub backend_client: BackendClient,
}

impl DeezerClient {
    pub fn new(platform: Platform, debug: bool, dev_host: Option<String>) -> (s: Self)
        ensures
            s.backend_client.base() == base_url_spec(platform, debug, text_of(dev_host)),
            s.backend_client.pending() is None,
    {
        Self { backend_client: BackendClient::new(platform, debug, dev_host) }
    }
}

} // verus!
