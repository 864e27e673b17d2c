use swaptun::dto::{
    json_bool, json_i32, json_object, json_optional_string, json_string_map, AddFriendRequest,
    AddTokenRequest, CreateUserRequest, DeezerAuthResponse, ForgotPasswordRequest,
    GetPlaylistsParams, GetSharedPlaylistsParams, GetUsersRequest, LoginEmailRequest,
    LoginRequest,
    RegisterFcmTokenRequest, RegisterRequest, RegisterResponse, RemoveFriendRequest,
    SendTestNotificationRequest, SharePlaylistRequest, SpotifyAuthResponse, VerifyTokenRequest,
};
use swaptun::error::AppError;
use swaptun::json::{find_member, get_i32, get_text, JsonField};
use swaptun::commands::{
    failure_text, fcm_token_request, forgot_password, get_autorization_url_spotify, logout,
    mark_shared_playlist_viewed, register, reset_password, search_non_friends_users,
    search_users, send_test_notification, set_fcm_token, share_playlist, status_answer,
    test_notification_request,
};
use swaptun::response::{log_error, status_to_result};
use swaptun::router::{Emission, Payload};
use swaptun::services::{
    check_create_user, validate_create_user, AppleService, AuthService, DeezerClient,
    NotificationService, PlaylistService, SpotifyClient, UserService, YoutubeClient,
};
use swaptun::transport::{Expect, Method, Platform};
use swaptun::validators::{
    any_in_class, password_verdict, phone_verdict, validate_no_spaces, validate_password,
    validate_phone, CharClass, ValidationError,
};

const BASE: &str = "http://localhost:8000/api/";

fn url(endpoint: &str) -> String {
    format!("{}{}", BASE, endpoint)
}

fn user() -> CreateUserRequest {
    CreateUserRequest {
        username: "alice".to_string(),
        password: "Passw0rd!Long".to_string(),
        first_name: "Alice".to_string(),
        last_name: "Smith".to_string(),
        email: "alice@example.com".to_string(),
    }
}

fn validation(message: &str) -> Result<(), AppError> {
    Err(AppError::Validation(message.to_string()))
}

#[test]
fn registration_request() {
    let users = UserService::new(Platform::Other, false, None);
    let request = users.register(user()).unwrap();
    assert_eq!(request.method, Method::Post);
    assert_eq!(request.url, url("register"));
    assert_eq!(
        request.body,
        Some(
            "{\"username\":\"alice\",\"password\":\"Passw0rd!Long\",\"first_name\":\"Alice\",\"last_name\":\"Smith\",\"email\":\"alice@example.com\"}"
                .to_string()
        )
    );
    assert_eq!(request.expect, Expect::Status);
}

#[test]
fn registration_rules() {
    assert_eq!(validate_create_user(&user()), Ok(()));
    let mut u = user();
    u.username = "ab".to_string();
    assert_eq!(
        validate_create_user(&u),
        validation("username must be between 3 and 200 characters")
    );
    u.username = "a".repeat(201);
    assert_eq!(
        validate_create_user(&u),
        validation("username must be between 3 and 200 characters")
    );
    u.username = "a".repeat(200);
    assert_eq!(validate_create_user(&u), Ok(()));
    u.username = "a b".to_string();
    assert_eq!(validate_create_user(&u), validation("Username cannot contain spaces"));

    let mut u = user();
    u.password = "short".to_string();
    assert!(matches!(validate_create_user(&u), Err(AppError::Validation(_))));
    u.password = "alllowercase1!".to_string();
    assert_eq!(
        validate_create_user(&u),
        validation("Password must include at least one uppercase letter, one lowercase letter, one number, and one special character (@$!%*?&)")
    );

    let mut u = user();
    u.first_name = "Al".to_string();
    assert_eq!(
        validate_create_user(&u),
        validation("first_name must be between 3 and 20 characters")
    );
    let mut u = user();
    u.last_name = "S".repeat(21);
    assert_eq!(
        validate_create_user(&u),
        validation("last_name must be between 3 and 20 characters")
    );
    let mut u = user();
    u.email = "not an address".to_string();
    assert_eq!(validate_create_user(&u), validation("email must be a valid e-mail address"));
    u.email = "alice".to_string();
    assert_eq!(validate_create_user(&u), validation("email must be a valid e-mail address"));
}

#[test]
fn registration_rules_in_order() {
    let mut u = user();
    u.username = "a b".to_string();
    u.first_name = String::new();
    assert_eq!(check_create_user(&u, None, false), validation("Username cannot contain spaces"));
    u.username = "alice".to_string();
    assert!(matches!(check_create_user(&u, Some(false), false), Err(AppError::Validation(_))));
    assert_eq!(
        check_create_user(&u, Some(true), false),
        validation("first_name must be between 3 and 20 characters")
    );
    u.first_name = "Alice".to_string();
    assert_eq!(
        check_create_user(&u, Some(true), false),
        validation("email must be a valid e-mail address")
    );
    assert_eq!(check_create_user(&u, Some(true), true), Ok(()));
}

#[test]
fn lengths_count_characters() {
    let mut u = user();
    u.first_name = "Zoë".to_string();
    assert_eq!(validate_create_user(&u), Ok(()));
}

#[test]
fn user_requests() {
    let users = UserService::new(Platform::Other, false, None);
    let login = users.login(LoginRequest { username: "u".to_string(), password: "p".to_string() });
    assert_eq!(login.method, Method::Post);
    assert_eq!(login.url, url("auth/login"));
    assert_eq!(login.body, Some("{\"username\":\"u\",\"password\":\"p\"}".to_string()));
    assert_eq!(login.expect, Expect::Json);

    let by_email = users
        .login_email(LoginEmailRequest { email: "e@x.io".to_string(), password: "p".to_string() });
    assert_eq!(by_email.url, url("auth/login_email"));
    assert_eq!(by_email.body, Some("{\"email\":\"e@x.io\",\"password\":\"p\"}".to_string()));
    assert_eq!(by_email.expect, Expect::Json);

    let verify = users.verify_token(VerifyTokenRequest { token: "t".to_string() });
    assert_eq!(verify.url, url("auth/verify_token"));
    assert_eq!(verify.body, Some("{\"token\":\"t\"}".to_string()));
    assert_eq!(verify.expect, Expect::Json);

    let forgot = users.forgot_password(ForgotPasswordRequest { email: "e@x.io".to_string() });
    assert_eq!(forgot.url, url("auth/forgot-password"));
    assert_eq!(forgot.body, Some("{\"email\":\"e@x.io\"}".to_string()));
    assert_eq!(forgot.expect, Expect::Status);

    let search = users.get_users(search_users(Some("bo".to_string())));
    assert_eq!(search.method, Method::Get);
    assert_eq!(search.url, url("users"));
    assert_eq!(
        search.body,
        Some(
            "{\"include_deleted\":false,\"search\":\"bo\",\"search_field\":\"Username\",\"limit\":100,\"offset\":null,\"friends_priority\":false,\"exclude_friends\":false,\"exclude_self\":true}"
                .to_string()
        )
    );
    let others = users.get_users(search_non_friends_users(None));
    assert_eq!(
        others.body,
        Some(
            "{\"include_deleted\":false,\"search\":null,\"search_field\":\"Username\",\"limit\":100,\"offset\":null,\"friends_priority\":true,\"exclude_friends\":true,\"exclude_self\":true}"
                .to_string()
        )
    );

    let friends = users.get_friends();
    assert_eq!(friends.method, Method::Get);
    assert_eq!(friends.url, url("users/friends"));
    assert_eq!(friends.body, None);

    let add = users.add_friend(AddFriendRequest { user_id: 5 });
    assert_eq!(add.url, url("users/friends/add"));
    assert_eq!(add.body, Some("{\"user_id\":5}".to_string()));
    let remove = users.remove_friend(RemoveFriendRequest { user_id: -5 });
    assert_eq!(remove.url, url("users/friends/remove"));
    assert_eq!(remove.body, Some("{\"user_id\":-5}".to_string()));
}

#[test]
fn auth_requests() {
    let auth = AuthService::new(Platform::Other, false, None);
    let login = auth.login("u", "p\\q");
    assert_eq!(login.url, url("auth/login"));
    assert_eq!(login.body, Some("{\"username\":\"u\",\"password\":\"p\\\\q\"}".to_string()));
    let by_email =
        auth.login_email(LoginEmailRequest { email: "e@x.io".to_string(), password: "p".to_string() });
    assert_eq!(by_email.url, url("auth/login_email"));
    assert_eq!(by_email.expect, Expect::Json);
}

#[test]
fn playlist_requests() {
    let playlists = PlaylistService::new(Platform::Other, false, None);
    assert_eq!(playlists.base_url, "playlists");
    let all = playlists.get_playlists(GetPlaylistsParams { origin: None });
    assert_eq!(all.method, Method::Get);
    assert_eq!(all.url, url("playlists"));
    assert_eq!(all.body, Some("{\"origin\":null}".to_string()));

    let send = playlists.send_playlist(7, "{\"destination\":\"Deezer\"}".to_string());
    assert_eq!(send.method, Method::Post);
    assert_eq!(send.url, url("playlists/7/send"));
    assert_eq!(send.body, Some("{\"destination\":\"Deezer\"}".to_string()));
    assert_eq!(send.expect, Expect::Json);

    let share = playlists.share_playlist(1234567890, SharePlaylistRequest { user_id: 3 });
    assert_eq!(share.url, url("playlists/1234567890/share"));
    assert_eq!(share.body, Some("{\"user_id\":3}".to_string()));
    assert_eq!(share.expect, Expect::Status);

    let shared = playlists.get_shared_playlists();
    assert_eq!(shared.method, Method::Get);
    assert_eq!(shared.url, url("playlists/shared"));
    assert_eq!(shared.body, Some("{\"include_musics\":true}".to_string()));

    let viewed = playlists.mark_shared_playlist_viewed(0);
    assert_eq!(viewed.method, Method::Post);
    assert_eq!(viewed.url, url("playlists/shared/0/viewed"));
    assert_eq!(viewed.body, Some("{}".to_string()));

    let musics = playlists.get_playlist_musics(-2147483648);
    assert_eq!(musics.method, Method::Get);
    assert_eq!(musics.url, url("playlists/-2147483648/musics"));
    assert_eq!(musics.body, None);
}

#[test]
fn music_service_requests() {
    let spotify = SpotifyClient::new(Platform::Other, false, None);
    assert_eq!(spotify.get_auth_url().url, url("spotify/authorization-url"));
    assert_eq!(spotify.get_auth_url().method, Method::Get);
    assert_eq!(spotify.add_token(AddTokenRequest { token: "t".to_string() }).url, url("spotify/token"));
    assert_eq!(spotify.import_playlist_backend_request().body, Some(String::new()));
    assert_eq!(spotify.disconnect().method, Method::Delete);
    assert_eq!(spotify.disconnect().url, url("spotify/disconnect"));

    let youtube = YoutubeClient::new(Platform::Other, false, None);
    assert_eq!(youtube.get_auth_url().url, url("youtube/authorization-url"));
    assert_eq!(youtube.add_token(AddTokenRequest { token: "t".to_string() }).url, url("youtube/token"));
    assert_eq!(youtube.disconnect().url, url("youtube/disconnect"));
    assert_eq!(youtube.disconnect().method, Method::Delete);

    let apple = AppleService::new(Platform::Other, false, None);
    assert_eq!(apple.get_developer_token().url, url("apple/developer-token"));
    let token = apple.send_authorization_token(AddTokenRequest { token: "t".to_string() });
    assert_eq!(token.url, url("apple/token"));
    assert_eq!(token.body, Some("{\"token\":\"t\"}".to_string()));
    assert_eq!(apple.synchronize_playlists().url, url("apple/synchronize"));
    assert_eq!(apple.synchronize_playlists().method, Method::Post);
    assert_eq!(apple.disconnect().url, url("apple/disconnect"));

    let deezer = DeezerClient::new(Platform::Ios, true, None);
    assert_eq!(deezer.backend_client.base_url(), "http://192.168.50.54:8000/api");
}

#[test]
fn notification_requests() {
    let service = NotificationService::new(Platform::Other, false, None);
    let fcm = service.set_fcm_token(fcm_token_request("tok".to_string()));
    assert_eq!(fcm.url, url("notifications/fcm-token"));
    assert_eq!(
        fcm.body,
        Some(
            "{\"token\":\"tok\",\"device_id\":\"default_device_id\",\"platform\":\"default_platform\"}"
                .to_string()
        )
    );
    let bare = service.set_fcm_token(RegisterFcmTokenRequest {
        token: "tok".to_string(),
        device_id: None,
        platform: None,
    });
    assert_eq!(
        bare.body,
        Some("{\"token\":\"tok\",\"device_id\":null,\"platform\":null}".to_string())
    );
    let test = service
        .send_test_notification(test_notification_request("Hi".to_string(), "There".to_string(), 9));
    assert_eq!(test.url, url("notifications/test-notification"));
    assert_eq!(
        test.body,
        Some(
            "{\"user_id\":9,\"title\":\"Hi\",\"body\":\"There\",\"data\":{\"route\":\"/register\"}}"
                .to_string()
        )
    );
    let without = service.send_test_notification(SendTestNotificationRequest {
        user_id: 9,
        title: "Hi".to_string(),
        body: "There".to_string(),
        data: None,
    });
    assert_eq!(
        without.body,
        Some("{\"user_id\":9,\"title\":\"Hi\",\"body\":\"There\",\"data\":null}".to_string())
    );
}

#[test]
fn json_writing() {
    assert_eq!(json_object(&vec![]), "{}");
    assert_eq!(
        json_object(&vec![
            ("\"a\"".to_string(), "1".to_string()),
            ("\"b\"".to_string(), "true".to_string()),
            ("\"c\"".to_string(), "null".to_string())
        ]),
        "{\"a\":1,\"b\":true,\"c\":null}"
    );
    assert_eq!(json_i32(0), "0");
    assert_eq!(json_i32(-17), "-17");
    assert_eq!(json_i32(2147483647), "2147483647");
    assert_eq!(json_bool(true), "true");
    assert_eq!(json_bool(false), "false");
    assert_eq!(json_optional_string(&None), "null");
    assert_eq!(json_optional_string(&Some("a\nb".to_string())), "\"a\\nb\"");
    assert_eq!(json_string_map(&None), "null");
    assert_eq!(json_string_map(&Some(vec![])), "{}");
    assert_eq!(
        json_string_map(&Some(vec![
            ("k".to_string(), "v".to_string()),
            ("q\"".to_string(), "w".to_string())
        ])),
        "{\"k\":\"v\",\"q\\\"\":\"w\"}"
    );
    assert_eq!(
        (GetSharedPlaylistsParams { include_musics: false }).to_json(),
        "{\"include_musics\":false}"
    );
}

#[test]
fn json_reading() {
    let members = vec![
        ("a".to_string(), JsonField::Number(Some(5))),
        ("b".to_string(), JsonField::Text("x".to_string())),
        ("a".to_string(), JsonField::Number(Some(6))),
        ("big".to_string(), JsonField::Number(Some(1 << 40))),
        ("f".to_string(), JsonField::Number(None)),
    ];
    assert_eq!(find_member(&members, "a"), Some(&JsonField::Number(Some(5))));
    assert_eq!(find_member(&members, "c"), None);
    assert_eq!(get_i32(&members, "a"), Some(5));
    assert_eq!(get_i32(&members, "b"), None);
    assert_eq!(get_i32(&members, "big"), None);
    assert_eq!(get_i32(&members, "f"), None);
    assert_eq!(get_text(&members, "b"), Some("x".to_string()));
    assert_eq!(get_text(&members, "a"), None);
    assert_eq!(get_text(&members, "zz"), None);
}

#[test]
fn plain_records() {
    let request = RegisterRequest {
        username: "u".to_string(),
        password: "p".to_string(),
        email: "e".to_string(),
    };
    assert_eq!(request.clone(), request);
    let response = RegisterResponse { message: "ok".to_string() };
    assert_eq!(response.message, "ok");
    let deezer = DeezerAuthResponse { _access_token: "a".to_string(), _expires: 10 };
    assert_eq!(deezer._expires, 10);
    let spotify = SpotifyAuthResponse {
        _access_token: "a".to_string(),
        _token_type: "Bearer".to_string(),
        _expires_in: 3600,
    };
    assert_eq!(spotify._expires_in, 3600);
}

#[test]
fn usernames_without_spaces() {
    assert_eq!(validate_no_spaces("alice"), Ok(()));
    assert_eq!(validate_no_spaces(""), Ok(()));
    assert_eq!(
        validate_no_spaces("a b"),
        Err(ValidationError {
            code: "no_spaces".to_string(),
            message: "Username cannot contain spaces".to_string(),
        })
    );
    assert!(validate_no_spaces("trailing ").is_err());
    assert_eq!(ValidationError::new("c", "m").code, "c");
}

#[test]
fn password_rules() {
    assert_eq!(validate_password("Passw0rd!Long"), Ok(()));
    assert_eq!(validate_password("Aa1@aaaaaa"), Ok(()));
    assert_eq!(validate_password("Aa1_aaaaaaaaaaaaaaaa"), Ok(()));
    let format = |p: &str| validate_password(p).unwrap_err().code;
    assert_eq!(format("Aa1@aaaaa"), "invalid_password_format");
    assert_eq!(format("Aa1@aaaaaaaaaaaaaaaaa"), "invalid_password_format");
    assert_eq!(format("Passw0rd! Long"), "invalid_password_format");
    assert_eq!(format("Passw0rd#Long"), "invalid_password_format");
    assert_eq!(format("passw0rd!long"), "invalid_password_requirement");
    assert_eq!(format("PASSW0RD!LONG"), "invalid_password_requirement");
    assert_eq!(format("Password!Long"), "invalid_password_requirement");
    assert_eq!(format("Passw0rdXLong"), "invalid_password_requirement");
}

#[test]
fn password_verdicts() {
    assert_eq!(password_verdict(Some(true), "Passw0rd-Long"), Ok(()));
    assert_eq!(
        password_verdict(Some(false), "Passw0rd-Long").unwrap_err().code,
        "invalid_password_format"
    );
    assert_eq!(
        password_verdict(None, "Passw0rd-Long").unwrap_err().message,
        "Password must be 10-20 characters and must contain lower and upper letters, numbers, and special characters (@$!%*?&)"
    );
    assert_eq!(
        password_verdict(Some(true), "password").unwrap_err().code,
        "invalid_password_requirement"
    );
    let chars: Vec<char> = "aB3-".chars().collect();
    assert!(any_in_class(&chars, CharClass::Lowercase));
    assert!(any_in_class(&chars, CharClass::Uppercase));
    assert!(any_in_class(&chars, CharClass::Digit));
    assert!(any_in_class(&chars, CharClass::Special));
    let plain: Vec<char> = "#é ".chars().collect();
    assert!(!any_in_class(&plain, CharClass::Lowercase));
    assert!(!any_in_class(&plain, CharClass::Uppercase));
    assert!(!any_in_class(&plain, CharClass::Digit));
    assert!(!any_in_class(&plain, CharClass::Special));
}

#[test]
fn phone_rules() {
    assert_eq!(validate_phone("+123-1234567890"), Ok(()));
    assert_eq!(validate_phone("-123456"), Ok(()));
    assert_eq!(
        validate_phone("1234567890"),
        Err(ValidationError {
            code: "invalid_phone".to_string(),
            message: "Phone number must be in the format +123-1234567890".to_string(),
        })
    );
    assert!(validate_phone("+1234-123456").is_err());
    assert!(validate_phone("-12345").is_err());
    assert_eq!(phone_verdict(Some(true)), Ok(()));
    assert!(phone_verdict(Some(false)).is_err());
    assert!(phone_verdict(None).is_err());
}

#[test]
fn status_results() {
    assert_eq!(status_to_result(200, "Import"), Ok(true));
    assert_eq!(status_to_result(204, "Import"), Ok(true));
    assert_eq!(
        status_to_result(404, "Import"),
        Err("Import failed with status: 404".to_string())
    );
    assert_eq!(log_error("boom", "Sync"), "Sync: boom");
}

#[test]
fn command_answers() {
    assert_eq!(register(Ok(201)), Ok(true));
    assert_eq!(register(Ok(400)), Err("Failed to register".to_string()));
    assert_eq!(
        register(Err(AppError::Backend("user exists".to_string()))),
        Err("Error: Backend error: user exists".to_string())
    );
    assert_eq!(forgot_password(Ok(200)), Ok(true));
    assert_eq!(
        forgot_password(Ok(500)),
        Err("Failed to send forgot password request, status: 500".to_string())
    );
    assert_eq!(
        forgot_password(Err(AppError::Network("Request timeout".to_string()))),
        Err("Network error: Request timeout".to_string())
    );
    assert_eq!(reset_password(Ok(302)), Err("Failed to reset password, status: 302".to_string()));
    assert_eq!(share_playlist(Ok(403)), Err("Failed to share playlist, status: 403".to_string()));
    assert_eq!(
        mark_shared_playlist_viewed(Ok(404)),
        Err("Failed to mark playlist as viewed, status: 404".to_string())
    );
    assert_eq!(set_fcm_token(Ok(401)), Err("Failed to set FCM token, status: 401".to_string()));
    assert_eq!(
        send_test_notification(Ok(400)),
        Err("Failed to send test notification, status: 400".to_string())
    );
    assert_eq!(send_test_notification(Ok(200)), Ok(true));
    assert_eq!(status_answer(Ok(299), "x"), Ok(true));
    assert_eq!(status_answer(Ok(65535), "x"), Err("x, status: 65535".to_string()));
}

#[test]
fn user_search_filters() {
    let plain = search_users(Some("bo".to_string()));
    assert_eq!(plain.search, Some("bo".to_string()));
    assert_eq!(plain.limit, Some(100));
    assert!(!plain.friends_priority);
    assert!(!plain.exclude_friends);
    let others = search_non_friends_users(None);
    assert_eq!(others.search, None);
    assert!(others.friends_priority);
    assert!(others.exclude_friends);
    assert_eq!(others.exclude_self, Some(true));
    let empty = GetUsersRequest {
        include_deleted: None,
        search: None,
        search_field: None,
        limit: None,
        offset: Some(20),
        friends_priority: false,
        exclude_friends: false,
        exclude_self: None,
    };
    assert_eq!(
        empty.to_json(),
        "{\"include_deleted\":null,\"search\":null,\"search_field\":null,\"limit\":null,\"offset\":20,\"friends_priority\":false,\"exclude_friends\":false,\"exclude_self\":null}"
    );
}

#[test]
fn command_failures_in_words() {
    assert_eq!(
        failure_text("Error fetching friends", &AppError::Network("Request timeout".to_string())),
        "Error fetching friends: Network error: Request timeout"
    );
    assert_eq!(
        get_autorization_url_spotify(Ok("https://accounts.example/a".to_string())),
        Ok("https://accounts.example/a".to_string())
    );
    assert_eq!(
        get_autorization_url_spotify(Err(AppError::Internal("boom".to_string()))),
        Err("Error: Internal error: boom".to_string())
    );
    assert_eq!(
        logout(),
        Emission { channel: "logout".to_string(), payload: Payload::Text(String::new()) }
    );
}
