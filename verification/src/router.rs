//! The event ingress router: what to do about a deep link, the ordered chains
//! of service calls behind the music-service connections, and the events
//! that a push notification causes.
use vstd::prelude::*;
use vstd::string::*;
use crate::deep_link::{pairs_view, DeepLink, DeepLinkView, Pairs};
use crate::dto::{
    AddFriendRequest, AddTokenRequest, CreateUserRequest, ForgotPasswordRequest,
    GetPlaylistsParams, GetSharedPlaylistsParams, GetUsersRequest, LoginEmailRequest,
    LoginRequest, PlaylistOrigin, RegisterFcmTokenRequest, RemoveFriendRequest,
    ResetPasswordRequest, SendTestNotificationRequest, SharePlaylistRequest, VerifyTokenRequest,
};
use crate::error::{AppError, AppResult, ErrorKind};
use crate::models::{text_of, Notification, NotificationView};
use crate::services::{
    create_user_verdict, item_endpoint, request_of, AppleService, DeezerClient, NotificationService, PlaylistService,
    SpotifyClient, UserService, YoutubeClient,
};
use crate::text::{has_prefix, str_eq, str_starts_with};
use crate::transport::{Expect, Method, Platform, RequestSpec, RequestSpecView};
use crate::validators::{email_format, regex_matches, PASSWORD_PATTERN};

verus! {

/// What an outbound event carries.
#[derive(Clone, Debug, PartialEq, Eq)]
pub enum Payload {
    /// A plain string.
    Text(String),
    /// A decoded response of the backend, as JSON text.
    Json(String),
    /// A whole push notification.
    Notification(Notification),
}

pub enum PayloadView {
    Text(Seq<char>),
    Json(Seq<char>),
    Notification(NotificationView),
}

impl View for Payload {
    type V = PayloadView;

    open spec fn view(&self) -> PayloadView {
        match self {
            Payload::Text(s) => PayloadView::Text(s@),
            Payload::Json(s) => PayloadView::Json(s@),
            Payload::Notification(n) => PayloadView::Notification(n@),
        }
    }
}

/// An outbound event: a payload on a named channel of the user interface.
#[derive(Clone, Debug, PartialEq, Eq)]
pub struct Emission {
    pub channel: String,
    pub payload: Payload,
}

pub struct EmissionView {
    pub channel: Seq<char>,
    pub payload: PayloadView,
}

impl View for Emission {
    type V = EmissionView;

    open spec fn view(&self) -> EmissionView {
        EmissionView { channel: self.channel@, payload: self.payload@ }
    }
}

pub open spec fn emission_option_view(o: Option<Emission>) -> Option<EmissionView> {
    match o {
        Some(e) => Some(e@),
        None => None,
    }
}

/// What the router decided about a batch of deep links.
#[derive(Clone, Debug, PartialEq, Eq)]
pub enum DeepLinkAction {
    Ignore,
    /// Run the Spotify chain with this authorization code.
    SpotifyAuth { code: Option<String> },
    /// Hand this authorization code to the YouTube service.
    YoutubeAuth { code: Option<String> },
    /// Emit `target` on the `routing` channel.
    Routing { target: String },
}

pub enum DeepLinkActionView {
    Ignore,
    SpotifyAuth { code: Option<Seq<char>> },
    YoutubeAuth { code: Option<Seq<char>> },
    Routing { target: Seq<char> },
}

impl View for DeepLinkAction {
    type V = DeepLinkActionView;

    open spec fn view(&self) -> DeepLinkActionView {
        match self {
            DeepLinkAction::Ignore => DeepLinkActionView::Ignore,
            DeepLinkAction::SpotifyAuth { code } => DeepLinkActionView::SpotifyAuth {
                code: text_of(*code),
            },
            DeepLinkAction::YoutubeAuth { code } => DeepLinkActionView::YoutubeAuth {
                code: text_of(*code),
            },
            DeepLinkAction::Routing { target } => DeepLinkActionView::Routing { target: target@ },
        }
    }
}

/// The value of the last pair named `code`.
pub open spec fn last_code(pairs: Pairs) -> Option<Seq<char>>
    decreases pairs.len(),
{
    if pairs.len() == 0 {
        None
    } else if pairs.last().0 == "code"@ {
        Some(pairs.last().1)
    } else {
        last_code(pairs.drop_last())
    }
}

/// Reads the authorization code from the pairs of a query.
pub fn find_code(pairs: &Vec<(String, String)>) -> (r: Option<String>)
    ensures
        text_of(r) == last_code(pairs_view(pairs@)),
{
    let ghost all = pairs_view(pairs@);
    let mut code: Option<String> = None;
    let mut i: usize = 0;
    proof {
        assert(all.take(0) =~= Seq::empty());
    }
    while i < pairs.len()
        invariant
            i <= pairs.len(),
            all == pairs_view(pairs@),
            text_of(code) == last_code(all.take(i as int)),
        decreases pairs.len() - i,
    {
        proof {
            assert(all.take(i + 1).drop_last() =~= all.take(i as int));
            assert(all.take(i + 1).last() == all[i as int]);
        }
        if str_eq(pairs[i].0.as_str(), "code") {
            code = Some(pairs[i].1.clone());
        }
        i += 1;
    }
    proof {
        assert(all.take(i as int) =~= all);
    }
    code
}

/// The target of a routing event: the path, `?`, and the query if any.
pub open spec fn routing_target(link: DeepLinkView) -> Seq<char> {
    link.path + "?"@ + match link.query {
        Some(q) => q,
        None => Seq::empty(),
    }
}

/// What a deep link asks for, by its path.
pub open spec fn dispatch_spec(link: DeepLinkView) -> DeepLinkActionView {
    if link.path == "/open/spotify"@ {
        DeepLinkActionView::SpotifyAuth { code: last_code(link.pairs) }
    } else if link.path == "/open/youtube"@ {
        DeepLinkActionView::YoutubeAuth { code: last_code(link.pairs) }
    } else if has_prefix(link.path, "/reset-password"@) {
        DeepLinkActionView::Routing { target: routing_target(link) }
    } else {
        DeepLinkActionView::Ignore
    }
}

/// What a batch of deep links asks for: only its first address counts.
pub open spec fn batch_spec(urls: Seq<DeepLink>) -> DeepLinkActionView {
    if urls.len() == 0 {
        DeepLinkActionView::Ignore
    } else {
        dispatch_spec(urls[0]@)
    }
}

/// Two batches with the same first address ask for the same thing: the
/// addresses after the first never count.
pub proof fn law_first_link_only(a: Seq<DeepLink>, b: Seq<DeepLink>)
    requires
        a.len() > 0,
        b.len() > 0,
        a[0]@ == b[0]@,
    ensures
        batch_spec(a) == batch_spec(b),
{
}

/// What the caller of a chain has to do next.
#[derive(Debug, PartialEq, Eq)]
pub enum Command {
    /// The event did not fit the state: nothing to do.
    Idle,
    /// Run this request through the pipeline and report its outcome.
    Call(RequestSpec),
    /// Open the address in a browser tab, preferring the native application.
    OpenCustomTab { url: String },
    /// Hand the developer token to the music SDK and ask it to authorize.
    Authorize { developer_token: String },
    /// Ask the music SDK for the user token.
    GetUserToken,
    /// The chain is over: emit the event, if any, and return the result.
    Finish { emit: Option<Emission>, result: AppResult<String> },
}

pub enum CommandView {
    Idle,
    Call(RequestSpecView),
    OpenCustomTab { url: Seq<char> },
    Authorize { developer_token: Seq<char> },
    GetUserToken,
    Finish { emit: Option<EmissionView>, result: Result<Seq<char>, (ErrorKind, Seq<char>)> },
}

pub open spec fn outcome_view(r: AppResult<String>) -> Result<Seq<char>, (ErrorKind, Seq<char>)> {
    match r {
        Ok(s) => Ok(s@),
        Err(e) => Err(e@),
    }
}

impl View for Command {
    type V = CommandView;

    open spec fn view(&self) -> CommandView {
        match self {
            Command::Idle => CommandView::Idle,
            Command::Call(r) => CommandView::Call(r@),
            Command::OpenCustomTab { url } => CommandView::OpenCustomTab { url: url@ },
            Command::Authorize { developer_token } => CommandView::Authorize {
                developer_token: developer_token@,
            },
            Command::GetUserToken => CommandView::GetUserToken,
            Command::Finish { emit, result } => CommandView::Finish {
                emit: emission_option_view(*emit),
                result: outcome_view(*result),
            },
        }
    }
}

/// Where the chain behind a Spotify deep link stands.
#[derive(Clone, Copy, Debug, PartialEq, Eq, Structural)]
pub enum SpotifyChain {
    AddingToken,
    Importing,
    Fetching,
    Done,
}

/// Where the Apple Music connection stands.
#[derive(Clone, Copy, Debug, PartialEq, Eq, Structural)]
pub enum AppleChain {
    FetchingDeveloperToken,
    Authorizing,
    FetchingUserToken,
    SendingToken,
    Synchronizing,
    FetchingPlaylists,
    Done,
}

/// What the caller of the Apple Music chain observed.
#[derive(Debug, PartialEq, Eq)]
pub enum AppleEvent {
    /// The outcome of a backend call, with the decoded text of its answer.
    Backend(AppResult<String>),
    /// The authorization status that the SDK reported, or its error.
    Authorized(Result<String, String>),
    /// The user token that the SDK handed out, or its error.
    UserToken(Result<Option<String>, String>),
}

/// A finish without an event.
pub open spec fn finish(result: Result<Seq<char>, (ErrorKind, Seq<char>)>) -> CommandView {
    CommandView::Finish { emit: None, result }
}

/// A finish with a decoded response on a channel.
pub open spec fn finish_with(channel: Seq<char>, json: Seq<char>, result: Seq<char>) -> CommandView {
    CommandView::Finish {
        emit: Some(EmissionView { channel, payload: PayloadView::Json(json) }),
        result: Ok(result),
    }
}

/// The request for the playlists of an origin.
pub open spec fn playlists_request(base: Seq<char>, root: Seq<char>, origin: PlaylistOrigin)
    -> RequestSpecView {
    request_of(
        Method::Get,
        base,
        root,
        Some((GetPlaylistsParams { origin: Some(origin) }).json()),
        Expect::Json,
    )
}

/// The request that hands a token to a service.
pub open spec fn token_request(base: Seq<char>, endpoint: Seq<char>, token: Seq<char>)
    -> RequestSpecView {
    request_of(
        Method::Post,
        base,
        endpoint,
        Some(crate::dto::single_text("\"token\""@, token)),
        Expect::Status,
    )
}

/// The application: its services and its readiness flag.
pub struct App {
    pub spotify_client: SpotifyClient,
    pub _deezer_client: DeezerClient,
    pub user_service: UserService,
    pub playlist_service: PlaylistService,
    pub youtube_service: YoutubeClient,
    pub notification_service: NotificationService,
    pub apple_service: AppleService,
    pub ready: bool,
}

fn clone_host(host: &Option<String>) -> (r: Option<String>)
    ensures
        text_of(r) == text_of(*host),
{
    match host {
        Some(h) => Some(h.clone()),
        None => None,
    }
}

impl App {
    /// The first move of the Spotify chain.
    pub open spec fn spotify_start_spec(&self, code: Option<Seq<char>>) -> (
        SpotifyChain,
        CommandView,
    ) {
        match code {
            Some(c) => (
                SpotifyChain::AddingToken,
                CommandView::Call(
                    token_request(self.spotify_client.backend_client.base(), "spotify/token"@, c),
                ),
            ),
            None => (SpotifyChain::Done, finish(Ok(Seq::empty()))),
        }
    }

    /// The move of the Spotify chain after the outcome of the call it asked
    /// for: the import follows the token whatever came back, the fetch
    /// follows the import whatever came back, and the event follows a
    /// successful fetch.
    pub open spec fn spotify_next_spec(&self, state: SpotifyChain, outcome: AppResult<String>) -> (
        SpotifyChain,
        CommandView,
    ) {
        match state {
            SpotifyChain::AddingToken => (
                SpotifyChain::Importing,
                CommandView::Call(
                    request_of(
                        Method::Post,
                        self.spotify_client.backend_client.base(),
                        "spotify/playlist"@,
                        Some(Seq::empty()),
                        Expect::Status,
                    ),
                ),
            ),
            SpotifyChain::Importing => (
                SpotifyChain::Fetching,
                CommandView::Call(
                    playlists_request(
                        self.playlist_service.backend_client.base(),
                        self.playlist_service.root(),
                        PlaylistOrigin::Spotify,
                    ),
                ),
            ),
            SpotifyChain::Fetching => (
                SpotifyChain::Done,
                match outcome {
                    Ok(playlists) => finish_with("spotify_playlists"@, playlists@, Seq::empty()),
                    Err(_) => finish(Ok(Seq::empty())),
                },
            ),
            SpotifyChain::Done => (SpotifyChain::Done, CommandView::Idle),
        }
    }

    /// The move of the Apple Music chain after an event.
    pub open spec fn apple_next_spec(&self, state: AppleChain, event: AppleEvent) -> (
        AppleChain,
        CommandView,
    ) {
        match (state, event) {
            (AppleChain::FetchingDeveloperToken, AppleEvent::Backend(Ok(token))) => (
                AppleChain::Authorizing,
                CommandView::Authorize { developer_token: token@ },
            ),
            (AppleChain::Authorizing, AppleEvent::Authorized(Ok(status))) => if status@
                == "authorized"@ {
                (AppleChain::FetchingUserToken, CommandView::GetUserToken)
            } else {
                (AppleChain::Done, finish(Ok(status@)))
            },
            (AppleChain::Authorizing, AppleEvent::Authorized(Err(m))) => (
                AppleChain::Done,
                finish(Err((ErrorKind::Internal, m@))),
            ),
            (AppleChain::FetchingUserToken, AppleEvent::UserToken(Ok(Some(token)))) => (
                AppleChain::SendingToken,
                CommandView::Call(
                    token_request(self.apple_service.backend_client.base(), "apple/token"@, token@),
                ),
            ),
            (AppleChain::FetchingUserToken, AppleEvent::UserToken(Ok(None))) => (
                AppleChain::Done,
                finish(Ok("authorized"@)),
            ),
            (AppleChain::FetchingUserToken, AppleEvent::UserToken(Err(m))) => (
                AppleChain::Done,
                finish(Err((ErrorKind::Internal, m@))),
            ),
            (AppleChain::SendingToken, AppleEvent::Backend(Ok(_))) => (
                AppleChain::Synchronizing,
                CommandView::Call(
                    request_of(
                        Method::Post,
                        self.apple_service.backend_client.base(),
                        "apple/synchronize"@,
                        Some("null"@),
                        Expect::Status,
                    ),
                ),
            ),
            (AppleChain::Synchronizing, AppleEvent::Backend(Ok(_))) => (
                AppleChain::FetchingPlaylists,
                CommandView::Call(
                    playlists_request(
                        self.playlist_service.backend_client.base(),
                        self.playlist_service.root(),
                        PlaylistOrigin::AppleMusic,
                    ),
                ),
            ),
            (AppleChain::FetchingPlaylists, AppleEvent::Backend(Ok(playlists))) => (
                AppleChain::Done,
                finish_with("apple_music_playlists"@, playlists@, "authorized"@),
            ),
            (AppleChain::FetchingPlaylists, AppleEvent::Backend(Err(_))) => (
                AppleChain::Done,
                finish(Ok("authorized"@)),
            ),
            (AppleChain::FetchingDeveloperToken, AppleEvent::Backend(Err(e))) => (
                AppleChain::Done,
                finish(Err(e@)),
            ),
            (AppleChain::SendingToken, AppleEvent::Backend(Err(e))) => (
                AppleChain::Done,
                finish(Err(e@)),
            ),
            (AppleChain::Synchronizing, AppleEvent::Backend(Err(e))) => (
                AppleChain::Done,
                finish(Err(e@)),
            ),
            _ => (state, CommandView::Idle),
        }
    }

    /// The services of a build for `platform`; the application is not ready
    /// yet.
    pub fn new(platform: Platform, debug: bool, dev_host: Option<String>) -> (app: App)
        ensures
            !app.ready,
            app.spotify_client.backend_client.base() == crate::transport::base_url_spec(
                platform,
                debug,
                text_of(dev_host),
            ),
            app.user_service.backend_client.base() == app.spotify_client.backend_client.base(),
            app.playlist_service.backend_client.base() == app.spotify_client.backend_client.base(),
            app.youtube_service.backend_client.base() == app.spotify_client.backend_client.base(),
            app.notification_service.backend_client.base()
                == app.spotify_client.backend_client.base(),
            app.apple_service.backend_client.base() == app.spotify_client.backend_client.base(),
            app.playlist_service.root() == "playlists"@,
            app.spotify_client.backend_client.pending() is None,
            app.user_service.backend_client.pending() is None,
            app.playlist_service.backend_client.pending() is None,
            app.youtube_service.backend_client.pending() is None,
            app.notification_service.backend_client.pending() is None,
            app.apple_service.backend_client.pending() is None,
    {
        App {
            spotify_client: SpotifyClient::new(platform, debug, clone_host(&dev_host)),
            _deezer_client: DeezerClient::new(platform, debug, clone_host(&dev_host)),
            user_service: UserService::new(platform, debug, clone_host(&dev_host)),
            playlist_service: PlaylistService::new(platform, debug, clone_host(&dev_host)),
            youtube_service: YoutubeClient::new(platform, debug, clone_host(&dev_host)),
            notification_service: NotificationService::new(platform, debug, clone_host(&dev_host)),
            apple_service: AppleService::new(platform, debug, dev_host),
            ready: false,
        }
    }

    /// Whether initialization has completed; never blocks, never fails.
    pub fn is_app_ready(&self) -> (r: Result<bool, String>)
        ensures
            r == Ok::<bool, String>(self.ready),
    {
        Ok(self.ready)
    }

    /// Marks the application ready and hands out the `app_ready` event to
    /// emit at the same moment.
    pub fn set_app_ready(&mut self) -> (r: Emission)
        ensures
            r@ == (EmissionView { channel: "app_ready"@, payload: PayloadView::Text(Seq::empty()) }),
            final(self).ready,
            final(self)._deezer_client == old(self)._deezer_client,
            final(self).spotify_client == old(self).spotify_client,
            final(self).user_service == old(self).user_service,
            final(self).playlist_service == old(self).playlist_service,
            final(self).youtube_service == old(self).youtube_service,
            final(self).notification_service == old(self).notification_service,
            final(self).apple_service == old(self).apple_service,
    {
        self.ready = true;
        Emission { channel: String::from_str("app_ready"), payload: Payload::Text(String::new()) }
    }

    /// Decides what a batch of deep links asks for.
    pub fn handle_open_url(&self, urls: &Vec<DeepLink>) -> (r: DeepLinkAction)
        ensures
            r@ == batch_spec(urls@),
    {
        if urls.len() == 0 {
            return DeepLinkAction::Ignore;
        }
        let url = &urls[0];
        if str_eq(url.path.as_str(), "/open/spotify") {
            DeepLinkAction::SpotifyAuth { code: find_code(&url.pairs) }
        } else if str_eq(url.path.as_str(), "/open/youtube") {
            DeepLinkAction::YoutubeAuth { code: find_code(&url.pairs) }
        } else if str_starts_with(url.path.as_str(), "/reset-password") {
            let mut target = url.path.clone();
            target.append("?");
            match &url.query {
                Some(q) => {
                    target.append(q.as_str());
                },
                None => {},
            }
            proof {
                assert(target@ =~= routing_target(url@));
            }
            DeepLinkAction::Routing { target }
        } else {
            DeepLinkAction::Ignore
        }
    }

    /// Starts the chain behind a Spotify deep link: with a code, the token is
    /// sent first; without one nothing happens.
    pub fn handle_spotify_auth(&self, code: Option<String>) -> (r: (SpotifyChain, Command))
        ensures
            r.0 == self.spotify_start_spec(text_of(code)).0,
            r.1@ == self.spotify_start_spec(text_of(code)).1,
    {
        match code {
            Some(code) => (SpotifyChain::AddingToken, Command::Call(self.send_spotify_token(code))),
            None => (SpotifyChain::Done, Command::Finish { emit: None, result: Ok(String::new()) }),
        }
    }

    /// Continues the Spotify chain with the outcome of the call it asked for.
    pub fn spotify_auth_next(&self, state: SpotifyChain, outcome: AppResult<String>) -> (r: (
        SpotifyChain,
        Command,
    ))
        ensures
            r.0 == self.spotify_next_spec(state, outcome).0,
            r.1@ == self.spotify_next_spec(state, outcome).1,
    {
        match state {
            SpotifyChain::AddingToken => (
                SpotifyChain::Importing,
                Command::Call(self.import_playlist_backend_request()),
            ),
            SpotifyChain::Importing => (
                SpotifyChain::Fetching,
                Command::Call(self.get_playlists_spotify()),
            ),
            SpotifyChain::Fetching => match outcome {
                Ok(playlists) => (
                    SpotifyChain::Done,
                    Command::Finish {
                        emit: Some(
                            Emission {
                                channel: String::from_str("spotify_playlists"),
                                payload: Payload::Json(playlists),
                            },
                        ),
                        result: Ok(String::new()),
                    },
                ),
                Err(_) => (
                    SpotifyChain::Done,
                    Command::Finish { emit: None, result: Ok(String::new()) },
                ),
            },
            SpotifyChain::Done => (SpotifyChain::Done, Command::Idle),
        }
    }

    /// What a YouTube deep link asks for: with a code, the token request.
    pub fn handle_youtube_auth(&self, code: Option<String>) -> (r: Command)
        ensures
            r@ == match text_of(code) {
                Some(c) => CommandView::Call(
                    token_request(self.youtube_service.backend_client.base(), "youtube/token"@, c),
                ),
                None => finish(Ok(Seq::empty())),
            },
    {
        match code {
            Some(code) => Command::Call(self.set_youtube_token(code)),
            None => Command::Finish { emit: None, result: Ok(String::new()) },
        }
    }

    pub fn send_spotify_token(&self, token: String) -> (r: RequestSpec)
        ensures
            r@ == token_request(self.spotify_client.backend_client.base(), "spotify/token"@, token@),
    {
        let req = AddTokenRequest { token };
        self.spotify_client.add_token(req)
    }

    pub fn import_playlist_backend_request(&self) -> (r: RequestSpec)
        ensures
            r@ == request_of(
                Method::Post,
                self.spotify_client.backend_client.base(),
                "spotify/playlist"@,
                Some(Seq::empty()),
                Expect::Status,
            ),
    {
        self.spotify_client.import_playlist_backend_request()
    }

    fn playlists_of(&self, origin: PlaylistOrigin) -> (r: RequestSpec)
        ensures
            r@ == playlists_request(
                self.playlist_service.backend_client.base(),
                self.playlist_service.root(),
                origin,
            ),
    {
        let params = GetPlaylistsParams { origin: Some(origin) };
        self.playlist_service.get_playlists(params)
    }

    pub fn get_playlists_spotify(&self) -> (r: RequestSpec)
        ensures
            r@ == playlists_request(
                self.playlist_service.backend_client.base(),
                self.playlist_service.root(),
                PlaylistOrigin::Spotify,
            ),
    {
        self.playlists_of(PlaylistOrigin::Spotify)
    }

    pub fn get_playlists_deezer(&self) -> (r: RequestSpec)
        ensures
            r@ == playlists_request(
                self.playlist_service.backend_client.base(),
                self.playlist_service.root(),
                PlaylistOrigin::Deezer,
            ),
    {
        self.playlists_of(PlaylistOrigin::Deezer)
    }

    pub fn get_playlists_youtube(&self) -> (r: RequestSpec)
        ensures
            r@ == playlists_request(
                self.playlist_service.backend_client.base(),
                self.playlist_service.root(),
                PlaylistOrigin::YoutubeMusic,
            ),
    {
        self.playlists_of(PlaylistOrigin::YoutubeMusic)
    }

    pub fn get_apple_music_playlists(&self) -> (r: RequestSpec)
        ensures
            r@ == playlists_request(
                self.playlist_service.backend_client.base(),
                self.playlist_service.root(),
                PlaylistOrigin::AppleMusic,
            ),
    {
        self.playlists_of(PlaylistOrigin::AppleMusic)
    }

    pub fn set_youtube_token(&self, token: String) -> (r: RequestSpec)
        ensures
            r@ == token_request(self.youtube_service.backend_client.base(), "youtube/token"@, token@),
    {
        let req = AddTokenRequest { token };
        self.youtube_service.add_token(req)
    }

    pub fn send_user_token_apple_music(&self, token: String) -> (r: RequestSpec)
        ensures
            r@ == token_request(self.apple_service.backend_client.base(), "apple/token"@, token@),
    {
        let request = AddTokenRequest { token };
        self.apple_service.send_authorization_token(request)
    }

    pub fn share_playlist(&self, playlist_id: i32, user_id: i32) -> (r: RequestSpec)
        ensures
            r@ == request_of(
                Method::Post,
                self.playlist_service.backend_client.base(),
                item_endpoint(self.playlist_service.root(), playlist_id as int, "/share"@),
                Some((SharePlaylistRequest { user_id }).json()),
                Expect::Status,
            ),
    {
        let req = SharePlaylistRequest { user_id };
        self.playlist_service.share_playlist(playlist_id, req)
    }

    pub fn get_autorization_url_spotify(&self) -> (r: RequestSpec)
        ensures
            r@ == request_of(
                Method::Get,
                self.spotify_client.backend_client.base(),
                "spotify/authorization-url"@,
                None,
                Expect::Json,
            ),
    {
        self.spotify_client.get_auth_url()
    }

    pub fn login(&self, request: LoginRequest) -> (r: RequestSpec)
        ensures
            r@ == request_of(
                Method::Post,
                self.user_service.backend_client.base(),
                "auth/login"@,
                Some(request.json()),
                Expect::Json,
            ),
    {
        self.user_service.login(request)
    }

    pub fn login_email(&self, request: LoginEmailRequest) -> (r: RequestSpec)
        ensures
            r@ == request_of(
                Method::Post,
                self.user_service.backend_client.base(),
                "auth/login_email"@,
                Some(request.json()),
                Expect::Json,
            ),
    {
        self.user_service.login_email(request)
    }

    pub fn verify_token(&self, request: VerifyTokenRequest) -> (r: RequestSpec)
        ensures
            r@ == request_of(
                Method::Post,
                self.user_service.backend_client.base(),
                "auth/verify_token"@,
                Some(request.json()),
                Expect::Json,
            ),
    {
        self.user_service.verify_token(request)
    }

    pub fn set_fcm_token(&self, register_fcm_token_request: RegisterFcmTokenRequest) -> (r: RequestSpec)
        ensures
            r@ == request_of(
                Method::Post,
                self.notification_service.backend_client.base(),
                "notifications/fcm-token"@,
                Some(register_fcm_token_request.json()),
                Expect::Status,
            ),
    {
        self.notification_service.set_fcm_token(register_fcm_token_request)
    }

    pub fn send_test_notification(&self, notification_request: SendTestNotificationRequest) -> (r: RequestSpec)
        ensures
            r@ == request_of(
                Method::Post,
                self.notification_service.backend_client.base(),
                "notifications/test-notification"@,
                Some(notification_request.json()),
                Expect::Status,
            ),
    {
        self.notification_service.send_test_notification(notification_request)
    }

    pub fn send_playlist(&self, playlist_id: i32, target: String) -> (r: RequestSpec)
        ensures
            r@ == request_of(
                Method::Post,
                self.playlist_service.backend_client.base(),
                item_endpoint(self.playlist_service.root(), playlist_id as int, "/send"@),
                Some(target@),
                Expect::Json,
            ),
    {
        self.playlist_service.send_playlist(playlist_id, target)
    }

    pub fn forgot_password(&self, req: ForgotPasswordRequest) -> (r: RequestSpec)
        ensures
            r@ == request_of(
                Method::Post,
                self.user_service.backend_client.base(),
                "auth/forgot-password"@,
                Some(req.json()),
                Expect::Status,
            ),
    {
        self.user_service.forgot_password(req)
    }

    pub fn search_users(&self, request: GetUsersRequest) -> (r: RequestSpec)
        ensures
            r@ == request_of(
                Method::Get,
                self.user_service.backend_client.base(),
                "users"@,
                Some(request.json()),
                Expect::Json,
            ),
    {
        self.user_service.get_users(request)
    }

    pub fn add_friend(&self, request: AddFriendRequest) -> (r: RequestSpec)
        ensures
            r@ == request_of(
                Method::Post,
                self.user_service.backend_client.base(),
                "users/friends/add"@,
                Some(request.json()),
                Expect::Status,
            ),
    {
        self.user_service.add_friend(request)
    }

    pub fn remove_friend(&self, request: RemoveFriendRequest) -> (r: RequestSpec)
        ensures
            r@ == request_of(
                Method::Post,
                self.user_service.backend_client.base(),
                "users/friends/remove"@,
                Some(request.json()),
                Expect::Status,
            ),
    {
        self.user_service.remove_friend(request)
    }

    pub fn get_friends(&self) -> (r: RequestSpec)
        ensures
            r@ == request_of(
                Method::Get,
                self.user_service.backend_client.base(),
                "users/friends"@,
                None,
                Expect::Json,
            ),
    {
        self.user_service.get_friends()
    }

    pub fn get_shared_playlists(&self) -> (r: RequestSpec)
        ensures
            r@ == request_of(
                Method::Get,
                self.playlist_service.backend_client.base(),
                self.playlist_service.root() + "/shared"@,
                Some((GetSharedPlaylistsParams { include_musics: true }).json()),
                Expect::Json,
            ),
    {
        self.playlist_service.get_shared_playlists()
    }

    pub fn mark_shared_playlist_viewed(&self, shared_playlist_id: i32) -> (r: RequestSpec)
        ensures
            r@ == request_of(
                Method::Post,
                self.playlist_service.backend_client.base(),
                item_endpoint(self.playlist_service.root() + "/shared"@, shared_playlist_id as int, "/viewed"@),
                Some("{}"@),
                Expect::Status,
            ),
    {
        self.playlist_service.mark_shared_playlist_viewed(shared_playlist_id)
    }

    pub fn synchronize_apple_playlists(&self) -> (r: RequestSpec)
        ensures
            r@ == request_of(
                Method::Post,
                self.apple_service.backend_client.base(),
                "apple/synchronize"@,
                Some("null"@),
                Expect::Status,
            ),
    {
        self.apple_service.synchronize_playlists()
    }

    pub fn disconnect_spotify(&self) -> (r: RequestSpec)
        ensures
            r@ == request_of(
                Method::Delete,
                self.spotify_client.backend_client.base(),
                "spotify/disconnect"@,
                None,
                Expect::Status,
            ),
    {
        self.spotify_client.disconnect()
    }

    pub fn disconnect_youtube(&self) -> (r: RequestSpec)
        ensures
            r@ == request_of(
                Method::Delete,
                self.youtube_service.backend_client.base(),
                "youtube/disconnect"@,
                None,
                Expect::Status,
            ),
    {
        self.youtube_service.disconnect()
    }

    pub fn disconnect_apple_music(&self) -> (r: RequestSpec)
        ensures
            r@ == request_of(
                Method::Delete,
                self.apple_service.backend_client.base(),
                "apple/disconnect"@,
                None,
                Expect::Status,
            ),
    {
        self.apple_service.disconnect()
    }

    /// The registration request, unless a rule rejects the input.
    pub fn register(&self, request: CreateUserRequest) -> (r: AppResult<RequestSpec>)
        ensures
            match create_user_verdict(
                request,
                regex_matches(PASSWORD_PATTERN@, request.password@),
                email_format(request.email@),
            ) {
                Some(message) => r matches Err(e) && e@ == (ErrorKind::Validation, message),
                None => r matches Ok(spec) && spec@ == request_of(
                    Method::Post,
                    self.user_service.backend_client.base(),
                    "register"@,
                    Some(request.json()),
                    Expect::Status,
                ),
            },
    {
        self.user_service.register(request)
    }

    /// Arms `token` for the next request of the user service, then assembles
    /// the reset request.
    pub fn reset_password(&mut self, req: ResetPasswordRequest, token: String) -> (r: RequestSpec)
        ensures
            final(self).user_service.backend_client.pending() == Some(token@),
            final(self).user_service.backend_client.base() == old(
                self,
            ).user_service.backend_client.base(),
            final(self).ready == old(self).ready,
            r@ == request_of(
                Method::Post,
                old(self).user_service.backend_client.base(),
                "users/reset-password"@,
                Some(req.json()),
                Expect::Status,
            ),
    {
        self.user_service.reset_password(token, req)
    }

    /// Starts the YouTube connection: the request for the authorization
    /// address.
    pub fn connect_youtube(&self) -> (r: RequestSpec)
        ensures
            r@ == request_of(
                Method::Get,
                self.youtube_service.backend_client.base(),
                "youtube/authorization-url"@,
                None,
                Expect::Json,
            ),
    {
        self.youtube_service.get_auth_url()
    }

    /// Continues the YouTube connection: the address, once obtained, is
    /// opened in a browser tab; a failure ends the connection.
    pub fn connect_youtube_next(outcome: AppResult<String>) -> (r: Command)
        ensures
            r@ == match outcome {
                Ok(url) => CommandView::OpenCustomTab { url: url@ },
                Err(e) => finish(Err(e@)),
            },
    {
        match outcome {
            Ok(url) => Command::OpenCustomTab { url },
            Err(e) => Command::Finish { emit: None, result: Err(e) },
        }
    }

    /// Starts the Apple Music connection: the developer token is fetched
    /// first.
    pub fn connect_apple_music(&self) -> (r: (AppleChain, Command))
        ensures
            r.0 == AppleChain::FetchingDeveloperToken,
            r.1@ == CommandView::Call(
                request_of(
                    Method::Get,
                    self.apple_service.backend_client.base(),
                    "apple/developer-token"@,
                    None,
                    Expect::Json,
                ),
            ),
    {
        (AppleChain::FetchingDeveloperToken, Command::Call(self.apple_service.get_developer_token()))
    }

    /// Continues the Apple Music connection with what the caller observed.
    pub fn connect_apple_music_next(&self, state: AppleChain, event: AppleEvent) -> (r: (
        AppleChain,
        Command,
    ))
        ensures
            r.0 == self.apple_next_spec(state, event).0,
            r.1@ == self.apple_next_spec(state, event).1,
    {
        match state {
            AppleChain::FetchingDeveloperToken => match event {
                AppleEvent::Backend(Ok(token)) => (
                    AppleChain::Authorizing,
                    Command::Authorize { developer_token: token },
                ),
                AppleEvent::Backend(Err(e)) => (AppleChain::Done, failed(e)),
                _ => (state, Command::Idle),
            },
            AppleChain::Authorizing => match event {
                AppleEvent::Authorized(Ok(status)) => {
                    if str_eq(status.as_str(), "authorized") {
                        (AppleChain::FetchingUserToken, Command::GetUserToken)
                    } else {
                        (AppleChain::Done, Command::Finish { emit: None, result: Ok(status) })
                    }
                },
                AppleEvent::Authorized(Err(m)) => (AppleChain::Done, failed(AppError::Internal(m))),
                _ => (state, Command::Idle),
            },
            AppleChain::FetchingUserToken => match event {
                AppleEvent::UserToken(Ok(Some(token))) => (
                    AppleChain::SendingToken,
                    Command::Call(self.send_user_token_apple_music(token)),
                ),
                AppleEvent::UserToken(Ok(None)) => (AppleChain::Done, authorized(None)),
                AppleEvent::UserToken(Err(m)) => (AppleChain::Done, failed(AppError::Internal(m))),
                _ => (state, Command::Idle),
            },
            AppleChain::SendingToken => match event {
                AppleEvent::Backend(Ok(_)) => (
                    AppleChain::Synchronizing,
                    Command::Call(self.apple_service.synchronize_playlists()),
                ),
                AppleEvent::Backend(Err(e)) => (AppleChain::Done, failed(e)),
                _ => (state, Command::Idle),
            },
            AppleChain::Synchronizing => match event {
                AppleEvent::Backend(Ok(_)) => (
                    AppleChain::FetchingPlaylists,
                    Command::Call(self.get_apple_music_playlists()),
                ),
                AppleEvent::Backend(Err(e)) => (AppleChain::Done, failed(e)),
                _ => (state, Command::Idle),
            },
            AppleChain::FetchingPlaylists => match event {
                AppleEvent::Backend(Ok(playlists)) => (
                    AppleChain::Done,
                    authorized(
                        Some(
                            Emission {
                                channel: String::from_str("apple_music_playlists"),
                                payload: Payload::Json(playlists),
                            },
                        ),
                    ),
                ),
                AppleEvent::Backend(Err(_)) => (AppleChain::Done, authorized(None)),
                _ => (state, Command::Idle),
            },
            AppleChain::Done => (state, Command::Idle),
        }
    }
}

fn failed(e: AppError) -> (r: Command)
    ensures
        r@ == finish(Err(e@)),
{
    Command::Finish { emit: None, result: Err(e) }
}

fn authorized(emit: Option<Emission>) -> (r: Command)
    ensures
        r@ == (CommandView::Finish {
            emit: emission_option_view(emit),
            result: Ok("authorized"@),
        }),
{
    Command::Finish { emit, result: Ok(String::from_str("authorized")) }
}

/// The chain behind a Spotify deep link runs in one order, whatever the
/// calls return: the token request, the import request, the playlists
/// request, and only then, if the playlists came back, the
/// `spotify_playlists` event with them.
pub proof fn law_spotify_chain_order(
    app: App,
    code: Seq<char>,
    first: AppResult<String>,
    second: AppResult<String>,
    third: AppResult<String>,
)
    ensures
        ({
            let a = app.spotify_start_spec(Some(code));
            let b = app.spotify_next_spec(a.0, first);
            let c = app.spotify_next_spec(b.0, second);
            let d = app.spotify_next_spec(c.0, third);
            &&& a.1 == CommandView::Call(
                token_request(app.spotify_client.backend_client.base(), "spotify/token"@, code),
            )
            &&& b.1 == CommandView::Call(
                request_of(
                    Method::Post,
                    app.spotify_client.backend_client.base(),
                    "spotify/playlist"@,
                    Some(Seq::empty()),
                    Expect::Status,
                ),
            )
            &&& c.1 == CommandView::Call(
                playlists_request(
                    app.playlist_service.backend_client.base(),
                    app.playlist_service.root(),
                    PlaylistOrigin::Spotify,
                ),
            )
            &&& d.0 == SpotifyChain::Done
            &&& d.1 == match third {
                Ok(playlists) => finish_with("spotify_playlists"@, playlists@, Seq::empty()),
                Err(_) => finish(Ok(Seq::empty())),
            }
        }),
{
}

} // verus!
