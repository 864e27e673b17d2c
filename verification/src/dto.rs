//! The request payloads of the backend and their JSON text.
use vstd::prelude::*;
use vstd::string::*;
use crate::json::{json_quoted, json_string};
use crate::models::text_of;
use crate::text::{decimal_text, int_to_string};

verus! {

/// The members of an object on their way out: the encoded name (a JSON string
/// literal) and the encoded value of each.
pub type Encoded = Seq<(Seq<char>, Seq<char>)>;

pub open spec fn encoded_view(v: Seq<(String, String)>) -> Encoded {
    Seq::new(v.len(), |i: int| (v[i].0@, v[i].1@))
}

/// The members separated by commas, each as name, colon, value.
pub open spec fn joined(ms: Encoded) -> Seq<char>
    decreases ms.len(),
{
    if ms.len() == 0 {
        Seq::empty()
    } else {
        joined(ms.drop_last()) + (if ms.len() > 1 {
            ","@
        } else {
            Seq::empty()
        }) + ms.last().0 + ":"@ + ms.last().1
    }
}

/// The compact JSON text of an object.
pub open spec fn object_text(ms: Encoded) -> Seq<char> {
    "{"@ + joined(ms) + "}"@
}

/// Writes an object from encoded members.
pub fn json_object(members: &Vec<(String, String)>) -> (r: String)
    ensures
        r@ == object_text(encoded_view(members@)),
{
    let ghost ms = encoded_view(members@);
    let mut out = String::from_str("{");
    let mut i: usize = 0;
    proof {
        assert(ms.take(0) =~= Seq::empty());
        assert("{"@ + joined(ms.take(0)) =~= "{"@);
    }
    while i < members.len()
        invariant
            i <= members.len(),
            ms == encoded_view(members@),
            out@ == "{"@ + joined(ms.take(i as int)),
        decreases members.len() - i,
    {
        let ghost before = out@;
        if i > 0 {
            out.append(",");
        }
        out.append(members[i].0.as_str());
        out.append(":");
        out.append(members[i].1.as_str());
        proof {
            let next = ms.take(i + 1);
            assert(next.drop_last() =~= ms.take(i as int));
            assert(next.last() == ms[i as int]);
            assert(out@ =~= "{"@ + joined(next));
        }
        i += 1;
    }
    proof {
        assert(ms.take(i as int) =~= ms);
    }
    out.append("}");
    out
}

/// The JSON text of an integer.
pub fn json_i32(n: i32) -> (r: String)
    ensures
        r@ == decimal_text(n as int),
{
    int_to_string(n as i64)
}

pub open spec fn bool_text(b: bool) -> Seq<char> {
    if b {
        "true"@
    } else {
        "false"@
    }
}

/// The JSON text of a boolean.
pub fn json_bool(b: bool) -> (r: String)
    ensures
        r@ == bool_text(b),
{
    if b {
        String::from_str("true")
    } else {
        String::from_str("false")
    }
}

pub open spec fn optional_text(o: Option<Seq<char>>) -> Seq<char> {
    match o {
        Some(s) => json_quoted(s),
        None => "null"@,
    }
}

/// The JSON text of an optional string: the literal, or `null`.
pub fn json_optional_string(o: &Option<String>) -> (r: String)
    ensures
        r@ == optional_text(text_of(*o)),
{
    match o {
        Some(s) => json_string(s.as_str()),
        None => String::from_str("null"),
    }
}

pub open spec fn optional_bool_text(o: Option<bool>) -> Seq<char> {
    match o {
        Some(b) => bool_text(b),
        None => "null"@,
    }
}

/// The JSON text of an optional boolean.
pub fn json_optional_bool(o: Option<bool>) -> (r: String)
    ensures
        r@ == optional_bool_text(o),
{
    match o {
        Some(b) => json_bool(b),
        None => String::from_str("null"),
    }
}

pub open spec fn optional_i32_text(o: Option<i32>) -> Seq<char> {
    match o {
        Some(n) => decimal_text(n as int),
        None => "null"@,
    }
}

/// The JSON text of an optional integer.
pub fn json_optional_i32(o: Option<i32>) -> (r: String)
    ensures
        r@ == optional_i32_text(o),
{
    match o {
        Some(n) => json_i32(n),
        None => String::from_str("null"),
    }
}

fn member(name: &str, value: String) -> (r: (String, String))
    ensures
        r.0@ == name@,
        r.1@ == value@,
{
    (String::from_str(name), value)
}

/// The third-party service a playlist came from.
#[derive(Clone, Copy, Debug, PartialEq, Eq, Structural)]
pub enum PlaylistOrigin {
    Spotify,
    Deezer,
    YoutubeMusic,
    AppleMusic,
}

pub open spec fn origin_name(origin: PlaylistOrigin) -> Seq<char> {
    match origin {
        PlaylistOrigin::Spotify => "\"Spotify\""@,
        PlaylistOrigin::Deezer => "\"Deezer\""@,
        PlaylistOrigin::YoutubeMusic => "\"YoutubeMusic\""@,
        PlaylistOrigin::AppleMusic => "\"AppleMusic\""@,
    }
}

#[derive(Clone, Debug, PartialEq, Eq)]
pub struct CreateUserRequest {
    pub username: String,
    pub password: String,
    pub first_name: String,
    pub last_name: String,
    pub email: String,
}

#[derive(Clone, Debug, PartialEq, Eq)]
pub struct LoginRequest {
    pub username: String,
    pub password: String,
}

#[derive(Clone, Debug, PartialEq, Eq)]
pub struct LoginEmailRequest {
    pub email: String,
    pub password: String,
}

#[derive(Clone, Debug, PartialEq, Eq)]
pub struct RegisterRequest {
    pub username: String,
    pub password: String,
    pub email: String,
}

#[derive(Clone, Debug, PartialEq, Eq)]
pub struct RegisterResponse {
    pub message: String,
}

#[derive(Clone, Debug, PartialEq, Eq)]
pub struct VerifyTokenRequest {
    pub token: String,
}

#[derive(Clone, Debug, PartialEq, Eq)]
pub struct ForgotPasswordRequest {
    pub email: String,
}

#[derive(Clone, Debug, PartialEq, Eq)]
pub struct ResetPasswordRequest {
    pub new_password: String,
}

#[derive(Clone, Copy, Debug, PartialEq, Eq)]
pub struct AddFriendRequest {
    pub user_id: i32,
}

#[derive(Clone, Copy, Debug, PartialEq, Eq)]
pub struct RemoveFriendRequest {
    pub user_id: i32,
}

#[derive(Clone, Copy, Debug, PartialEq, Eq)]
pub struct GetPlaylistsParams {
    pub origin: Option<PlaylistOrigin>,
}

#[derive(Clone, Copy, Debug, PartialEq, Eq)]
pub struct SharePlaylistRequest {
    pub user_id: i32,
}

#[derive(Clone, Copy, Debug, PartialEq, Eq)]
pub struct GetSharedPlaylistsParams {
    pub include_musics: bool,
}

#[derive(Clone, Debug, PartialEq, Eq)]
pub struct AddTokenRequest {
    pub token: String,
}

#[derive(Clone, Debug, PartialEq, Eq)]
pub struct RegisterFcmTokenRequest {
    pub token: String,
    pub device_id: Option<String>,
    pub platform: Option<String>,
}

#[derive(Clone, Debug, PartialEq, Eq)]
pub struct SendTestNotificationRequest {
    pub user_id: i32,
    pub title: String,
    pub body: String,
    /// Extra entries for the notification, in the order they are sent.
    pub data: Option<Vec<(String, String)>>,
}

/// The member of a user that a search looks at.
#[derive(Clone, Copy, Debug, PartialEq, Eq, Structural)]
pub enum SearchField {
    Username,
}

/// The filter of a user search.
#[derive(Clone, Debug, PartialEq, Eq)]
pub struct GetUsersRequest {
    pub include_deleted: Option<bool>,
    pub search: Option<String>,
    pub search_field: Option<SearchField>,
    pub limit: Option<i32>,
    pub offset: Option<i32>,
    pub friends_priority: bool,
    pub exclude_friends: bool,
    pub exclude_self: Option<bool>,
}

/// The answer of the Deezer token endpoint.
#[derive(Clone, Debug, PartialEq, Eq)]
pub struct DeezerAuthResponse {
    pub _access_token: String,
    pub _expires: u64,
}

/// The answer of the Spotify token endpoint.
#[derive(Clone, Debug, PartialEq, Eq)]
pub struct SpotifyAuthResponse {
    pub _access_token: String,
    pub _token_type: String,
    pub _expires_in: u64,
}

/// The JSON text of an object with a single string member.
pub open spec fn single_text(name: Seq<char>, value: Seq<char>) -> Seq<char> {
    object_text(seq![(name, json_quoted(value))])
}

/// The JSON text of an object with a single integer member.
pub open spec fn single_number(name: Seq<char>, value: int) -> Seq<char> {
    object_text(seq![(name, decimal_text(value))])
}

fn single_text_object(name: &str, value: &str) -> (r: String)
    ensures
        r@ == single_text(name@, value@),
{
    let mut ms: Vec<(String, String)> = Vec::new();
    ms.push(member(name, json_string(value)));
    proof {
        assert(encoded_view(ms@) =~= seq![(name@, json_quoted(value@))]);
    }
    json_object(&ms)
}

fn single_number_object(name: &str, value: i32) -> (r: String)
    ensures
        r@ == single_number(name@, value as int),
{
    let mut ms: Vec<(String, String)> = Vec::new();
    ms.push(member(name, json_i32(value)));
    proof {
        assert(encoded_view(ms@) =~= seq![(name@, decimal_text(value as int))]);
    }
    json_object(&ms)
}

impl CreateUserRequest {
    pub open spec fn json(&self) -> Seq<char> {
        object_text(
            seq![
                ("\"username\""@, json_quoted(self.username@)),
                ("\"password\""@, json_quoted(self.password@)),
                ("\"first_name\""@, json_quoted(self.first_name@)),
                ("\"last_name\""@, json_quoted(self.last_name@)),
                ("\"email\""@, json_quoted(self.email@)),
            ],
        )
    }

    pub fn to_json(&self) -> (r: String)
        ensures
            r@ == self.json(),
    {
        let mut ms: Vec<(String, String)> = Vec::new();
        ms.push(member("\"username\"", json_string(self.username.as_str())));
        ms.push(member("\"password\"", json_string(self.password.as_str())));
        ms.push(member("\"first_name\"", json_string(self.first_name.as_str())));
        ms.push(member("\"last_name\"", json_string(self.last_name.as_str())));
        ms.push(member("\"email\"", json_string(self.email.as_str())));
        proof {
            assert(encoded_view(ms@) =~= seq![
                ("\"username\""@, json_quoted(self.username@)),
                ("\"password\""@, json_quoted(self.password@)),
                ("\"first_name\""@, json_quoted(self.first_name@)),
                ("\"last_name\""@, json_quoted(self.last_name@)),
                ("\"email\""@, json_quoted(self.email@)),
            ]);
        }
        json_object(&ms)
    }
}

/// The JSON text of a login by username.
pub open spec fn login_json(username: Seq<char>, password: Seq<char>) -> Seq<char> {
    object_text(
        seq![("\"username\""@, json_quoted(username)), ("\"password\""@, json_quoted(password))],
    )
}

impl LoginRequest {
    pub open spec fn json(&self) -> Seq<char> {
        login_json(self.username@, self.password@)
    }

    pub fn to_json(&self) -> (r: String)
        ensures
            r@ == self.json(),
    {
        let mut ms: Vec<(String, String)> = Vec::new();
        ms.push(member("\"username\"", json_string(self.username.as_str())));
        ms.push(member("\"password\"", json_string(self.password.as_str())));
        proof {
            assert(encoded_view(ms@) =~= seq![
                ("\"username\""@, json_quoted(self.username@)),
                ("\"password\""@, json_quoted(self.password@)),
            ]);
        }
        json_object(&ms)
    }
}

impl LoginEmailRequest {
    pub open spec fn json(&self) -> Seq<char> {
        object_text(
            seq![
                ("\"email\""@, json_quoted(self.email@)),
                ("\"password\""@, json_quoted(self.password@)),
            ],
        )
    }

    pub fn to_json(&self) -> (r: String)
        ensures
            r@ == self.json(),
    {
        let mut ms: Vec<(String, String)> = Vec::new();
        ms.push(member("\"email\"", json_string(self.email.as_str())));
        ms.push(member("\"password\"", json_string(self.password.as_str())));
        proof {
            assert(encoded_view(ms@) =~= seq![
                ("\"email\""@, json_quoted(self.email@)),
                ("\"password\""@, json_quoted(self.password@)),
            ]);
        }
        json_object(&ms)
    }
}

impl VerifyTokenRequest {
    pub open spec fn json(&self) -> Seq<char> {
        single_text("\"token\""@, self.token@)
    }

    pub fn to_json(&self) -> (r: String)
        ensures
            r@ == self.json(),
    {
        single_text_object("\"token\"", self.token.as_str())
    }
}

impl ForgotPasswordRequest {
    pub open spec fn json(&self) -> Seq<char> {
        single_text("\"email\""@, self.email@)
    }

    pub fn to_json(&self) -> (r: String)
        ensures
            r@ == self.json(),
    {
        single_text_object("\"email\"", self.email.as_str())
    }
}

impl ResetPasswordRequest {
    pub open spec fn json(&self) -> Seq<char> {
        single_text("\"new_password\""@, self.new_password@)
    }

    pub fn to_json(&self) -> (r: String)
        ensures
            r@ == self.json(),
    {
        single_text_object("\"new_password\"", self.new_password.as_str())
    }
}

impl AddTokenRequest {
    pub open spec fn json(&self) -> Seq<char> {
        single_text("\"token\""@, self.token@)
    }

    pub fn to_json(&self) -> (r: String)
        ensures
            r@ == self.json(),
    {
        single_text_object("\"token\"", self.token.as_str())
    }
}

impl AddFriendRequest {
    pub open spec fn json(&self) -> Seq<char> {
        single_number("\"user_id\""@, self.user_id as int)
    }

    pub fn to_json(&self) -> (r: String)
        ensures
            r@ == self.json(),
    {
        single_number_object("\"user_id\"", self.user_id)
    }
}

impl RemoveFriendRequest {
    pub open spec fn json(&self) -> Seq<char> {
        single_number("\"user_id\""@, self.user_id as int)
    }

    pub fn to_json(&self) -> (r: String)
        ensures
            r@ == self.json(),
    {
        single_number_object("\"user_id\"", self.user_id)
    }
}

impl SharePlaylistRequest {
    pub open spec fn json(&self) -> Seq<char> {
        single_number("\"user_id\""@, self.user_id as int)
    }

    pub fn to_json(&self) -> (r: String)
        ensures
            r@ == self.json(),
    {
        single_number_object("\"user_id\"", self.user_id)
    }
}

impl GetPlaylistsParams {
    pub open spec fn json(&self) -> Seq<char> {
        object_text(
            seq![
                (
                    "\"origin\""@,
                    match self.origin {
                        Some(o) => origin_name(o),
                        None => "null"@,
                    },
                ),
            ],
        )
    }

    pub fn to_json(&self) -> (r: String)
        ensures
            r@ == self.json(),
    {
        let value = match self.origin {
            Some(PlaylistOrigin::Spotify) => String::from_str("\"Spotify\""),
            Some(PlaylistOrigin::Deezer) => String::from_str("\"Deezer\""),
            Some(PlaylistOrigin::YoutubeMusic) => String::from_str("\"YoutubeMusic\""),
            Some(PlaylistOrigin::AppleMusic) => String::from_str("\"AppleMusic\""),
            None => String::from_str("null"),
        };
        let mut ms: Vec<(String, String)> = Vec::new();
        let ghost text = value@;
        ms.push(member("\"origin\"", value));
        proof {
            assert(encoded_view(ms@) =~= seq![("\"origin\""@, text)]);
        }
        json_object(&ms)
    }
}

impl GetSharedPlaylistsParams {
    pub open spec fn json(&self) -> Seq<char> {
        object_text(seq![("\"include_musics\""@, bool_text(self.include_musics))])
    }

    pub fn to_json(&self) -> (r: String)
        ensures
            r@ == self.json(),
    {
        let mut ms: Vec<(String, String)> = Vec::new();
        ms.push(member("\"include_musics\"", json_bool(self.include_musics)));
        proof {
            assert(encoded_view(ms@) =~= seq![
                ("\"include_musics\""@, bool_text(self.include_musics)),
            ]);
        }
        json_object(&ms)
    }
}

impl RegisterFcmTokenRequest {
    pub open spec fn json(&self) -> Seq<char> {
        object_text(
            seq![
                ("\"token\""@, json_quoted(self.token@)),
                ("\"device_id\""@, optional_text(text_of(self.device_id))),
                ("\"platform\""@, optional_text(text_of(self.platform))),
            ],
        )
    }

    pub fn to_json(&self) -> (r: String)
        ensures
            r@ == self.json(),
    {
        let mut ms: Vec<(String, String)> = Vec::new();
        ms.push(member("\"token\"", json_string(self.token.as_str())));
        ms.push(member("\"device_id\"", json_optional_string(&self.device_id)));
        ms.push(member("\"platform\"", json_optional_string(&self.platform)));
        proof {
            assert(encoded_view(ms@) =~= seq![
                ("\"token\""@, json_quoted(self.token@)),
                ("\"device_id\""@, optional_text(text_of(self.device_id))),
                ("\"platform\""@, optional_text(text_of(self.platform))),
            ]);
        }
        json_object(&ms)
    }
}

pub open spec fn search_field_text(o: Option<SearchField>) -> Seq<char> {
    match o {
        Some(SearchField::Username) => "\"Username\""@,
        None => "null"@,
    }
}

impl GetUsersRequest {
    pub open spec fn json(&self) -> Seq<char> {
        object_text(
            seq![
                ("\"include_deleted\""@, optional_bool_text(self.include_deleted)),
                ("\"search\""@, optional_text(text_of(self.search))),
                ("\"search_field\""@, search_field_text(self.search_field)),
                ("\"limit\""@, optional_i32_text(self.limit)),
                ("\"offset\""@, optional_i32_text(self.offset)),
                ("\"friends_priority\""@, bool_text(self.friends_priority)),
                ("\"exclude_friends\""@, bool_text(self.exclude_friends)),
                ("\"exclude_self\""@, optional_bool_text(self.exclude_self)),
            ],
        )
    }

    pub fn to_json(&self) -> (r: String)
        ensures
            r@ == self.json(),
    {
        let field = match self.search_field {
            Some(SearchField::Username) => String::from_str("\"Username\""),
            None => String::from_str("null"),
        };
        let ghost field_text = field@;
        let mut ms: Vec<(String, String)> = Vec::new();
        ms.push(member("\"include_deleted\"", json_optional_bool(self.include_deleted)));
        ms.push(member("\"search\"", json_optional_string(&self.search)));
        ms.push(member("\"search_field\"", field));
        ms.push(member("\"limit\"", json_optional_i32(self.limit)));
        ms.push(member("\"offset\"", json_optional_i32(self.offset)));
        ms.push(member("\"friends_priority\"", json_bool(self.friends_priority)));
        ms.push(member("\"exclude_friends\"", json_bool(self.exclude_friends)));
        ms.push(member("\"exclude_self\"", json_optional_bool(self.exclude_self)));
        proof {
            assert(encoded_view(ms@) =~= seq![
                ("\"include_deleted\""@, optional_bool_text(self.include_deleted)),
                ("\"search\""@, optional_text(text_of(self.search))),
                ("\"search_field\""@, field_text),
                ("\"limit\""@, optional_i32_text(self.limit)),
                ("\"offset\""@, optional_i32_text(self.offset)),
                ("\"friends_priority\""@, bool_text(self.friends_priority)),
                ("\"exclude_friends\""@, bool_text(self.exclude_friends)),
                ("\"exclude_self\""@, optional_bool_text(self.exclude_self)),
            ]);
        }
        json_object(&ms)
    }
}

/// The entries of a string map, each name and value as a JSON string literal.
pub open spec fn quoted_entries(entries: Seq<(String, String)>) -> Encoded {
    Seq::new(entries.len(), |i: int| (json_quoted(entries[i].0@), json_quoted(entries[i].1@)))
}

/// The JSON text of an optional string map: an object, or `null`.
pub open spec fn data_text(data: Option<Vec<(String, String)>>) -> Seq<char> {
    match data {
        Some(entries) => object_text(quoted_entries(entries@)),
        None => "null"@,
    }
}

/// Writes an optional string map.
pub fn json_string_map(data: &Option<Vec<(String, String)>>) -> (r: String)
    ensures
        r@ == data_text(*data),
{
    match data {
        None => String::from_str("null"),
        Some(entries) => {
            let mut ms: Vec<(String, String)> = Vec::new();
            let mut i: usize = 0;
            while i < entries.len()
                invariant
                    i <= entries.len(),
                    ms@.len() == i,
                    forall|j: int|
                        0 <= j < i ==> (#[trigger] ms@[j]).0@ == json_quoted(entries@[j].0@)
                            && ms@[j].1@ == json_quoted(entries@[j].1@),
                decreases entries.len() - i,
            {
                ms.push(
                    (json_string(entries[i].0.as_str()), json_string(entries[i].1.as_str())),
                );
                i += 1;
            }
            proof {
                assert(encoded_view(ms@) =~= quoted_entries(entries@));
            }
            json_object(&ms)
        },
    }
}

impl SendTestNotificationRequest {
    pub open spec fn json(&self) -> Seq<char> {
        object_text(
            seq![
                ("\"user_id\""@, decimal_text(self.user_id as int)),
                ("\"title\""@, json_quoted(self.title@)),
                ("\"body\""@, json_quoted(self.body@)),
                ("\"data\""@, data_text(self.data)),
            ],
        )
    }

    pub fn to_json(&self) -> (r: String)
        ensures
            r@ == self.json(),
    {
        let mut ms: Vec<(String, String)> = Vec::new();
        ms.push(member("\"user_id\"", json_i32(self.user_id)));
        ms.push(member("\"title\"", json_string(self.title.as_str())));
        ms.push(member("\"body\"", json_string(self.body.as_str())));
        ms.push(member("\"data\"", json_string_map(&self.data)));
        proof {
            assert(encoded_view(ms@) =~= seq![
                ("\"user_id\""@, decimal_text(self.user_id as int)),
                ("\"title\""@, json_quoted(self.title@)),
                ("\"body\""@, json_quoted(self.body@)),
                ("\"data\""@, data_text(self.data)),
            ]);
        }
        json_object(&ms)
    }
}

} // verus!
