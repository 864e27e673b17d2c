//! Addresses that open a playlist, or the start page, in the native
//! application of a music service.
use vstd::prelude::*;
use vstd::string::*;
use crate::models::text_of;
use crate::text::str_eq;
use crate::transport::Platform;

verus! {

/// A known prefix followed by the playlist id, or the address without one.
pub open spec fn with_id(prefix: Seq<char>, bare: Seq<char>, id: Option<Seq<char>>) -> Seq<char> {
    match id {
        Some(id) => prefix + id,
        None => bare,
    }
}

/// The address for a music service on a host platform; an error for a name
/// that is no music service.
pub open spec fn external_url_spec(platform: Seq<char>, id: Option<Seq<char>>, host: Platform)
    -> Result<Seq<char>, Seq<char>> {
    if platform == "Spotify"@ {
        Ok(with_id("spotify://playlist/"@, "spotify://"@, id))
    } else if platform == "YoutubeMusic"@ {
        if host == Platform::Android {
            Ok(with_id("vnd.youtube://music/playlist?list="@, "vnd.youtube://music"@, id))
        } else {
            Ok(
                with_id(
                    "https://music.youtube.com/playlist?list="@,
                    "https://music.youtube.com"@,
                    id,
                ),
            )
        }
    } else if platform == "AppleMusic"@ {
        if host == Platform::Ios {
            Ok(with_id("music://library/playlist/"@, "music://"@, id))
        } else {
            Ok(with_id("https://music.apple.com/library/playlist/"@, "music://"@, id))
        }
    } else if platform == "Deezer"@ {
        Ok(with_id("deezer://www.deezer.com/playlist/"@, "deezer://"@, id))
    } else {
        Err("Unknown platform: "@ + platform)
    }
}

pub open spec fn url_result_view(r: Result<String, String>) -> Result<Seq<char>, Seq<char>> {
    match r {
        Ok(s) => Ok(s@),
        Err(e) => Err(e@),
    }
}

fn address(prefix: &str, bare: &str, id: &Option<String>) -> (r: String)
    ensures
        r@ == with_id(prefix@, bare@, text_of(*id)),
{
    match id {
        Some(id) => String::from_str(prefix).concat(id.as_str()),
        None => String::from_str(bare),
    }
}

/// The address to hand to the host's opener for a music service.
pub fn open_external_app(platform: &str, playlist_id: Option<String>, host: Platform) -> (r: Result<
    String,
    String,
>)
    ensures
        url_result_view(r) == external_url_spec(platform@, text_of(playlist_id), host),
{
    if str_eq(platform, "Spotify") {
        Ok(address("spotify://playlist/", "spotify://", &playlist_id))
    } else if str_eq(platform, "YoutubeMusic") {
        match host {
            Platform::Android => Ok(
                address("vnd.youtube://music/playlist?list=", "vnd.youtube://music", &playlist_id),
            ),
            _ => Ok(
                address(
                    "https://music.youtube.com/playlist?list=",
                    "https://music.youtube.com",
                    &playlist_id,
                ),
            ),
        }
    } else if str_eq(platform, "AppleMusic") {
        match host {
            Platform::Ios => Ok(address("music://library/playlist/", "music://", &playlist_id)),
            _ => Ok(
                address("https://music.apple.com/library/playlist/", "music://", &playlist_id),
            ),
        }
    } else if str_eq(platform, "Deezer") {
        Ok(address("deezer://www.deezer.com/playlist/", "deezer://", &playlist_id))
    } else {
        Err(String::from_str("Unknown platform: ").concat(platform))
    }
}

/// The error of the command when the host could not open the address.
pub fn open_failure(platform: &str, reason: &str) -> (r: String)
    ensures
        r@ == "Failed to open "@ + platform@ + ": "@ + reason@,
{
    String::from_str("Failed to open ").concat(platform).concat(": ").concat(reason)
}

} // verus!
