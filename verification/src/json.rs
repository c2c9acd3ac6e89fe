//! The provider's JSON responses, reduced to plain values.
//!
//! Each response shape the library reads has a document type holding
//! exactly the fields the logic looks at, and a trusted extractor that
//! parses a response body and pulls those fields out. Whether a body
//! parses, and which fields it carries, depend on the text alone; the
//! uninterpreted names below stand for those results, so that the
//! callers' contracts can owe success exactly on well-formed bodies.
//! Everything decided about the extracted fields is verified code.

use vstd::prelude::*;

verus! {

#[verifier::external_type_specification]
#[verifier::external_body]
pub struct ExValue(serde_json::Value);

/// The fields of the token endpoint's response envelope, as far as the
/// library reads them.
pub struct TokenDoc {
    pub access_token: Option<String>,
    pub token_type: Option<String>,
    pub expires_in: Option<u64>,
    pub refresh_token: Option<String>,
    pub scope: Option<String>,
}

/// The fields of the currently-playing response, as far as the library
/// reads them.
pub struct PlayingDoc {
    pub title: Option<String>,
    pub artist_name: Option<String>,
    pub artist_id: Option<String>,
    pub album_image_url: Option<String>,
    pub progress_ms: Option<u64>,
    pub duration_ms: Option<u64>,
}

/// The one field of an artist resource that the library reads: its first
/// image URL.
pub struct ArtistDoc {
    pub image_url: Option<String>,
}

/// The one field of the player-state response that the shuffle command
/// reads.
pub struct PlaybackStateDoc {
    pub shuffle_state: Option<bool>,
}

/// The shape of the device-list response: whether a `devices` array was
/// there at all, how many entries it has, and the id of the first one.
pub struct DevicesDoc {
    pub devices_present: bool,
    pub device_count: usize,
    pub first_device_id: Option<String>,
}

/// The one field of a playlist resource that the library reads: its first
/// image URL.
pub struct PlaylistDoc {
    pub first_image_url: Option<String>,
}

/// Whether a text is one well-formed JSON document — what
/// `serde_json::from_str` accepts, a function of the text alone.
pub uninterp spec fn spec_is_json(s: Seq<char>) -> bool;

/// The value that a well-formed text parses to — what
/// `serde_json::from_str` returns, a function of the text alone.
pub uninterp spec fn spec_json_value(s: Seq<char>) -> serde_json::Value;

/// The token-envelope fields that a well-formed body carries.
pub uninterp spec fn spec_token_doc(s: Seq<char>) -> TokenDoc;

/// The currently-playing fields that a well-formed body carries.
pub uninterp spec fn spec_playing_doc(s: Seq<char>) -> PlayingDoc;

/// The artist-resource field that a well-formed body carries.
pub uninterp spec fn spec_artist_doc(s: Seq<char>) -> ArtistDoc;

/// The player-state field that a well-formed body carries.
pub uninterp spec fn spec_playback_doc(s: Seq<char>) -> PlaybackStateDoc;

/// The device-list shape that a well-formed body carries.
pub uninterp spec fn spec_devices_doc(s: Seq<char>) -> DevicesDoc;

/// The playlist-resource field that a well-formed body carries.
pub uninterp spec fn spec_playlist_doc(s: Seq<char>) -> PlaylistDoc;

/// Relies on `serde_json::from_str`: text that is one well-formed JSON
/// document parses to its value; anything else is an error. Success and
/// the value returned depend on the text alone, which `spec_is_json` and
/// `spec_json_value` name.
#[verifier::external_body]
pub fn parse_json(s: &str) -> (r: Option<serde_json::Value>)
    ensures
        r is Some <==> spec_is_json(s@),
        r matches Some(v) ==> v == spec_json_value(s@),
{
    serde_json::from_str::<serde_json::Value>(s).ok()
}

/// Relies on `serde_json::from_str` and `Value`'s accessors: parses the
/// body and reads the string fields `access_token`, `token_type`,
/// `refresh_token` and `scope` and the integer field `expires_in` of the
/// token response. Success and the fields read are functions of the text
/// alone, named by `spec_is_json` and `spec_token_doc`.
#[verifier::external_body]
pub fn token_doc_of_text(s: &str) -> (r: Option<TokenDoc>)
    ensures
        r is Some <==> spec_is_json(s@),
        r matches Some(doc) ==> doc == spec_token_doc(s@),
{
    let v: serde_json::Value = serde_json::from_str(s).ok()?;
    Some(TokenDoc {
        access_token: v["access_token"].as_str().map(|x| x.to_string()),
        token_type: v["token_type"].as_str().map(|x| x.to_string()),
        expires_in: v["expires_in"].as_u64(),
        refresh_token: v["refresh_token"].as_str().map(|x| x.to_string()),
        scope: v["scope"].as_str().map(|x| x.to_string()),
    })
}

/// Relies on `serde_json::from_str` and `Value`'s accessors: parses the
/// body and reads from the currently-playing response the track name,
/// the first artist's name and id, the first album image URL, and the
/// progress and duration counters. Named by `spec_is_json` and
/// `spec_playing_doc`.
#[verifier::external_body]
pub fn playing_doc_of_text(s: &str) -> (r: Option<PlayingDoc>)
    ensures
        r is Some <==> spec_is_json(s@),
        r matches Some(doc) ==> doc == spec_playing_doc(s@),
{
    let v: serde_json::Value = serde_json::from_str(s).ok()?;
    Some(PlayingDoc {
        title: v["item"]["name"].as_str().map(|x| x.to_string()),
        artist_name: v["item"]["artists"][0]["name"].as_str().map(|x| x.to_string()),
        artist_id: v["item"]["artists"][0]["id"].as_str().map(|x| x.to_string()),
        album_image_url: v["item"]["album"]["images"][0]["url"].as_str().map(|x| x.to_string()),
        progress_ms: v["progress_ms"].as_u64(),
        duration_ms: v["item"]["duration_ms"].as_u64(),
    })
}

/// Relies on `serde_json::from_str` and `Value`'s accessors: parses the
/// body and reads the first image URL of an artist resource. Named by
/// `spec_is_json` and `spec_artist_doc`.
#[verifier::external_body]
pub fn artist_doc_of_text(s: &str) -> (r: Option<ArtistDoc>)
    ensures
        r is Some <==> spec_is_json(s@),
        r matches Some(doc) ==> doc == spec_artist_doc(s@),
{
    let v: serde_json::Value = serde_json::from_str(s).ok()?;
    Some(ArtistDoc { image_url: v["images"][0]["url"].as_str().map(|x| x.to_string()) })
}

/// Relies on `serde_json::from_str` and `Value::as_bool`: parses the
/// body and reads the boolean `shuffle_state` field of the player-state
/// response. Named by `spec_is_json` and `spec_playback_doc`.
#[verifier::external_body]
pub fn playback_doc_of_text(s: &str) -> (r: Option<PlaybackStateDoc>)
    ensures
        r is Some <==> spec_is_json(s@),
        r matches Some(doc) ==> doc == spec_playback_doc(s@),
{
    let v: serde_json::Value = serde_json::from_str(s).ok()?;
    Some(PlaybackStateDoc { shuffle_state: v["shuffle_state"].as_bool() })
}

/// Relies on `serde_json::from_str` and `Value`'s accessors: parses the
/// body and reads the `devices` array of the device-list response, its
/// length, and the id of its first entry. Named by `spec_is_json` and
/// `spec_devices_doc`.
#[verifier::external_body]
pub fn devices_doc_of_text(s: &str) -> (r: Option<DevicesDoc>)
    ensures
        r is Some <==> spec_is_json(s@),
        r matches Some(doc) ==> doc == spec_devices_doc(s@),
{
    let v: serde_json::Value = serde_json::from_str(s).ok()?;
    let devices = v["devices"].as_array();
    Some(DevicesDoc {
        devices_present: devices.is_some(),
        device_count: devices.map_or(0, |d| d.len()),
        first_device_id: v["devices"][0]["id"].as_str().map(|x| x.to_string()),
    })
}

/// Relies on `serde_json::from_str` and `Value`'s accessors: parses the
/// body and reads the first image URL of a playlist resource. Named by
/// `spec_is_json` and `spec_playlist_doc`.
#[verifier::external_body]
pub fn playlist_doc_of_text(s: &str) -> (r: Option<PlaylistDoc>)
    ensures
        r is Some <==> spec_is_json(s@),
        r matches Some(doc) ==> doc == spec_playlist_doc(s@),
{
    let v: serde_json::Value = serde_json::from_str(s).ok()?;
    Some(PlaylistDoc { first_image_url: v["images"][0]["url"].as_str().map(|x| x.to_string()) })
}

} // verus!
