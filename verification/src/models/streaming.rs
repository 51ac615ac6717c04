//! Records exchanged with streaming servers: Subsonic-compatible ones
//! (Navidrome, Subsonic, OpenSubsonic) and Jellyfin or Emby.

use vstd::prelude::*;
use std::collections::HashMap;

verus! {

/// The protocol family and flavour of a streaming server.
#[derive(Debug, Clone, Copy, PartialEq, Eq, Structural)]
pub enum ServerType {
    Navidrome,
    Subsonic,
    OpenSubsonic,
    Jellyfin,
    Emby,
}

/// The configuration of one streaming server, whatever its protocol.
#[derive(Debug, Clone)]
pub struct StreamServerConfig {
    pub server_type: ServerType,
    pub server_name: String,
    pub server_url: String,
    pub username: String,
    pub password: String,
    pub access_token: Option<String>,
    pub user_id: Option<String>,
}

/// The outcome of a connection test.
#[derive(Debug, Clone)]
pub struct ConnectionTestResult {
    pub success: bool,
    pub message: String,
    pub server_version: Option<String>,
}

/// The envelope of every answer of the Subsonic API.
#[derive(Debug, Clone)]
pub struct SubsonicResponse<T> {
    pub subsonic_response: SubsonicResponseInner<T>,
}

/// The body of an answer: its status, and its data or its error.
#[derive(Debug, Clone)]
pub struct SubsonicResponseInner<T> {
    pub status: String,
    pub version: String,
    pub data: Option<T>,
    pub error: Option<SubsonicError>,
}

/// An error as the Subsonic API reports it.
#[derive(Debug, Clone)]
pub struct SubsonicError {
    pub code: i32,
    pub message: String,
}

/// The empty answer to `ping`.
#[derive(Debug, Clone)]
pub struct PingResponse {}

/// Answer to `getRandomSongs`.
#[derive(Debug, Clone)]
pub struct GetSongsResponse {
    pub random_songs: Option<RandomSongs>,
}

/// The songs of a `getRandomSongs` answer.
#[derive(Debug, Clone)]
pub struct RandomSongs {
    pub song: Option<Vec<SubsonicSong>>,
}

/// Answer to `search3`.
#[derive(Debug, Clone)]
pub struct SearchResponse {
    pub search_result3: Option<SearchResult3>,
}

/// The songs of a `search3` answer.
#[derive(Debug, Clone)]
pub struct SearchResult3 {
    pub song: Option<Vec<SubsonicSong>>,
}

/// A song as the Subsonic API describes it; the duration is in seconds.
#[derive(Debug, Clone)]
pub struct SubsonicSong {
    pub id: String,
    pub title: String,
    pub artist: Option<String>,
    pub album: Option<String>,
    pub duration: Option<u64>,
    pub size: Option<u64>,
    pub cover_art: Option<String>,
    pub suffix: Option<String>,
    pub bit_rate: Option<u32>,
    pub sampling_rate: Option<u32>,
    pub bit_depth: Option<u8>,
    pub path: Option<String>,
}

/// Answer to `getAlbumList2`.
#[derive(Debug, Clone)]
pub struct GetAlbumListResponse {
    pub album_list2: Option<AlbumList2>,
}

/// The albums of a `getAlbumList2` answer.
#[derive(Debug, Clone)]
pub struct AlbumList2 {
    pub album: Option<Vec<SubsonicAlbum>>,
}

/// An album as the Subsonic API describes it.
#[derive(Debug, Clone)]
pub struct SubsonicAlbum {
    pub id: String,
    pub name: String,
    pub artist: Option<String>,
    pub cover_art: Option<String>,
    pub song_count: Option<u32>,
    pub year: Option<u32>,
}

/// Answer to `getAlbum`.
#[derive(Debug, Clone)]
pub struct GetAlbumResponse {
    pub album: Option<AlbumWithSongs>,
}

/// An album together with its songs.
#[derive(Debug, Clone)]
pub struct AlbumWithSongs {
    pub id: String,
    pub name: String,
    pub artist: Option<String>,
    pub cover_art: Option<String>,
    pub song_count: Option<u32>,
    pub year: Option<u32>,
    pub song: Option<Vec<SubsonicSong>>,
}

/// The credentials sent to `AuthenticateByName`.
#[derive(Debug, Clone)]
pub struct JellyfinAuthRequest {
    pub username: String,
    pub pw: String,
}

/// Answer to `AuthenticateByName`.
#[derive(Debug, Clone)]
pub struct JellyfinAuthResponse {
    pub access_token: String,
    pub user: JellyfinUser,
    pub server_id: Option<String>,
}

/// The user of an authenticated session.
#[derive(Debug, Clone)]
pub struct JellyfinUser {
    pub id: String,
    pub name: String,
}

/// What a Jellyfin or Emby server tells of itself.
#[derive(Debug, Clone)]
pub struct JellyfinSystemInfo {
    pub version: Option<String>,
    pub product_name: Option<String>,
    pub server_name: Option<String>,
}

/// One page of an item query.
#[derive(Debug, Clone)]
pub struct JellyfinItemsResponse {
    pub items: Vec<JellyfinItem>,
    pub total_record_count: u64,
}

/// A media item; the run time is in ticks of 100 ns.
#[derive(Debug, Clone)]
pub struct JellyfinItem {
    pub id: String,
    pub name: String,
    pub album: Option<String>,
    pub album_artist: Option<String>,
    pub artists: Option<Vec<String>>,
    pub run_time_ticks: Option<u64>,
    pub size: Option<u64>,
    pub container: Option<String>,
    pub path: Option<String>,
    pub image_tags: Option<HashMap<String, String>>,
    pub media_sources: Option<Vec<JellyfinMediaSource>>,
}

/// One source of a media item.
#[derive(Debug, Clone)]
pub struct JellyfinMediaSource {
    pub bitrate: Option<u32>,
    pub container: Option<String>,
    pub size: Option<u64>,
    pub media_streams: Option<Vec<JellyfinMediaStream>>,
}

/// One stream of a media source.
#[derive(Debug, Clone)]
pub struct JellyfinMediaStream {
    pub stream_type: Option<String>,
    pub codec: Option<String>,
    pub sample_rate: Option<u32>,
    pub bit_depth: Option<u8>,
    pub channels: Option<u32>,
}

/// Answer to a lyrics query.
#[derive(Debug, Clone)]
pub struct JellyfinLyricsResponse {
    pub lyrics: Vec<JellyfinLyricLine>,
}

/// One line of lyrics; `start` is in ticks of 100 ns.
#[derive(Debug, Clone)]
pub struct JellyfinLyricLine {
    pub start: Option<u64>,
    pub text: String,
}

impl StreamServerConfig {
    /// The server speaks the Subsonic API: Navidrome, Subsonic or
    /// OpenSubsonic.
    pub fn is_subsonic(&self) -> (yes: bool)
        ensures
            yes == (self.server_type is Navidrome || self.server_type is Subsonic
                || self.server_type is OpenSubsonic),
    {
        match self.server_type {
            ServerType::Navidrome | ServerType::Subsonic | ServerType::OpenSubsonic => true,
            _ => false,
        }
    }

    /// The server speaks the Jellyfin API: Jellyfin or Emby.
    pub fn is_jellyfin_like(&self) -> (yes: bool)
        ensures
            yes == (self.server_type is Jellyfin || self.server_type is Emby),
    {
        match self.server_type {
            ServerType::Jellyfin | ServerType::Emby => true,
            _ => false,
        }
    }
}

/// Every server speaks exactly one of the two APIs.
pub proof fn lemma_one_api(server_type: ServerType)
    ensures
        (server_type is Navidrome || server_type is Subsonic || server_type is OpenSubsonic) != (
        server_type is Jellyfin || server_type is Emby),
{
}

} // verus!
