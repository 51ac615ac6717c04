//! Records of the Navidrome client.

use vstd::prelude::*;

verus! {

/// The address and credentials of a Navidrome server.
#[derive(Debug, Clone)]
pub struct NavidromeConfig {
    pub server_url: String,
    pub username: String,
    pub password: String,
}

/// The outcome of a connection test.
#[derive(Debug, Clone)]
pub struct ConnectionTestResult {
    pub success: bool,
    pub message: String,
    pub server_version: Option<String>,
}

/// The envelope of every answer of the Subsonic API.
#[derive(Debug, Clone)]
pub struct SubsonicResponse<T> {
    pub subsonic_response: SubsonicResponseInner<T>,
}

/// The body of an answer: its status, and its data or its error.
#[derive(Debug, Clone)]
pub struct SubsonicResponseInner<T> {
    pub status: String,
    pub version: String,
    pub data: Option<T>,
    pub error: Option<SubsonicError>,
}

/// An error as the Subsonic API reports it.
#[derive(Debug, Clone)]
pub struct SubsonicError {
    pub code: i32,
    pub message: String,
}

/// The empty answer to `ping`.
#[derive(Debug, Clone)]
pub struct PingResponse {}

/// Answer to `getRandomSongs`.
#[derive(Debug, Clone)]
pub struct GetSongsResponse {
    pub random_songs: Option<RandomSongs>,
}

/// The songs of a `getRandomSongs` answer.
#[derive(Debug, Clone)]
pub struct RandomSongs {
    pub song: Option<Vec<SubsonicSong>>,
}

/// Answer to `search3`.
#[derive(Debug, Clone)]
pub struct SearchResponse {
    pub search_result3: Option<SearchResult3>,
}

/// The songs of a `search3` answer.
#[derive(Debug, Clone)]
pub struct SearchResult3 {
    pub song: Option<Vec<SubsonicSong>>,
}

/// A song as the Subsonic API describes it; the duration is in seconds.
#[derive(Debug, Clone)]
pub struct SubsonicSong {
    pub id: String,
    pub title: String,
    pub artist: Option<String>,
    pub album: Option<String>,
    pub duration: Option<u64>,
    pub size: Option<u64>,
    pub cover_art: Option<String>,
    pub suffix: Option<String>,
    pub bit_rate: Option<u32>,
    pub sampling_rate: Option<u32>,
    pub bit_depth: Option<u8>,
    pub path: Option<String>,
}

/// Answer to `getAlbumList2`.
#[derive(Debug, Clone)]
pub struct GetAlbumListResponse {
    pub album_list2: Option<AlbumList2>,
}

/// The albums of a `getAlbumList2` answer.
#[derive(Debug, Clone)]
pub struct AlbumList2 {
    pub album: Option<Vec<SubsonicAlbum>>,
}

/// An album as the Subsonic API describes it.
#[derive(Debug, Clone)]
pub struct SubsonicAlbum {
    pub id: String,
    pub name: String,
    pub artist: Option<String>,
    pub cover_art: Option<String>,
    pub song_count: Option<u32>,
    pub year: Option<u32>,
}

/// Answer to `getAlbum`.
#[derive(Debug, Clone)]
pub struct GetAlbumResponse {
    pub album: Option<AlbumWithSongs>,
}

/// An album together with its songs.
#[derive(Debug, Clone)]
pub struct AlbumWithSongs {
    pub id: String,
    pub name: String,
    pub artist: Option<String>,
    pub cover_art: Option<String>,
    pub song_count: Option<u32>,
    pub year: Option<u32>,
    pub song: Option<Vec<SubsonicSong>>,
}

} // verus!
