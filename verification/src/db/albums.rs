//! Album and artist rows aggregated from the song table.

use vstd::prelude::*;
use crate::utils::subsonic::{md5_hex, md5_hex_of};

verus! {

/// An album, aggregated from the songs that name it.
#[derive(Debug, Clone)]
pub struct DbAlbum {
    pub id: String,
    pub name: String,
    pub artist: String,
    pub cover_hash: Option<String>,
    pub stream_cover_url: Option<String>,
    pub song_count: i64,
}

/// An artist, aggregated from the songs that name it.
#[derive(Debug, Clone)]
pub struct DbArtist {
    pub id: String,
    pub name: String,
    pub cover_hash: Option<String>,
    pub stream_cover_url: Option<String>,
    pub song_count: i64,
}

/// The stable identifier of an album: derived from its name.
pub fn album_id(name: &str) -> (id: String)
    ensures
        id@ == "album-"@ + md5_hex_of(name@),
{
    let mut id = String::from_str("album-");
    id.append(md5_hex(name).as_str());
    id
}

/// The stable identifier of an artist: derived from the name.
pub fn artist_id(name: &str) -> (id: String)
    ensures
        id@ == "artist-"@ + md5_hex_of(name@),
{
    let mut id = String::from_str("artist-");
    id.append(md5_hex(name).as_str());
    id
}

} // verus!
