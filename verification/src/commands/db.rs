//! Records of the library commands.

use vstd::prelude::*;

verus! {

/// A streaming server as it was stored by earlier versions of the player.
#[derive(Debug, Clone)]
pub struct MigrationStreamConfig {
    pub server_type: String,
    pub server_name: String,
    pub server_url: String,
    pub username: String,
    pub password: String,
    pub access_token: Option<String>,
    pub user_id: Option<String>,
}

/// Counts of what the library holds.
#[derive(Debug, Clone, Copy, PartialEq, Eq, Structural)]
pub struct LibraryStats {
    pub total_songs: i64,
    pub local_songs: i64,
    pub stream_songs: i64,
    pub total_albums: i64,
    pub total_artists: i64,
}

} // verus!
