//! Commands that serve every kind of streaming server.

use vstd::prelude::*;
use crate::models::streaming::StreamServerConfig;
use crate::utils::{jellyfin, subsonic};

verus! {

/// The stream address of a song, by the API that the server speaks. For a
/// Subsonic server the address carries a freshly salted token.
pub fn get_stream_url(config: StreamServerConfig, song_id: String) -> (url: String)
    ensures
        config.server_type is Jellyfin || config.server_type is Emby ==> url@
            == jellyfin::stream_url(config, song_id@),
        !(config.server_type is Jellyfin || config.server_type is Emby) ==> exists|
            salt: Seq<char>,
        |
            subsonic::is_salt(salt) && url@ == subsonic::stream_url(
                config.server_url@,
                song_id@,
                config.username@,
                config.password@,
                salt,
            ),
{
    if config.is_subsonic() {
        subsonic::get_stream_url(&config, song_id.as_str())
    } else {
        jellyfin::get_stream_url(&config, song_id.as_str())
    }
}

} // verus!
