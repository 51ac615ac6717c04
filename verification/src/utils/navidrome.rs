//! Addresses of a Navidrome server.

use vstd::prelude::*;
use crate::models::navidrome::NavidromeConfig;
use crate::text::strip_end_slashes;
use super::subsonic::{endpoint_url, is_salt, random_salt, stream_url, stream_url_with_salt};

verus! {

/// The address of an API endpoint of the server.
pub fn build_url(config: &NavidromeConfig, endpoint: &str) -> (url: String)
    ensures
        url@ == endpoint_url(config.server_url@, endpoint@),
{
    let mut url = String::from_str(strip_end_slashes(config.server_url.as_str()));
    url.append("/rest/");
    url.append(endpoint);
    url
}

/// The stream address of a song on the server. Each call draws a fresh
/// salt; the address is the one that salt gives.
pub fn get_stream_url(config: &NavidromeConfig, song_id: &str) -> (url: String)
    ensures
        exists|salt: Seq<char>|
            is_salt(salt) && url@ == stream_url(
                config.server_url@,
                song_id@,
                config.username@,
                config.password@,
                salt,
            ),
{
    let salt = random_salt();
    let ghost drawn = salt@;
    let url = stream_url_with_salt(
        config.server_url.as_str(),
        config.username.as_str(),
        config.password.as_str(),
        song_id,
        salt,
    );
    proof {
        assert(is_salt(drawn) && url@ == stream_url(
            config.server_url@,
            song_id@,
            config.username@,
            config.password@,
            drawn,
        ));
    }
    url
}

} // verus!
