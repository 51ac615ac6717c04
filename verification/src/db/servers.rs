//! Rows of the table of streaming servers.

use vstd::prelude::*;
use crate::utils::cover::{sha256_hex_of, CoverCache};

verus! {

/// A streaming server as stored.
#[derive(Debug, Clone)]
pub struct DbStreamServer {
    pub id: String,
    pub server_type: String,
    pub server_name: String,
    pub server_url: String,
    pub username: String,
    pub password: String,
    pub access_token: Option<String>,
    pub user_id: Option<String>,
    pub enabled: bool,
    pub created_at: i64,
}

/// A streaming server to be stored.
#[derive(Debug, Clone)]
pub struct StreamServerInput {
    pub server_type: String,
    pub server_name: String,
    pub server_url: String,
    pub username: String,
    pub password: String,
    pub access_token: Option<String>,
    pub user_id: Option<String>,
}

/// Hexadecimal digits of the digest that an identifier keeps.
pub const SERVER_ID_DIGITS: usize = 25;

/// The identifier of a server: derived from its address and the user's
/// name, 32 characters long.
pub fn generate_server_id(server_url: &str, username: &str) -> (id: String)
    ensures
        id@ == "server-"@ + sha256_hex_of(
            vstd::utf8::encode_utf8(server_url@ + username@),
        ).subrange(0, SERVER_ID_DIGITS as int),
{
    let mut joined = String::from_str(server_url);
    joined.append(username);
    let digest = CoverCache::hash_cover(joined.as_str().as_bytes());
    let mut id = String::from_str("server-");
    id.append(digest.as_str().substring_char(0, SERVER_ID_DIGITS));
    id
}

} // verus!
