pub mod cover;
pub mod jellyfin;
pub mod navidrome;
pub mod subsonic;
