pub mod db;
pub mod online_lyrics;
pub mod scanner;
pub mod streaming;
