pub mod navidrome;
pub mod scan;
pub mod streaming;
