pub mod albums;
pub mod servers;
