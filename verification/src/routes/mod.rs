pub mod asset;
pub mod creator;
pub mod post;
pub mod user;
