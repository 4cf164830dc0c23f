pub mod creator;
pub mod creator_page;
pub mod post;
