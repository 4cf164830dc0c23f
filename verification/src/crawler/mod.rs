pub mod crawler;
pub mod media;
pub mod walk;
