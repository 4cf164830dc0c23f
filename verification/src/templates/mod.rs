pub mod creator_page;
