pub mod rows;
