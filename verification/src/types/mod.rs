pub mod medium;
