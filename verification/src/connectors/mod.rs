pub mod cached_medium;
pub mod graphql_medium;
