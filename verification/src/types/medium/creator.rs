//! A Medium author.

use vstd::prelude::*;

verus! {

/// A Medium author as the GraphQL API and the store describe them.
#[derive(Debug, Clone, PartialEq, Eq)]
pub struct Creator {
    pub id: String,
    pub name: String,
    pub image_id: String,
    pub social_stats: SocialStats,
    pub username: String,
    pub bio: String,
}

/// Audience figures of a creator.
#[derive(Debug, Clone, PartialEq, Eq)]
pub struct SocialStats {
    pub follower_count: u32,
}

} // verus!
