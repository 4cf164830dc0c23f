//! A creator's page of post previews, with its paging links.

use vstd::prelude::*;

verus! {

/// Envelope of a user query answer.
#[derive(Debug, Clone, PartialEq, Eq)]
pub struct UserResult<T> {
    pub data: UserResultInner<T>,
}

/// Payload of a user query answer.
#[derive(Debug, Clone, PartialEq, Eq)]
pub struct UserResultInner<T> {
    pub user_result: T,
}

/// A creator together with one page of their post previews.
#[derive(Debug, Clone, PartialEq, Eq)]
pub struct CreatorPage {
    pub id: String,
    pub name: String,
    pub username: String,
    pub image_id: String,
    pub post_previews: CreatorPagePostsConnection,
}

/// One page of post previews.
#[derive(Debug, Clone, PartialEq, Eq)]
pub struct CreatorPagePostsConnection {
    pub posts: Vec<PostPreview>,
    pub paging_info: PagingInfo,
}

/// Summary of a post as listed on a creator's page.
///
/// `medium_url` holds the post's URI as text, and `reading_time_bits` the
/// IEEE-754 bit pattern of the reading time in minutes (an `f32`).
#[derive(Debug, Clone, PartialEq, Eq)]
pub struct PostPreview {
    pub id: String,
    pub title: String,
    pub medium_url: String,
    pub created_at: u64,
    pub first_published_at: u64,
    pub latest_published_at: u64,
    pub updated_at: u64,
    pub clap_count: u64,
    pub preview_image: Option<PreviewImage>,
    pub reading_time_bits: u32,
    pub unique_slug: String,
    pub extended_preview_content: ExtendedPreviewContent,
}

/// Whole seconds of a timestamp in milliseconds, the form in which dates
/// are made from post timestamps.
pub fn timestamp_seconds(ms: u64) -> (r: i64)
    ensures
        r == ms / 1000,
{
    (ms / 1000) as i64
}

/// Image shown with a post.
#[derive(Debug, Clone, PartialEq, Eq)]
pub struct PreviewImage {
    pub id: String,
    pub alt: Option<String>,
}

/// Subtitle of a post.
#[derive(Debug, Clone, PartialEq, Eq)]
pub struct ExtendedPreviewContent {
    pub subtitle: String,
}

/// Links to the neighbouring pages.
#[derive(Debug, Clone, PartialEq, Eq)]
pub struct PagingInfo {
    pub previous: Option<FromPagingInfo>,
    pub next: Option<FromPagingInfo>,
}

/// A page cursor: where a page starts and how long it is.
#[derive(Debug, Clone, PartialEq, Eq)]
pub struct FromPagingInfo {
    pub from: String,
    pub limit: u32,
}

} // verus!
