//! The columns under which creators and posts are stored, and how stored
//! columns are read back into creators, posts and post previews.

use vstd::prelude::*;
use crate::types::medium::creator::{Creator, SocialStats};
use crate::types::medium::creator_page::{ExtendedPreviewContent, PostPreview, PreviewImage};
use crate::types::medium::post::{Content, Post};

verus! {

/// The columns of a stored creator.
#[derive(Debug, Clone, PartialEq, Eq)]
pub struct CreatorRow {
    pub id: String,
    pub name: String,
    pub username: String,
    pub image_id: String,
    pub bio: String,
    pub follower_count: u32,
}

/// The columns of a stored post, but for its content, which is stored as
/// serialised JSON.
#[derive(Debug, Clone, PartialEq, Eq)]
pub struct PostRow {
    pub id: String,
    pub creator_id: String,
    pub title: String,
    pub medium_url: String,
    pub created_at: u64,
    pub first_published_at: u64,
    pub latest_published_at: u64,
    pub updated_at: u64,
    pub clap_count: u64,
    pub preview_image_id: Option<String>,
    pub preview_image_alt: Option<String>,
    pub reading_time_bits: u32,
    pub unique_slug: String,
    pub subtitle: String,
    pub license: String,
    pub paywall: bool,
}

/// Whether a text reads as a URI, as `http::Uri` parses it.
pub uninterp spec fn is_uri(text: Seq<char>) -> bool;

/// Calls `str::parse::<http::Uri>` and tells whether it succeeded. The
/// contract names the outcome as a function of the text alone; which texts
/// parse is not stated.
#[verifier::external_body]
fn parses_as_uri(text: &str) -> (r: bool)
    ensures
        r == is_uri(text@),
{
    text.parse::<http::Uri>().is_ok()
}

/// The columns a creator is stored under.
pub open spec fn creator_columns(c: Creator) -> CreatorRow {
    CreatorRow {
        id: c.id,
        name: c.name,
        username: c.username,
        image_id: c.image_id,
        bio: c.bio,
        follower_count: c.social_stats.follower_count,
    }
}

/// The creator that stored columns describe.
pub open spec fn creator_of_columns(r: CreatorRow) -> Creator {
    Creator {
        id: r.id,
        name: r.name,
        image_id: r.image_id,
        social_stats: SocialStats { follower_count: r.follower_count },
        username: r.username,
        bio: r.bio,
    }
}

/// The preview image that the two image columns describe: one exists
/// exactly when its id is stored.
pub open spec fn preview_image_of_columns(id: Option<String>, alt: Option<String>) -> Option<
    PreviewImage,
> {
    match id {
        Some(id) => Some(PreviewImage { id, alt }),
        None => None,
    }
}

/// The columns a post is stored under: its creator by id, its preview
/// image as an id column and an alt-text column (both empty without an
/// image), its subtitle in a column of its own.
pub open spec fn post_columns(p: Post) -> PostRow {
    PostRow {
        id: p.id,
        creator_id: p.creator.id,
        title: p.title,
        medium_url: p.medium_url,
        created_at: p.created_at,
        first_published_at: p.first_published_at,
        latest_published_at: p.latest_published_at,
        updated_at: p.updated_at,
        clap_count: p.clap_count,
        preview_image_id: match p.preview_image {
            Some(img) => Some(img.id),
            None => None,
        },
        preview_image_alt: match p.preview_image {
            Some(img) => img.alt,
            None => None,
        },
        reading_time_bits: p.reading_time_bits,
        unique_slug: p.unique_slug,
        subtitle: p.preview.subtitle,
        license: p.license,
        paywall: p.paywall,
    }
}

/// The post that stored columns describe, with the creator and content
/// that were read beside them.
pub open spec fn post_of_columns(r: PostRow, creator: Creator, content: Content) -> Post {
    Post {
        id: r.id,
        creator,
        paywall: r.paywall,
        medium_url: r.medium_url,
        created_at: r.created_at,
        first_published_at: r.first_published_at,
        latest_published_at: r.latest_published_at,
        updated_at: r.updated_at,
        clap_count: r.clap_count,
        preview_image: preview_image_of_columns(r.preview_image_id, r.preview_image_alt),
        reading_time_bits: r.reading_time_bits,
        unique_slug: r.unique_slug,
        preview: ExtendedPreviewContent { subtitle: r.subtitle },
        title: r.title,
        license: r.license,
        content,
    }
}

/// The post preview that stored post columns describe.
pub open spec fn preview_of_columns(r: PostRow) -> PostPreview {
    PostPreview {
        id: r.id,
        title: r.title,
        medium_url: r.medium_url,
        created_at: r.created_at,
        first_published_at: r.first_published_at,
        latest_published_at: r.latest_published_at,
        updated_at: r.updated_at,
        clap_count: r.clap_count,
        preview_image: preview_image_of_columns(r.preview_image_id, r.preview_image_alt),
        reading_time_bits: r.reading_time_bits,
        unique_slug: r.unique_slug,
        extended_preview_content: ExtendedPreviewContent { subtitle: r.subtitle },
    }
}

/// The preview of a post: the post's own summary fields.
pub open spec fn preview_of_post(p: Post) -> PostPreview {
    PostPreview {
        id: p.id,
        title: p.title,
        medium_url: p.medium_url,
        created_at: p.created_at,
        first_published_at: p.first_published_at,
        latest_published_at: p.latest_published_at,
        updated_at: p.updated_at,
        clap_count: p.clap_count,
        preview_image: p.preview_image,
        reading_time_bits: p.reading_time_bits,
        unique_slug: p.unique_slug,
        extended_preview_content: p.preview,
    }
}

fn clone_string_opt(o: &Option<String>) -> (r: Option<String>)
    ensures
        r == *o,
{
    match o {
        Some(s) => Some(s.clone()),
        None => None,
    }
}

/// The columns a creator is stored under.
pub fn creator_row(c: &Creator) -> (r: CreatorRow)
    ensures
        r == creator_columns(*c),
        r.id == c.id,
        r.name == c.name,
        r.username == c.username,
        r.image_id == c.image_id,
        r.bio == c.bio,
        r.follower_count == c.social_stats.follower_count,
{
    CreatorRow {
        id: c.id.clone(),
        name: c.name.clone(),
        username: c.username.clone(),
        image_id: c.image_id.clone(),
        bio: c.bio.clone(),
        follower_count: c.social_stats.follower_count,
    }
}

/// The creator that stored columns describe.
pub fn creator_from_row(r: CreatorRow) -> (c: Creator)
    ensures
        c == creator_of_columns(r),
        c.id == r.id,
        c.name == r.name,
        c.username == r.username,
        c.image_id == r.image_id,
        c.bio == r.bio,
        c.social_stats.follower_count == r.follower_count,
{
    Creator {
        id: r.id,
        name: r.name,
        image_id: r.image_id,
        social_stats: SocialStats { follower_count: r.follower_count },
        username: r.username,
        bio: r.bio,
    }
}

/// The name of a column read under a table prefix, such as `c_` for the
/// creator columns of a joined post query.
pub fn prefixed_column(prefix: &str, column: &str) -> (r: String)
    ensures
        r@ == prefix@ + column@,
{
    String::from_str(prefix).concat(column)
}

/// The preview image that the two image columns describe.
pub fn preview_image_from_columns(id: Option<String>, alt: Option<String>) -> (r: Option<
    PreviewImage,
>)
    ensures
        r == preview_image_of_columns(id, alt),
{
    match id {
        Some(id) => Some(PreviewImage { id, alt }),
        None => None,
    }
}

/// The columns a post is stored under.
pub fn post_row(p: &Post) -> (r: PostRow)
    ensures
        r == post_columns(*p),
        r.id == p.id,
        r.creator_id == p.creator.id,
        r.title == p.title,
        r.subtitle == p.preview.subtitle,
        r.medium_url == p.medium_url,
        r.unique_slug == p.unique_slug,
        r.license == p.license,
        r.created_at == p.created_at,
        r.first_published_at == p.first_published_at,
        r.latest_published_at == p.latest_published_at,
        r.updated_at == p.updated_at,
        r.clap_count == p.clap_count,
        r.reading_time_bits == p.reading_time_bits,
        r.paywall == p.paywall,
        p.preview_image matches Some(img) ==> r.preview_image_id == Some(img.id)
            && r.preview_image_alt == img.alt,
        p.preview_image is None ==> r.preview_image_id is None && r.preview_image_alt is None,
{
    let (preview_image_id, preview_image_alt) = match &p.preview_image {
        Some(img) => (Some(img.id.clone()), clone_string_opt(&img.alt)),
        None => (None, None),
    };
    PostRow {
        id: p.id.clone(),
        creator_id: p.creator.id.clone(),
        title: p.title.clone(),
        medium_url: p.medium_url.clone(),
        created_at: p.created_at,
        first_published_at: p.first_published_at,
        latest_published_at: p.latest_published_at,
        updated_at: p.updated_at,
        clap_count: p.clap_count,
        preview_image_id,
        preview_image_alt,
        reading_time_bits: p.reading_time_bits,
        unique_slug: p.unique_slug.clone(),
        subtitle: p.preview.subtitle.clone(),
        license: p.license.clone(),
        paywall: p.paywall,
    }
}

/// The post that stored columns describe, with the creator and content
/// read beside them. The stored URL must read as a URI.
pub fn post_from_row(r: PostRow, creator: Creator, content: Content) -> (p: Post)
    requires
        is_uri(r.medium_url@),
    ensures
        p == post_of_columns(r, creator, content),
        p.id == r.id,
        p.title == r.title,
        p.preview.subtitle == r.subtitle,
        p.medium_url == r.medium_url,
        p.unique_slug == r.unique_slug,
        p.license == r.license,
        p.created_at == r.created_at,
        p.first_published_at == r.first_published_at,
        p.latest_published_at == r.latest_published_at,
        p.updated_at == r.updated_at,
        p.clap_count == r.clap_count,
        p.reading_time_bits == r.reading_time_bits,
        p.paywall == r.paywall,
{
    Post {
        id: r.id,
        creator,
        paywall: r.paywall,
        medium_url: r.medium_url,
        created_at: r.created_at,
        first_published_at: r.first_published_at,
        latest_published_at: r.latest_published_at,
        updated_at: r.updated_at,
        clap_count: r.clap_count,
        preview_image: preview_image_from_columns(r.preview_image_id, r.preview_image_alt),
        reading_time_bits: r.reading_time_bits,
        unique_slug: r.unique_slug,
        preview: ExtendedPreviewContent { subtitle: r.subtitle },
        title: r.title,
        license: r.license,
        content,
    }
}

/// The post preview that stored post columns describe. The stored URL must
/// read as a URI.
pub fn preview_from_row(r: PostRow) -> (p: PostPreview)
    requires
        is_uri(r.medium_url@),
    ensures
        p == preview_of_columns(r),
        p.id == r.id,
        p.title == r.title,
        p.extended_preview_content.subtitle == r.subtitle,
        p.medium_url == r.medium_url,
        p.unique_slug == r.unique_slug,
        p.created_at == r.created_at,
        p.first_published_at == r.first_published_at,
        p.latest_published_at == r.latest_published_at,
        p.updated_at == r.updated_at,
        p.clap_count == r.clap_count,
        p.reading_time_bits == r.reading_time_bits,
{
    PostPreview {
        id: r.id,
        title: r.title,
        medium_url: r.medium_url,
        created_at: r.created_at,
        first_published_at: r.first_published_at,
        latest_published_at: r.latest_published_at,
        updated_at: r.updated_at,
        clap_count: r.clap_count,
        preview_image: preview_image_from_columns(r.preview_image_id, r.preview_image_alt),
        reading_time_bits: r.reading_time_bits,
        unique_slug: r.unique_slug,
        extended_preview_content: ExtendedPreviewContent { subtitle: r.subtitle },
    }
}

/// The post that stored columns describe, or `None` when the stored URL
/// does not read as a URI.
pub fn checked_post_from_row(r: PostRow, creator: Creator, content: Content) -> (p: Option<Post>)
    ensures
        is_uri(r.medium_url@) ==> p == Some(post_of_columns(r, creator, content)),
        !is_uri(r.medium_url@) ==> p is None,
{
    if parses_as_uri(r.medium_url.as_str()) {
        Some(post_from_row(r, creator, content))
    } else {
        None
    }
}

/// The post preview that stored post columns describe, or `None` when the
/// stored URL does not read as a URI.
pub fn checked_preview_from_row(r: PostRow) -> (p: Option<PostPreview>)
    ensures
        is_uri(r.medium_url@) ==> p == Some(preview_of_columns(r)),
        !is_uri(r.medium_url@) ==> p is None,
{
    if parses_as_uri(r.medium_url.as_str()) {
        Some(preview_from_row(r))
    } else {
        None
    }
}

/// Law: each column of a stored creator holds the field it is named after,
/// and reads back into that same field; in particular the name and the
/// username are never exchanged, so a creator is found by its username.
pub proof fn lemma_creator_columns_by_name(c: Creator, r: CreatorRow)
    ensures
        creator_columns(c).id == c.id,
        creator_columns(c).name == c.name,
        creator_columns(c).username == c.username,
        creator_columns(c).image_id == c.image_id,
        creator_columns(c).bio == c.bio,
        creator_columns(c).follower_count == c.social_stats.follower_count,
        creator_of_columns(r).id == r.id,
        creator_of_columns(r).name == r.name,
        creator_of_columns(r).username == r.username,
        creator_of_columns(r).image_id == r.image_id,
        creator_of_columns(r).bio == r.bio,
        creator_of_columns(r).social_stats.follower_count == r.follower_count,
{
}

/// Law: each column of a stored post holds the field it is named after (the
/// title in the title column, the subtitle of the preview in the subtitle
/// column, and so on), and reads back into that same field of the post and
/// of the post preview.
pub proof fn lemma_post_columns_by_name(p: Post, r: PostRow, creator: Creator, content: Content)
    ensures
        post_columns(p).id == p.id,
        post_columns(p).creator_id == p.creator.id,
        post_columns(p).title == p.title,
        post_columns(p).subtitle == p.preview.subtitle,
        post_columns(p).medium_url == p.medium_url,
        post_columns(p).unique_slug == p.unique_slug,
        post_columns(p).license == p.license,
        post_columns(p).created_at == p.created_at,
        post_columns(p).first_published_at == p.first_published_at,
        post_columns(p).latest_published_at == p.latest_published_at,
        post_columns(p).updated_at == p.updated_at,
        post_columns(p).clap_count == p.clap_count,
        post_columns(p).reading_time_bits == p.reading_time_bits,
        post_columns(p).paywall == p.paywall,
        p.preview_image matches Some(img) ==> post_columns(p).preview_image_id == Some(img.id)
            && post_columns(p).preview_image_alt == img.alt,
        p.preview_image is None ==> post_columns(p).preview_image_id is None
            && post_columns(p).preview_image_alt is None,
        post_of_columns(r, creator, content).id == r.id,
        post_of_columns(r, creator, content).creator == creator,
        post_of_columns(r, creator, content).content == content,
        post_of_columns(r, creator, content).title == r.title,
        post_of_columns(r, creator, content).preview.subtitle == r.subtitle,
        post_of_columns(r, creator, content).medium_url == r.medium_url,
        post_of_columns(r, creator, content).unique_slug == r.unique_slug,
        post_of_columns(r, creator, content).license == r.license,
        post_of_columns(r, creator, content).created_at == r.created_at,
        post_of_columns(r, creator, content).first_published_at == r.first_published_at,
        post_of_columns(r, creator, content).latest_published_at == r.latest_published_at,
        post_of_columns(r, creator, content).updated_at == r.updated_at,
        post_of_columns(r, creator, content).clap_count == r.clap_count,
        post_of_columns(r, creator, content).reading_time_bits == r.reading_time_bits,
        post_of_columns(r, creator, content).paywall == r.paywall,
        r.preview_image_id matches Some(id) ==> post_of_columns(r, creator, content).preview_image
            == Some(PreviewImage { id, alt: r.preview_image_alt }),
        r.preview_image_id is None ==> post_of_columns(r, creator, content).preview_image is None,
        preview_of_columns(r).id == r.id,
        preview_of_columns(r).title == r.title,
        preview_of_columns(r).extended_preview_content.subtitle == r.subtitle,
        preview_of_columns(r).medium_url == r.medium_url,
        preview_of_columns(r).unique_slug == r.unique_slug,
        preview_of_columns(r).created_at == r.created_at,
        preview_of_columns(r).first_published_at == r.first_published_at,
        preview_of_columns(r).latest_published_at == r.latest_published_at,
        preview_of_columns(r).updated_at == r.updated_at,
        preview_of_columns(r).clap_count == r.clap_count,
        preview_of_columns(r).reading_time_bits == r.reading_time_bits,
        preview_of_columns(r).preview_image == post_of_columns(r, creator, content).preview_image,
{
}

/// Law: a stored creator reads back as the same creator.
pub proof fn lemma_creator_round_trip(c: Creator)
    ensures
        creator_of_columns(creator_columns(c)) == c,
{
}

/// Law: a stored post, read back with its creator and its content, is the
/// same post.
pub proof fn lemma_post_round_trip(p: Post)
    ensures
        post_of_columns(post_columns(p), p.creator, p.content) == p,
{
    match p.preview_image {
        Some(img) => {},
        None => {},
    }
}

/// Law: the preview read from a stored post is the post's own preview.
pub proof fn lemma_preview_of_stored_post(p: Post)
    ensures
        preview_of_columns(post_columns(p)) == preview_of_post(p),
{
    match p.preview_image {
        Some(img) => {},
        None => {},
    }
}

} // verus!
