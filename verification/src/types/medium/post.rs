//! A full Medium post and its body.

use vstd::prelude::*;
use crate::paths::{
    ends_with_gif, ends_with_gif_of, file_name, file_name_of, lemma_file_name_with_extension, stem,
    with_extension_of,
};
use crate::types::medium::creator;
use crate::types::medium::creator_page::{ExtendedPreviewContent, PreviewImage};

verus! {

/// A post with its author and body.
///
/// `medium_url` holds the post's URI as text, and `reading_time_bits` the
/// IEEE-754 bit pattern of the reading time in minutes (an `f32`).
#[derive(Debug, Clone, PartialEq, Eq)]
pub struct Post {
    pub id: String,
    pub creator: creator::Creator,
    pub paywall: bool,
    pub medium_url: String,
    pub created_at: u64,
    pub first_published_at: u64,
    pub latest_published_at: u64,
    pub updated_at: u64,
    pub clap_count: u64,
    pub preview_image: Option<PreviewImage>,
    pub reading_time_bits: u32,
    pub unique_slug: String,
    pub preview: ExtendedPreviewContent,
    pub title: String,
    pub license: String,
    pub content: Content,
}

/// The body of a post.
#[derive(Debug, Clone, PartialEq, Eq)]
pub struct Content {
    pub body_model: BodyModel,
}

/// The paragraphs of a post, in order.
#[derive(Debug, Clone, PartialEq, Eq)]
pub struct BodyModel {
    pub paragraphs: Vec<Paragraph>,
}

/// One paragraph; `metadata` describes its image, if it shows one.
#[derive(Debug, Clone, PartialEq, Eq)]
pub struct Paragraph {
    pub p_type: String,
    pub text: String,
    pub metadata: Option<Metadata>,
    pub markups: Option<Vec<Markup>>,
}

/// The image of a paragraph.
#[derive(Debug, Clone, PartialEq, Eq)]
pub struct Metadata {
    pub id: String,
    pub original_height: Option<u32>,
    pub original_width: Option<u32>,
    pub alt: Option<String>,
}

/// URL under which Medium serves the image `id`: animated GIFs as MP4 video,
/// everything else as JPEG.
pub open spec fn media_url(id: Seq<char>) -> Seq<char> {
    if ends_with_gif(id) {
        "https://miro.medium.com/v2/format:mp4/"@ + id
    } else {
        "https://miro.medium.com/v2/format:jpeg/"@ + id
    }
}

/// Extension under which the image `id` is kept locally.
pub open spec fn media_extension(id: Seq<char>) -> Seq<char> {
    if ends_with_gif(id) {
        "mp4"@
    } else {
        "jpg"@
    }
}

/// Local file name of the image `id`: the stem of its file name with the
/// local extension.
pub open spec fn local_media_name(id: Seq<char>) -> Seq<char> {
    stem(file_name(id)->0) + seq!['.'] + media_extension(id)
}

/// The extension chosen for an image, as a string.
pub fn media_extension_of(id: &str) -> (r: &'static str)
    ensures
        r@ == media_extension(id@),
        r@.len() > 0,
        forall|i: int| 0 <= i < r@.len() ==> r@[i] != '/',
{
    proof {
        reveal_strlit("mp4");
        reveal_strlit("jpg");
    }
    if ends_with_gif_of(id) {
        "mp4"
    } else {
        "jpg"
    }
}

/// The media URL of an image id, as a string.
pub fn media_url_of(id: &str) -> (r: String)
    ensures
        r@ == media_url(id@),
{
    if ends_with_gif_of(id) {
        String::from_str("https://miro.medium.com/v2/format:mp4/").concat(id)
    } else {
        String::from_str("https://miro.medium.com/v2/format:jpeg/").concat(id)
    }
}

impl Metadata {
    /// Whether the image is an animated GIF (its id ends in `.gif`).
    pub fn is_video(&self) -> (r: bool)
        ensures
            r == ends_with_gif(self.id@),
    {
        ends_with_gif_of(self.id.as_str())
    }

    /// The URL to load the image from.
    pub fn best_url(&self) -> (r: String)
        ensures
            r@ == media_url(self.id@),
    {
        media_url_of(self.id.as_str())
    }

    /// The file name the image is stored under locally: the id's file name
    /// with its extension replaced by `mp4` (GIFs) or `jpg`.
    pub fn local_filename(&self) -> (r: String)
        requires
            file_name(self.id@) is Some,
        ensures
            r@ == local_media_name(self.id@),
    {
        let ext = media_extension_of(self.id.as_str());
        let renamed = with_extension_of(self.id.as_str(), ext);
        proof {
            lemma_file_name_with_extension(self.id@, ext@);
        }
        match file_name_of(renamed.as_str()) {
            Some(name) => name,
            None => {
                proof {
                    assert(false);
                }
                String::new()
            },
        }
    }
}

/// A text decoration on a paragraph.
#[derive(Debug, Clone, PartialEq, Eq)]
pub struct Markup {
    pub markup_type: String,
    pub start: u32,
    pub end: u32,
    pub href: Option<String>,
    pub anchor_type: Option<String>,
}

/// Payload of a post query answer.
#[derive(Debug, Clone, PartialEq, Eq)]
pub struct PostResultInner<T> {
    pub post_result: T,
}

/// Envelope of a post query answer.
#[derive(Debug, Clone, PartialEq, Eq)]
pub struct PostResult<T> {
    pub data: PostResultInner<T>,
}

} // verus!
