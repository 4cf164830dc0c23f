//! Which images of a post are archived, and where each one is kept.

use vstd::prelude::*;
use crate::paths::{
    file_name, lemma_file_name_join, lemma_file_name_with_extension, path_join, path_join_of,
    with_extension, with_extension_of,
};
use crate::types::medium::post::{
    local_media_name, media_extension, media_extension_of, media_url, media_url_of, Paragraph,
    Post,
};

verus! {

/// Where one image is downloaded from and stored.
#[derive(Debug, Clone, PartialEq, Eq)]
pub struct ImageDownload {
    /// Id of the image.
    pub image_id: String,
    /// Directory of the post's media.
    pub folder: String,
    /// File the image is written to.
    pub path: String,
    /// URL the image is fetched from.
    pub url: String,
}

/// Plain-value view of an [`ImageDownload`].
pub struct ImageDownloadView {
    pub image_id: Seq<char>,
    pub folder: Seq<char>,
    pub path: Seq<char>,
    pub url: Seq<char>,
}

impl View for ImageDownload {
    type V = ImageDownloadView;

    open spec fn view(&self) -> ImageDownloadView {
        ImageDownloadView { image_id: self.image_id@, folder: self.folder@, path: self.path@, url: self.url@ }
    }
}

/// Directory holding the media of a post: `media/<post id>`.
pub open spec fn media_folder(post_id: Seq<char>) -> Seq<char> {
    path_join("media"@, post_id)
}

/// File an image of a post is stored in: `media/<post id>/<image id>`, with
/// the extension `mp4` for GIFs and `jpg` otherwise.
pub open spec fn media_path(post_id: Seq<char>, image_id: Seq<char>) -> Seq<char> {
    with_extension(path_join(media_folder(post_id), image_id), media_extension(image_id))
}

/// The download of image `image_id` of post `post_id`.
pub open spec fn media_download(post_id: Seq<char>, image_id: Seq<char>) -> ImageDownloadView {
    ImageDownloadView {
        image_id,
        folder: media_folder(post_id),
        path: media_path(post_id, image_id),
        url: media_url(image_id),
    }
}

/// Ids of the images shown by paragraphs, in order: each paragraph with
/// image metadata whose id is not empty contributes that id.
pub open spec fn paragraph_media(ps: Seq<Paragraph>) -> Seq<Seq<char>>
    decreases ps.len(),
{
    if ps.len() == 0 {
        seq![]
    } else {
        paragraph_media(ps.drop_last()) + paragraph_image(ps.last())
    }
}

/// Id of the image a paragraph shows, if it shows one with a non-empty id.
pub open spec fn paragraph_image(p: Paragraph) -> Seq<Seq<char>> {
    match p.metadata {
        Some(m) => if m.id@.len() > 0 {
            seq![m.id@]
        } else {
            seq![]
        },
        None => seq![],
    }
}

/// Ids of all images of a post: the preview image first, then the images
/// of its paragraphs.
pub open spec fn post_media(post: Post) -> Seq<Seq<char>> {
    preview_media(post) + paragraph_media(post.content.body_model.paragraphs@)
}

/// Id of the preview image of a post, if it has one.
pub open spec fn preview_media(post: Post) -> Seq<Seq<char>> {
    match post.preview_image {
        Some(img) => seq![img.id@],
        None => seq![],
    }
}

/// The downloads that archive the images of `post`.
pub open spec fn post_downloads(post: Post) -> Seq<ImageDownloadView> {
    post_media(post).map_values(|id: Seq<char>| media_download(post.id@, id))
}

/// What archiving one image takes, given what is on disk.
#[derive(Debug, Clone, Copy, PartialEq, Eq, Structural)]
pub enum ImageSave {
    /// The image file exists already: nothing is downloaded.
    AlreadySaved,
    /// Download the image, creating the post's folder first when asked.
    Download { create_folder: bool },
}

/// An image is downloaded only when its file does not exist; the post's
/// folder is created first when it is not a directory.
pub fn image_save_step(path_exists: bool, folder_is_dir: bool) -> (r: ImageSave)
    ensures
        path_exists ==> r == ImageSave::AlreadySaved,
        !path_exists ==> r == (ImageSave::Download { create_folder: !folder_is_dir }),
{
    if path_exists {
        ImageSave::AlreadySaved
    } else {
        ImageSave::Download { create_folder: !folder_is_dir }
    }
}

/// Where image `image_id` of post `post_id` comes from and goes to.
pub fn image_download(post_id: &str, image_id: &str) -> (r: ImageDownload)
    ensures
        r@ == media_download(post_id@, image_id@),
{
    proof {
        reveal_strlit("media");
    }
    let folder = path_join_of("media", post_id);
    let joined = path_join_of(folder.as_str(), image_id);
    let path = with_extension_of(joined.as_str(), media_extension_of(image_id));
    let url = media_url_of(image_id);
    ImageDownload { image_id: String::from_str(image_id), folder, path, url }
}

/// Law: an image is stored under its local file name, wherever the post's
/// folder lies.
pub proof fn lemma_media_path_file_name(post_id: Seq<char>, image_id: Seq<char>)
    requires
        file_name(image_id) is Some,
    ensures
        file_name(media_path(post_id, image_id)) == Some(local_media_name(image_id)),
{
    let joined = path_join(media_folder(post_id), image_id);
    lemma_file_name_join(media_folder(post_id), image_id);
    reveal_strlit("mp4");
    reveal_strlit("jpg");
    lemma_file_name_with_extension(joined, media_extension(image_id));
}

/// Law: an image is downloaded from the URL its metadata names as the best
/// one ([`crate::types::medium::post::Metadata::best_url`]).
pub proof fn lemma_download_from_best_url(post_id: Seq<char>, image_id: Seq<char>)
    ensures
        media_download(post_id, image_id).url == media_url(image_id),
{
}

/// The downloads that archive the images of `post`, in order.
pub fn media_plan(post: &Post) -> (r: Vec<ImageDownload>)
    ensures
        r@.map_values(|d: ImageDownload| d@) == post_downloads(*post),
{
    let mut r: Vec<ImageDownload> = Vec::new();
    let ghost ids = post_media(*post);
    match &post.preview_image {
        Some(img) => {
            r.push(image_download(post.id.as_str(), img.id.as_str()));
        },
        None => {},
    }
    let ghost head = r@.map_values(|d: ImageDownload| d@);
    let ghost first: Seq<Seq<char>> = preview_media(*post);
    assert(head =~= first.map_values(|id: Seq<char>| media_download(post.id@, id)));
    let ps = &post.content.body_model.paragraphs;
    let mut k: usize = 0;
    while k < ps.len()
        invariant
            k <= ps@.len(),
            ps@ == post.content.body_model.paragraphs@,
            r@.map_values(|d: ImageDownload| d@) == (first + paragraph_media(ps@.take(k as int))).map_values(
                |id: Seq<char>| media_download(post.id@, id),
            ),
        decreases ps@.len() - k,
    {
        let ghost before = r@.map_values(|d: ImageDownload| d@);
        assert(ps@.take(k + 1).drop_last() =~= ps@.take(k as int));
        assert(ps@.take(k + 1).last() == ps@[k as int]);
        match &ps[k].metadata {
            Some(m) => {
                if m.id.as_str().unicode_len() > 0 {
                    let ghost pk = paragraph_media(ps@.take(k as int));
                    assert(paragraph_media(ps@.take(k + 1)) == pk + paragraph_image(ps@[k as int]));
                    assert(paragraph_image(ps@[k as int]) == seq![m.id@]);
                    let ghost all = first + pk;
                    assert(first + paragraph_media(ps@.take(k + 1)) =~= all.push(m.id@));
                    r.push(image_download(post.id.as_str(), m.id.as_str()));
                    assert(all.push(m.id@).map_values(|id: Seq<char>| media_download(post.id@, id))
                        =~= all.map_values(|id: Seq<char>| media_download(post.id@, id)).push(
                        media_download(post.id@, m.id@),
                    ));
                    assert(r@.map_values(|d: ImageDownload| d@) =~= (first + paragraph_media(
                        ps@.take(k + 1),
                    )).map_values(|id: Seq<char>| media_download(post.id@, id)));
                } else {
                    assert((first + paragraph_media(ps@.take(k + 1))) =~= (first + paragraph_media(
                        ps@.take(k as int),
                    )));
                }
            },
            None => {
                assert((first + paragraph_media(ps@.take(k + 1))) =~= (first + paragraph_media(
                    ps@.take(k as int),
                )));
            },
        }
        k = k + 1;
    }
    assert(ps@.take(ps@.len() as int) =~= ps@);
    r
}

} // verus!
