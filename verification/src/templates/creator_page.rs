//! The data shown on a creator's page.

use vstd::prelude::*;
use crate::types::medium::creator::Creator;
use crate::types::medium::creator_page::{PagingInfo, PostPreview};

verus! {

/// A creator with the previews of their stored posts, and the page links.
#[derive(Debug, Clone, PartialEq, Eq)]
pub struct CreatorPageTemplate {
    pub creator: Creator,
    pub post_previews: Vec<PostPreview>,
    pub paging_info: PagingInfo,
}

impl CreatorPageTemplate {
    /// The page of a creator showing all the given previews on one page:
    /// there is no previous and no next page.
    pub fn new(creator: Creator, post_previews: Vec<PostPreview>) -> (r: Self)
        ensures
            r.creator == creator,
            r.post_previews == post_previews,
            r.paging_info.previous is None,
            r.paging_info.next is None,
    {
        CreatorPageTemplate {
            creator,
            post_previews,
            paging_info: PagingInfo { previous: None, next: None },
        }
    }
}

} // verus!
