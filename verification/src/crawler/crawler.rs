//! Scheduling of a crawl of one creator: fetch and store the creator, then
//! walk the pages of their posts; each listed post is taken from the store or
//! fetched and stored, and its images are archived. The crawl decides; the
//! caller performs each action and reports what came of it.

use vstd::prelude::*;
use crate::crawler::media::{media_plan, post_downloads, ImageDownload, ImageDownloadView};
use crate::types::medium::post::Post;

verus! {

/// Where a crawl stands: which report it waits for.
#[derive(Debug, Clone, Copy, PartialEq, Eq, Structural)]
pub enum CrawlPhase {
    /// The creator is being fetched and stored.
    AwaitCreator,
    /// A page of post previews is being fetched.
    AwaitPage,
    /// The current post is being looked up in the store.
    AwaitLookup,
    /// The current post is being fetched and stored.
    AwaitFetch,
    /// The images of the current post are being archived.
    AwaitMedia,
    /// Every page has been walked.
    Finished,
}

/// What the caller reports after performing an action.
pub enum CrawlEvent {
    /// The creator was fetched and stored.
    CreatorStored,
    /// A page was fetched: the ids of its posts, in order, and the cursor of
    /// the next page, if there is one.
    PageFetched { post_ids: Vec<String>, next_from: Option<String> },
    /// The store holds the post.
    PostFound(Post),
    /// The store does not hold the post.
    PostMissing,
    /// The post was fetched and stored.
    PostFetched(Post),
    /// The images of the post were archived.
    MediaSaved,
}

/// What the crawl asks the caller to do next.
pub enum CrawlAction {
    /// Fetch the creator and store them.
    FetchCreator,
    /// Fetch the page of posts that starts at `from` (the first page for `None`).
    FetchPage { from: Option<String> },
    /// Look the post up in the store.
    LookUpPost { post_id: String },
    /// Fetch the post and store it.
    FetchPost { post_id: String },
    /// Archive the images of a post.
    SaveMedia { post_id: String, downloads: Vec<ImageDownload> },
    /// Nothing is left to do.
    Done,
}

/// A crawl in progress.
pub struct Crawl {
    username: String,
    phase: CrawlPhase,
    post_ids: Vec<String>,
    position: usize,
    next_from: Option<String>,
}

pub open spec fn strings_view(v: Seq<String>) -> Seq<Seq<char>> {
    v.map_values(|s: String| s@)
}

pub open spec fn option_view(o: Option<String>) -> Option<Seq<char>> {
    match o {
        Some(s) => Some(s@),
        None => None,
    }
}

/// Plain-value view of a [`Crawl`].
pub struct CrawlView {
    pub username: Seq<char>,
    pub phase: CrawlPhase,
    pub post_ids: Seq<Seq<char>>,
    pub position: int,
    pub next_from: Option<Seq<char>>,
}

/// Plain-value view of a [`CrawlEvent`].
pub enum EventView {
    CreatorStored,
    PageFetched(Seq<Seq<char>>, Option<Seq<char>>),
    PostFound(Post),
    PostMissing,
    PostFetched(Post),
    MediaSaved,
}

/// Plain-value view of a [`CrawlAction`].
pub enum ActionView {
    FetchCreator,
    FetchPage(Option<Seq<char>>),
    LookUpPost(Seq<char>),
    FetchPost(Seq<char>),
    SaveMedia(Seq<char>, Seq<ImageDownloadView>),
    Done,
}

impl View for Crawl {
    type V = CrawlView;

    closed spec fn view(&self) -> CrawlView {
        CrawlView {
            username: self.username@,
            phase: self.phase,
            post_ids: strings_view(self.post_ids@),
            position: self.position as int,
            next_from: option_view(self.next_from),
        }
    }
}

impl View for CrawlEvent {
    type V = EventView;

    open spec fn view(&self) -> EventView {
        match self {
            CrawlEvent::CreatorStored => EventView::CreatorStored,
            CrawlEvent::PageFetched { post_ids, next_from } => EventView::PageFetched(
                strings_view(post_ids@),
                option_view(*next_from),
            ),
            CrawlEvent::PostFound(p) => EventView::PostFound(*p),
            CrawlEvent::PostMissing => EventView::PostMissing,
            CrawlEvent::PostFetched(p) => EventView::PostFetched(*p),
            CrawlEvent::MediaSaved => EventView::MediaSaved,
        }
    }
}

impl View for CrawlAction {
    type V = ActionView;

    open spec fn view(&self) -> ActionView {
        match self {
            CrawlAction::FetchCreator => ActionView::FetchCreator,
            CrawlAction::FetchPage { from } => ActionView::FetchPage(option_view(*from)),
            CrawlAction::LookUpPost { post_id } => ActionView::LookUpPost(post_id@),
            CrawlAction::FetchPost { post_id } => ActionView::FetchPost(post_id@),
            CrawlAction::SaveMedia { post_id, downloads } => ActionView::SaveMedia(
                post_id@,
                downloads@.map_values(|d: ImageDownload| d@),
            ),
            CrawlAction::Done => ActionView::Done,
        }
    }
}

/// A crawl is consistent when, while it works on a post, that post is one
/// of the current page.
pub open spec fn crawl_wf(s: CrawlView) -> bool {
    &&& 0 <= s.position
    &&& (s.phase == CrawlPhase::AwaitLookup || s.phase == CrawlPhase::AwaitFetch || s.phase
        == CrawlPhase::AwaitMedia) ==> s.position < s.post_ids.len()
}

/// Which report each phase waits for.
pub open spec fn accepts(phase: CrawlPhase, e: EventView) -> bool {
    match e {
        EventView::CreatorStored => phase == CrawlPhase::AwaitCreator,
        EventView::PageFetched(..) => phase == CrawlPhase::AwaitPage,
        EventView::PostFound(_) => phase == CrawlPhase::AwaitLookup,
        EventView::PostMissing => phase == CrawlPhase::AwaitLookup,
        EventView::PostFetched(_) => phase == CrawlPhase::AwaitFetch,
        EventView::MediaSaved => phase == CrawlPhase::AwaitMedia,
    }
}

/// The first crawl of `username`: fetch the creator.
pub open spec fn crawl_start(username: Seq<char>) -> CrawlView {
    CrawlView {
        username,
        phase: CrawlPhase::AwaitCreator,
        post_ids: seq![],
        position: 0,
        next_from: None,
    }
}

/// Work on post `i` of the current page if there is one; otherwise fetch
/// the next page, or finish when there is none.
pub open spec fn continue_at(s: CrawlView, i: int) -> (CrawlView, ActionView) {
    if i < s.post_ids.len() {
        (
            CrawlView { phase: CrawlPhase::AwaitLookup, position: i, ..s },
            ActionView::LookUpPost(s.post_ids[i]),
        )
    } else {
        match s.next_from {
            Some(f) => (
                CrawlView { phase: CrawlPhase::AwaitPage, ..s },
                ActionView::FetchPage(Some(f)),
            ),
            None => (CrawlView { phase: CrawlPhase::Finished, ..s }, ActionView::Done),
        }
    }
}

/// Archive the images of `post`, the current post.
pub open spec fn save_media(s: CrawlView, post: Post) -> (CrawlView, ActionView) {
    (
        CrawlView { phase: CrawlPhase::AwaitMedia, ..s },
        ActionView::SaveMedia(post.id@, post_downloads(post)),
    )
}

/// One step of a crawl: the state after a report and the next action.
pub open spec fn crawl_step(s: CrawlView, e: EventView) -> (CrawlView, ActionView) {
    match e {
        EventView::CreatorStored => (
            CrawlView { phase: CrawlPhase::AwaitPage, ..s },
            ActionView::FetchPage(None),
        ),
        EventView::PageFetched(ids, next) => continue_at(
            CrawlView { post_ids: ids, position: 0, next_from: next, ..s },
            0,
        ),
        EventView::PostFound(post) => save_media(s, post),
        EventView::PostMissing => (
            CrawlView { phase: CrawlPhase::AwaitFetch, ..s },
            ActionView::FetchPost(s.post_ids[s.position]),
        ),
        EventView::PostFetched(post) => save_media(s, post),
        EventView::MediaSaved => continue_at(s, s.position + 1),
    }
}

/// Law: every step keeps a consistent crawl consistent, and the crawl stays
/// with the creator it started with.
pub proof fn lemma_step_keeps_crawl(s: CrawlView, e: EventView)
    requires
        crawl_wf(s),
        accepts(s.phase, e),
    ensures
        crawl_wf(crawl_step(s, e).0),
        crawl_step(s, e).0.username == s.username,
{
}

/// Law: a step answers [`ActionView::Done`] exactly when it finishes the
/// crawl.
pub proof fn lemma_done_iff_finished(s: CrawlView, e: EventView)
    requires
        crawl_wf(s),
        accepts(s.phase, e),
    ensures
        (crawl_step(s, e).1 == ActionView::Done) <==> (crawl_step(s, e).0.phase
            == CrawlPhase::Finished),
{
}

/// Whether a report is a reply to an action: what the caller reports after
/// performing it. Nothing replies to [`ActionView::Done`].
pub open spec fn answers(a: ActionView, e: EventView) -> bool {
    match a {
        ActionView::FetchCreator => e is CreatorStored,
        ActionView::FetchPage(_) => e is PageFetched,
        ActionView::LookUpPost(_) => e is PostFound || e is PostMissing,
        ActionView::FetchPost(_) => e is PostFetched,
        ActionView::SaveMedia(..) => e is MediaSaved,
        ActionView::Done => false,
    }
}

/// Law: a new crawl waits for the reply to its first action, the fetch of
/// the creator.
pub proof fn lemma_start_expects_reply(username: Seq<char>, reply: EventView)
    requires
        answers(ActionView::FetchCreator, reply),
    ensures
        accepts(crawl_start(username).phase, reply),
{
}

/// Law: after each step the crawl waits for a reply to the action it has
/// just asked for: once the creator is stored it waits for the first page,
/// once it asked for a missing post it waits for that post to be fetched,
/// and so on.
pub proof fn lemma_step_expects_reply(s: CrawlView, e: EventView, reply: EventView)
    requires
        accepts(s.phase, e),
        answers(crawl_step(s, e).1, reply),
    ensures
        accepts(crawl_step(s, e).0.phase, reply),
{
}

impl Crawl {
    #[verifier::type_invariant]
    spec fn inv(self) -> bool {
        crawl_wf(self@)
    }

    /// Starts a crawl of `username`; the first action fetches the creator.
    pub fn start(username: String) -> (r: (Crawl, CrawlAction))
        ensures
            r.0@ == crawl_start(username@),
            r.1@ == ActionView::FetchCreator,
    {
        let c = Crawl {
            username,
            phase: CrawlPhase::AwaitCreator,
            post_ids: Vec::new(),
            position: 0,
            next_from: None,
        };
        assert(c@.post_ids =~= seq![]);
        (c, CrawlAction::FetchCreator)
    }

    /// The creator being crawled.
    pub fn username(&self) -> (r: &str)
        ensures
            r@ == self@.username,
    {
        self.username.as_str()
    }

    /// Which report the crawl waits for.
    pub fn phase(&self) -> (r: CrawlPhase)
        ensures
            r == self@.phase,
    {
        self.phase
    }

    /// Whether the crawl waits for this kind of report.
    pub fn expects(&self, event: &CrawlEvent) -> (r: bool)
        ensures
            r == accepts(self@.phase, event@),
    {
        match event {
            CrawlEvent::CreatorStored => self.phase == CrawlPhase::AwaitCreator,
            CrawlEvent::PageFetched { .. } => self.phase == CrawlPhase::AwaitPage,
            CrawlEvent::PostFound(_) => self.phase == CrawlPhase::AwaitLookup,
            CrawlEvent::PostMissing => self.phase == CrawlPhase::AwaitLookup,
            CrawlEvent::PostFetched(_) => self.phase == CrawlPhase::AwaitFetch,
            CrawlEvent::MediaSaved => self.phase == CrawlPhase::AwaitMedia,
        }
    }

    fn continue_from(self, i: usize) -> (r: (Crawl, CrawlAction))
        requires
            i <= self@.post_ids.len(),
        ensures
            (r.0@, r.1@) == continue_at(self@, i as int),
    {
        proof {
            use_type_invariant(&self);
        }
        if i < self.post_ids.len() {
            let id = self.post_ids[i].clone();
            let c = Crawl { phase: CrawlPhase::AwaitLookup, position: i, ..self };
            (c, CrawlAction::LookUpPost { post_id: id })
        } else {
            match &self.next_from {
                Some(f) => {
                    let from = f.clone();
                    let c = Crawl { phase: CrawlPhase::AwaitPage, ..self };
                    (c, CrawlAction::FetchPage { from: Some(from) })
                },
                None => {
                    let c = Crawl { phase: CrawlPhase::Finished, ..self };
                    (c, CrawlAction::Done)
                },
            }
        }
    }

    fn save_media_of(self, post: Post) -> (r: (Crawl, CrawlAction))
        requires
            self@.phase == CrawlPhase::AwaitLookup || self@.phase == CrawlPhase::AwaitFetch,
        ensures
            (r.0@, r.1@) == save_media(self@, post),
    {
        proof {
            use_type_invariant(&self);
        }
        let downloads = media_plan(&post);
        let c = Crawl { phase: CrawlPhase::AwaitMedia, ..self };
        (c, CrawlAction::SaveMedia { post_id: post.id, downloads })
    }

    /// Takes the report on the last action and returns the crawl with the
    /// next action. Laws of the crawl, all stated by [`crawl_step`]: a page
    /// is walked from its first post; a post missing from the store is
    /// fetched; every post, found or fetched, has its images archived; after
    /// that the next post of the page is looked up, or, after the last one,
    /// the next page is fetched, and the crawl finishes when there is none.
    pub fn step(self, event: CrawlEvent) -> (r: (Crawl, CrawlAction))
        requires
            accepts(self@.phase, event@),
        ensures
            (r.0@, r.1@) == crawl_step(self@, event@),
    {
        proof {
            use_type_invariant(&self);
        }
        match event {
            CrawlEvent::CreatorStored => {
                let c = Crawl { phase: CrawlPhase::AwaitPage, ..self };
                (c, CrawlAction::FetchPage { from: None })
            },
            CrawlEvent::PageFetched { post_ids, next_from } => {
                let c = Crawl {
                    phase: CrawlPhase::AwaitPage,
                    post_ids,
                    position: 0,
                    next_from,
                    ..self
                };
                c.continue_from(0)
            },
            CrawlEvent::PostFound(post) => self.save_media_of(post),
            CrawlEvent::PostMissing => {
                let id = self.post_ids[self.position].clone();
                let c = Crawl { phase: CrawlPhase::AwaitFetch, ..self };
                (c, CrawlAction::FetchPost { post_id: id })
            },
            CrawlEvent::PostFetched(post) => self.save_media_of(post),
            CrawlEvent::MediaSaved => {
                assert(self@.post_ids.len() == self.post_ids@.len());
                assert(self.phase == CrawlPhase::AwaitMedia);
                assert(self.position < self.post_ids.len());
                let next = self.position + 1;
                self.continue_from(next)
            },
        }
    }
}

} // verus!
