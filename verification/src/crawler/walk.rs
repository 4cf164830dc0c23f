//! Laws over whole runs of a crawl.

use vstd::prelude::*;
use crate::crawler::crawler::{
    accepts, continue_at, crawl_start, crawl_step, save_media, ActionView, CrawlPhase, CrawlView,
    EventView,
};
use crate::crawler::media::{post_downloads, ImageDownloadView};
use crate::types::medium::post::Post;

verus! {

/// How one listed post was obtained.
pub enum PostOutcome {
    /// The store held it.
    Stored(Post),
    /// It was missing from the store, and was fetched and stored.
    Fetched(Post),
}

/// The post an outcome carries.
pub open spec fn outcome_post(o: PostOutcome) -> Post {
    match o {
        PostOutcome::Stored(p) => p,
        PostOutcome::Fetched(p) => p,
    }
}

/// The reports a caller gives while one post is handled.
pub open spec fn post_events(o: PostOutcome) -> Seq<EventView> {
    match o {
        PostOutcome::Stored(p) => seq![EventView::PostFound(p), EventView::MediaSaved],
        PostOutcome::Fetched(p) => seq![
            EventView::PostMissing,
            EventView::PostFetched(p),
            EventView::MediaSaved,
        ],
    }
}

/// The reports a caller gives while the posts of a page are handled.
pub open spec fn outcome_events(os: Seq<PostOutcome>) -> Seq<EventView>
    decreases os.len(),
{
    if os.len() == 0 {
        seq![]
    } else {
        post_events(os[0]) + outcome_events(os.drop_first())
    }
}

/// A crawl fed a sequence of reports: the final state and every action.
pub open spec fn crawl_run(s: CrawlView, es: Seq<EventView>) -> (CrawlView, Seq<ActionView>)
    decreases es.len(),
{
    if es.len() == 0 {
        (s, seq![])
    } else {
        let (s1, a) = crawl_step(s, es[0]);
        let (s2, acts) = crawl_run(s1, es.drop_first());
        (s2, seq![a] + acts)
    }
}

/// Whether a crawl accepts each report of a sequence in turn, in the phase
/// that the reports before it led to.
pub open spec fn run_accepted(s: CrawlView, es: Seq<EventView>) -> bool
    decreases es.len(),
{
    es.len() == 0 || (accepts(s.phase, es[0]) && run_accepted(
        crawl_step(s, es[0]).0,
        es.drop_first(),
    ))
}

/// What the actions of a sequence carry, as `f` picks it out of each.
pub open spec fn collect<T>(acts: Seq<ActionView>, f: spec_fn(ActionView) -> Seq<T>) -> Seq<T>
    decreases acts.len(),
{
    if acts.len() == 0 {
        seq![]
    } else {
        f(acts[0]) + collect(acts.drop_first(), f)
    }
}

/// The post an action looks up, if it is a lookup.
pub open spec fn lookup_of(a: ActionView) -> Seq<Seq<char>> {
    match a {
        ActionView::LookUpPost(id) => seq![id],
        _ => seq![],
    }
}

/// The post an action fetches, if it is a fetch.
pub open spec fn fetch_of(a: ActionView) -> Seq<Seq<char>> {
    match a {
        ActionView::FetchPost(id) => seq![id],
        _ => seq![],
    }
}

/// The post and downloads an action archives, if it archives images.
pub open spec fn save_of(a: ActionView) -> Seq<(Seq<char>, Seq<ImageDownloadView>)> {
    match a {
        ActionView::SaveMedia(id, ds) => seq![(id, ds)],
        _ => seq![],
    }
}

/// The posts that a sequence of actions looks up, in order.
pub open spec fn looked_up(acts: Seq<ActionView>) -> Seq<Seq<char>> {
    collect(acts, |a: ActionView| lookup_of(a))
}

/// The posts that a sequence of actions fetches, in order.
pub open spec fn fetched(acts: Seq<ActionView>) -> Seq<Seq<char>> {
    collect(acts, |a: ActionView| fetch_of(a))
}

/// The image archivals that a sequence of actions asks for, in order.
pub open spec fn archived(acts: Seq<ActionView>) -> Seq<(Seq<char>, Seq<ImageDownloadView>)> {
    collect(acts, |a: ActionView| save_of(a))
}

/// The ids of the listed posts that were missing from the store.
pub open spec fn missing_ids(ids: Seq<Seq<char>>, os: Seq<PostOutcome>) -> Seq<Seq<char>>
    decreases os.len(),
{
    if os.len() == 0 || ids.len() == 0 {
        seq![]
    } else {
        missing_head(ids[0], os[0]) + missing_ids(ids.drop_first(), os.drop_first())
    }
}

/// The id of a listed post if it was missing from the store.
pub open spec fn missing_head(id: Seq<char>, o: PostOutcome) -> Seq<Seq<char>> {
    match o {
        PostOutcome::Fetched(_) => seq![id],
        PostOutcome::Stored(_) => seq![],
    }
}

/// The archivals of the images of the handled posts, in order.
pub open spec fn outcome_archivals(os: Seq<PostOutcome>) -> Seq<
    (Seq<char>, Seq<ImageDownloadView>),
> {
    os.map_values(
        |o: PostOutcome| (outcome_post(o).id@, post_downloads(outcome_post(o))),
    )
}

/// The action that ends a page: fetch the next page, or finish.
pub open spec fn page_end(next_from: Option<Seq<char>>) -> ActionView {
    match next_from {
        Some(f) => ActionView::FetchPage(Some(f)),
        None => ActionView::Done,
    }
}

/// The phase after a page: waiting for the next page, or finished.
pub open spec fn page_end_phase(next_from: Option<Seq<char>>) -> CrawlPhase {
    match next_from {
        Some(_) => CrawlPhase::AwaitPage,
        None => CrawlPhase::Finished,
    }
}

proof fn lemma_run_concat(s: CrawlView, e1: Seq<EventView>, e2: Seq<EventView>)
    ensures
        crawl_run(s, e1 + e2) == (
            crawl_run(crawl_run(s, e1).0, e2).0,
            crawl_run(s, e1).1 + crawl_run(crawl_run(s, e1).0, e2).1,
        ),
    decreases e1.len(),
{
    if e1.len() == 0 {
        assert(e1 + e2 =~= e2);
        assert(crawl_run(s, e1).1 + crawl_run(crawl_run(s, e1).0, e2).1 =~= crawl_run(s, e2).1);
    } else {
        let (s1, a) = crawl_step(s, e1[0]);
        assert((e1 + e2)[0] == e1[0]);
        assert((e1 + e2).drop_first() =~= e1.drop_first() + e2);
        lemma_run_concat(s1, e1.drop_first(), e2);
        assert(seq![a] + (crawl_run(s1, e1.drop_first()).1 + crawl_run(
            crawl_run(s1, e1.drop_first()).0,
            e2,
        ).1) =~= (seq![a] + crawl_run(s1, e1.drop_first()).1) + crawl_run(
            crawl_run(s1, e1.drop_first()).0,
            e2,
        ).1);
    }
}

proof fn lemma_accepted_concat(s: CrawlView, e1: Seq<EventView>, e2: Seq<EventView>)
    requires
        run_accepted(s, e1),
        run_accepted(crawl_run(s, e1).0, e2),
    ensures
        run_accepted(s, e1 + e2),
    decreases e1.len(),
{
    if e1.len() == 0 {
        assert(e1 + e2 =~= e2);
    } else {
        let s1 = crawl_step(s, e1[0]).0;
        assert((e1 + e2)[0] == e1[0]);
        assert((e1 + e2).drop_first() =~= e1.drop_first() + e2);
        lemma_accepted_concat(s1, e1.drop_first(), e2);
    }
}

proof fn lemma_collect_concat<T>(
    a1: Seq<ActionView>,
    a2: Seq<ActionView>,
    f: spec_fn(ActionView) -> Seq<T>,
)
    ensures
        collect(a1 + a2, f) == collect(a1, f) + collect(a2, f),
    decreases a1.len(),
{
    if a1.len() == 0 {
        assert(a1 + a2 =~= a2);
        assert(collect(a1, f) + collect(a2, f) =~= collect(a2, f));
    } else {
        assert((a1 + a2)[0] == a1[0]);
        assert((a1 + a2).drop_first() =~= a1.drop_first() + a2);
        lemma_collect_concat(a1.drop_first(), a2, f);
        assert(f(a1[0]) + (collect(a1.drop_first(), f) + collect(a2, f)) =~= (f(a1[0]) + collect(
            a1.drop_first(),
            f,
        )) + collect(a2, f));
    }
}

proof fn lemma_collect_one<T>(a: ActionView, f: spec_fn(ActionView) -> Seq<T>)
    ensures
        collect(seq![a], f) == f(a),
{
    reveal_with_fuel(collect, 2);
    assert(seq![a].drop_first() =~= Seq::<ActionView>::empty());
    assert(collect(seq![a].drop_first(), f) =~= Seq::<T>::empty());
    assert(f(a) + Seq::<T>::empty() =~= f(a));
}

/// The actions while one post is handled: a fetch if it was missing, the
/// archival of its images, then the move to the next post or page.
pub open spec fn post_actions(s: CrawlView, o: PostOutcome) -> Seq<ActionView> {
    let fin = continue_at(CrawlView { phase: CrawlPhase::AwaitMedia, ..s }, s.position + 1).1;
    let p = outcome_post(o);
    match o {
        PostOutcome::Stored(_) => seq![ActionView::SaveMedia(p.id@, post_downloads(p)), fin],
        PostOutcome::Fetched(_) => seq![
            ActionView::FetchPost(s.post_ids[s.position]),
            ActionView::SaveMedia(p.id@, post_downloads(p)),
            fin,
        ],
    }
}

proof fn lemma_one_post(s: CrawlView, o: PostOutcome)
    requires
        s.phase == CrawlPhase::AwaitLookup,
        0 <= s.position < s.post_ids.len(),
    ensures
        crawl_run(s, post_events(o)).0 == continue_at(
            CrawlView { phase: CrawlPhase::AwaitMedia, ..s },
            s.position + 1,
        ).0,
        crawl_run(s, post_events(o)).1 == post_actions(s, o),
        run_accepted(s, post_events(o)),
{
    reveal_with_fuel(crawl_run, 4);
    reveal_with_fuel(run_accepted, 4);
    let m = CrawlView { phase: CrawlPhase::AwaitMedia, ..s };
    match o {
        PostOutcome::Stored(p) => {
            let es = post_events(o);
            assert(es.drop_first().drop_first() =~= seq![]);
            assert(save_media(s, p).0 == m);
            assert(crawl_run(s, es).1 =~= post_actions(s, o));
        },
        PostOutcome::Fetched(p) => {
            let es = post_events(o);
            assert(es.drop_first().drop_first().drop_first() =~= seq![]);
            let sf = CrawlView { phase: CrawlPhase::AwaitFetch, ..s };
            assert(save_media(sf, p).0 == m);
            assert(crawl_run(s, es).1 =~= post_actions(s, o));
        },
    }
}

proof fn lemma_post_actions_collect(s: CrawlView, o: PostOutcome)
    requires
        s.phase == CrawlPhase::AwaitLookup,
        0 <= s.position < s.post_ids.len(),
    ensures
        looked_up(post_actions(s, o)) == lookup_of(
            continue_at(CrawlView { phase: CrawlPhase::AwaitMedia, ..s }, s.position + 1).1,
        ),
        fetched(post_actions(s, o)) == missing_head(s.post_ids[s.position], o),
        archived(post_actions(s, o)) == seq![
            (outcome_post(o).id@, post_downloads(outcome_post(o))),
        ],
{
    let fin = continue_at(CrawlView { phase: CrawlPhase::AwaitMedia, ..s }, s.position + 1).1;
    let p = outcome_post(o);
    let sm = ActionView::SaveMedia(p.id@, post_downloads(p));
    let fl = |a: ActionView| lookup_of(a);
    let ff = |a: ActionView| fetch_of(a);
    let fs = |a: ActionView| save_of(a);
    lemma_collect_one(fin, fl);
    lemma_collect_one(fin, ff);
    lemma_collect_one(fin, fs);
    lemma_collect_one(sm, fl);
    lemma_collect_one(sm, ff);
    lemma_collect_one(sm, fs);
    assert(fetch_of(fin) =~= seq![]);
    assert(save_of(fin) =~= seq![]);
    match o {
        PostOutcome::Stored(_) => {
            assert(post_actions(s, o) =~= seq![sm] + seq![fin]);
            lemma_collect_concat(seq![sm], seq![fin], fl);
            lemma_collect_concat(seq![sm], seq![fin], ff);
            lemma_collect_concat(seq![sm], seq![fin], fs);
            assert(lookup_of(sm) + lookup_of(fin) =~= lookup_of(fin));
            assert(fetch_of(sm) + fetch_of(fin) =~= seq![]);
            assert(save_of(sm) + save_of(fin) =~= seq![(p.id@, post_downloads(p))]);
        },
        PostOutcome::Fetched(_) => {
            let fp = ActionView::FetchPost(s.post_ids[s.position]);
            lemma_collect_one(fp, fl);
            lemma_collect_one(fp, ff);
            lemma_collect_one(fp, fs);
            assert(post_actions(s, o) =~= seq![fp] + (seq![sm] + seq![fin]));
            lemma_collect_concat(seq![sm], seq![fin], fl);
            lemma_collect_concat(seq![sm], seq![fin], ff);
            lemma_collect_concat(seq![sm], seq![fin], fs);
            lemma_collect_concat(seq![fp], seq![sm] + seq![fin], fl);
            lemma_collect_concat(seq![fp], seq![sm] + seq![fin], ff);
            lemma_collect_concat(seq![fp], seq![sm] + seq![fin], fs);
            assert(lookup_of(fp) + (lookup_of(sm) + lookup_of(fin)) =~= lookup_of(fin));
            assert(fetch_of(fp) + (fetch_of(sm) + fetch_of(fin)) =~= seq![s.post_ids[s.position]]);
            assert(save_of(fp) + (save_of(sm) + save_of(fin)) =~= seq![(p.id@, post_downloads(p))]);
        },
    }
}

proof fn lemma_walk_from(s: CrawlView, os: Seq<PostOutcome>)
    requires
        s.phase == CrawlPhase::AwaitLookup,
        0 <= s.position < s.post_ids.len(),
        os.len() == s.post_ids.len() - s.position,
    ensures
        looked_up(crawl_run(s, outcome_events(os)).1) == s.post_ids.skip(s.position + 1),
        fetched(crawl_run(s, outcome_events(os)).1) == missing_ids(s.post_ids.skip(s.position), os),
        archived(crawl_run(s, outcome_events(os)).1) == outcome_archivals(os),
        crawl_run(s, outcome_events(os)).1.len() > 0,
        crawl_run(s, outcome_events(os)).1.last() == page_end(s.next_from),
        crawl_run(s, outcome_events(os)).0.phase == page_end_phase(s.next_from),
        run_accepted(s, outcome_events(os)),
    decreases os.len(),
{
    let m = CrawlView { phase: CrawlPhase::AwaitMedia, ..s };
    let fin = continue_at(m, s.position + 1);
    let fl = |a: ActionView| lookup_of(a);
    let ff = |a: ActionView| fetch_of(a);
    let fs = |a: ActionView| save_of(a);
    lemma_one_post(s, os[0]);
    lemma_post_actions_collect(s, os[0]);
    assert(outcome_events(os) == post_events(os[0]) + outcome_events(os.drop_first()));
    lemma_run_concat(s, post_events(os[0]), outcome_events(os.drop_first()));
    let first = crawl_run(s, post_events(os[0]));
    let rest = crawl_run(first.0, outcome_events(os.drop_first()));
    assert(first.0 == fin.0);
    lemma_collect_concat(first.1, rest.1, fl);
    lemma_collect_concat(first.1, rest.1, ff);
    lemma_collect_concat(first.1, rest.1, fs);
    let ids = s.post_ids.skip(s.position);
    assert(ids[0] == s.post_ids[s.position]);
    assert(ids.drop_first() =~= s.post_ids.skip(s.position + 1));
    assert(missing_ids(ids, os) == missing_head(ids[0], os[0]) + missing_ids(
        ids.drop_first(),
        os.drop_first(),
    ));
    assert(outcome_archivals(os) =~= seq![
        (outcome_post(os[0]).id@, post_downloads(outcome_post(os[0]))),
    ] + outcome_archivals(os.drop_first()));
    assert(post_actions(s, os[0]).last() == fin.1);
    if s.position + 1 < s.post_ids.len() {
        assert(fin.0.position == s.position + 1);
        lemma_walk_from(fin.0, os.drop_first());
        assert(lookup_of(fin.1) =~= seq![s.post_ids[s.position + 1]]);
        assert(seq![s.post_ids[s.position + 1]] + s.post_ids.skip(s.position + 2) =~= s.post_ids.skip(
            s.position + 1,
        ));
        assert(rest.1.last() == (first.1 + rest.1).last());
        lemma_accepted_concat(s, post_events(os[0]), outcome_events(os.drop_first()));
    } else {
        assert(os.drop_first() =~= seq![]);
        assert(outcome_events(os.drop_first()) =~= seq![]);
        assert(rest.1 =~= seq![]);
        assert(first.1 + rest.1 =~= first.1);
        assert(collect(rest.1, fl) =~= seq![]);
        assert(collect(rest.1, ff) =~= seq![]);
        assert(collect(rest.1, fs) =~= seq![]);
        assert(lookup_of(fin.1) =~= seq![]);
        assert(s.post_ids.skip(s.position + 1) =~= seq![]);
        assert(missing_ids(ids.drop_first(), os.drop_first()) =~= seq![]);
        assert(outcome_archivals(os.drop_first()) =~= seq![]);
        lemma_accepted_concat(s, post_events(os[0]), outcome_events(os.drop_first()));
        match s.next_from {
            Some(f) => {},
            None => {},
        }
    }
}

/// Law: once a page is fetched and each of its posts handled (found in the
/// store, or fetched and stored, then its images archived), the crawl has
/// looked up exactly the posts of the page, once each and in their order;
/// it has fetched exactly those that were missing, in order; it has archived
/// the images of each post, in order; and it then asks for the next page, or
/// finishes when there is none.
pub proof fn lemma_page_walk(
    s: CrawlView,
    ids: Seq<Seq<char>>,
    next_from: Option<Seq<char>>,
    os: Seq<PostOutcome>,
)
    requires
        s.phase == CrawlPhase::AwaitPage,
        os.len() == ids.len(),
    ensures
        ({
            let run = crawl_run(s, seq![EventView::PageFetched(ids, next_from)] + outcome_events(os));
            &&& looked_up(run.1) == ids
            &&& fetched(run.1) == missing_ids(ids, os)
            &&& archived(run.1) == outcome_archivals(os)
            &&& run.1.last() == page_end(next_from)
            &&& run.0.phase == page_end_phase(next_from)
            &&& run_accepted(s, seq![EventView::PageFetched(ids, next_from)] + outcome_events(os))
        }),
{
    let e0 = seq![EventView::PageFetched(ids, next_from)];
    let fl = |a: ActionView| lookup_of(a);
    let ff = |a: ActionView| fetch_of(a);
    let fs = |a: ActionView| save_of(a);
    lemma_run_concat(s, e0, outcome_events(os));
    reveal_with_fuel(crawl_run, 2);
    assert(e0.drop_first() =~= seq![]);
    let loaded = CrawlView { post_ids: ids, position: 0, next_from, ..s };
    let (s1, a1) = continue_at(loaded, 0);
    assert(crawl_run(s, e0) == (s1, seq![a1]));
    reveal_with_fuel(run_accepted, 2);
    assert(run_accepted(s, e0));
    let rest = crawl_run(s1, outcome_events(os));
    lemma_collect_concat(seq![a1], rest.1, fl);
    lemma_collect_concat(seq![a1], rest.1, ff);
    lemma_collect_concat(seq![a1], rest.1, fs);
    lemma_collect_one(a1, fl);
    lemma_collect_one(a1, ff);
    lemma_collect_one(a1, fs);
    assert(fetch_of(a1) =~= seq![]);
    assert(save_of(a1) =~= seq![]);
    if ids.len() > 0 {
        lemma_walk_from(s1, os);
        assert(ids.skip(0) =~= ids);
        assert(lookup_of(a1) =~= seq![ids[0]]);
        assert(seq![ids[0]] + ids.skip(1) =~= ids);
        assert(rest.1.last() == (seq![a1] + rest.1).last());
    } else {
        assert(os =~= seq![]);
        assert(run_accepted(s1, outcome_events(os)));
        assert(outcome_events(os) =~= seq![]);
        assert(rest.1 =~= seq![]);
        assert(seq![a1] + rest.1 =~= seq![a1]);
        assert(collect(rest.1, fl) =~= seq![]);
        assert(collect(rest.1, ff) =~= seq![]);
        assert(collect(rest.1, fs) =~= seq![]);
        assert(lookup_of(a1) =~= seq![]);
        assert(missing_ids(ids, os) =~= seq![]);
        assert(outcome_archivals(os) =~= seq![]);
        match next_from {
            Some(f) => {},
            None => {},
        }
    }
    lemma_accepted_concat(s, e0, outcome_events(os));
}

/// Law: a crawl started for a creator takes, in turn, the report that the
/// creator is stored, the first page, and the outcome of each post of that
/// page: it accepts each of these reports when it comes, asks for the first
/// page right after the creator is stored, looks up exactly the posts of the
/// first page, once each and in their order, fetches those missing from the
/// store, archives the images of each, and then asks for the next page or
/// finishes.
pub proof fn lemma_first_page_walk(
    username: Seq<char>,
    ids: Seq<Seq<char>>,
    next_from: Option<Seq<char>>,
    os: Seq<PostOutcome>,
)
    requires
        os.len() == ids.len(),
    ensures
        ({
            let es = seq![EventView::CreatorStored, EventView::PageFetched(ids, next_from)]
                + outcome_events(os);
            let run = crawl_run(crawl_start(username), es);
            &&& run_accepted(crawl_start(username), es)
            &&& run.1[0] == ActionView::FetchPage(None)
            &&& looked_up(run.1) == ids
            &&& fetched(run.1) == missing_ids(ids, os)
            &&& archived(run.1) == outcome_archivals(os)
            &&& run.1.last() == page_end(next_from)
            &&& run.0.phase == page_end_phase(next_from)
        }),
{
    let s0 = crawl_start(username);
    let c = seq![EventView::CreatorStored];
    let page = seq![EventView::PageFetched(ids, next_from)] + outcome_events(os);
    let es = seq![EventView::CreatorStored, EventView::PageFetched(ids, next_from)]
        + outcome_events(os);
    assert(es =~= c + page);
    let fl = |a: ActionView| lookup_of(a);
    let ff = |a: ActionView| fetch_of(a);
    let fs = |a: ActionView| save_of(a);
    reveal_with_fuel(crawl_run, 2);
    reveal_with_fuel(run_accepted, 2);
    assert(c.drop_first() =~= seq![]);
    let (s1, a0) = crawl_step(s0, EventView::CreatorStored);
    assert(crawl_run(s0, c) == (s1, seq![a0]));
    assert(run_accepted(s0, c));
    lemma_page_walk(s1, ids, next_from, os);
    lemma_run_concat(s0, c, page);
    lemma_accepted_concat(s0, c, page);
    let rest = crawl_run(s1, page);
    lemma_collect_concat(seq![a0], rest.1, fl);
    lemma_collect_concat(seq![a0], rest.1, ff);
    lemma_collect_concat(seq![a0], rest.1, fs);
    lemma_collect_one(a0, fl);
    lemma_collect_one(a0, ff);
    lemma_collect_one(a0, fs);
    assert(lookup_of(a0) + looked_up(rest.1) =~= looked_up(rest.1));
    assert(fetch_of(a0) + fetched(rest.1) =~= fetched(rest.1));
    assert(save_of(a0) + archived(rest.1) =~= archived(rest.1));
    assert(rest.1.len() > 0);
    assert((seq![a0] + rest.1).last() == rest.1.last());
}

} // verus!
