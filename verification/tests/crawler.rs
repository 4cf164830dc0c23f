use m_rs_lib::crawler::crawler::{Crawl, CrawlAction, CrawlEvent, CrawlPhase};
use m_rs_lib::crawler::media::{image_download, image_save_step, media_plan, ImageSave};
use m_rs_lib::types::medium::creator::{Creator, SocialStats};
use m_rs_lib::types::medium::creator_page::{ExtendedPreviewContent, PreviewImage};
use m_rs_lib::types::medium::post::{BodyModel, Content, Metadata, Paragraph, Post};

fn paragraph(image: Option<&str>) -> Paragraph {
    Paragraph {
        p_type: "IMG".to_string(),
        text: String::new(),
        metadata: image.map(|id| Metadata {
            id: id.to_string(),
            original_height: None,
            original_width: None,
            alt: None,
        }),
        markups: None,
    }
}

fn post(id: &str, preview: Option<&str>, images: Vec<Option<&str>>) -> Post {
    Post {
        id: id.to_string(),
        creator: Creator {
            id: "c1".to_string(),
            name: "Name".to_string(),
            image_id: "img".to_string(),
            social_stats: SocialStats { follower_count: 3 },
            username: "user".to_string(),
            bio: "bio".to_string(),
        },
        paywall: false,
        medium_url: "https://medium.com/p/x".to_string(),
        created_at: 1,
        first_published_at: 2,
        latest_published_at: 3,
        updated_at: 4,
        clap_count: 5,
        preview_image: preview.map(|p| PreviewImage { id: p.to_string(), alt: None }),
        reading_time_bits: 0,
        unique_slug: "slug".to_string(),
        preview: ExtendedPreviewContent { subtitle: "sub".to_string() },
        title: "Title".to_string(),
        license: "all".to_string(),
        content: Content { body_model: BodyModel { paragraphs: images.into_iter().map(paragraph).collect() } },
    }
}

#[test]
fn download_of_gif_and_jpeg() {
    let d = image_download("p1", "1*a.gif");
    assert_eq!(d.folder, "media/p1");
    assert_eq!(d.path, "media/p1/1*a.mp4");
    assert_eq!(d.url, "https://miro.medium.com/v2/format:mp4/1*a.gif");
    let d = image_download("p1", "1*b.png");
    assert_eq!(d.path, "media/p1/1*b.jpg");
    assert_eq!(d.url, "https://miro.medium.com/v2/format:jpeg/1*b.png");
}

#[test]
fn download_path_ends_in_local_filename() {
    let m = Metadata { id: "0*q.gif".to_string(), original_height: None, original_width: None, alt: None };
    let d = image_download("post", &m.id);
    assert!(d.path.ends_with(&m.local_filename()));
    assert_eq!(d.url, m.best_url());
}

#[test]
fn media_plan_order_and_skips() {
    let p = post("p1", Some("pre.png"), vec![None, Some("a.gif"), Some(""), Some("b.jpg")]);
    let plan = media_plan(&p);
    let paths: Vec<String> = plan.iter().map(|d| d.path.clone()).collect();
    assert_eq!(paths, vec!["media/p1/pre.jpg", "media/p1/a.mp4", "media/p1/b.jpg"]);
}

#[test]
fn media_plan_without_images() {
    let p = post("p2", None, vec![None]);
    assert!(media_plan(&p).is_empty());
}

fn ids(v: &[&str]) -> Vec<String> {
    v.iter().map(|s| s.to_string()).collect()
}

#[test]
fn crawl_walks_pages_in_order() {
    let (c, a) = Crawl::start("user".to_string());
    assert!(matches!(a, CrawlAction::FetchCreator));
    assert_eq!(c.username(), "user");
    let (c, a) = c.step(CrawlEvent::CreatorStored);
    assert!(matches!(a, CrawlAction::FetchPage { from: None }));
    let (c, a) = c.step(CrawlEvent::PageFetched { post_ids: ids(&["p1", "p2"]), next_from: Some("cur".to_string()) });
    match a {
        CrawlAction::LookUpPost { post_id } => assert_eq!(post_id, "p1"),
        _ => panic!("expected a lookup"),
    }
    let (c, a) = c.step(CrawlEvent::PostFound(post("p1", Some("i.png"), vec![])));
    match a {
        CrawlAction::SaveMedia { post_id, downloads } => {
            assert_eq!(post_id, "p1");
            assert_eq!(downloads.len(), 1);
        }
        _ => panic!("expected media"),
    }
    let (c, a) = c.step(CrawlEvent::MediaSaved);
    match a {
        CrawlAction::LookUpPost { post_id } => assert_eq!(post_id, "p2"),
        _ => panic!("expected a lookup"),
    }
    let (c, a) = c.step(CrawlEvent::PostMissing);
    match a {
        CrawlAction::FetchPost { post_id } => assert_eq!(post_id, "p2"),
        _ => panic!("expected a fetch"),
    }
    assert_eq!(c.phase(), CrawlPhase::AwaitFetch);
    let (c, a) = c.step(CrawlEvent::PostFetched(post("p2", None, vec![])));
    assert!(matches!(a, CrawlAction::SaveMedia { .. }));
    let (c, a) = c.step(CrawlEvent::MediaSaved);
    match a {
        CrawlAction::FetchPage { from } => assert_eq!(from, Some("cur".to_string())),
        _ => panic!("expected the next page"),
    }
    let (c, a) = c.step(CrawlEvent::PageFetched { post_ids: vec![], next_from: None });
    assert!(matches!(a, CrawlAction::Done));
    assert_eq!(c.phase(), CrawlPhase::Finished);
}

#[test]
fn crawl_expects_only_its_reports() {
    let (c, _) = Crawl::start("user".to_string());
    assert!(c.expects(&CrawlEvent::CreatorStored));
    assert!(!c.expects(&CrawlEvent::MediaSaved));
    assert!(!c.expects(&CrawlEvent::PostMissing));
}

#[test]
fn image_save_decisions() {
    assert_eq!(image_save_step(true, true), ImageSave::AlreadySaved);
    assert_eq!(image_save_step(true, false), ImageSave::AlreadySaved);
    assert_eq!(image_save_step(false, true), ImageSave::Download { create_folder: false });
    assert_eq!(image_save_step(false, false), ImageSave::Download { create_folder: true });
}
