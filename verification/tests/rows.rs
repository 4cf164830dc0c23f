use m_rs_lib::persistence::rows::{
    checked_post_from_row, checked_preview_from_row, creator_from_row, creator_row, post_from_row,
    post_row, prefixed_column, preview_from_row, preview_image_from_columns,
};
use m_rs_lib::types::medium::creator::{Creator, SocialStats};
use m_rs_lib::types::medium::creator_page::{ExtendedPreviewContent, PreviewImage};
use m_rs_lib::types::medium::post::{BodyModel, Content, Post};

fn creator() -> Creator {
    Creator {
        id: "c1".to_string(),
        name: "Ann".to_string(),
        image_id: "img".to_string(),
        social_stats: SocialStats { follower_count: 42 },
        username: "ann".to_string(),
        bio: "hi".to_string(),
    }
}

fn post(preview: Option<PreviewImage>) -> Post {
    Post {
        id: "p1".to_string(),
        creator: creator(),
        paywall: true,
        medium_url: "https://medium.com/@ann/p1".to_string(),
        created_at: 10,
        first_published_at: 11,
        latest_published_at: 12,
        updated_at: 13,
        clap_count: 14,
        preview_image: preview,
        reading_time_bits: 0x4040_0000,
        unique_slug: "title-0123456789ab".to_string(),
        preview: ExtendedPreviewContent { subtitle: "sub".to_string() },
        title: "Title".to_string(),
        license: "cc".to_string(),
        content: Content { body_model: BodyModel { paragraphs: vec![] } },
    }
}

#[test]
fn creator_round_trip() {
    let c = creator();
    let row = creator_row(&c);
    assert_eq!(row.follower_count, 42);
    assert_eq!(creator_from_row(row), c);
}

#[test]
fn post_round_trip_with_and_without_image() {
    for img in [None, Some(PreviewImage { id: "i".to_string(), alt: Some("alt".to_string()) }), Some(PreviewImage { id: "i".to_string(), alt: None })] {
        let p = post(img);
        let row = post_row(&p);
        assert_eq!(row.creator_id, "c1");
        let back = post_from_row(row, p.creator.clone(), p.content.clone());
        assert_eq!(back, p);
    }
}

#[test]
fn preview_from_stored_post() {
    let p = post(Some(PreviewImage { id: "i".to_string(), alt: None }));
    let pv = preview_from_row(post_row(&p));
    assert_eq!(pv.id, "p1");
    assert_eq!(pv.extended_preview_content.subtitle, "sub");
    assert_eq!(pv.preview_image, p.preview_image);
    assert_eq!(pv.reading_time_bits, 0x4040_0000);
}

#[test]
fn image_columns() {
    assert_eq!(preview_image_from_columns(None, Some("alt".to_string())), None);
    assert_eq!(
        preview_image_from_columns(Some("i".to_string()), None),
        Some(PreviewImage { id: "i".to_string(), alt: None })
    );
}

#[test]
fn column_prefix() {
    assert_eq!(prefixed_column("c_", "id"), "c_id");
    assert_eq!(prefixed_column("", "name"), "name");
}

#[test]
fn stored_url_must_be_a_uri() {
    let p = post(None);
    let back = checked_post_from_row(post_row(&p), p.creator.clone(), p.content.clone());
    assert_eq!(back, Some(p.clone()));
    assert!(checked_preview_from_row(post_row(&p)).is_some());
    let mut bad = post_row(&p);
    bad.medium_url = "not a uri".to_string();
    assert_eq!(checked_post_from_row(bad.clone(), p.creator.clone(), p.content.clone()), None);
    assert_eq!(checked_preview_from_row(bad), None);
}
