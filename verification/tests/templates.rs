use m_rs_lib::templates::creator_page::CreatorPageTemplate;
use m_rs_lib::types::medium::creator::{Creator, SocialStats};
use m_rs_lib::types::medium::creator_page::timestamp_seconds;

#[test]
fn creator_page_has_no_paging() {
    let c = Creator {
        id: "c".to_string(),
        name: "n".to_string(),
        image_id: "i".to_string(),
        social_stats: SocialStats { follower_count: 0 },
        username: "u".to_string(),
        bio: "b".to_string(),
    };
    let t = CreatorPageTemplate::new(c.clone(), vec![]);
    assert_eq!(t.creator, c);
    assert!(t.post_previews.is_empty());
    assert!(t.paging_info.previous.is_none());
    assert!(t.paging_info.next.is_none());
}

#[test]
fn millis_to_seconds() {
    assert_eq!(timestamp_seconds(1_700_000_123_999), 1_700_000_123);
    assert_eq!(timestamp_seconds(999), 0);
    assert_eq!(timestamp_seconds(u64::MAX), 18_446_744_073_709_551);
}
