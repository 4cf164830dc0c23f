use m_rs_lib::types::medium::post::Metadata;

fn metadata(id: &str) -> Metadata {
    Metadata { id: id.to_string(), original_height: Some(10), original_width: None, alt: None }
}

#[test]
fn gif_is_video() {
    assert!(metadata("1*abc.gif").is_video());
    assert!(!metadata("1*abc.png").is_video());
}

#[test]
fn best_url_by_kind() {
    assert_eq!(metadata("1*abc.gif").best_url(), "https://miro.medium.com/v2/format:mp4/1*abc.gif");
    assert_eq!(metadata("1*abc.png").best_url(), "https://miro.medium.com/v2/format:jpeg/1*abc.png");
}

#[test]
fn local_filename_by_kind() {
    assert_eq!(metadata("1*abc.gif").local_filename(), "1*abc.mp4");
    assert_eq!(metadata("1*abc.png").local_filename(), "1*abc.jpg");
    assert_eq!(metadata("plain").local_filename(), "plain.jpg");
    assert_eq!(metadata("dir/x.jpeg").local_filename(), "x.jpg");
}
