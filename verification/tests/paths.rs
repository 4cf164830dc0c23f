use std::path::Path;
use m_rs_lib::paths::{ends_with_gif_of, file_name_of, path_join_of, with_extension_of};

#[test]
fn join_adds_separator() {
    assert_eq!(path_join_of("media", "abc"), "media/abc");
    assert_eq!(path_join_of("media/", "abc"), "media/abc");
    assert_eq!(path_join_of("", "abc"), "abc");
    assert_eq!(path_join_of("./cache", "post.json"), "./cache/post.json");
}

#[test]
fn join_absolute_replaces() {
    assert_eq!(path_join_of("media", "/etc/x"), "/etc/x");
}

#[test]
fn file_name_cases() {
    assert_eq!(file_name_of("a/b/c.gif"), Some("c.gif".to_string()));
    assert_eq!(file_name_of("a/b/"), Some("b".to_string()));
    assert_eq!(file_name_of("a/b/."), Some("b".to_string()));
    assert_eq!(file_name_of("a/.."), None);
    assert_eq!(file_name_of("/"), None);
    assert_eq!(file_name_of(""), None);
    assert_eq!(file_name_of("."), None);
    assert_eq!(file_name_of("1*xyz.png"), Some("1*xyz.png".to_string()));
}

#[test]
fn with_extension_cases() {
    assert_eq!(with_extension_of("a/b.gif", "mp4"), "a/b.mp4");
    assert_eq!(with_extension_of("a/b", "jpg"), "a/b.jpg");
    assert_eq!(with_extension_of("a/.hidden", "jpg"), "a/.hidden.jpg");
    assert_eq!(with_extension_of("a/b.tar.gz", "x"), "a/b.tar.x");
    assert_eq!(with_extension_of("a/b/", "jpg"), "a/b.jpg");
    assert_eq!(with_extension_of("a/..", "jpg"), "a/..");
    assert_eq!(with_extension_of("a/b.png", ""), "a/b");
}

#[test]
fn gif_suffix() {
    assert!(ends_with_gif_of("0*abc.gif"));
    assert!(!ends_with_gif_of("0*abc.gifs"));
    assert!(!ends_with_gif_of("gif"));
    assert!(ends_with_gif_of(".gif"));
}

#[test]
fn paths_agree_with_std() {
    for (base, sub) in [("media", "x/y.gif"), ("a/", "b"), ("", "c"), ("m", "/abs")] {
        let std_join = Path::new(base).join(sub).to_string_lossy().to_string();
        assert_eq!(path_join_of(base, sub), std_join);
    }
    for p in ["a/b.gif", "a/b/", "x.y.z", ".hidden", "a/./b", "a/..", "", "/"] {
        let std_name = Path::new(p).file_name().map(|n| n.to_string_lossy().to_string());
        assert_eq!(file_name_of(p), std_name);
        let std_ext = Path::new(p).with_extension("mp4").to_string_lossy().to_string();
        assert_eq!(with_extension_of(p, "mp4"), std_ext);
    }
}
