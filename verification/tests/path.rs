use termide::ui::path::{split_all, split_path};

fn names(segments: &[&str]) -> Vec<String> {
    segments.iter().map(|s| s.to_string()).collect()
}

#[test]
fn split_path_drops_empty_segments() {
    assert_eq!(split_path("/WorkArea/ProjectViewer"), names(&["WorkArea", "ProjectViewer"]));
    assert_eq!(split_path("WorkArea/ProjectViewer/"), names(&["WorkArea", "ProjectViewer"]));
    assert_eq!(split_path("//WorkArea///ProjectViewer//"), names(&["WorkArea", "ProjectViewer"]));
    assert_eq!(split_path("/"), Vec::<String>::new());
    assert_eq!(split_path(""), Vec::<String>::new());
    assert_eq!(split_path("///"), Vec::<String>::new());
    assert_eq!(split_path("one"), names(&["one"]));
}

#[test]
fn split_path_keeps_the_characters() {
    assert_eq!(split_path("/Work Area/ä⁄b"), names(&["Work Area", "ä⁄b"]));
    assert_eq!(split_path("a\\b/c"), names(&["a\\b", "c"]));
}

#[test]
fn split_all_keeps_empty_pieces() {
    assert_eq!(split_all("/home/u"), names(&["", "home", "u"]));
    assert_eq!(split_all("home/u/"), names(&["home", "u", ""]));
    assert_eq!(split_all("a//b"), names(&["a", "", "b"]));
    assert_eq!(split_all(""), names(&[""]));
    assert_eq!(split_all("/"), names(&["", ""]));
    assert_eq!(split_all("plain"), names(&["plain"]));
}

#[test]
fn split_all_agrees_with_std() {
    for s in ["", "/", "a", "/a", "a/", "//", "a//b/", "/x/yy/zzz", "日本/語"] {
        let expected: Vec<String> = s.split('/').map(|p| p.to_string()).collect();
        assert_eq!(split_all(s), expected);
        let filtered: Vec<String> =
            s.split('/').filter(|p| !p.is_empty()).map(|p| p.to_string()).collect();
        assert_eq!(split_path(s), filtered);
    }
}
