use hbs_render::path::{
    dir_prefix_of, extension_of, file_name_of, file_stem_of, index_after_last, sibling_of,
    with_extension_of,
};
use std::path::Path;

#[test]
fn index_after_last_finds_the_last_occurrence() {
    assert_eq!(index_after_last("a/b/c", '/'), 4);
    assert_eq!(index_after_last("abc", '/'), 0);
    assert_eq!(index_after_last("", '/'), 0);
    assert_eq!(index_after_last("abc/", '/'), 4);
    assert_eq!(index_after_last("é/ü", '/'), 2);
}

#[test]
fn file_name_is_what_follows_the_last_separator() {
    assert_eq!(file_name_of("/work/template.md.hbs"), "template.md.hbs");
    assert_eq!(file_name_of("template.md.hbs"), "template.md.hbs");
    assert_eq!(file_name_of("dir/"), "");
    assert_eq!(dir_prefix_of("/work/template.md.hbs"), "/work/");
    assert_eq!(dir_prefix_of("template.md.hbs"), "");
    assert_eq!(dir_prefix_of("/x"), "/");
}

#[test]
fn extension_follows_the_last_dot() {
    assert_eq!(extension_of("dir/x.y.hbs"), Some(String::from("hbs")));
    assert_eq!(extension_of("noext"), None);
    assert_eq!(extension_of(".hbs"), None);
    assert_eq!(extension_of("dir.d/file"), None);
    assert_eq!(extension_of("a."), Some(String::new()));
    assert_eq!(extension_of(".a.b"), Some(String::from("b")));
}

#[test]
fn stem_drops_the_last_extension_only() {
    assert_eq!(file_stem_of("dir/template.md.hbs"), "template.md");
    assert_eq!(file_stem_of("input.hbs"), "input");
    assert_eq!(file_stem_of(".hidden"), ".hidden");
    assert_eq!(file_stem_of("plain"), "plain");
    assert_eq!(file_stem_of("a.b/c"), "c");
    assert_eq!(file_stem_of(""), "");
}

#[test]
fn with_extension_replaces_the_last_extension() {
    assert_eq!(with_extension_of("dir/x.y.hbs", "toml"), "dir/x.y.toml");
    assert_eq!(with_extension_of("dir/x", "toml"), "dir/x.toml");
    assert_eq!(with_extension_of("x.hbs", "toml"), "x.toml");
    assert_eq!(with_extension_of("dir/", "toml"), "dir/");
    assert_eq!(with_extension_of("", "toml"), "");
}

#[test]
fn sibling_stands_in_the_same_directory() {
    assert_eq!(sibling_of("dir/x.hbs", "template.toml"), "dir/template.toml");
    assert_eq!(sibling_of("x.hbs", "n"), "n");
    assert_eq!(sibling_of("/x.hbs", "n"), "/n");
    assert_eq!(sibling_of("/a/b/x.hbs", ""), "/a/b/");
    assert_eq!(sibling_of("/a/b/x.hbs", "/etc/n"), "/etc/n");
}

#[test]
fn agrees_with_std_on_file_paths() {
    let paths = [
        "/work/template.md.hbs",
        "/work/input.hbs",
        "/x.y.hbs",
        "relative/dir/name.tar.gz",
        "name",
        "/a/.hidden",
        "/a/.hidden.hbs",
        "/a.b/c",
    ];
    for p in paths {
        let std_path = Path::new(p);
        assert_eq!(file_name_of(p), std_path.file_name().unwrap().to_str().unwrap());
        assert_eq!(file_stem_of(p), std_path.file_stem().unwrap().to_str().unwrap());
        assert_eq!(
            extension_of(p),
            std_path.extension().map(|e| e.to_str().unwrap().to_string())
        );
        assert_eq!(
            with_extension_of(p, "toml"),
            std_path.with_extension("toml").to_str().unwrap()
        );
        assert_eq!(
            sibling_of(p, "template.toml"),
            std_path.parent().unwrap().join("template.toml").to_str().unwrap()
        );
    }
}
