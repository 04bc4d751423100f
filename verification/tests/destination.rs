use vnr::destination::{
    extraction_target, join_path, output_file_name, plan, remove_all, Destination,
};
use vnr::error::Error;

fn usage(url: &str) -> Error {
    Error::Usage { message: format!("Could not construct file name from URL: {url}") }
}

#[test]
fn file_name_is_the_last_segment() {
    assert_eq!(
        output_file_name("http://example.test/archive.tar.gz"),
        Ok("archive.tar.gz".to_string())
    );
    assert_eq!(output_file_name("http://example.test/a/b/c.tgz"), Ok("c.tgz".to_string()));
}

#[test]
fn url_without_slash_is_its_own_file_name() {
    assert_eq!(output_file_name("archive.tar.gz"), Ok("archive.tar.gz".to_string()));
}

#[test]
fn url_ending_in_slash_names_no_file() {
    assert_eq!(output_file_name("http://example.test/"), Err(usage("http://example.test/")));
    assert_eq!(output_file_name("/"), Err(usage("/")));
}

#[test]
fn empty_url_names_no_file() {
    assert_eq!(output_file_name(""), Err(usage("")));
}

#[test]
fn file_name_keeps_characters_beyond_ascii() {
    assert_eq!(output_file_name("http://example.test/ärchiv–1.tar.gz"), Ok("ärchiv–1.tar.gz".to_string()));
}

#[test]
fn plan_gives_output_path_and_target() {
    let to = plan("http://example.test/archive.tar.gz", "/tmp/out").unwrap();
    assert_eq!(
        to,
        Destination {
            file_name: "archive.tar.gz".to_string(),
            output_path: "/tmp/out/archive.tar.gz".to_string(),
            extraction_target: "/tmp/out/archive".to_string(),
        }
    );
}

#[test]
fn plan_refuses_url_ending_in_slash() {
    assert_eq!(plan("http://example.test/", "/tmp/out"), Err(usage("http://example.test/")));
}

#[test]
fn usage_error_shows_how_to_call() {
    let e = plan("http://example.test/", "/tmp/out").unwrap_err();
    assert_eq!(
        e.message(),
        "Could not construct file name from URL: http://example.test/\nUsage: vnr <url> <output directory>"
    );
}

#[test]
fn path_without_suffix_is_its_own_target() {
    assert_eq!(extraction_target("/tmp/out/archive.zip"), "/tmp/out/archive.zip");
    let to = plan("http://example.test/archive.zip", "/tmp/out").unwrap();
    assert_eq!(to.extraction_target, to.output_path);
}

#[test]
fn suffix_is_removed_wherever_it_stands() {
    assert_eq!(extraction_target("/data/a.tar.gz.d/b.tar.gz"), "/data/a.d/b");
    assert_eq!(extraction_target(".tar.gz"), "");
    assert_eq!(extraction_target("x.tar.gz.tar.gz"), "x");
}

#[test]
fn removal_does_not_look_back() {
    // What is left after one removal is not searched again.
    assert_eq!(extraction_target("a.tar.tar.gz.gz"), "a.tar.gz");
    assert_eq!(remove_all("aaa", "aa"), "a");
    assert_eq!(remove_all("abab", "ab"), "");
}

#[test]
fn removing_nothing_changes_nothing() {
    assert_eq!(remove_all("abc", ""), "abc");
    assert_eq!(remove_all("", "abc"), "");
    assert_eq!(remove_all("ab", "abc"), "ab");
}

#[test]
fn removal_agrees_with_str_replace() {
    let texts = ["", "a", ".tar.gz", "a.tar.gzb.tar.gz", "..tar.gz", ".tar.g.tar.gzz", "é.tar.gzé"];
    for text in texts {
        assert_eq!(extraction_target(text), text.replace(".tar.gz", ""));
    }
}

#[test]
fn join_puts_one_separator_between() {
    assert_eq!(join_path("/tmp/out", "archive.tar.gz"), "/tmp/out/archive.tar.gz");
    assert_eq!(join_path("/tmp/out/", "archive.tar.gz"), "/tmp/out/archive.tar.gz");
    assert_eq!(join_path("out", "a"), "out/a");
    assert_eq!(join_path("/", "a"), "/a");
}

#[test]
fn join_with_empty_parts() {
    assert_eq!(join_path("", "a"), "a");
    assert_eq!(join_path("out", ""), "out/");
    assert_eq!(join_path("", ""), "");
}

#[test]
fn join_lets_a_rooted_name_stand_alone() {
    assert_eq!(join_path("/tmp/out", "/etc/x"), "/etc/x");
}

#[test]
fn join_agrees_with_std_path() {
    let cases = [("/tmp/out", "a.tar.gz"), ("/tmp/out/", "a"), ("rel", "a"), ("", "a"), ("/", "a"), ("/x", "/y")];
    for (dir, name) in cases {
        let expected = std::path::Path::new(dir).join(name);
        assert_eq!(join_path(dir, name), expected.to_str().unwrap());
    }
}
