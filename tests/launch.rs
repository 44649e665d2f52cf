use relay_zed::launch::{build_launch_command, join_path};
use relay_zed::SERVER_PATH;

#[test]
fn verbose_command_ends_with_lsp_and_output_flag() {
    let c = build_launch_command("/usr/bin/node".to_string(), "/work/app", SERVER_PATH, "verbose");
    assert_eq!(c.command, "/usr/bin/node");
    assert_eq!(
        c.args,
        vec![
            "/work/app/node_modules/.bin/relay-compiler".to_string(),
            "lsp".to_string(),
            "--output=verbose".to_string(),
        ]
    );
}

#[test]
fn default_level_is_passed_through() {
    let c = build_launch_command("node".to_string(), "/w", "relay", "quiet-with-errors");
    assert_eq!(c.args[2], "--output=quiet-with-errors");
    assert_eq!(c.args[0], "/w/relay");
}

#[test]
fn join_inserts_one_separator() {
    assert_eq!(join_path("/a/b", "c/d"), "/a/b/c/d");
    assert_eq!(join_path("/a/b/", "c"), "/a/b/c");
    assert_eq!(join_path("", "c"), "c");
    assert_eq!(join_path("/a", ""), "/a/");
}

#[test]
fn join_keeps_absolute_path() {
    assert_eq!(join_path("/a/b", "/opt/relay"), "/opt/relay");
    let c = build_launch_command("node".to_string(), "/w", "/opt/relay", "verbose");
    assert_eq!(c.args[0], "/opt/relay");
}

#[test]
fn join_handles_non_ascii() {
    assert_eq!(join_path("/données", "é"), "/données/é");
}

#[test]
fn join_matches_std_path() {
    for (base, rel) in [("/a/b", "c"), ("/a/", "c"), ("/a", "/c"), ("/a", ""), ("rel", "x/y")] {
        let expected = std::path::Path::new(base).join(rel).to_string_lossy().to_string();
        assert_eq!(join_path(base, rel), expected);
    }
}
