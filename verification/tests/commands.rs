use worker::commands::{checkout_args, clone_args, deepen_args, raw_file_url};

#[test]
fn address_on_the_mirror() {
    assert_eq!(
        raw_file_url("cdn.rawgit.com", "acme", "widgets", "abc123", "rabbitci.json"),
        "https://cdn.rawgit.com/acme/widgets/abc123/rabbitci.json"
    );
}

#[test]
fn address_keeps_directories_of_the_file() {
    assert_eq!(
        raw_file_url("cdn.example", "o", "r", "v1.0", "ci/build.json"),
        "https://cdn.example/o/r/v1.0/ci/build.json"
    );
}

#[test]
fn address_of_empty_parts() {
    assert_eq!(raw_file_url("", "", "", "", ""), "https://////");
}

#[test]
fn clone_is_shallow() {
    assert_eq!(
        clone_args("https://github.com/acme/widgets.git", "/tmp/temp_git_clone_dir.x"),
        vec!["clone", "https://github.com/acme/widgets.git", "/tmp/temp_git_clone_dir.x", "--depth=30"]
    );
}

#[test]
fn checkout_names_the_commit() {
    assert_eq!(checkout_args("abc123"), vec!["checkout", "abc123"]);
}

#[test]
fn deepening_fetches_the_whole_history() {
    assert_eq!(deepen_args(), vec!["fetch", "--unshallow"]);
}
