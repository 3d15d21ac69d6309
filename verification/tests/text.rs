use nubilus_agent::text::{same_text, starts_with, trim_end_matches};

#[test]
fn trimming_drops_every_trailing_slash() {
    assert_eq!(trim_end_matches("https://host/api///", '/'), "https://host/api");
    assert_eq!(trim_end_matches("https://host/api/", '/'), "https://host/api");
    assert_eq!(trim_end_matches("https://host/api", '/'), "https://host/api");
}

#[test]
fn trimming_edge_cases() {
    assert_eq!(trim_end_matches("", '/'), "");
    assert_eq!(trim_end_matches("////", '/'), "");
    assert_eq!(trim_end_matches("/a/b", '/'), "/a/b");
    assert_eq!(trim_end_matches("héllo/é//", '/'), "héllo/é");
}

#[test]
fn trimming_agrees_with_std() {
    for text in ["", "/", "a", "a/", "/a", "a//b//", "日本//", "x/y/z"] {
        assert_eq!(trim_end_matches(text, '/'), text.trim_end_matches('/'));
    }
}

#[test]
fn prefix_test_agrees_with_std() {
    let texts = ["", "n", "nub", "nub_", "nub_key", "Nub_key", "xnub_", "nüb_", "nub_é"];
    for text in texts {
        for prefix in texts {
            assert_eq!(starts_with(text, prefix), text.starts_with(prefix));
        }
    }
}

#[test]
fn same_text_is_equality() {
    let texts = ["", "linux", "linux ", "macos", "x86_64", "aarch64", "é", "e"];
    for left in texts {
        for right in texts {
            assert_eq!(same_text(left, right), left == right);
        }
    }
}
