use memospot_init::homedir::{expand_home, getent, split_text, HomeError};

const PASSWD: &str = "root:x:0:0:root:/root:/bin/bash\n\
daemon:x:1:1:daemon:/usr/sbin:/usr/sbin/nologin\n\
foo:x:1000:1000:Foo Bar:/home/foo:/bin/sh\n";

/// `~` is expanded to the current user's home directory.
#[test]
fn test_expand() {
    let home = Some(String::from("/home/foo tar baz"));
    assert_eq!(
        expand_home("~/.vimrc", &home, PASSWD, false).unwrap(),
        "/home/foo tar baz/.vimrc"
    );
    assert_eq!(
        expand_home(r"~\.vimrc", &Some(String::from(r"C:\Users\foo tar baz")), PASSWD, true).unwrap(),
        r"C:\Users\foo tar baz\.vimrc"
    );
}

/// Paths without `~` are returned as they are.
#[test]
fn test_expand_nonexpansion() {
    assert_eq!(
        expand_home("/etc/some.conf", &None, PASSWD, false).unwrap(),
        "/etc/some.conf"
    );
    assert_eq!(
        expand_home(r"C:\Windows\explorer.exe", &None, PASSWD, true).unwrap(),
        r"C:\Windows\explorer.exe"
    );
}

/// `~user` is expanded to the home directory of `user`.
#[test]
fn test_root() {
    assert_eq!(getent(PASSWD, "root").unwrap(), "/root");
    assert_eq!(expand_home("~root", &None, PASSWD, false).unwrap(), "/root");
}

/// An unknown `~user` is an error.
#[test]
fn test_missing() {
    assert!(matches!(
        getent(PASSWD, "_foobar_").unwrap_err(),
        HomeError::MissingEntry(_)
    ));
}

#[test]
fn expand_other_user_keeps_rest() {
    assert_eq!(
        expand_home("~foo/notes/a.md", &None, PASSWD, false).unwrap(),
        "/home/foo/notes/a.md"
    );
    assert_eq!(
        expand_home("~foo/x", &None, PASSWD, false).unwrap(),
        format!("{}{}", getent(PASSWD, "foo").unwrap(), "/x")
    );
}

#[test]
fn expand_unknown_user_fails() {
    assert_eq!(
        expand_home("~nobody_here/x", &None, PASSWD, false),
        Err(HomeError::MissingEntry(String::from("nobody_here")))
    );
}

#[test]
fn expand_without_home_fails() {
    assert_eq!(expand_home("~/x", &None, PASSWD, false), Err(HomeError::MissingHome));
    assert_eq!(
        expand_home("~/x", &Some(String::new()), PASSWD, false),
        Err(HomeError::MissingHome)
    );
}

#[test]
fn expand_tilde_in_middle_is_plain() {
    assert_eq!(expand_home("a/~b", &None, PASSWD, false).unwrap(), "a/~b");
    assert_eq!(expand_home("", &None, PASSWD, false).unwrap(), "");
}

#[test]
fn getent_skips_short_lines() {
    assert!(getent("root:x:0\n", "root").is_err());
    assert_eq!(getent("x\nroot:a:b:c:d:/r:e", "root").unwrap(), "/r");
}

#[test]
fn split_text_keeps_empty_pieces() {
    assert_eq!(split_text("a::b:", ':'), vec!["a", "", "b", ""]);
    assert_eq!(split_text("", ':'), vec![""]);
}
