//! Repository validation: an input is accepted exactly when it names an
//! existing local path or parses as a well-formed URL.

#[test]
fn nonexistent_path_is_rejected() {
    let err = dns_test::Repository(String::from("/path/that/does/not/exist")).unwrap_err();
    assert_eq!(err.input(), "/path/that/does/not/exist");
}

#[test]
fn plain_text_is_rejected() {
    let err = dns_test::Repository(String::from("not a url")).unwrap_err();
    assert_eq!(err.input(), "not a url");
}

#[test]
fn existing_directory_is_accepted() {
    let repo = dns_test::Repository(String::from("/tmp")).unwrap();
    assert_eq!(repo.as_str(), "/tmp");
}

#[test]
fn well_formed_url_is_accepted() {
    let repo = dns_test::Repository(String::from("https://example.com/repo.git")).unwrap();
    assert_eq!(repo.as_str(), "https://example.com/repo.git");
}

#[test]
fn decision_accepts_a_reported_local_path() {
    let repo = dns_test::Repository::accept(String::from("not a url"), true).unwrap();
    assert_eq!(repo.as_str(), "not a url");
}

#[test]
fn decision_rejects_without_path_or_url() {
    let err = dns_test::Repository::accept(String::from("not a url"), false).unwrap_err();
    assert_eq!(err.input(), "not a url");
}

#[test]
fn decision_accepts_a_url_without_a_path() {
    let repo =
        dns_test::Repository::accept(String::from("https://example.com/repo.git"), false).unwrap();
    assert_eq!(repo.as_str(), "https://example.com/repo.git");
}
