use literate::walk::{visit_entry, WalkEntry};
use literate::LiterateError;

#[test]
fn unknown_failure_has_a_fixed_message() {
    assert_eq!(LiterateError::Unknown.message(), "Unknown error");
}

#[test]
fn failure_of_reading_or_writing_keeps_its_message() {
    let error = LiterateError::from(std::io::Error::new(std::io::ErrorKind::Other, "disk on fire"));
    assert!(matches!(error, LiterateError::IO(_)));
    assert_eq!(error.message(), "disk on fire");
}

#[test]
fn failure_of_enumeration_keeps_its_message() {
    let failed = walkdir::WalkDir::new("no/such/directory/to/walk")
        .into_iter()
        .next()
        .expect("the root is always reported")
        .expect_err("the root does not exist");
    let expected = failed.to_string();
    let error = LiterateError::from(failed);
    assert!(matches!(error, LiterateError::Walk(_)));
    assert_eq!(error.message(), expected);
    assert!(error.message().contains("no/such/directory/to/walk"));
}

#[test]
fn path_outside_the_root_is_a_failure_of_its_own() {
    let entry = WalkEntry {
        path: "elsewhere/foo.rs.md".to_string(),
        file_name: "foo.rs.md".to_string(),
        is_dir: false,
    };
    let error = visit_entry("docs", &entry, "out", false).expect_err("not under the root");
    assert!(matches!(error, LiterateError::Prefix(_)));
    assert_eq!(error.message(), "prefix not found");
}
