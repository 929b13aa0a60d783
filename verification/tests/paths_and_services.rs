use complete_layer::path_util::ends_with_slash;
use complete_layer::path_util::get_parent;
use complete_layer::path_util::is_root;
use complete_layer::path_util::str_eq;
use complete_layer::path_util::str_starts_with;
use complete_layer::services::DbfsDeleter;
use complete_layer::services::SftpDeleter;
use complete_layer::services::SftpOutcome;
use complete_layer::services::SftpRemoval;
use complete_layer::types::Error;
use complete_layer::types::ErrorKind;

#[test]
fn parent_of_nested_file_is_its_directory() {
    assert_eq!(get_parent("a/b"), "a/");
    assert_eq!(get_parent("a/b/c"), "a/b/");
}

#[test]
fn parent_of_bare_name_is_empty() {
    assert_eq!(get_parent("x"), "");
}

#[test]
fn parent_of_directory_path_is_itself() {
    assert_eq!(get_parent("a/b/"), "a/b/");
}

#[test]
fn path_predicates() {
    assert!(ends_with_slash("a/"));
    assert!(!ends_with_slash("a"));
    assert!(!ends_with_slash(""));
    assert!(is_root("/"));
    assert!(!is_root("a/"));
    assert!(!is_root(""));
    assert!(str_starts_with("dir/apple", "dir/ap"));
    assert!(!str_starts_with("dir/banana", "dir/ap"));
    assert!(!str_starts_with("di", "dir"));
    assert!(str_eq("same", "same"));
    assert!(!str_eq("same", "sane"));
    assert!(!str_eq("same", "sam"));
}

#[test]
fn dbfs_delete_accepts_ok_status() {
    let d = DbfsDeleter::new();
    let ok = http::StatusCode::OK;
    assert!(d.delete_once(String::from("a/b"), ok).is_ok());
}

#[test]
fn dbfs_delete_rejects_other_statuses() {
    let d = DbfsDeleter::new();
    let nf = http::StatusCode::NOT_FOUND;
    let e = d.delete_once(String::from("a/b"), nf).unwrap_err();
    assert_eq!(e.kind, ErrorKind::Unexpected);
}

#[test]
fn sftp_removal_kind_follows_trailing_slash() {
    let d = SftpDeleter::new();
    assert_eq!(d.removal_kind("a/b/"), SftpRemoval::RemoveDir);
    assert_eq!(d.removal_kind("a/b"), SftpRemoval::RemoveFile);
}

#[test]
fn sftp_delete_swallows_not_found() {
    let d = SftpDeleter::new();
    assert!(d.delete_once(String::from("a"), SftpOutcome::Removed).is_ok());
    assert!(d.delete_once(String::from("a"), SftpOutcome::NotFound).is_ok());
    let inner = Error::new(ErrorKind::Unexpected, "connection lost");
    let e = d
        .delete_once(String::from("a"), SftpOutcome::Failed(inner))
        .unwrap_err();
    assert_eq!(e.message, "connection lost");
}
