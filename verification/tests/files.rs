use video_converter::delete_file;

#[test]
fn deleted_file_is_reported_as_done() {
    assert_eq!(delete_file(Ok(())), Ok(()));
}

#[test]
fn failed_deletion_is_worded() {
    assert_eq!(
        delete_file(Err("No such file or directory (os error 2)".to_string())),
        Err("Failed to delete file: No such file or directory (os error 2)".to_string())
    );
    assert_eq!(delete_file(Err(String::new())), Err("Failed to delete file: ".to_string()));
}
