use testsmith::error::TestsmithError;
use testsmith::file_ops::FileSystem;

#[test]
fn test_create_parent_directories() {
    let fs = FileSystem::new_memory();
    // The in-memory file system needs no directory creation; the call
    // just succeeds.
    fs.create_parent_directories("/a/b/c/test.txt").unwrap();
}

#[test]
fn test_file_exists_true() {
    let mut fs = FileSystem::new_memory();
    fs.write_file_new("/test.txt", "content").unwrap();
    assert!(fs.file_exists("/test.txt"));
}

#[test]
fn test_file_exists_false() {
    let fs = FileSystem::new_memory();
    assert!(!fs.file_exists("/nonexistent.txt"));
}

#[test]
fn test_read_file() {
    let mut fs = FileSystem::new_memory();
    fs.write_file_new("/test.txt", "hello world").unwrap();
    assert_eq!(fs.read_file("/test.txt").unwrap(), "hello world");
}

#[test]
fn test_write_file_new() {
    let mut fs = FileSystem::new_memory();
    fs.write_file_new("/subdir/test.txt", "test content").unwrap();
    assert!(fs.file_exists("/subdir/test.txt"));
    assert_eq!(fs.read_file("/subdir/test.txt").unwrap(), "test content");
}

#[test]
fn test_append_to_file() {
    let mut fs = FileSystem::new_memory();
    fs.write_file_new("/test.txt", "line 1\n").unwrap();
    fs.append_to_file("/test.txt", "line 2").unwrap();

    let content = fs.read_file("/test.txt").unwrap();
    assert!(content.contains("line 1"));
    assert!(content.contains("line 2"));
}

#[test]
fn test_append_to_missing_file_fails() {
    let mut fs = FileSystem::new_memory();
    let err = fs.append_to_file("/missing.txt", "text").unwrap_err();
    assert!(matches!(err, TestsmithError::FileWriteError { .. }));
}

#[test]
fn test_read_missing_file_fails() {
    let fs = FileSystem::new_memory();
    let err = fs.read_file("/missing.txt").unwrap_err();
    match &err {
        TestsmithError::FileReadError { path, .. } => assert_eq!(path, "/missing.txt"),
        other => panic!("unexpected error: {:?}", other),
    }
    assert!(err.message().starts_with("Failed to read file /missing.txt"));
}

#[test]
fn test_write_overwrites() {
    let mut fs = FileSystem::new_memory();
    fs.write_file_new("/f.txt", "one").unwrap();
    fs.write_file_new("/f.txt", "two").unwrap();
    assert_eq!(fs.read_file("/f.txt").unwrap(), "two");
}

#[test]
fn test_dir_exists() {
    let mut fs = FileSystem::new_memory();
    assert!(!fs.dir_exists("/proj/tests"));
    fs.add_dir("/proj/tests");
    assert!(fs.dir_exists("/proj/tests"));
}
