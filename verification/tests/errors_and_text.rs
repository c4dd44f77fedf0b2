use openrollback::error::{io_err, io_err_message, io_error_hint, IoErrorKind, OpenRollbackError};
use openrollback::text::{i64_text, join_strings, truncate, u64_text, usize_text};
use openrollback::hash::{hex_lower, sha256_hex};
use openrollback::paths::{normalize_fs_path, resolve_normalized, strip_extended_prefix};
use openrollback::action::FileAction;
use std::io;

#[test]
fn io_err_maps_permission_denied_to_chinese_hint() {
    let err = io_err(
        "恢复文件",
        "test.txt",
        io::Error::new(io::ErrorKind::PermissionDenied, "access denied"),
    );
    let msg = err.message();
    assert!(msg.contains("权限不足") || msg.contains("占用"), "got: {msg}");
}

#[test]
fn io_err_maps_windows_sharing_violation() {
    let err = io_err("恢复文件", "test.txt", io::Error::from_raw_os_error(32));
    let msg = err.message();
    assert!(msg.contains("占用"), "got: {msg}");
}

#[test]
fn io_err_message_layout() {
    let m = io_err_message("删除", "a.txt", IoErrorKind::NotFound, None, "gone");
    assert_eq!(m, "删除「a.txt」: 路径不存在 (gone)");
    let e = io_err("读取", "b.txt", io::Error::new(io::ErrorKind::NotFound, "nope"));
    assert_eq!(e, OpenRollbackError::Io("读取「b.txt」: 路径不存在 (nope)".to_string()));
}

#[test]
fn io_error_hints_by_kind_and_code() {
    assert_eq!(io_error_hint(IoErrorKind::AlreadyExists, None), "目标已存在");
    assert_eq!(io_error_hint(IoErrorKind::AddrInUse, None), "资源被占用");
    assert_eq!(io_error_hint(IoErrorKind::AddrNotAvailable, Some(32)), "资源被占用");
    assert_eq!(io_error_hint(IoErrorKind::Other, Some(32)), "文件正被其他程序占用，请关闭后重试");
    assert_eq!(io_error_hint(IoErrorKind::Other, Some(33)), "文件被锁定，请关闭占用程序后重试");
    assert_eq!(io_error_hint(IoErrorKind::Other, Some(5)), "磁盘读写失败");
    assert_eq!(io_error_hint(IoErrorKind::Other, None), "磁盘读写失败");
}

#[test]
fn error_messages_name_their_kind() {
    assert_eq!(OpenRollbackError::Database("locked".into()).message(), "database error: locked");
    assert_eq!(OpenRollbackError::Io("x".into()).message(), "io error: x");
    assert_eq!(OpenRollbackError::Watcher("w".into()).message(), "file watcher error: w");
    assert_eq!(OpenRollbackError::Snapshot("s".into()).message(), "snapshot error: s");
}

#[test]
fn decimal_text() {
    assert_eq!(u64_text(0), "0");
    assert_eq!(u64_text(1234567890), "1234567890");
    assert_eq!(u64_text(u64::MAX), u64::MAX.to_string());
    assert_eq!(i64_text(-42), "-42");
    assert_eq!(i64_text(i64::MIN), i64::MIN.to_string());
    assert_eq!(i64_text(7), "7");
    assert_eq!(usize_text(10000), "10000");
}

#[test]
fn join_and_truncate() {
    let parts = vec!["a".to_string(), "bb".to_string(), "c".to_string()];
    assert_eq!(join_strings(&parts, "；"), "a；bb；c");
    assert_eq!(join_strings(&Vec::new(), "；"), "");
    assert_eq!(truncate("短消息", 80), "短消息");
    assert_eq!(truncate("abcdef", 3), "abc…");
    assert_eq!(truncate("中文路径测试", 2), "中文…");
    assert_eq!(truncate("abc", 3), "abc");
}

#[test]
fn sha256_hex_known_digests() {
    assert_eq!(
        sha256_hex(b""),
        "e3b0c44298fc1c149afbf4c8996fb92427ae41e4649b934ca495991b7852b855"
    );
    assert_eq!(
        sha256_hex(b"abc"),
        "ba7816bf8f01cfea414140de5dae2223b00361a396177a9cb410ff61f20015ad"
    );
    assert_eq!(sha256_hex(b"hello").len(), 64);
}

#[test]
fn hex_is_two_lower_digits_per_byte() {
    assert_eq!(hex_lower(&[0x00, 0x0f, 0xa0, 0xff]), "000fa0ff");
}

#[test]
fn strip_prefix_once() {
    assert_eq!(strip_extended_prefix(r"\\?\C:\Users\a.txt"), r"C:\Users\a.txt");
    assert_eq!(strip_extended_prefix(r"C:\Users\a.txt"), r"C:\Users\a.txt");
    assert_eq!(strip_extended_prefix(r"\\?\UNC\srv\share\f.txt"), r"\\srv\share\f.txt");
    assert_eq!(strip_extended_prefix(r"\\?\\\?\C:\x"), r"\\?\C:\x");
    assert_eq!(strip_extended_prefix(r"\\?\Volume{1}\x"), r"Volume{1}\x");
    assert_eq!(strip_extended_prefix(r"\\?"), r"\\?");
}

#[test]
fn chinese_space_and_emoji_paths_keep_their_text() {
    let p = "/openrollback-missing-dir/我的测试项目 🚀/测试文档.txt";
    assert_eq!(normalize_fs_path(p), p);
    assert_eq!(strip_extended_prefix(r"\\?\C:\我的测试项目 🚀\测试文档.txt"), r"C:\我的测试项目 🚀\测试文档.txt");
}

#[test]
fn normalize_missing_path_becomes_absolute() {
    let p = "/definitely/not/here/openrollback-missing.txt";
    assert_eq!(normalize_fs_path(p), p);
    let rel = normalize_fs_path("openrollback-missing-dir/x.txt");
    assert!(rel.starts_with('/'), "got {rel}");
    assert!(rel.ends_with("/openrollback-missing-dir/x.txt"), "got {rel}");
}

#[test]
fn resolve_normalized_prefers_canonical_form() {
    assert_eq!(resolve_normalized("a", true, Some(r"\\?\C:\a".to_string()), None), r"C:\a");
    assert_eq!(resolve_normalized("a", true, None, Some("/w/a".to_string())), "/w/a");
    assert_eq!(resolve_normalized("a", true, None, None), "a");
    assert_eq!(resolve_normalized("a", false, Some("/x/a".to_string()), Some("/w/a".to_string())), "/w/a");
    assert_eq!(resolve_normalized("a", false, None, None), "a");
}

#[test]
fn action_names_round_trip() {
    for a in [FileAction::Create, FileAction::Modify, FileAction::Delete] {
        assert_eq!(FileAction::parse(a.as_str()), Some(a));
    }
    assert_eq!(FileAction::Create.as_str(), "create");
    assert_eq!(FileAction::Modify.as_str(), "modify");
    assert_eq!(FileAction::Delete.as_str(), "delete");
    assert_eq!(FileAction::parse("Create"), None);
    assert_eq!(FileAction::parse(""), None);
}
