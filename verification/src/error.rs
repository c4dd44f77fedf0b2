//! The library's error type and the readable messages for I/O failures.

use vstd::prelude::*;
use crate::text::concat3;

verus! {

/// Errors of the snapshot engine.
#[derive(Debug, Clone, PartialEq, Eq)]
pub enum OpenRollbackError {
    /// A database operation failed; holds the database's own message.
    Database(String),
    /// A file I/O operation failed.
    Io(String),
    /// The file watcher failed.
    Watcher(String),
    /// A snapshot or rollback operation failed.
    Snapshot(String),
}

/// The text an error displays.
pub open spec fn spec_error_message(e: OpenRollbackError) -> Seq<char> {
    match e {
        OpenRollbackError::Database(m) => "database error: "@ + m@,
        OpenRollbackError::Io(m) => "io error: "@ + m@,
        OpenRollbackError::Watcher(m) => "file watcher error: "@ + m@,
        OpenRollbackError::Snapshot(m) => "snapshot error: "@ + m@,
    }
}

impl OpenRollbackError {
    /// The text the error displays, e.g. `snapshot error: ...`.
    pub fn message(&self) -> (r: String)
        ensures
            r@ == spec_error_message(*self),
    {
        match self {
            OpenRollbackError::Database(m) => crate::text::concat2("database error: ", m.as_str()),
            OpenRollbackError::Io(m) => crate::text::concat2("io error: ", m.as_str()),
            OpenRollbackError::Watcher(m) => crate::text::concat2("file watcher error: ", m.as_str()),
            OpenRollbackError::Snapshot(m) => crate::text::concat2("snapshot error: ", m.as_str()),
        }
    }
}

/// The kinds of I/O failure that get a message of their own.
#[derive(Debug, Clone, Copy, PartialEq, Eq, Structural)]
pub enum IoErrorKind {
    PermissionDenied,
    NotFound,
    AlreadyExists,
    AddrInUse,
    AddrNotAvailable,
    Other,
}

/// The readable hint for an I/O failure of the given kind and OS code.
/// OS codes 32 and 33 are the Windows sharing and lock violations.
pub open spec fn spec_io_hint(kind: IoErrorKind, raw_os_error: Option<i32>) -> Seq<char> {
    match kind {
        IoErrorKind::PermissionDenied => "权限不足或文件正被其他程序占用，请关闭相关程序后重试"@,
        IoErrorKind::NotFound => "路径不存在"@,
        IoErrorKind::AlreadyExists => "目标已存在"@,
        IoErrorKind::AddrInUse => "资源被占用"@,
        IoErrorKind::AddrNotAvailable => "资源被占用"@,
        IoErrorKind::Other => if raw_os_error == Some(32i32) {
            "文件正被其他程序占用，请关闭后重试"@
        } else if raw_os_error == Some(33i32) {
            "文件被锁定，请关闭占用程序后重试"@
        } else {
            "磁盘读写失败"@
        },
    }
}

/// Picks the readable hint for an I/O failure.
pub fn io_error_hint(kind: IoErrorKind, raw_os_error: Option<i32>) -> (r: &'static str)
    ensures
        r@ == spec_io_hint(kind, raw_os_error),
{
    match kind {
        IoErrorKind::PermissionDenied => "权限不足或文件正被其他程序占用，请关闭相关程序后重试",
        IoErrorKind::NotFound => "路径不存在",
        IoErrorKind::AlreadyExists => "目标已存在",
        IoErrorKind::AddrInUse => "资源被占用",
        IoErrorKind::AddrNotAvailable => "资源被占用",
        IoErrorKind::Other => {
            if raw_os_error == Some(32i32) {
                "文件正被其他程序占用，请关闭后重试"
            } else if raw_os_error == Some(33i32) {
                "文件被锁定，请关闭占用程序后重试"
            } else {
                "磁盘读写失败"
            }
        },
    }
}

/// The message of an I/O failure: `{op}「{path}」: {hint} ({error text})`.
pub open spec fn spec_io_err_message(
    op: Seq<char>,
    path: Seq<char>,
    kind: IoErrorKind,
    raw_os_error: Option<i32>,
    err_text: Seq<char>,
) -> Seq<char> {
    op + "「"@ + path + "」: "@ + spec_io_hint(kind, raw_os_error) + " ("@ + err_text + ")"@
}

/// Builds the message of an I/O failure from its parts.
pub fn io_err_message(
    op: &str,
    path: &str,
    kind: IoErrorKind,
    raw_os_error: Option<i32>,
    err_text: &str,
) -> (r: String)
    ensures
        r@ == spec_io_err_message(op@, path@, kind, raw_os_error, err_text@),
{
    let mut r = concat3(op, "「", path);
    r.append("」: ");
    r.append(io_error_hint(kind, raw_os_error));
    r.append(" (");
    r.append(err_text);
    r.append(")");
    r
}

#[verifier::external_type_specification]
#[verifier::external_body]
pub struct ExIoError(std::io::Error);

/// `std::io::Error::kind`, sorted into the kinds that get a message of
/// their own. Nothing is stated: an `io::Error` is opaque here.
#[verifier::external_body]
fn io_error_kind(err: &std::io::Error) -> IoErrorKind {
    match err.kind() {
        std::io::ErrorKind::PermissionDenied => IoErrorKind::PermissionDenied,
        std::io::ErrorKind::NotFound => IoErrorKind::NotFound,
        std::io::ErrorKind::AlreadyExists => IoErrorKind::AlreadyExists,
        std::io::ErrorKind::AddrInUse => IoErrorKind::AddrInUse,
        std::io::ErrorKind::AddrNotAvailable => IoErrorKind::AddrNotAvailable,
        _ => IoErrorKind::Other,
    }
}

/// `std::io::Error::raw_os_error`. Nothing is stated: an `io::Error` is
/// opaque here.
#[verifier::external_body]
fn io_error_raw_os(err: &std::io::Error) -> Option<i32> {
    err.raw_os_error()
}

/// The text `std::io::Error` displays. Nothing is stated: an `io::Error`
/// is opaque here.
#[verifier::external_body]
fn io_error_text(err: &std::io::Error) -> String {
    format!("{}", err)
}

/// Turns an I/O failure during `op` on `path` into a readable `Io` error,
/// with a hint chosen by the failure's kind and OS code.
pub fn io_err(op: &str, path: &str, err: std::io::Error) -> (r: OpenRollbackError)
    ensures
        r matches OpenRollbackError::Io(m) && exists|k: IoErrorKind, code: Option<i32>, t: Seq<char>|
            m@ == spec_io_err_message(op@, path@, k, code, t),
{
    let kind = io_error_kind(&err);
    let code = io_error_raw_os(&err);
    let text = io_error_text(&err);
    let m = io_err_message(op, path, kind, code, text.as_str());
    OpenRollbackError::Io(m)
}

} // verus!
