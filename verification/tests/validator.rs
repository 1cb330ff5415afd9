use rustclr::error::ClrError;
use rustclr::pe::{get_nt_header, is_dotnet, is_exe, validate_file};

/// A minimal well-formed 64-bit executable image carrying a non-empty
/// hosted-code metadata directory entry.
fn hosted_exe_image() -> Vec<u8> {
    let mut b = vec![0u8; 400];
    // legacy header: magic "MZ" and the modern header's offset at byte 60
    b[0] = 0x4D;
    b[1] = 0x5A;
    b[60] = 64;
    // modern header at 64: signature "PE\0\0"
    b[64] = 0x50;
    b[65] = 0x45;
    // characteristics at 64 + 22: executable, not a library
    b[86] = 0x02;
    b[87] = 0x01;
    // data-directory entry 14 at 64 + 248: address and size non-zero
    b[312] = 0x10;
    b[316] = 0x48;
    b
}

#[test]
fn accepts_hosted_executable() {
    let b = hosted_exe_image();
    assert!(is_exe(&b));
    assert!(is_dotnet(&b));
    assert!(matches!(validate_file(&b), Ok(())));
}

#[test]
fn locates_modern_header() {
    let b = hosted_exe_image();
    assert_eq!(get_nt_header(&b), Some(64));
    assert_eq!(get_nt_header(&[]), None);
}

#[test]
fn rejects_short_buffer() {
    let b = vec![0u8; 16];
    assert_eq!(validate_file(&b), Err(ClrError::InvalidExecutable));
}

#[test]
fn rejects_wrong_legacy_magic() {
    let mut b = hosted_exe_image();
    b[0] = 0x00;
    assert_eq!(validate_file(&b), Err(ClrError::InvalidExecutable));
}

#[test]
fn rejects_wrong_modern_signature() {
    let mut b = hosted_exe_image();
    b[64] = 0x00;
    assert_eq!(validate_file(&b), Err(ClrError::InvalidExecutable));
}

#[test]
fn rejects_truncated_modern_header() {
    let mut b = hosted_exe_image();
    b.truncate(328);
    assert_eq!(validate_file(&b), Err(ClrError::InvalidExecutable));
}

#[test]
fn rejects_library_image() {
    let mut b = hosted_exe_image();
    b[87] |= 0x20; // library bit, high byte of 0x2000
    assert_eq!(validate_file(&b), Err(ClrError::InvalidExecutable));
}

#[test]
fn rejects_non_executable_image() {
    let mut b = hosted_exe_image();
    b[86] &= !0x02;
    assert_eq!(validate_file(&b), Err(ClrError::InvalidExecutable));
}

#[test]
fn rejects_executable_without_hosted_metadata() {
    let mut b = hosted_exe_image();
    b[312] = 0;
    assert_eq!(validate_file(&b), Err(ClrError::NotDotNet));
    let mut c = hosted_exe_image();
    c[316] = 0;
    assert_eq!(validate_file(&c), Err(ClrError::NotDotNet));
}
