//! Marshalling: NUL refusal, separator normalization, buffer growth, and
//! the PTY mode encoder.

use ssh2::util::{check, grow_to_fit, path2bytes};
use ssh2::{DisconnectCode, ExtensiblePtyModeOpcode, HashType, HostKeyType, MethodType, PtyModeOpcode, PtyModes};

#[test]
fn path2bytes_passes_clean_bytes_through() {
    // the native and protocol separators coincide here, so nothing is
    // rewritten - a backslash is an ordinary filename byte
    let p = path2bytes(b"dir\\sub").unwrap();
    assert_eq!(p, b"dir\\sub".to_vec());
    let p = path2bytes(b"/already/fine").unwrap();
    assert_eq!(p, b"/already/fine".to_vec());
}

#[test]
fn path2bytes_refuses_embedded_nul() {
    let err = path2bytes(b"bad\0path").unwrap_err();
    assert_eq!(err.message(), "path provided contains a 0 byte");
}

#[test]
fn check_accepts_clean_and_refuses_nul() {
    assert_eq!(check(b"fine".to_vec()).unwrap(), b"fine".to_vec());
    assert!(check(b"un\0sound".to_vec()).is_err());
}

#[test]
fn grow_to_fit_converges_with_log_retries() {
    // too small at 1, 2, 4 and 8; fits at 16: five calls in all, which is
    // ceil(log2(16/1)) + 1
    let (capacity, calls) = grow_to_fit(1, 9);
    assert_eq!(capacity, 16);
    assert_eq!(calls, 5);
    let (capacity, calls) = grow_to_fit(1, 16);
    assert_eq!(capacity, 16);
    assert_eq!(calls, 5);
    // an ample initial buffer needs exactly one call
    let (capacity, calls) = grow_to_fit(128, 9);
    assert_eq!(capacity, 128);
    assert_eq!(calls, 1);
}

#[test]
fn pty_modes_encode_as_opcode_and_big_endian_value() {
    let mut modes = PtyModes::new();
    modes.set_u32(ExtensiblePtyModeOpcode::Mode(PtyModeOpcode::TTY_OP_ISPEED), 38400);
    modes.set_boolean(ExtensiblePtyModeOpcode::Mode(PtyModeOpcode::ECHO), true);
    modes.set_character(ExtensiblePtyModeOpcode::Mode(PtyModeOpcode::VINTR), Some(3 as char));
    modes.set_character(ExtensiblePtyModeOpcode::Mode(PtyModeOpcode::VEOF), None);
    modes.set_u32(ExtensiblePtyModeOpcode::Extended(200), 0x01020304);
    let bytes = modes.finish();
    let expected: Vec<u8> = vec![
        128, 0x00, 0x00, 0x96, 0x00, // TTY_OP_ISPEED = 38400
        53, 0, 0, 0, 1,              // ECHO = true
        1, 0, 0, 0, 3,               // VINTR = ^C
        5, 0, 0, 0, 255,             // VEOF disabled
        200, 1, 2, 3, 4,             // extended opcode
        0,                           // TTY_OP_END
    ];
    assert_eq!(bytes, expected);
}

#[test]
fn pty_opcode_values_follow_the_protocol() {
    assert_eq!(PtyModeOpcode::TTY_OP_END.as_u8(), 0);
    assert_eq!(PtyModeOpcode::VINTR.as_u8(), 1);
    assert_eq!(PtyModeOpcode::IXOFF.as_u8(), 49);
    assert_eq!(PtyModeOpcode::TTY_OP_OSPEED.as_u8(), 129);
    assert_eq!(ExtensiblePtyModeOpcode::Extended(77).as_opcode(), 77);
}

#[test]
fn enum_codes_match_the_protocol() {
    assert_eq!(DisconnectCode::ByApplication.as_code(), 11);
    assert_eq!(DisconnectCode::HostNotAllowedToConnect.as_code(), 1);
    assert_eq!(DisconnectCode::IllegalUserName.as_code(), 15);
    assert_eq!(HostKeyType::Rsa.as_code(), 1);
    assert_eq!(HostKeyType::Ed255219.as_code(), 6);
    assert_eq!(MethodType::Kex.as_code(), 0);
    assert_eq!(MethodType::LangSc.as_code(), 9);
    assert_eq!(HashType::Sha256.as_code(), 3);
}
