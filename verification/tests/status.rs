use rocm_smi_lib::bindings::{ResultStr, ResultU16, ResultU32, ResultU64, ResultU64Dual};
use rocm_smi_lib::decode::text_len;
use rocm_smi_lib::device::check_index;
use rocm_smi_lib::error::{check_res, RocmErr};

fn known() -> Vec<RocmErr> {
    vec![
        RocmErr::RsmiStatusSuccess,
        RocmErr::RsmiStatusInvalidArgs,
        RocmErr::RsmiStatusNotSupported,
        RocmErr::RsmiStatusFileError,
        RocmErr::RsmiStatusPermission,
        RocmErr::RsmiStatusOutOfResources,
        RocmErr::RsmiStatusInternalException,
        RocmErr::RsmiStatusInputOutOfBounds,
        RocmErr::RsmiStatusInitError,
        RocmErr::RsmiStatusNotYetImplemented,
        RocmErr::RsmiStatusNotFound,
        RocmErr::RsmiStatusInsufficientSize,
        RocmErr::RsmiStatusInterrupt,
        RocmErr::RsmiStatusUnexpectedSize,
        RocmErr::RsmiStatusNoData,
        RocmErr::RsmiStatusUnexpectedData,
        RocmErr::RsmiStatusBusy,
        RocmErr::RsmiStatusRefcountOverflow,
    ]
}

#[test]
fn every_known_status_has_its_kind() {
    let kinds = known();
    assert_eq!(kinds.len(), 18);
    for (code, kind) in kinds.iter().enumerate() {
        assert_eq!(RocmErr::from_u16(code as u16), *kind);
    }
}

#[test]
fn named_kinds_sit_at_their_codes() {
    assert_eq!(RocmErr::from_u16(0), RocmErr::RsmiStatusSuccess);
    assert_eq!(RocmErr::from_u16(1), RocmErr::RsmiStatusInvalidArgs);
    assert_eq!(RocmErr::from_u16(2), RocmErr::RsmiStatusNotSupported);
    assert_eq!(RocmErr::from_u16(3), RocmErr::RsmiStatusFileError);
    assert_eq!(RocmErr::from_u16(4), RocmErr::RsmiStatusPermission);
    assert_eq!(RocmErr::from_u16(5), RocmErr::RsmiStatusOutOfResources);
    assert_eq!(RocmErr::from_u16(7), RocmErr::RsmiStatusInputOutOfBounds);
    assert_eq!(RocmErr::from_u16(8), RocmErr::RsmiStatusInitError);
    assert_eq!(RocmErr::from_u16(12), RocmErr::RsmiStatusInterrupt);
    assert_eq!(RocmErr::from_u16(17), RocmErr::RsmiStatusRefcountOverflow);
}

#[test]
fn every_other_status_is_unknown() {
    for code in 18..=u16::MAX {
        assert_eq!(RocmErr::from_u16(code), RocmErr::RsmiStatusUnknownError);
    }
}

#[test]
fn no_two_known_codes_share_a_kind() {
    for a in 0..18u16 {
        for b in 0..18u16 {
            if a != b {
                assert_ne!(RocmErr::from_u16(a), RocmErr::from_u16(b));
            }
        }
        assert_ne!(RocmErr::from_u16(a), RocmErr::RsmiStatusUnknownError);
    }
}

#[test]
fn check_res_passes_zero_only() {
    assert_eq!(check_res(0), Ok(()));
    assert_eq!(check_res(12), Err(RocmErr::RsmiStatusInterrupt));
    assert_eq!(check_res(2), Err(RocmErr::RsmiStatusNotSupported));
    assert_eq!(check_res(999), Err(RocmErr::RsmiStatusUnknownError));
    for code in 1..=u16::MAX {
        assert_eq!(check_res(code), Err(RocmErr::from_u16(code)));
    }
}

#[test]
fn scalar_replies_keep_their_width() {
    assert_eq!(ResultU16 { status: 0, data: u16::MAX }.decode(), Ok(u16::MAX));
    assert_eq!(ResultU16 { status: 0, data: 0x740f }.decode(), Ok(0x740f));
    assert_eq!(ResultU32 { status: 0, data: u32::MAX }.decode(), Ok(u32::MAX));
    assert_eq!(ResultU32 { status: 0, data: 128 }.decode(), Ok(128));
    assert_eq!(ResultU64 { status: 0, data: u64::MAX }.decode(), Ok(u64::MAX));
    assert_eq!(ResultU64 { status: 0, data: 0x1234_5678_9abc_def0 }.decode(), Ok(0x1234_5678_9abc_def0));
    assert_eq!(ResultU64Dual { status: 0, data1: 1, data2: u64::MAX }.decode(), Ok((1, u64::MAX)));
}

#[test]
fn payload_is_not_read_beside_a_failure() {
    assert_eq!(ResultU16 { status: 2, data: 77 }.decode(), Err(RocmErr::RsmiStatusNotSupported));
    assert_eq!(ResultU32 { status: 4, data: 77 }.decode(), Err(RocmErr::RsmiStatusPermission));
    assert_eq!(ResultU64 { status: 5, data: 77 }.decode(), Err(RocmErr::RsmiStatusOutOfResources));
    assert_eq!(
        ResultU64Dual { status: 3, data1: 7, data2: 8 }.decode(),
        Err(RocmErr::RsmiStatusFileError)
    );
    assert_eq!(
        ResultStr { status: 8, data: Some(b"MI250X\0".to_vec()) }.decode(),
        Err(RocmErr::RsmiStatusInitError)
    );
    assert_eq!(
        ResultStr { status: 300, data: Some(vec![0xff]) }.decode(),
        Err(RocmErr::RsmiStatusUnknownError)
    );
}

#[test]
fn text_comes_back_as_it_was_sent() {
    assert_eq!(ResultStr { status: 0, data: Some(b"MI250X".to_vec()) }.decode(), Ok("MI250X".to_string()));
    assert_eq!(ResultStr { status: 0, data: Some(b"MI250X\0".to_vec()) }.decode(), Ok("MI250X".to_string()));
    assert_eq!(
        ResultStr { status: 0, data: Some("Advanced Micro Devices, Inc. [AMD/ATI]\0".as_bytes().to_vec()) }.decode(),
        Ok("Advanced Micro Devices, Inc. [AMD/ATI]".to_string())
    );
    let text = "Grüße, 世界 🌍";
    assert_eq!(ResultStr { status: 0, data: Some(text.as_bytes().to_vec()) }.decode(), Ok(text.to_string()));
}

#[test]
fn text_ends_at_the_first_zero_byte() {
    assert_eq!(ResultStr { status: 0, data: Some(b"abc\0def\0".to_vec()) }.decode(), Ok("abc".to_string()));
    assert_eq!(ResultStr { status: 0, data: Some(b"\0abc".to_vec()) }.decode(), Ok(String::new()));
    assert_eq!(ResultStr { status: 0, data: Some(Vec::new()) }.decode(), Ok(String::new()));
    assert_eq!(ResultStr { status: 0, data: Some(vec![b'o', b'k', 0, 0xff, 0xfe]) }.decode(), Ok("ok".to_string()));
}

#[test]
fn no_bytes_at_all_are_no_text() {
    assert_eq!(ResultStr { status: 0, data: None }.decode(), Err(RocmErr::RsmiStatusUnknownError));
    assert_eq!(ResultStr { status: 5, data: None }.decode(), Err(RocmErr::RsmiStatusOutOfResources));
    assert_eq!(ResultStr { status: 0, data: Some(Vec::new()) }.decode(), Ok(String::new()));
}

#[test]
fn text_len_finds_the_terminator() {
    assert_eq!(text_len(b""), 0);
    assert_eq!(text_len(b"\0"), 0);
    assert_eq!(text_len(b"abc"), 3);
    assert_eq!(text_len(b"abc\0"), 3);
    assert_eq!(text_len(b"ab\0c\0"), 2);
}

#[test]
fn bytes_that_are_no_text_give_the_unknown_error() {
    assert_eq!(
        ResultStr { status: 0, data: Some(vec![0xff, 0xfe, 0x00]) }.decode(),
        Err(RocmErr::RsmiStatusUnknownError)
    );
    assert_eq!(
        ResultStr { status: 0, data: Some(vec![b'M', b'I', 0xc3]) }.decode(),
        Err(RocmErr::RsmiStatusUnknownError)
    );
    // An overlong encoding and a surrogate are no text either.
    assert_eq!(
        ResultStr { status: 0, data: Some(vec![0xc0, 0x80]) }.decode(),
        Err(RocmErr::RsmiStatusUnknownError)
    );
    assert_eq!(
        ResultStr { status: 0, data: Some(vec![0xed, 0xa0, 0x80]) }.decode(),
        Err(RocmErr::RsmiStatusUnknownError)
    );
}

#[test]
fn an_index_passes_below_the_count_only() {
    assert_eq!(check_index(0, Ok(1)), Ok(()));
    assert_eq!(check_index(3, Ok(4)), Ok(()));
    assert_eq!(check_index(4, Ok(4)), Err(RocmErr::RsmiStatusInputOutOfBounds));
    assert_eq!(check_index(5, Ok(4)), Err(RocmErr::RsmiStatusInputOutOfBounds));
    assert_eq!(check_index(0, Ok(0)), Err(RocmErr::RsmiStatusInputOutOfBounds));
    assert_eq!(check_index(u32::MAX, Ok(u32::MAX)), Err(RocmErr::RsmiStatusInputOutOfBounds));
    assert_eq!(check_index(u32::MAX - 1, Ok(u32::MAX)), Ok(()));
    assert_eq!(check_index(0, Err(RocmErr::RsmiStatusInitError)), Err(RocmErr::RsmiStatusInitError));
    for count in 0..20u32 {
        for id in 0..25u32 {
            let expected = if id < count { Ok(()) } else { Err(RocmErr::RsmiStatusInputOutOfBounds) };
            assert_eq!(check_index(id, Ok(count)), expected);
        }
    }
}
