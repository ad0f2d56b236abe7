//! UTF-8, text helpers, result codes and reports.
use ghostty::report::{
    build_info_line, format_to_vec, get_device_attributes, set_params, DeviceFeature, DeviceLevel,
    SizeReportSize,
};
use ghostty::status::{
    from_result, from_result_with_len, item_if, open_handle, value_or_error, Error, ResultCode,
};
use ghostty::text::{
    chars_of, contains, decimal_text, ends_with, same_text, starts_with, trim,
};
use ghostty::utf8::{char_len, text_of, utf8_encode};

#[test]
fn code_points_are_encoded() {
    for c in ['A', '\u{7f}', '\u{80}', '\u{7ff}', '\u{800}', '\u{20ac}', '\u{ffff}', '\u{10000}', '\u{10ffff}'] {
        let mut out = [0u8; 4];
        let n = utf8_encode(c as u32, &mut out);
        let mut expected = [0u8; 4];
        let text = c.encode_utf8(&mut expected);
        assert_eq!(&out[..n], text.as_bytes());
        assert_eq!(n, c.len_utf8());
        assert_eq!(char_len(c), c.len_utf8());
    }
}

#[test]
fn encoding_leaves_the_rest_of_the_buffer() {
    let mut out = [9u8; 4];
    assert_eq!(utf8_encode(0x41, &mut out), 1);
    assert_eq!(out, [0x41, 9, 9, 9]);
    assert_eq!(utf8_encode(0xe9, &mut out), 2);
    assert_eq!(out, [0xc3, 0xa9, 9, 9]);
}

#[test]
fn surrogates_and_large_values_are_encoded_by_the_same_formula() {
    let mut out = [0u8; 4];
    assert_eq!(utf8_encode(0xd800, &mut out), 3);
    assert_eq!(out, [0xed, 0xa0, 0x80, 0]);
    assert_eq!(utf8_encode(0xffff_ffff, &mut out), 4);
    assert_eq!(out, [0xff, 0xbf, 0xbf, 0xbf]);
}

#[test]
fn characters_make_strings() {
    assert_eq!(text_of(&[]), "");
    assert_eq!(text_of(&['a', '\u{e9}', '\u{1f600}']), "a\u{e9}\u{1f600}");
    assert_eq!(chars_of("a\u{e9}"), vec!['a', '\u{e9}']);
}

#[test]
fn matching_agrees_with_std() {
    let words = ["", "a", "windows", "x86_64-pc-windows-msvc", "libghostty-vt.so.1", "libghostty-vt"];
    for whole in words {
        for part in words {
            assert_eq!(contains(whole, part), whole.contains(part));
            assert_eq!(starts_with(whole, part), whole.starts_with(part));
            assert_eq!(ends_with(whole, part), whole.ends_with(part));
            assert_eq!(same_text(whole, part), whole == part);
        }
    }
}

#[test]
fn numbers_are_written_out() {
    for n in [0, 9, 10, 42, 100, 65535, u64::MAX] {
        assert_eq!(decimal_text(n), n.to_string());
    }
}

#[test]
fn trimming_agrees_with_std() {
    for s in ["", " ", "a", " a ", "\n\ta b\r\n", "\u{a0}x\u{3000}", "\u{200b}x", "\u{85}\u{2028}y\u{1680}"] {
        assert_eq!(trim(s), s.trim());
        assert_eq!(trim(&trim(s)), s.trim());
    }
    for c in (0..0x11_0000u32).filter_map(char::from_u32) {
        if c.is_whitespace() || c as u32 <= 0x3100 {
            let s: String = [c, 'x', c].into_iter().collect();
            assert_eq!(trim(&s) == "x", c.is_whitespace(), "{:x}", c as u32);
        }
    }
}

#[test]
fn codes_become_errors_and_texts() {
    assert_eq!(from_result(ResultCode::Success), Ok(()));
    assert_eq!(from_result(ResultCode::OutOfMemory), Err(Error::OutOfMemory));
    assert_eq!(from_result(ResultCode::InvalidValue), Err(Error::InvalidValue));
    assert_eq!(from_result(ResultCode::OutOfSpace), Err(Error::OutOfSpace { required: 0 }));
    assert_eq!(from_result(ResultCode::Unknown), Err(Error::InvalidValue));
    assert_eq!(from_result_with_len(ResultCode::Success, 5), Ok(5));
    assert_eq!(from_result_with_len(ResultCode::OutOfSpace, 5), Err(Error::OutOfSpace { required: 5 }));
    assert_eq!(from_result_with_len(ResultCode::OutOfMemory, 5), Err(Error::OutOfMemory));
    assert_eq!(from_result_with_len(ResultCode::NoValue, 5), Err(Error::InvalidValue));
    assert_eq!(Error::OutOfMemory.message(), "out of memory");
    assert_eq!(Error::InvalidValue.message(), "invalid value");
    assert_eq!(Error::OutOfSpace { required: 12 }.message(), "out of space, 12 bytes required");
    assert_eq!(value_or_error(ResultCode::Success, 'v'), Ok('v'));
    assert_eq!(value_or_error(ResultCode::InvalidValue, 'v'), Err(Error::InvalidValue));
    assert_eq!(open_handle(ResultCode::Success, Some(1)), Ok(1));
    assert_eq!(open_handle::<u8>(ResultCode::Success, None), Err(Error::OutOfMemory));
    assert_eq!(open_handle(ResultCode::InvalidValue, Some(1)), Err(Error::InvalidValue));
    assert_eq!(item_if(true, 1), Some(1));
    assert_eq!(item_if(false, 1), None);
}

#[test]
fn formatting_gives_the_bytes_or_nothing() {
    assert_eq!(format_to_vec(ResultCode::Success, Some(b"abc".to_vec())), Ok(b"abc".to_vec()));
    assert_eq!(format_to_vec(ResultCode::Success, None), Ok(vec![]));
    assert_eq!(format_to_vec(ResultCode::OutOfMemory, Some(vec![1])), Err(Error::OutOfMemory));
}

#[test]
fn sgr_parameters_take_the_engine_answer() {
    assert_eq!(set_params(&[1, 2], Some(b";:"), ResultCode::Success), Ok(()));
    assert_eq!(set_params(&[1, 2], None, ResultCode::OutOfMemory), Err(Error::OutOfMemory));
}

#[test]
fn device_attributes_are_those_of_a_vt220() {
    let d = get_device_attributes().unwrap();
    assert_eq!(d.conformance_level, DeviceLevel::Vt220);
    assert_eq!(
        d.features,
        [DeviceFeature::Columns132, DeviceFeature::SelectiveErase, DeviceFeature::AnsiColor]
    );
    assert_eq!(d.device_type, DeviceLevel::Vt220);
    assert_eq!((d.firmware_version, d.rom_cartridge, d.unit_id), (1, 0, 0));
}

#[test]
fn build_info_is_one_line() {
    assert_eq!(
        build_info_line(Some(true), Some("ReleaseFast")),
        "ghostty-vt: simd: enabled, optimize: ReleaseFast"
    );
    assert_eq!(build_info_line(Some(false), None), "ghostty-vt: simd: disabled, optimize: Debug");
    assert_eq!(build_info_line(None, None), "ghostty-vt: simd: disabled, optimize: Debug");
}

#[test]
fn empty_size_report_is_all_zero() {
    let s = SizeReportSize::default();
    assert_eq!((s.rows, s.columns, s.cell_width, s.cell_height), (0, 0, 0, 0));
}
