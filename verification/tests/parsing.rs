use coverage_pipeline::messages::test_binaries_from_cargo_test_messages;
use coverage_pipeline::sysroot::sys_root_of_toolchain;

fn strings(items: &[&str]) -> Vec<String> {
    items.iter().map(|s| s.to_string()).collect()
}

#[test]
fn mixed_stream_keeps_only_test_profiles_in_order() {
    let input: Vec<u8> = "{\"profile\":{\"test\":true},\"filenames\":[\"target/debug/alpha\"]}\nplain diagnostic text that is not JSON\n{\"profile\":{\"test\":false},\"filenames\":[\"target/debug/build-script\"]}\n{\"profile\":{\"test\":true},\"filenames\":[\"target/debug/beta\",\"target/debug/gamma\"]}\n"
        .as_bytes()
        .to_vec();
    let r = test_binaries_from_cargo_test_messages(&input);
    assert_eq!(
        r,
        strings(&["target/debug/alpha", "target/debug/beta", "target/debug/gamma"])
    );
}

#[test]
fn empty_stream_yields_no_binaries() {
    let input: Vec<u8> = Vec::new();
    let r = test_binaries_from_cargo_test_messages(&input);
    assert_eq!(r, strings(&[]));
}

#[test]
fn malformed_lines_are_skipped_silently() {
    let input = b"not json at all\n{\"broken\":\n{}\n[1,2,3]\n".to_vec();
    let r = test_binaries_from_cargo_test_messages(&input);
    assert_eq!(r, strings(&[]));
}

#[test]
fn crlf_line_endings_are_accepted() {
    let input = "{\"profile\":{\"test\":true},\"filenames\":[\"one\"]}\r\n{\"profile\":{\"test\":true},\"filenames\":[\"two\"]}\r\n"
        .as_bytes()
        .to_vec();
    let r = test_binaries_from_cargo_test_messages(&input);
    assert_eq!(r, strings(&["one", "two"]));
}

#[test]
fn unrecognized_fields_are_ignored() {
    let input = "{\"reason\":\"compiler-artifact\",\"profile\":{\"test\":true,\"opt_level\":\"0\"},\"filenames\":[\"bin\"],\"fresh\":false}\n"
        .as_bytes()
        .to_vec();
    let r = test_binaries_from_cargo_test_messages(&input);
    assert_eq!(r, strings(&["bin"]));
}

#[test]
fn record_missing_profile_is_skipped() {
    let input = b"{\"filenames\":[\"bin\"]}\n".to_vec();
    let r = test_binaries_from_cargo_test_messages(&input);
    assert_eq!(r, strings(&[]));
}

#[test]
fn record_missing_filenames_is_skipped() {
    let input = b"{\"profile\":{\"test\":true}}\n".to_vec();
    let r = test_binaries_from_cargo_test_messages(&input);
    assert_eq!(r, strings(&[]));
}

#[test]
fn non_string_filename_entry_skips_the_record() {
    let input = b"{\"profile\":{\"test\":true},\"filenames\":[\"ok\",7]}\n".to_vec();
    let r = test_binaries_from_cargo_test_messages(&input);
    assert_eq!(r, strings(&[]));
}

#[test]
fn duplicates_and_tool_order_are_preserved() {
    let input = "{\"profile\":{\"test\":true},\"filenames\":[\"same\"]}\n{\"profile\":{\"test\":true},\"filenames\":[\"same\"]}\n"
        .as_bytes()
        .to_vec();
    let r = test_binaries_from_cargo_test_messages(&input);
    assert_eq!(r, strings(&["same", "same"]));
}

#[test]
fn final_line_without_terminator_still_counts() {
    let input = b"{\"profile\":{\"test\":true},\"filenames\":[\"tail\"]}".to_vec();
    let r = test_binaries_from_cargo_test_messages(&input);
    assert_eq!(r, strings(&["tail"]));
}

#[test]
fn sysroot_keeps_only_first_line() {
    let input = b"/home/user/.rustup/toolchains/stable\nextraneous text".to_vec();
    let r = sys_root_of_toolchain(&input);
    assert_eq!(r, b"/home/user/.rustup/toolchains/stable".to_vec());
}

#[test]
fn sysroot_trailing_newline_is_dropped() {
    let input = b"/opt/sysroot\n".to_vec();
    let r = sys_root_of_toolchain(&input);
    assert_eq!(r, b"/opt/sysroot".to_vec());
}

#[test]
fn sysroot_carriage_return_terminates_the_line() {
    let input = b"/opt/sysroot\r\nmore".to_vec();
    let r = sys_root_of_toolchain(&input);
    assert_eq!(r, b"/opt/sysroot".to_vec());
}

#[test]
fn sysroot_without_terminator_is_kept_whole() {
    let input = b"/opt/sysroot".to_vec();
    let r = sys_root_of_toolchain(&input);
    assert_eq!(r, b"/opt/sysroot".to_vec());
}

#[test]
fn sysroot_of_empty_output_is_empty() {
    let input: Vec<u8> = Vec::new();
    let r = sys_root_of_toolchain(&input);
    assert_eq!(r, Vec::<u8>::new());
}
