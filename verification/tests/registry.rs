use stdio_peer::registry::{
    console_class_arg_mode, console_class_texts, constructor_for_text, open_async_class_arg_mode,
    open_async_class_prefix, open_fd_class_arg_mode, open_fd_class_prefix, parse_i32,
    parse_specifier, ClassArgMode, SpecifierSelection,
};
use stdio_peer::specifier::{EndpointRequest, OpenAsync, OpenFdAsync, PeerConstructor, Stdio};

#[test]
fn console_texts_parse_to_console() {
    for text in ["-", "stdio:", "inetd:"] {
        assert_eq!(
            parse_specifier(text.as_bytes()),
            Some(SpecifierSelection::Console(Stdio)),
        );
    }
}

#[test]
fn console_texts_must_match_exactly() {
    assert_eq!(parse_specifier(b"stdio:x"), None);
    assert_eq!(parse_specifier(b"inetd:0"), None);
    assert_eq!(parse_specifier(b"--"), None);
    assert_eq!(parse_specifier(b"stdio"), None);
}

#[test]
fn unknown_texts_are_rejected() {
    assert_eq!(parse_specifier(b""), None);
    assert_eq!(parse_specifier(b"tcp:127.0.0.1:22"), None);
    assert_eq!(parse_specifier(b"open-"), None);
}

#[test]
fn file_text_takes_rest_as_path() {
    assert_eq!(
        parse_specifier(b"open-async:/dev/urandom"),
        Some(SpecifierSelection::FileEndpoint(OpenAsync(b"/dev/urandom".to_vec()))),
    );
}

#[test]
fn file_text_allows_empty_path() {
    assert_eq!(
        parse_specifier(b"open-async:"),
        Some(SpecifierSelection::FileEndpoint(OpenAsync(Vec::new()))),
    );
}

#[test]
fn descriptor_text_parses_its_number() {
    assert_eq!(
        parse_specifier(b"open-fd:55"),
        Some(SpecifierSelection::DescriptorEndpoint(OpenFdAsync(55))),
    );
    assert_eq!(
        parse_specifier(b"open-fd:007"),
        Some(SpecifierSelection::DescriptorEndpoint(OpenFdAsync(7))),
    );
    assert_eq!(
        parse_specifier(b"open-fd:-1"),
        Some(SpecifierSelection::DescriptorEndpoint(OpenFdAsync(-1))),
    );
}

#[test]
fn descriptor_text_rejects_bad_numbers() {
    assert_eq!(parse_specifier(b"open-fd:"), None);
    assert_eq!(parse_specifier(b"open-fd:9x"), None);
    assert_eq!(parse_specifier(b"open-fd:--5"), None);
    assert_eq!(parse_specifier(b"open-fd:2147483648"), None);
}

#[test]
fn parse_i32_handles_signs_zeros_and_bounds() {
    assert_eq!(parse_i32(b"0"), Some(0));
    assert_eq!(parse_i32(b"00"), Some(0));
    assert_eq!(parse_i32(b"+3"), Some(3));
    assert_eq!(parse_i32(b"-0"), Some(0));
    assert_eq!(parse_i32(b"0000000000000055"), Some(55));
    assert_eq!(parse_i32(b"2147483647"), Some(i32::MAX));
    assert_eq!(parse_i32(b"-2147483648"), Some(i32::MIN));
}

#[test]
fn parse_i32_rejects_malformed_and_out_of_range_text() {
    assert_eq!(parse_i32(b""), None);
    assert_eq!(parse_i32(b"+"), None);
    assert_eq!(parse_i32(b"-"), None);
    assert_eq!(parse_i32(b" 5"), None);
    assert_eq!(parse_i32(b"5 "), None);
    assert_eq!(parse_i32(b"12a"), None);
    assert_eq!(parse_i32(b"2147483648"), None);
    assert_eq!(parse_i32(b"-2147483649"), None);
    assert_eq!(parse_i32(b"99999999999999999999"), None);
}

#[test]
fn registry_table_lists_the_documented_prefixes() {
    let console = console_class_texts();
    let console_texts: Vec<&[u8]> = console.iter().map(|v| v.as_slice()).collect();
    assert_eq!(console_texts, vec![b"-".as_slice(), b"stdio:", b"inetd:"]);
    assert_eq!(open_async_class_prefix(), b"open-async:".to_vec());
    assert_eq!(open_fd_class_prefix(), b"open-fd:".to_vec());
}

#[test]
fn registry_table_lists_the_documented_arg_modes() {
    assert_eq!(console_class_arg_mode(), ClassArgMode::NoArgument);
    assert_eq!(open_async_class_arg_mode(), ClassArgMode::PathArgument);
    assert_eq!(open_fd_class_arg_mode(), ClassArgMode::IntegerArgument);
}

#[test]
fn dash_text_yields_the_console_constructor() {
    // The console peer built from this request reads the process's standard
    // input and writes its standard output, byte for byte.
    assert_eq!(
        constructor_for_text(b"-"),
        Some(PeerConstructor::ServeOnce(EndpointRequest::ConsoleStreams)),
    );
}

#[test]
fn descriptor_text_yields_the_adoption_constructor() {
    // The peer built from this request reflects reads and writes against
    // whatever descriptor 55 points at.
    assert_eq!(
        constructor_for_text(b"open-fd:55"),
        Some(PeerConstructor::ServeOnce(EndpointRequest::AdoptDescriptor(55))),
    );
}

#[test]
fn file_text_yields_the_open_constructor() {
    assert_eq!(
        constructor_for_text(b"open-async:/tmp/relay"),
        Some(PeerConstructor::ServeOnce(EndpointRequest::FileByPath(b"/tmp/relay".to_vec()))),
    );
    assert_eq!(constructor_for_text(b"nonsense:"), None);
}
