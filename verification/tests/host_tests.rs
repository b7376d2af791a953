//! Tests of the host against real WebAssembly plugins, assembled here as
//! raw module bytes.  Every module exports the three required functions and
//! a one-page linear memory; `allocate_shared_buffer` always hands out
//! address 16, and `process` writes its result buffer at address 1024.

use wasmlet::errors::PluginError;
use wasmlet::host::Plugin;
use wasmlet::pipeline::{join_args, run_pipeline};

/// Echoes the first two bytes of the input back as a successful result.
const ECHO_TWO_BYTES: [u8; 155] = [
    0x00, 0x61, 0x73, 0x6d, 0x01, 0x00, 0x00, 0x00, 0x01, 0x06, 0x01, 0x60, 0x01, 0x7f, 0x01,
    0x7f, 0x03, 0x04, 0x03, 0x00, 0x00, 0x00, 0x05, 0x03, 0x01, 0x00, 0x01, 0x07, 0x42, 0x04,
    0x16, 0x61, 0x6c, 0x6c, 0x6f, 0x63, 0x61, 0x74, 0x65, 0x5f, 0x73, 0x68, 0x61, 0x72, 0x65,
    0x64, 0x5f, 0x62, 0x75, 0x66, 0x66, 0x65, 0x72, 0x00, 0x00, 0x12, 0x66, 0x72, 0x65, 0x65,
    0x5f, 0x73, 0x68, 0x61, 0x72, 0x65, 0x64, 0x5f, 0x62, 0x75, 0x66, 0x66, 0x65, 0x72, 0x00,
    0x01, 0x07, 0x70, 0x72, 0x6f, 0x63, 0x65, 0x73, 0x73, 0x00, 0x02, 0x06, 0x6d, 0x65, 0x6d,
    0x6f, 0x72, 0x79, 0x02, 0x00, 0x0a, 0x3a, 0x03, 0x04, 0x00, 0x41, 0x10, 0x0b, 0x04, 0x00,
    0x41, 0x01, 0x0b, 0x2e, 0x00, 0x41, 0x80, 0x08, 0x41, 0x01, 0x3a, 0x00, 0x00, 0x41, 0x81,
    0x08, 0x41, 0x02, 0x36, 0x00, 0x00, 0x41, 0x85, 0x08, 0x20, 0x00, 0x2d, 0x00, 0x00, 0x3a,
    0x00, 0x00, 0x41, 0x86, 0x08, 0x20, 0x00, 0x41, 0x01, 0x6a, 0x2d, 0x00, 0x00, 0x3a, 0x00,
    0x00, 0x41, 0x80, 0x08, 0x0b,
];

/// Reports failure with an empty message.
const GUEST_ERROR_EMPTY: [u8; 130] = [
    0x00, 0x61, 0x73, 0x6d, 0x01, 0x00, 0x00, 0x00, 0x01, 0x06, 0x01, 0x60, 0x01, 0x7f, 0x01,
    0x7f, 0x03, 0x04, 0x03, 0x00, 0x00, 0x00, 0x05, 0x03, 0x01, 0x00, 0x01, 0x07, 0x42, 0x04,
    0x16, 0x61, 0x6c, 0x6c, 0x6f, 0x63, 0x61, 0x74, 0x65, 0x5f, 0x73, 0x68, 0x61, 0x72, 0x65,
    0x64, 0x5f, 0x62, 0x75, 0x66, 0x66, 0x65, 0x72, 0x00, 0x00, 0x12, 0x66, 0x72, 0x65, 0x65,
    0x5f, 0x73, 0x68, 0x61, 0x72, 0x65, 0x64, 0x5f, 0x62, 0x75, 0x66, 0x66, 0x65, 0x72, 0x00,
    0x01, 0x07, 0x70, 0x72, 0x6f, 0x63, 0x65, 0x73, 0x73, 0x00, 0x02, 0x06, 0x6d, 0x65, 0x6d,
    0x6f, 0x72, 0x79, 0x02, 0x00, 0x0a, 0x21, 0x03, 0x04, 0x00, 0x41, 0x10, 0x0b, 0x04, 0x00,
    0x41, 0x01, 0x0b, 0x15, 0x00, 0x41, 0x80, 0x08, 0x41, 0x00, 0x3a, 0x00, 0x00, 0x41, 0x81,
    0x08, 0x41, 0x00, 0x36, 0x00, 0x00, 0x41, 0x80, 0x08, 0x0b,
];

/// Declares a result length that reads far past the end of linear memory.
const MALFORMED_LENGTH: [u8; 132] = [
    0x00, 0x61, 0x73, 0x6d, 0x01, 0x00, 0x00, 0x00, 0x01, 0x06, 0x01, 0x60, 0x01, 0x7f, 0x01,
    0x7f, 0x03, 0x04, 0x03, 0x00, 0x00, 0x00, 0x05, 0x03, 0x01, 0x00, 0x01, 0x07, 0x42, 0x04,
    0x16, 0x61, 0x6c, 0x6c, 0x6f, 0x63, 0x61, 0x74, 0x65, 0x5f, 0x73, 0x68, 0x61, 0x72, 0x65,
    0x64, 0x5f, 0x62, 0x75, 0x66, 0x66, 0x65, 0x72, 0x00, 0x00, 0x12, 0x66, 0x72, 0x65, 0x65,
    0x5f, 0x73, 0x68, 0x61, 0x72, 0x65, 0x64, 0x5f, 0x62, 0x75, 0x66, 0x66, 0x65, 0x72, 0x00,
    0x01, 0x07, 0x70, 0x72, 0x6f, 0x63, 0x65, 0x73, 0x73, 0x00, 0x02, 0x06, 0x6d, 0x65, 0x6d,
    0x6f, 0x72, 0x79, 0x02, 0x00, 0x0a, 0x23, 0x03, 0x04, 0x00, 0x41, 0x10, 0x0b, 0x04, 0x00,
    0x41, 0x01, 0x0b, 0x17, 0x00, 0x41, 0x80, 0x08, 0x41, 0x01, 0x3a, 0x00, 0x00, 0x41, 0x81,
    0x08, 0x41, 0xf0, 0xa2, 0x04, 0x36, 0x00, 0x00, 0x41, 0x80, 0x08, 0x0b,
];

/// Echoes, but `free_shared_buffer` always returns the falsy status.
const FREE_REFUSED: [u8; 155] = [
    0x00, 0x61, 0x73, 0x6d, 0x01, 0x00, 0x00, 0x00, 0x01, 0x06, 0x01, 0x60, 0x01, 0x7f, 0x01,
    0x7f, 0x03, 0x04, 0x03, 0x00, 0x00, 0x00, 0x05, 0x03, 0x01, 0x00, 0x01, 0x07, 0x42, 0x04,
    0x16, 0x61, 0x6c, 0x6c, 0x6f, 0x63, 0x61, 0x74, 0x65, 0x5f, 0x73, 0x68, 0x61, 0x72, 0x65,
    0x64, 0x5f, 0x62, 0x75, 0x66, 0x66, 0x65, 0x72, 0x00, 0x00, 0x12, 0x66, 0x72, 0x65, 0x65,
    0x5f, 0x73, 0x68, 0x61, 0x72, 0x65, 0x64, 0x5f, 0x62, 0x75, 0x66, 0x66, 0x65, 0x72, 0x00,
    0x01, 0x07, 0x70, 0x72, 0x6f, 0x63, 0x65, 0x73, 0x73, 0x00, 0x02, 0x06, 0x6d, 0x65, 0x6d,
    0x6f, 0x72, 0x79, 0x02, 0x00, 0x0a, 0x3a, 0x03, 0x04, 0x00, 0x41, 0x10, 0x0b, 0x04, 0x00,
    0x41, 0x00, 0x0b, 0x2e, 0x00, 0x41, 0x80, 0x08, 0x41, 0x01, 0x3a, 0x00, 0x00, 0x41, 0x81,
    0x08, 0x41, 0x02, 0x36, 0x00, 0x00, 0x41, 0x85, 0x08, 0x20, 0x00, 0x2d, 0x00, 0x00, 0x3a,
    0x00, 0x00, 0x41, 0x86, 0x08, 0x20, 0x00, 0x41, 0x01, 0x6a, 0x2d, 0x00, 0x00, 0x3a, 0x00,
    0x00, 0x41, 0x80, 0x08, 0x0b,
];

/// Exports a memory and nothing else.
const ONLY_MEMORY: [u8; 25] = [
    0x00, 0x61, 0x73, 0x6d, 0x01, 0x00, 0x00, 0x00, 0x05, 0x03, 0x01, 0x00, 0x01, 0x07, 0x0a,
    0x01, 0x06, 0x6d, 0x65, 0x6d, 0x6f, 0x72, 0x79, 0x02, 0x00,
];

#[test]
fn apply_round_trips_through_a_real_plugin() {
    let mut plugin = Plugin::new(&ECHO_TWO_BYTES.to_vec()).unwrap();
    let result = plugin.apply("Hi").unwrap();
    assert_eq!(result, "Hi");
}

#[test]
fn apply_keeps_a_multibyte_character_intact() {
    let mut plugin = Plugin::new(&ECHO_TWO_BYTES.to_vec()).unwrap();
    // One character, two UTF-8 bytes, surviving the boundary unchanged.
    let result = plugin.apply("é").unwrap();
    assert_eq!(result, "é");
}

#[test]
fn an_instance_is_reusable_across_applies() {
    let mut plugin = Plugin::new(&ECHO_TWO_BYTES.to_vec()).unwrap();
    assert_eq!(plugin.apply("ab").unwrap(), "ab");
    assert_eq!(plugin.apply("cd").unwrap(), "cd");
}

#[test]
fn a_failing_guest_with_an_empty_message_is_a_guest_error() {
    let mut plugin = Plugin::new(&GUEST_ERROR_EMPTY.to_vec()).unwrap();
    let error = plugin.apply("Hi").unwrap_err();
    match &error {
        PluginError::GuestError(message) => assert_eq!(message, ""),
        other => panic!("expected a guest error, got {:?}", other),
    }
    assert_eq!(error.message(), "guest error: ");
}

#[test]
fn an_oversized_declared_length_is_a_malformed_result() {
    let mut plugin = Plugin::new(&MALFORMED_LENGTH.to_vec()).unwrap();
    let error = plugin.apply("Hi").unwrap_err();
    assert!(matches!(
        error,
        PluginError::ProcessReturnedMalformedDatastructure(_)
    ));
}

#[test]
fn a_falsy_free_status_is_reported() {
    let mut plugin = Plugin::new(&FREE_REFUSED.to_vec()).unwrap();
    let error = plugin.apply("Hi").unwrap_err();
    assert!(matches!(error, PluginError::FailedToFreeSharedBuffer));
}

#[test]
fn garbage_bytecode_is_a_compile_error() {
    let error = match Plugin::new(&vec![0x13, 0x37, 0x00]) {
        Err(error) => error,
        Ok(_) => panic!("expected a compile error"),
    };
    assert!(matches!(error, PluginError::CompileError(_)));
}

#[test]
fn a_module_without_the_exports_names_the_missing_function() {
    let error = match Plugin::new(&ONLY_MEMORY.to_vec()) {
        Err(error) => error,
        Ok(_) => panic!("expected a missing export"),
    };
    match error {
        PluginError::PluginDoesNotExportRequiredFunction(name) => {
            assert_eq!(name, "allocate_shared_buffer");
        }
        other => panic!("expected a missing export, got {:?}", other),
    }
}

/// Exports the three functions but no memory.
const NO_MEMORY: [u8; 99] = [
    0x00, 0x61, 0x73, 0x6d, 0x01, 0x00, 0x00, 0x00, 0x01, 0x06, 0x01, 0x60, 0x01, 0x7f, 0x01,
    0x7f, 0x03, 0x04, 0x03, 0x00, 0x00, 0x00, 0x07, 0x39, 0x03, 0x16, 0x61, 0x6c, 0x6c, 0x6f,
    0x63, 0x61, 0x74, 0x65, 0x5f, 0x73, 0x68, 0x61, 0x72, 0x65, 0x64, 0x5f, 0x62, 0x75, 0x66,
    0x66, 0x65, 0x72, 0x00, 0x00, 0x12, 0x66, 0x72, 0x65, 0x65, 0x5f, 0x73, 0x68, 0x61, 0x72,
    0x65, 0x64, 0x5f, 0x62, 0x75, 0x66, 0x66, 0x65, 0x72, 0x00, 0x01, 0x07, 0x70, 0x72, 0x6f,
    0x63, 0x65, 0x73, 0x73, 0x00, 0x02, 0x0a, 0x10, 0x03, 0x04, 0x00, 0x41, 0x01, 0x0b, 0x04,
    0x00, 0x41, 0x01, 0x0b, 0x04, 0x00, 0x41, 0x01, 0x0b,
];

#[test]
fn a_module_without_memory_is_rejected() {
    let error = match Plugin::new(&NO_MEMORY.to_vec()) {
        Err(error) => error,
        Ok(_) => panic!("expected a missing memory"),
    };
    assert!(matches!(error, PluginError::PluginDoesNotExportMemory));
}

#[test]
fn a_pipeline_with_no_plugins_returns_the_text_verbatim() {
    let mut plugins: Vec<Plugin> = Vec::new();
    let result = run_pipeline(&mut plugins, String::from("Hello")).unwrap();
    assert_eq!(result, "Hello");
}

#[test]
fn a_pipeline_threads_the_text_through_each_plugin_in_order() {
    let mut plugins = vec![
        Plugin::new(&ECHO_TWO_BYTES.to_vec()).unwrap(),
        Plugin::new(&ECHO_TWO_BYTES.to_vec()).unwrap(),
    ];
    let result = run_pipeline(&mut plugins, String::from("Hi")).unwrap();
    // Composing the two echoes equals applying the second to the first's
    // output.
    let mut p = Plugin::new(&ECHO_TWO_BYTES.to_vec()).unwrap();
    let mut q = Plugin::new(&ECHO_TWO_BYTES.to_vec()).unwrap();
    let composed = q.apply(&p.apply("Hi").unwrap()).unwrap();
    assert_eq!(result, composed);
}

#[test]
fn a_pipeline_surfaces_the_first_failure() {
    let mut plugins = vec![
        Plugin::new(&GUEST_ERROR_EMPTY.to_vec()).unwrap(),
        Plugin::new(&ECHO_TWO_BYTES.to_vec()).unwrap(),
    ];
    let error = run_pipeline(&mut plugins, String::from("Hi")).unwrap_err();
    assert!(matches!(error, PluginError::GuestError(_)));
}

#[test]
fn a_failed_pipeline_keeps_the_plugins_in_their_order() {
    let mut plugins = vec![
        Plugin::new(&MALFORMED_LENGTH.to_vec()).unwrap(),
        Plugin::new(&GUEST_ERROR_EMPTY.to_vec()).unwrap(),
    ];
    // Both runs must fail on the first plugin: the failure path hands the
    // instances back in the caller's order.
    for _ in 0..2 {
        let error = run_pipeline(&mut plugins, String::from("Hi")).unwrap_err();
        assert!(matches!(
            error,
            PluginError::ProcessReturnedMalformedDatastructure(_)
        ));
        assert_eq!(plugins.len(), 2);
    }
}

#[test]
fn arguments_are_joined_with_single_spaces() {
    let args = vec![
        String::from("Hello,"),
        String::from("world!"),
    ];
    assert_eq!(join_args(&args), "Hello, world!");
    assert_eq!(join_args(&vec![String::from("Hello")]), "Hello");
    assert_eq!(join_args(&Vec::new()), "");
}
