//! The host protocol run against the in-crate guest: the place where buffer
//! conservation is observable from outside.

use wasmlet::errors::PluginError;
use wasmlet::guest::BufferRegistry;
use wasmlet::loopback::apply_local;

#[test]
fn a_successful_apply_frees_every_buffer_it_allocated() {
    let mut registry = BufferRegistry::new();
    let result = apply_local(&mut registry, "Hello, world!").unwrap();
    assert_eq!(
        result,
        "\x1b[31mH\x1b[33me\x1b[32ml\x1b[36ml\x1b[34mo\x1b[35m,\x1b[31m \x1b[33mw\x1b[32mo\x1b[36mr\x1b[34ml\x1b[35md\x1b[31m!\x1b[0m"
    );
    assert_eq!(registry.live_count(), 0);
}

#[test]
fn a_failing_apply_frees_every_buffer_it_allocated() {
    let mut registry = BufferRegistry::new();
    let error = apply_local(&mut registry, "\x1b[31mred").unwrap_err();
    match &error {
        PluginError::GuestError(message) => {
            assert!(message.contains("already contains ANSI escape codes"));
        }
        other => panic!("expected a guest error, got {:?}", other),
    }
    assert_eq!(registry.live_count(), 0);
}

#[test]
fn multibyte_text_survives_the_boundary() {
    let mut registry = BufferRegistry::new();
    let result = apply_local(&mut registry, "héllo…").unwrap();
    assert_eq!(
        result,
        "\x1b[31mh\x1b[33mé\x1b[32ml\x1b[36ml\x1b[34mo\x1b[35m…\x1b[0m"
    );
}

#[test]
fn an_empty_input_still_yields_the_reset_code() {
    let mut registry = BufferRegistry::new();
    let result = apply_local(&mut registry, "").unwrap();
    assert_eq!(result, "\x1b[0m");
    assert_eq!(registry.live_count(), 0);
}
