//! The host's invocation sequence, run against the in-crate guest.
//!
//! `apply_local` performs the same five phases as the host performs across
//! the machine boundary: allocate an input buffer, write the text into it,
//! invoke `process`, parse the result buffer, and free first the result and
//! then the input buffer.  Because the guest here is the verified registry,
//! the contract can state the buffer discipline exactly: on success and on
//! every failure path alike, the registry ends with precisely the entries it
//! began with — every buffer whose address the host learned has been freed.

use crate::errors::PluginError;
use crate::guest::{
    BufferRegistry, allocate_shared_buffer, buffer_at, copy_bytes, free_shared_buffer,
    guest_reply, lemma_address_index_unique, lemma_wf_unique, lookup_buffer, process,
    write_buffer,
};
use crate::layout::{lemma_layout_round_trip, parse_result_bytes};
use crate::rainbow::{
    already_colored_message, has_ansi_escape, lemma_rainbow_rendering_len, rainbow_rendering,
};
use crate::text::{bytes_to_string, lemma_encode_utf8_len};
use vstd::prelude::*;
use vstd::utf8::{encode_utf8, encode_utf8_decode_utf8, encode_utf8_valid_utf8};

verus! {

/// Apply the in-crate guest plugin to a text, following the host's
/// five-phase protocol.  Whatever the outcome, the registry keeps exactly
/// the entries it held before: every allocation of this call is matched by
/// a successful free (buffer conservation), also on the failure paths.
/// The bound in the precondition only asks that the guest's 32-bit address
/// space has room for the input buffer and the reply buffer.
pub fn apply_local(registry: &mut BufferRegistry, input: &str) -> (r: Result<String, PluginError>)
    requires
        old(registry).wf(),
        old(registry).next_addr() + 30 * input@.len() + 400 <= u32::MAX,
    ensures
        final(registry).wf(),
        final(registry)@ == old(registry)@,
        !has_ansi_escape(input@) ==> (r matches Ok(out) && out@ == rainbow_rendering(input@)),
        has_ansi_escape(input@) ==> (r matches Err(e) && (e matches PluginError::GuestError(m)
            && m@ == already_colored_message())),
{
    let ghost entries0 = registry@;
    let bytes = input.as_bytes_vec();
    proof {
        lemma_encode_utf8_len(input@);
    }
    // Phase one: allocate the input buffer and write the text into it.
    let input_address = allocate_shared_buffer(registry, bytes.len() as u32);
    let ghost entries1 = registry@;
    proof {
        lemma_wf_unique(registry);
        lemma_address_index_unique(entries1, entries1.len() - 1);
    }
    let written = write_buffer(registry, input_address, &bytes);
    if !written {
        let _ = free_shared_buffer(registry, input_address);
        return Err(
            PluginError::AllocatedBufferCausedMemoryError(
                String::from_str("input write left the allocated region"),
            ),
        );
    }
    let ghost entries2 = registry@;
    proof {
        assert(entries2 =~= entries0.push((input_address, encode_utf8(input@))));
        lemma_address_index_unique(entries2, entries2.len() - 1);
        assert(buffer_at(entries2, input_address) == encode_utf8(input@));
        encode_utf8_valid_utf8(input@);
        encode_utf8_decode_utf8(input@);
        lemma_rainbow_rendering_len(input@);
        lemma_encode_utf8_len(rainbow_rendering(input@));
        lemma_encode_utf8_len(already_colored_message());
        reveal_strlit("The input text already contains ANSI escape codes. I can't add color to that.");
    }
    // Phase two: invoke the guest.
    let result_address = process(registry, input_address);
    let ghost reply = guest_reply(entries2, input_address);
    let ghost entries3 = registry@;
    proof {
        lemma_wf_unique(registry);
        lemma_address_index_unique(entries3, entries3.len() - 1);
        lemma_layout_round_trip(reply.0, encode_utf8(reply.1));
        encode_utf8_valid_utf8(reply.1);
    }
    // Phase three: parse the result layout out of guest memory.
    let result_bytes = match lookup_buffer(registry, result_address) {
        Some(buffer) => copy_bytes(buffer),
        None => {
            let _ = free_shared_buffer(registry, input_address);
            return Err(
                PluginError::ProcessReturnedMalformedDatastructure(
                    String::from_str("result address is not a live buffer"),
                ),
            );
        },
    };
    let (flag, payload) = match parse_result_bytes(&result_bytes) {
        Some(parsed) => parsed,
        None => {
            let _ = free_shared_buffer(registry, result_address);
            let _ = free_shared_buffer(registry, input_address);
            return Err(
                PluginError::ProcessReturnedMalformedDatastructure(
                    String::from_str("declared length reads past the end of the buffer"),
                ),
            );
        },
    };
    let message = match bytes_to_string(payload) {
        Ok(text) => text,
        Err(_) => {
            let _ = free_shared_buffer(registry, result_address);
            let _ = free_shared_buffer(registry, input_address);
            return Err(
                PluginError::ProcessReturnedMalformedDatastructure(
                    String::from_str("payload is not valid UTF-8"),
                ),
            );
        },
    };
    proof {
        encode_utf8_decode_utf8(reply.1);
        assert(message@ == reply.1);
    }
    // Phases four and five: free the result buffer, then the input buffer.
    let freed_result = free_shared_buffer(registry, result_address);
    proof {
        assert(registry@ =~= entries2);
    }
    if !freed_result {
        let _ = free_shared_buffer(registry, input_address);
        return Err(PluginError::FailedToFreeSharedBuffer);
    }
    let freed_input = free_shared_buffer(registry, input_address);
    proof {
        assert(registry@ =~= entries0);
    }
    if !freed_input {
        return Err(PluginError::FailedToFreeSharedBuffer);
    }
    if !flag {
        return Err(PluginError::GuestError(message));
    }
    Ok(message)
}

} // verus!
