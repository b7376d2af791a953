//! The host side of the boundary: loading a plugin into the virtual machine
//! and applying it to a text.
//!
//! The calls into the machine go through small trusted wrappers; everything
//! around them — the order of the five phases, the defensive parse of the
//! result layout, the attribution of every failure, and the freeing of each
//! buffer on success and failure paths alike — is verified.  A view into
//! guest memory is acquired freshly inside each wrapper and never cached
//! across calls.

use crate::errors::PluginError;
use crate::layout::header_fields;
use crate::text::bytes_to_string;
use vstd::bytes::spec_u32_from_le_bytes;
use vstd::prelude::*;
use vstd::utf8::{decode_utf8, encode_utf8, valid_utf8};
use wasmer::sys::NativeEngineExt;

verus! {

#[verifier::external_type_specification]
#[verifier::external_body]
pub struct ExStore(wasmer::Store);

#[verifier::external_type_specification]
#[verifier::external_body]
pub struct ExModule(wasmer::Module);

#[verifier::external_type_specification]
#[verifier::external_body]
pub struct ExInstance(wasmer::Instance);

#[verifier::external_type_specification]
#[verifier::external_body]
pub struct ExMemory(wasmer::Memory);

#[verifier::external_type_specification]
#[verifier::external_body]
#[verifier::reject_recursive_types(Args)]
#[verifier::reject_recursive_types(Rets)]
pub struct ExTypedFunction<Args, Rets>(wasmer::TypedFunction<Args, Rets>);

/// Relies on wasmer's `Store::new`: a fresh store owning one instance's
/// state.  The tunables ask for dynamic memories with small guard regions,
/// so an instance does not reserve gigabytes of address space up front.
#[verifier::external_body]
fn new_store() -> wasmer::Store {
    let mut engine = wasmer::Engine::default();
    engine.set_tunables(
        wasmer::sys::BaseTunables {
            static_memory_bound: wasmer::Pages(0),
            static_memory_offset_guard_size: 0x1000,
            dynamic_memory_offset_guard_size: 0x1000,
        },
    );
    wasmer::Store::new(engine)
}

/// Relies on wasmer's `Module::new`: compiles the bytecode, rejecting what
/// the machine cannot accept; the error is its rendering.
#[verifier::external_body]
fn compile_module(store: &wasmer::Store, bytecode: &Vec<u8>) -> (r: Result<wasmer::Module, String>) {
    wasmer::Module::new(store, bytecode.as_slice()).map_err(|e| format!("{}", e))
}

/// Relies on wasmer's `Instance::new` with an empty import set.
#[verifier::external_body]
fn instantiate(store: &mut wasmer::Store, module: &wasmer::Module) -> (r: Result<
    wasmer::Instance,
    String,
>) {
    let imports = wasmer::Imports::new();
    wasmer::Instance::new(store, module, &imports).map_err(|e| format!("{}", e))
}

/// Relies on wasmer's `Exports::get_typed_function`: the export under this
/// name, when it exists with a 32-bit argument and result.
#[verifier::external_body]
fn get_abi_function(store: &wasmer::Store, instance: &wasmer::Instance, name: &str) -> (r: Result<
    wasmer::TypedFunction<u32, u32>,
    String,
>) {
    instance.exports.get_typed_function::<u32, u32>(store, name).map_err(|e| format!("{}", e))
}

/// Relies on wasmer's `Exports::get_memory`: the exported linear memory
/// named `memory`, when there is one.
#[verifier::external_body]
fn get_exported_memory(instance: &wasmer::Instance) -> (r: Result<wasmer::Memory, String>) {
    instance.exports.get_memory("memory").map(|m| m.clone()).map_err(|e| format!("{}", e))
}

/// Relies on wasmer's `TypedFunction::call`: runs the guest export on the
/// argument; a trap becomes the error's rendering.  Nothing is assumed
/// about the returned value.
#[verifier::external_body]
fn call_abi_function(
    function: &wasmer::TypedFunction<u32, u32>,
    store: &mut wasmer::Store,
    argument: u32,
) -> (r: Result<u32, String>) {
    function.call(store, argument).map_err(|e| format!("{}", e))
}

/// Relies on wasmer's `MemoryView::write` on a freshly acquired view: the
/// bytes land at the offset, or an out-of-bounds write reports an error.
#[verifier::external_body]
fn write_guest_memory(
    memory: &wasmer::Memory,
    store: &wasmer::Store,
    offset: u64,
    data: &Vec<u8>,
) -> (r: Result<(), String>) {
    memory.view(store).write(offset, data.as_slice()).map_err(|e| format!("{}", e))
}

/// Relies on wasmer's `MemoryView::read` on a freshly acquired view: on
/// success the whole buffer was filled from the offset, so the result holds
/// exactly `length` bytes; an out-of-bounds read reports an error.
#[verifier::external_body]
fn read_guest_memory(
    memory: &wasmer::Memory,
    store: &wasmer::Store,
    offset: u64,
    length: u32,
) -> (r: Result<Vec<u8>, String>)
    ensures
        r matches Ok(bytes) ==> bytes@.len() == length as int,
{
    let mut buffer = vec![0u8; length as usize];
    match memory.view(store).read(offset, &mut buffer) {
        Ok(()) => Ok(buffer),
        Err(e) => Err(format!("{}", e)),
    }
}

/// True of every error that plugin construction can report.
pub open spec fn construction_error(e: PluginError) -> bool {
    ||| e matches PluginError::CompileError(_)
    ||| e matches PluginError::InstantiationError(_)
    ||| e matches PluginError::PluginDoesNotExportRequiredFunction(_)
    ||| e matches PluginError::PluginDoesNotExportMemory
}

/// True of every error that applying a plugin can report.
pub open spec fn apply_error(e: PluginError) -> bool {
    ||| e matches PluginError::RuntimeErrorWhileAllocatingBuffer(_)
    ||| e matches PluginError::AllocatedBufferCausedMemoryError(_)
    ||| e matches PluginError::RuntimeErrorWhileProcessingText(_)
    ||| e matches PluginError::ProcessReturnedMalformedDatastructure(_)
    ||| e matches PluginError::RuntimeErrorWhileFreeingBuffer(_)
    ||| e matches PluginError::FailedToFreeSharedBuffer
    ||| e matches PluginError::GuestError(_)
}

/// True when the flag and text are the reading of some result layout: a
/// five-byte header whose first byte gives the flag, and a payload of the
/// length the header declares, valid UTF-8, decoding to the text.
pub open spec fn parsed_from_layout(flag: bool, text: Seq<char>) -> bool {
    exists|header: Seq<u8>, payload: Seq<u8>|
        {
            &&& header.len() == 5
            &&& payload.len() == spec_u32_from_le_bytes(header.subrange(1, 5)) as int
            &&& flag == (header[0] != 0)
            &&& valid_utf8(payload)
            &&& text == decode_utf8(payload)
        }
}

/// The meaning of the parsed reply: a nonzero success flag hands the text
/// back as the transformed output, a zero flag makes it the guest's error
/// message.
fn interpret_reply(success: bool, text: String) -> (r: Result<String, PluginError>)
    ensures
        success ==> r == Ok::<String, PluginError>(text),
        !success ==> (r matches Err(e) && (e matches PluginError::GuestError(m) && m == text)),
{
    if success {
        Ok(text)
    } else {
        Err(PluginError::GuestError(text))
    }
}

/// The meaning of the status that the guest's `free_shared_buffer`
/// returns: nonzero means freed, zero is the misbehaving-plugin error.
fn free_status_to_result(status: u32) -> (r: Result<(), PluginError>)
    ensures
        r is Ok <==> status != 0,
        r matches Err(e) ==> e matches PluginError::FailedToFreeSharedBuffer,
{
    if status == 0 {
        Err(PluginError::FailedToFreeSharedBuffer)
    } else {
        Ok(())
    }
}

/// A loaded plugin: one store, one instantiated module, its linear memory,
/// and the three typed entry points, all bound at construction.
pub struct Plugin {
    allocate_shared_buffer: wasmer::TypedFunction<u32, u32>,
    free_shared_buffer: wasmer::TypedFunction<u32, u32>,
    process: wasmer::TypedFunction<u32, u32>,
    store: wasmer::Store,
    memory: wasmer::Memory,
}

impl Plugin {
    /// Instantiate the bytecode and bind the three required entry points
    /// and the linear memory; each missing piece is a distinct error, and a
    /// missing-function error names one of the three required exports.
    pub fn new(wasm_bytes: &Vec<u8>) -> (r: Result<Plugin, PluginError>)
        ensures
            r matches Err(e) ==> construction_error(e),
            r matches Err(e) ==> (e matches PluginError::PluginDoesNotExportRequiredFunction(n)
                ==> (n@ == "allocate_shared_buffer"@ || n@ == "free_shared_buffer"@ || n@
                == "process"@)),
    {
        let mut store = new_store();
        let module = match compile_module(&store, wasm_bytes) {
            Ok(module) => module,
            Err(rendering) => {
                return Err(PluginError::CompileError(rendering));
            },
        };
        let instance = match instantiate(&mut store, &module) {
            Ok(instance) => instance,
            Err(rendering) => {
                return Err(PluginError::InstantiationError(rendering));
            },
        };
        let allocate_shared_buffer = match get_abi_function(
            &store,
            &instance,
            "allocate_shared_buffer",
        ) {
            Ok(function) => function,
            Err(_) => {
                return Err(
                    PluginError::PluginDoesNotExportRequiredFunction(
                        String::from_str("allocate_shared_buffer"),
                    ),
                );
            },
        };
        let free_shared_buffer = match get_abi_function(&store, &instance, "free_shared_buffer") {
            Ok(function) => function,
            Err(_) => {
                return Err(
                    PluginError::PluginDoesNotExportRequiredFunction(
                        String::from_str("free_shared_buffer"),
                    ),
                );
            },
        };
        let process = match get_abi_function(&store, &instance, "process") {
            Ok(function) => function,
            Err(_) => {
                return Err(
                    PluginError::PluginDoesNotExportRequiredFunction(String::from_str("process")),
                );
            },
        };
        let memory = match get_exported_memory(&instance) {
            Ok(memory) => memory,
            Err(_) => {
                return Err(PluginError::PluginDoesNotExportMemory);
            },
        };
        Ok(Plugin { allocate_shared_buffer, free_shared_buffer, process, store, memory })
    }

    /// Allocate a guest buffer and write the bytes into it.  On a failure
    /// after the allocation the buffer is freed before the error surfaces.
    fn create_shared_buffer(&mut self, data: &Vec<u8>) -> (r: Result<u32, PluginError>)
        requires
            data@.len() <= u32::MAX,
        ensures
            r matches Err(e) ==> (e matches PluginError::RuntimeErrorWhileAllocatingBuffer(_) || e
                matches PluginError::AllocatedBufferCausedMemoryError(_)),
    {
        let address = match call_abi_function(
            &self.allocate_shared_buffer,
            &mut self.store,
            data.len() as u32,
        ) {
            Ok(address) => address,
            Err(rendering) => {
                return Err(PluginError::RuntimeErrorWhileAllocatingBuffer(rendering));
            },
        };
        match write_guest_memory(&self.memory, &self.store, address as u64, data) {
            Ok(_) => Ok(address),
            Err(rendering) => {
                let _ = self.release_shared_buffer(address);
                Err(PluginError::AllocatedBufferCausedMemoryError(rendering))
            },
        }
    }

    /// Free a guest buffer; a trap and a falsy status are distinct errors,
    /// and nothing but those two can come out of this step.
    fn release_shared_buffer(&mut self, address: u32) -> (r: Result<(), PluginError>)
        ensures
            r matches Err(e) ==> (e matches PluginError::RuntimeErrorWhileFreeingBuffer(_) || e
                matches PluginError::FailedToFreeSharedBuffer),
    {
        let status = match call_abi_function(&self.free_shared_buffer, &mut self.store, address) {
            Ok(status) => status,
            Err(rendering) => {
                return Err(PluginError::RuntimeErrorWhileFreeingBuffer(rendering));
            },
        };
        free_status_to_result(status)
    }

    /// Read the result layout at the given guest address: the success flag,
    /// the declared length, and that many payload bytes decoded as UTF-8.
    /// A returned pair is the reading of such a layout; every bounds
    /// violation and invalid UTF-8 is a malformed result.
    fn parse_result_region(&self, address: u32) -> (r: Result<(bool, String), PluginError>)
        ensures
            r matches Ok(p) ==> parsed_from_layout(p.0, p.1@),
            r matches Err(e) ==> e matches PluginError::ProcessReturnedMalformedDatastructure(_),
    {
        let header = match read_guest_memory(&self.memory, &self.store, address as u64, 5) {
            Ok(header) => header,
            Err(rendering) => {
                return Err(PluginError::ProcessReturnedMalformedDatastructure(rendering));
            },
        };
        let (success, declared) = header_fields(&header);
        let payload = match read_guest_memory(
            &self.memory,
            &self.store,
            address as u64 + 5,
            declared,
        ) {
            Ok(payload) => payload,
            Err(rendering) => {
                return Err(PluginError::ProcessReturnedMalformedDatastructure(rendering));
            },
        };
        let ghost payload_bytes = payload@;
        match bytes_to_string(payload) {
            Ok(text) => {
                proof {
                    let h = header@;
                    assert(h.len() == 5);
                    assert(payload_bytes.len() == spec_u32_from_le_bytes(h.subrange(1, 5)) as int);
                    assert(success == (h[0] != 0));
                    assert(valid_utf8(payload_bytes) && text@ == decode_utf8(payload_bytes));
                    assert(parsed_from_layout(success, text@));
                }
                Ok((success, text))
            },
            Err(rendering) => Err(PluginError::ProcessReturnedMalformedDatastructure(rendering)),
        }
    }

    /// Run the guest's `process` on an input buffer, parse the result
    /// buffer, and free it.  The result buffer is freed on the failure
    /// paths too, and a cleanup failure never substitutes for an earlier
    /// error: a parse failure and a guest-reported failure both outrank a
    /// falsy free status.  A returned text is the payload of a
    /// success-flagged layout; a guest error carries the payload of a
    /// failure-flagged one; allocation errors cannot come out of this step.
    fn invoke_process(&mut self, input_address: u32) -> (r: Result<String, PluginError>)
        ensures
            r matches Ok(text) ==> parsed_from_layout(true, text@),
            r matches Err(e) ==> (e matches PluginError::RuntimeErrorWhileProcessingText(_) || e
                matches PluginError::ProcessReturnedMalformedDatastructure(_) || e
                matches PluginError::RuntimeErrorWhileFreeingBuffer(_) || e
                matches PluginError::FailedToFreeSharedBuffer || e
                matches PluginError::GuestError(_)),
            r matches Err(e) ==> (e matches PluginError::GuestError(m) ==> parsed_from_layout(
                false,
                m@,
            )),
    {
        let output_address = match call_abi_function(&self.process, &mut self.store, input_address)
            {
            Ok(address) => address,
            Err(rendering) => {
                return Err(PluginError::RuntimeErrorWhileProcessingText(rendering));
            },
        };
        let parsed = self.parse_result_region(output_address);
        let freed = self.release_shared_buffer(output_address);
        let (success, text) = match parsed {
            Ok(parts) => parts,
            Err(e) => {
                return Err(e);
            },
        };
        if !success {
            // The guest's reported failure is the original error; the
            // outcome of freeing the result buffer never replaces it.
            return interpret_reply(false, text);
        }
        if let Err(e) = freed {
            return Err(e);
        }
        interpret_reply(true, text)
    }


    /// Apply this plugin to a text: marshal the input into a guest buffer,
    /// invoke `process`, parse the result, and free first the result buffer
    /// and then the input buffer — on the failure paths as well.  Every
    /// reported error belongs to the apply phase; a returned text is the
    /// payload of a success-flagged result layout, a guest error carries
    /// the payload of a failure-flagged one, and an input too large for the
    /// guest's 32-bit address space is rejected with the allocation-phase
    /// error before any guest call.
    pub fn apply(&mut self, input: &str) -> (r: Result<String, PluginError>)
        ensures
            r matches Ok(text) ==> parsed_from_layout(true, text@),
            r matches Err(e) ==> apply_error(e),
            r matches Err(e) ==> (e matches PluginError::GuestError(m) ==> parsed_from_layout(
                false,
                m@,
            )),
            encode_utf8(input@).len() > u32::MAX ==> (r matches Err(e) && (e
                matches PluginError::RuntimeErrorWhileAllocatingBuffer(m) && m@
                == "input is larger than the guest's address space"@)),
    {
        let data = input.as_bytes_vec();
        if data.len() > u32::MAX as usize {
            // A 32-bit guest cannot hold such an input buffer.
            return Err(
                PluginError::RuntimeErrorWhileAllocatingBuffer(
                    String::from_str("input is larger than the guest's address space"),
                ),
            );
        }
        let input_address = match self.create_shared_buffer(&data) {
            Ok(address) => address,
            Err(e) => {
                return Err(e);
            },
        };
        let result = self.invoke_process(input_address);
        let freed = self.release_shared_buffer(input_address);
        match result {
            Ok(text) => {
                match freed {
                    Ok(_) => Ok(text),
                    Err(e) => Err(e),
                }
            },
            Err(e) => Err(e),
        }
    }
}

} // verus!
