//! The error taxonomy of the host: every host- or guest-originated failure,
//! classified by phase, with its rendering pinned down.

use vstd::prelude::*;

verus! {

/// Everything that can go wrong while loading a plugin or applying it to a
/// text.
#[derive(Debug)]
pub enum PluginError {
    /// The specifier resolved to nothing readable; carries the not-found
    /// message.
    FailedToLoadModule(String),
    /// The bytecode was rejected by the virtual machine.
    CompileError(String),
    /// Instantiation trapped or left imports unsatisfied.
    InstantiationError(String),
    /// One of the three required exported functions is absent; carries its
    /// name.
    PluginDoesNotExportRequiredFunction(String),
    /// The module exports no linear memory named `memory`.
    PluginDoesNotExportMemory,
    /// The guest trapped inside `allocate_shared_buffer`.
    RuntimeErrorWhileAllocatingBuffer(String),
    /// The guest trapped inside `free_shared_buffer`.
    RuntimeErrorWhileFreeingBuffer(String),
    /// The guest trapped inside `process`.
    RuntimeErrorWhileProcessingText(String),
    /// `process` reported failure; carries the guest's message.
    GuestError(String),
    /// `free_shared_buffer` returned a falsy status.
    FailedToFreeSharedBuffer,
    /// The result buffer violated the layout: a read out of bounds or
    /// invalid UTF-8.
    ProcessReturnedMalformedDatastructure(String),
    /// Writing the input into the freshly allocated region left the memory
    /// bounds.
    AllocatedBufferCausedMemoryError(String),
}

/// The rendering of each error.
pub open spec fn plugin_error_message(e: PluginError) -> Seq<char> {
    match e {
        PluginError::FailedToLoadModule(m) => "failed to load plugin: "@ + m@,
        PluginError::CompileError(m) => "failed to compile plugin: "@ + m@,
        PluginError::InstantiationError(m) => "failed to instantiate plugin: "@ + m@,
        PluginError::PluginDoesNotExportRequiredFunction(name) => {
            "plugin does not export required function \""@ + name@ + "\""@
        },
        PluginError::PluginDoesNotExportMemory => "plugin does not export memory"@,
        PluginError::RuntimeErrorWhileAllocatingBuffer(m) => {
            "runtime error while allocating buffer: "@ + m@
        },
        PluginError::RuntimeErrorWhileFreeingBuffer(m) => {
            "runtime error while freeing buffer: "@ + m@
        },
        PluginError::RuntimeErrorWhileProcessingText(m) => {
            "runtime error while processing text: "@ + m@
        },
        PluginError::GuestError(m) => "guest error: "@ + m@,
        PluginError::FailedToFreeSharedBuffer => "failed to free shared buffer"@,
        PluginError::ProcessReturnedMalformedDatastructure(m) => {
            "process returned malformed datastructure: "@ + m@
        },
        PluginError::AllocatedBufferCausedMemoryError(m) => {
            "allocated buffer caused memory error: "@ + m@
        },
    }
}

impl PluginError {
    /// Render the error for the user.
    pub fn message(&self) -> (r: String)
        ensures
            r@ == plugin_error_message(*self),
    {
        match self {
            PluginError::FailedToLoadModule(m) => String::from_str(
                "failed to load plugin: ",
            ).concat(m.as_str()),
            PluginError::CompileError(m) => String::from_str("failed to compile plugin: ").concat(
                m.as_str(),
            ),
            PluginError::InstantiationError(m) => String::from_str(
                "failed to instantiate plugin: ",
            ).concat(m.as_str()),
            PluginError::PluginDoesNotExportRequiredFunction(name) => String::from_str(
                "plugin does not export required function \"",
            ).concat(name.as_str()).concat("\""),
            PluginError::PluginDoesNotExportMemory => String::from_str(
                "plugin does not export memory",
            ),
            PluginError::RuntimeErrorWhileAllocatingBuffer(m) => String::from_str(
                "runtime error while allocating buffer: ",
            ).concat(m.as_str()),
            PluginError::RuntimeErrorWhileFreeingBuffer(m) => String::from_str(
                "runtime error while freeing buffer: ",
            ).concat(m.as_str()),
            PluginError::RuntimeErrorWhileProcessingText(m) => String::from_str(
                "runtime error while processing text: ",
            ).concat(m.as_str()),
            PluginError::GuestError(m) => String::from_str("guest error: ").concat(m.as_str()),
            PluginError::FailedToFreeSharedBuffer => String::from_str(
                "failed to free shared buffer",
            ),
            PluginError::ProcessReturnedMalformedDatastructure(m) => String::from_str(
                "process returned malformed datastructure: ",
            ).concat(m.as_str()),
            PluginError::AllocatedBufferCausedMemoryError(m) => String::from_str(
                "allocated buffer caused memory error: ",
            ).concat(m.as_str()),
        }
    }
}

} // verus!
