//! Status codes of the publication surface and the rules that pick them.

use vstd::prelude::*;

verus! {

/// The call succeeded.
pub const SUCCESS: i32 = 0;

/// A pointer was null.
pub const NULL_POINTER: i32 = -1;

/// The ring was full, or a plugin could not be loaded.
pub const BUFFER_FULL: i32 = -2;

/// A panic was caught at the boundary.
pub const PANIC: i32 = -3;

/// The payload could not be converted.
pub const FFI_ERROR: i32 = -4;

/// The engine could not be set up.
pub const INIT_FAILED: i32 = -5;

/// How far a publication got.
#[derive(Debug, Clone, Copy, PartialEq, Eq, Structural)]
pub enum PublishOutcome {
    /// One of the pointers was null; nothing was read.
    NullPointer,
    /// The payload did not follow the expected layout.
    ConversionFailed,
    /// The ring refused the event.
    BufferFull,
    /// The event is in the ring.
    Published,
    /// The call panicked and the panic was caught.
    Panicked,
}

/// The status code of a publication.
pub open spec fn spec_publish_status(outcome: PublishOutcome) -> i32 {
    match outcome {
        PublishOutcome::NullPointer => NULL_POINTER,
        PublishOutcome::ConversionFailed => FFI_ERROR,
        PublishOutcome::BufferFull => BUFFER_FULL,
        PublishOutcome::Published => SUCCESS,
        PublishOutcome::Panicked => PANIC,
    }
}

/// The status code of a publication.
pub fn publish_status(outcome: PublishOutcome) -> (code: i32)
    ensures
        code == spec_publish_status(outcome),
        code == SUCCESS <==> outcome == PublishOutcome::Published,
{
    match outcome {
        PublishOutcome::NullPointer => NULL_POINTER,
        PublishOutcome::ConversionFailed => FFI_ERROR,
        PublishOutcome::BufferFull => BUFFER_FULL,
        PublishOutcome::Published => SUCCESS,
        PublishOutcome::Panicked => PANIC,
    }
}

/// How far a publication got, from what the boundary saw: null pointers
/// come first, then a failed conversion, then the ring's answer.
pub fn publish_outcome(any_null: bool, converted: bool, pushed: bool) -> (outcome: PublishOutcome)
    ensures
        outcome == if any_null {
            PublishOutcome::NullPointer
        } else if !converted {
            PublishOutcome::ConversionFailed
        } else if !pushed {
            PublishOutcome::BufferFull
        } else {
            PublishOutcome::Published
        },
{
    if any_null {
        PublishOutcome::NullPointer
    } else if !converted {
        PublishOutcome::ConversionFailed
    } else if !pushed {
        PublishOutcome::BufferFull
    } else {
        PublishOutcome::Published
    }
}

/// The status code of a plugin load: a null pointer, a refused load, which
/// shares its code with a full ring, or success.
pub fn load_plugin_status(any_null: bool, loaded: bool) -> (code: i32)
    ensures
        code == if any_null {
            NULL_POINTER
        } else if loaded {
            SUCCESS
        } else {
            BUFFER_FULL
        },
{
    if any_null {
        NULL_POINTER
    } else if loaded {
        SUCCESS
    } else {
        BUFFER_FULL
    }
}

} // verus!
