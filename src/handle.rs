use vstd::prelude::*;

verus! {

/// Shortest byte buffer that can hold a module header. Anything shorter is
/// refused before the engine ever sees it.
pub const MIN_MODULE_DATA_LEN: usize = 60;

/// Status code of the engine's constructor on success.
pub const STATUS_OK: libc::c_int = 0;

/// Status code of the engine's constructor for structurally invalid data.
pub const STATUS_MODULE_DATA_NOT_SANE: libc::c_int = 1;

/// Status code of the engine's constructor when it ran out of memory.
pub const STATUS_MEMORY_ALLOCATION_FAILED: libc::c_int = 2;

/// Why a playback context could not be created.
#[derive(Clone, Copy, Debug, PartialEq, Eq, Structural)]
pub enum CreateError {
    /// A status code of the engine outside the recognised set, kept as it came.
    Unknown(libc::c_int),
    /// The data is too short, or the engine found it structurally invalid.
    ModuleDataNotSane,
    /// The engine could not allocate the context.
    MemoryAllocationFailed,
}

/// Whether a buffer of `len` bytes is long enough to be handed to the engine.
pub open spec fn plausible_module_len(len: nat) -> bool {
    len >= MIN_MODULE_DATA_LEN
}

/// What construction yields for an engine status code.
pub open spec fn create_outcome_of(status: libc::c_int) -> Result<(), CreateError> {
    if status == STATUS_OK {
        Ok(())
    } else if status == STATUS_MODULE_DATA_NOT_SANE {
        Err(CreateError::ModuleDataNotSane)
    } else if status == STATUS_MEMORY_ALLOCATION_FAILED {
        Err(CreateError::MemoryAllocationFailed)
    } else {
        Err(CreateError::Unknown(status))
    }
}

/// First step of construction, taken before any call into the engine:
/// `Ok(())` means the data may be handed to the engine's constructor, an
/// error means construction has failed and the engine must not be called.
pub fn check_module_data(mod_data: &[u8]) -> (r: Result<(), CreateError>)
    ensures
        r is Ok <==> plausible_module_len(mod_data@.len()),
        !plausible_module_len(mod_data@.len()) ==> r == Err::<(), CreateError>(
            CreateError::ModuleDataNotSane,
        ),
{
    if mod_data.len() < MIN_MODULE_DATA_LEN {
        Err(CreateError::ModuleDataNotSane)
    } else {
        Ok(())
    }
}

/// Second step of construction: maps the engine constructor's status code to
/// the outcome. `Ok(())` means the engine handed back a live context.
pub fn create_outcome(status: libc::c_int) -> (r: Result<(), CreateError>)
    ensures
        r == create_outcome_of(status),
{
    if status == STATUS_OK {
        Ok(())
    } else if status == STATUS_MODULE_DATA_NOT_SANE {
        Err(CreateError::ModuleDataNotSane)
    } else if status == STATUS_MEMORY_ALLOCATION_FAILED {
        Err(CreateError::MemoryAllocationFailed)
    } else {
        Err(CreateError::Unknown(status))
    }
}

/// Number of stereo frames held by an interleaved output buffer of `len`
/// samples. The engine advances by exactly this many frames per call.
pub fn stereo_frame_count(len: usize) -> (frames: usize)
    requires
        len % 2 == 0,
    ensures
        2 * frames == len,
{
    len / 2
}

} // verus!
