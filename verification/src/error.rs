//! Status codes and the crate's error type.
//!
//! Every native entry point answers with a 32-bit status: zero for success,
//! nonzero (usually negative) for a vendor-defined failure.  The crate does
//! not decode failure codes beyond carrying them; the two locally detected
//! failures of the marshalling layer get variants of their own.

use vstd::prelude::*;

verus! {

/// What a toolbox operation can fail with.
#[derive(Clone, Copy, Debug, PartialEq, Eq, Structural)]
pub enum Error {
    /// The engine answered a nonzero status code, carried undecoded.
    Engine(i32),
    /// A typed property accessor expected one size and the engine reported
    /// another.
    SizeMismatch { expected: u32, reported: u32 },
    /// The engine rejected a listener registration or removal, e.g. for a
    /// context token it was never handed.
    RegistrationConflict,
}

impl Error {
    /// The status code behind the error: the engine's own code, or zero for
    /// the locally detected failures, which no engine status stands behind.
    pub fn status(&self) -> (r: i32)
        ensures
            r == (match *self {
                Error::Engine(code) => code,
                _ => 0,
            }),
    {
        match *self {
            Error::Engine(code) => code,
            _ => 0,
        }
    }
}

/// Converts an engine status into a result: zero becomes `Ok`, anything else
/// is carried as [`Error::Engine`].
pub fn cvt_r(ret: i32) -> (r: Result<(), Error>)
    ensures
        r == (if ret == 0 {
            Result::<(), Error>::Ok(())
        } else {
            Result::<(), Error>::Err(Error::Engine(ret))
        }),
{
    if ret == 0 {
        Ok(())
    } else {
        Err(Error::Engine(ret))
    }
}

/// The engine's general parameter error, answered e.g. for a stale or null
/// component handle.
pub const kAudio_ParamError: i32 = -50;

pub const kAudioUnitErr_InvalidProperty: i32 = -10879;

pub const kAudioUnitErr_InvalidParameter: i32 = -10878;

pub const kAudioUnitErr_InvalidElement: i32 = -10877;

pub const kAudioUnitErr_NoConnection: i32 = -10876;

pub const kAudioUnitErr_FailedInitialization: i32 = -10875;

pub const kAudioUnitErr_TooManyFramesToProcess: i32 = -10874;

pub const kAudioUnitErr_InvalidFile: i32 = -10871;

pub const kAudioUnitErr_UnknownFileType: i32 = -10870;

pub const kAudioUnitErr_FileNotSpecified: i32 = -10869;

pub const kAudioUnitErr_FormatNotSupported: i32 = -10868;

pub const kAudioUnitErr_Uninitialized: i32 = -10867;

pub const kAudioUnitErr_InvalidScope: i32 = -10866;

pub const kAudioUnitErr_PropertyNotWritable: i32 = -10865;

pub const kAudioUnitErr_CannotDoInCurrentContext: i32 = -10863;

pub const kAudioUnitErr_InvalidPropertyValue: i32 = -10851;

pub const kAudioUnitErr_PropertyNotInUse: i32 = -10850;

pub const kAudioUnitErr_Initialized: i32 = -10849;

pub const kAudioUnitErr_InvalidOfflineRender: i32 = -10848;

pub const kAudioUnitErr_Unauthorized: i32 = -10847;

pub const kAudioUnitErr_MIDIOutputBufferFull: i32 = -66753;

pub const kAudioComponentErr_InstanceInvalidated: i32 = -66749;

pub const kAudioUnitErr_RenderTimeout: i32 = -66745;

pub const kAudioUnitErr_ExtensionNotFound: i32 = -66744;

} // verus!
