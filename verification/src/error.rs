//! Typed failure values.
//!
//! Every wrapped native operation fails with its own tag, so a caller can
//! tell exactly which entry point reported failure; there is no shared
//! generic tag and no automatic query of the native side-channel error code.

use vstd::prelude::*;

verus! {

/// One tag per wrapped native entry point.
#[derive(Copy, Clone, Debug, PartialEq, Eq, Structural)]
pub enum EglCallError {
    GetConfigs,
    GetCurrentContext,
    GetCurrentDisplay,
    GetDisplay,
    GetCurrentSurface,
    GetConfigAttrib,
    DestroySurface,
    Initialize,
    MakeCurrent,
    DestroyContext,
    CreateWindowSurface,
    CreatePlatformWindowSurface,
    CreatePixmapSurface,
    CreatePbufferSurface,
    CreatePbufferFromClientBuffer,
    CreateContext,
    CopyBuffers,
    ChooseConfig,
    BindTexImage,
    BindAPI,
    Terminate,
    WaitClient,
    WaitGL,
    WaitNative,
    SwapInterval,
    SwapBuffers,
    SurfaceAttrib,
    ReleaseThread,
    ReleaseTexImage,
    QuerySurface,
    QueryString,
    QueryContext,
}

/// Result of a single wrapped native call.
pub type EglCallResult<T> = core::result::Result<T, EglCallError>;

/// Failure of a library operation: either a named native call reported
/// failure, or a native string result was not valid text.
#[derive(Copy, Clone, Debug, PartialEq, Eq, Structural)]
pub enum Error {
    Egl(EglCallError),
    NonUtf8StringReceived,
}

impl Error {
    /// Whether this failure came from the named native call.
    pub fn is_egl_call(self, call: EglCallError) -> (r: bool)
        ensures
            r == (self == Error::Egl(call)),
    {
        match self {
            Error::Egl(c) => c == call,
            Error::NonUtf8StringReceived => false,
        }
    }
}

/// Interprets the boolean outcome of one named native call: success maps
/// to the unit value; failure maps to that call's own tag and never
/// another.
pub fn check_native_flag(ok: bool, call: EglCallError) -> (r: Result<(), Error>)
    ensures
        r is Ok <==> ok,
        r matches Err(e) ==> e == Error::Egl(call),
{
    if ok {
        Ok(())
    } else {
        Err(Error::Egl(call))
    }
}

/// Interprets the handle outcome of one named native call: a nonzero
/// handle maps to itself; the null handle maps to that call's own tag and
/// never another.
pub fn check_native_handle(handle: usize, call: EglCallError) -> (r: Result<usize, Error>)
    ensures
        r is Ok <==> handle != 0,
        r matches Ok(h) ==> h == handle,
        r matches Err(e) ==> e == Error::Egl(call),
{
    if handle != 0 {
        Ok(handle)
    } else {
        Err(Error::Egl(call))
    }
}

/// Interprets the byte-string outcome of one named native query: reported
/// bytes are handed on unchanged; a null return maps to that call's own
/// tag and never another.
pub fn check_native_string(reported: Option<Vec<u8>>, call: EglCallError) -> (r: Result<
    Vec<u8>,
    Error,
>)
    ensures
        r is Ok <==> reported is Some,
        r matches Ok(b) ==> reported == Some(b),
        r matches Err(e) ==> e == Error::Egl(call),
{
    match reported {
        Some(bytes) => Ok(bytes),
        None => Err(Error::Egl(call)),
    }
}

/// Interprets the boolean outcome of one native call at the typed call
/// layer: success maps to the unit value; failure maps to that call's own
/// tag and never another.
pub fn check_call_flag(ok: bool, call: EglCallError) -> (r: EglCallResult<()>)
    ensures
        r is Ok <==> ok,
        r matches Err(e) ==> e == call,
{
    if ok {
        Ok(())
    } else {
        Err(call)
    }
}

/// Interprets the handle outcome of one native call at the typed call
/// layer: a nonzero handle maps to itself; the null handle maps to that
/// call's own tag and never another.
pub fn check_call_handle(handle: usize, call: EglCallError) -> (r: EglCallResult<usize>)
    ensures
        r is Ok <==> handle != 0,
        r matches Ok(h) ==> h == handle,
        r matches Err(e) ==> e == call,
{
    if handle != 0 {
        Ok(handle)
    } else {
        Err(call)
    }
}

impl From<EglCallError> for Error {
    fn from(other: EglCallError) -> (r: Error) {
        Error::Egl(other)
    }
}

impl vstd::std_specs::convert::FromSpecImpl<EglCallError> for Error {
    open spec fn obeys_from_spec() -> bool {
        true
    }

    open spec fn from_spec(other: EglCallError) -> Error {
        Error::Egl(other)
    }
}

} // verus!
