use vstd::prelude::*;

use std::str::Utf8Error;

use crate::library_path::LibraryPath;

verus! {

/// `libloading::Error`, carried as the source of a loader failure.
#[verifier::external_type_specification]
#[verifier::external_body]
pub struct ExLibloadingError(libloading::Error);

/// `serde_json::Error`, carried as the source of a malformed response.
#[verifier::external_type_specification]
#[verifier::external_body]
pub struct ExSerdeJsonError(serde_json::Error);

/// `std::str::Utf8Error`, carried as the source of a response that is not UTF-8.
#[verifier::external_type_specification]
#[verifier::external_body]
pub struct ExUtf8Error(Utf8Error);

/// Errors raised at the dynamic-library and TDLib JSON trust boundaries.
#[derive(Debug)]
pub enum TdJsonError {
    /// The caller supplied a relative library path.
    RelativeLibraryPath { path: LibraryPath },
    /// The operating-system loader rejected the shared library.
    LoadLibrary { path: LibraryPath, source: libloading::Error },
    /// Another owner currently holds the process-global JSON interface.
    OwnerAlreadyActive,
    /// The process was already permanently bound to a different TDLib library path.
    LibraryPathMismatch { loaded_path: LibraryPath, requested_path: LibraryPath },
    /// The library does not expose one of the required JSON ABI functions.
    MissingSymbol { symbol: &'static str, source: libloading::Error },
    /// A JSON request contains an interior NUL byte (the first one at `nul_position`)
    /// and cannot be passed to C; `bytes` is the whole request.
    RequestContainsNul { nul_position: usize, bytes: Vec<u8> },
    /// This owner has already installed TDLib's process-global log callback.
    LogCallbackAlreadyInstalled,
    /// `td_execute` unexpectedly returned a null pointer.
    NullExecuteResponse,
    /// A synchronous TDLib response was not UTF-8.
    InvalidUtf8(Utf8Error),
    /// A synchronous TDLib response was not valid JSON.
    InvalidJson(serde_json::Error),
    /// `getOption` did not return the documented string variant.
    InvalidOptionResponse { option: &'static str },
}

} // verus!
