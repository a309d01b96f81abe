use vstd::prelude::*;

use crate::error::TdJsonError;

verus! {

/// The state of one owner of the JSON interface: whether it has installed TDLib's
/// process-global log callback.
pub struct OwnerState {
    log_callback_installed: bool,
}

impl View for OwnerState {
    /// Whether the log callback is installed.
    type V = bool;

    closed spec fn view(&self) -> bool {
        self.log_callback_installed
    }
}

impl OwnerState {
    /// A fresh owner, with no log callback installed.
    pub fn new() -> (owner: Self)
        ensures
            !owner@,
    {
        OwnerState { log_callback_installed: false }
    }

    /// Whether this owner has installed the log callback.
    pub fn log_callback_installed(&self) -> (installed: bool)
        ensures
            installed == self@,
    {
        self.log_callback_installed
    }

    /// Claims the process-global log callback for this owner: refused when it is already
    /// installed, else recorded as installed.
    pub fn claim_log_callback(&mut self) -> (claimed: Result<(), TdJsonError>)
        ensures
            old(self)@ ==> claimed matches Err(TdJsonError::LogCallbackAlreadyInstalled),
            !old(self)@ ==> claimed is Ok,
            final(self)@,
    {
        if self.log_callback_installed {
            return Err(TdJsonError::LogCallbackAlreadyInstalled);
        }
        self.log_callback_installed = true;
        Ok(())
    }

    /// Ends this owner: tells whether the log callback has to be removed, and records
    /// that it is not installed any more.
    pub fn release(&mut self) -> (remove_callback: bool)
        ensures
            remove_callback == old(self)@,
            !final(self)@,
    {
        let remove_callback = self.log_callback_installed;
        self.log_callback_installed = false;
        remove_callback
    }
}

/// Whether `bytes` holds no NUL byte.
pub open spec fn has_no_nul(bytes: Seq<u8>) -> bool {
    forall|i: int| 0 <= i < bytes.len() ==> bytes[i] != 0u8
}

/// Whether `position` is the first NUL byte of `bytes`.
pub open spec fn is_first_nul(bytes: Seq<u8>, position: int) -> bool {
    &&& 0 <= position < bytes.len()
    &&& bytes[position] == 0u8
    &&& forall|i: int| 0 <= i < position ==> bytes[i] != 0u8
}

/// Checks that a serialized request can be handed to C as a NUL-terminated string: it
/// must hold no NUL byte, else the error gives the first one and the whole request.
pub fn check_request(request: &[u8]) -> (checked: Result<(), TdJsonError>)
    ensures
        checked is Ok <==> has_no_nul(request@),
        checked matches Err(e) ==> e matches TdJsonError::RequestContainsNul { nul_position, bytes }
            && is_first_nul(request@, nul_position as int) && bytes@ == request@,
{
    let mut i: usize = 0;
    while i < request.len()
        invariant
            0 <= i <= request@.len(),
            forall|j: int| 0 <= j < i ==> request@[j] != 0u8,
        decreases request@.len() - i,
    {
        if request[i] == 0u8 {
            return Err(TdJsonError::RequestContainsNul { nul_position: i, bytes: vstd::slice::slice_to_vec(request) });
        }
        i = i + 1;
    }
    Ok(())
}

/// The answer to a synchronous request, from the copied response of `td_execute`: its
/// bytes, or `NullExecuteResponse` when TDLib returned a null pointer.
pub fn execute_response(response: Option<Vec<u8>>) -> (answer: Result<Vec<u8>, TdJsonError>)
    ensures
        match response {
            Some(bytes) => answer matches Ok(b) && b == bytes,
            None => answer matches Err(TdJsonError::NullExecuteResponse),
        },
{
    match response {
        Some(bytes) => Ok(bytes),
        None => Err(TdJsonError::NullExecuteResponse),
    }
}

} // verus!
