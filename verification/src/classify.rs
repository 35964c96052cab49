//! Failure classifier for exited transfers.
//!
//! A transfer that exits non-zero is usually a transient failure, handled by
//! the retry budget. One case is terminal: the secure-shell transport
//! reserves exit code 255 for connection/protocol errors, and when on top of
//! that a lookup of the source host in the local known-hosts store exits
//! with code 1 ("not found"), retrying cannot help until an operator adds
//! the host key. That combination is classified as `UnknownHostKey`.

use vstd::prelude::*;

verus! {

/// Exit code with which the transfer tool reports a connection/protocol
/// error of its secure-shell transport.
pub const SSH_ERROR_CODE: i32 = 255;

/// Exit code with which the host-key lookup tool reports that no
/// fingerprint for the host was found.
pub const HOST_KEY_NOT_FOUND_CODE: i32 = 1;

/// What the classifier decides about a failed transfer.
#[derive(Clone, Copy, Debug, PartialEq, Eq, Structural)]
pub enum FailureClass {
    /// Terminal: the source host's key is not in the known-hosts store.
    UnknownHostKey,
    /// Anything else: eligible for retry.
    Transient,
}

/// A host-key lookup is warranted exactly when the transfer exited with the
/// reserved secure-shell error code.
pub open spec fn spec_needs_host_key_check(exit_code: Option<i32>) -> bool {
    exit_code == Some(SSH_ERROR_CODE)
}

/// The classification: terminal `UnknownHostKey` exactly when the transfer
/// exited with the reserved secure-shell error code and the host-key lookup
/// ran and exited with the "not found" code; transient in every other case,
/// including when the lookup could not be run or returned anything else.
pub open spec fn spec_classify(exit_code: Option<i32>, host_key_lookup: Option<i32>) -> FailureClass {
    if exit_code == Some(SSH_ERROR_CODE) && host_key_lookup == Some(HOST_KEY_NOT_FOUND_CODE) {
        FailureClass::UnknownHostKey
    } else {
        FailureClass::Transient
    }
}

/// Decides whether a failed transfer's exit code calls for the secondary,
/// synchronous host-key lookup before classification.
pub fn needs_host_key_check(exit_code: Option<i32>) -> (r: bool)
    ensures
        r == spec_needs_host_key_check(exit_code),
{
    match exit_code {
        Some(code) => code == SSH_ERROR_CODE,
        None => false,
    }
}

/// Classifies a failed transfer. `exit_code` is the transfer process's exit
/// code, if it exited with one; `host_key_lookup` is the exit code of the
/// host-key lookup, if that lookup was run and exited with a code.
pub fn classify_failure(exit_code: Option<i32>, host_key_lookup: Option<i32>) -> (r: FailureClass)
    ensures
        r == spec_classify(exit_code, host_key_lookup),
{
    if needs_host_key_check(exit_code) {
        match host_key_lookup {
            Some(code) if code == HOST_KEY_NOT_FOUND_CODE => FailureClass::UnknownHostKey,
            _ => FailureClass::Transient,
        }
    } else {
        FailureClass::Transient
    }
}

} // verus!
