//! TLS certificate selection during the handshake (SNI): applying what the
//! user's selection callback chose to the handshake.

use vstd::prelude::*;

use crate::error::{ESP_ERR_INVALID_ARG, ESP_OK};
use crate::sequence::{ran_until_failure, run_result, run_steps};

verus! {

/// What the user's selection callback chose for a handshake.
#[derive(Debug, Clone, Copy, PartialEq, Eq, Structural)]
pub struct SelectionShape {
    /// A server certificate and its private key were chosen.
    pub server_certificate: bool,
    /// A certificate authority chain and revocation list were chosen.
    pub certificate_authority: bool,
    /// A peer verification mode was chosen.
    pub verify_mode: Option<i32>,
}

/// One native call that applies a selection.
#[derive(Debug, Clone, Copy, PartialEq, Eq, Structural)]
pub enum HandshakeStep {
    /// Check that the certificate and the private key belong together.
    CheckPair,
    /// Set the certificate and key for the handshake.
    SetOwnCert,
    /// Set the CA chain for the handshake.
    SetCaChain,
    /// Set the verification mode for the handshake.
    SetAuthmode(i32),
}

/// The calls that apply a selection, in order: when a certificate was
/// chosen, checking that it and the key belong together and setting them;
/// then setting the CA chain and the verification mode, when chosen.
pub open spec fn handshake_steps(sel: SelectionShape) -> Seq<HandshakeStep> {
    (if sel.server_certificate { seq![HandshakeStep::CheckPair, HandshakeStep::SetOwnCert] } else { Seq::empty() })
        + (if sel.certificate_authority { seq![HandshakeStep::SetCaChain] } else { Seq::empty() })
        + match sel.verify_mode {
        Some(m) => seq![HandshakeStep::SetAuthmode(m)],
        None => Seq::empty(),
    }
}

/// Applies a selection: runs `handshake_steps(sel)` through `run`, in
/// order, and stops at the first that fails, whose status is returned;
/// returns `ESP_OK` when all succeed. (The calls that set the CA chain and
/// the verification mode cannot fail: `run` reports `ESP_OK` for them.)
pub fn apply_selection<F: Fn(HandshakeStep) -> i32>(sel: SelectionShape, run: &F) -> (rc: i32)
    requires
        forall|s: HandshakeStep| call_requires(*run, (s,)),
    ensures
        exists|codes: Seq<i32>| #[trigger] ran_until_failure(handshake_steps(sel), codes, *run)
            && rc == match run_result(handshake_steps(sel).len(), codes) {
                Ok(()) => ESP_OK,
                Err(c) => c,
            },
{
    let mut steps: Vec<HandshakeStep> = Vec::new();
    if sel.server_certificate {
        steps.push(HandshakeStep::CheckPair);
        steps.push(HandshakeStep::SetOwnCert);
    }
    if sel.certificate_authority {
        steps.push(HandshakeStep::SetCaChain);
    }
    match sel.verify_mode {
        Some(m) => steps.push(HandshakeStep::SetAuthmode(m)),
        None => {},
    }
    assert(steps@ =~= handshake_steps(sel));
    match run_steps(&steps, run) {
        Ok(()) => ESP_OK,
        Err(e) => e.code(),
    }
}

/// The status of a certificate-selection hook before the callback runs:
/// `ESP_ERR_INVALID_ARG` when the TLS configuration or the callback is
/// missing, else `None` (the callback runs).
pub fn cert_select_precheck(has_conf: bool, has_callback: bool) -> (r: Option<i32>)
    ensures
        (!has_conf || !has_callback) ==> r == Some(ESP_ERR_INVALID_ARG),
        (has_conf && has_callback) ==> r is None,
{
    if !has_conf || !has_callback {
        Some(ESP_ERR_INVALID_ARG)
    } else {
        None
    }
}

} // verus!
