//! Reading what the probes of the host report.

use crate::descriptor::DependencyDescriptor;
use crate::process::{OutcomeView, ProcessOutcome};
use crate::text::{contains_bytes, find_bytes};
use vstd::prelude::*;
use vstd::utf8::encode_utf8;

verus! {

/// What a probe says of the runtime.
#[derive(Clone, Copy, Debug, PartialEq, Eq, Structural)]
pub enum DependencyState {
    /// The runtime could not be started.
    Absent,
    /// A runtime answered, but not the pinned build.
    PresentWrongVersion,
    /// The pinned build answered.
    PresentOk,
}

/// What a probe says of the payload.
#[derive(Clone, Copy, Debug, PartialEq, Eq, Structural)]
pub enum PayloadState {
    Absent,
    Present,
}

/// `output` holds the UTF-8 bytes of `token`, one after the other.
pub open spec fn mentions(output: Seq<u8>, token: Seq<char>) -> bool {
    contains_bytes(output, encode_utf8(token))
}

/// The state of the runtime, given the version that is pinned and how the
/// version query ended: absent where the query could not be started;
/// otherwise present, and in order exactly where the captured output
/// mentions the pinned version or none is pinned.
pub open spec fn dependency_state(
    required_version: Option<Seq<char>>,
    outcome: OutcomeView,
) -> DependencyState {
    match outcome {
        OutcomeView::SpawnFailed { .. } => DependencyState::Absent,
        OutcomeView::Exited { stdout, .. } => match required_version {
            None => DependencyState::PresentOk,
            Some(version) => if mentions(stdout, version) {
                DependencyState::PresentOk
            } else {
                DependencyState::PresentWrongVersion
            },
        },
    }
}

/// The state of the payload, given whether its file exists.
pub open spec fn payload_state(exists: bool) -> PayloadState {
    if exists {
        PayloadState::Present
    } else {
        PayloadState::Absent
    }
}

impl DependencyState {
    /// The runtime has to be installed before anything else is done: a wrong
    /// version counts as no runtime at all.
    pub open spec fn needs_install(self) -> bool {
        self != DependencyState::PresentOk
    }
}

/// Reads the outcome of the version query of `descriptor`'s runtime.
pub fn probe_dependency(descriptor: &DependencyDescriptor, outcome: &ProcessOutcome) -> (state:
    DependencyState)
    ensures
        state == dependency_state(descriptor@.required_version, outcome@),
        outcome@ is SpawnFailed ==> state == DependencyState::Absent,
        outcome@ is Exited ==> state != DependencyState::Absent,
{
    match outcome {
        ProcessOutcome::SpawnFailed { .. } => DependencyState::Absent,
        ProcessOutcome::Exited { stdout, .. } => match descriptor.required_version() {
            None => DependencyState::PresentOk,
            Some(version) => {
                let token = version.as_bytes();
                match find_bytes(stdout.as_slice(), token) {
                    Some(_) => DependencyState::PresentOk,
                    None => DependencyState::PresentWrongVersion,
                }
            },
        },
    }
}

/// Reads the outcome of looking for the payload's file.
pub fn probe_payload(exists: bool) -> (state: PayloadState)
    ensures
        state == payload_state(exists),
{
    if exists {
        PayloadState::Present
    } else {
        PayloadState::Absent
    }
}

} // verus!
