//! ModeDispatcher: decides which long-running execution mode to enter from
//! the build's compiled-in capability flags and the resolved options record.
//!
//! The precedence order is load-bearing and must not be rearranged: server
//! mode is the explicit opt-in path guarded by a runtime flag, but a build
//! compiled without client capability must unconditionally behave as a
//! server regardless of that flag. The actual loops are external
//! collaborators; this core only picks one and the hosting binary enters it.

use vstd::prelude::*;

use crate::parser::Args;

verus! {

/// Compile-time facts about which execution modes this build supports.
/// Immutable at runtime: the hosting binary resolves them once at startup.
#[derive(Clone, Copy, Debug, PartialEq, Eq, Structural)]
pub struct CapabilityFlags {
    /// The build includes the interactive/client loop.
    pub client: bool,
    /// The build includes the headless/server loop.
    pub server: bool,
}

/// The dispatcher's terminal outcome: which collaborator loop to enter, or
/// a fatal startup error for a build with no usable execution mode.
#[derive(Clone, Copy, Debug, PartialEq, Eq, Structural)]
pub enum ModeDecision {
    /// Enter the interactive/client loop.
    ClientLoop,
    /// Enter the headless/server loop.
    ServerLoop,
    /// Misconfigured build: no execution mode is compiled in. Fatal.
    FatalNoMode,
}

/// The dispatch rule, in its exact precedence order: a build with neither
/// capability is fatal; then a server-capable build enters the server loop
/// when it lacks client capability or the server flag was given; then a
/// client-capable build enters the client loop; anything else is fatal.
pub open spec fn spec_dispatch(caps: CapabilityFlags, options: Args) -> ModeDecision {
    if !caps.client && !caps.server {
        ModeDecision::FatalNoMode
    } else if caps.server && (!caps.client || options.server) {
        ModeDecision::ServerLoop
    } else if caps.client {
        ModeDecision::ClientLoop
    } else {
        ModeDecision::FatalNoMode
    }
}

/// Decide which long-running loop to enter for this build and these options.
pub fn dispatch_mode(caps: CapabilityFlags, options: Args) -> (r: ModeDecision)
    ensures
        r == spec_dispatch(caps, options),
{
    if !caps.client && !caps.server {
        ModeDecision::FatalNoMode
    } else if caps.server && (!caps.client || options.server) {
        ModeDecision::ServerLoop
    } else if caps.client {
        ModeDecision::ClientLoop
    } else {
        ModeDecision::FatalNoMode
    }
}

/// Law: a decision to run a loop is only ever made for a build that has that
/// loop compiled in, and a build with at least one capability never ends in
/// the fatal outcome.
pub proof fn lemma_dispatch_respects_capabilities(caps: CapabilityFlags, options: Args)
    ensures
        spec_dispatch(caps, options) is ClientLoop ==> caps.client,
        spec_dispatch(caps, options) is ServerLoop ==> caps.server,
        spec_dispatch(caps, options) is FatalNoMode <==> !caps.client && !caps.server,
{
}

} // verus!
