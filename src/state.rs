//! The state extension: the host side's callback, and what a plugin's load
//! or save call means for the host.
use vstd::prelude::*;

verus! {

/// The host's side of the state extension, implemented on its main-thread
/// data: the plugin reports that its state changed since it was last saved.
pub trait HostStateImplementation {
    fn mark_dirty(&mut self);
}

/// The error of a state load or save; `saving` tells which one failed.
#[derive(Clone, Copy, Debug, PartialEq, Eq, Structural)]
pub struct StateError {
    pub saving: bool,
}

/// The result of a plugin's load (`saving` false) or save (`saving` true)
/// call: `outcome` is `None` when the plugin has no such entry point, else
/// what the call returned. Only a call that returned `true` succeeds.
pub fn state_call_result(saving: bool, outcome: Option<bool>) -> (r: Result<(), StateError>)
    ensures
        r is Ok <==> outcome == Some(true),
        r matches Err(e) ==> e == (StateError { saving }),
{
    match outcome {
        Some(true) => Ok(()),
        _ => Err(StateError { saving }),
    }
}

} // verus!
