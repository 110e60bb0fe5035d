//! Entry points of the bridge that decide before any Neovim instance is asked.
use crate::action::neovim::NeovimAction;
use vstd::prelude::*;

verus! {

/// Why no connection to Neovim could be set up.
#[derive(Debug, Clone, Copy, PartialEq, Eq, Structural)]
pub enum ConnectError {
    /// No Neovim socket was found.
    NoInstances,
}

impl ConnectError {
    /// The message shown for this error.
    pub fn message(&self) -> (text: &'static str)
        ensures
            text@ == "no Neovim instances found"@,
    {
        "no Neovim instances found"
    }
}

/// The Neovim instances behind the sockets that were found, in the order found;
/// an error when no socket was found.
pub fn connect(socket_paths: Vec<String>) -> (action: Result<NeovimAction, ConnectError>)
    ensures
        socket_paths@.len() == 0 <==> action == Err::<NeovimAction, ConnectError>(
            ConnectError::NoInstances,
        ),
        action matches Ok(a) ==> a@ == socket_paths@,
{
    if socket_paths.len() == 0 {
        Err(ConnectError::NoInstances)
    } else {
        Ok(NeovimAction::new(socket_paths))
    }
}

} // verus!
