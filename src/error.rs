use vstd::prelude::*;

verus! {

/// The hard failures of the adapter. Coercion never fails: it yields an
/// absent cell instead.
#[derive(Debug, Clone, PartialEq, Eq)]
pub enum FdwError {
    /// The transport reported a failure (network, non-2xx status, timeout).
    Transport(String),
    /// A response body did not have the expected shape.
    ResponseParse(String),
    /// The operation is not supported by this adapter.
    Unsupported(String),
}

impl FdwError {
    /// The error's message, as handed to the engine.
    pub fn message(&self) -> (r: String)
        ensures
            r@ == match self {
                FdwError::Transport(m) => m@,
                FdwError::ResponseParse(m) => m@,
                FdwError::Unsupported(m) => m@,
            },
    {
        match self {
            FdwError::Transport(m) => m.clone(),
            FdwError::ResponseParse(m) => m.clone(),
            FdwError::Unsupported(m) => m.clone(),
        }
    }
}

} // verus!
