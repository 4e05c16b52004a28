//! The external stop trigger: which signals end the server, and what the
//! signal stream's next item means.

use vstd::prelude::*;

verus! {

/// A termination signal that the server listens for.
#[derive(Clone, Copy, Debug, PartialEq, Eq, Structural)]
pub enum Signal {
    Term,
    Quit,
    Int,
}

/// Why no termination signal could be delivered.
#[derive(Debug)]
pub enum ShutdownError {
    /// The signal stream reported an I/O error.
    Io(std::io::Error),
    /// The signal stream ended without a signal.
    StreamClosed,
}

/// The signals to register for, in the order of registration.
pub fn watched() -> (r: Vec<Signal>)
    ensures
        r@ =~= seq![Signal::Term, Signal::Quit, Signal::Int],
{
    let mut list: Vec<Signal> = Vec::new();
    list.push(Signal::Term);
    list.push(Signal::Quit);
    list.push(Signal::Int);
    list
}

/// The trigger that the next item of the signal stream stands for: the
/// signal it carries, the stream's error, or `StreamClosed` where the
/// stream has ended.
pub fn signal(next: Option<Result<Signal, std::io::Error>>) -> (r: Result<Signal, ShutdownError>)
    ensures
        match next {
            Some(Ok(s)) => r == Ok::<Signal, ShutdownError>(s),
            Some(Err(e)) => r == Err::<Signal, ShutdownError>(ShutdownError::Io(e)),
            None => r == Err::<Signal, ShutdownError>(ShutdownError::StreamClosed),
        },
{
    match next {
        Some(Ok(s)) => Ok(s),
        Some(Err(e)) => Err(ShutdownError::Io(e)),
        None => Err(ShutdownError::StreamClosed),
    }
}

} // verus!
