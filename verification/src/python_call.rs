use vstd::prelude::*;

verus! {

/// Why a call of a configured Python function is refused.
#[derive(Debug, PartialEq)]
pub enum PythonCallError<E> {
    /// The call raised this error.
    Raised(E),
    /// The function returned a coroutine: asynchronous functions are not
    /// supported.
    AsyncNotSupported,
}

/// The message of the error for a function that returned a coroutine.
pub open spec fn async_not_supported_message() -> Seq<char> {
    "Async functions are not supported, unimplemented"@
}

/// The message with which a failed call is reported to JavaScript, given how
/// the Python error prints.
pub open spec fn python_error_message(description: Seq<char>) -> Seq<char> {
    "Python error: "@ + description
}

/// Settles a call of a configured Python function. `call` is the error the
/// call raised, or whether the value it returned is a coroutine: a raised error
/// is passed on, a coroutine is refused, any other value settles the call.
pub fn settle_python_call<E>(call: Result<bool, E>) -> (res: Result<(), PythonCallError<E>>)
    ensures
        match call {
            Err(e) => res == Err::<(), PythonCallError<E>>(PythonCallError::Raised(e)),
            Ok(true) => res == Err::<(), PythonCallError<E>>(PythonCallError::AsyncNotSupported),
            Ok(false) => res is Ok,
        },
{
    match call {
        Err(e) => Err(PythonCallError::Raised(e)),
        Ok(is_coroutine) => {
            if is_coroutine {
                Err(PythonCallError::AsyncNotSupported)
            } else {
                Ok(())
            }
        },
    }
}

/// The text of the error for a function that returned a coroutine.
pub fn async_not_supported_text() -> (msg: String)
    ensures
        msg@ == async_not_supported_message(),
{
    String::from_str("Async functions are not supported, unimplemented")
}

/// The message with which a failed call is reported, given how the Python
/// error prints.
pub fn python_error_text(description: &str) -> (msg: String)
    ensures
        msg@ == python_error_message(description@),
{
    let mut msg = String::from_str("Python error: ");
    msg.append(description);
    msg
}

} // verus!
