use vstd::prelude::*;

verus! {

/// Why the event loop stopped.
pub struct AppError {
    message: String,
}

impl AppError {
    pub closed spec fn spec_message(&self) -> Seq<char> {
        self.message@
    }

    pub fn new(message: String) -> (r: AppError)
        ensures
            r.spec_message() == message@,
    {
        AppError { message }
    }

    /// The terminal could not be read or drawn.
    pub fn terminal_io() -> (r: AppError)
        ensures
            r.spec_message() == "terminal io error"@,
    {
        AppError::new("terminal io error".to_owned())
    }

    /// A cluster's settings were refused.
    pub fn configure_client() -> (r: AppError)
        ensures
            r.spec_message() == "configure client error"@,
    {
        AppError::new("configure client error".to_owned())
    }

    pub fn message(&self) -> (r: &str)
        ensures
            r@ == self.spec_message(),
    {
        self.message.as_str()
    }
}

/// The terminal could not be set up or restored.
#[derive(Debug, Clone, Copy, PartialEq, Eq, Structural)]
pub struct TerminalError {}

} // verus!
