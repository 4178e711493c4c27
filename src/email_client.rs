use vstd::prelude::*;

use crate::email::Email;

verus! {

/// An email could not be sent.
#[derive(Debug, Clone, Copy, PartialEq, Eq, Structural)]
pub enum EmailError {
    SendFailed,
}

/// Sends email. Implementations deliver through some outside service, so
/// nothing is promised of the outcome.
pub trait EmailClient {
    fn send_email(&self, recipient: &Email, subject: &str, content: &str) -> Result<(), EmailError>;
}

/// An email client that sends nothing and always reports success.
pub struct MockEmailClient;

impl EmailClient for MockEmailClient {
    fn send_email(&self, recipient: &Email, subject: &str, content: &str) -> (r: Result<(), EmailError>)
        ensures
            r is Ok,
    {
        Ok(())
    }
}

} // verus!
