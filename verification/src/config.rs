//! The settings of a run: who sends, who receives, and the mail account that
//! is used. They are checked once, before anything is read or sent.

use vstd::prelude::*;

verus! {

/// The settings, as the configuration file gives them.
#[derive(Debug, PartialEq, Eq)]
pub struct Config {
    /// The address that the forwarding message is sent from.
    pub sender_email: String,
    /// The address that the forwarding message is sent to.
    pub recipient_email: String,
    /// The host of the mail server.
    pub smtp_host: String,
    /// The name of the account on the mail server.
    pub smtp_username: String,
    /// The password of the account on the mail server.
    pub smtp_password: String,
}

/// Why the settings cannot be used.
#[derive(Debug, Clone, Copy, PartialEq, Eq, Structural)]
pub enum ConfigError {
    /// `sender_email` is no mail address.
    InvalidSender,
    /// `recipient_email` is no mail address.
    InvalidRecipient,
}

impl ConfigError {
    /// What is wrong, in words.
    pub fn message(&self) -> (text: String)
        ensures
            text@ == match *self {
                ConfigError::InvalidSender => "sender_email is not a valid mail address"@,
                ConfigError::InvalidRecipient => "recipient_email is not a valid mail address"@,
            },
    {
        match self {
            ConfigError::InvalidSender => "sender_email is not a valid mail address".to_owned(),
            ConfigError::InvalidRecipient => "recipient_email is not a valid mail address".to_owned(),
        }
    }
}

/// Whether `lettre` takes `text` as a mail address.
pub uninterp spec fn mail_address(text: Seq<char>) -> bool;

/// Tests whether `text` is a mail address.
///
/// Wraps the `FromStr` of `lettre::Address`. It splits the text at its last
/// `@` into user and domain and checks both, so a text without `@` is never
/// taken. Beyond that the contract only names the outcome, which depends on
/// `text` alone.
#[verifier::external_body]
fn address_accepted(text: &str) -> (accepted: bool)
    ensures
        accepted == mail_address(text@),
        accepted ==> text@.contains('@'),
{
    text.parse::<lettre::Address>().is_ok()
}

impl Config {
    /// Checks the two addresses. Settings with a sender or a recipient that
    /// is no mail address, an empty one above all, are refused, the sender
    /// first.
    pub fn validate(&self) -> (checked: Result<(), ConfigError>)
        ensures
            match checked {
                Ok(_) => mail_address(self.sender_email@) && mail_address(self.recipient_email@),
                Err(ConfigError::InvalidSender) => !mail_address(self.sender_email@),
                Err(ConfigError::InvalidRecipient) => mail_address(self.sender_email@)
                    && !mail_address(self.recipient_email@),
            },
            !self.sender_email@.contains('@') ==> checked == Err::<(), ConfigError>(
                ConfigError::InvalidSender,
            ),
            self.sender_email@.len() == 0 || self.recipient_email@.len() == 0 ==> checked is Err,
    {
        if !address_accepted(self.sender_email.as_str()) {
            return Err(ConfigError::InvalidSender);
        }
        if !address_accepted(self.recipient_email.as_str()) {
            return Err(ConfigError::InvalidRecipient);
        }
        Ok(())
    }
}

} // verus!
