//! Forwards a locally submitted mail message as an attachment of a new message.
//!
//! The program in front of this library stands in for `sendmail` on a host
//! without a mail system of its own. It reads a message from standard input and
//! sends a new message to one fixed recipient. The library decides what that
//! new message holds: a subject that names the sender and the host, a report on
//! the invocation, the original message rendered inline where that can be done
//! safely, and the input itself, byte for byte, as an attachment.

use vstd::prelude::*;

use crate::message::{classified, classify, InvocationArgs, InvocationArgsView, RawInput, RawInputView};
use crate::outer::{assemble, assembled, AttachmentView, OuterMessage, OuterMessageView};
use crate::report::{
    build_report, report_text, ConfigPermissions, ConfigPermissionsView, HostIdentity,
    HostIdentityView, ProcessIdentity, ProcessIdentityView,
};
use crate::sender::{resolve_sender, resolved_sender};

pub mod config;
pub mod message;
pub mod outer;
pub mod report;
pub mod sender;
pub mod text;

verus! {

/// What a run learns from the system it runs on.
#[derive(Debug, PartialEq, Eq)]
pub struct Environment {
    /// The name of the host, where the system gives one.
    pub hostname: Option<String>,
    /// The permissions of the configuration file.
    pub config_permissions: ConfigPermissions,
    /// The identity of the process.
    pub process: ProcessIdentity,
    /// The identity of the host and its system.
    pub host: HostIdentity,
}

/// What a run learns from the system, as sequences.
pub struct EnvironmentView {
    pub hostname: Option<Seq<char>>,
    pub config_permissions: ConfigPermissionsView,
    pub process: ProcessIdentityView,
    pub host: HostIdentityView,
}

impl View for Environment {
    type V = EnvironmentView;

    open spec fn view(&self) -> EnvironmentView {
        EnvironmentView {
            hostname: self.hostname.deep_view(),
            config_permissions: self.config_permissions@,
            process: self.process@,
            host: self.host@,
        }
    }
}

/// The name under which the host appears in the subject and the report.
pub open spec fn invoking_host(hostname: Option<Seq<char>>) -> Seq<char> {
    match hostname {
        Some(name) => name,
        None => "???"@,
    }
}

/// The message that is sent for a run with these arguments and this input
/// in this environment.
pub open spec fn forwarded(
    args: InvocationArgsView,
    input: RawInputView,
    environment: EnvironmentView,
) -> OuterMessageView {
    let message = classified(input);
    let host = invoking_host(environment.hostname);
    assembled(
        resolved_sender(args, message),
        host,
        report_text(
            host,
            environment.config_permissions,
            args,
            environment.process,
            environment.host,
        ),
        message,
        input,
    )
}

/// Makes the message that is sent for one run: reads the input as a mail
/// message, works out who sent it, writes the report and puts the parts
/// together. Input that is no mail message, or that could not be read, still
/// gives a message, without the inline part.
pub fn forward(args: &InvocationArgs, input: &RawInput, environment: &Environment) -> (outer:
    OuterMessage)
    ensures
        outer@ == forwarded(args@, input@, environment@),
{
    let parsed = classify(input);
    let message = parsed.as_ref();
    let sender = resolve_sender(args, message);
    let unknown = "???".to_owned();
    let host = match &environment.hostname {
        Some(name) => name.as_str(),
        None => unknown.as_str(),
    };
    let report = build_report(
        host,
        &environment.config_permissions,
        args,
        &environment.process,
        &environment.host,
    );
    assemble(sender.as_str(), host, report, message, input)
}

/// Whatever was read from standard input is attached byte for byte, be it
/// empty, no mail message or no text at all, and whatever else the run
/// finds.
pub proof fn lemma_attachment_is_input(
    args: InvocationArgsView,
    bytes: Seq<u8>,
    environment: EnvironmentView,
)
    ensures
        forwarded(args, RawInputView::Read(bytes), environment).attachment
            == AttachmentView::Bytes(bytes),
{
}

} // verus!
