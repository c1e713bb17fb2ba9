//! The message that is sent: its subject and its parts, made from the
//! sender identity, the report, the parsed message and the raw input.

use vstd::prelude::*;
use vstd::string::StringExecFns;

use crate::message::{
    headers_named, HeaderField, HeaderFieldView, ParsedMessage, ParsedMessageView, RawInput,
    RawInputView,
};

verus! {

/// The content type of the part that carries the report: plain text, in
/// UTF-8 as every Rust string is.
pub const REPORT_CONTENT_TYPE: &'static str = "text/plain; charset=utf-8";

/// The content type of the part that shows the original message inline.
pub const INLINE_CONTENT_TYPE: &'static str = "message/rfc822";

/// The content type of the attachment. The input need not be a mail message,
/// so the attachment is typed as plain bytes.
pub const ATTACHMENT_CONTENT_TYPE: &'static str = "application/octet-stream";

/// The file name of the attachment.
pub const ATTACHMENT_FILENAME: &'static str = "stdin.eml";

/// How the parts of a multipart message belong together.
#[derive(Debug, Clone, Copy, PartialEq, Eq, Structural)]
pub enum MultipartKind {
    /// The parts are independent of each other: `multipart/mixed`.
    Mixed,
}

/// How the body of a part is encoded for transfer.
#[derive(Debug, Clone, Copy, PartialEq, Eq, Structural)]
pub enum TransferEncoding {
    /// The body is sent as it is; it holds no line that is too long and no
    /// byte that a transport would change.
    EightBit,
    /// The body is sent in base64, which is safe for any bytes.
    Base64,
}

/// How a mail client is asked to show a part.
#[derive(Debug, Clone, Copy, PartialEq, Eq, Structural)]
pub enum Disposition {
    /// The part is shown within the message.
    Inline,
    /// The part is offered as a file.
    Attachment,
}

/// The original message, rendered again so that a mail client shows it
/// without a click on the attachment.
///
/// The part that carries it has the content type `message/rfc822`, for which
/// only the transfer encodings `7bit`, `8bit` and `binary` are allowed. So
/// the message inside gets its body in base64, and the part around it, which
/// then holds ASCII in short lines only, is marked `8bit`.
#[derive(Debug, PartialEq, Eq)]
pub struct InlinePart {
    /// The headers of the original message, name and value, in its order.
    /// They are set one after another where the part is built, so of the
    /// headers of one name the last one stays.
    pub headers: Vec<(String, String)>,
    /// The body of the original message, decoded.
    pub body: String,
}

/// The re-rendered message, as sequences.
pub struct InlinePartView {
    pub headers: Seq<(Seq<char>, Seq<char>)>,
    pub body: Seq<char>,
}

impl View for InlinePart {
    type V = InlinePartView;

    open spec fn view(&self) -> InlinePartView {
        InlinePartView { headers: self.headers.deep_view(), body: self.body@ }
    }
}

impl DeepView for InlinePart {
    type V = InlinePartView;

    open spec fn deep_view(&self) -> InlinePartView {
        self@
    }
}

impl InlinePart {
    /// The disposition of the part: inline.
    pub fn disposition(&self) -> (disposition: Disposition)
        ensures
            disposition == Disposition::Inline,
    {
        Disposition::Inline
    }

    /// The transfer encoding of the body of the message inside.
    pub fn body_encoding(&self) -> (encoding: TransferEncoding)
        ensures
            encoding == TransferEncoding::Base64,
    {
        TransferEncoding::Base64
    }

    /// The transfer encoding that the part around the message declares.
    pub fn part_encoding(&self) -> (encoding: TransferEncoding)
        ensures
            encoding == TransferEncoding::EightBit,
    {
        TransferEncoding::EightBit
    }
}

/// What the attachment holds.
#[derive(Debug, PartialEq, Eq)]
pub enum Attachment {
    /// The bytes of standard input, unchanged.
    Bytes(Vec<u8>),
    /// A text in place of the input, where standard input could not be read.
    Text(String),
}

/// What the attachment holds, as sequences.
pub enum AttachmentView {
    Bytes(Seq<u8>),
    Text(Seq<char>),
}

impl View for Attachment {
    type V = AttachmentView;

    open spec fn view(&self) -> AttachmentView {
        match self {
            Attachment::Bytes(bytes) => AttachmentView::Bytes(bytes@),
            Attachment::Text(text) => AttachmentView::Text(text@),
        }
    }
}

impl Attachment {
    /// The disposition of the part: attachment, under the file name
    /// `ATTACHMENT_FILENAME`.
    pub fn disposition(&self) -> (disposition: Disposition)
        ensures
            disposition == Disposition::Attachment,
    {
        Disposition::Attachment
    }

    /// The transfer encoding of the attachment: always base64.
    pub fn encoding(&self) -> (encoding: TransferEncoding)
        ensures
            encoding == TransferEncoding::Base64,
    {
        TransferEncoding::Base64
    }
}

/// The message that is sent: a multipart message of the kind `mixed` with
/// the report as plain text, the original message inline where it can be
/// rendered, and the raw input as an attachment, in this order.
#[derive(Debug, PartialEq, Eq)]
pub struct OuterMessage {
    pub subject: String,
    pub report: String,
    pub inline: Option<InlinePart>,
    pub attachment: Attachment,
}

/// The message that is sent, as sequences.
pub struct OuterMessageView {
    pub subject: Seq<char>,
    pub report: Seq<char>,
    pub inline: Option<InlinePartView>,
    pub attachment: AttachmentView,
}

impl View for OuterMessage {
    type V = OuterMessageView;

    open spec fn view(&self) -> OuterMessageView {
        OuterMessageView {
            subject: self.subject@,
            report: self.report@,
            inline: self.inline.deep_view(),
            attachment: self.attachment@,
        }
    }
}

impl OuterMessage {
    /// The kind of the multipart message: `mixed`, for a report and
    /// attachments that do not depend on each other.
    pub fn kind(&self) -> (kind: MultipartKind)
        ensures
            kind == MultipartKind::Mixed,
    {
        MultipartKind::Mixed
    }

    /// The number of parts of the message.
    pub fn part_count(&self) -> (count: usize)
        ensures
            count == if self@.inline is Some {
                3int
            } else {
                2int
            },
    {
        match &self.inline {
            Some(_) => 3,
            None => 2,
        }
    }
}

/// What the subject says of the original message.
pub open spec fn subject_summary(message: Option<ParsedMessageView>) -> Seq<char> {
    match message {
        Some(message) => {
            let subjects = headers_named(message.headers, "Subject"@);
            if subjects.len() == 1 {
                subjects[0].value
            } else {
                "(multiple Subject headers)"@
            }
        },
        None => "(unparseable message)"@,
    }
}

/// Sums up the original message for the subject: the value of its `Subject`
/// header where it has exactly one, else a note in its place.
pub fn summarize(message: Option<&ParsedMessage>) -> (summary: String)
    ensures
        summary@ == subject_summary(message.deep_view()),
{
    match message {
        Some(message) => {
            let subjects = message.headers_named("Subject");
            if subjects.len() == 1 {
                proof {
                    assert(subjects.deep_view()[0] == subjects[0]@);
                }
                subjects[0].value.clone()
            } else {
                "(multiple Subject headers)".to_owned()
            }
        },
        None => "(unparseable message)".to_owned(),
    }
}

/// The subject line of the message that is sent.
pub open spec fn subject_text(sender: Seq<char>, hostname: Seq<char>, summary: Seq<char>) -> Seq<
    char,
> {
    sender + "@"@ + hostname + ": "@ + summary
}

/// Writes the subject line: `<sender>@<hostname>: <summary>`.
pub fn subject_line(sender: &str, hostname: &str, summary: &str) -> (subject: String)
    ensures
        subject@ == subject_text(sender@, hostname@, summary@),
{
    let mut subject = String::new();
    subject.append(sender);
    subject.append("@");
    subject.append(hostname);
    subject.append(": ");
    subject.append(summary);
    proof {
        assert(Seq::<char>::empty() + sender@ == sender@);
    }
    subject
}

/// A header name that can stand in a message that is built: not empty, at
/// most 76 characters, all of them ASCII, none of them a colon or a space.
pub open spec fn valid_header_name(name: Seq<char>) -> bool {
    &&& 0 < name.len() <= 76
    &&& forall|i: int|
        0 <= i < name.len() ==> (name[i] as u32) < 0x80 && name[i] != ':' && name[i] != ' '
}

/// Tests whether a header of this name can be set on a message.
///
/// Wraps `lettre::message::header::HeaderName::new_from_ascii`, which accepts
/// a name if and only if it is not empty, is at most 76 bytes long, is all
/// ASCII and holds neither `:` nor a space. In an ASCII text bytes and
/// characters are the same.
#[verifier::external_body]
fn header_name_accepted(name: &str) -> (accepted: bool)
    ensures
        accepted == valid_header_name(name@),
{
    lettre::message::header::HeaderName::new_from_ascii(name.to_owned()).is_ok()
}

/// Whether a header can be rendered again: its name is valid and its value
/// is text.
pub open spec fn renderable(header: HeaderFieldView) -> bool {
    valid_header_name(header.name) && header.value_utf8 is Some
}

/// A header as the re-rendered message holds it.
pub open spec fn rendered_header(header: HeaderFieldView) -> (Seq<char>, Seq<char>) {
    (header.name, header.value_utf8.unwrap())
}

/// The re-rendered message, where there is one: the message was parsed, its
/// content type is `text/plain`, every one of its headers can be rendered
/// and its body can be decoded.
pub open spec fn inline_rendering(message: Option<ParsedMessageView>) -> Option<InlinePartView> {
    match message {
        Some(message) => if message.mimetype == "text/plain"@ && (forall|i: int|
            0 <= i < message.headers.len() ==> renderable(#[trigger] message.headers[i]))
            && message.body is Some {
            Some(
                InlinePartView {
                    headers: message.headers.map_values(
                        |header: HeaderFieldView| rendered_header(header),
                    ),
                    body: message.body.unwrap(),
                },
            )
        } else {
            None
        },
        None => None,
    }
}

/// Renders a header again, if it can be: see `renderable`.
fn render_header(header: &HeaderField) -> (rendered: Option<(String, String)>)
    ensures
        match rendered {
            Some(pair) => renderable(header@) && pair.deep_view() == rendered_header(header@),
            None => !renderable(header@),
        },
{
    if !header_name_accepted(header.name.as_str()) {
        return None;
    }
    match &header.value_utf8 {
        Some(value) => Some((header.name.clone(), value.clone())),
        None => None,
    }
}

/// Tries to render the original message again for showing it inline. This
/// is done only for a parsed message of the content type `text/plain`. If
/// one of its headers has a name that cannot be set or a value that is no
/// text, or if its body cannot be decoded, nothing is rendered: a part of
/// the headers would mislead.
pub fn render_inline(message: Option<&ParsedMessage>) -> (inline: Option<InlinePart>)
    ensures
        inline.deep_view() == inline_rendering(message.deep_view()),
{
    let parsed = match message {
        Some(parsed) => parsed,
        None => {
            return None;
        },
    };
    if parsed.mimetype != "text/plain".to_owned() {
        return None;
    }
    let ghost all = parsed@.headers;
    let mut headers: Vec<(String, String)> = Vec::new();
    let mut i: usize = 0;
    while i < parsed.headers.len()
        invariant
            i <= parsed.headers.len(),
            message.deep_view() == Some(parsed@),
            all == parsed@.headers,
            all.len() == parsed.headers.len(),
            headers.len() == i,
            forall|k: int| 0 <= k < i ==> renderable(#[trigger] all[k]),
            forall|k: int|
                0 <= k < i ==> (#[trigger] headers[k]).deep_view() == rendered_header(all[k]),
        decreases parsed.headers.len() - i,
    {
        proof {
            assert(all[i as int] == parsed.headers[i as int]@);
        }
        match render_header(&parsed.headers[i]) {
            Some(pair) => {
                headers.push(pair);
            },
            None => {
                return None;
            },
        }
        i += 1;
    }
    match &parsed.body {
        Some(body) => {
            let inline = InlinePart { headers, body: body.clone() };
            proof {
                assert(inline@.headers =~= all.map_values(
                    |header: HeaderFieldView| rendered_header(header),
                ));
            }
            Some(inline)
        },
        None => None,
    }
}

/// The words that stand in for the input where standard input could not be
/// read.
pub open spec fn read_failure_text(description: Seq<char>) -> Seq<char> {
    "forward-as-attachment-mta failed to read stdin: "@ + description
}

/// What is attached for this input.
pub open spec fn attachment_of(input: RawInputView) -> AttachmentView {
    match input {
        RawInputView::Read(bytes) => AttachmentView::Bytes(bytes),
        RawInputView::Failed(description) => AttachmentView::Text(read_failure_text(description)),
    }
}

/// Makes the attachment: the bytes of standard input as they were read, or,
/// where reading failed, a text that says so.
pub fn attach(input: &RawInput) -> (attachment: Attachment)
    ensures
        attachment@ == attachment_of(input@),
{
    match input {
        RawInput::Read(bytes) => Attachment::Bytes(bytes.clone()),
        RawInput::Failed(description) => {
            let mut text = String::new();
            text.append("forward-as-attachment-mta failed to read stdin: ");
            text.append(description.as_str());
            Attachment::Text(text)
        },
    }
}

/// The message that is sent for this sender identity, host name, report,
/// parsed message and input.
pub open spec fn assembled(
    sender: Seq<char>,
    hostname: Seq<char>,
    report: Seq<char>,
    message: Option<ParsedMessageView>,
    input: RawInputView,
) -> OuterMessageView {
    OuterMessageView {
        subject: subject_text(sender, hostname, subject_summary(message)),
        report,
        inline: inline_rendering(message),
        attachment: attachment_of(input),
    }
}

/// Puts the message together. The report and the attachment are always
/// there; the inline part is there where the original message can be
/// rendered again.
pub fn assemble(
    sender: &str,
    hostname: &str,
    report: String,
    message: Option<&ParsedMessage>,
    input: &RawInput,
) -> (outer: OuterMessage)
    ensures
        outer@ == assembled(sender@, hostname@, report@, message.deep_view(), input@),
{
    let summary = summarize(message);
    let subject = subject_line(sender, hostname, summary.as_str());
    let inline = render_inline(message);
    let attachment = attach(input);
    OuterMessage { subject, report, inline, attachment }
}

/// A message of any content type but `text/plain` is not rendered inline.
pub proof fn lemma_inline_only_text_plain(message: ParsedMessageView)
    requires
        message.mimetype != "text/plain"@,
    ensures
        inline_rendering(Some(message)) is None,
{
}

/// A message with a header whose name is not valid or whose value is no
/// text is not rendered inline, whatever its other headers are.
pub proof fn lemma_inline_needs_every_header(message: ParsedMessageView, i: int)
    requires
        0 <= i < message.headers.len(),
        !valid_header_name(message.headers[i].name) || message.headers[i].value_utf8 is None,
    ensures
        inline_rendering(Some(message)) is None,
{
}

} // verus!
