//! What is read of one run: the arguments of the invocation, the bytes on
//! standard input, and the mail message that those bytes may hold.

use vstd::prelude::*;

use crate::text::{eq_ignore_ascii_case, same_ignoring_ascii_case};

verus! {

/// The arguments of the process, in order. The two variants differ only in
/// how the arguments are shown; they are searched in the same way.
#[derive(Debug, PartialEq, Eq)]
pub enum InvocationArgs {
    /// Every argument was valid UTF-8 and is held as it was given.
    AllUtf8(Vec<String>),
    /// Some argument was not valid UTF-8; the arguments are held with the
    /// invalid parts replaced.
    Lossy(Vec<String>),
}

/// The arguments of the process as sequences of characters.
pub enum InvocationArgsView {
    AllUtf8(Seq<Seq<char>>),
    Lossy(Seq<Seq<char>>),
}

impl InvocationArgsView {
    /// The arguments, whichever way they are held.
    pub open spec fn list(self) -> Seq<Seq<char>> {
        match self {
            InvocationArgsView::AllUtf8(list) => list,
            InvocationArgsView::Lossy(list) => list,
        }
    }
}

impl View for InvocationArgs {
    type V = InvocationArgsView;

    open spec fn view(&self) -> InvocationArgsView {
        match self {
            InvocationArgs::AllUtf8(list) => InvocationArgsView::AllUtf8(list.deep_view()),
            InvocationArgs::Lossy(list) => InvocationArgsView::Lossy(list.deep_view()),
        }
    }
}

/// What reading standard input gave.
#[derive(Debug, PartialEq, Eq)]
pub enum RawInput {
    /// The bytes that were read, all of them.
    Read(Vec<u8>),
    /// Reading failed; the text describes the failure.
    Failed(String),
}

/// What reading standard input gave, as sequences.
pub enum RawInputView {
    Read(Seq<u8>),
    Failed(Seq<char>),
}

impl View for RawInput {
    type V = RawInputView;

    open spec fn view(&self) -> RawInputView {
        match self {
            RawInput::Read(bytes) => RawInputView::Read(bytes@),
            RawInput::Failed(description) => RawInputView::Failed(description@),
        }
    }
}

/// What reading a header's value as a list of mail addresses gave.
#[derive(Debug, PartialEq, Eq)]
pub enum AddressParse {
    /// The value is no list of addresses.
    Failed,
    /// The value is a list of addresses, but not a list of exactly one
    /// mailbox.
    NotSingle,
    /// The value is exactly one mailbox, with this address.
    Single(String),
}

/// What reading a header's value as a list of mail addresses gave, as
/// sequences.
pub enum AddressParseView {
    Failed,
    NotSingle,
    Single(Seq<char>),
}

impl View for AddressParse {
    type V = AddressParseView;

    open spec fn view(&self) -> AddressParseView {
        match self {
            AddressParse::Failed => AddressParseView::Failed,
            AddressParse::NotSingle => AddressParseView::NotSingle,
            AddressParse::Single(address) => AddressParseView::Single(address@),
        }
    }
}

/// One header of a message.
#[derive(Debug, PartialEq, Eq)]
pub struct HeaderField {
    /// The header's name as it is written in the message.
    pub name: String,
    /// The header's value, unfolded and with encoded words decoded. Bytes
    /// that are not UTF-8 are read as Latin-1.
    pub value: String,
    /// The same value, but only where the raw value is valid UTF-8.
    pub value_utf8: Option<String>,
    /// The value read as a list of mail addresses.
    pub address: AddressParse,
}

/// One header of a message, as sequences.
pub struct HeaderFieldView {
    pub name: Seq<char>,
    pub value: Seq<char>,
    pub value_utf8: Option<Seq<char>>,
    pub address: AddressParseView,
}

impl View for HeaderField {
    type V = HeaderFieldView;

    open spec fn view(&self) -> HeaderFieldView {
        HeaderFieldView {
            name: self.name@,
            value: self.value@,
            value_utf8: self.value_utf8.deep_view(),
            address: self.address@,
        }
    }
}

impl DeepView for HeaderField {
    type V = HeaderFieldView;

    open spec fn deep_view(&self) -> HeaderFieldView {
        self@
    }
}

/// A mail message that was read out of the input: its headers in the order
/// of the message, doubles included, the type of its content and its body.
#[derive(Debug, PartialEq, Eq)]
pub struct ParsedMessage {
    /// The headers, in the order of the message.
    pub headers: Vec<HeaderField>,
    /// The content type without its parameters, in lower case.
    pub mimetype: String,
    /// The body with its transfer encoding undone, as text, where that can be
    /// had.
    pub body: Option<String>,
}

/// A mail message as sequences.
pub struct ParsedMessageView {
    pub headers: Seq<HeaderFieldView>,
    pub mimetype: Seq<char>,
    pub body: Option<Seq<char>>,
}

impl View for ParsedMessage {
    type V = ParsedMessageView;

    open spec fn view(&self) -> ParsedMessageView {
        ParsedMessageView {
            headers: self.headers.deep_view(),
            mimetype: self.mimetype@,
            body: self.body.deep_view(),
        }
    }
}

impl DeepView for ParsedMessage {
    type V = ParsedMessageView;

    open spec fn deep_view(&self) -> ParsedMessageView {
        self@
    }
}

/// The test by which a header is found under `name`: header names are equal
/// but for the case of ASCII letters.
pub open spec fn is_named(name: Seq<char>) -> spec_fn(HeaderFieldView) -> bool {
    |header: HeaderFieldView| eq_ignore_ascii_case(header.name, name)
}

/// The headers of that name, in the order of the message.
pub open spec fn headers_named(headers: Seq<HeaderFieldView>, name: Seq<char>) -> Seq<
    HeaderFieldView,
> {
    headers.filter(is_named(name))
}

impl InvocationArgs {
    /// The arguments, whichever way they are held.
    pub fn list(&self) -> (list: &Vec<String>)
        ensures
            list.deep_view() == self@.list(),
    {
        match self {
            InvocationArgs::AllUtf8(list) => list,
            InvocationArgs::Lossy(list) => list,
        }
    }
}

impl ParsedMessage {
    /// All headers of that name, in the order of the message. Names are
    /// compared without regard to the case of ASCII letters.
    pub fn headers_named(&self, name: &str) -> (found: Vec<&HeaderField>)
        ensures
            found.deep_view() == headers_named(self@.headers, name@),
    {
        let ghost all = self@.headers;
        let mut found: Vec<&HeaderField> = Vec::new();
        let mut i: usize = 0;
        proof {
            reveal(Seq::filter);
            assert(all.take(0).filter(is_named(name@)) =~= Seq::empty());
            assert(found.deep_view() =~= Seq::empty());
        }
        while i < self.headers.len()
            invariant
                i <= self.headers.len(),
                all == self@.headers,
                all.len() == self.headers.len(),
                found.deep_view() == headers_named(all.take(i as int), name@),
            decreases self.headers.len() - i,
        {
            let header = &self.headers[i];
            let ghost before = found.deep_view();
            proof {
                assert(all.take(i + 1) =~= all.take(i as int).push(all[i as int]));
                all.take(i as int).lemma_filter_push(all[i as int], is_named(name@));
                assert(all[i as int] == header@);
            }
            if same_ignoring_ascii_case(header.name.as_str(), name) {
                found.push(header);
                proof {
                    assert(found.deep_view() =~= before.push(header@));
                }
            }
            i += 1;
        }
        proof {
            assert(all.take(all.len() as int) =~= all);
        }
        found
    }
}

/// What `mailparse` reads out of `raw`: the message, or nothing where the
/// bytes are no message.
pub uninterp spec fn parsed_mail(raw: Seq<u8>) -> Option<ParsedMessageView>;

/// Parses `raw` as a mail message.
///
/// Wraps `mailparse::parse_mail` and copies out of its result what this
/// library reads: of each header `get_key`, `get_value`, `get_value_utf8` and
/// the outcome of `addrparse_header` with `extract_single_info`; the field
/// `ctype.mimetype`; and `get_body`. The contract only names the outcome,
/// which depends on `raw` alone.
#[verifier::external_body]
fn parse_mail(raw: &[u8]) -> (parsed: Option<ParsedMessage>)
    ensures
        parsed.deep_view() == parsed_mail(raw@),
{
    let mail = mailparse::parse_mail(raw).ok()?;
    let field = |header: &mailparse::MailHeader| HeaderField {
        name: header.get_key(),
        value: header.get_value(),
        value_utf8: header.get_value_utf8().ok(),
        address: match mailparse::addrparse_header(header).map(|list| list.extract_single_info()) {
            Ok(Some(info)) => AddressParse::Single(info.addr),
            Ok(None) => AddressParse::NotSingle,
            Err(_) => AddressParse::Failed,
        },
    };
    let headers = mail.headers.iter().map(field).collect();
    let (mimetype, body) = (mail.ctype.mimetype.clone(), mail.get_body().ok());
    Some(ParsedMessage { headers, mimetype, body })
}

/// What the input is classified as: the message that `mailparse` reads out
/// of the bytes, or nothing where reading standard input failed or the bytes
/// are no message.
pub open spec fn classified(input: RawInputView) -> Option<ParsedMessageView> {
    match input {
        RawInputView::Read(bytes) => parsed_mail(bytes),
        RawInputView::Failed(_) => None,
    }
}

/// Reads the input as a mail message. Input that cannot be read as one is
/// no error: the result is then `None`, and the run goes on without a parsed
/// message.
pub fn classify(input: &RawInput) -> (parsed: Option<ParsedMessage>)
    ensures
        parsed.deep_view() == classified(input@),
{
    match input {
        RawInput::Read(bytes) => parse_mail(bytes.as_slice()),
        RawInput::Failed(_) => None,
    }
}

} // verus!
