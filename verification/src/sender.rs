//! Who sent the forwarded message: a display string made from the envelope
//! sender given on the command line and the `From` header of the message.

use vstd::prelude::*;
use vstd::string::StringExecFns;

use crate::message::{
    headers_named, AddressParse, AddressParseView, InvocationArgs, InvocationArgsView,
    ParsedMessage, ParsedMessageView,
};
use crate::text::{chars_of, has_at, is_whitespace, occurs_at, push_char, string_of, whitespace};

verus! {

/// `(` and `)`: the characters that delimit the tags of a sender identity.
pub open spec fn is_paren(c: char) -> bool {
    c == '(' || c == ')'
}

/// `s` with a backslash put before every parenthesis.
pub open spec fn escaped(s: Seq<char>) -> Seq<char>
    decreases s.len(),
{
    if s.len() == 0 {
        Seq::empty()
    } else if is_paren(s.last()) {
        escaped(s.drop_last()).push('\\').push(s.last())
    } else {
        escaped(s.drop_last()).push(s.last())
    }
}

/// Escapes `(` as `\(` and `)` as `\)`, so that the text can stand inside a
/// parenthesized tag.
pub fn escape_parens(output: &str) -> (result: String)
    ensures
        result@ == escaped(output@),
{
    let mut result = String::new();
    for c in it: output.chars()
        invariant
            it.seq() == output@,
            result@ == escaped(output@.take(it.index() as int)),
    {
        proof {
            let before = output@.take(it.index() as int);
            let after = output@.take(it.index() + 1);
            assert(after.drop_last() == before);
            assert(after.last() == c);
        }
        if c == '(' || c == ')' {
            push_char(&mut result, '\\');
        }
        push_char(&mut result, c);
    }
    proof {
        assert(output@.take(output@.len() as int) == output@);
    }
    result
}

/// Escaping changes nothing in a text without parentheses; escaping such a
/// text twice is therefore the same as escaping it once.
pub proof fn lemma_escaped_without_parens(s: Seq<char>)
    requires
        forall|i: int| 0 <= i < s.len() ==> !is_paren(s[i]),
    ensures
        escaped(s) == s,
        escaped(escaped(s)) == escaped(s),
    decreases s.len(),
{
    if s.len() > 0 {
        lemma_escaped_without_parens(s.drop_last());
        assert(s.drop_last().push(s.last()) == s);
    }
}

/// In an escaped text every parenthesis stands directly behind a backslash.
pub proof fn lemma_escaped_parens_follow_backslash(s: Seq<char>)
    ensures
        forall|i: int|
            #![trigger escaped(s)[i]]
            0 <= i < escaped(s).len() && is_paren(escaped(s)[i]) ==> i > 0 && escaped(s)[i - 1]
                == '\\',
    decreases s.len(),
{
    if s.len() > 0 {
        let shorter = escaped(s.drop_last());
        lemma_escaped_parens_follow_backslash(s.drop_last());
        assert forall|i: int|
            #![trigger escaped(s)[i]]
            0 <= i < escaped(s).len() && is_paren(escaped(s)[i]) implies i > 0 && escaped(s)[i
                - 1] == '\\' by {
            if i < shorter.len() {
                assert(escaped(s)[i] == shorter[i]);
                assert(escaped(s)[i - 1] == shorter[i - 1]);
            }
        }
    }
}

/// The words by which the cron daemon names itself behind the user's name.
pub open spec fn cron_marker() -> Seq<char> {
    " (Cron Daemon)"@
}

/// `text[start..end]` is a token of the cron form: one or more characters,
/// none of them white space, with the cron marker directly behind them.
pub open spec fn cron_match(text: Seq<char>, start: int, end: int) -> bool {
    &&& 0 <= start < end
    &&& forall|k: int| start <= k < end ==> !is_whitespace(#[trigger] text[k])
    &&& occurs_at(text, end, cron_marker())
}

/// `text[start..end]` is the cron token that begins first in `text`.
pub open spec fn first_cron_match(text: Seq<char>, start: int, end: int) -> bool {
    &&& cron_match(text, start, end)
    &&& forall|s: int, e: int| cron_match(text, s, e) ==> start <= s
}

/// The user that a `From` header of the cron form names: the first token of
/// `text` that the cron marker follows, if there is one.
pub open spec fn cron_token(text: Seq<char>) -> Option<Seq<char>> {
    if exists|s: int, e: int| first_cron_match(text, s, e) {
        let (s, e) = choose|s: int, e: int| first_cron_match(text, s, e);
        Some(text.subrange(s, e))
    } else {
        None
    }
}

proof fn lemma_cron_marker()
    ensures
        cron_marker().len() == 14,
        cron_marker()[0] == ' ',
        is_whitespace(cron_marker()[0]),
{
    reveal_strlit(" (Cron Daemon)");
}

/// A token ends where the white space behind it begins, so two matches that
/// begin at one place are one match.
proof fn lemma_cron_match_end(text: Seq<char>, start: int, end: int, other: int)
    requires
        cron_match(text, start, end),
        cron_match(text, start, other),
    ensures
        end == other,
{
    lemma_cron_marker();
    if end < other {
        assert(text[end] == text.subrange(end, end + 14)[0]);
    } else if other < end {
        assert(text[other] == text.subrange(other, other + 14)[0]);
    }
}

proof fn lemma_first_cron_match_is_token(text: Seq<char>, start: int, end: int)
    requires
        first_cron_match(text, start, end),
    ensures
        cron_token(text) == Some(text.subrange(start, end)),
{
    let (s, e) = choose|s: int, e: int| first_cron_match(text, s, e);
    lemma_cron_match_end(text, start, end, e);
}

proof fn lemma_first_cron_match_from(text: Seq<char>, from: int, start: int, end: int)
    requires
        0 <= from <= start,
        cron_match(text, start, end),
        forall|s: int, e: int| cron_match(text, s, e) ==> from <= s,
    ensures
        exists|s: int, e: int| first_cron_match(text, s, e),
    decreases start - from,
{
    if exists|e: int| cron_match(text, from, e) {
        let e = choose|e: int| cron_match(text, from, e);
        assert(first_cron_match(text, from, e));
    } else {
        lemma_first_cron_match_from(text, from + 1, start, end);
    }
}

/// A text has a cron token if and only if the cron marker stands somewhere in
/// it directly behind a character that is not white space.
pub proof fn lemma_cron_token_exists(text: Seq<char>)
    ensures
        cron_token(text) is Some <==> exists|s: int, e: int| cron_match(text, s, e),
{
    if exists|s: int, e: int| cron_match(text, s, e) {
        let (s, e) = choose|s: int, e: int| cron_match(text, s, e);
        lemma_first_cron_match_from(text, 0, s, e);
    }
}

/// A text that begins with `<token> (Cron Daemon)`, where the token is not
/// empty and holds no white space, has exactly that token as its cron token,
/// whatever follows the marker.
pub proof fn lemma_cron_token_of_cron_form(token: Seq<char>, rest: Seq<char>)
    requires
        token.len() > 0,
        forall|k: int| 0 <= k < token.len() ==> !is_whitespace(token[k]),
    ensures
        cron_token(token + cron_marker() + rest) == Some(token),
{
    let text = token + cron_marker() + rest;
    let end = token.len() as int;
    assert(text.subrange(end, end + cron_marker().len()) == cron_marker());
    assert(first_cron_match(text, 0, end));
    lemma_first_cron_match_is_token(text, 0, end);
    assert(text.subrange(0, end) == token);
}

/// The end of the run of characters other than white space that begins at
/// `from`.
fn token_end(text: &Vec<char>, from: usize) -> (end: usize)
    requires
        from <= text.len(),
    ensures
        from <= end <= text.len(),
        forall|k: int| from <= k < end ==> !is_whitespace(#[trigger] text[k]),
        end == text.len() || is_whitespace(text[end as int]),
{
    let mut end: usize = from;
    while end < text.len() && !whitespace(text[end])
        invariant
            from <= end <= text.len(),
            forall|k: int| from <= k < end ==> !is_whitespace(#[trigger] text[k]),
        decreases text.len() - end,
    {
        end += 1;
    }
    end
}

/// Reads the user's name out of a `From` header as cron writes it,
/// `<user> (Cron Daemon)`: the first run of characters other than white space
/// that the marker ` (Cron Daemon)` follows directly.
pub fn try_extract_cron_from_header(from_header_value: &str) -> (token: Option<String>)
    ensures
        match token {
            Some(t) => cron_token(from_header_value@) == Some(t@),
            None => cron_token(from_header_value@) is None,
        },
{
    let text = chars_of(from_header_value);
    let marker = chars_of(" (Cron Daemon)");
    let mut start: usize = 0;
    while start < text.len()
        invariant
            start <= text.len(),
            text@ == from_header_value@,
            marker@ == cron_marker(),
            forall|s: int, e: int| cron_match(text@, s, e) ==> start <= s,
        decreases text.len() - start,
    {
        let end = token_end(&text, start);
        if end == start {
            start += 1;
        } else {
            if has_at(&text, end, &marker) {
                proof {
                    lemma_first_cron_match_is_token(text@, start as int, end as int);
                }
                return Some(string_of(&text, start, end));
            }
            proof {
                lemma_cron_marker();
                assert forall|s: int, e: int| cron_match(text@, s, e) implies end <= s by {
                    if s < end {
                        assert(text@[e] == text@.subrange(e, e + 14)[0]);
                        assert(e == end);
                    }
                }
            }
            start = end;
        }
    }
    proof {
        lemma_cron_marker();
        assert forall|s: int, e: int| !cron_match(text@, s, e) by {}
    }
    None
}

/// One source of the sender's name, as it was found.
pub enum Candidate {
    /// The source names no sender.
    Absent,
    /// The source names more than one sender, so none can be taken from it.
    Ambiguous,
    /// The source names this sender.
    Unique(Seq<char>),
}

impl Candidate {
    /// The sender that is taken from the source: an ambiguous source counts
    /// as an absent one.
    pub open spec fn usable(self) -> Option<Seq<char>> {
        match self {
            Candidate::Unique(name) => Some(name),
            _ => None,
        }
    }
}

/// The envelope sender that one argument gives: what follows `-f`.
pub open spec fn envelope_value(arg: Seq<char>) -> Option<Seq<char>> {
    if arg.len() >= 2 && arg[0] == '-' && arg[1] == 'f' {
        Some(arg.skip(2))
    } else {
        None
    }
}

/// The envelope senders that the arguments give, in order.
pub open spec fn envelope_values(args: Seq<Seq<char>>) -> Seq<Seq<char>> {
    args.filter_map(|arg: Seq<char>| envelope_value(arg))
}

/// What the arguments say of the envelope sender: nothing where none has
/// the form `-f<value>`, the value where one has it, and nothing that can be
/// used where more than one has it. Whether the arguments were all valid
/// UTF-8 makes no difference.
pub open spec fn envelope_source(args: InvocationArgsView) -> Candidate {
    let values = envelope_values(args.list());
    if values.len() == 0 {
        Candidate::Absent
    } else if values.len() == 1 {
        Candidate::Unique(values[0])
    } else {
        Candidate::Ambiguous
    }
}

/// What the message says of its sender. A single `From` header gives the
/// address of the one mailbox that it holds; where it is no list of addresses
/// at all, it gives the cron token of its text.
pub open spec fn header_source(message: Option<ParsedMessageView>) -> Candidate {
    match message {
        None => Candidate::Absent,
        Some(message) => {
            let from = headers_named(message.headers, "From"@);
            if from.len() == 0 {
                Candidate::Absent
            } else if from.len() == 1 {
                let found = match from[0].address {
                    AddressParseView::Single(address) => Some(address),
                    AddressParseView::NotSingle => None,
                    AddressParseView::Failed => match from[0].value_utf8 {
                        Some(text) => cron_token(text),
                        None => None,
                    },
                };
                match found {
                    Some(name) => Candidate::Unique(name),
                    None => Candidate::Absent,
                }
            } else {
                Candidate::Ambiguous
            }
        },
    }
}

/// A tag: the label of a source with a sender in parentheses behind it.
pub open spec fn tagged(label: Seq<char>, sender: Seq<char>) -> Seq<char> {
    label + "("@ + sender + ")"@
}

/// The sender identity that the two sources give together.
pub open spec fn sender_identity(envelope: Option<Seq<char>>, header: Option<Seq<char>>) -> Seq<
    char,
> {
    match (envelope, header) {
        (Some(e), Some(h)) => if escaped(e) == escaped(h) {
            tagged("evlp+hdr"@, escaped(e))
        } else {
            tagged("evlp"@, escaped(e)) + "+"@ + tagged("hdr"@, escaped(h))
        },
        (Some(e), None) => tagged("evlp"@, escaped(e)),
        (None, Some(h)) => tagged("hdr"@, escaped(h)),
        (None, None) => "???"@,
    }
}

/// The sender identity of a run with these arguments and this message.
pub open spec fn resolved_sender(
    args: InvocationArgsView,
    message: Option<ParsedMessageView>,
) -> Seq<char> {
    sender_identity(envelope_source(args).usable(), header_source(message).usable())
}

/// The sender identity is the same for arguments that were all valid UTF-8
/// and for the same arguments held with replaced parts: how the arguments
/// are held changes only how they are shown.
pub proof fn lemma_sender_ignores_how_arguments_are_held(
    list: Seq<Seq<char>>,
    message: Option<ParsedMessageView>,
)
    ensures
        envelope_source(InvocationArgsView::Lossy(list)) == envelope_source(
            InvocationArgsView::AllUtf8(list),
        ),
        resolved_sender(InvocationArgsView::Lossy(list), message) == resolved_sender(
            InvocationArgsView::AllUtf8(list),
            message,
        ),
{
}

/// The sender identity for each of the nine pairs of what the two sources
/// can be: only a source that names one sender counts, and where both do,
/// one tag holds the name if they agree and two tags hold the two names if
/// they do not.
pub proof fn lemma_sender_identity_table(envelope: Candidate, header: Candidate)
    ensures
        sender_identity(envelope.usable(), header.usable()) == match (envelope, header) {
            (Candidate::Unique(e), Candidate::Unique(h)) => if escaped(e) == escaped(h) {
                "evlp+hdr("@ + escaped(e) + ")"@
            } else {
                "evlp("@ + escaped(e) + ")+hdr("@ + escaped(h) + ")"@
            },
            (Candidate::Unique(e), Candidate::Absent) => "evlp("@ + escaped(e) + ")"@,
            (Candidate::Unique(e), Candidate::Ambiguous) => "evlp("@ + escaped(e) + ")"@,
            (Candidate::Absent, Candidate::Unique(h)) => "hdr("@ + escaped(h) + ")"@,
            (Candidate::Ambiguous, Candidate::Unique(h)) => "hdr("@ + escaped(h) + ")"@,
            (Candidate::Absent, Candidate::Absent) => "???"@,
            (Candidate::Absent, Candidate::Ambiguous) => "???"@,
            (Candidate::Ambiguous, Candidate::Absent) => "???"@,
            (Candidate::Ambiguous, Candidate::Ambiguous) => "???"@,
        },
{
    reveal_strlit("evlp+hdr(");
    reveal_strlit("evlp(");
    reveal_strlit(")+hdr(");
    reveal_strlit("hdr(");
    reveal_strlit("evlp+hdr");
    reveal_strlit("evlp");
    reveal_strlit("hdr");
    reveal_strlit("(");
    reveal_strlit(")");
    reveal_strlit("+");
    match (envelope, header) {
        (Candidate::Unique(e), Candidate::Unique(h)) => {
            assert("evlp+hdr"@ + "("@ + escaped(e) + ")"@ =~= "evlp+hdr("@ + escaped(e) + ")"@);
            assert("evlp"@ + "("@ + escaped(e) + ")"@ + "+"@ + ("hdr"@ + "("@ + escaped(h) + ")"@)
                =~= "evlp("@ + escaped(e) + ")+hdr("@ + escaped(h) + ")"@);
        },
        (Candidate::Unique(e), _) => {
            assert("evlp"@ + "("@ + escaped(e) + ")"@ =~= "evlp("@ + escaped(e) + ")"@);
        },
        (_, Candidate::Unique(h)) => {
            assert("hdr"@ + "("@ + escaped(h) + ")"@ =~= "hdr("@ + escaped(h) + ")"@);
        },
        _ => {},
    }
}

/// The envelope sender that one argument gives: what follows `-f`.
fn envelope_flag(arg: &str) -> (value: Option<String>)
    ensures
        value.deep_view() == envelope_value(arg@),
{
    let chars = chars_of(arg);
    if chars.len() >= 2 && chars[0] == '-' && chars[1] == 'f' {
        let value = string_of(&chars, 2, chars.len());
        proof {
            assert(arg@.skip(2) == arg@.subrange(2, arg@.len() as int));
        }
        Some(value)
    } else {
        None
    }
}

/// Finds the envelope sender among the arguments: the value of the one
/// argument of the form `-f<value>`. Where no argument or more than one has
/// that form, there is none.
pub fn envelope_from(args: &InvocationArgs) -> (sender: Option<String>)
    ensures
        sender.deep_view() == envelope_source(args@).usable(),
{
    let list = args.list();
    let ghost all = list.deep_view();
    let ghost flag = |arg: Seq<char>| envelope_value(arg);
    let mut first: Option<String> = None;
    let mut i: usize = 0;
    while i < list.len()
        invariant
            i <= list.len(),
            all == list.deep_view(),
            args@.list() == all,
            flag == |arg: Seq<char>| envelope_value(arg),
            match first {
                Some(value) => all.take(i as int).filter_map(flag) == seq![value@],
                None => all.take(i as int).filter_map(flag).len() == 0,
            },
        decreases list.len() - i,
    {
        proof {
            all.lemma_filter_map_take_succ(flag, i as int);
            assert(all[i as int] == list[i as int]@);
        }
        match envelope_flag(list[i].as_str()) {
            Some(value) => {
                if first.is_some() {
                    proof {
                        assert(all.take(i + 1).filter_map(flag).len() == 2);
                        lemma_filter_map_prefix_len(all, flag, i + 1);
                        assert(envelope_values(all) == all.filter_map(flag));
                    }
                    return None;
                }
                first = Some(value);
            },
            None => {},
        }
        i += 1;
    }
    proof {
        assert(all.take(all.len() as int) =~= all);
    }
    first
}

/// A prefix maps and filters to no more items than the whole does.
proof fn lemma_filter_map_prefix_len(
    all: Seq<Seq<char>>,
    f: spec_fn(Seq<char>) -> Option<Seq<char>>,
    n: int,
)
    requires
        0 <= n <= all.len(),
    ensures
        all.take(n).filter_map(f).len() <= all.filter_map(f).len(),
    decreases all.len() - n,
{
    if n < all.len() {
        all.lemma_filter_map_take_succ(f, n);
        lemma_filter_map_prefix_len(all, f, n + 1);
    } else {
        assert(all.take(n) =~= all);
    }
}

/// Finds the sender that the message names in its `From` header. Only a
/// message with exactly one such header names one: the address of the one
/// mailbox that the header holds or, where the header is no list of addresses
/// at all, the user's name in a header of the cron form.
pub fn header_from(message: Option<&ParsedMessage>) -> (sender: Option<String>)
    ensures
        sender.deep_view() == header_source(message.deep_view()).usable(),
{
    let message = match message {
        Some(message) => message,
        None => {
            return None;
        },
    };
    let from = message.headers_named("From");
    if from.len() != 1 {
        return None;
    }
    let unambiguous = from[0];
    proof {
        assert(from.deep_view()[0] == unambiguous@);
    }
    match &unambiguous.address {
        AddressParse::Single(address) => Some(address.clone()),
        AddressParse::NotSingle => None,
        AddressParse::Failed => match &unambiguous.value_utf8 {
            Some(text) => try_extract_cron_from_header(text.as_str()),
            None => None,
        },
    }
}

/// Writes a tag: the label, and the sender in parentheses.
fn tag(label: &str, sender: &str) -> (text: String)
    ensures
        text@ == tagged(label@, sender@),
{
    let mut text = String::new();
    text.append(label);
    text.append("(");
    text.append(sender);
    text.append(")");
    proof {
        assert(Seq::<char>::empty() + label@ == label@);
    }
    text
}

/// Puts the two candidates into one display string: `evlp+hdr(..)` where
/// both are there and agree, `evlp(..)+hdr(..)` where they differ, one tag
/// where only one is there, and `???` where none is. Parentheses inside a
/// candidate are escaped.
pub fn combine_sender(envelope: Option<&str>, header: Option<&str>) -> (identity: String)
    ensures
        identity@ == sender_identity(envelope.deep_view(), header.deep_view()),
{
    let envelope = match envelope {
        Some(name) => Some(escape_parens(name)),
        None => None,
    };
    let header = match header {
        Some(name) => Some(escape_parens(name)),
        None => None,
    };
    match (envelope, header) {
        (Some(e), Some(h)) => {
            if e == h {
                tag("evlp+hdr", e.as_str())
            } else {
                let mut identity = tag("evlp", e.as_str());
                identity.append("+");
                identity.append(tag("hdr", h.as_str()).as_str());
                identity
            }
        },
        (Some(e), None) => tag("evlp", e.as_str()),
        (None, Some(h)) => tag("hdr", h.as_str()),
        (None, None) => "???".to_owned(),
    }
}

/// The sender identity of a run: the envelope sender of the arguments and
/// the sender that the message names, combined.
pub fn resolve_sender(args: &InvocationArgs, message: Option<&ParsedMessage>) -> (identity: String)
    ensures
        identity@ == resolved_sender(args@, message.deep_view()),
{
    let envelope = envelope_from(args);
    let header = header_from(message);
    let envelope_name = match &envelope {
        Some(name) => Some(name.as_str()),
        None => None,
    };
    let header_name = match &header {
        Some(name) => Some(name.as_str()),
        None => None,
    };
    combine_sender(envelope_name, header_name)
}

} // verus!
