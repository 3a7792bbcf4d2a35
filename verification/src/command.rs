//! Inbound control messages: from topic and payload to a command for a place
//! on the device.

use crate::pattern::{captures, regex_captures, regex_compiles, text_of};
use crate::text::{all_digits, ends_with, join, parse_u8, parsed_u8, str_ends_with};
use vstd::prelude::*;
use vstd::string::*;
use vstd::utf8::{decode_utf8, valid_utf8};

verus! {

/// The control topics: any prefix, then PDU, branch and receptacle by number,
/// then the control marker, and nothing after it.
pub const TOPIC_PATTERN: &'static str =
    r"^.*?/pdu-(?P<pdu>\d+)/branch-(?P<branch>\d+)/receptacle-(?P<receptacle>\d+)/control$";

/// The payload that sets a label: the words `set-label`, a blank and the
/// label, which is one word of a character set that is safe in file names,
/// and nothing before or after.
pub const LABEL_PATTERN: &'static str = r"^set-label (?P<label>[A-Za-z0-9-_.]+)$";

/// What an operator asks a receptacle to do.
#[derive(Debug, PartialEq, Eq)]
pub enum Command {
    Enable,
    Disable,
    Identify,
    SetLabel(String),
}

/// A command as the contracts see it.
pub ghost enum CommandView {
    Enable,
    Disable,
    Identify,
    SetLabel(Seq<char>),
}

impl View for Command {
    type V = CommandView;

    open spec fn view(&self) -> CommandView {
        match self {
            Command::Enable => CommandView::Enable,
            Command::Disable => CommandView::Disable,
            Command::Identify => CommandView::Identify,
            Command::SetLabel(label) => CommandView::SetLabel(label@),
        }
    }
}

/// A decoded control message: the place it addresses and the command, if the
/// payload holds one.
#[derive(Debug, PartialEq, Eq)]
pub struct Query {
    pub cmd: Option<Command>,
    pub pdu: u8,
    pub branch: u8,
    pub receptacle: u8,
}

/// A decoded control message as the contracts see it.
pub ghost struct QueryView {
    pub cmd: Option<CommandView>,
    pub pdu: u8,
    pub branch: u8,
    pub receptacle: u8,
}

impl View for Query {
    type V = QueryView;

    open spec fn view(&self) -> QueryView {
        QueryView {
            cmd: match self.cmd {
                Some(c) => Some(c@),
                None => None,
            },
            pdu: self.pdu,
            branch: self.branch,
            receptacle: self.receptacle,
        }
    }
}

/// Why a control message addresses no place on the device.
#[derive(Clone, Copy, Debug, PartialEq, Eq, Structural)]
pub enum DecodeError {
    /// A pattern was refused by the pattern compiler.
    Pattern,
    /// The topic is not a control topic.
    Topic,
    /// The PDU number is not a number from 0 to 255.
    Pdu,
    /// The branch number is not a number from 0 to 255.
    Branch,
    /// The receptacle number is not a number from 0 to 255.
    Receptacle,
}

/// The bytes of a text of ASCII characters.
pub open spec fn ascii_bytes(text: Seq<char>) -> Seq<u8> {
    Seq::new(text.len(), |i: int| text[i] as u8)
}

/// The command that a payload spells out by itself.
pub open spec fn plain_command(payload: Seq<u8>) -> Option<CommandView> {
    if payload == ascii_bytes("enable"@) {
        Some(CommandView::Enable)
    } else if payload == ascii_bytes("disable"@) {
        Some(CommandView::Disable)
    } else if payload == ascii_bytes("identify"@) {
        Some(CommandView::Identify)
    } else {
        None
    }
}

/// The text of the group at place `k` of a match, if the match has one.
pub open spec fn group(found: Option<Seq<Option<Seq<char>>>>, k: int) -> Option<Seq<char>> {
    match found {
        Some(groups) => if 0 <= k < groups.len() {
            groups[k]
        } else {
            None
        },
        None => None,
    }
}

/// The match is there and takes in the whole of the text: nothing of the text
/// stands before or after it.
pub open spec fn spans(found: Option<Seq<Option<Seq<char>>>>, text: Seq<char>) -> bool {
    group(found, 0) == Some(text)
}

/// The character may stand in a label: a letter or a digit of ASCII, a dash,
/// an underscore or a dot.
pub open spec fn is_token_char(c: char) -> bool {
    ('A' <= c <= 'Z') || ('a' <= c <= 'z') || ('0' <= c <= '9') || c == '-' || c == '_' || c == '.'
}

/// The text is a label: one word of at least one character, each of which
/// may stand in a label.
pub open spec fn is_token(text: Seq<char>) -> bool {
    text.len() > 0 && forall|i: int| 0 <= i < text.len() ==> is_token_char(#[trigger] text[i])
}

/// The text is the order to set this label: `set-label`, one blank and the
/// label, and nothing else.
pub open spec fn sets_label(text: Seq<char>, label: Seq<char>) -> bool {
    is_token(label) && text == "set-label "@ + label
}

/// The command of a payload: one that it spells out by itself, else the label
/// that the label pattern found in it, if the payload is text, the match
/// takes in the whole of it, and the payload is the order to set this label.
/// A payload with anything besides is no command.
pub open spec fn decoded_command(
    payload: Seq<u8>,
    label_found: Option<Seq<Option<Seq<char>>>>,
) -> Option<CommandView> {
    match plain_command(payload) {
        Some(c) => Some(c),
        None => if valid_utf8(payload) && spans(label_found, decode_utf8(payload)) {
            match group(label_found, 1) {
                Some(label) => if sets_label(decode_utf8(payload), label) {
                    Some(CommandView::SetLabel(label))
                } else {
                    None
                },
                None => None,
            }
        } else {
            None
        },
    }
}

/// The number of one level of an address: a number from 0 to 255 written in
/// ASCII digits, without sign.
pub open spec fn parsed_level(text: Seq<char>) -> Option<u8> {
    if all_digits(text) {
        parsed_u8(text)
    } else {
        None
    }
}

/// The number in the group at place `k` of a match.
pub open spec fn level(found: Option<Seq<Option<Seq<char>>>>, k: int) -> Option<u8> {
    match group(found, k) {
        Some(text) => parsed_level(text),
        None => None,
    }
}

/// How a control topic ends: the three levels by number and the control
/// marker.
pub open spec fn control_suffix(pdu: Seq<char>, branch: Seq<char>, receptacle: Seq<char>) -> Seq<
    char,
> {
    "/pdu-"@ + pdu + "/branch-"@ + branch + "/receptacle-"@ + receptacle + "/control"@
}

/// The place that a topic addresses, from what the topic pattern found in it.
/// The match must take in the whole topic, each of the three groups must hold
/// a number from 0 to 255, and the topic must end with these three numbers as
/// its levels and with the control marker: a topic that goes on after the
/// marker is no control topic.
pub open spec fn decoded_address(
    topic: Seq<char>,
    topic_found: Option<Seq<Option<Seq<char>>>>,
) -> Result<(u8, u8, u8), DecodeError> {
    if !spans(topic_found, topic) {
        Err(DecodeError::Topic)
    } else if level(topic_found, 1) is None {
        Err(DecodeError::Pdu)
    } else if level(topic_found, 2) is None {
        Err(DecodeError::Branch)
    } else if level(topic_found, 3) is None {
        Err(DecodeError::Receptacle)
    } else if !ends_with(
        topic,
        control_suffix(
            group(topic_found, 1).unwrap(),
            group(topic_found, 2).unwrap(),
            group(topic_found, 3).unwrap(),
        ),
    ) {
        Err(DecodeError::Topic)
    } else {
        Ok(
            (
                level(topic_found, 1).unwrap(),
                level(topic_found, 2).unwrap(),
                level(topic_found, 3).unwrap(),
            ),
        )
    }
}

/// The decoded message, from what the two patterns found.
pub open spec fn decoded_query(
    topic: Seq<char>,
    topic_found: Option<Seq<Option<Seq<char>>>>,
    payload: Seq<u8>,
    label_found: Option<Seq<Option<Seq<char>>>>,
) -> Result<QueryView, DecodeError> {
    match decoded_address(topic, topic_found) {
        Err(e) => Err(e),
        Ok((pdu, branch, receptacle)) => Ok(
            QueryView { cmd: decoded_command(payload, label_found), pdu, branch, receptacle },
        ),
    }
}

/// What the label pattern finds in a payload: nothing in bytes that are no
/// text.
pub open spec fn label_search(payload: Seq<u8>) -> Option<Seq<Option<Seq<char>>>> {
    if valid_utf8(payload) {
        regex_captures(LABEL_PATTERN@, decode_utf8(payload))
    } else {
        None
    }
}

/// The view of a decoding result.
pub open spec fn result_view(r: Result<Query, DecodeError>) -> Result<QueryView, DecodeError> {
    match r {
        Ok(q) => Ok(q@),
        Err(e) => Err(e),
    }
}

/// Tells whether the bytes are exactly the ASCII text `word`.
fn spells(payload: &[u8], word: &str) -> (same: bool)
    requires
        word.is_ascii(),
    ensures
        same == (payload@ == ascii_bytes(word@)),
{
    broadcast use vstd::string::is_ascii_spec_bytes;

    let bytes = word.as_bytes();
    assert(bytes@ =~= ascii_bytes(word@));
    if payload.len() != bytes.len() {
        return false;
    }
    let mut i: usize = 0;
    while i < payload.len()
        invariant
            i <= payload.len(),
            payload.len() == bytes.len(),
            bytes@ == ascii_bytes(word@),
            forall|j: int| 0 <= j < i ==> payload@[j] == bytes@[j],
        decreases payload.len() - i,
    {
        if payload[i] != bytes[i] {
            assert(payload@[i as int] != ascii_bytes(word@)[i as int]);
            return false;
        }
        i += 1;
    }
    assert(payload@ =~= bytes@);
    true
}

/// Reads the command that a payload spells out by itself: `enable`, `disable`
/// or `identify`, and nothing else.
pub fn plain_command_of(payload: &[u8]) -> (cmd: Option<Command>)
    ensures
        match cmd {
            Some(c) => Some(c@) == plain_command(payload@),
            None => plain_command(payload@) is None,
        },
        !(cmd matches Some(Command::SetLabel(_))),
{
    proof {
        reveal_strlit("enable");
        reveal_strlit("disable");
        reveal_strlit("identify");
    }
    if spells(payload, "enable") {
        Some(Command::Enable)
    } else if spells(payload, "disable") {
        Some(Command::Disable)
    } else if spells(payload, "identify") {
        Some(Command::Identify)
    } else {
        None
    }
}

/// Copies the text of the group at place `k` of a match, if the match has one.
fn group_of(found: &Option<Vec<Option<String>>>, k: usize) -> (text: Option<String>)
    ensures
        text.deep_view() == group(found.deep_view(), k as int),
{
    match found {
        Some(groups) => {
            assert(groups.deep_view().len() == groups.len());
            if k < groups.len() {
                assert(groups.deep_view()[k as int] == groups[k as int].deep_view());
                match &groups[k] {
                    Some(text) => Some(text.clone()),
                    None => None,
                }
            } else {
                None
            }
        },
        None => None,
    }
}

/// Tells whether a match is there and takes in the whole of a text.
fn spans_text(found: &Option<Vec<Option<String>>>, text: &str) -> (whole: bool)
    ensures
        whole == spans(found.deep_view(), text@),
{
    match group_of(found, 0) {
        Some(matched) => matched == text.to_owned(),
        None => false,
    }
}

/// Reads the number of one level of the address.
fn parse_level(text: &str) -> (value: Option<u8>)
    ensures
        value == parsed_level(text@),
{
    if text.unicode_len() > 0 && text.get_char(0) == '+' {
        assert(!crate::text::is_digit(text@[0]));
        None
    } else {
        let value = parse_u8(text);
        proof {
            if all_digits(text@) && text@.len() > 0 {
                assert(crate::text::is_digit(text@[0]));
            }
        }
        value
    }
}

/// Tells whether a text is a label.
fn is_token_text(text: &str) -> (yes: bool)
    ensures
        yes == is_token(text@),
{
    let n: usize = text.unicode_len();
    if n == 0 {
        return false;
    }
    let mut i: usize = 0;
    while i < n
        invariant
            i <= n,
            n == text@.len(),
            forall|j: int| 0 <= j < i ==> is_token_char(#[trigger] text@[j]),
        decreases n - i,
    {
        let c: char = text.get_char(i);
        let fits = (c >= 'A' && c <= 'Z') || (c >= 'a' && c <= 'z') || (c >= '0' && c <= '9') || c
            == '-' || c == '_' || c == '.';
        if !fits {
            assert(!is_token_char(text@[i as int]));
            return false;
        }
        i += 1;
    }
    true
}

/// Tells whether a text is the order to set a label.
fn sets_label_text(text: &str, label: &str) -> (yes: bool)
    ensures
        yes == sets_label(text@, label@),
{
    is_token_text(label) && text.to_owned() == join("set-label ", label)
}

/// Writes how a control topic ends.
fn control_suffix_text(pdu: &str, branch: &str, receptacle: &str) -> (suffix: String)
    ensures
        suffix@ == control_suffix(pdu@, branch@, receptacle@),
{
    let mut suffix = String::from_str("/pdu-");
    suffix.append(pdu);
    suffix.append("/branch-");
    suffix.append(branch);
    suffix.append("/receptacle-");
    suffix.append(receptacle);
    suffix.append("/control");
    suffix
}

/// Decodes a control message from what the two patterns found in its topic
/// and in its payload, and holds what they found against the topic and the
/// payload themselves. The topic's match must take in the whole topic, each of
/// its three numbers must be a number from 0 to 255 in ASCII digits, and the
/// topic must end with these numbers as its levels and the control marker;
/// else the error says which of these failed first. The command is the one
/// that the payload spells out by itself, else the label that the label
/// pattern found, if the payload is `set-label`, a blank and that label and
/// nothing else; a payload that holds neither gives a query without a
/// command.
pub fn decode_query(
    topic: &str,
    topic_found: &Option<Vec<Option<String>>>,
    payload: &[u8],
    label_found: &Option<Vec<Option<String>>>,
) -> (query: Result<Query, DecodeError>)
    ensures
        result_view(query) == decoded_query(
            topic@,
            topic_found.deep_view(),
            payload@,
            label_found.deep_view(),
        ),
{
    if !spans_text(topic_found, topic) {
        return Err(DecodeError::Topic);
    }
    let (pdu_text, pdu) = match group_of(topic_found, 1) {
        Some(text) => match parse_level(text.as_str()) {
            Some(n) => (text, n),
            None => {
                return Err(DecodeError::Pdu);
            },
        },
        None => {
            return Err(DecodeError::Pdu);
        },
    };
    let (branch_text, branch) = match group_of(topic_found, 2) {
        Some(text) => match parse_level(text.as_str()) {
            Some(n) => (text, n),
            None => {
                return Err(DecodeError::Branch);
            },
        },
        None => {
            return Err(DecodeError::Branch);
        },
    };
    let (receptacle_text, receptacle) = match group_of(topic_found, 3) {
        Some(text) => match parse_level(text.as_str()) {
            Some(n) => (text, n),
            None => {
                return Err(DecodeError::Receptacle);
            },
        },
        None => {
            return Err(DecodeError::Receptacle);
        },
    };
    let suffix = control_suffix_text(
        pdu_text.as_str(),
        branch_text.as_str(),
        receptacle_text.as_str(),
    );
    if !str_ends_with(topic, suffix.as_str()) {
        return Err(DecodeError::Topic);
    }
    let cmd = match plain_command_of(payload) {
        Some(c) => Some(c),
        None => match text_of(payload) {
            Some(text) => {
                proof {
                    vstd::utf8::encode_utf8_decode_utf8(text@);
                }
                if spans_text(label_found, text) {
                    match group_of(label_found, 1) {
                        Some(label) => if sets_label_text(text, label.as_str()) {
                            Some(Command::SetLabel(label))
                        } else {
                            None
                        },
                        None => None,
                    }
                } else {
                    None
                }
            },
            None => None,
        },
    };
    Ok(Query { cmd, pdu, branch, receptacle })
}

/// Decodes an inbound control message. The pattern error comes exactly where
/// the pattern compiler refuses a pattern that is needed: the topic pattern,
/// or the label pattern for a payload that is text. Else the result is
/// `decode_query` of what the topic pattern finds in the topic and of what the
/// label pattern finds in the payload read as text.
pub fn parse_incoming_msg(topic: &str, payload: &[u8]) -> (query: Result<Query, DecodeError>)
    ensures
        (query == Err::<Query, DecodeError>(DecodeError::Pattern)) == (!regex_compiles(
            TOPIC_PATTERN@,
        ) || (valid_utf8(payload@) && !regex_compiles(LABEL_PATTERN@))),
        query != Err::<Query, DecodeError>(DecodeError::Pattern) ==> result_view(query)
            == decoded_query(
            topic@,
            regex_captures(TOPIC_PATTERN@, topic@),
            payload@,
            label_search(payload@),
        ),
{
    let topic_found = match captures(TOPIC_PATTERN, topic) {
        Ok(found) => found,
        Err(_) => {
            return Err(DecodeError::Pattern);
        },
    };
    let label_found = match text_of(payload) {
        Some(text) => {
            proof {
                vstd::utf8::encode_utf8_decode_utf8(text@);
            }
            match captures(LABEL_PATTERN, text) {
                Ok(found) => found,
                Err(_) => {
                    return Err(DecodeError::Pattern);
                },
            }
        },
        None => None,
    };
    decode_query(topic, &topic_found, payload, &label_found)
}

/// Whatever the label pattern is said to have found, a label is decoded only
/// from a payload that is text and is exactly `set-label`, a blank and the
/// label, a word of the characters that may stand in a label; and a payload
/// that spells a command by itself never sets a label.
pub proof fn lemma_label_needs_the_whole_payload(
    payload: Seq<u8>,
    label_found: Option<Seq<Option<Seq<char>>>>,
    label: Seq<char>,
)
    requires
        decoded_command(payload, label_found) == Some(CommandView::SetLabel(label)),
    ensures
        plain_command(payload) is None,
        valid_utf8(payload),
        decode_utf8(payload) == "set-label "@ + label,
        is_token(label),
        group(label_found, 0) == Some(decode_utf8(payload)),
        group(label_found, 1) == Some(label),
{
}

/// Whatever the topic pattern is said to have found, an address is decoded
/// only from a topic that ends with its three levels, each a number in ASCII
/// digits that stands for the decoded one, and with the control marker:
/// nothing follows the marker.
pub proof fn lemma_address_needs_the_whole_topic(
    topic: Seq<char>,
    topic_found: Option<Seq<Option<Seq<char>>>>,
)
    requires
        decoded_address(topic, topic_found) is Ok,
    ensures
        group(topic_found, 0) == Some(topic),
        exists|pdu: Seq<char>, branch: Seq<char>, receptacle: Seq<char>|
            {
                &&& #[trigger] ends_with(topic, control_suffix(pdu, branch, receptacle))
                &&& decoded_address(topic, topic_found) == Ok::<(u8, u8, u8), DecodeError>(
                    (
                        parsed_level(pdu).unwrap(),
                        parsed_level(branch).unwrap(),
                        parsed_level(receptacle).unwrap(),
                    ),
                )
                &&& all_digits(pdu) && all_digits(branch) && all_digits(receptacle)
            },
{
    let pdu = group(topic_found, 1).unwrap();
    let branch = group(topic_found, 2).unwrap();
    let receptacle = group(topic_found, 3).unwrap();
    assert(ends_with(topic, control_suffix(pdu, branch, receptacle)));
}

} // verus!
