//! Host name and address of the machine, read out of the output of the
//! commands that report them.
//!
//! Running the commands is the caller's business. What comes back is handed
//! over as a [`CommandOutput`], or as `None` if the command could not be run.

use vstd::prelude::*;
use vstd::utf8::{decode_utf8, valid_utf8};

verus! {

/// What a finished command left behind.
#[derive(Debug, PartialEq, Eq)]
pub struct CommandOutput {
    /// Whether the command exited successfully.
    pub success: bool,
    /// The bytes it wrote to its standard output.
    pub stdout: Vec<u8>,
}

/// Whether `c` is white space, as `char::is_whitespace` decides it.
pub uninterp spec fn is_whitespace(c: char) -> bool;

/// Calls `char::is_whitespace`, whose answer depends on the character alone.
#[verifier::external_body]
fn char_is_whitespace(c: char) -> (b: bool)
    ensures
        b == is_whitespace(c),
{
    c.is_whitespace()
}

/// Calls `String::from_utf8`, which accepts exactly the byte strings that are
/// valid UTF-8 and then holds the text that they encode.
#[verifier::external_body]
fn string_from_utf8(bytes: Vec<u8>) -> (text: Option<String>)
    ensures
        text is Some <==> valid_utf8(bytes@),
        text matches Some(t) ==> t@ == decode_utf8(bytes@),
{
    String::from_utf8(bytes).ok()
}

/// For each character of `text`, whether it is white space.
pub open spec fn whitespace_flags(text: Seq<char>) -> Seq<bool> {
    Seq::new(text.len(), |i: int| is_whitespace(text[i]))
}

/// `text` without the white space at its start.
pub open spec fn trim_start(text: Seq<char>) -> Seq<char>
    decreases text.len(),
{
    if text.len() > 0 && is_whitespace(text[0]) {
        trim_start(text.drop_first())
    } else {
        text
    }
}

/// `text` without the white space at its end.
pub open spec fn trim_end(text: Seq<char>) -> Seq<char>
    decreases text.len(),
{
    if text.len() > 0 && is_whitespace(text.last()) {
        trim_end(text.drop_last())
    } else {
        text
    }
}

/// `text` without the white space at either end.
pub open spec fn trimmed(text: Seq<char>) -> Seq<char> {
    trim_end(trim_start(text))
}

/// The characters at the start of `text` up to the first white space.
pub open spec fn leading_word(text: Seq<char>) -> Seq<char>
    decreases text.len(),
{
    if text.len() > 0 && !is_whitespace(text[0]) {
        seq![text[0]] + leading_word(text.drop_first())
    } else {
        Seq::empty()
    }
}

/// The first run of characters of `text` that are not white space; `None` if
/// `text` is empty or all white space.
pub open spec fn first_word(text: Seq<char>) -> Option<Seq<char>> {
    let rest = trim_start(text);
    if rest.len() == 0 {
        None
    } else {
        Some(leading_word(rest))
    }
}

/// The text that a command printed, if it ran, succeeded and printed valid
/// UTF-8.
pub open spec fn printed_text(output: Option<CommandOutput>) -> Option<Seq<char>> {
    match output {
        Some(out) => if out.success && valid_utf8(out.stdout@) {
            Some(decode_utf8(out.stdout@))
        } else {
            None
        },
        None => None,
    }
}

/// The host name that the output of `hostname` stands for.
pub open spec fn hostname_of(output: Option<CommandOutput>) -> Seq<char> {
    match printed_text(output) {
        Some(text) => trimmed(text),
        None => "UNKNOWN"@,
    }
}

/// The address that the output of `hostname -I` stands for.
pub open spec fn ip_address_of(output: Option<CommandOutput>) -> Seq<char> {
    match printed_text(output) {
        Some(text) => match first_word(text) {
            Some(word) => word,
            None => "0.0.0.0"@,
        },
        None => "0.0.0.0"@,
    }
}

/// Skipping `k` characters of white space at the start of `text` leaves what
/// `trim_start` leaves, if the character after them is none.
proof fn lemma_trim_start_at(text: Seq<char>, k: int)
    requires
        0 <= k <= text.len(),
        forall|i: int| 0 <= i < k ==> is_whitespace(text[i]),
        k < text.len() ==> !is_whitespace(text[k]),
    ensures
        trim_start(text) == text.subrange(k, text.len() as int),
    decreases k,
{
    if k > 0 {
        lemma_trim_start_at(text.drop_first(), k - 1);
    }
}

/// Dropping the white space after the first `k` characters of `text` leaves
/// what `trim_end` leaves, if the character before it is none.
proof fn lemma_trim_end_at(text: Seq<char>, k: int)
    requires
        0 <= k <= text.len(),
        forall|i: int| k <= i < text.len() ==> is_whitespace(text[i]),
        k > 0 ==> !is_whitespace(text[k - 1]),
    ensures
        trim_end(text) == text.subrange(0, k),
    decreases text.len() - k,
{
    if k < text.len() {
        lemma_trim_end_at(text.drop_last(), k);
    }
}

/// The first `k` characters of `text` are its leading word, if none of them is
/// white space and the character after them is.
proof fn lemma_leading_word_at(text: Seq<char>, k: int)
    requires
        0 <= k <= text.len(),
        forall|i: int| 0 <= i < k ==> !is_whitespace(text[i]),
        k < text.len() ==> is_whitespace(text[k]),
    ensures
        leading_word(text) == text.subrange(0, k),
    decreases k,
{
    if k > 0 {
        lemma_leading_word_at(text.drop_first(), k - 1);
    }
}

/// A word has no white space at either end, so trimming it changes nothing.
pub proof fn lemma_word_is_trimmed(text: Seq<char>)
    requires
        first_word(text) is Some,
    ensures
        first_word(text)->0.len() > 0,
        forall|i: int|
            0 <= i < first_word(text)->0.len() ==> !is_whitespace(#[trigger] first_word(text)->0[i]),
        trimmed(first_word(text)->0) == first_word(text)->0,
{
    let rest = trim_start(text);
    let word = leading_word(rest);
    lemma_trim_start_stops(text);
    lemma_leading_word_is_prefix(rest);
    lemma_trim_start_at(word, 0);
    lemma_trim_end_at(word, word.len() as int);
}

/// What `trim_start` leaves does not begin with white space.
proof fn lemma_trim_start_stops(text: Seq<char>)
    ensures
        trim_start(text).len() > 0 ==> !is_whitespace(trim_start(text)[0]),
    decreases text.len(),
{
    if text.len() > 0 && is_whitespace(text[0]) {
        lemma_trim_start_stops(text.drop_first());
    }
}

/// The leading word is a prefix of the text, free of white space, and not
/// empty unless the text is empty or begins with white space.
proof fn lemma_leading_word_is_prefix(text: Seq<char>)
    ensures
        leading_word(text).len() <= text.len(),
        forall|i: int|
            0 <= i < leading_word(text).len() ==> #[trigger] leading_word(text)[i] == text[i]
                && !is_whitespace(text[i]),
        text.len() > 0 && !is_whitespace(text[0]) ==> leading_word(text).len() > 0,
    decreases text.len(),
{
    if text.len() > 0 && !is_whitespace(text[0]) {
        lemma_leading_word_is_prefix(text.drop_first());
    }
}

/// Computes [`whitespace_flags`].
pub fn classify(text: &str) -> (flags: Vec<bool>)
    ensures
        flags@ == whitespace_flags(text@),
{
    let mut flags: Vec<bool> = Vec::new();
    let chars = text.chars();
    proof {
        vstd::string::axiom_spec_iter(text);
    }
    for c in it: chars
        invariant
            it.seq() == text@,
            flags@.len() == it.index(),
            forall|j: int| 0 <= j < flags@.len() ==> flags@[j] == is_whitespace(text@[j]),
    {
        flags.push(char_is_whitespace(c));
    }
    flags
}

/// Finds what is left of a text when the white space at both ends goes, from
/// the flags that mark its white space: the range from the first character
/// that is none to the last. A text that is all white space gives the empty
/// range at its end.
pub fn trim_bounds(flags: &[bool]) -> (bounds: (usize, usize))
    ensures
        bounds.0 <= bounds.1 <= flags@.len(),
        forall|i: int| 0 <= i < bounds.0 ==> flags@[i],
        forall|i: int| bounds.1 <= i < flags@.len() ==> flags@[i],
        bounds.0 < bounds.1 ==> !flags@[bounds.0 as int] && !flags@[bounds.1 - 1],
        bounds.0 == bounds.1 ==> bounds.0 == flags@.len(),
{
    let len = flags.len();
    let mut start: usize = 0;
    while start < len && flags[start]
        invariant
            start <= len,
            len == flags@.len(),
            forall|i: int| 0 <= i < start ==> flags@[i],
        decreases len - start,
    {
        start += 1;
    }
    let mut end: usize = len;
    while end > start && flags[end - 1]
        invariant
            start <= end <= len,
            len == flags@.len(),
            start < len ==> !flags@[start as int],
            forall|i: int| end <= i < len ==> flags@[i],
        decreases end,
    {
        end -= 1;
    }
    (start, end)
}

/// Finds the first word of a text from the flags that mark its white space:
/// the range from the first character that is none up to the next that is.
/// `None` if every character is white space.
pub fn first_word_bounds(flags: &[bool]) -> (bounds: Option<(usize, usize)>)
    ensures
        match bounds {
            Some((start, end)) => {
                &&& start < end <= flags@.len()
                &&& forall|i: int| 0 <= i < start ==> flags@[i]
                &&& forall|i: int| start <= i < end ==> !flags@[i]
                &&& end < flags@.len() ==> flags@[end as int]
            },
            None => forall|i: int| 0 <= i < flags@.len() ==> flags@[i],
        },
{
    let len = flags.len();
    let mut start: usize = 0;
    while start < len && flags[start]
        invariant
            start <= len,
            len == flags@.len(),
            forall|i: int| 0 <= i < start ==> flags@[i],
        decreases len - start,
    {
        start += 1;
    }
    if start == len {
        return None;
    }
    let mut end: usize = start + 1;
    while end < len && !flags[end]
        invariant
            start < end <= len,
            len == flags@.len(),
            forall|i: int| start <= i < end ==> !flags@[i],
        decreases len - end,
    {
        end += 1;
    }
    Some((start, end))
}

/// Returns `text` without the white space at either end.
pub fn trim(text: &str) -> (result: String)
    ensures
        result@ == trimmed(text@),
{
    let flags = classify(text);
    let (start, end) = trim_bounds(flags.as_slice());
    proof {
        let rest = text@.subrange(start as int, text@.len() as int);
        assert forall|i: int| 0 <= i < start implies is_whitespace(text@[i]) by {
            assert(flags@[i]);
        }
        lemma_trim_start_at(text@, start as int);
        assert forall|i: int| end - start <= i < rest.len() implies is_whitespace(rest[i]) by {
            assert(flags@[start + i]);
        }
        lemma_trim_end_at(rest, end - start);
    }
    text.substring_char(start, end).to_owned()
}

/// Returns the first run of characters of `text` that are not white space, or
/// `None` if there is no such character.
pub fn find_first_word(text: &str) -> (result: Option<String>)
    ensures
        result is Some <==> first_word(text@) is Some,
        result matches Some(word) ==> word@ == first_word(text@)->0,
{
    let flags = classify(text);
    match first_word_bounds(flags.as_slice()) {
        Some((start, end)) => {
            proof {
                let rest = text@.subrange(start as int, text@.len() as int);
                assert forall|i: int| 0 <= i < start implies is_whitespace(text@[i]) by {
                    assert(flags@[i]);
                }
                assert(!flags@[start as int]);
                lemma_trim_start_at(text@, start as int);
                assert forall|i: int| 0 <= i < end - start implies !is_whitespace(rest[i]) by {
                    assert(!flags@[start + i]);
                }
                assert(end < text@.len() ==> flags@[end as int] && rest[end - start]
                    == text@[end as int]);
                lemma_leading_word_at(rest, end - start);
            }
            Some(text.substring_char(start, end).to_owned())
        },
        None => {
            proof {
                assert forall|i: int| 0 <= i < text@.len() implies is_whitespace(text@[i]) by {
                    assert(flags@[i]);
                }
                lemma_trim_start_at(text@, text@.len() as int);
            }
            None
        },
    }
}

/// Decodes what a command printed; `None` if it could not be run, failed, or
/// printed bytes that are not valid UTF-8.
fn decode_output(output: Option<CommandOutput>) -> (text: Option<String>)
    ensures
        text is Some <==> printed_text(output) is Some,
        text matches Some(t) ==> t@ == printed_text(output)->0,
{
    match output {
        Some(out) => {
            if out.success {
                string_from_utf8(out.stdout)
            } else {
                None
            }
        },
        None => None,
    }
}

/// The machine's first address, from the output of `hostname -I`: the first
/// word that the command printed, or `0.0.0.0` if it could not be run, failed,
/// or printed nothing readable.
pub fn get_ip_address(output: Option<CommandOutput>) -> (ip: String)
    ensures
        ip@ == ip_address_of(output),
{
    let word = match decode_output(output) {
        Some(text) => find_first_word(text.as_str()),
        None => None,
    };
    match word {
        Some(word) => word,
        None => "0.0.0.0".to_owned(),
    }
}

/// The machine's host name, from the output of `hostname`: what the command
/// printed, without the white space round it, or `UNKNOWN` if it could not be
/// run, failed, or printed bytes that are not text.
pub fn get_hostname(output: Option<CommandOutput>) -> (name: String)
    ensures
        name@ == hostname_of(output),
{
    match decode_output(output) {
        Some(text) => trim(text.as_str()),
        None => "UNKNOWN".to_owned(),
    }
}

} // verus!
