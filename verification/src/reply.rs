//! What each mail operation makes of the text that its script printed.

use vstd::prelude::*;
use vstd::utf8::{decode_utf8, valid_utf8};

use crate::error::MailError;
use crate::number::{parse_usize, parse_usize_spec, IntError};
use crate::templates::{ERROR_PREFIX, NO_ATTACHMENTS};
use crate::text::{
    lemma_split_nonempty, lemma_split_without_separator,
    chars_of, clean_id, clean_message_id, contains, contains_seq, push_chars, split_on,
    split_trimmed, starts_with, string_of, trim_chars, trimmed, trimmed_pieces,
};

verus! {

/// The text of a UTF-8 decoding failure (std's `Display` of
/// `FromUtf8Error`), a function of the bytes alone.
pub uninterp spec fn utf8_error_text(bytes: Seq<u8>) -> Seq<char>;

/// std's `String::from_utf8`: the decoded text when `bytes` is valid UTF-8,
/// otherwise the error's text.
#[verifier::external_body]
fn string_from_utf8(bytes: Vec<u8>) -> (r: Result<String, String>)
    ensures
        r is Ok <==> valid_utf8(bytes@),
        r matches Ok(s) ==> s@ == decode_utf8(bytes@),
        r matches Err(m) ==> m@ == utf8_error_text(bytes@),
{
    String::from_utf8(bytes).map_err(|e| e.to_string())
}

/// What running a script gives: its standard output decoded and trimmed
/// when it succeeded, otherwise its standard error as the failure.
pub open spec fn run_outcome(
    success: bool,
    stdout: Seq<u8>,
    stderr: Seq<u8>,
    res: Result<String, MailError>,
) -> bool {
    let bytes = if success {
        stdout
    } else {
        stderr
    };
    if !valid_utf8(bytes) {
        res matches Err(MailError::AppleScriptError(m)) && m@ == utf8_error_text(bytes)
    } else if success {
        res matches Ok(s) && s@ == trimmed(decode_utf8(stdout))
    } else {
        res matches Err(MailError::AppleScriptError(m)) && m@ == decode_utf8(stderr)
    }
}

/// Turns the exit status and output of `osascript` into the script's result.
pub fn script_outcome(success: bool, stdout: Vec<u8>, stderr: Vec<u8>) -> (res: Result<
    String,
    MailError,
>)
    ensures
        run_outcome(success, stdout@, stderr@, res),
{
    if success {
        match string_from_utf8(stdout) {
            Ok(s) => {
                let c = chars_of(s.as_str());
                Ok(string_of(&trim_chars(&c)))
            },
            Err(m) => Err(MailError::AppleScriptError(m)),
        }
    } else {
        match string_from_utf8(stderr) {
            Ok(s) => Err(MailError::AppleScriptError(s)),
            Err(m) => Err(MailError::AppleScriptError(m)),
        }
    }
}

/// Whether `s` is exactly `t`.
pub fn same_text(s: &[char], t: &str) -> (b: bool)
    ensures
        b == (s@ == t@),
{
    let p = starts_with(s, t);
    let tc = chars_of(t);
    let b = p && tc.len() == s.len();
    assert(b ==> s@ =~= t@);
    b
}

/// The lowercase form of a text (std's `str::to_lowercase`, which follows
/// Unicode's case mappings), a function of the text alone.
pub uninterp spec fn lowercase_of(s: Seq<char>) -> Seq<char>;

/// std's `str::to_lowercase`.
#[verifier::external_body]
fn to_lowercase(s: &str) -> (r: String)
    ensures
        r@ == lowercase_of(s@),
{
    s.to_lowercase()
}

/// Whether a lowercased reply says `true`.
pub fn says_true(lowered: &str) -> (b: bool)
    ensures
        b == contains_seq(lowered@, "true"@),
{
    contains(&chars_of(lowered), "true")
}

/// The reply to "is Mail running": whether the lowercased output mentions `true`.
pub open spec fn running_reply(out: Result<String, MailError>, res: Result<bool, MailError>) -> bool {
    match out {
        Ok(o) => res == Ok::<bool, MailError>(contains_seq(lowercase_of(o@), "true"@)),
        Err(e) => res == Err::<bool, MailError>(e),
    }
}

/// Reads the reply to "is Mail running".
pub fn running_from_output(out: Result<String, MailError>) -> (res: Result<bool, MailError>)
    ensures
        running_reply(out, res),
{
    match out {
        Ok(o) => {
            let lowered = to_lowercase(o.as_str());
            Ok(says_true(lowered.as_str()))
        },
        Err(e) => Err(e),
    }
}

/// The text std gives for each way parsing an integer can fail.
pub open spec fn int_error_text(k: IntError) -> Seq<char> {
    match k {
        IntError::Empty => "cannot parse integer from empty string"@,
        IntError::InvalidDigit => "invalid digit found in string"@,
        IntError::PosOverflow => "number too large to fit in target type"@,
    }
}

/// The text of an integer parsing failure.
pub fn int_error_message(k: IntError) -> (m: Vec<char>)
    ensures
        m@ == int_error_text(k),
{
    match k {
        IntError::Empty => chars_of("cannot parse integer from empty string"),
        IntError::InvalidDigit => chars_of("invalid digit found in string"),
        IntError::PosOverflow => chars_of("number too large to fit in target type"),
    }
}

/// The reply to an unread count: the number the output spells, or a failure
/// that says why it is not one.
pub open spec fn count_reply(out: Result<String, MailError>, res: Result<usize, MailError>) -> bool {
    match out {
        Err(e) => res == Err::<usize, MailError>(e),
        Ok(o) => match parse_usize_spec(o@) {
            Ok(n) => res == Ok::<usize, MailError>(n as usize),
            Err(k) => res matches Err(MailError::AppleScriptError(m)) && m@ == "Failed to parse unread count: "@
                + int_error_text(k),
        },
    }
}

/// Reads an unread count.
pub fn count_from_output(out: Result<String, MailError>) -> (res: Result<usize, MailError>)
    ensures
        count_reply(out, res),
{
    match out {
        Err(e) => Err(e),
        Ok(o) => {
            let c = chars_of(o.as_str());
            match parse_usize(&c) {
                Ok(n) => Ok(n),
                Err(k) => {
                    let mut m = chars_of("Failed to parse unread count: ");
                    let t = int_error_message(k);
                    push_chars(&mut m, &t);
                    Err(MailError::AppleScriptError(string_of(&m)))
                },
            }
        },
    }
}

/// The reply to a list of names: the comma-separated pieces of the output,
/// each trimmed.
pub open spec fn names_reply(out: Result<String, MailError>, res: Result<Vec<String>, MailError>) -> bool {
    match out {
        Err(e) => res == Err::<Vec<String>, MailError>(e),
        Ok(o) => res matches Ok(v) && trimmed_pieces(v@, split_on(o@, ',')),
    }
}

/// Reads a comma-separated list of names.
pub fn names_from_output(out: Result<String, MailError>) -> (res: Result<Vec<String>, MailError>)
    ensures
        names_reply(out, res),
{
    match out {
        Err(e) => Err(e),
        Ok(o) => Ok(split_trimmed(&chars_of(o.as_str()), ',')),
    }
}

/// The reply to an operation on one message: a failure naming the cleaned id
/// when the output starts with `ERROR:`, otherwise the output itself.
pub open spec fn found_reply(
    message_id: Seq<char>,
    out: Result<String, MailError>,
    res: Result<String, MailError>,
) -> bool {
    match out {
        Err(e) => res == Err::<String, MailError>(e),
        Ok(o) => if ERROR_PREFIX@.is_prefix_of(o@) {
            res matches Err(MailError::MessageNotFound(m)) && m@ == clean_id(message_id)
        } else {
            res == Ok::<String, MailError>(o)
        },
    }
}

/// Reads the output of a script about one message.
pub fn found_from_output(message_id: &str, out: Result<String, MailError>) -> (res: Result<
    String,
    MailError,
>)
    ensures
        found_reply(message_id@, out, res),
{
    match out {
        Err(e) => Err(e),
        Ok(o) => {
            if starts_with(&chars_of(o.as_str()), ERROR_PREFIX) {
                Err(MailError::MessageNotFound(string_of(&clean_message_id(message_id))))
            } else {
                Ok(o)
            }
        },
    }
}

/// The reply to a change made to one message: as `found_reply`, the output
/// itself being dropped.
pub open spec fn changed_reply(
    message_id: Seq<char>,
    out: Result<String, MailError>,
    res: Result<(), MailError>,
) -> bool {
    match out {
        Err(e) => res == Err::<(), MailError>(e),
        Ok(o) => if ERROR_PREFIX@.is_prefix_of(o@) {
            res matches Err(MailError::MessageNotFound(m)) && m@ == clean_id(message_id)
        } else {
            res == Ok::<(), MailError>(())
        },
    }
}

/// Reads the output of a script that changes one message.
pub fn changed_from_output(message_id: &str, out: Result<String, MailError>) -> (res: Result<
    (),
    MailError,
>)
    ensures
        changed_reply(message_id@, out, res),
{
    match found_from_output(message_id, out) {
        Ok(_) => Ok(()),
        Err(e) => Err(e),
    }
}

/// The reply to saving attachments: no paths when the script found none, a
/// failure naming the cleaned id when it reported an error, otherwise the
/// comma-separated paths it printed, each trimmed.
pub open spec fn attachments_reply(
    message_id: Seq<char>,
    out: Result<String, MailError>,
    res: Result<Vec<String>, MailError>,
) -> bool {
    match out {
        Err(e) => res == Err::<Vec<String>, MailError>(e),
        Ok(o) => if o@ == NO_ATTACHMENTS@ {
            res matches Ok(v) && v@.len() == 0
        } else if ERROR_PREFIX@.is_prefix_of(o@) {
            res matches Err(MailError::MessageNotFound(m)) && m@ == clean_id(message_id)
        } else {
            res matches Ok(v) && trimmed_pieces(v@, split_on(o@, ','))
        },
    }
}

/// Reads the output of the attachment script.
pub fn attachments_from_output(message_id: &str, out: Result<String, MailError>) -> (res: Result<
    Vec<String>,
    MailError,
>)
    ensures
        attachments_reply(message_id@, out, res),
{
    match out {
        Err(e) => Err(e),
        Ok(o) => {
            let c = chars_of(o.as_str());
            if same_text(&c, NO_ATTACHMENTS) {
                Ok(Vec::new())
            } else if starts_with(&c, ERROR_PREFIX) {
                Err(MailError::MessageNotFound(string_of(&clean_message_id(message_id))))
            } else {
                Ok(split_trimmed(&c, ','))
            }
        },
    }
}

/// The reply of an operation that only reports success.
pub open spec fn done_reply(out: Result<String, MailError>, res: Result<(), MailError>) -> bool {
    match out {
        Err(e) => res == Err::<(), MailError>(e),
        Ok(_) => res == Ok::<(), MailError>(()),
    }
}

/// Reads the output of a script whose text does not matter.
pub fn done_from_output(out: Result<String, MailError>) -> (res: Result<(), MailError>)
    ensures
        done_reply(out, res),
{
    match out {
        Ok(_) => Ok(()),
        Err(e) => Err(e),
    }
}

/// Reading one message: an output that does not begin with `ERROR:` is the
/// result itself, unchanged, whatever it contains further on; an output
/// that begins with `ERROR:` means the message is missing, reported under
/// its cleaned id; a script that could not run gives its failure.
pub proof fn lemma_found_reply_only_prefix_means_missing(
    message_id: Seq<char>,
    out: Result<String, MailError>,
    res: Result<String, MailError>,
)
    requires
        found_reply(message_id, out, res),
    ensures
        out is Ok && !ERROR_PREFIX@.is_prefix_of(out->Ok_0@) ==> res == out,
        out is Ok && ERROR_PREFIX@.is_prefix_of(out->Ok_0@) ==> (res matches Err(
            MailError::MessageNotFound(m),
        ) && m@ == clean_id(message_id)),
        out is Err ==> res == out,
{
}

/// Changing one message: it succeeded exactly when its script ran and did
/// not print something beginning with `ERROR:`; such an output means the
/// message is missing, reported under its cleaned id.
pub proof fn lemma_changed_reply_only_prefix_means_missing(
    message_id: Seq<char>,
    out: Result<String, MailError>,
    res: Result<(), MailError>,
)
    requires
        changed_reply(message_id, out, res),
    ensures
        res is Ok <==> (out is Ok && !ERROR_PREFIX@.is_prefix_of(out->Ok_0@)),
        out is Ok && ERROR_PREFIX@.is_prefix_of(out->Ok_0@) ==> (res matches Err(
            MailError::MessageNotFound(m),
        ) && m@ == clean_id(message_id)),
        out is Err ==> res == Err::<(), MailError>(out->Err_0),
{
}

/// Saving attachments: unless the script printed exactly `NO_ATTACHMENTS`
/// or began with `ERROR:`, every path it printed is listed: there is one
/// more path than there are commas in the output, so never none, and an
/// output without a comma is exactly one path, the output trimmed.
pub proof fn lemma_attachment_paths_are_listed(
    message_id: Seq<char>,
    o: String,
    res: Result<Vec<String>, MailError>,
)
    requires
        attachments_reply(message_id, Ok(o), res),
        o@ != NO_ATTACHMENTS@,
        !ERROR_PREFIX@.is_prefix_of(o@),
    ensures
        res matches Ok(v) && v@.len() == split_on(o@, ',').len() && v@.len() >= 1,
        (forall|k: int| 0 <= k < o@.len() ==> o@[k] != ',') ==> (res matches Ok(v) && v@.len()
            == 1 && v@[0]@ == trimmed(o@)),
{
    lemma_split_nonempty(o@, ',');
    if forall|k: int| 0 <= k < o@.len() ==> o@[k] != ',' {
        lemma_split_without_separator(o@, ',');
    }
}

/// Saving attachments: the output `NO_ATTACHMENTS` (exactly) means no
/// paths, and nothing else does.
pub proof fn lemma_no_attachments_only_when_said(
    message_id: Seq<char>,
    out: Result<String, MailError>,
    res: Result<Vec<String>, MailError>,
)
    requires
        attachments_reply(message_id, out, res),
    ensures
        (res matches Ok(v) && v@.len() == 0) <==> (out is Ok && out->Ok_0@ == NO_ATTACHMENTS@),
{
    if let Ok(o) = out {
        lemma_split_nonempty(o@, ',');
    }
}

} // verus!
