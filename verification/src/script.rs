//! The AppleScript program behind each mail operation, built from the
//! request's values. Text that goes inside an AppleScript string literal has
//! its double quotes escaped; message ids are cleaned first.

use vstd::prelude::*;

use crate::number::{decimal, push_decimal, push_signed_decimal, signed_decimal};
use crate::templates::{
    ACCOUNT_NAMES, ACTIVATE, ATTACHMENTS_0, ATTACHMENTS_1, ATTACHMENTS_2, COMPOSE_0, COMPOSE_1, COMPOSE_2, COMPOSE_3, CONTENT_0, CONTENT_1, DELETE_0, DELETE_1, FORWARD_0, FORWARD_1, FORWARD_2, FORWARD_3, FORWARD_NOTE_0, FORWARD_NOTE_1, IS_RUNNING, LIST_INBOX_0, LIST_INBOX_1, LIST_IN_ACCOUNT_0, LIST_IN_ACCOUNT_1, LIST_IN_ACCOUNT_2, LIST_IN_ACCOUNT_3, LIST_IN_MAILBOX_0, LIST_IN_MAILBOX_1, LIST_IN_MAILBOX_2, MAILBOX_NAMES, MARK_0, MARK_1, MARK_2, READ_FLAG, UNREAD_FLAG, MESSAGES_PERIOD_0, MESSAGES_PERIOD_1, MESSAGES_PERIOD_2, REFRESH_ACCOUNT_0, REFRESH_ACCOUNT_1, REFRESH_ALL, REPLY_0, REPLY_1, REPLY_2, REPLY_3, REPLY_TO_ALL, SAVE_EMAIL_0, SAVE_EMAIL_1, SEARCH_0, SEARCH_1, SELECTION, SOURCE_0, SOURCE_1, UNREAD_COUNT, UNREAD_PERIOD_0, UNREAD_PERIOD_1,
};
use crate::text::{
    chars_of, clean_id, clean_message_id, push_chars, push_str, replace_char, replace_char_with,
    string_of,
};

verus! {

/// `s` with each `"` written as `\"`.
pub open spec fn quote_escaped(s: Seq<char>) -> Seq<char> {
    replace_char(s, '"', seq!['\\', '"'])
}

/// A message body as a reply or forward writes it into the script: quotes
/// escaped, then each line break written as `" & return & "`.
pub open spec fn body_escaped(s: Seq<char>) -> Seq<char> {
    replace_char(quote_escaped(s), '\n', "\" & return & \""@)
}

/// The characters of `s` with each `"` escaped.
fn escaped(s: &str) -> (v: Vec<char>)
    ensures
        v@ == quote_escaped(s@),
{
    let c = chars_of(s);
    proof {
        reveal_strlit("\\\"");
        assert("\\\""@ =~= seq!['\\', '"']);
    }
    replace_char_with(&c, '"', "\\\"")
}

/// Escapes the double quotes of `s` for an AppleScript string literal.
pub fn escape_quotes(s: &str) -> (r: String)
    ensures
        r@ == quote_escaped(s@),
{
    string_of(&escaped(s))
}

/// The characters of a reply or forward body as the script carries them.
fn body_text(s: &str) -> (v: Vec<char>)
    ensures
        v@ == body_escaped(s@),
{
    let q = escaped(s);
    replace_char_with(&q, '\n', "\" & return & \"")
}

/// `dir` with a `/` appended unless it already ends with one.
pub open spec fn with_trailing_slash(dir: Seq<char>) -> Seq<char> {
    if dir.len() > 0 && dir.last() == '/' {
        dir
    } else {
        dir.push('/')
    }
}

/// The directory as the attachment operations use it: ending with `/`.
pub fn directory_path(dir: &str) -> (r: Vec<char>)
    ensures
        r@ == with_trailing_slash(dir@),
{
    let mut v = chars_of(dir);
    let n = v.len();
    if n == 0 || v[n - 1] != '/' {
        v.push('/');
    }
    v
}

/// The look-back period in hours: `hours` if given, else `days` days, else a day.
pub open spec fn total_hours(hours: Option<i64>, days: Option<i64>) -> int {
    match (hours, days) {
        (Some(h), _) => h as int,
        (_, Some(d)) => d * 24,
        _ => 24,
    }
}

/// Whether the period in hours fits in an `i64`.
pub open spec fn period_fits(hours: Option<i64>, days: Option<i64>) -> bool {
    i64::MIN <= total_hours(hours, days) <= i64::MAX
}

/// Whether the period in hours fits in an `i64`.
pub fn period_is_representable(hours: Option<i64>, days: Option<i64>) -> (b: bool)
    ensures
        b == period_fits(hours, days),
{
    match (hours, days) {
        (None, Some(d)) => d.checked_mul(24).is_some(),
        _ => true,
    }
}

/// The look-back period in hours.
pub fn period_hours(hours: Option<i64>, days: Option<i64>) -> (h: i64)
    requires
        period_fits(hours, days),
    ensures
        h == total_hours(hours, days),
{
    match (hours, days) {
        (Some(h), _) => h,
        (_, Some(d)) => d * 24,
        _ => 24,
    }
}

/// The script that brings Mail to the front, run when `open` fails to launch it.
pub fn launch_mail_app_script() -> (s: String)
    ensures
        s@ == ACTIVATE@,
{
    string_of(&chars_of(ACTIVATE))
}

/// The script that asks whether Mail is running.
pub fn is_mail_running_script() -> (s: String)
    ensures
        s@ == IS_RUNNING@,
{
    string_of(&chars_of(IS_RUNNING))
}

/// The script that counts the unread messages of the inbox.
pub fn get_unread_count_script() -> (s: String)
    ensures
        s@ == UNREAD_COUNT@,
{
    string_of(&chars_of(UNREAD_COUNT))
}

/// The script text that counts unread inbox messages of the last `hours` hours.
pub open spec fn unread_count_period_text(hours: int) -> Seq<char> {
    UNREAD_PERIOD_0@ + signed_decimal(hours) + UNREAD_PERIOD_1@
}

/// The script that counts the unread inbox messages of a period.
pub fn get_unread_count_period_script(hours: Option<i64>, days: Option<i64>) -> (s: String)
    requires
        period_fits(hours, days),
    ensures
        s@ == unread_count_period_text(total_hours(hours, days)),
{
    let h = period_hours(hours, days);
    let mut v = chars_of(UNREAD_PERIOD_0);
    push_signed_decimal(&mut v, h);
    push_str(&mut v, UNREAD_PERIOD_1);
    string_of(&v)
}

/// The script text that lists at most `max_count` inbox messages of the last
/// `hours` hours.
pub open spec fn messages_in_period_text(hours: int, max_count: nat) -> Seq<char> {
    MESSAGES_PERIOD_0@ + signed_decimal(hours) + MESSAGES_PERIOD_1@ + decimal(max_count)
        + MESSAGES_PERIOD_2@
}

/// The script that lists the inbox messages of a period; at most `limit`
/// of them, fifty when no limit is given.
pub fn get_messages_in_period_script(
    hours: Option<i64>,
    days: Option<i64>,
    limit: Option<usize>,
) -> (s: String)
    requires
        period_fits(hours, days),
    ensures
        s@ == messages_in_period_text(
            total_hours(hours, days),
            match limit {
                Some(l) => l as nat,
                None => 50,
            },
        ),
{
    let h = period_hours(hours, days);
    let max_count: usize = match limit {
        Some(l) => l,
        None => 50,
    };
    let mut v = chars_of(MESSAGES_PERIOD_0);
    push_signed_decimal(&mut v, h);
    push_str(&mut v, MESSAGES_PERIOD_1);
    push_decimal(&mut v, max_count as u128);
    push_str(&mut v, MESSAGES_PERIOD_2);
    string_of(&v)
}

/// The script that names every mailbox.
pub fn get_mailbox_names_script() -> (s: String)
    ensures
        s@ == MAILBOX_NAMES@,
{
    string_of(&chars_of(MAILBOX_NAMES))
}

/// The script that names every account.
pub fn get_account_names_script() -> (s: String)
    ensures
        s@ == ACCOUNT_NAMES@,
{
    string_of(&chars_of(ACCOUNT_NAMES))
}

/// The script text that lists recent messages: of a mailbox of an account
/// (the mailbox `INBOX` when only the account is given), of a mailbox of
/// whichever accounts have it, or of the inbox.
pub open spec fn list_recent_text(
    mailbox: Option<Seq<char>>,
    account: Option<Seq<char>>,
    limit: nat,
) -> Seq<char> {
    match (mailbox, account) {
        (_, Some(acc)) => {
            let mbx = match mailbox {
                Some(m) => m,
                None => "INBOX"@,
            };
            LIST_IN_ACCOUNT_0@ + quote_escaped(acc) + LIST_IN_ACCOUNT_1@ + quote_escaped(mbx)
                + LIST_IN_ACCOUNT_2@ + decimal(limit) + LIST_IN_ACCOUNT_3@
        },
        (Some(mbx), None) => LIST_IN_MAILBOX_0@ + quote_escaped(mbx) + LIST_IN_MAILBOX_1@ + decimal(
            limit,
        ) + LIST_IN_MAILBOX_2@,
        (None, None) => LIST_INBOX_0@ + decimal(limit) + LIST_INBOX_1@,
    }
}

/// The view of an optional string argument.
pub open spec fn opt_view(s: Option<&str>) -> Option<Seq<char>> {
    match s {
        Some(x) => Some(x@),
        None => None,
    }
}

/// The script that lists the `limit` most recent messages.
pub fn list_recent_messages_script(mailbox: Option<&str>, account: Option<&str>, limit: usize) -> (s:
    String)
    ensures
        s@ == list_recent_text(opt_view(mailbox), opt_view(account), limit as nat),
{
    let mut v: Vec<char>;
    match account {
        Some(acc) => {
            let mbx: &str = match mailbox {
                Some(m) => m,
                None => "INBOX",
            };
            v = chars_of(LIST_IN_ACCOUNT_0);
            push_chars(&mut v, &escaped(acc));
            push_str(&mut v, LIST_IN_ACCOUNT_1);
            push_chars(&mut v, &escaped(mbx));
            push_str(&mut v, LIST_IN_ACCOUNT_2);
            push_decimal(&mut v, limit as u128);
            push_str(&mut v, LIST_IN_ACCOUNT_3);
        },
        None => match mailbox {
            Some(mbx) => {
                v = chars_of(LIST_IN_MAILBOX_0);
                push_chars(&mut v, &escaped(mbx));
                push_str(&mut v, LIST_IN_MAILBOX_1);
                push_decimal(&mut v, limit as u128);
                push_str(&mut v, LIST_IN_MAILBOX_2);
            },
            None => {
                v = chars_of(LIST_INBOX_0);
                push_decimal(&mut v, limit as u128);
                push_str(&mut v, LIST_INBOX_1);
            },
        },
    }
    string_of(&v)
}

/// The script that searches the inbox for `query` in subject or sender.
pub fn search_messages_script(query: &str) -> (s: String)
    ensures
        s@ == SEARCH_0@ + quote_escaped(query@) + SEARCH_1@,
{
    let mut v = chars_of(SEARCH_0);
    push_chars(&mut v, &escaped(query));
    push_str(&mut v, SEARCH_1);
    string_of(&v)
}

/// The script `head` + cleaned id + `tail`.
fn message_script(head: &str, message_id: &str, tail: &str) -> (s: String)
    ensures
        s@ == head@ + clean_id(message_id@) + tail@,
{
    let mut v = chars_of(head);
    push_chars(&mut v, &clean_message_id(message_id));
    push_str(&mut v, tail);
    string_of(&v)
}

/// The script that reads a message.
pub fn get_message_content_script(message_id: &str) -> (s: String)
    ensures
        s@ == CONTENT_0@ + clean_id(message_id@) + CONTENT_1@,
{
    message_script(CONTENT_0, message_id, CONTENT_1)
}

/// The script text that sends a new message.
pub open spec fn compose_text(to: Seq<char>, subject: Seq<char>, body: Seq<char>) -> Seq<char> {
    COMPOSE_0@ + quote_escaped(subject) + COMPOSE_1@ + quote_escaped(body) + COMPOSE_2@
        + quote_escaped(to) + COMPOSE_3@
}

/// The script that sends a new message.
pub fn compose_new_email_script(to: &str, subject: &str, body: &str) -> (s: String)
    ensures
        s@ == compose_text(to@, subject@, body@),
{
    let mut v = chars_of(COMPOSE_0);
    push_chars(&mut v, &escaped(subject));
    push_str(&mut v, COMPOSE_1);
    push_chars(&mut v, &escaped(body));
    push_str(&mut v, COMPOSE_2);
    push_chars(&mut v, &escaped(to));
    push_str(&mut v, COMPOSE_3);
    string_of(&v)
}

/// The script text that replies to a message: to its sender, or to every
/// recipient when `reply_all` is set.
pub open spec fn reply_text(message_id: Seq<char>, body: Seq<char>, reply_all: bool) -> Seq<char> {
    let to_all = if reply_all {
        REPLY_TO_ALL@
    } else {
        Seq::empty()
    };
    REPLY_0@ + clean_id(message_id) + REPLY_1@ + to_all + REPLY_2@ + body_escaped(body) + REPLY_3@
}

/// The script that replies to a message, quoting it under the new body.
pub fn reply_to_message_script(message_id: &str, body: &str, reply_all: bool) -> (s: String)
    ensures
        s@ == reply_text(message_id@, body@, reply_all),
{
    let mut v = chars_of(REPLY_0);
    push_chars(&mut v, &clean_message_id(message_id));
    push_str(&mut v, REPLY_1);
    let ghost before = v@;
    if reply_all {
        push_str(&mut v, REPLY_TO_ALL);
    } else {
        assert(v@ == before + Seq::<char>::empty());
    }
    push_str(&mut v, REPLY_2);
    push_chars(&mut v, &body_text(body));
    push_str(&mut v, REPLY_3);
    string_of(&v)
}

/// The script text that forwards a message to `to`, with `body` as a note
/// above the forwarded text when it is not empty.
pub open spec fn forward_text(message_id: Seq<char>, to: Seq<char>, body: Seq<char>) -> Seq<char> {
    let note = if body.len() == 0 {
        Seq::empty()
    } else {
        FORWARD_NOTE_0@ + body_escaped(body) + FORWARD_NOTE_1@
    };
    FORWARD_0@ + clean_id(message_id) + FORWARD_1@ + quote_escaped(to) + FORWARD_2@ + note
        + FORWARD_3@
}

/// The script that forwards a message.
pub fn forward_message_script(message_id: &str, to: &str, body: &str) -> (s: String)
    ensures
        s@ == forward_text(message_id@, to@, body@),
{
    let mut v = chars_of(FORWARD_0);
    push_chars(&mut v, &clean_message_id(message_id));
    push_str(&mut v, FORWARD_1);
    push_chars(&mut v, &escaped(to));
    push_str(&mut v, FORWARD_2);
    let ghost before_note = v@;
    if !body.is_empty() {
        push_str(&mut v, FORWARD_NOTE_0);
        push_chars(&mut v, &body_text(body));
        push_str(&mut v, FORWARD_NOTE_1);
    } else {
        assert(v@ == before_note + Seq::<char>::empty());
    }
    push_str(&mut v, FORWARD_3);
    string_of(&v)
}

/// The script text that sets a message's read flag: to read when `read` is
/// set, else to unread.
pub open spec fn mark_text(message_id: Seq<char>, read: bool) -> Seq<char> {
    let flag = if read {
        READ_FLAG@
    } else {
        UNREAD_FLAG@
    };
    MARK_0@ + clean_id(message_id) + MARK_1@ + flag + MARK_2@
}

/// The script that sets a message's read flag.
fn mark_script(message_id: &str, read: bool) -> (s: String)
    ensures
        s@ == mark_text(message_id@, read),
{
    let mut v = chars_of(MARK_0);
    push_chars(&mut v, &clean_message_id(message_id));
    push_str(&mut v, MARK_1);
    if read {
        push_str(&mut v, READ_FLAG);
    } else {
        push_str(&mut v, UNREAD_FLAG);
    }
    push_str(&mut v, MARK_2);
    string_of(&v)
}

/// The script that marks a message read.
pub fn mark_message_as_read_script(message_id: &str) -> (s: String)
    ensures
        s@ == mark_text(message_id@, true),
{
    mark_script(message_id, true)
}

/// The script that marks a message unread.
pub fn mark_message_as_unread_script(message_id: &str) -> (s: String)
    ensures
        s@ == mark_text(message_id@, false),
{
    mark_script(message_id, false)
}

/// The mark-read and mark-unread scripts of one message target the same
/// message and differ only in the read flag they set.
pub proof fn lemma_mark_scripts_differ_only_in_flag(message_id: Seq<char>)
    ensures
        ({
            let head = MARK_0@ + clean_id(message_id) + MARK_1@;
            &&& mark_text(message_id, true) == head + READ_FLAG@ + MARK_2@
            &&& mark_text(message_id, false) == head + UNREAD_FLAG@ + MARK_2@
        }),
{
}

/// The script that deletes a message.
pub fn delete_message_script(message_id: &str) -> (s: String)
    ensures
        s@ == DELETE_0@ + clean_id(message_id@) + DELETE_1@,
{
    message_script(DELETE_0, message_id, DELETE_1)
}

/// The script text that saves a message's attachments into `dir`.
pub open spec fn attachments_text(message_id: Seq<char>, dir: Seq<char>) -> Seq<char> {
    ATTACHMENTS_0@ + clean_id(message_id) + ATTACHMENTS_1@ + quote_escaped(with_trailing_slash(dir))
        + ATTACHMENTS_2@
}

/// The script that saves a message's attachments into a directory and prints
/// their paths.
pub fn download_attachments_script(message_id: &str, save_directory: &str) -> (s: String)
    ensures
        s@ == attachments_text(message_id@, save_directory@),
{
    let dir = directory_path(save_directory);
    let dir_text = string_of(&dir);
    let mut v = chars_of(ATTACHMENTS_0);
    push_chars(&mut v, &clean_message_id(message_id));
    push_str(&mut v, ATTACHMENTS_1);
    push_chars(&mut v, &escaped(dir_text.as_str()));
    push_str(&mut v, ATTACHMENTS_2);
    string_of(&v)
}

/// The script that prints a message with its headers, for saving to a file.
pub fn save_email_to_file_script(message_id: &str) -> (s: String)
    ensures
        s@ == SAVE_EMAIL_0@ + clean_id(message_id@) + SAVE_EMAIL_1@,
{
    message_script(SAVE_EMAIL_0, message_id, SAVE_EMAIL_1)
}

/// The script text that checks for new mail: in every mailbox of one account,
/// or everywhere.
pub open spec fn refresh_text(account: Option<Seq<char>>) -> Seq<char> {
    match account {
        Some(acc) => REFRESH_ACCOUNT_0@ + quote_escaped(acc) + REFRESH_ACCOUNT_1@,
        None => REFRESH_ALL@,
    }
}

/// The script that checks for new mail.
pub fn refresh_mailboxes_script(account: Option<&str>) -> (s: String)
    ensures
        s@ == refresh_text(opt_view(account)),
{
    match account {
        Some(acc) => {
            let mut v = chars_of(REFRESH_ACCOUNT_0);
            push_chars(&mut v, &escaped(acc));
            push_str(&mut v, REFRESH_ACCOUNT_1);
            string_of(&v)
        },
        None => string_of(&chars_of(REFRESH_ALL)),
    }
}

/// The script that describes the messages selected in Mail.
pub fn get_current_selection_script() -> (s: String)
    ensures
        s@ == SELECTION@,
{
    string_of(&chars_of(SELECTION))
}

/// The script that prints a message's raw MIME source.
pub fn get_message_source_script(message_id: &str) -> (s: String)
    ensures
        s@ == SOURCE_0@ + clean_id(message_id@) + SOURCE_1@,
{
    message_script(SOURCE_0, message_id, SOURCE_1)
}

/// Every `"` of escaped text stands right after a `\`: none of them ends the
/// AppleScript string literal that the text is written into.
pub proof fn lemma_escaped_quotes_follow_backslash(s: Seq<char>)
    ensures
        forall|k: int|
            0 <= k < quote_escaped(s).len() && #[trigger] quote_escaped(s)[k] == '"' ==> k >= 1
                && quote_escaped(s)[k - 1] == '\\',
    decreases s.len(),
{
    if s.len() > 0 {
        lemma_escaped_quotes_follow_backslash(s.drop_last());
        let head = quote_escaped(s.drop_last());
        assert forall|k: int|
            0 <= k < quote_escaped(s).len() && #[trigger] quote_escaped(s)[k] == '"' implies k >= 1
                && quote_escaped(s)[k - 1] == '\\' by {
            if k < head.len() {
                assert(quote_escaped(s)[k] == head[k]);
                assert(quote_escaped(s)[k - 1] == head[k - 1]);
            }
        }
    }
}

/// Reads escaped text back, from its end: a `\"` stands for `"`.
spec fn unescape_quotes(t: Seq<char>) -> Seq<char>
    decreases t.len(),
{
    if t.len() >= 2 && t.last() == '"' && t[t.len() - 2] == '\\' {
        unescape_quotes(t.subrange(0, t.len() - 2)).push('"')
    } else if t.len() > 0 {
        unescape_quotes(t.drop_last()).push(t.last())
    } else {
        Seq::empty()
    }
}

proof fn lemma_unescape_escaped(s: Seq<char>)
    ensures
        unescape_quotes(quote_escaped(s)) == s,
    decreases s.len(),
{
    if s.len() > 0 {
        let d = s.drop_last();
        lemma_unescape_escaped(d);
        let t = quote_escaped(s);
        if s.last() == '"' {
            assert(t.subrange(0, t.len() - 2) == quote_escaped(d));
        } else {
            assert(t.drop_last() == quote_escaped(d));
        }
        assert(d.push(s.last()) == s);
    } else {
        assert(s == Seq::<char>::empty());
    }
}

/// Escaping loses nothing: different texts escape to different texts.
pub proof fn lemma_escape_is_injective(a: Seq<char>, b: Seq<char>)
    requires
        quote_escaped(a) == quote_escaped(b),
    ensures
        a == b,
{
    lemma_unescape_escaped(a);
    lemma_unescape_escaped(b);
}

/// A directory that already ends with `/` is left as it is.
pub proof fn lemma_trailing_slash_idempotent(dir: Seq<char>)
    ensures
        with_trailing_slash(with_trailing_slash(dir)) == with_trailing_slash(dir),
        with_trailing_slash(dir).last() == '/',
{
}

} // verus!
