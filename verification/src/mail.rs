//! The mail operations. Each builds its script, has its `Runner` run it
//! exactly once (the runner's function runs AppleScript and gives back what
//! the script printed, or why it could not run), and makes the operation's
//! result of the reply.

use vstd::prelude::*;

use crate::error::MailError;
use crate::runner::{ran, sent_once, Runner};
use crate::mime::{parts_to_save, source_extraction, SavedPart};
use crate::reply::{
    attachments_from_output, attachments_reply, changed_from_output, changed_reply,
    count_from_output, count_reply, done_from_output, done_reply, found_from_output, found_reply,
    names_from_output, names_reply, running_from_output, running_reply,
};
use crate::script::{
    attachments_text, compose_new_email_script, compose_text, delete_message_script,
    download_attachments_script, forward_message_script, forward_text,
    get_account_names_script, get_current_selection_script, get_mailbox_names_script,
    get_message_content_script, get_message_source_script, get_messages_in_period_script,
    get_unread_count_period_script, get_unread_count_script, is_mail_running_script,
    list_recent_messages_script, list_recent_text, mark_message_as_read_script,
    mark_message_as_unread_script, mark_text, messages_in_period_text, opt_view, period_fits,
    refresh_mailboxes_script, refresh_text, reply_text, reply_to_message_script,
    save_email_to_file_script, search_messages_script, total_hours, unread_count_period_text,
    quote_escaped,
};
use crate::templates::{
    ERROR_PREFIX, READ_FLAG, UNREAD_FLAG,
    ACCOUNT_NAMES, CONTENT_0, CONTENT_1, DELETE_0, DELETE_1, IS_RUNNING, MAILBOX_NAMES,
    SAVE_EMAIL_0, SAVE_EMAIL_1, SEARCH_0,
    SEARCH_1, SELECTION, SOURCE_0, SOURCE_1, UNREAD_COUNT,
};
use crate::text::{clean_id, lemma_clean_id_ignores_surrounding_spaces, lemma_clean_id_ignores_suffix};

verus! {

/// Whether Mail is running.
pub fn is_mail_running<F: Fn(String) -> Result<String, MailError>>(runner: &mut Runner<F>) -> (res: Result<
    bool,
    MailError,
>)
    requires
        old(runner).accepts_any(),
    ensures
        sent_once(*old(runner), *final(runner), IS_RUNNING@),
        exists|out| #[trigger] ran(old(runner).function(), IS_RUNNING@, out) && running_reply(out, res),
{
    let out = runner.run(is_mail_running_script());
    running_from_output(out)
}

/// The number of unread messages in the inbox.
pub fn get_unread_count<F: Fn(String) -> Result<String, MailError>>(runner: &mut Runner<F>) -> (res: Result<
    usize,
    MailError,
>)
    requires
        old(runner).accepts_any(),
    ensures
        sent_once(*old(runner), *final(runner), UNREAD_COUNT@),
        exists|out| #[trigger] ran(old(runner).function(), UNREAD_COUNT@, out) && count_reply(out, res),
{
    let out = runner.run(get_unread_count_script());
    count_from_output(out)
}

/// The number of unread inbox messages received in the last `hours` hours,
/// or the last `days` days, or the last day.
pub fn get_unread_count_period<F: Fn(String) -> Result<String, MailError>>(
    hours: Option<i64>,
    days: Option<i64>,
    runner: &mut Runner<F>,
) -> (res: Result<usize, MailError>)
    requires
        period_fits(hours, days),
        old(runner).accepts_any(),
    ensures
        sent_once(*old(runner), *final(runner), unread_count_period_text(total_hours(hours, days))),
        exists|out|
            #[trigger] ran(old(runner).function(), unread_count_period_text(total_hours(hours, days)), out)
                && count_reply(out, res),
{
    let out = runner.run(get_unread_count_period_script(hours, days));
    count_from_output(out)
}

/// One line per inbox message received in the period (at most `limit`, fifty
/// by default), as the script prints them.
pub fn get_messages_in_period<F: Fn(String) -> Result<String, MailError>>(
    hours: Option<i64>,
    days: Option<i64>,
    limit: Option<usize>,
    runner: &mut Runner<F>,
) -> (res: Result<String, MailError>)
    requires
        period_fits(hours, days),
        old(runner).accepts_any(),
    ensures
        sent_once(
            *old(runner),
            *final(runner),
            messages_in_period_text(
                total_hours(hours, days),
                match limit {
                    Some(l) => l as nat,
                    None => 50,
                },
            ),
        ),
        ran(
            old(runner).function(),
            messages_in_period_text(
                total_hours(hours, days),
                match limit {
                    Some(l) => l as nat,
                    None => 50,
                },
            ),
            res,
        ),
{
    runner.run(get_messages_in_period_script(hours, days, limit))
}

/// The names of all mailboxes.
pub fn get_mailbox_names<F: Fn(String) -> Result<String, MailError>>(runner: &mut Runner<F>) -> (res: Result<
    Vec<String>,
    MailError,
>)
    requires
        old(runner).accepts_any(),
    ensures
        sent_once(*old(runner), *final(runner), MAILBOX_NAMES@),
        exists|out| #[trigger] ran(old(runner).function(), MAILBOX_NAMES@, out) && names_reply(out, res),
{
    let out = runner.run(get_mailbox_names_script());
    names_from_output(out)
}

/// The names of all accounts.
pub fn get_account_names<F: Fn(String) -> Result<String, MailError>>(runner: &mut Runner<F>) -> (res: Result<
    Vec<String>,
    MailError,
>)
    requires
        old(runner).accepts_any(),
    ensures
        sent_once(*old(runner), *final(runner), ACCOUNT_NAMES@),
        exists|out| #[trigger] ran(old(runner).function(), ACCOUNT_NAMES@, out) && names_reply(out, res),
{
    let out = runner.run(get_account_names_script());
    names_from_output(out)
}

/// One line per recent message of the mailbox (of the account, if given;
/// the inbox if no mailbox is given), at most `limit` of them.
pub fn list_recent_messages<F: Fn(String) -> Result<String, MailError>>(
    mailbox: Option<&str>,
    account: Option<&str>,
    limit: usize,
    runner: &mut Runner<F>,
) -> (res: Result<String, MailError>)
    requires
        old(runner).accepts_any(),
    ensures
        sent_once(*old(runner), *final(runner), list_recent_text(opt_view(mailbox), opt_view(account), limit as nat)),
        ran(old(runner).function(), list_recent_text(opt_view(mailbox), opt_view(account), limit as nat), res),
{
    runner.run(list_recent_messages_script(mailbox, account, limit))
}

/// One line per inbox message (among the first two hundred) whose subject or
/// sender contains `query`.
pub fn search_messages<F: Fn(String) -> Result<String, MailError>>(query: &str, runner: &mut Runner<F>) -> (res:
    Result<String, MailError>)
    requires
        old(runner).accepts_any(),
    ensures
        sent_once(*old(runner), *final(runner), SEARCH_0@ + quote_escaped(query@) + SEARCH_1@),
        ran(old(runner).function(), SEARCH_0@ + quote_escaped(query@) + SEARCH_1@, res),
{
    runner.run(search_messages_script(query))
}

/// A message's headers and text.
pub fn get_message_content<F: Fn(String) -> Result<String, MailError>>(
    message_id: &str,
    runner: &mut Runner<F>,
) -> (res: Result<String, MailError>)
    requires
        old(runner).accepts_any(),
    ensures
        sent_once(*old(runner), *final(runner), CONTENT_0@ + clean_id(message_id@) + CONTENT_1@),
        exists|out|
            #[trigger] ran(old(runner).function(), CONTENT_0@ + clean_id(message_id@) + CONTENT_1@, out) && found_reply(
                message_id@,
                out,
                res,
            ),
{
    let out = runner.run(get_message_content_script(message_id));
    found_from_output(message_id, out)
}

/// Sends a new message.
pub fn compose_new_email<F: Fn(String) -> Result<String, MailError>>(
    to: &str,
    subject: &str,
    body: &str,
    runner: &mut Runner<F>,
) -> (res: Result<(), MailError>)
    requires
        old(runner).accepts_any(),
    ensures
        sent_once(*old(runner), *final(runner), compose_text(to@, subject@, body@)),
        exists|out| #[trigger] ran(old(runner).function(), compose_text(to@, subject@, body@), out) && done_reply(out, res),
{
    let out = runner.run(compose_new_email_script(to, subject, body));
    done_from_output(out)
}

/// Replies to a message.
pub fn reply_to_message<F: Fn(String) -> Result<String, MailError>>(
    message_id: &str,
    body: &str,
    reply_all: bool,
    runner: &mut Runner<F>,
) -> (res: Result<(), MailError>)
    requires
        old(runner).accepts_any(),
    ensures
        sent_once(*old(runner), *final(runner), reply_text(message_id@, body@, reply_all)),
        exists|out|
            #[trigger] ran(old(runner).function(), reply_text(message_id@, body@, reply_all), out) && done_reply(
                out,
                res,
            ),
{
    let out = runner.run(reply_to_message_script(message_id, body, reply_all));
    done_from_output(out)
}

/// Forwards a message to `to`, with `body` as a note when it is not empty.
pub fn forward_message<F: Fn(String) -> Result<String, MailError>>(
    message_id: &str,
    to: &str,
    body: &str,
    runner: &mut Runner<F>,
) -> (res: Result<(), MailError>)
    requires
        old(runner).accepts_any(),
    ensures
        sent_once(*old(runner), *final(runner), forward_text(message_id@, to@, body@)),
        exists|out| #[trigger] ran(old(runner).function(), forward_text(message_id@, to@, body@), out) && done_reply(out, res),
{
    let out = runner.run(forward_message_script(message_id, to, body));
    done_from_output(out)
}

/// Marks a message read.
pub fn mark_message_as_read<F: Fn(String) -> Result<String, MailError>>(
    message_id: &str,
    runner: &mut Runner<F>,
) -> (res: Result<(), MailError>)
    requires
        old(runner).accepts_any(),
    ensures
        sent_once(*old(runner), *final(runner), mark_text(message_id@, true)),
        exists|out|
            #[trigger] ran(old(runner).function(), mark_text(message_id@, true), out)
                && changed_reply(message_id@, out, res),
{
    let out = runner.run(mark_message_as_read_script(message_id));
    changed_from_output(message_id, out)
}

/// Marks a message unread.
pub fn mark_message_as_unread<F: Fn(String) -> Result<String, MailError>>(
    message_id: &str,
    runner: &mut Runner<F>,
) -> (res: Result<(), MailError>)
    requires
        old(runner).accepts_any(),
    ensures
        sent_once(*old(runner), *final(runner), mark_text(message_id@, false)),
        exists|out|
            #[trigger] ran(old(runner).function(), mark_text(message_id@, false), out)
                && changed_reply(message_id@, out, res),
{
    let out = runner.run(mark_message_as_unread_script(message_id));
    changed_from_output(message_id, out)
}

/// Deletes a message.
pub fn delete_message<F: Fn(String) -> Result<String, MailError>>(message_id: &str, runner: &mut Runner<F>) -> (res:
    Result<(), MailError>)
    requires
        old(runner).accepts_any(),
    ensures
        sent_once(*old(runner), *final(runner), DELETE_0@ + clean_id(message_id@) + DELETE_1@),
        exists|out|
            #[trigger] ran(old(runner).function(), DELETE_0@ + clean_id(message_id@) + DELETE_1@, out) && changed_reply(
                message_id@,
                out,
                res,
            ),
{
    let out = runner.run(delete_message_script(message_id));
    changed_from_output(message_id, out)
}

/// Saves a message's attachments into a directory; the paths they were saved to.
pub fn download_attachments<F: Fn(String) -> Result<String, MailError>>(
    message_id: &str,
    save_directory: &str,
    runner: &mut Runner<F>,
) -> (res: Result<Vec<String>, MailError>)
    requires
        old(runner).accepts_any(),
    ensures
        sent_once(*old(runner), *final(runner), attachments_text(message_id@, save_directory@)),
        exists|out|
            #[trigger] ran(old(runner).function(), attachments_text(message_id@, save_directory@), out)
                && attachments_reply(message_id@, out, res),
{
    let out = runner.run(download_attachments_script(message_id, save_directory));
    attachments_from_output(message_id, out)
}

/// The text to save for a message: its headers and body.
pub fn email_file_content<F: Fn(String) -> Result<String, MailError>>(
    message_id: &str,
    runner: &mut Runner<F>,
) -> (res: Result<String, MailError>)
    requires
        old(runner).accepts_any(),
    ensures
        sent_once(*old(runner), *final(runner), SAVE_EMAIL_0@ + clean_id(message_id@) + SAVE_EMAIL_1@),
        exists|out|
            #[trigger] ran(old(runner).function(), SAVE_EMAIL_0@ + clean_id(message_id@) + SAVE_EMAIL_1@, out)
                && found_reply(message_id@, out, res),
{
    let out = runner.run(save_email_to_file_script(message_id));
    found_from_output(message_id, out)
}

/// Checks for new mail, in one account or everywhere.
pub fn refresh_mailboxes<F: Fn(String) -> Result<String, MailError>>(
    account: Option<&str>,
    runner: &mut Runner<F>,
) -> (res: Result<String, MailError>)
    requires
        old(runner).accepts_any(),
    ensures
        sent_once(*old(runner), *final(runner), refresh_text(opt_view(account))),
        ran(old(runner).function(), refresh_text(opt_view(account)), res),
{
    runner.run(refresh_mailboxes_script(account))
}

/// A description of the messages selected in Mail.
pub fn get_current_selection<F: Fn(String) -> Result<String, MailError>>(runner: &mut Runner<F>) -> (res: Result<
    String,
    MailError,
>)
    requires
        old(runner).accepts_any(),
    ensures
        sent_once(*old(runner), *final(runner), SELECTION@),
        ran(old(runner).function(), SELECTION@, res),
{
    runner.run(get_current_selection_script())
}

/// A message's raw MIME source.
pub fn get_message_source<F: Fn(String) -> Result<String, MailError>>(
    message_id: &str,
    runner: &mut Runner<F>,
) -> (res: Result<String, MailError>)
    requires
        old(runner).accepts_any(),
    ensures
        sent_once(*old(runner), *final(runner), SOURCE_0@ + clean_id(message_id@) + SOURCE_1@),
        exists|out|
            #[trigger] ran(old(runner).function(), SOURCE_0@ + clean_id(message_id@) + SOURCE_1@, out) && found_reply(
                message_id@,
                out,
                res,
            ),
{
    let out = runner.run(get_message_source_script(message_id));
    found_from_output(message_id, out)
}

/// The result of extracting a message's parts given the reply `src` to the
/// source script: the failure as it came, or the extraction of that source.
pub open spec fn parts_from_source(
    src: Result<String, MailError>,
    dir: Seq<char>,
    r: (Vec<SavedPart>, Option<MailError>),
) -> bool {
    match src {
        Err(e) => r.0@.len() == 0 && r.1 == Some(e),
        Ok(s) => source_extraction(s@, dir, r),
    }
}

/// Plans the extraction of every non-text part of a message (inline or
/// attached) into a directory: the parts to write, in order, and the failure
/// that stops the extraction after them, if any.
pub fn download_all_parts_plan<F: Fn(String) -> Result<String, MailError>>(
    message_id: &str,
    save_directory: &str,
    runner: &mut Runner<F>,
) -> (r: (Vec<SavedPart>, Option<MailError>))
    requires
        old(runner).accepts_any(),
    ensures
        sent_once(*old(runner), *final(runner), SOURCE_0@ + clean_id(message_id@) + SOURCE_1@),
        exists|out, src|
            #![trigger ran(old(runner).function(), SOURCE_0@ + clean_id(message_id@) + SOURCE_1@, out), found_reply(message_id@, out, src)]
            ran(old(runner).function(), SOURCE_0@ + clean_id(message_id@) + SOURCE_1@, out) && found_reply(
                message_id@,
                out,
                src,
            ) && parts_from_source(src, save_directory@, r),
{
    let src = get_message_source(message_id, runner);
    match src {
        Err(e) => (Vec::new(), Some(e)),
        Ok(s) => parts_to_save(s.as_str(), save_directory),
    }
}

/// Which change a batch makes to each message.
#[derive(Debug, Clone, Copy, PartialEq, Eq, Structural)]
pub enum Change {
    MarkRead,
    MarkUnread,
    Delete,
}

/// The script text of a change to one message.
pub open spec fn change_text(change: Change, message_id: Seq<char>) -> Seq<char> {
    match change {
        Change::MarkRead => mark_text(message_id, true),
        Change::MarkUnread => mark_text(message_id, false),
        Change::Delete => DELETE_0@ + clean_id(message_id) + DELETE_1@,
    }
}

/// Whether a change succeeded given the reply to its script: the script ran
/// and did not report an error.
pub open spec fn change_succeeded(out: Result<String, MailError>) -> bool {
    out matches Ok(o) && !ERROR_PREFIX@.is_prefix_of(o@)
}

/// The number of replies that report a successful change.
pub open spec fn count_succeeded(outs: Seq<Result<String, MailError>>) -> nat
    decreases outs.len(),
{
    if outs.len() == 0 {
        0
    } else {
        count_succeeded(outs.drop_last()) + if change_succeeded(outs.last()) {
            1nat
        } else {
            0nat
        }
    }
}

/// The texts of the scripts of applying `change` to each of `ids`, in order.
pub open spec fn batch_scripts(change: Change, ids: Seq<String>) -> Seq<Seq<char>> {
    Seq::new(ids.len(), |k: int| change_text(change, ids[k]@))
}

/// `r` counts the successes and failures of applying `change` to each of
/// `ids` in turn: `run` gave the replies `outs` to their scripts.
pub open spec fn batch_outcome<F: Fn(String) -> Result<String, MailError>>(
    run: F,
    change: Change,
    ids: Seq<String>,
    r: (usize, usize),
) -> bool {
    exists|outs: Seq<Result<String, MailError>>|
        #![trigger count_succeeded(outs)]
        {
            &&& outs.len() == ids.len()
            &&& forall|k: int|
                0 <= k < ids.len() ==> #[trigger] ran(run, change_text(change, ids[k]@), outs[k])
            &&& r.0 == count_succeeded(outs)
            &&& r.0 + r.1 == ids.len()
        }
}

/// `after` is `before` having run exactly the scripts of applying `change`
/// to each of `ids`, in order.
pub open spec fn sent_batch<F: Fn(String) -> Result<String, MailError>>(
    before: Runner<F>,
    after: Runner<F>,
    change: Change,
    ids: Seq<String>,
) -> bool {
    &&& after.function() == before.function()
    &&& after.scripts() == before.scripts() + batch_scripts(change, ids)
}

/// Applies `change` to each message of `ids` in turn; how many succeeded
/// and how many failed.
pub fn change_messages<F: Fn(String) -> Result<String, MailError>>(
    change: Change,
    ids: &Vec<String>,
    runner: &mut Runner<F>,
) -> (r: (usize, usize))
    requires
        old(runner).accepts_any(),
    ensures
        sent_batch(*old(runner), *final(runner), change, ids@),
        batch_outcome(old(runner).function(), change, ids@, r),
{
    let ghost run = old(runner).function();
    let ghost start = old(runner).scripts();
    let ghost all = batch_scripts(change, ids@);
    let ghost mut outs: Seq<Result<String, MailError>> = Seq::empty();
    let mut success: usize = 0;
    let mut failed: usize = 0;
    let mut i: usize = 0;
    while i < ids.len()
        invariant
            i <= ids.len(),
            runner.function() == run,
            runner.accepts_any(),
            all == batch_scripts(change, ids@),
            runner.scripts() == start + all.take(i as int),
            outs.len() == i,
            forall|k: int| 0 <= k < i ==> #[trigger] ran(run, change_text(change, ids@[k]@), outs[k]),
            success == count_succeeded(outs),
            success + failed == i,
        decreases ids.len() - i,
    {
        let id = ids[i].as_str();
        let script = match change {
            Change::MarkRead => mark_message_as_read_script(id),
            Change::MarkUnread => mark_message_as_unread_script(id),
            Change::Delete => delete_message_script(id),
        };
        let out = runner.run(script);
        assert(all.take(i + 1) == all.take(i as int).push(all[i as int]));
        let ghost old_outs = outs;
        proof {
            outs = outs.push(out);
        }
        assert(outs.drop_last() == old_outs);
        assert forall|k: int| 0 <= k < i + 1 implies #[trigger] ran(
            run,
            change_text(change, ids@[k]@),
            outs[k],
        ) by {
            if k < i {
                assert(outs[k] == old_outs[k]);
            }
        }
        if changed_from_output(id, out).is_ok() {
            success += 1;
        } else {
            failed += 1;
        }
        i += 1;
    }
    assert(all.take(ids.len() as int) == all);
    assert(count_succeeded(outs) == success as nat);
    (success, failed)
}

/// Marks each message read; how many succeeded and how many failed.
pub fn mark_messages_as_read<F: Fn(String) -> Result<String, MailError>>(
    ids: &Vec<String>,
    runner: &mut Runner<F>,
) -> (r: (usize, usize))
    requires
        old(runner).accepts_any(),
    ensures
        sent_batch(*old(runner), *final(runner), Change::MarkRead, ids@),
        final(runner).scripts() == old(runner).scripts() + Seq::new(
            ids@.len(),
            |k: int| mark_text(ids@[k]@, true),
        ),
        batch_outcome(old(runner).function(), Change::MarkRead, ids@, r),
{
    let r = change_messages(Change::MarkRead, ids, runner);
    proof {
        lemma_batch_scripts_are_single_scripts(ids@);
    }
    r
}

/// Marks each message unread; how many succeeded and how many failed.
pub fn mark_messages_as_unread<F: Fn(String) -> Result<String, MailError>>(
    ids: &Vec<String>,
    runner: &mut Runner<F>,
) -> (r: (usize, usize))
    requires
        old(runner).accepts_any(),
    ensures
        sent_batch(*old(runner), *final(runner), Change::MarkUnread, ids@),
        final(runner).scripts() == old(runner).scripts() + Seq::new(
            ids@.len(),
            |k: int| mark_text(ids@[k]@, false),
        ),
        batch_outcome(old(runner).function(), Change::MarkUnread, ids@, r),
{
    let r = change_messages(Change::MarkUnread, ids, runner);
    proof {
        lemma_batch_scripts_are_single_scripts(ids@);
    }
    r
}

/// Deletes each message; how many succeeded and how many failed.
pub fn delete_messages<F: Fn(String) -> Result<String, MailError>>(
    ids: &Vec<String>,
    runner: &mut Runner<F>,
) -> (r: (usize, usize))
    requires
        old(runner).accepts_any(),
    ensures
        sent_batch(*old(runner), *final(runner), Change::Delete, ids@),
        final(runner).scripts() == old(runner).scripts() + Seq::new(
            ids@.len(),
            |k: int| DELETE_0@ + clean_id(ids@[k]@) + DELETE_1@,
        ),
        batch_outcome(old(runner).function(), Change::Delete, ids@, r),
{
    let r = change_messages(Change::Delete, ids, runner);
    proof {
        lemma_batch_scripts_are_single_scripts(ids@);
    }
    r
}

/// A batch sends, for each id in order, exactly the script that the
/// single-message operation sends for that id: marking unread sets the read
/// flag to false, marking read sets it to true, and the two scripts of one id
/// differ; deleting sends the delete script.
pub proof fn lemma_batch_scripts_are_single_scripts(ids: Seq<String>)
    ensures
        batch_scripts(Change::MarkRead, ids).len() == ids.len(),
        batch_scripts(Change::MarkUnread, ids).len() == ids.len(),
        batch_scripts(Change::Delete, ids).len() == ids.len(),
        batch_scripts(Change::MarkRead, ids) == Seq::new(
            ids.len(),
            |k: int| mark_text(ids[k]@, true),
        ),
        batch_scripts(Change::MarkUnread, ids) == Seq::new(
            ids.len(),
            |k: int| mark_text(ids[k]@, false),
        ),
        batch_scripts(Change::Delete, ids) == Seq::new(
            ids.len(),
            |k: int| DELETE_0@ + clean_id(ids[k]@) + DELETE_1@,
        ),
        forall|k: int|
            0 <= k < ids.len() ==> batch_scripts(Change::MarkUnread, ids)[k] != #[trigger] batch_scripts(
                Change::MarkRead,
                ids,
            )[k],
{
    assert(batch_scripts(Change::MarkRead, ids) =~= Seq::new(
        ids.len(),
        |k: int| mark_text(ids[k]@, true),
    ));
    assert(batch_scripts(Change::MarkUnread, ids) =~= Seq::new(
        ids.len(),
        |k: int| mark_text(ids[k]@, false),
    ));
    assert(batch_scripts(Change::Delete, ids) =~= Seq::new(
        ids.len(),
        |k: int| DELETE_0@ + clean_id(ids[k]@) + DELETE_1@,
    ));
    assert forall|k: int| 0 <= k < ids.len() implies batch_scripts(Change::MarkUnread, ids)[k]
        != #[trigger] batch_scripts(Change::MarkRead, ids)[k] by {
        lemma_read_and_unread_scripts_differ(ids[k]@);
    }
}

/// The mark-unread script of a message sets its read flag to `false`, the
/// mark-read script to `true`, and the two are different scripts.
pub proof fn lemma_read_and_unread_scripts_differ(message_id: Seq<char>)
    ensures
        READ_FLAG@ == "true"@,
        UNREAD_FLAG@ == "false"@,
        mark_text(message_id, false).len() == mark_text(message_id, true).len() + 1,
        mark_text(message_id, false) != mark_text(message_id, true),
{
    reveal_strlit("true");
    reveal_strlit("false");
    assert(READ_FLAG@ == "true"@);
    assert(UNREAD_FLAG@ == "false"@);
}

/// With only an account given, the listing is of that account's `INBOX`.
pub proof fn lemma_account_listing_defaults_to_inbox(account: Seq<char>, limit: nat)
    ensures
        list_recent_text(None, Some(account), limit) == list_recent_text(
            Some("INBOX"@),
            Some(account),
            limit,
        ),
{
}

/// A message id with no `:` gives the same message script as that id
/// followed by `:` and anything, or surrounded by spaces.
pub proof fn lemma_content_script_ignores_id_decoration(id: Seq<char>, rest: Seq<char>)
    requires
        forall|k: int| 0 <= k < id.len() ==> id[k] != ':',
    ensures
        CONTENT_0@ + clean_id(id + seq![':'] + rest) + CONTENT_1@ == CONTENT_0@ + clean_id(id)
            + CONTENT_1@,
        CONTENT_0@ + clean_id(seq![' '] + id + seq![' ']) + CONTENT_1@ == CONTENT_0@ + clean_id(id)
            + CONTENT_1@,
{
    lemma_clean_id_ignores_suffix(id, rest);
    lemma_clean_id_ignores_surrounding_spaces(id);
}

/// Two results of an operation on one message agree: the same text, the
/// same missing id, or the same failure.
pub open spec fn same_found_result(a: Result<String, MailError>, b: Result<String, MailError>) -> bool {
    match (a, b) {
        (Ok(x), Ok(y)) => x@ == y@,
        (Err(MailError::MessageNotFound(x)), Err(MailError::MessageNotFound(y))) => x@ == y@,
        (Err(x), Err(y)) => x == y,
        _ => false,
    }
}

/// Given the same reply to their (identical) scripts, reading a message by
/// an id with no `:`, by that id followed by `:` and anything, and by that
/// id surrounded by spaces give the same result; a missing message is
/// reported under the same id.
pub proof fn lemma_content_result_ignores_id_decoration(
    id: Seq<char>,
    rest: Seq<char>,
    out: Result<String, MailError>,
    plain: Result<String, MailError>,
    suffixed: Result<String, MailError>,
    spaced: Result<String, MailError>,
)
    requires
        forall|k: int| 0 <= k < id.len() ==> id[k] != ':',
        found_reply(id, out, plain),
        found_reply(id + seq![':'] + rest, out, suffixed),
        found_reply(seq![' '] + id + seq![' '], out, spaced),
    ensures
        same_found_result(plain, suffixed),
        same_found_result(plain, spaced),
{
    lemma_clean_id_ignores_suffix(id, rest);
    lemma_clean_id_ignores_surrounding_spaces(id);
}

} // verus!
