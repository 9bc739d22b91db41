//! The scripts each operation hands to `run`, held against the scripts
//! written out by hand with `format!`.

use apple_mail::script::{
    compose_new_email_script, delete_message_script, download_attachments_script,
    forward_message_script, get_account_names_script, get_current_selection_script,
    get_mailbox_names_script, get_message_content_script, get_message_source_script,
    get_messages_in_period_script, get_unread_count_period_script, get_unread_count_script,
    is_mail_running_script, list_recent_messages_script, mark_message_as_read_script,
    mark_message_as_unread_script, refresh_mailboxes_script, reply_to_message_script,
    save_email_to_file_script, search_messages_script,
};
use apple_mail::{escape_quotes, launch_mail_app_script, period_hours};

fn expected_get_unread_count_period(hours: Option<i64>, days: Option<i64>) -> String {
    let total_hours = match (hours, days) {
        (Some(h), _) => h,
        (_, Some(d)) => d * 24,
        _ => 24,
    };

    let script = format!(
        r#"
        tell application "Mail"
            set cutoffDate to (current date) - ({} * 60 * 60)
            set unreadCount to 0
            repeat with i from 1 to (count of messages of inbox)
                try
                    set msg to message i of inbox
                    if date received of msg < cutoffDate then exit repeat
                    if read status of msg is false then set unreadCount to unreadCount + 1
                on error
                    exit repeat
                end try
            end repeat
            return unreadCount
        end tell
    "#,
        total_hours
    );

    script.to_string()
}

fn expected_get_messages_in_period(
    hours: Option<i64>,
    days: Option<i64>,
    limit: Option<usize>,
) -> String {
    let total_hours = match (hours, days) {
        (Some(h), _) => h,
        (_, Some(d)) => d * 24,
        _ => 24,
    };
    let max_count = limit.unwrap_or(50);

    let script = format!(
        r#"
        tell application "Mail"
            set cutoffDate to (current date) - ({} * 60 * 60)
            set output to ""
            set found to 0
            repeat with i from 1 to (count of messages of inbox)
                try
                    set msg to message i of inbox
                    if date received of msg < cutoffDate then exit repeat
                    set mid to id of msg as string
                    set msubject to subject of msg
                    set msender to sender of msg
                    set mdate to date received of msg
                    set mread to read status of msg
                    set readFlag to "●"
                    if mread then set readFlag to " "
                    set hasAtt to count of mail attachments of msg
                    set output to output & mid & " | " & readFlag & " | " & mdate & " | " & msender & " | " & msubject & " | Att:" & hasAtt & linefeed
                    set found to found + 1
                    if found = {} then exit repeat
                on error
                    exit repeat
                end try
            end repeat
            if output is "" then return "No messages found in the specified period"
            return output
        end tell
    "#,
        total_hours, max_count
    );

    script.to_string()
}

fn expected_list_recent_messages(
    mailbox: Option<&str>,
    account: Option<&str>,
    limit: usize,
) -> String {
    let script = match (mailbox, account) {
        (Some(mbx), Some(acc)) => {
            let escaped_acc = acc.replace('"', "\\\"");
            let escaped_mbx = mbx.replace('"', "\\\"");
            format!(
                r#"
                tell application "Mail"
                    set output to ""
                    set targetAccount to account "{}"
                    set mbx to mailbox "{}" of targetAccount
                    repeat with i from 1 to {}
                        try
                            set msg to message i of mbx
                            set mid to id of msg as string
                            set msubject to subject of msg
                            set msender to sender of msg
                            set mdate to date received of msg
                            set mread to read status of msg
                            set readFlag to "●"
                            if mread then set readFlag to " "
                            set hasAtt to count of mail attachments of msg
                            set output to output & mid & " | " & readFlag & " | " & mdate & " | " & msender & " | " & msubject & " | Att:" & hasAtt & linefeed
                        on error
                            exit repeat
                        end try
                    end repeat
                    if output is "" then return "No messages found"
                    return output
                end tell
            "#,
                escaped_acc, escaped_mbx, limit
            )
        }
        (Some(mbx), None) => {
            let escaped_mbx = mbx.replace('"', "\\\"");
            format!(
                r#"
                tell application "Mail"
                    set output to ""
                    repeat with acct in accounts
                        try
                            set targetMbx to mailbox "{}" of acct
                            repeat with i from 1 to {}
                                try
                                    set msg to message i of targetMbx
                                    set mid to id of msg as string
                                    set msubject to subject of msg
                                    set msender to sender of msg
                                    set mdate to date received of msg
                                    set mread to read status of msg
                                    set readFlag to "●"
                                    if mread then set readFlag to " "
                                    set hasAtt to count of mail attachments of msg
                                    set output to output & mid & " | " & readFlag & " | " & mdate & " | " & msender & " | " & msubject & " | Att:" & hasAtt & linefeed
                                on error
                                    exit repeat
                                end try
                            end repeat
                        end try
                    end repeat
                    if output is "" then return "No messages found"
                    return output
                end tell
            "#,
                escaped_mbx, limit
            )
        }
        _ => {
            format!(
                r#"
                tell application "Mail"
                    set output to ""
                    repeat with i from 1 to {}
                        try
                            set msg to message i of inbox
                            set mid to id of msg as string
                            set msubject to subject of msg
                            set msender to sender of msg
                            set mdate to date received of msg
                            set mread to read status of msg
                            set readFlag to "●"
                            if mread then set readFlag to " "
                            set hasAtt to count of mail attachments of msg
                            set output to output & mid & " | " & readFlag & " | " & mdate & " | " & msender & " | " & msubject & " | Att:" & hasAtt & linefeed
                        on error
                            exit repeat
                        end try
                    end repeat
                    if output is "" then return "No messages found"
                    return output
                end tell
            "#,
                limit
            )
        }
    };

    script.to_string()
}

fn expected_search_messages(query: &str) -> String {
    let escaped_query = query.replace('"', "\\\"");

    let script = format!(
        r#"
        tell application "Mail"
            set output to ""
            set searchTerm to "{}"
            repeat with i from 1 to 200
                try
                    set msg to message i of inbox
                    if subject of msg contains searchTerm or sender of msg contains searchTerm then
                        set mid to id of msg as string
                        set msubject to subject of msg
                        set msender to sender of msg
                        set mdate to date received of msg
                        set mread to read status of msg
                        set readFlag to "●"
                        if mread then set readFlag to " "
                        set hasAtt to count of mail attachments of msg
                        set output to output & mid & " | " & readFlag & " | " & mdate & " | " & msender & " | " & msubject & " | Att:" & hasAtt & linefeed
                    end if
                on error
                    exit repeat
                end try
            end repeat
            if output is "" then return "No messages found matching the query"
            return output
        end tell
    "#,
        escaped_query
    );

    script.to_string()
}

fn expected_get_message_content(message_id: &str) -> String {
    let clean_id = message_id.split(':').next().unwrap_or(message_id).trim();

    let script = format!(
        r#"
        tell application "Mail"
            try
                set msg to first message of inbox whose id is {}
                set output to "From: " & sender of msg & linefeed
                try
                    set mto to ""
                    repeat with r in to recipients of msg
                        set mto to mto & address of r & ", "
                    end repeat
                    if mto ends with ", " then set mto to text 1 thru -3 of mto
                    set output to output & "To: " & mto & linefeed
                end try
                set output to output & "Date: " & date received of msg & linefeed
                set output to output & "Subject: " & subject of msg & linefeed
                set output to output & linefeed & "---" & linefeed & linefeed
                set output to output & content of msg
                return output
            on error errMsg
                return "ERROR:" & errMsg
            end try
        end tell
    "#,
        clean_id
    );

    script.to_string()
}

fn expected_compose_new_email(to: &str, subject: &str, body: &str) -> String {
    let escaped_to = to.replace('"', "\\\"");
    let escaped_subject = subject.replace('"', "\\\"");
    let escaped_body = body.replace('"', "\\\"");

    let script = format!(
        r#"
        tell application "Mail"
            set newMessage to make new outgoing message with properties {{subject:"{}", content:"{}", visible:false}}
            tell newMessage
                make new to recipient at end of to recipients with properties {{address:"{}"}}
            end tell
            send newMessage
        end tell
    "#,
        escaped_subject, escaped_body, escaped_to
    );

    script.to_string()
}

fn expected_reply_to_message(message_id: &str, body: &str, _reply_all: bool) -> String {
    let clean_id = message_id.split(':').next().unwrap_or(message_id).trim();
    let escaped_body = body.replace('"', "\\\"").replace('\n', "\" & return & \"");

    let script = format!(
        r#"
        tell application "Mail"
            set originalMessage to first message of inbox whose id is {}
            set origSender to sender of originalMessage
            set origDate to date received of originalMessage as string
            set origContent to content of originalMessage
            set quotedHeader to return & return & "On " & origDate & ", " & origSender & " wrote:" & return & return
            set replyMessage to reply originalMessage without opening window
            set content of replyMessage to "{}" & quotedHeader & origContent
            send replyMessage
        end tell
    "#,
        clean_id, escaped_body
    );

    script.to_string()
}

fn expected_forward_message(message_id: &str, to: &str, body: &str) -> String {
    let clean_id = message_id.split(':').next().unwrap_or(message_id).trim();
    let escaped_to = to.replace('"', "\\\"");
    let escaped_body = body.replace('"', "\\\"");

    let escaped_body = escaped_body.replace('\n', "\" & return & \"");

    let body_prefix = if body.is_empty() {
        String::new()
    } else {
        format!(r#""{}" & return & return & "#, escaped_body)
    };

    let script = format!(
        r#"
        tell application "Mail"
            set originalMessage to first message of inbox whose id is {}
            set origSender to sender of originalMessage
            set origDate to date received of originalMessage as string
            set origSubject to subject of originalMessage
            set origContent to content of originalMessage
            set fwdHeader to "---------- Forwarded message ----------" & return & "From: " & origSender & return & "Date: " & origDate & return & "Subject: " & origSubject & return & return
            set fwdMessage to forward originalMessage without opening window
            tell fwdMessage
                make new to recipient at end of to recipients with properties {{address:"{}"}}
            end tell
            set content of fwdMessage to {}fwdHeader & origContent
            send fwdMessage
        end tell
    "#,
        clean_id, escaped_to, body_prefix
    );

    script.to_string()
}

fn expected_mark_message_as_read(message_id: &str) -> String {
    let clean_id = message_id.split(':').next().unwrap_or(message_id).trim();

    let script = format!(
        r#"
        tell application "Mail"
            try
                set msg to first message of inbox whose id is {}
                set read status of msg to true
                return "OK"
            on error errMsg
                return "ERROR:" & errMsg
            end try
        end tell
    "#,
        clean_id
    );

    script.to_string()
}

fn expected_mark_message_as_unread(message_id: &str) -> String {
    let clean_id = message_id.split(':').next().unwrap_or(message_id).trim();

    let script = format!(
        r#"
        tell application "Mail"
            try
                set msg to first message of inbox whose id is {}
                set read status of msg to false
                return "OK"
            on error errMsg
                return "ERROR:" & errMsg
            end try
        end tell
    "#,
        clean_id
    );

    script.to_string()
}

fn expected_delete_message(message_id: &str) -> String {
    let clean_id = message_id.split(':').next().unwrap_or(message_id).trim();

    let script = format!(
        r#"
        tell application "Mail"
            try
                set msg to first message of inbox whose id is {}
                delete msg
                return "OK"
            on error errMsg
                return "ERROR:" & errMsg
            end try
        end tell
    "#,
        clean_id
    );

    script.to_string()
}

fn expected_download_attachments(
    message_id: &str,
    save_directory: &str,
) -> String {
    let clean_id = message_id.split(':').next().unwrap_or(message_id).trim();
    let dir = if save_directory.ends_with('/') {
        save_directory.to_string()
    } else {
        format!("{}/", save_directory)
    };
    let escaped_dir = dir.replace('"', "\\\"");

    let script = format!(
        r#"
        tell application "Mail"
            try
                set theMessage to first message of inbox whose id is {}
                set attachmentPaths to {{}}
                repeat with theAttachment in mail attachments of theMessage
                    try
                        set attachmentName to name of theAttachment
                        set savePath to "{}" & attachmentName
                        save theAttachment in POSIX file savePath
                        set end of attachmentPaths to savePath
                    end try
                end repeat
                if (count of attachmentPaths) is 0 then return "NO_ATTACHMENTS"
                set AppleScript's text item delimiters to ","
                set pathString to attachmentPaths as string
                set AppleScript's text item delimiters to ""
                return pathString
            on error errMsg
                return "ERROR:" & errMsg
            end try
        end tell
    "#,
        clean_id, escaped_dir
    );

    script.to_string()
}

fn expected_save_email_to_file(message_id: &str, save_path: &str) -> String {
    let clean_id = message_id.split(':').next().unwrap_or(message_id).trim();

    let script = format!(
        r#"
        tell application "Mail"
            try
                set theMessage to first message of inbox whose id is {}
                set msgContent to "From: " & sender of theMessage & linefeed
                try
                    set msgContent to msgContent & "To: " & (address of first to recipient of theMessage as string) & linefeed
                end try
                set msgContent to msgContent & "Subject: " & subject of theMessage & linefeed
                set msgContent to msgContent & "Date: " & date received of theMessage & linefeed
                set msgContent to msgContent & linefeed & "---" & linefeed & linefeed
                set msgContent to msgContent & content of theMessage
                return msgContent
            on error errMsg
                return "ERROR:" & errMsg
            end try
        end tell
    "#,
        clean_id
    );

    script.to_string()
}

fn expected_refresh_mailboxes(account: Option<&str>) -> String {
    let script = if let Some(acc) = account {
        let escaped_acc = acc.replace('"', "\\\"");
        format!(
            r#"
            tell application "Mail"
                set targetAccount to account "{}"
                repeat with mbx in mailboxes of targetAccount
                    try
                        check for new mail for mbx
                    end try
                end repeat
                return "Refresh complete"
            end tell
        "#,
            escaped_acc
        )
    } else {
        r#"
            tell application "Mail"
                check for new mail
                return "Refresh complete"
            end tell
        "#
        .to_string()
    };

    script.to_string()
}

fn expected_get_current_selection() -> String {
    let script = r#"
        tell application "Mail"
            try
                set selectedMessages to selection
                if (count of selectedMessages) is 0 then
                    return "No messages selected"
                end if
                set messageInfo to ""
                repeat with msg in selectedMessages
                    set messageInfo to messageInfo & "ID: " & (id of msg as string) & linefeed
                    set messageInfo to messageInfo & "Subject: " & subject of msg & linefeed
                    set messageInfo to messageInfo & "Sender: " & sender of msg & linefeed & linefeed
                end repeat
                return messageInfo
            on error errMsg
                return "Error: " & errMsg
            end try
        end tell
    "#;

    script.to_string()
}

fn expected_get_message_source(message_id: &str) -> String {
    let clean_id = message_id.split(':').next().unwrap_or(message_id).trim();

    let script = format!(
        r#"
        tell application "Mail"
            try
                set msg to first message of inbox whose id is {}
                return source of msg
            on error errMsg
                return "ERROR:" & errMsg
            end try
        end tell
    "#,
        clean_id
    );

    script.to_string()
}

fn expected_is_mail_running() -> String {
    let script =
        r#"tell application "System Events" to return exists (processes where name is "Mail")"#;
    script.to_string()
}

fn expected_get_unread_count() -> String {
    let script = r#"tell application "Mail" to get unread count of inbox"#;
    script.to_string()
}

fn expected_get_mailbox_names() -> String {
    let script = r#"tell application "Mail" to return name of every mailbox"#;
    script.to_string()
}

fn expected_get_account_names() -> String {
    let script = r#"tell application "Mail" to return name of every account"#;
    script.to_string()
}

#[test]
fn test_string_escaping() {
    let input = r#"Test with "quotes""#;
    let escaped = escape_quotes(input);
    assert!(escaped.contains("\\\""));
}

#[test]
fn escaping_writes_backslash_before_each_quote() {
    assert_eq!(escape_quotes(r#"say "hi" now"#), r#"say \"hi\" now"#);
    assert_eq!(escape_quotes(""), "");
    assert_eq!(escape_quotes("\"\""), "\\\"\\\"");
    assert_eq!(escape_quotes("no quotes"), "no quotes");
}

#[test]
fn escaping_keeps_different_texts_apart() {
    // a backslash before a quote and a lone quote stay distinguishable
    assert_ne!(escape_quotes("\\\""), escape_quotes("\""));
    assert_eq!(escape_quotes("\\\""), "\\\\\"");
}

#[test]
fn period_prefers_hours_then_days() {
    assert_eq!(period_hours(Some(5), Some(2)), 5);
    assert_eq!(period_hours(None, Some(2)), 48);
    assert_eq!(period_hours(None, None), 24);
    assert_eq!(period_hours(Some(-3), None), -3);
}

#[test]
fn constant_scripts() {
    assert_eq!(launch_mail_app_script(), r#"tell application "Mail" to activate"#);
    assert_eq!(is_mail_running_script(), expected_is_mail_running());
    assert_eq!(get_unread_count_script(), expected_get_unread_count());
    assert_eq!(get_mailbox_names_script(), expected_get_mailbox_names());
    assert_eq!(get_account_names_script(), expected_get_account_names());
    assert_eq!(get_current_selection_script(), expected_get_current_selection());
}

#[test]
fn unread_count_period_scripts() {
    for (h, d) in [(Some(6), None), (None, Some(3)), (None, None), (Some(-12), Some(1)), (Some(i64::MIN), None)] {
        assert_eq!(get_unread_count_period_script(h, d), expected_get_unread_count_period(h, d));
    }
    assert!(get_unread_count_period_script(None, Some(7)).contains("(168 * 60 * 60)"));
}

#[test]
fn messages_in_period_scripts() {
    for (h, d, l) in [(Some(1), None, None), (None, Some(2), Some(5)), (None, None, Some(0)), (Some(48), Some(1), Some(usize::MAX))] {
        assert_eq!(get_messages_in_period_script(h, d, l), expected_get_messages_in_period(h, d, l));
    }
    assert!(get_messages_in_period_script(None, None, None).contains("if found = 50 then"));
}

#[test]
fn list_recent_messages_scripts() {
    let cases: [(Option<&str>, Option<&str>, usize); 5] = [
        (Some("INBOX"), Some("Gmail"), 5),
        (Some("Sent \"Items\""), None, 20),
        (None, Some("Work"), 10),
        (None, None, 0),
        (Some(""), Some("\"q\""), 123456789),
    ];
    for (m, a, l) in cases {
        // with only an account, the listing is of that account's INBOX
        let mailbox = if m.is_none() && a.is_some() { Some("INBOX") } else { m };
        assert_eq!(list_recent_messages_script(m, a, l), expected_list_recent_messages(mailbox, a, l));
    }
    assert_eq!(
        list_recent_messages_script(None, Some("Work"), 7),
        list_recent_messages_script(Some("INBOX"), Some("Work"), 7)
    );
    assert!(list_recent_messages_script(None, Some("Work"), 7).contains("account \"Work\""));
}

#[test]
fn search_scripts() {
    for q in ["meeting", "", "say \"hi\"", "naïve ☃"] {
        assert_eq!(search_messages_script(q), expected_search_messages(q));
    }
}

#[test]
fn message_scripts_use_the_cleaned_id() {
    for id in ["12345", "12345:extra", "  77  : x : y", "", ":", "abc"] {
        assert_eq!(get_message_content_script(id), expected_get_message_content(id));
        assert_eq!(mark_message_as_read_script(id), expected_mark_message_as_read(id));
        assert_eq!(mark_message_as_unread_script(id), expected_mark_message_as_unread(id));
        assert_eq!(delete_message_script(id), expected_delete_message(id));
        assert_eq!(get_message_source_script(id), expected_get_message_source(id));
        assert_eq!(save_email_to_file_script(id), expected_save_email_to_file(id, "/tmp/x.txt"));
    }
    assert!(get_message_content_script(" 42:abc").contains("whose id is 42\n"));
}

#[test]
fn a_decorated_id_gives_the_same_script() {
    for id in ["12", "abc", ""] {
        let plain = get_message_content_script(id);
        assert_eq!(get_message_content_script(&format!("{}:{}", id, "rest:more")), plain);
        assert_eq!(get_message_content_script(&format!(" {} ", id)), plain);
    }
}

#[test]
fn read_and_unread_scripts_differ_only_in_the_flag() {
    for id in ["1", "22:x", " 3 "] {
        let read = mark_message_as_read_script(id);
        let unread = mark_message_as_unread_script(id);
        assert_ne!(read, unread);
        assert_eq!(
            read.replace("set read status of msg to true", "set read status of msg to false"),
            unread
        );
    }
}

#[test]
fn compose_scripts() {
    assert_eq!(
        compose_new_email_script("user@example.com", "Hi", "Hello"),
        expected_compose_new_email("user@example.com", "Hi", "Hello")
    );
    assert_eq!(
        compose_new_email_script("a\"b", "S \"q\"", "line1\nline2 \"x\""),
        expected_compose_new_email("a\"b", "S \"q\"", "line1\nline2 \"x\"")
    );
}

fn expected_reply(id: &str, body: &str, reply_all: bool) -> String {
    let to_sender = expected_reply_to_message(id, body, reply_all);
    if reply_all {
        to_sender.replace(
            "reply originalMessage without opening window\n",
            "reply originalMessage without opening window with reply to all\n",
        )
    } else {
        to_sender
    }
}

#[test]
fn reply_scripts() {
    for (id, body, all) in [("123", "Thanks!", false), ("9:z", "two\nlines \"q\"", true), ("1", "", false), ("1", "", true)] {
        assert_eq!(reply_to_message_script(id, body, all), expected_reply(id, body, all));
    }
    assert!(reply_to_message_script("1", "a\nb", false).contains("\"a\" & return & \"b\""));
    assert!(reply_to_message_script("1", "x", true).contains("set replyMessage to reply originalMessage without opening window with reply to all\n"));
    assert!(!reply_to_message_script("1", "x", false).contains("reply to all"));
    assert_ne!(reply_to_message_script("1", "x", true), reply_to_message_script("1", "x", false));
}

#[test]
fn forward_scripts() {
    for (id, to, body) in [("5", "x@y.z", ""), ("5:q", "x\"@y.z", "FYI\nsee \"below\""), (" 8 ", "", "note")] {
        assert_eq!(forward_message_script(id, to, body), expected_forward_message(id, to, body));
    }
}

#[test]
fn attachment_scripts() {
    for (id, dir) in [("1", "/tmp/out"), ("2:x", "/tmp/out/"), ("3", ""), ("4", "/a \"b\"/")] {
        assert_eq!(download_attachments_script(id, dir), expected_download_attachments(id, dir));
    }
}

#[test]
fn refresh_scripts() {
    assert_eq!(refresh_mailboxes_script(None), expected_refresh_mailboxes(None));
    assert_eq!(refresh_mailboxes_script(Some("Gmail")), expected_refresh_mailboxes(Some("Gmail")));
    assert_eq!(refresh_mailboxes_script(Some("a\"b")), expected_refresh_mailboxes(Some("a\"b")));
}
