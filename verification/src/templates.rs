//! The fixed text of the AppleScript programs; each `_N` constant is the N-th
//! piece of a program, and the values of the request go between the pieces.

use vstd::prelude::*;

verus! {

pub const ACTIVATE: &'static str = "tell application \"Mail\" to activate";

pub const IS_RUNNING: &'static str = "tell application \"System Events\" to return exists (processes where name is \"Mail\")";

pub const UNREAD_COUNT: &'static str = "tell application \"Mail\" to get unread count of inbox";

pub const UNREAD_PERIOD_0: &'static str = "\n        tell application \"Mail\"\n            set cutoffDate to (current date) - (";

pub const UNREAD_PERIOD_1: &'static str = " * 60 * 60)\n            set unreadCount to 0\n            repeat with i from 1 to (count of messages of inbox)\n                try\n                    set msg to message i of inbox\n                    if date received of msg < cutoffDate then exit repeat\n                    if read status of msg is false then set unreadCount to unreadCount + 1\n                on error\n                    exit repeat\n                end try\n            end repeat\n            return unreadCount\n        end tell\n    ";

pub const MESSAGES_PERIOD_0: &'static str = "\n        tell application \"Mail\"\n            set cutoffDate to (current date) - (";

pub const MESSAGES_PERIOD_1: &'static str = " * 60 * 60)\n            set output to \"\"\n            set found to 0\n            repeat with i from 1 to (count of messages of inbox)\n                try\n                    set msg to message i of inbox\n                    if date received of msg < cutoffDate then exit repeat\n                    set mid to id of msg as string\n                    set msubject to subject of msg\n                    set msender to sender of msg\n                    set mdate to date received of msg\n                    set mread to read status of msg\n                    set readFlag to \"●\"\n                    if mread then set readFlag to \" \"\n                    set hasAtt to count of mail attachments of msg\n                    set output to output & mid & \" | \" & readFlag & \" | \" & mdate & \" | \" & msender & \" | \" & msubject & \" | Att:\" & hasAtt & linefeed\n                    set found to found + 1\n                    if found = ";

pub const MESSAGES_PERIOD_2: &'static str = " then exit repeat\n                on error\n                    exit repeat\n                end try\n            end repeat\n            if output is \"\" then return \"No messages found in the specified period\"\n            return output\n        end tell\n    ";

pub const MAILBOX_NAMES: &'static str = "tell application \"Mail\" to return name of every mailbox";

pub const ACCOUNT_NAMES: &'static str = "tell application \"Mail\" to return name of every account";

pub const LIST_IN_ACCOUNT_0: &'static str = "\n                tell application \"Mail\"\n                    set output to \"\"\n                    set targetAccount to account \"";

pub const LIST_IN_ACCOUNT_1: &'static str = "\"\n                    set mbx to mailbox \"";

pub const LIST_IN_ACCOUNT_2: &'static str = "\" of targetAccount\n                    repeat with i from 1 to ";

pub const LIST_IN_ACCOUNT_3: &'static str = "\n                        try\n                            set msg to message i of mbx\n                            set mid to id of msg as string\n                            set msubject to subject of msg\n                            set msender to sender of msg\n                            set mdate to date received of msg\n                            set mread to read status of msg\n                            set readFlag to \"●\"\n                            if mread then set readFlag to \" \"\n                            set hasAtt to count of mail attachments of msg\n                            set output to output & mid & \" | \" & readFlag & \" | \" & mdate & \" | \" & msender & \" | \" & msubject & \" | Att:\" & hasAtt & linefeed\n                        on error\n                            exit repeat\n                        end try\n                    end repeat\n                    if output is \"\" then return \"No messages found\"\n                    return output\n                end tell\n            ";

pub const LIST_IN_MAILBOX_0: &'static str = "\n                tell application \"Mail\"\n                    set output to \"\"\n                    repeat with acct in accounts\n                        try\n                            set targetMbx to mailbox \"";

pub const LIST_IN_MAILBOX_1: &'static str = "\" of acct\n                            repeat with i from 1 to ";

pub const LIST_IN_MAILBOX_2: &'static str = "\n                                try\n                                    set msg to message i of targetMbx\n                                    set mid to id of msg as string\n                                    set msubject to subject of msg\n                                    set msender to sender of msg\n                                    set mdate to date received of msg\n                                    set mread to read status of msg\n                                    set readFlag to \"●\"\n                                    if mread then set readFlag to \" \"\n                                    set hasAtt to count of mail attachments of msg\n                                    set output to output & mid & \" | \" & readFlag & \" | \" & mdate & \" | \" & msender & \" | \" & msubject & \" | Att:\" & hasAtt & linefeed\n                                on error\n                                    exit repeat\n                                end try\n                            end repeat\n                        end try\n                    end repeat\n                    if output is \"\" then return \"No messages found\"\n                    return output\n                end tell\n            ";

pub const LIST_INBOX_0: &'static str = "\n                tell application \"Mail\"\n                    set output to \"\"\n                    repeat with i from 1 to ";

pub const LIST_INBOX_1: &'static str = "\n                        try\n                            set msg to message i of inbox\n                            set mid to id of msg as string\n                            set msubject to subject of msg\n                            set msender to sender of msg\n                            set mdate to date received of msg\n                            set mread to read status of msg\n                            set readFlag to \"●\"\n                            if mread then set readFlag to \" \"\n                            set hasAtt to count of mail attachments of msg\n                            set output to output & mid & \" | \" & readFlag & \" | \" & mdate & \" | \" & msender & \" | \" & msubject & \" | Att:\" & hasAtt & linefeed\n                        on error\n                            exit repeat\n                        end try\n                    end repeat\n                    if output is \"\" then return \"No messages found\"\n                    return output\n                end tell\n            ";

pub const SEARCH_0: &'static str = "\n        tell application \"Mail\"\n            set output to \"\"\n            set searchTerm to \"";

pub const SEARCH_1: &'static str = "\"\n            repeat with i from 1 to 200\n                try\n                    set msg to message i of inbox\n                    if subject of msg contains searchTerm or sender of msg contains searchTerm then\n                        set mid to id of msg as string\n                        set msubject to subject of msg\n                        set msender to sender of msg\n                        set mdate to date received of msg\n                        set mread to read status of msg\n                        set readFlag to \"●\"\n                        if mread then set readFlag to \" \"\n                        set hasAtt to count of mail attachments of msg\n                        set output to output & mid & \" | \" & readFlag & \" | \" & mdate & \" | \" & msender & \" | \" & msubject & \" | Att:\" & hasAtt & linefeed\n                    end if\n                on error\n                    exit repeat\n                end try\n            end repeat\n            if output is \"\" then return \"No messages found matching the query\"\n            return output\n        end tell\n    ";

pub const CONTENT_0: &'static str = "\n        tell application \"Mail\"\n            try\n                set msg to first message of inbox whose id is ";

pub const CONTENT_1: &'static str = "\n                set output to \"From: \" & sender of msg & linefeed\n                try\n                    set mto to \"\"\n                    repeat with r in to recipients of msg\n                        set mto to mto & address of r & \", \"\n                    end repeat\n                    if mto ends with \", \" then set mto to text 1 thru -3 of mto\n                    set output to output & \"To: \" & mto & linefeed\n                end try\n                set output to output & \"Date: \" & date received of msg & linefeed\n                set output to output & \"Subject: \" & subject of msg & linefeed\n                set output to output & linefeed & \"---\" & linefeed & linefeed\n                set output to output & content of msg\n                return output\n            on error errMsg\n                return \"ERROR:\" & errMsg\n            end try\n        end tell\n    ";

pub const COMPOSE_0: &'static str = "\n        tell application \"Mail\"\n            set newMessage to make new outgoing message with properties {subject:\"";

pub const COMPOSE_1: &'static str = "\", content:\"";

pub const COMPOSE_2: &'static str = "\", visible:false}\n            tell newMessage\n                make new to recipient at end of to recipients with properties {address:\"";

pub const COMPOSE_3: &'static str = "\"}\n            end tell\n            send newMessage\n        end tell\n    ";

pub const REPLY_0: &'static str = "\n        tell application \"Mail\"\n            set originalMessage to first message of inbox whose id is ";

pub const REPLY_1: &'static str = "\n            set origSender to sender of originalMessage\n            set origDate to date received of originalMessage as string\n            set origContent to content of originalMessage\n            set quotedHeader to return & return & \"On \" & origDate & \", \" & origSender & \" wrote:\" & return & return\n            set replyMessage to reply originalMessage without opening window";

/// Added to the reply command when the reply goes to every recipient.
pub const REPLY_TO_ALL: &'static str = " with reply to all";

pub const REPLY_2: &'static str = "\n            set content of replyMessage to \"";

pub const REPLY_3: &'static str = "\" & quotedHeader & origContent\n            send replyMessage\n        end tell\n    ";

pub const FORWARD_NOTE_0: &'static str = "\"";

pub const FORWARD_NOTE_1: &'static str = "\" & return & return & ";

pub const FORWARD_0: &'static str = "\n        tell application \"Mail\"\n            set originalMessage to first message of inbox whose id is ";

pub const FORWARD_1: &'static str = "\n            set origSender to sender of originalMessage\n            set origDate to date received of originalMessage as string\n            set origSubject to subject of originalMessage\n            set origContent to content of originalMessage\n            set fwdHeader to \"---------- Forwarded message ----------\" & return & \"From: \" & origSender & return & \"Date: \" & origDate & return & \"Subject: \" & origSubject & return & return\n            set fwdMessage to forward originalMessage without opening window\n            tell fwdMessage\n                make new to recipient at end of to recipients with properties {address:\"";

pub const FORWARD_2: &'static str = "\"}\n            end tell\n            set content of fwdMessage to ";

pub const FORWARD_3: &'static str = "fwdHeader & origContent\n            send fwdMessage\n        end tell\n    ";

pub const MARK_0: &'static str = "\n        tell application \"Mail\"\n            try\n                set msg to first message of inbox whose id is ";

pub const MARK_1: &'static str = "\n                set read status of msg to ";

/// The read flag of the mark-read script.
pub const READ_FLAG: &'static str = "true";

/// The read flag of the mark-unread script.
pub const UNREAD_FLAG: &'static str = "false";

pub const MARK_2: &'static str = "\n                return \"OK\"\n            on error errMsg\n                return \"ERROR:\" & errMsg\n            end try\n        end tell\n    ";

pub const DELETE_0: &'static str = "\n        tell application \"Mail\"\n            try\n                set msg to first message of inbox whose id is ";

pub const DELETE_1: &'static str = "\n                delete msg\n                return \"OK\"\n            on error errMsg\n                return \"ERROR:\" & errMsg\n            end try\n        end tell\n    ";

pub const ATTACHMENTS_0: &'static str = "\n        tell application \"Mail\"\n            try\n                set theMessage to first message of inbox whose id is ";

pub const ATTACHMENTS_1: &'static str = "\n                set attachmentPaths to {}\n                repeat with theAttachment in mail attachments of theMessage\n                    try\n                        set attachmentName to name of theAttachment\n                        set savePath to \"";

pub const ATTACHMENTS_2: &'static str = "\" & attachmentName\n                        save theAttachment in POSIX file savePath\n                        set end of attachmentPaths to savePath\n                    end try\n                end repeat\n                if (count of attachmentPaths) is 0 then return \"NO_ATTACHMENTS\"\n                set AppleScript's text item delimiters to \",\"\n                set pathString to attachmentPaths as string\n                set AppleScript's text item delimiters to \"\"\n                return pathString\n            on error errMsg\n                return \"ERROR:\" & errMsg\n            end try\n        end tell\n    ";

pub const SAVE_EMAIL_0: &'static str = "\n        tell application \"Mail\"\n            try\n                set theMessage to first message of inbox whose id is ";

pub const SAVE_EMAIL_1: &'static str = "\n                set msgContent to \"From: \" & sender of theMessage & linefeed\n                try\n                    set msgContent to msgContent & \"To: \" & (address of first to recipient of theMessage as string) & linefeed\n                end try\n                set msgContent to msgContent & \"Subject: \" & subject of theMessage & linefeed\n                set msgContent to msgContent & \"Date: \" & date received of theMessage & linefeed\n                set msgContent to msgContent & linefeed & \"---\" & linefeed & linefeed\n                set msgContent to msgContent & content of theMessage\n                return msgContent\n            on error errMsg\n                return \"ERROR:\" & errMsg\n            end try\n        end tell\n    ";

pub const REFRESH_ACCOUNT_0: &'static str = "\n            tell application \"Mail\"\n                set targetAccount to account \"";

pub const REFRESH_ACCOUNT_1: &'static str = "\"\n                repeat with mbx in mailboxes of targetAccount\n                    try\n                        check for new mail for mbx\n                    end try\n                end repeat\n                return \"Refresh complete\"\n            end tell\n        ";

pub const REFRESH_ALL: &'static str = "\n            tell application \"Mail\"\n                check for new mail\n                return \"Refresh complete\"\n            end tell\n        ";

pub const SELECTION: &'static str = "\n        tell application \"Mail\"\n            try\n                set selectedMessages to selection\n                if (count of selectedMessages) is 0 then\n                    return \"No messages selected\"\n                end if\n                set messageInfo to \"\"\n                repeat with msg in selectedMessages\n                    set messageInfo to messageInfo & \"ID: \" & (id of msg as string) & linefeed\n                    set messageInfo to messageInfo & \"Subject: \" & subject of msg & linefeed\n                    set messageInfo to messageInfo & \"Sender: \" & sender of msg & linefeed & linefeed\n                end repeat\n                return messageInfo\n            on error errMsg\n                return \"Error: \" & errMsg\n            end try\n        end tell\n    ";

pub const SOURCE_0: &'static str = "\n        tell application \"Mail\"\n            try\n                set msg to first message of inbox whose id is ";

pub const SOURCE_1: &'static str = "\n                return source of msg\n            on error errMsg\n                return \"ERROR:\" & errMsg\n            end try\n        end tell\n    ";

/// What a script prints when Mail reports a failure.
pub const ERROR_PREFIX: &'static str = "ERROR:";

/// What the attachment script prints when a message has no attachments.
pub const NO_ATTACHMENTS: &'static str = "NO_ATTACHMENTS";

} // verus!
