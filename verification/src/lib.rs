//! Apple Mail automation: the AppleScript programs that drive Mail.app and
//! what is made of their output. Running a script is left to the caller: each
//! operation takes a `run` function that hands a script to `osascript` and
//! gives back what it printed.

pub mod error;
pub mod mail;
pub mod mime;
pub mod number;
pub mod reply;
pub mod runner;
pub mod script;
pub mod templates;
pub mod text;

pub use error::MailError;
pub use mail::{
    compose_new_email, delete_message, delete_messages, download_all_parts_plan, download_attachments,
    email_file_content, forward_message, get_account_names, get_current_selection,
    get_mailbox_names, get_message_content, get_message_source, get_messages_in_period,
    get_unread_count, get_unread_count_period, is_mail_running, list_recent_messages,
    mark_message_as_read, mark_message_as_unread, mark_messages_as_read, mark_messages_as_unread,
    refresh_mailboxes, reply_to_message,
    search_messages,
};
pub use mime::{Disposition, MimePart, SavedPart};
pub use reply::script_outcome;
pub use script::{escape_quotes, launch_mail_app_script, period_hours};
