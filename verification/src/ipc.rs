//! The message protocol between the web UI and the native side.
//!
//! A message from the UI carries a channel name and a JSON `data` object.
//! Window channels are handled by the UI thread itself; every other message
//! goes to the background worker, which turns it into a [`WorkerTask`],
//! carries the task out, and answers with an [`IpcResponse`] on the same
//! channel. The answer reaches the page as a call of
//! `window.Utah.receiveResponse` whose arguments are JSON string literals.

use vstd::prelude::*;
use crate::text::{decimal, push_decimal, same_text};

verus! {

/// A message from the web UI, with the parts of its `data` object that the
/// native side reads.
#[derive(Debug)]
pub struct IpcMessage {
    /// The channel name, such as `"fs:read"`.
    pub channel: String,
    /// The members of `data` whose values are JSON strings, in order. Names
    /// are distinct in a parsed JSON object; should one occur twice, lookups
    /// take the first.
    pub fields: Vec<(String, String)>,
    /// The JSON text of `data.timestamp` (`null` when it is absent).
    pub timestamp_json: String,
}

/// An answer of the worker to the web UI.
#[derive(Debug)]
pub struct IpcResponse {
    pub channel: String,
    pub status: String,
    pub payload: String,
}

/// The value of the string member `name` of a message's data, if there is one.
pub open spec fn field_text(fields: Seq<(String, String)>, name: Seq<char>) -> Option<Seq<char>>
    decreases fields.len(),
{
    if fields.len() == 0 {
        None
    } else if fields[0].0@ == name {
        Some(fields[0].1@)
    } else {
        field_text(fields.drop_first(), name)
    }
}

/// The value of the string member `name`, or `default` when there is none.
pub open spec fn field_or(fields: Seq<(String, String)>, name: Seq<char>, default: Seq<char>) -> Seq<
    char,
> {
    match field_text(fields, name) {
        Some(v) => v,
        None => default,
    }
}

/// Looks up the string member `name`, falling back to `default`.
pub fn field_or_default(fields: &Vec<(String, String)>, name: &str, default: &str) -> (v: String)
    ensures
        v@ == field_or(fields@, name@, default@),
{
    let n = fields.len();
    let mut i: usize = 0;
    assert(fields@.skip(0) =~= fields@);
    while i < n
        invariant
            n == fields.len(),
            i <= n,
            field_text(fields@, name@) == field_text(fields@.skip(i as int), name@),
        decreases n - i,
    {
        assert(fields@.skip(i as int).drop_first() =~= fields@.skip(i + 1));
        if same_text(fields[i].0.as_str(), name) {
            return fields[i].1.clone();
        }
        i = i + 1;
    }
    assert(fields@.skip(n as int) =~= Seq::<(String, String)>::empty());
    String::from_str(default)
}

/// What the UI thread does with a message.
#[derive(Clone, Copy, Debug, PartialEq, Eq)]
pub enum UiRoute {
    /// `window:minimize`: minimise the window.
    Minimize,
    /// `window:maximize`: toggle the maximised state.
    ToggleMaximize,
    /// `window:close`: quit the whole application.
    Quit,
    /// `window:drag`: start dragging the frameless window.
    Drag,
    /// Anything else: hand the message to the background worker.
    Forward,
}

/// The route of a message with channel `channel`.
pub open spec fn ui_route(channel: Seq<char>) -> UiRoute {
    if channel == "window:minimize"@ {
        UiRoute::Minimize
    } else if channel == "window:maximize"@ {
        UiRoute::ToggleMaximize
    } else if channel == "window:close"@ {
        UiRoute::Quit
    } else if channel == "window:drag"@ {
        UiRoute::Drag
    } else {
        UiRoute::Forward
    }
}

/// Decides what the UI thread does with a message on `channel`.
pub fn route_ui_message(channel: &str) -> (route: UiRoute)
    ensures
        route == ui_route(channel@),
{
    if same_text(channel, "window:minimize") {
        UiRoute::Minimize
    } else if same_text(channel, "window:maximize") {
        UiRoute::ToggleMaximize
    } else if same_text(channel, "window:close") {
        UiRoute::Quit
    } else if same_text(channel, "window:drag") {
        UiRoute::Drag
    } else {
        UiRoute::Forward
    }
}

/// The work that the background worker does for a message.
#[derive(Debug)]
pub enum WorkerTask {
    /// `system:ping`: answer after a short pause.
    Ping { timestamp_json: String },
    /// `system:update`: look for a newer release and install it.
    SelfUpdate,
    /// `fs:read`: read a text file.
    ReadFile { path: String },
    /// `db:execute`: run an SQL statement on the app database.
    DbExecute { query: String },
    /// `store:set_secure`: store a secret in the OS keyring.
    StoreSecret { key: String, value: String },
    /// `store:get_secure`: fetch a secret from the OS keyring.
    FetchSecret { key: String },
    /// `dialog:open`: let the user pick a file.
    OpenDialog,
    /// `clipboard:write`: put text on the clipboard.
    ClipboardWrite { text: String },
    /// `clipboard:read`: read text from the clipboard.
    ClipboardRead,
    /// `system:notify`: show a desktop notification.
    Notify { title: String, body: String },
    /// Any other channel: nothing is done and nothing is answered.
    Unhandled,
}

/// Whether `task` is the work planned for `msg`: the channel picks the kind
/// of work, and the work reads its arguments from the string members of
/// `data`, with `""` (or `"Utah Alert"` for a notification title) for a
/// missing one.
pub open spec fn planned_task(msg: IpcMessage, task: WorkerTask) -> bool {
    let c = msg.channel@;
    let f = msg.fields@;
    if c == "system:ping"@ {
        task matches WorkerTask::Ping { timestamp_json } && timestamp_json@ == msg.timestamp_json@
    } else if c == "system:update"@ {
        task is SelfUpdate
    } else if c == "fs:read"@ {
        task matches WorkerTask::ReadFile { path } && path@ == field_or(f, "path"@, ""@)
    } else if c == "db:execute"@ {
        task matches WorkerTask::DbExecute { query } && query@ == field_or(f, "query"@, ""@)
    } else if c == "store:set_secure"@ {
        task matches WorkerTask::StoreSecret { key, value } && key@ == field_or(f, "key"@, ""@)
            && value@ == field_or(f, "value"@, ""@)
    } else if c == "store:get_secure"@ {
        task matches WorkerTask::FetchSecret { key } && key@ == field_or(f, "key"@, ""@)
    } else if c == "dialog:open"@ {
        task is OpenDialog
    } else if c == "clipboard:write"@ {
        task matches WorkerTask::ClipboardWrite { text } && text@ == field_or(f, "text"@, ""@)
    } else if c == "clipboard:read"@ {
        task is ClipboardRead
    } else if c == "system:notify"@ {
        task matches WorkerTask::Notify { title, body } && title@ == field_or(
            f,
            "title"@,
            "Utah Alert"@,
        ) && body@ == field_or(f, "body"@, ""@)
    } else {
        task is Unhandled
    }
}

/// Decides which work the background worker does for `msg`.
pub fn plan_worker_task(msg: &IpcMessage) -> (task: WorkerTask)
    ensures
        planned_task(*msg, task),
{
    let c = msg.channel.as_str();
    let f = &msg.fields;
    if same_text(c, "system:ping") {
        WorkerTask::Ping { timestamp_json: msg.timestamp_json.clone() }
    } else if same_text(c, "system:update") {
        WorkerTask::SelfUpdate
    } else if same_text(c, "fs:read") {
        WorkerTask::ReadFile { path: field_or_default(f, "path", "") }
    } else if same_text(c, "db:execute") {
        WorkerTask::DbExecute { query: field_or_default(f, "query", "") }
    } else if same_text(c, "store:set_secure") {
        let key = field_or_default(f, "key", "");
        let value = field_or_default(f, "value", "");
        WorkerTask::StoreSecret { key, value }
    } else if same_text(c, "store:get_secure") {
        WorkerTask::FetchSecret { key: field_or_default(f, "key", "") }
    } else if same_text(c, "dialog:open") {
        WorkerTask::OpenDialog
    } else if same_text(c, "clipboard:write") {
        WorkerTask::ClipboardWrite { text: field_or_default(f, "text", "") }
    } else if same_text(c, "clipboard:read") {
        WorkerTask::ClipboardRead
    } else if same_text(c, "system:notify") {
        let title = field_or_default(f, "title", "Utah Alert");
        let body = field_or_default(f, "body", "");
        WorkerTask::Notify { title, body }
    } else {
        WorkerTask::Unhandled
    }
}


/// What the self-updater reported.
#[derive(Debug)]
pub struct UpdateStatus {
    /// Whether a newer release was installed.
    pub updated: bool,
    /// The version installed, or the current version when none was.
    pub version: String,
}

/// What the keyring lookup gave.
#[derive(Debug)]
pub enum SecretLookup {
    /// The stored secret.
    Found(String),
    /// The entry exists but holds no readable secret.
    Missing,
    /// The keyring entry could not be opened; the error text.
    StoreFailed(String),
}

/// What came of a worker task, as plain values; error variants hold the
/// error's text.
#[derive(Debug)]
pub enum TaskOutcome {
    /// The ping was served.
    Pinged { timestamp_json: String },
    /// The update check finished, or failed.
    UpdateChecked(Result<UpdateStatus, String>),
    /// The file's contents, or the read error.
    FileRead(Result<String, String>),
    /// The number of rows the statement changed, or the database error.
    DbExecuted(Result<usize, String>),
    /// The secret was stored, or the keyring error.
    SecretStored(Result<(), String>),
    /// The result of a keyring lookup.
    SecretFetched(SecretLookup),
    /// The path the user picked, or nothing when the dialog was cancelled.
    DialogClosed(Option<String>),
    /// The text was put on the clipboard, or the clipboard error.
    ClipboardWritten(Result<(), String>),
    /// The clipboard text (empty when it held none), or the clipboard error.
    ClipboardText(Result<String, String>),
    /// The notification was shown, or the notification error.
    Notified(Result<(), String>),
}

/// The status of the answer to an outcome.
pub open spec fn response_status(outcome: TaskOutcome) -> Seq<char> {
    match outcome {
        TaskOutcome::Pinged { .. } => "SUCCESS"@,
        TaskOutcome::UpdateChecked(r) => match r {
            Ok(status) => if status.updated {
                "UPDATED"@
            } else {
                "UP_TO_DATE"@
            },
            Err(_) => "ERROR"@,
        },
        TaskOutcome::FileRead(_) => "COMPLETED"@,
        TaskOutcome::DbExecuted(r) => if r is Ok {
            "SUCCESS"@
        } else {
            "ERROR"@
        },
        TaskOutcome::SecretStored(r) => if r is Ok {
            "SUCCESS"@
        } else {
            "ERROR"@
        },
        TaskOutcome::SecretFetched(l) => if l is StoreFailed {
            "ERROR"@
        } else {
            "SUCCESS"@
        },
        TaskOutcome::DialogClosed(_) => "SUCCESS"@,
        TaskOutcome::ClipboardWritten(r) => if r is Ok {
            "SUCCESS"@
        } else {
            "ERROR"@
        },
        TaskOutcome::ClipboardText(r) => if r is Ok {
            "SUCCESS"@
        } else {
            "ERROR"@
        },
        TaskOutcome::Notified(r) => if r is Ok {
            "SUCCESS"@
        } else {
            "ERROR"@
        },
    }
}

/// The payload of the answer to an outcome.
pub open spec fn response_payload(outcome: TaskOutcome) -> Seq<char> {
    match outcome {
        TaskOutcome::Pinged { timestamp_json } => "Core Synapse synchronized at "@ + timestamp_json@,
        TaskOutcome::UpdateChecked(r) => match r {
            Ok(status) => if status.updated {
                "Installed v"@ + status.version@
                    + ". Restart the application to run the new binary."@
            } else {
                "Already current (checked against v"@ + status.version@ + ")."@
            },
            Err(e) => e@,
        },
        TaskOutcome::FileRead(r) => match r {
            Ok(contents) => contents@,
            Err(e) => "ACCESS_ERROR: "@ + e@,
        },
        TaskOutcome::DbExecuted(r) => match r {
            Ok(rows) => "Rows affected: "@ + decimal(rows as nat),
            Err(e) => e@,
        },
        TaskOutcome::SecretStored(r) => match r {
            Ok(_) => "SECURED"@,
            Err(e) => e@,
        },
        TaskOutcome::SecretFetched(l) => match l {
            SecretLookup::Found(v) => v@,
            SecretLookup::Missing => "NOT_FOUND"@,
            SecretLookup::StoreFailed(e) => e@,
        },
        TaskOutcome::DialogClosed(p) => match p {
            Some(path) => path@,
            None => "CANCELLED"@,
        },
        TaskOutcome::ClipboardWritten(r) => match r {
            Ok(_) => "COPIED"@,
            Err(e) => e@,
        },
        TaskOutcome::ClipboardText(r) => match r {
            Ok(t) => t@,
            Err(e) => e@,
        },
        TaskOutcome::Notified(r) => match r {
            Ok(_) => "DISPATCHED"@,
            Err(e) => e@,
        },
    }
}

fn ok_or_error(ok: bool) -> (s: String)
    ensures
        s@ == (if ok {
            "SUCCESS"@
        } else {
            "ERROR"@
        }),
{
    if ok {
        String::from_str("SUCCESS")
    } else {
        String::from_str("ERROR")
    }
}

/// Builds the worker's answer on `channel` to what came of a task.
pub fn worker_response(channel: String, outcome: TaskOutcome) -> (r: IpcResponse)
    ensures
        r.channel@ == channel@,
        r.status@ == response_status(outcome),
        r.payload@ == response_payload(outcome),
{
    let (status, payload) = match outcome {
        TaskOutcome::Pinged { timestamp_json } => {
            let mut p = String::from_str("Core Synapse synchronized at ");
            p.append(timestamp_json.as_str());
            (String::from_str("SUCCESS"), p)
        },
        TaskOutcome::UpdateChecked(r) => match r {
            Ok(status) => {
                if status.updated {
                    let mut p = String::from_str("Installed v");
                    p.append(status.version.as_str());
                    p.append(". Restart the application to run the new binary.");
                    (String::from_str("UPDATED"), p)
                } else {
                    let mut p = String::from_str("Already current (checked against v");
                    p.append(status.version.as_str());
                    p.append(").");
                    (String::from_str("UP_TO_DATE"), p)
                }
            },
            Err(e) => (String::from_str("ERROR"), e),
        },
        TaskOutcome::FileRead(r) => match r {
            Ok(contents) => (String::from_str("COMPLETED"), contents),
            Err(e) => {
                let mut p = String::from_str("ACCESS_ERROR: ");
                p.append(e.as_str());
                (String::from_str("COMPLETED"), p)
            },
        },
        TaskOutcome::DbExecuted(r) => match r {
            Ok(rows) => {
                let mut p = String::from_str("Rows affected: ");
                push_decimal(&mut p, rows as u64);
                (ok_or_error(true), p)
            },
            Err(e) => (ok_or_error(false), e),
        },
        TaskOutcome::SecretStored(r) => match r {
            Ok(_) => (ok_or_error(true), String::from_str("SECURED")),
            Err(e) => (ok_or_error(false), e),
        },
        TaskOutcome::SecretFetched(l) => match l {
            SecretLookup::Found(v) => (ok_or_error(true), v),
            SecretLookup::Missing => (ok_or_error(true), String::from_str("NOT_FOUND")),
            SecretLookup::StoreFailed(e) => (ok_or_error(false), e),
        },
        TaskOutcome::DialogClosed(p) => match p {
            Some(path) => (ok_or_error(true), path),
            None => (ok_or_error(true), String::from_str("CANCELLED")),
        },
        TaskOutcome::ClipboardWritten(r) => match r {
            Ok(_) => (ok_or_error(true), String::from_str("COPIED")),
            Err(e) => (ok_or_error(false), e),
        },
        TaskOutcome::ClipboardText(r) => match r {
            Ok(t) => (ok_or_error(true), t),
            Err(e) => (ok_or_error(false), e),
        },
        TaskOutcome::Notified(r) => match r {
            Ok(_) => (ok_or_error(true), String::from_str("DISPATCHED")),
            Err(e) => (ok_or_error(false), e),
        },
    };
    IpcResponse { channel, status, payload }
}


/// Whether `got` is the string member `name` of `fields` when there is one,
/// and `default` when there is none.
pub open spec fn taken_from(fields: Seq<(String, String)>, name: Seq<char>, default: Seq<char>, got: Seq<char>) -> bool {
    &&& field_text(fields, name) is Some ==> got == field_text(fields, name).unwrap()
    &&& field_text(fields, name) is None ==> got == default
}

proof fn lemma_channel_names_differ()
    ensures
        "system:ping"@ != "system:update"@,
        "system:ping"@ != "fs:read"@,
        "system:ping"@ != "db:execute"@,
        "system:ping"@ != "store:set_secure"@,
        "system:ping"@ != "store:get_secure"@,
        "system:ping"@ != "dialog:open"@,
        "system:ping"@ != "clipboard:write"@,
        "system:ping"@ != "clipboard:read"@,
        "system:ping"@ != "system:notify"@,
        "system:update"@ != "fs:read"@,
        "system:update"@ != "db:execute"@,
        "system:update"@ != "store:set_secure"@,
        "system:update"@ != "store:get_secure"@,
        "system:update"@ != "dialog:open"@,
        "system:update"@ != "clipboard:write"@,
        "system:update"@ != "clipboard:read"@,
        "system:update"@ != "system:notify"@,
        "fs:read"@ != "db:execute"@,
        "fs:read"@ != "store:set_secure"@,
        "fs:read"@ != "store:get_secure"@,
        "fs:read"@ != "dialog:open"@,
        "fs:read"@ != "clipboard:write"@,
        "fs:read"@ != "clipboard:read"@,
        "fs:read"@ != "system:notify"@,
        "db:execute"@ != "store:set_secure"@,
        "db:execute"@ != "store:get_secure"@,
        "db:execute"@ != "dialog:open"@,
        "db:execute"@ != "clipboard:write"@,
        "db:execute"@ != "clipboard:read"@,
        "db:execute"@ != "system:notify"@,
        "store:set_secure"@ != "store:get_secure"@,
        "store:set_secure"@ != "dialog:open"@,
        "store:set_secure"@ != "clipboard:write"@,
        "store:set_secure"@ != "clipboard:read"@,
        "store:set_secure"@ != "system:notify"@,
        "store:get_secure"@ != "dialog:open"@,
        "store:get_secure"@ != "clipboard:write"@,
        "store:get_secure"@ != "clipboard:read"@,
        "store:get_secure"@ != "system:notify"@,
        "dialog:open"@ != "clipboard:write"@,
        "dialog:open"@ != "clipboard:read"@,
        "dialog:open"@ != "system:notify"@,
        "clipboard:write"@ != "clipboard:read"@,
        "clipboard:write"@ != "system:notify"@,
        "clipboard:read"@ != "system:notify"@,
{
    broadcast use vstd::string::group_string_axioms;

    reveal_strlit("system:ping");
    reveal_strlit("system:update");
    reveal_strlit("fs:read");
    reveal_strlit("db:execute");
    reveal_strlit("store:set_secure");
    reveal_strlit("store:get_secure");
    reveal_strlit("dialog:open");
    reveal_strlit("clipboard:write");
    reveal_strlit("clipboard:read");
    reveal_strlit("system:notify");
    assert("system:ping"@.len() == 11);
    assert("system:update"@.len() == 13);
    assert("fs:read"@.len() == 7);
    assert("db:execute"@.len() == 10);
    assert("store:set_secure"@.len() == 16);
    assert("store:get_secure"@.len() == 16);
    assert("dialog:open"@.len() == 11);
    assert("clipboard:write"@.len() == 15);
    assert("clipboard:read"@.len() == 14);
    assert("system:notify"@.len() == 13);
    assert("system:ping"@[0] == 's' && "dialog:open"@[0] == 'd');
    assert("system:update"@[7] == 'u' && "system:notify"@[7] == 'n');
    assert("store:set_secure"@[6] == 's' && "store:get_secure"@[6] == 'g');
}

/// Each argument of a planned task is the string member of the message's
/// data that it is named after, whatever the other members hold; the default
/// (`""`, or `"Utah Alert"` for a notification's title) stands in only when
/// that member is missing.
pub proof fn task_arguments_come_from_data(msg: IpcMessage, task: WorkerTask)
    requires
        planned_task(msg, task),
    ensures
        msg.channel@ == "fs:read"@ ==> (task matches WorkerTask::ReadFile { path } && taken_from(
            msg.fields@,
            "path"@,
            ""@,
            path@,
        )),
        msg.channel@ == "db:execute"@ ==> (task matches WorkerTask::DbExecute { query }
            && taken_from(msg.fields@, "query"@, ""@, query@)),
        msg.channel@ == "store:set_secure"@ ==> (task matches WorkerTask::StoreSecret { key, value }
            && taken_from(msg.fields@, "key"@, ""@, key@) && taken_from(
            msg.fields@,
            "value"@,
            ""@,
            value@,
        )),
        msg.channel@ == "store:get_secure"@ ==> (task matches WorkerTask::FetchSecret { key }
            && taken_from(msg.fields@, "key"@, ""@, key@)),
        msg.channel@ == "clipboard:write"@ ==> (task matches WorkerTask::ClipboardWrite { text }
            && taken_from(msg.fields@, "text"@, ""@, text@)),
        msg.channel@ == "system:notify"@ ==> (task matches WorkerTask::Notify { title, body }
            && taken_from(msg.fields@, "title"@, "Utah Alert"@, title@) && taken_from(
            msg.fields@,
            "body"@,
            ""@,
            body@,
        )),
        msg.channel@ == "system:ping"@ ==> (task matches WorkerTask::Ping { timestamp_json }
            && timestamp_json@ == msg.timestamp_json@),
{
    lemma_channel_names_differ();
}

/// Whether an outcome reports a failure of the task.
pub open spec fn failed(outcome: TaskOutcome) -> bool {
    match outcome {
        TaskOutcome::Pinged { .. } => false,
        TaskOutcome::UpdateChecked(r) => r is Err,
        TaskOutcome::FileRead(r) => r is Err,
        TaskOutcome::DbExecuted(r) => r is Err,
        TaskOutcome::SecretStored(r) => r is Err,
        TaskOutcome::SecretFetched(l) => l is StoreFailed,
        TaskOutcome::DialogClosed(_) => false,
        TaskOutcome::ClipboardWritten(r) => r is Err,
        TaskOutcome::ClipboardText(r) => r is Err,
        TaskOutcome::Notified(r) => r is Err,
    }
}

/// The answers carry what the tasks produced: the file's contents, the
/// clipboard text, the stored secret, the picked path, the row count and the
/// installed version come back in the payload. A failure comes back with the
/// `ERROR` status and the error's text as payload, except that a failed file
/// read is `COMPLETED` with `ACCESS_ERROR: ` before the error; no success
/// comes back as `ERROR`.
pub proof fn answers_carry_results(outcome: TaskOutcome)
    ensures
        outcome matches TaskOutcome::ClipboardText(Ok(t)) ==> response_payload(outcome) == t@
            && response_status(outcome) == "SUCCESS"@,
        outcome matches TaskOutcome::FileRead(Ok(c)) ==> response_payload(outcome) == c@
            && response_status(outcome) == "COMPLETED"@,
        outcome matches TaskOutcome::FileRead(Err(e)) ==> response_payload(outcome)
            == "ACCESS_ERROR: "@ + e@ && response_status(outcome) == "COMPLETED"@,
        outcome matches TaskOutcome::SecretFetched(SecretLookup::Found(v)) ==> response_payload(
            outcome,
        ) == v@ && response_status(outcome) == "SUCCESS"@,
        outcome matches TaskOutcome::DialogClosed(Some(p)) ==> response_payload(outcome) == p@
            && response_status(outcome) == "SUCCESS"@,
        outcome matches TaskOutcome::DbExecuted(Ok(n)) ==> response_payload(outcome)
            == "Rows affected: "@ + decimal(n as nat) && response_status(outcome) == "SUCCESS"@,
        outcome matches TaskOutcome::Pinged { timestamp_json } ==> response_payload(outcome)
            == "Core Synapse synchronized at "@ + timestamp_json@,
        outcome matches TaskOutcome::UpdateChecked(Ok(st)) ==> (if st.updated {
            response_status(outcome) == "UPDATED"@ && response_payload(outcome) == "Installed v"@
                + st.version@ + ". Restart the application to run the new binary."@
        } else {
            response_status(outcome) == "UP_TO_DATE"@ && response_payload(outcome)
                == "Already current (checked against v"@ + st.version@ + ")."@
        }),
        failed(outcome) && !(outcome is FileRead) ==> response_status(outcome) == "ERROR"@,
        outcome matches TaskOutcome::UpdateChecked(Err(e)) ==> response_payload(outcome) == e@,
        outcome matches TaskOutcome::DbExecuted(Err(e)) ==> response_payload(outcome) == e@,
        outcome matches TaskOutcome::SecretStored(Err(e)) ==> response_payload(outcome) == e@,
        outcome matches TaskOutcome::SecretFetched(SecretLookup::StoreFailed(e))
            ==> response_payload(outcome) == e@,
        outcome matches TaskOutcome::ClipboardWritten(Err(e)) ==> response_payload(outcome)
            == e@,
        outcome matches TaskOutcome::ClipboardText(Err(e)) ==> response_payload(outcome) == e@,
        outcome matches TaskOutcome::Notified(Err(e)) ==> response_payload(outcome) == e@,
        !failed(outcome) ==> response_status(outcome) != "ERROR"@,
{
    broadcast use vstd::string::group_string_axioms;

    reveal_strlit("ERROR");
    reveal_strlit("SUCCESS");
    reveal_strlit("UPDATED");
    reveal_strlit("UP_TO_DATE");
    reveal_strlit("COMPLETED");
    assert("SUCCESS"@.len() == 7 && "UPDATED"@.len() == 7 && "ERROR"@.len() == 5);
    assert("SUCCESS"@ != "ERROR"@);
    assert("UPDATED"@ != "ERROR"@);
    assert("UP_TO_DATE"@ != "ERROR"@);
    assert("COMPLETED"@ != "ERROR"@);
}

} // verus!
