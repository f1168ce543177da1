use utah_core::bridge::{ipc_response_to_eval_js, json_quoted};
use utah_core::ipc::{
    field_or_default, plan_worker_task, route_ui_message, worker_response, IpcMessage,
    IpcResponse, SecretLookup, TaskOutcome, UiRoute, UpdateStatus, WorkerTask,
};
use utah_core::resolve::{
    advance, is_warning, notice_text, start, Command, Effect, Event, Notice, Phase,
};
use utah_core::shell::{decide_shell_event, shell_note_text, ShellAction, ShellEvent, ShellNote};
use utah_core::update::update_config;

fn message(channel: &str, fields: &[(&str, &str)]) -> IpcMessage {
    IpcMessage {
        channel: channel.to_string(),
        fields: fields.iter().map(|(k, v)| (k.to_string(), v.to_string())).collect(),
        timestamp_json: "1700000000".to_string(),
    }
}

/// Runs the search against a simulated world and returns the effects seen and
/// the port finally loaded.
fn run_search(
    port_file: Option<&str>,
    env: Option<&str>,
    mut probe: impl FnMut(u16) -> bool,
    mut scan: impl FnMut() -> Option<u16>,
) -> (Vec<Effect>, u16, usize) {
    let mut step = start();
    let mut effects = Vec::new();
    let mut decisions = 0;
    loop {
        effects.extend(step.effects.iter().copied());
        let event = match step.command {
            Command::ReadPortFile => Event::PortFileText(port_file.map(String::from)),
            Command::ReadEnvPort => Event::EnvPortText(env.map(String::from)),
            Command::Probe(p) => Event::ProbeAnswer(probe(p)),
            Command::ScanRange => Event::ScanAnswer(scan()),
            Command::Load(p) => return (effects, p, decisions),
        };
        step = advance(step.phase, event);
        decisions += 1;
    }
}

#[test]
fn search_uses_port_file_first() {
    let mut tries = 0;
    let (effects, port, _) = run_search(
        Some("5176\n"),
        Some("5180"),
        |p| {
            assert_eq!(p, 5176);
            tries += 1;
            tries == 3
        },
        || panic!("no scan expected"),
    );
    assert_eq!(port, 5176);
    assert_eq!(
        effects,
        vec![
            Effect::Say(Notice::WaitingForPortFile { port: 5176 }),
            Effect::Pause(100),
            Effect::Pause(100),
            Effect::Say(Notice::UsingPortFile { port: 5176, attempt: 3 }),
        ]
    );
}

#[test]
fn search_falls_back_to_env_port() {
    let (effects, port, _) = run_search(None, Some(" 5180 "), |p| p == 5180, || None);
    assert_eq!(port, 5180);
    assert_eq!(effects, vec![Effect::Say(Notice::UsingEnvPort { port: 5180, attempt: 1 })]);
}

#[test]
fn search_skips_unreadable_port_texts() {
    let (_, port, _) = run_search(Some("vite"), Some("not a port"), |_| panic!(), || Some(5190));
    assert_eq!(port, 5190);
}

#[test]
fn search_scans_until_found() {
    let mut scans = 0;
    let (effects, port, _) = run_search(None, None, |_| false, || {
        scans += 1;
        if scans == 4 { Some(5190) } else { None }
    });
    assert_eq!(port, 5190);
    assert_eq!(effects[0], Effect::Say(Notice::WaitingForScan));
    assert_eq!(*effects.last().unwrap(), Effect::Say(Notice::TargetLocked { port: 5190, scan: 4 }));
}

#[test]
fn search_gives_up_on_5173() {
    let mut probes = 0;
    let mut scans = 0;
    let (effects, port, decisions) = run_search(
        Some("5176"),
        Some("5180"),
        |_| {
            probes += 1;
            false
        },
        || {
            scans += 1;
            None
        },
    );
    assert_eq!(port, 5173);
    assert_eq!(probes, 40 + 120);
    assert_eq!(scans, 120);
    assert_eq!(decisions, 1 + 40 + 1 + 120 + 120);
    let pauses: u64 = effects.iter().map(|e| if let Effect::Pause(ms) = e { *ms } else { 0 }).sum();
    assert_eq!(pauses, 40 * 100 + 120 * 250 + 120 * 250);
    let still: Vec<u32> = effects
        .iter()
        .filter_map(|e| if let Effect::Say(Notice::StillWaiting { seconds }) = e { Some(*seconds) } else { None })
        .collect();
    assert_eq!(still, (1..=15).map(|k| k * 2).collect::<Vec<u32>>());
    assert!(effects.contains(&Effect::Say(Notice::EnvPortSilent { port: 5180 })));
    assert_eq!(*effects.last().unwrap(), Effect::Say(Notice::NotDetected));
}

#[test]
fn search_ignores_events_that_do_not_answer() {
    let step = advance(Phase::ReadingEnvPort, Event::ProbeAnswer(true));
    assert_eq!(step.phase, Phase::ReadingEnvPort);
    assert!(step.effects.is_empty());
    assert_eq!(step.command, Command::ReadEnvPort);
    let done = advance(Phase::Done { port: 5176 }, Event::ScanAnswer(Some(5180)));
    assert_eq!(done.command, Command::Load(5176));
}

#[test]
fn notice_texts() {
    assert_eq!(
        notice_text(Notice::UsingPortFile { port: 5176, attempt: 2 }),
        "[ZEO-ARCHITECT] Using .utah-vite-port -> http://localhost:5176 (attempt 2)"
    );
    assert_eq!(
        notice_text(Notice::WaitingForPortFile { port: 5176 }),
        "[ZEO-ARCHITECT] Waiting for Vite on port from .utah-vite-port (5176) ..."
    );
    assert_eq!(
        notice_text(Notice::UsingEnvPort { port: 5180, attempt: 7 }),
        "[ZEO-ARCHITECT] Using UTAH_VITE_PORT -> http://localhost:5180 (after 7 waits)"
    );
    assert_eq!(
        notice_text(Notice::WaitingForEnvPort { port: 5180 }),
        "[ZEO-ARCHITECT] Waiting for Vite on UTAH_VITE_PORT=5180 ..."
    );
    assert_eq!(
        notice_text(Notice::EnvPortSilent { port: 5180 }),
        "[UTAH] UTAH_VITE_PORT=5180 never responded as Vite; scanning 5173..5200."
    );
    assert_eq!(
        notice_text(Notice::TargetLocked { port: 5190, scan: 4 }),
        "[ZEO-ARCHITECT] Resonance Target Locked: http://localhost:5190 (scan #4)"
    );
    assert_eq!(
        notice_text(Notice::WaitingForScan),
        "[ZEO-ARCHITECT] Waiting for Vite on 127.0.0.1:5173..5200 (run `npm run dev:ui` first, or `npm run dev`)."
    );
    assert_eq!(
        notice_text(Notice::StillWaiting { seconds: 4 }),
        "[ZEO-ARCHITECT] Still waiting for Vite... (~4s). Tip: set UTAH_VITE_PORT if you use a custom port."
    );
    assert_eq!(
        notice_text(Notice::NotDetected),
        "[UTAH] Vite not detected after 30s; loading http://localhost:5173 anyway (blank until Vite is up)."
    );
    assert!(is_warning(Notice::NotDetected));
    assert!(is_warning(Notice::EnvPortSilent { port: 1 }));
    assert!(!is_warning(Notice::WaitingForScan));
}

#[test]
fn window_channels_stay_in_the_ui() {
    assert_eq!(route_ui_message("window:minimize"), UiRoute::Minimize);
    assert_eq!(route_ui_message("window:maximize"), UiRoute::ToggleMaximize);
    assert_eq!(route_ui_message("window:close"), UiRoute::Quit);
    assert_eq!(route_ui_message("window:drag"), UiRoute::Drag);
    assert_eq!(route_ui_message("fs:read"), UiRoute::Forward);
    assert_eq!(route_ui_message("window:closed"), UiRoute::Forward);
}

#[test]
fn field_lookup_defaults() {
    let fields = vec![("path".to_string(), "/tmp/a".to_string()), ("path".to_string(), "/b".to_string())];
    assert_eq!(field_or_default(&fields, "path", ""), "/tmp/a");
    assert_eq!(field_or_default(&fields, "query", "none"), "none");
}

#[test]
fn worker_tasks_by_channel() {
    assert!(matches!(plan_worker_task(&message("system:ping", &[])),
        WorkerTask::Ping { timestamp_json } if timestamp_json == "1700000000"));
    assert!(matches!(plan_worker_task(&message("system:update", &[])), WorkerTask::SelfUpdate));
    assert!(matches!(plan_worker_task(&message("fs:read", &[("path", "/etc/hosts")])),
        WorkerTask::ReadFile { path } if path == "/etc/hosts"));
    assert!(matches!(plan_worker_task(&message("fs:read", &[])),
        WorkerTask::ReadFile { path } if path.is_empty()));
    assert!(matches!(plan_worker_task(&message("db:execute", &[("query", "SELECT 1")])),
        WorkerTask::DbExecute { query } if query == "SELECT 1"));
    assert!(matches!(plan_worker_task(&message("store:set_secure", &[("key", "k"), ("value", "v")])),
        WorkerTask::StoreSecret { key, value } if key == "k" && value == "v"));
    assert!(matches!(plan_worker_task(&message("store:get_secure", &[("key", "user_api_key")])),
        WorkerTask::FetchSecret { key } if key == "user_api_key"));
    assert!(matches!(plan_worker_task(&message("dialog:open", &[])), WorkerTask::OpenDialog));
    assert!(matches!(plan_worker_task(&message("clipboard:write", &[("text", "hi")])),
        WorkerTask::ClipboardWrite { text } if text == "hi"));
    assert!(matches!(plan_worker_task(&message("clipboard:read", &[])), WorkerTask::ClipboardRead));
    assert!(matches!(plan_worker_task(&message("system:notify", &[("body", "b")])),
        WorkerTask::Notify { title, body } if title == "Utah Alert" && body == "b"));
    assert!(matches!(plan_worker_task(&message("system:notify", &[("title", "T")])),
        WorkerTask::Notify { title, body } if title == "T" && body.is_empty()));
    assert!(matches!(plan_worker_task(&message("window:close", &[])), WorkerTask::Unhandled));
    assert!(matches!(plan_worker_task(&message("nope", &[])), WorkerTask::Unhandled));
}

fn respond(outcome: TaskOutcome) -> (String, String, String) {
    let r = worker_response("chan".to_string(), outcome);
    (r.channel, r.status, r.payload)
}

fn triple(c: &str, s: &str, p: &str) -> (String, String, String) {
    (c.to_string(), s.to_string(), p.to_string())
}

#[test]
fn worker_answers() {
    assert_eq!(respond(TaskOutcome::Pinged { timestamp_json: "17".into() }),
        triple("chan", "SUCCESS", "Core Synapse synchronized at 17"));
    assert_eq!(respond(TaskOutcome::UpdateChecked(Ok(UpdateStatus { updated: true, version: "1.2.0".into() }))),
        triple("chan", "UPDATED", "Installed v1.2.0. Restart the application to run the new binary."));
    assert_eq!(respond(TaskOutcome::UpdateChecked(Ok(UpdateStatus { updated: false, version: "1.1.0".into() }))),
        triple("chan", "UP_TO_DATE", "Already current (checked against v1.1.0)."));
    assert_eq!(respond(TaskOutcome::UpdateChecked(Err("offline".into()))), triple("chan", "ERROR", "offline"));
    assert_eq!(respond(TaskOutcome::FileRead(Ok("data".into()))), triple("chan", "COMPLETED", "data"));
    assert_eq!(respond(TaskOutcome::FileRead(Err("No such file".into()))),
        triple("chan", "COMPLETED", "ACCESS_ERROR: No such file"));
    assert_eq!(respond(TaskOutcome::DbExecuted(Ok(3))), triple("chan", "SUCCESS", "Rows affected: 3"));
    assert_eq!(respond(TaskOutcome::DbExecuted(Err("syntax error".into()))), triple("chan", "ERROR", "syntax error"));
    assert_eq!(respond(TaskOutcome::SecretStored(Ok(()))), triple("chan", "SUCCESS", "SECURED"));
    assert_eq!(respond(TaskOutcome::SecretStored(Err("locked".into()))), triple("chan", "ERROR", "locked"));
    assert_eq!(respond(TaskOutcome::SecretFetched(SecretLookup::Found("sk".into()))), triple("chan", "SUCCESS", "sk"));
    assert_eq!(respond(TaskOutcome::SecretFetched(SecretLookup::Missing)), triple("chan", "SUCCESS", "NOT_FOUND"));
    assert_eq!(respond(TaskOutcome::SecretFetched(SecretLookup::StoreFailed("x".into()))), triple("chan", "ERROR", "x"));
    assert_eq!(respond(TaskOutcome::DialogClosed(Some("/a.txt".into()))), triple("chan", "SUCCESS", "/a.txt"));
    assert_eq!(respond(TaskOutcome::DialogClosed(None)), triple("chan", "SUCCESS", "CANCELLED"));
    assert_eq!(respond(TaskOutcome::ClipboardWritten(Ok(()))), triple("chan", "SUCCESS", "COPIED"));
    assert_eq!(respond(TaskOutcome::ClipboardWritten(Err("busy".into()))), triple("chan", "ERROR", "busy"));
    assert_eq!(respond(TaskOutcome::ClipboardText(Ok("".into()))), triple("chan", "SUCCESS", ""));
    assert_eq!(respond(TaskOutcome::ClipboardText(Err("no display".into()))), triple("chan", "ERROR", "no display"));
    assert_eq!(respond(TaskOutcome::Notified(Ok(()))), triple("chan", "SUCCESS", "DISPATCHED"));
    assert_eq!(respond(TaskOutcome::Notified(Err("no bus".into()))), triple("chan", "ERROR", "no bus"));
}

#[test]
fn json_quoting() {
    assert_eq!(json_quoted("plain"), "\"plain\"");
    assert_eq!(json_quoted("a\"b\\c"), "\"a\\\"b\\\\c\"");
    assert_eq!(json_quoted("l1\nl2\r\t\u{8}\u{c}"), "\"l1\\nl2\\r\\t\\b\\f\"");
    assert_eq!(json_quoted("\u{1}\u{1f}\u{7f}/é"), "\"\\u0001\\u001f\u{7f}/é\"");
}

#[test]
fn eval_script_for_response() {
    let r = IpcResponse {
        channel: "fs:read".to_string(),
        status: "COMPLETED".to_string(),
        payload: "line \"one\"\nline two".to_string(),
    };
    let js = ipc_response_to_eval_js(&r);
    assert_eq!(js, "window.Utah.receiveResponse(\"fs:read\", \"COMPLETED\", \"line \\\"one\\\"\\nline two\");");
    assert!(!js.contains('\n'));
}

#[test]
fn update_settings_defaults() {
    let c = update_config(None, None, None, None);
    assert_eq!(c.auth_token, None);
    assert_eq!((c.repo_owner.as_str(), c.repo_name.as_str(), c.bin_name.as_str()),
        ("Utah-1", "utah-framework", "utah-core"));
    let c = update_config(Some("me".into()), None, Some("app".into()), Some("tok".into()));
    assert_eq!(c.auth_token.as_deref(), Some("tok"));
    assert_eq!((c.repo_owner.as_str(), c.repo_name.as_str(), c.bin_name.as_str()),
        ("me", "utah-framework", "app"));
}

#[test]
fn event_loop_decisions() {
    let (show, quit) = (1, 2);
    let d = decide_shell_event(ShellEvent::CloseRequested, show, quit);
    assert_eq!((d.action, d.note), (ShellAction::Exit, Some(ShellNote::CloseRequested)));
    let d = decide_shell_event(ShellEvent::TrayLeftClick, show, quit);
    assert_eq!((d.action, d.note), (ShellAction::ShowWindow, Some(ShellNote::Awakening)));
    let d = decide_shell_event(ShellEvent::MenuItem(quit), show, quit);
    assert_eq!((d.action, d.note), (ShellAction::Exit, Some(ShellNote::Terminating)));
    let d = decide_shell_event(ShellEvent::MenuItem(show), show, quit);
    assert_eq!((d.action, d.note), (ShellAction::ShowWindow, Some(ShellNote::Awakening)));
    let d = decide_shell_event(ShellEvent::MenuItem(9), show, quit);
    assert_eq!((d.action, d.note), (ShellAction::Wait, None));
    let d = decide_shell_event(ShellEvent::Other, show, quit);
    assert_eq!((d.action, d.note), (ShellAction::Wait, None));
    assert_eq!(shell_note_text(ShellNote::Terminating), "[ZEO-ARCHITECT] Absolute Process Termination Commencing.");
    assert_eq!(shell_note_text(ShellNote::CloseRequested), "[ZEO-ARCHITECT] Close requested — exiting.");
}

#[test]
fn eval_script_reads_back_as_json() {
    let r = IpcResponse {
        channel: "a\"b".to_string(),
        status: "\\\u{1}\r\n".to_string(),
        payload: "\"); alert(1); (\"\u{2028}é".to_string(),
    };
    let (channel, status, payload) = (r.channel.clone(), r.status.clone(), r.payload.clone());
    let js = ipc_response_to_eval_js(&r);
    let prefix = "window.Utah.receiveResponse(";
    assert!(js.starts_with(prefix) && js.ends_with(");"));
    assert!(js.chars().all(|c| c >= '\u{20}'));
    let inner = &js[prefix.len()..js.len() - 2];
    let fields: Vec<String> = serde_json::from_str(&format!("[{inner}]")).unwrap();
    assert_eq!(fields, vec![channel, status, payload]);
    let mut unescaped = 0;
    let mut chars = js.chars();
    while let Some(c) = chars.next() {
        if c == '\\' {
            chars.next();
        } else if c == '"' {
            unescaped += 1;
        }
    }
    assert_eq!(unescaped, 6);
}

#[test]
fn scan_answers_outside_the_range_are_asked_again() {
    let step = advance(Phase::Scanning { attempt: 3 }, Event::ScanAnswer(Some(8080)));
    assert_eq!(step.phase, Phase::Scanning { attempt: 3 });
    assert!(step.effects.is_empty());
    assert_eq!(step.command, Command::ScanRange);
    let step = advance(Phase::Scanning { attempt: 3 }, Event::ScanAnswer(Some(5200)));
    assert_eq!(step.phase, Phase::Done { port: 5200 });
}
