use mode_toggle::agent::{
    agent_reply, agent_request, get_request, post_request, AgentCall, AgentRequest, HttpMethod,
    Transport, BODY_CONTENT_TYPE,
};
use mode_toggle::flag::{FileOp, FlagFile, PersistPlan, MAINTENANCE_FLAG_PATH, SILENCE_FLAG_PATH};
use mode_toggle::indicator::{IconName, Notification};
use mode_toggle::input::{dispatch, Action, Chord, InputEvent, Key, KeyState};
use mode_toggle::mode::{ModeId, ModeState};
use mode_toggle::toggle::{
    begin_toggle, finish_toggle, reads_flag, Broadcast, Feedback, PendingToggle,
    MAINTENANCE_EVENT,
};

fn carry_out(file: &mut FlagFile, op: &FileOp) -> Result<(), String> {
    *file = match op {
        FileOp::Write(payload) => FlagFile::Present(payload.clone()),
        FileOp::Remove => FlagFile::Absent,
    };
    Ok(())
}

fn toggle_once(mode: ModeId, state: &mut ModeState, file: &mut FlagFile) -> Feedback {
    let pending = begin_toggle(mode, state, file);
    let answer = carry_out(file, &pending.plan.op);
    match finish_toggle(&pending, state, answer) {
        Ok(feedback) => feedback,
        Err(cause) => panic!("toggle failed: {}", cause),
    }
}

fn silence_hotkey() -> InputEvent {
    InputEvent::Hotkey(
        KeyState::Pressed,
        Chord { super_key: true, shift: false, alt: true, control: false, extra: false, key: Key::Q },
    )
}

#[test]
fn only_maintenance_reads_its_flag_first() {
    assert!(!reads_flag(ModeId::Silence));
    assert!(reads_flag(ModeId::Maintenance));
}

#[test]
fn silence_toggled_twice_from_both_surfaces_ends_off() {
    let mut state = ModeState::new();
    let mut file = FlagFile::Absent;
    let mut bodies: Vec<String> = Vec::new();
    for event in [silence_hotkey(), InputEvent::Menu("silence".to_string())] {
        let action = dispatch(&event);
        assert_eq!(action, Action::Toggle(ModeId::Silence));
        let feedback = toggle_once(ModeId::Silence, &mut state, &mut file);
        assert_eq!(feedback.broadcast, None);
        match feedback.notification {
            Some(note) => {
                assert_eq!(note.title, "MistLuna");
                bodies.push(note.body);
            }
            None => panic!("silence raises a notification"),
        }
    }
    assert!(!state.enabled());
    assert_eq!(file, FlagFile::Absent);
    assert_eq!(bodies, vec!["silence enabled".to_string(), "silence disabled".to_string()]);
}

#[test]
fn silence_on_leaves_the_flag_file_behind() {
    let mut state = ModeState::new();
    let mut file = FlagFile::Absent;
    let pending = begin_toggle(ModeId::Silence, &mut state, &file);
    assert_eq!(
        pending,
        PendingToggle {
            mode: ModeId::Silence,
            value: true,
            plan: PersistPlan {
                path: SILENCE_FLAG_PATH.to_string(),
                op: FileOp::Write("silence".to_string()),
            },
        }
    );
    assert!(state.enabled());
    let answer = carry_out(&mut file, &pending.plan.op);
    let feedback = finish_toggle(&pending, &mut state, answer);
    assert_eq!(
        feedback,
        Ok(Feedback {
            icon: Some(IconName::Idle),
            notification: Some(Notification {
                title: "MistLuna".to_string(),
                body: "silence enabled".to_string(),
            }),
            broadcast: None,
        })
    );
    assert!(state.enabled());
    assert_eq!(file, FlagFile::Present("silence".to_string()));
}

#[test]
fn silence_ignores_what_is_on_disk() {
    let mut state = ModeState::new();
    let stale = FlagFile::Present("silence".to_string());
    let pending = begin_toggle(ModeId::Silence, &mut state, &stale);
    assert!(pending.value);
    assert!(state.enabled());
}

#[test]
fn failed_silence_write_is_reported_and_shows_nothing() {
    let mut state = ModeState::new();
    let pending = begin_toggle(ModeId::Silence, &mut state, &FlagFile::Absent);
    let outcome = finish_toggle(&pending, &mut state, Err("read-only volume".to_string()));
    assert_eq!(outcome, Err("read-only volume".to_string()));
    assert!(state.enabled());
}

#[test]
fn failed_silence_removal_does_not_fail_the_toggle() {
    let mut state = ModeState::new();
    state.set(true);
    let pending = begin_toggle(ModeId::Silence, &mut state, &FlagFile::Absent);
    assert_eq!(pending.plan.op, FileOp::Remove);
    let outcome = finish_toggle(&pending, &mut state, Err("no such file".to_string()));
    assert_eq!(
        outcome,
        Ok(Feedback {
            icon: Some(IconName::Normal),
            notification: Some(Notification {
                title: "MistLuna".to_string(),
                body: "silence disabled".to_string(),
            }),
            broadcast: None,
        })
    );
    assert!(!state.enabled());
}

#[test]
fn maintenance_with_missing_flag_writes_on_and_off_next() {
    let mut state = ModeState::new();
    let mut file = FlagFile::Absent;

    let first = begin_toggle(ModeId::Maintenance, &mut state, &file);
    assert_eq!(
        first.plan,
        PersistPlan {
            path: MAINTENANCE_FLAG_PATH.to_string(),
            op: FileOp::Write("ON".to_string()),
        }
    );
    assert!(!state.enabled());
    let answer = carry_out(&mut file, &first.plan.op);
    let feedback = finish_toggle(&first, &mut state, answer);
    assert_eq!(
        feedback,
        Ok(Feedback {
            icon: None,
            notification: None,
            broadcast: Some(Broadcast {
                event: "maintenance-toggled".to_string(),
                payload: "ON".to_string(),
            }),
        })
    );
    assert!(state.enabled());
    assert_eq!(file, FlagFile::Present("ON".to_string()));

    let second = begin_toggle(ModeId::Maintenance, &mut state, &file);
    assert_eq!(second.plan.op, FileOp::Write("OFF".to_string()));
    let answer = carry_out(&mut file, &second.plan.op);
    let feedback = finish_toggle(&second, &mut state, answer);
    assert_eq!(
        feedback,
        Ok(Feedback {
            icon: None,
            notification: None,
            broadcast: Some(Broadcast {
                event: MAINTENANCE_EVENT.to_string(),
                payload: "OFF".to_string(),
            }),
        })
    );
    assert!(!state.enabled());
    assert_eq!(file, FlagFile::Present("OFF".to_string()));
}

#[test]
fn maintenance_inverts_what_is_on_disk() {
    let mut state = ModeState::new();
    let on = FlagFile::Present("ON\r\n".to_string());
    assert!(!begin_toggle(ModeId::Maintenance, &mut state, &on).value);
    let garbled = FlagFile::Present("maybe".to_string());
    assert!(begin_toggle(ModeId::Maintenance, &mut state, &garbled).value);
    assert!(!state.enabled());
}

#[test]
fn failed_maintenance_write_aborts_the_toggle() {
    let mut state = ModeState::new();
    let pending = begin_toggle(ModeId::Maintenance, &mut state, &FlagFile::Absent);
    let outcome = finish_toggle(&pending, &mut state, Err("disk full".to_string()));
    assert_eq!(outcome, Err("disk full".to_string()));
    assert!(!state.enabled());
}

#[test]
fn value_follows_the_parity_of_toggles_whatever_the_surface() {
    let events = vec![
        InputEvent::Menu("silence".to_string()),
        InputEvent::Menu("show".to_string()),
        silence_hotkey(),
        InputEvent::Menu("toggle_maintenance".to_string()),
        silence_hotkey(),
        InputEvent::Menu("unknown".to_string()),
        InputEvent::Menu("toggle_maintenance".to_string()),
        InputEvent::Menu("toggle_maintenance".to_string()),
    ];
    let mut silence = ModeState::new();
    let mut silence_file = FlagFile::Absent;
    let mut maintenance = ModeState::new();
    let mut maintenance_file = FlagFile::Absent;
    let mut silence_toggles = 0;
    let mut maintenance_toggles = 0;
    for event in &events {
        match dispatch(event) {
            Action::Toggle(ModeId::Silence) => {
                silence_toggles += 1;
                toggle_once(ModeId::Silence, &mut silence, &mut silence_file);
            }
            Action::Toggle(ModeId::Maintenance) => {
                maintenance_toggles += 1;
                toggle_once(ModeId::Maintenance, &mut maintenance, &mut maintenance_file);
            }
            _ => {}
        }
        assert_eq!(silence.enabled(), silence_toggles % 2 == 1);
        assert_eq!(maintenance.enabled(), maintenance_toggles % 2 == 1);
        assert_eq!(silence_file != FlagFile::Absent, silence.enabled());
        let content = if maintenance.enabled() { "ON" } else { "OFF" };
        if maintenance_toggles > 0 {
            assert_eq!(maintenance_file, FlagFile::Present(content.to_string()));
        }
    }
    assert_eq!(silence_toggles, 3);
    assert_eq!(maintenance_toggles, 3);
}

#[test]
fn calls_without_argument_are_plain_gets() {
    assert_eq!(
        agent_request(&AgentCall::ScanWorkspace),
        AgentRequest {
            method: HttpMethod::Get,
            url: "http://127.0.0.1:8766/workspace/scan".to_string(),
            body: None,
        }
    );
    assert_eq!(
        agent_request(&AgentCall::GetState),
        AgentRequest {
            method: HttpMethod::Get,
            url: "http://127.0.0.1:8766/state".to_string(),
            body: None,
        }
    );
}

#[test]
fn calls_with_argument_post_a_json_object() {
    assert_eq!(
        agent_request(&AgentCall::ReadFile("notes/today.md".to_string())),
        AgentRequest {
            method: HttpMethod::Post,
            url: "http://127.0.0.1:8766/file/read".to_string(),
            body: Some("{\"path\":\"notes/today.md\"}".to_string()),
        }
    );
    assert_eq!(
        agent_request(&AgentCall::ExecuteCommand("ls -la".to_string())),
        AgentRequest {
            method: HttpMethod::Post,
            url: "http://127.0.0.1:8766/execute/shell".to_string(),
            body: Some("{\"command\":\"ls -la\"}".to_string()),
        }
    );
    assert_eq!(BODY_CONTENT_TYPE, "application/json");
}

#[test]
fn json_body_escapes_its_value() {
    let request = agent_request(&AgentCall::ReadFile("C:\\dir\\a \"b\"\n\u{e9}".to_string()));
    assert_eq!(
        request.body,
        Some("{\"path\":\"C:\\\\dir\\\\a \\\"b\\\"\\n\u{e9}\"}".to_string())
    );
    let parsed: serde_json::Value = match serde_json::from_str(&request.body.unwrap()) {
        Ok(value) => value,
        Err(e) => panic!("body is not JSON: {}", e),
    };
    assert_eq!(parsed["path"].as_str(), Some("C:\\dir\\a \"b\"\n\u{e9}"));
}

#[test]
fn request_builders_keep_their_arguments() {
    assert_eq!(
        get_request("http://localhost/x"),
        AgentRequest { method: HttpMethod::Get, url: "http://localhost/x".to_string(), body: None }
    );
    assert_eq!(
        post_request("http://localhost/y", "{}".to_string()),
        AgentRequest {
            method: HttpMethod::Post,
            url: "http://localhost/y".to_string(),
            body: Some("{}".to_string()),
        }
    );
}

#[test]
fn answers_pass_and_failures_are_explained() {
    assert_eq!(
        agent_reply(Transport::Answered("{\"files\":[]}".to_string())),
        Ok("{\"files\":[]}".to_string())
    );
    assert_eq!(agent_reply(Transport::Answered(String::new())), Ok(String::new()));
    assert_eq!(
        agent_reply(Transport::Offline("connection refused".to_string())),
        Err("Luna agent offline: connection refused".to_string())
    );
    assert_eq!(
        agent_reply(Transport::Unreadable("unexpected end of stream".to_string())),
        Err("Failed to read response: unexpected end of stream".to_string())
    );
}
