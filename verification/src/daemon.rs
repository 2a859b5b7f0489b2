//! The daemon's protocol: the commands its clients send, and what the daemon
//! does with the timer state and answers for each of them.

use vstd::prelude::*;
use crate::config::{Config, Preset, current_preset, get_crr_preset, lemma_current_preset_fits, lookup_preset};
use crate::engine::{
    Effect, after_next_session, can_move_on, after_reset, after_start_specific, next_number, next_session,
    next_session_effects, number_advances, preset_not_found, render_time, reset_session,
    select_preset, sets_active_preset, start_session, start_specific_session, time_text, add_time,
};
use crate::session::{SessionType, session_from_name, session_name, session_seconds};
use crate::state::TimerState;
use crate::text::{concat_str, has_prefix, starts_with, str_equal, trim, trim_seq};

verus! {

/// The commands without a payload.
#[derive(Clone, Copy, Debug, PartialEq, Eq, Structural)]
pub enum Message {
    StartSession,
    PauseSession,
    ResumeSession,
    ToggleSession,
    NextSession,
    GetSession,
    ResetSession,
    Running,
    StopDaemon,
}

/// The commands that carry a payload.
#[derive(Clone, Copy, Debug, PartialEq, Eq, Structural)]
pub enum PayloadMessage {
    SelectSession,
    SelectPreset,
    AddMinutes,
}

/// The text by which a command travels.
pub open spec fn message_text(m: Message) -> Seq<char> {
    match m {
        Message::StartSession => "StartSession"@,
        Message::PauseSession => "PauseSession"@,
        Message::ResumeSession => "ResumeSession"@,
        Message::ToggleSession => "ToggleSession"@,
        Message::NextSession => "NextSession"@,
        Message::GetSession => "GetSession"@,
        Message::ResetSession => "ResetSession"@,
        Message::Running => "RUNNING"@,
        Message::StopDaemon => "StopDaemon"@,
    }
}

/// The text by which a command with a payload names itself.
pub open spec fn payload_message_text(m: PayloadMessage) -> Seq<char> {
    match m {
        PayloadMessage::SelectSession => "SelectSession"@,
        PayloadMessage::SelectPreset => "SelectPreset"@,
        PayloadMessage::AddMinutes => "AddMinutes"@,
    }
}

impl Message {
    /// The text by which the command travels.
    pub fn to_text(&self) -> (s: &'static str)
        ensures
            s@ == message_text(*self),
    {
        match self {
            Message::StartSession => "StartSession",
            Message::PauseSession => "PauseSession",
            Message::ResumeSession => "ResumeSession",
            Message::ToggleSession => "ToggleSession",
            Message::NextSession => "NextSession",
            Message::GetSession => "GetSession",
            Message::ResetSession => "ResetSession",
            Message::Running => "RUNNING",
            Message::StopDaemon => "StopDaemon",
        }
    }
}

impl PayloadMessage {
    /// The text by which the command names itself.
    pub fn to_text(&self) -> (s: &'static str)
        ensures
            s@ == payload_message_text(*self),
    {
        match self {
            PayloadMessage::SelectSession => "SelectSession",
            PayloadMessage::SelectPreset => "SelectPreset",
            PayloadMessage::AddMinutes => "AddMinutes",
        }
    }
}

/// The payload of a command, as far as the daemon reads it.
pub enum PayloadValue {
    /// A string.
    Str(String),
    /// A non-negative integer.
    U64(u64),
    /// Anything else.
    Other,
}

/// A command with its payload.
pub struct PayloadType {
    pub message: String,
    pub payload: PayloadValue,
}

/// The prefix that marks a line as a command with a payload.
pub open spec fn payload_marker() -> Seq<char> {
    "MESSAGE_PAYLOAD:"@
}

/// Whether a line carries a command with a payload: once trimmed, it begins
/// with the payload marker.
pub fn contains_payload(message: &str) -> (r: bool)
    ensures
        r == has_prefix(trim_seq(message@), payload_marker()),
{
    let t = trim(message);
    starts_with(t.as_str(), "MESSAGE_PAYLOAD:")
}

/// What precedes the JSON text of a command with a payload on its line.
pub open spec fn payload_prefix() -> Seq<char> {
    "MESSAGE_PAYLOAD: "@
}

/// The JSON text of a command with a payload: what follows the prefix on
/// its line, or nothing for a line without the prefix.
pub fn payload_json(message: &str) -> (r: Option<String>)
    ensures
        has_prefix(message@, payload_prefix()) ==> (r matches Some(s) && s@ == message@.subrange(
            payload_prefix().len() as int,
            message@.len() as int,
        )),
        !has_prefix(message@, payload_prefix()) ==> r is None,
{
    let prefix = "MESSAGE_PAYLOAD: ";
    if starts_with(message, prefix) {
        let start = prefix.unicode_len();
        let n = message.unicode_len();
        Some(String::from_str(message.substring_char(start, n)))
    } else {
        None
    }
}

/// The command that a trimmed line names, if any.
pub open spec fn parse_command(l: Seq<char>) -> Option<Message> {
    if l == message_text(Message::Running) {
        Some(Message::Running)
    } else if l == message_text(Message::GetSession) {
        Some(Message::GetSession)
    } else if l == message_text(Message::StartSession) {
        Some(Message::StartSession)
    } else if l == message_text(Message::PauseSession) {
        Some(Message::PauseSession)
    } else if l == message_text(Message::ResumeSession) {
        Some(Message::ResumeSession)
    } else if l == message_text(Message::ToggleSession) {
        Some(Message::ToggleSession)
    } else if l == message_text(Message::NextSession) {
        Some(Message::NextSession)
    } else if l == message_text(Message::StopDaemon) {
        Some(Message::StopDaemon)
    } else if l == message_text(Message::ResetSession) {
        Some(Message::ResetSession)
    } else {
        None
    }
}

/// Finds the command that a trimmed line names.
pub fn parse_message(l: &str) -> (m: Option<Message>)
    ensures
        m == parse_command(l@),
{
    if str_equal(l, Message::Running.to_text()) {
        Some(Message::Running)
    } else if str_equal(l, Message::GetSession.to_text()) {
        Some(Message::GetSession)
    } else if str_equal(l, Message::StartSession.to_text()) {
        Some(Message::StartSession)
    } else if str_equal(l, Message::PauseSession.to_text()) {
        Some(Message::PauseSession)
    } else if str_equal(l, Message::ResumeSession.to_text()) {
        Some(Message::ResumeSession)
    } else if str_equal(l, Message::ToggleSession.to_text()) {
        Some(Message::ToggleSession)
    } else if str_equal(l, Message::NextSession.to_text()) {
        Some(Message::NextSession)
    } else if str_equal(l, Message::StopDaemon.to_text()) {
        Some(Message::StopDaemon)
    } else if str_equal(l, Message::ResetSession.to_text()) {
        Some(Message::ResetSession)
    } else {
        None
    }
}

/// The daemon's answer to a command.
pub enum Reply {
    /// A line of text.
    Text(String),
    /// The snapshot of the timer state, in the wire format.
    Snapshot,
}

/// Whether the session is running after a pause, resume or toggle command.
pub open spec fn running_after(s: TimerState, m: Message) -> bool {
    match m {
        Message::ResumeSession => true,
        Message::ToggleSession => !s.running,
        _ => false,
    }
}

/// The state after a command.
pub open spec fn command_state(s: TimerState, m: Option<Message>, p: Preset) -> TimerState {
    match m {
        Some(Message::StartSession) => TimerState {
            running: true,
            time_remaining: session_seconds(s.session_type, p) as u64,
            ..s
        },
        Some(Message::PauseSession) | Some(Message::ResumeSession) | Some(
            Message::ToggleSession,
        ) => TimerState { running: running_after(s, m.unwrap()), ..s },
        Some(Message::NextSession) => after_next_session(s, p),
        Some(Message::ResetSession) => after_reset(s, p),
        _ => s,
    }
}

/// What a command asks of the caller. Setting a session running runs its
/// start hook when it is at its full length and its resume hooks otherwise;
/// stopping it runs its pause hooks.
pub open spec fn command_effects(s: TimerState, m: Option<Message>, p: Preset) -> Seq<Effect> {
    match m {
        Some(Message::PauseSession) | Some(Message::ResumeSession) | Some(
            Message::ToggleSession,
        ) => if running_after(s, m.unwrap()) {
            if s.time_remaining == session_seconds(s.session_type, p) {
                seq![Effect::StartHook(s.session_type)]
            } else {
                seq![Effect::ResumeHook(s.session_type)]
            }
        } else {
            seq![Effect::PauseHook(s.session_type)]
        },
        Some(Message::NextSession) => next_session_effects(s, p),
        Some(Message::StopDaemon) => seq![Effect::StopDaemon],
        _ => seq![],
    }
}

/// The text the daemon answers a command with; `None` stands for the
/// snapshot of the state.
pub open spec fn command_reply(s: TimerState, m: Option<Message>, p: Preset) -> Option<Seq<char>> {
    let after = command_state(s, m, p);
    match m {
        Some(Message::Running) => Some("YES"@),
        Some(Message::GetSession) => None,
        Some(Message::StartSession) | Some(Message::NextSession) => Some(
            session_name(after.session_type) + " Session started"@,
        ),
        Some(Message::PauseSession) | Some(Message::ResumeSession) | Some(
            Message::ToggleSession,
        ) => Some(
            session_name(s.session_type) + " "@ + (if running_after(s, m.unwrap()) {
                "resumed"@
            } else {
                "paused"@
            }) + " time remaining: "@ + time_text(s.time_remaining),
        ),
        Some(Message::StopDaemon) => Some("OK"@),
        Some(Message::ResetSession) => Some(session_name(after.session_type) + " Session restarted"@),
        None => Some("Command not found"@),
    }
}

/// The reply stands for the given text, or for the snapshot where there is
/// none.
pub open spec fn reply_is(r: Reply, text: Option<Seq<char>>) -> bool {
    match r {
        Reply::Text(t) => text == Some(t@),
        Reply::Snapshot => text is None,
    }
}

/// Carries out a command without a payload, given as a trimmed line.
pub fn handle_command(state: &mut TimerState, l: &str, preset: &Preset) -> (r: (Reply, Vec<Effect>))
    requires
        preset.fits(),
        parse_command(l@) == Some(Message::NextSession) ==> can_move_on(*old(state), *preset),
    ensures
        *final(state) == command_state(*old(state), parse_command(l@), *preset),
        r.1@ == command_effects(*old(state), parse_command(l@), *preset),
        reply_is(r.0, command_reply(*old(state), parse_command(l@), *preset)),
{
    let m = parse_message(l);
    match m {
        Some(Message::Running) => (Reply::Text(String::from_str("YES")), Vec::new()),
        Some(Message::GetSession) => (Reply::Snapshot, Vec::new()),
        Some(Message::StartSession) => {
            start_session(state, preset);
            (Reply::Text(concat_str(state.session_type.name(), " Session started")), Vec::new())
        },
        Some(Message::PauseSession) | Some(Message::ResumeSession) | Some(
            Message::ToggleSession,
        ) => {
            let msg = m.unwrap();
            let new_running = match msg {
                Message::ResumeSession => true,
                Message::ToggleSession => !state.running,
                _ => false,
            };
            state.running = new_running;
            let mut effects = Vec::new();
            let status;
            if new_running {
                if state.time_remaining == state.session_type.get_time(preset) {
                    effects.push(Effect::StartHook(state.session_type));
                } else {
                    effects.push(Effect::ResumeHook(state.session_type));
                }
                status = "resumed";
            } else {
                effects.push(Effect::PauseHook(state.session_type));
                status = "paused";
            }
            let mut text = concat_str(state.session_type.name(), " ");
            text.append(status);
            text.append(" time remaining: ");
            let t = render_time(state);
            text.append(t.as_str());
            (Reply::Text(text), effects)
        },
        Some(Message::NextSession) => {
            let effects = next_session(state, preset);
            (Reply::Text(concat_str(state.session_type.name(), " Session started")), effects)
        },
        Some(Message::StopDaemon) => {
            let mut effects = Vec::new();
            effects.push(Effect::StopDaemon);
            (Reply::Text(String::from_str("OK")), effects)
        },
        Some(Message::ResetSession) => {
            reset_session(state, preset);
            (Reply::Text(concat_str(state.session_type.name(), " Session restarted")), Vec::new())
        },
        None => (Reply::Text(String::from_str("Command not found")), Vec::new()),
    }
}

/// The command with a payload that a name stands for, if any.
pub open spec fn payload_kind(message: Seq<char>) -> Option<PayloadMessage> {
    if message == payload_message_text(PayloadMessage::SelectSession) {
        Some(PayloadMessage::SelectSession)
    } else if message == payload_message_text(PayloadMessage::SelectPreset) {
        Some(PayloadMessage::SelectPreset)
    } else if message == payload_message_text(PayloadMessage::AddMinutes) {
        Some(PayloadMessage::AddMinutes)
    } else {
        None
    }
}

/// The payload has the form its command reads, and what the command does
/// with it can be held in the timer's counters: a session name to select,
/// a preset name to select, a number of minutes to add.
pub open spec fn payload_acceptable(s: TimerState, p: PayloadType, config: Config) -> bool {
    match payload_kind(p.message@) {
        Some(PayloadMessage::SelectSession) => match p.payload {
            PayloadValue::Str(v) => {
                let t = session_from_name(v@);
                s.session_type != t && t == SessionType::Work ==> number_advances(
                    s.session_number,
                    current_preset(config),
                )
            },
            _ => false,
        },
        Some(PayloadMessage::SelectPreset) => p.payload is Str,
        Some(PayloadMessage::AddMinutes) => match p.payload {
            PayloadValue::U64(v) => {
                &&& v * 60 <= u64::MAX
                &&& s.time_remaining + v * 60 <= u64::MAX
                &&& s.added_time + v * 60 <= u64::MAX
            },
            _ => false,
        },
        None => true,
    }
}

/// Carries out a command with a payload: starts the named session, selects
/// the named preset or adds minutes to the session in progress.
pub fn handle_payload(state: &mut TimerState, p: &PayloadType, config: &Config) -> (r: (
    String,
    Vec<Effect>,
))
    requires
        config.wf(),
        payload_acceptable(*old(state), *p, *config),
    ensures
        match payload_kind(p.message@) {
            Some(PayloadMessage::SelectSession) => {
                let t = session_from_name(p.payload->Str_0@);
                &&& *final(state) == after_start_specific(*old(state), t, current_preset(*config))
                &&& r.1@ == seq![Effect::StartHook(t)]
                &&& r.0@ == session_name(t) + " Session started"@
            },
            Some(PayloadMessage::SelectPreset) => {
                let v = p.payload->Str_0@;
                match lookup_preset(config.presets@, v) {
                    Some(pr) => {
                        &&& *final(state) == (TimerState {
                            running: false,
                            time_remaining: session_seconds(SessionType::Work, pr) as u64,
                            session_type: SessionType::Work,
                            session_number: 1,
                            ..*old(state)
                        })
                        &&& sets_active_preset(r.1@, v)
                        &&& r.0@ == "Preset "@ + v + " selected"@
                    },
                    None => {
                        &&& *final(state) == *old(state)
                        &&& r.1@.len() == 0
                        &&& r.0@ == preset_not_found(v)
                    },
                }
            },
            Some(PayloadMessage::AddMinutes) => {
                let v = p.payload->U64_0;
                &&& *final(state) == (TimerState {
                    time_remaining: (old(state).time_remaining + v * 60) as u64,
                    added_time: (old(state).added_time + v * 60) as u64,
                    ..*old(state)
                })
                &&& r.1@.len() == 0
                &&& r.0@.len() == 0
            },
            None => {
                &&& *final(state) == *old(state)
                &&& r.1@.len() == 0
                &&& r.0@.len() == 0
            },
        },
{
    let m = p.message.as_str();
    if str_equal(m, PayloadMessage::SelectSession.to_text()) {
        let value = match &p.payload {
            PayloadValue::Str(v) => v,
            _ => {
                proof {
                    assert(false);
                }
                return (String::new(), Vec::new());
            },
        };
        let session_type = SessionType::from_string(value.as_str());
        let preset = get_crr_preset(config);
        proof {
            lemma_current_preset_fits(*config);
        }
        let effects = start_specific_session(state, session_type, &preset);
        (concat_str(session_type.name(), " Session started"), effects)
    } else if str_equal(m, PayloadMessage::SelectPreset.to_text()) {
        let value = match &p.payload {
            PayloadValue::Str(v) => v,
            _ => {
                proof {
                    assert(false);
                }
                return (String::new(), Vec::new());
            },
        };
        match select_preset(state, value.as_str(), config) {
            Ok(effects) => {
                let mut text = concat_str("Preset ", value.as_str());
                text.append(" selected");
                (text, effects)
            },
            Err(e) => (e, Vec::new()),
        }
    } else if str_equal(m, PayloadMessage::AddMinutes.to_text()) {
        let value = match &p.payload {
            PayloadValue::U64(v) => *v,
            _ => {
                proof {
                    assert(false);
                }
                return (String::new(), Vec::new());
            },
        };
        add_time(state, value * 60);
        (String::new(), Vec::new())
    } else {
        (String::new(), Vec::new())
    }
}

/// Pausing, resuming and toggling touch nothing but whether the session
/// runs: toggling twice gives back the state, pausing or resuming twice is
/// doing it once, and a toggle resumes a paused session and pauses a
/// running one.
pub proof fn lemma_pause_resume_toggle(s: TimerState, p: Preset)
    ensures
        command_state(
            command_state(s, Some(Message::ToggleSession), p),
            Some(Message::ToggleSession),
            p,
        ) == s,
        command_state(command_state(s, Some(Message::PauseSession), p), Some(Message::PauseSession), p)
            == command_state(s, Some(Message::PauseSession), p),
        command_state(
            command_state(s, Some(Message::ResumeSession), p),
            Some(Message::ResumeSession),
            p,
        ) == command_state(s, Some(Message::ResumeSession), p),
        command_state(s, Some(Message::ToggleSession), p) == (if s.running {
            command_state(s, Some(Message::PauseSession), p)
        } else {
            command_state(s, Some(Message::ResumeSession), p)
        }),
        command_state(s, Some(Message::PauseSession), p) == (TimerState { running: false, ..s }),
        command_state(s, Some(Message::ResumeSession), p) == (TimerState { running: true, ..s }),
{
}

/// The commands that only ask (whether the daemon runs, the state) and the
/// lines that name no command leave the state as it is; stopping the daemon
/// too.
pub proof fn lemma_queries_keep_state(s: TimerState, p: Preset, m: Option<Message>)
    requires
        m == Some(Message::Running) || m == Some(Message::GetSession) || m == Some(
            Message::StopDaemon,
        ) || m is None,
    ensures
        command_state(s, m, p) == s,
{
}

/// Starting a session runs it from its full length, whatever its type: a
/// work session from the preset's work minutes, a short break from its
/// short-break minutes and a long break from its long-break minutes; the
/// type and the count stay, and the answer names the session's own type.
pub proof fn lemma_start_runs_the_current_session(s: TimerState, p: Preset)
    requires
        p.fits(),
    ensures
        ({
            let r = command_state(s, Some(Message::StartSession), p);
            &&& r.running
            &&& r.session_type == s.session_type
            &&& r.session_number == s.session_number
            &&& r.category == s.category
            &&& r.added_time == s.added_time
            &&& s.session_type == SessionType::Work ==> r.time_remaining == p.work_minutes * 60
            &&& s.session_type == SessionType::ShortBreak ==> r.time_remaining
                == p.short_break_minutes * 60
            &&& s.session_type == SessionType::LongBreak ==> r.time_remaining
                == p.long_break_minutes * 60
            &&& r.time_remaining == after_reset(s, p).time_remaining
        }),
        command_reply(s, Some(Message::StartSession), p) == Some(
            session_name(s.session_type) + " Session started"@,
        ),
{
}

} // verus!
