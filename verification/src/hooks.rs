//! Hooks: shell commands the user configures to run when a session starts,
//! pauses or resumes.

use vstd::prelude::*;
use crate::config::Config;
use crate::session::SessionType;
use crate::settings::{SettingsSubItems, hook_key_of, sub_item_value};
use crate::text::{is_white_space, is_whitespace};

verus! {

/// The command configured to run when a session of type `session` starts.
pub open spec fn start_hook_of(config: Config, session: SessionType) -> Seq<char> {
    match session {
        SessionType::Work => config.hook_start_work@,
        SessionType::LongBreak => config.hook_start_long_break@,
        SessionType::ShortBreak => config.hook_start_short_break@,
    }
}

/// The command to run when a session of type `session` starts.
pub fn session_start_hook(config: &Config, session: SessionType) -> (cmd: String)
    ensures
        cmd@ == start_hook_of(*config, session),
{
    match session {
        SessionType::Work => config.hook_start_work.clone(),
        SessionType::LongBreak => config.hook_start_long_break.clone(),
        SessionType::ShortBreak => config.hook_start_short_break.clone(),
    }
}

/// The commands to run when a session of type `session` pauses: the general
/// pause hook, then the one of the session's type.
pub open spec fn pause_hooks_of(config: Config, session: SessionType) -> Seq<Seq<char>> {
    seq![
        config.hook_pause@,
        match session {
            SessionType::Work => config.hook_pause_work@,
            SessionType::LongBreak => config.hook_pause_long_break@,
            SessionType::ShortBreak => config.hook_pause_short_break@,
        },
    ]
}

/// The commands to run when a session of type `session` resumes: the
/// general resume hook, then the one of the session's type.
pub open spec fn resume_hooks_of(config: Config, session: SessionType) -> Seq<Seq<char>> {
    seq![
        config.hook_resume@,
        match session {
            SessionType::Work => config.hook_resume_work@,
            SessionType::LongBreak => config.hook_resume_long_break@,
            SessionType::ShortBreak => config.hook_resume_short_break@,
        },
    ]
}

/// The commands to run, in order, when a session of type `session` pauses.
pub fn pause_hooks(config: &Config, session: SessionType) -> (cmds: Vec<String>)
    ensures
        texts(cmds@) == pause_hooks_of(*config, session),
{
    let mut cmds = Vec::new();
    cmds.push(config.hook_pause.clone());
    cmds.push(
        match session {
            SessionType::Work => config.hook_pause_work.clone(),
            SessionType::LongBreak => config.hook_pause_long_break.clone(),
            SessionType::ShortBreak => config.hook_pause_short_break.clone(),
        },
    );
    proof {
        assert(texts(cmds@) =~= pause_hooks_of(*config, session));
    }
    cmds
}

/// The commands to run, in order, when a session of type `session` resumes.
pub fn resume_hooks(config: &Config, session: SessionType) -> (cmds: Vec<String>)
    ensures
        texts(cmds@) == resume_hooks_of(*config, session),
{
    let mut cmds = Vec::new();
    cmds.push(config.hook_resume.clone());
    cmds.push(
        match session {
            SessionType::Work => config.hook_resume_work.clone(),
            SessionType::LongBreak => config.hook_resume_long_break.clone(),
            SessionType::ShortBreak => config.hook_resume_short_break.clone(),
        },
    );
    proof {
        assert(texts(cmds@) =~= resume_hooks_of(*config, session));
    }
    cmds
}

/// The words of `s` that follow a word begun with `cur`: the maximal runs of
/// characters that are not white space.
pub open spec fn split_words(s: Seq<char>, cur: Seq<char>) -> Seq<Seq<char>>
    decreases s.len(),
{
    let ended: Seq<Seq<char>> = if cur.len() > 0 {
        seq![cur]
    } else {
        seq![]
    };
    if s.len() == 0 {
        ended
    } else if is_white_space(s[0]) {
        ended + split_words(s.drop_first(), seq![])
    } else {
        split_words(s.drop_first(), cur.push(s[0]))
    }
}

/// The words of `s`, as `str::split_whitespace` gives them.
pub open spec fn words(s: Seq<char>) -> Seq<Seq<char>> {
    split_words(s, seq![])
}

/// The texts of a list of strings.
pub open spec fn texts(v: Seq<String>) -> Seq<Seq<char>> {
    v.map_values(|x: String| x@)
}

/// Splits a hook command into its program and arguments, at white space.
pub fn command_parts(cmd: &str) -> (parts: Vec<String>)
    ensures
        texts(parts@) == words(cmd@),
{
    let n = cmd.unicode_len();
    let mut parts: Vec<String> = Vec::new();
    let mut start: usize = 0;
    let mut i: usize = 0;
    proof {
        assert(cmd@.skip(0) =~= cmd@);
        assert(cmd@.subrange(0, 0) =~= Seq::<char>::empty());
        assert(texts(parts@) =~= Seq::<Seq<char>>::empty());
    }
    while i < n
        invariant
            n == cmd@.len(),
            start <= i <= n,
            texts(parts@) + split_words(cmd@.skip(i as int), cmd@.subrange(start as int, i as int))
                == words(cmd@),
        decreases n - i,
    {
        let c = cmd.get_char(i);
        let ghost rest = cmd@.skip(i as int);
        let ghost cur = cmd@.subrange(start as int, i as int);
        proof {
            assert(rest.drop_first() =~= cmd@.skip(i as int + 1));
            assert(rest[0] == c);
        }
        if is_whitespace(c) {
            if start < i {
                let w = String::from_str(cmd.substring_char(start, i));
                let ghost before = parts@;
                parts.push(w);
                proof {
                    assert(texts(parts@) =~= texts(before) + seq![cur]);
                }
            }
            proof {
                assert(cmd@.subrange(i as int + 1, i as int + 1) =~= Seq::<char>::empty());
                if start == i {
                    assert(cur =~= Seq::<char>::empty());
                }
            }
            start = i + 1;
        } else {
            proof {
                assert(cur.push(c) =~= cmd@.subrange(start as int, i as int + 1));
            }
        }
        i = i + 1;
    }
    proof {
        assert(cmd@.skip(n as int) =~= Seq::<char>::empty());
    }
    if start < n {
        let ghost before = parts@;
        parts.push(String::from_str(cmd.substring_char(start, n)));
        proof {
            assert(texts(parts@) =~= texts(before) + seq![cmd@.subrange(start as int, n as int)]);
        }
    } else {
        proof {
            assert(cmd@.subrange(start as int, n as int) =~= Seq::<char>::empty());
            assert(texts(parts@) + Seq::<Seq<char>>::empty() =~= texts(parts@));
        }
    }
    parts
}

/// A session type's start hook is the command stored under the setting of
/// that type's start hook: the one the settings page shows and edits under
/// the key `hook_start_work`, `hook_start_short_break` or
/// `hook_start_long_break`.
pub proof fn lemma_start_hook_is_its_setting(c: Config)
    ensures
        start_hook_of(c, SessionType::Work) == sub_item_value(SettingsSubItems::HookStartWork, c),
        start_hook_of(c, SessionType::ShortBreak) == sub_item_value(
            SettingsSubItems::HookStartShortBreak,
            c,
        ),
        start_hook_of(c, SessionType::LongBreak) == sub_item_value(
            SettingsSubItems::HookStartLongBreak,
            c,
        ),
        hook_key_of(SettingsSubItems::HookStartWork) == Some("hook_start_work"@),
        hook_key_of(SettingsSubItems::HookStartShortBreak) == Some("hook_start_short_break"@),
        hook_key_of(SettingsSubItems::HookStartLongBreak) == Some("hook_start_long_break"@),
        start_hook_of(c, SessionType::Work) == c.hook_start_work@,
        start_hook_of(c, SessionType::ShortBreak) == c.hook_start_short_break@,
        start_hook_of(c, SessionType::LongBreak) == c.hook_start_long_break@,
{
}

} // verus!
