//! The configuration: presets of session lengths, the choice of the active
//! preset, fonts, daily goal and hook commands.

use vstd::prelude::*;
use crate::text::{lemma_less_total, lemma_less_transitive, seq_less, str_equal, str_less};

verus! {

/// The fonts the big clock can be drawn with.
#[derive(Clone, Copy, Debug, PartialEq, Eq, Structural)]
pub enum Fonts {
    AnsiRegular,
    AnsiShadow,
    DosRebel,
    Future,
    Mono12,
    Mono9,
    SmBlock,
    Terminus,
    TubesRegular,
}

/// The position of a font in the order in which the settings page cycles
/// through them.
pub open spec fn font_index(f: Fonts) -> int {
    match f {
        Fonts::AnsiRegular => 0,
        Fonts::AnsiShadow => 1,
        Fonts::DosRebel => 2,
        Fonts::Future => 3,
        Fonts::Mono12 => 4,
        Fonts::Mono9 => 5,
        Fonts::SmBlock => 6,
        Fonts::Terminus => 7,
        Fonts::TubesRegular => 8,
    }
}

impl Fonts {
    /// The variant's name, as the configuration file writes it.
    pub fn name(&self) -> (s: &'static str)
        ensures
            s@ == font_name(*self),
    {
        match self {
            Fonts::AnsiRegular => "AnsiRegular",
            Fonts::AnsiShadow => "AnsiShadow",
            Fonts::DosRebel => "DosRebel",
            Fonts::Future => "Future",
            Fonts::Mono12 => "Mono12",
            Fonts::Mono9 => "Mono9",
            Fonts::SmBlock => "SmBlock",
            Fonts::Terminus => "Terminus",
            Fonts::TubesRegular => "TubesRegular",
        }
    }

    /// The font after this one; the last one is followed by the first.
    pub fn next_font(&self) -> (f: Fonts)
        ensures
            font_index(f) == (font_index(*self) + 1) % 9,
    {
        match self {
            Fonts::AnsiRegular => Fonts::AnsiShadow,
            Fonts::AnsiShadow => Fonts::DosRebel,
            Fonts::DosRebel => Fonts::Future,
            Fonts::Future => Fonts::Mono12,
            Fonts::Mono12 => Fonts::Mono9,
            Fonts::Mono9 => Fonts::SmBlock,
            Fonts::SmBlock => Fonts::Terminus,
            Fonts::Terminus => Fonts::TubesRegular,
            Fonts::TubesRegular => Fonts::AnsiRegular,
        }
    }
}

/// The name of a font as the configuration file writes it.
pub open spec fn font_name(f: Fonts) -> Seq<char> {
    match f {
        Fonts::AnsiRegular => "AnsiRegular"@,
        Fonts::AnsiShadow => "AnsiShadow"@,
        Fonts::DosRebel => "DosRebel"@,
        Fonts::Future => "Future"@,
        Fonts::Mono12 => "Mono12"@,
        Fonts::Mono9 => "Mono9"@,
        Fonts::SmBlock => "SmBlock"@,
        Fonts::Terminus => "Terminus"@,
        Fonts::TubesRegular => "TubesRegular"@,
    }
}

/// Lengths of the sessions of one preset, and how many work sessions come
/// before a long break.
#[derive(Clone, Copy, Debug)]
pub struct Preset {
    pub work_minutes: u64,
    pub short_break_minutes: u64,
    pub long_break_minutes: u64,
    pub sessions_before_long_break: u64,
}

impl Preset {
    /// Every session length of the preset can be held in seconds.
    pub open spec fn fits(self) -> bool {
        &&& self.work_minutes * 60 <= u64::MAX
        &&& self.short_break_minutes * 60 <= u64::MAX
        &&& self.long_break_minutes * 60 <= u64::MAX
    }
}

/// The classic pomodoro: 25 minutes of work, breaks of 5 and 15 minutes,
/// a long break after every fourth work session.
pub open spec fn spec_pomodoro_preset() -> Preset {
    Preset {
        work_minutes: 25,
        short_break_minutes: 5,
        long_break_minutes: 15,
        sessions_before_long_break: 4,
    }
}

/// The classic pomodoro preset.
pub fn pomodoro_preset() -> (p: Preset)
    ensures
        p == spec_pomodoro_preset(),
{
    Preset {
        work_minutes: 25,
        short_break_minutes: 5,
        long_break_minutes: 15,
        sessions_before_long_break: 4,
    }
}

/// The configuration, as stored in the configuration file.
pub struct Config {
    pub active_preset: String,
    /// The presets by name; no name occurs twice.
    pub presets: Vec<(String, Preset)>,
    pub show_notifications: bool,
    pub daily_goal_minutes: u64,
    pub tui_show_progress: bool,
    pub tui_show_ascii_art: bool,
    pub tui_show_stats: bool,
    /// The name of the colour theme.
    pub theme: String,
    pub font: Fonts,
    pub hook_pause: String,
    pub hook_resume: String,
    pub hook_resume_short_break: String,
    pub hook_pause_short_break: String,
    pub hook_resume_work: String,
    pub hook_pause_work: String,
    pub hook_pause_long_break: String,
    pub hook_resume_long_break: String,
    pub hook_start_short_break: String,
    pub hook_start_long_break: String,
    pub hook_start_work: String,
}

/// The names of the presets, in the order in which they are stored.
pub open spec fn preset_names(presets: Seq<(String, Preset)>) -> Seq<Seq<char>> {
    presets.map_values(|p: (String, Preset)| p.0@)
}

/// No preset name occurs twice.
pub open spec fn names_unique(presets: Seq<(String, Preset)>) -> bool {
    forall|i: int, j: int|
        0 <= i < presets.len() && 0 <= j < presets.len() && i != j ==> presets[i].0@
            != presets[j].0@
}

/// The preset stored under `name`, if any.
pub open spec fn lookup_preset(presets: Seq<(String, Preset)>, name: Seq<char>) -> Option<Preset>
    decreases presets.len(),
{
    if presets.len() == 0 {
        None
    } else if presets[0].0@ == name {
        Some(presets[0].1)
    } else {
        lookup_preset(presets.drop_first(), name)
    }
}

/// The preset in use: the active one, or the classic pomodoro where the
/// active name names no preset.
pub open spec fn current_preset(config: Config) -> Preset {
    match lookup_preset(config.presets@, config.active_preset@) {
        Some(p) => p,
        None => spec_pomodoro_preset(),
    }
}

impl Config {
    /// The configuration is well formed: no preset name occurs twice, and
    /// every preset's session lengths can be held in seconds.
    pub open spec fn wf(self) -> bool {
        &&& names_unique(self.presets@)
        &&& forall|i: int| 0 <= i < self.presets@.len() ==> (#[trigger] self.presets@[i]).1.fits()
    }
}

/// A preset found by name is one of the stored presets.
pub proof fn lemma_lookup_is_stored(presets: Seq<(String, Preset)>, name: Seq<char>)
    ensures
        lookup_preset(presets, name) matches Some(p) ==> exists|i: int|
            0 <= i < presets.len() && (#[trigger] presets[i]).1 == p && presets[i].0@ == name,
    decreases presets.len(),
{
    if presets.len() > 0 && presets[0].0@ != name {
        lemma_lookup_is_stored(presets.drop_first(), name);
        if let Some(p) = lookup_preset(presets, name) {
            let i = choose|i: int|
                0 <= i < presets.drop_first().len() && (#[trigger] presets.drop_first()[i]).1 == p
                    && presets.drop_first()[i].0@ == name;
            assert(presets[i + 1] == presets.drop_first()[i]);
        }
    }
}

/// In a well-formed configuration the preset in use fits in seconds.
pub proof fn lemma_current_preset_fits(config: Config)
    requires
        config.wf(),
    ensures
        current_preset(config).fits(),
{
    lemma_lookup_is_stored(config.presets@, config.active_preset@);
}

/// The value of the on/off setting stored under `key`, if `key` names one.
pub open spec fn bool_setting_of(config: Config, key: Seq<char>) -> Option<bool> {
    if key == "show_notifications"@ {
        Some(config.show_notifications)
    } else if key == "tui_show_progress"@ {
        Some(config.tui_show_progress)
    } else if key == "tui_show_ascii_art"@ {
        Some(config.tui_show_ascii_art)
    } else if key == "tui_show_stats"@ {
        Some(config.tui_show_stats)
    } else {
        None
    }
}

/// Reads the on/off setting stored under `key`.
pub fn bool_setting(config: &Config, key: &str) -> (r: Option<bool>)
    ensures
        r == bool_setting_of(*config, key@),
{
    if str_equal(key, "show_notifications") {
        Some(config.show_notifications)
    } else if str_equal(key, "tui_show_progress") {
        Some(config.tui_show_progress)
    } else if str_equal(key, "tui_show_ascii_art") {
        Some(config.tui_show_ascii_art)
    } else if str_equal(key, "tui_show_stats") {
        Some(config.tui_show_stats)
    } else {
        None
    }
}

/// Looks up the preset stored under `name`.
pub fn find_preset(presets: &Vec<(String, Preset)>, name: &str) -> (r: Option<Preset>)
    ensures
        r == lookup_preset(presets@, name@),
{
    let mut i: usize = 0;
    assert(presets@.skip(0) =~= presets@);
    while i < presets.len()
        invariant
            i <= presets.len(),
            lookup_preset(presets@, name@) == lookup_preset(presets@.skip(i as int), name@),
        decreases presets.len() - i,
    {
        assert(presets@.skip(i as int).drop_first() =~= presets@.skip(i as int + 1));
        if str_equal(presets[i].0.as_str(), name) {
            return Some(presets[i].1);
        }
        i = i + 1;
    }
    None
}

/// Returns the active preset, falling back to the classic pomodoro where the
/// active name names no preset.
pub fn get_crr_preset(config: &Config) -> (p: Preset)
    ensures
        p == current_preset(*config),
{
    match find_preset(&config.presets, config.active_preset.as_str()) {
        Some(p) => p,
        None => pomodoro_preset(),
    }
}

/// The names, each before the next in lexicographic order.
pub open spec fn strictly_sorted(names: Seq<Seq<char>>) -> bool {
    forall|i: int, j: int| 0 <= i < j < names.len() ==> seq_less(#[trigger] names[i], #[trigger] names[j])
}

/// The texts of a list of strings.
pub open spec fn string_texts(v: Seq<String>) -> Seq<Seq<char>> {
    v.map_values(|x: String| x@)
}

/// The names of the presets, sorted.
pub fn sorted_preset_names(presets: &Vec<(String, Preset)>) -> (r: Vec<String>)
    requires
        names_unique(presets@),
    ensures
        strictly_sorted(string_texts(r@)),
        string_texts(r@).to_multiset() == preset_names(presets@).to_multiset(),
        r@.len() == presets@.len(),
{
    broadcast use vstd::seq_lib::group_to_multiset_ensures;

    let mut res: Vec<String> = Vec::new();
    let mut i: usize = 0;
    let ghost names = preset_names(presets@);
    proof {
        assert(string_texts(res@) =~= names.take(0));
    }
    while i < presets.len()
        invariant
            names == preset_names(presets@),
            names_unique(presets@),
            i <= presets@.len(),
            res@.len() == i,
            strictly_sorted(string_texts(res@)),
            string_texts(res@).to_multiset() == names.take(i as int).to_multiset(),
        decreases presets@.len() - i,
    {
        let x = &presets[i].0;
        let ghost xs = x@;
        let ghost before = string_texts(res@);
        let mut p: usize = 0;
        while p < res.len() && str_less(res[p].as_str(), x.as_str())
            invariant
                p <= res@.len(),
                before == string_texts(res@),
                xs == x@,
                forall|k: int| 0 <= k < p ==> seq_less(#[trigger] before[k], xs),
            decreases res@.len() - p,
        {
            p = p + 1;
        }
        proof {
            // the name is new: it differs from every name placed so far
            assert forall|k: int| 0 <= k < before.len() implies before[k] != xs by {
                assert(before.contains(before[k]));
                vstd::seq_lib::to_multiset_contains(before, before[k]);
                vstd::seq_lib::to_multiset_contains(names.take(i as int), before[k]);
                assert(names.take(i as int).contains(before[k]));
                let m = choose|m: int| 0 <= m < i && names.take(i as int)[m] == before[k];
                assert(names.take(i as int)[m] == names[m]);
                assert(names[m] == presets@[m].0@);
                assert(xs == presets@[i as int].0@);
            }
            if p < before.len() {
                assert(!seq_less(before[p as int], xs));
                lemma_less_total(before[p as int], xs);
            }
        }
        res.insert(p, x.clone());
        proof {
            let after = string_texts(res@);
            assert(after =~= before.insert(p as int, xs));
            assert forall|a: int, b: int| 0 <= a < b < after.len() implies seq_less(
                #[trigger] after[a],
                #[trigger] after[b],
            ) by {
                if b < p {
                    assert(after[a] == before[a] && after[b] == before[b]);
                } else if b == p {
                    assert(after[a] == before[a]);
                } else if a == p {
                    assert(after[b] == before[b - 1]);
                    if b - 1 > p {
                        assert(seq_less(before[p as int], before[b - 1]));
                        lemma_less_transitive(xs, before[p as int], before[b - 1]);
                    }
                } else if a < p {
                    assert(after[a] == before[a] && after[b] == before[b - 1]);
                    if b - 1 >= p {
                        if before.len() > p {
                            if (p as int) < b - 1 {
                                lemma_less_transitive(before[a], xs, before[p as int]);
                                lemma_less_transitive(before[a], before[p as int], before[b - 1]);
                            } else {
                                lemma_less_transitive(before[a], xs, before[p as int]);
                            }
                        }
                    }
                } else {
                    assert(after[a] == before[a - 1] && after[b] == before[b - 1]);
                }
            }
            assert(names.take(i as int + 1) =~= names.take(i as int).push(xs));
            vstd::seq_lib::to_multiset_insert(before, p as int, xs);
            vstd::seq_lib::to_multiset_build(names.take(i as int), xs);
        }
        i = i + 1;
    }
    proof {
        assert(names.take(presets@.len() as int) =~= names);
    }
    res
}

/// Whether a name comes first among the names other than `name`.
pub open spec fn is_first_other(names: Seq<Seq<char>>, name: Seq<char>, n: Seq<char>) -> bool {
    &&& names.contains(n)
    &&& n != name
    &&& forall|m: Seq<char>| names.contains(m) && m != name && m != n ==> seq_less(n, m)
}

/// The first name in lexicographic order among the preset names other than
/// `name`, if there is one.
pub fn first_other_preset(presets: &Vec<(String, Preset)>, name: &str) -> (r: Option<String>)
    ensures
        r matches Some(n) ==> is_first_other(preset_names(presets@), name@, n@),
        r is None ==> forall|m: Seq<char>| preset_names(presets@).contains(m) ==> m == name@,
{
    let ghost names = preset_names(presets@);
    let mut best: Option<String> = None;
    let mut i: usize = 0;
    while i < presets.len()
        invariant
            names == preset_names(presets@),
            i <= presets@.len(),
            best matches Some(b) ==> is_first_other(names.take(i as int), name@, b@),
            best is None ==> forall|k: int| 0 <= k < i ==> names[k] == name@,
        decreases presets@.len() - i,
    {
        let cand = &presets[i].0;
        proof {
            assert(names[i as int] == cand@);
            assert(names.take(i as int + 1) =~= names.take(i as int).push(cand@));
        }
        if !str_equal(cand.as_str(), name) {
            let replace = match &best {
                Some(b) => str_less(cand.as_str(), b.as_str()),
                None => true,
            };
            if replace {
                proof {
                    let t = names.take(i as int + 1);
                    assert forall|m: Seq<char>| t.contains(m) && m != name@ && m != cand@ implies seq_less(
                        cand@,
                        m,
                    ) by {
                        let k = choose|k: int| 0 <= k < t.len() && t[k] == m;
                        if k < i {
                            assert(names.take(i as int).contains(m));
                            if best is Some {
                    let b = best->Some_0;
                                if m != b@ {
                                    lemma_less_transitive(cand@, b@, m);
                                }
                            } else {
                                assert(names[k] == name@);
                            }
                        }
                    }
                    assert(t[i as int] == cand@);
                }
                best = Some(cand.clone());
            } else {
                proof {
                    let t = names.take(i as int + 1);
                    let b = best->Some_0;
                    if cand@ != b@ {
                        lemma_less_total(cand@, b@);
                    }
                    assert forall|m: Seq<char>| t.contains(m) && m != name@ && m != b@ implies seq_less(
                        b@,
                        m,
                    ) by {
                        let k = choose|k: int| 0 <= k < t.len() && t[k] == m;
                        if k < i {
                            assert(names.take(i as int).contains(m));
                        }
                    }
                    assert(names.take(i as int).contains(b@));
                    let k = choose|k: int| 0 <= k < i && names.take(i as int)[k] == b@;
                    assert(t[k] == b@);
                }
            }
        } else {
            proof {
                let t = names.take(i as int + 1);
                if best is Some {
                    let b = best->Some_0;
                    assert forall|m: Seq<char>| t.contains(m) && m != name@ && m != b@ implies seq_less(
                        b@,
                        m,
                    ) by {
                        let k = choose|k: int| 0 <= k < t.len() && t[k] == m;
                        if k < i {
                            assert(names.take(i as int).contains(m));
                        }
                    }
                    assert(names.take(i as int).contains(b@));
                    let k = choose|k: int| 0 <= k < i && names.take(i as int)[k] == b@;
                    assert(t[k] == b@);
                }
            }
        }
        i = i + 1;
    }
    proof {
        assert(names.take(presets@.len() as int) =~= names);
        if best is None {
            assert forall|m: Seq<char>| names.contains(m) implies m == name@ by {
                let k = choose|k: int| 0 <= k < names.len() && names[k] == m;
            }
        }
    }
    best
}

/// Decides what deleting the preset `name` does: refuses when it is the
/// only preset; otherwise, when it is the active one, names the preset to
/// activate in its place (the first of the others in lexicographic order).
pub fn plan_preset_deletion(config: &Config, name: &str) -> (r: Result<Option<String>, String>)
    ensures
        config.presets@.len() <= 1 ==> (r matches Err(msg) && msg@ == "cannot delete the last preset"@),
        config.presets@.len() > 1 && config.active_preset@ != name@ ==> r matches Ok(None),
        config.presets@.len() > 1 && config.active_preset@ == name@ ==> (r matches Ok(next) && match next {
            Some(n) => is_first_other(preset_names(config.presets@), name@, n@),
            None => forall|m: Seq<char>| preset_names(config.presets@).contains(m) ==> m == name@,
        }),
{
    if config.presets.len() <= 1 {
        return Err(String::from_str("cannot delete the last preset"));
    }
    if str_equal(config.active_preset.as_str(), name) {
        Ok(first_other_preset(&config.presets, name))
    } else {
        Ok(None)
    }
}

/// Decides what creating a preset named `name` does: refuses when a preset
/// of that name exists; otherwise gives the values to copy, those of the
/// preset in use.
pub fn plan_preset_creation(config: &Config, name: &str) -> (r: Result<Preset, String>)
    ensures
        lookup_preset(config.presets@, name@) is Some ==> (r matches Err(msg) && msg@ == "preset already exists"@),
        lookup_preset(config.presets@, name@) is None ==> r == Ok::<Preset, String>(current_preset(*config)),
{
    if find_preset(&config.presets, name).is_some() {
        return Err(String::from_str("preset already exists"));
    }
    Ok(get_crr_preset(config))
}

/// The presets of a fresh configuration: the classic pomodoro, and deep
/// work (50 minutes of work, breaks of 10 and 30 minutes, a long break after
/// every fourth work session).
pub open spec fn default_presets() -> Seq<(Seq<char>, Preset)> {
    seq![
        ("pomodoro"@, spec_pomodoro_preset()),
        (
            "deep_work"@,
            Preset {
                work_minutes: 50,
                short_break_minutes: 10,
                long_break_minutes: 30,
                sessions_before_long_break: 4,
            },
        ),
    ]
}

impl Default for Config {
    /// The configuration written to a fresh configuration file.
    fn default() -> (c: Config)
        ensures
            c.wf(),
            c.presets@.map_values(|p: (String, Preset)| (p.0@, p.1)) == default_presets(),
            c.active_preset@ == "pomodoro"@,
            c.show_notifications,
            c.daily_goal_minutes == 0,
            c.tui_show_progress,
            c.tui_show_ascii_art,
            c.tui_show_stats,
            c.font == Fonts::Terminus,
            c.theme@ == "catppuccin-mocha"@,
            c.hook_pause@.len() == 0,
            c.hook_resume@.len() == 0,
            c.hook_resume_short_break@.len() == 0,
            c.hook_pause_short_break@.len() == 0,
            c.hook_resume_work@.len() == 0,
            c.hook_pause_work@.len() == 0,
            c.hook_pause_long_break@.len() == 0,
            c.hook_resume_long_break@.len() == 0,
            c.hook_start_short_break@.len() == 0,
            c.hook_start_long_break@.len() == 0,
            c.hook_start_work@.len() == 0,
    {
        let mut presets: Vec<(String, Preset)> = Vec::new();
        presets.push((String::from_str("pomodoro"), pomodoro_preset()));
        presets.push(
            (
                String::from_str("deep_work"),
                Preset {
                    work_minutes: 50,
                    short_break_minutes: 10,
                    long_break_minutes: 30,
                    sessions_before_long_break: 4,
                },
            ),
        );
        proof {
            reveal_strlit("pomodoro");
            reveal_strlit("deep_work");
            assert(presets@.map_values(|p: (String, Preset)| (p.0@, p.1)) =~= default_presets());
            assert(presets@[0].0@.len() != presets@[1].0@.len());
        }
        Config {
            active_preset: String::from_str("pomodoro"),
            presets,
            show_notifications: true,
            daily_goal_minutes: 0,
            tui_show_progress: true,
            tui_show_ascii_art: true,
            tui_show_stats: true,
            font: Fonts::Terminus,
            theme: String::from_str("catppuccin-mocha"),
            hook_pause_short_break: String::new(),
            hook_resume_short_break: String::new(),
            hook_pause_work: String::new(),
            hook_resume_work: String::new(),
            hook_pause_long_break: String::new(),
            hook_resume_long_break: String::new(),
            hook_start_short_break: String::new(),
            hook_start_long_break: String::new(),
            hook_start_work: String::new(),
            hook_pause: String::new(),
            hook_resume: String::new(),
        }
    }
}

} // verus!
