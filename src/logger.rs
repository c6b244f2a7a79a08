//! The logger's state: a global threshold and an append-only table of
//! per-component overrides, searched in insertion order.
use vstd::prelude::*;
use crate::level::Level;

verus! {

/// What a logger holds, as values.
pub struct Settings {
    pub global: Level,
    pub overrides: Seq<(Seq<char>, Level)>,
}

/// Index of the first `"::"` in `s` at or after `i`, or `s.len()` if none.
pub open spec fn separator_from(s: Seq<char>, i: int) -> int
    decreases s.len() - i,
{
    if i < 0 || i + 1 >= s.len() {
        s.len() as int
    } else if s[i] == ':' && s[i + 1] == ':' {
        i
    } else {
        separator_from(s, i + 1)
    }
}

/// The component of a hierarchical target: the text before its first `"::"`.
pub open spec fn component_of(target: Seq<char>) -> Seq<char> {
    target.subrange(0, separator_from(target, 0))
}

/// The threshold for `component`: the level of the first override naming
/// it, or `global` when none does.
pub open spec fn threshold_in(
    overrides: Seq<(Seq<char>, Level)>,
    global: Level,
    component: Seq<char>,
) -> Level
    decreases overrides.len(),
{
    if overrides.len() == 0 {
        global
    } else if overrides[0].0 == component {
        overrides[0].1
    } else {
        threshold_in(overrides.drop_first(), global, component)
    }
}

impl Settings {
    pub open spec fn threshold(self, component: Seq<char>) -> Level {
        threshold_in(self.overrides, self.global, component)
    }

    /// An event at `level` from `target` is shown.
    pub open spec fn shows(self, level: Level, target: Seq<char>) -> bool {
        level.spec_within(self.threshold(component_of(target)))
    }

    pub open spec fn with_global(self, level: Level) -> Settings {
        Settings { global: level, overrides: self.overrides }
    }

    pub open spec fn with_override(self, component: Seq<char>, level: Level) -> Settings {
        Settings { global: self.global, overrides: self.overrides.push((component, level)) }
    }
}

proof fn lemma_separator_bounds(s: Seq<char>, i: int)
    requires
        0 <= i <= s.len(),
    ensures
        i <= separator_from(s, i) <= s.len(),
    decreases s.len() - i,
{
    if i + 1 < s.len() && !(s[i] == ':' && s[i + 1] == ':') {
        lemma_separator_bounds(s, i + 1);
    }
}

/// The component of `target`: the text before its first `"::"`, or all of it.
pub fn component(target: &str) -> (r: &str)
    ensures
        r@ == component_of(target@),
{
    let n = target.unicode_len();
    let mut i: usize = 0;
    while i < n
        invariant
            n == target@.len(),
            0 <= i <= n,
            separator_from(target@, 0) == separator_from(target@, i as int),
        decreases n - i,
    {
        if i + 1 < n && target.get_char(i) == ':' && target.get_char(i + 1) == ':' {
            proof {
                lemma_separator_bounds(target@, i as int);
            }
            return target.substring_char(0, i);
        }
        i = i + 1;
    }
    target
}

/// A logger: the global threshold and the component overrides.
pub struct Logger {
    log_level: Level,
    crate_levels: Vec<(String, Level)>,
}

impl View for Logger {
    type V = Settings;

    closed spec fn view(&self) -> Settings {
        Settings {
            global: self.log_level,
            overrides: self.crate_levels@.map_values(|e: (String, Level)| (e.0@, e.1)),
        }
    }
}

impl Logger {
    /// A logger with global threshold `level` and no overrides.
    pub fn new(level: Level) -> (r: Logger)
        ensures
            r@ == (Settings { global: level, overrides: Seq::empty() }),
    {
        let r = Logger { log_level: level, crate_levels: Vec::new() };
        assert(r@.overrides =~= Seq::<(Seq<char>, Level)>::empty());
        r
    }

    /// Replaces the global threshold.
    pub fn set_level(&mut self, level: Level)
        ensures
            final(self)@ == old(self)@.with_global(level),
    {
        self.log_level = level;
        assert(self@.overrides =~= old(self)@.overrides);
    }

    /// Appends an override; earlier overrides for the same component stay first.
    pub fn add_override(&mut self, component: &str, level: Level)
        ensures
            final(self)@ == old(self)@.with_override(component@, level),
    {
        self.crate_levels.push((component.to_string(), level));
        assert(self@.overrides =~= old(self)@.overrides.push((component@, level)));
    }

    /// The global threshold.
    pub fn level(&self) -> (r: Level)
        ensures
            r == self@.global,
    {
        self.log_level
    }

    /// The threshold for `component`: the first matching override, else the global one.
    pub fn threshold_for(&self, component: &str) -> (r: Level)
        ensures
            r == self@.threshold(component@),
    {
        let key = component.to_string();
        let n = self.crate_levels.len();
        let ghost all = self@.overrides;
        let mut i: usize = 0;
        assert(all.subrange(0, n as int) =~= all);
        while i < n
            invariant
                n == self.crate_levels@.len(),
                all == self@.overrides,
                key@ == component@,
                0 <= i <= n,
                threshold_in(all, self.log_level, key@) == threshold_in(
                    all.subrange(i as int, n as int),
                    self.log_level,
                    key@,
                ),
            decreases n - i,
        {
            let ghost rest = all.subrange(i as int, n as int);
            assert(rest.drop_first() =~= all.subrange(i + 1, n as int));
            if self.crate_levels[i].0 == key {
                return self.crate_levels[i].1;
            }
            i = i + 1;
        }
        assert(all.subrange(n as int, n as int) =~= Seq::<(Seq<char>, Level)>::empty());
        self.log_level
    }

    /// Whether an event at `level` from `target` is shown.
    pub fn enabled(&self, level: Level, target: &str) -> (r: bool)
        ensures
            r == self@.shows(level, target@),
    {
        let threshold = self.threshold_for(component(target));
        level.within(&threshold)
    }
}

/// Replaces the global threshold of `logger`.
pub fn set_level(logger: &mut Logger, level: Level)
    ensures
        final(logger)@ == old(logger)@.with_global(level),
{
    logger.set_level(level);
}

/// Registers an override of `level` for the component `target`.
pub fn set_crate_log(logger: &mut Logger, target: &str, level: Level)
    ensures
        final(logger)@ == old(logger)@.with_override(target@, level),
{
    logger.add_override(target, level);
}

} // verus!
