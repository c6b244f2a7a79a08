//! Properties of the filtering decision, proved over `Settings`.
use vstd::prelude::*;
use crate::level::Level;
use crate::logger::{component_of, threshold_in, Settings};

verus! {

/// The filter is monotone: if an event at `b` is shown, so is every event
/// from the same target at a level `a` at least as severe.
pub proof fn lemma_filter_monotone(s: Settings, a: Level, b: Level, target: Seq<char>)
    requires
        a.spec_within(b),
        s.shows(b, target),
    ensures
        s.shows(a, target),
{
}

/// Overrides for other components do not affect the threshold of `c`.
pub proof fn lemma_threshold_skips_others(
    xs: Seq<(Seq<char>, Level)>,
    ys: Seq<(Seq<char>, Level)>,
    global: Level,
    c: Seq<char>,
)
    requires
        forall|i: int| 0 <= i < xs.len() ==> #[trigger] xs[i].0 != c,
    ensures
        threshold_in(xs + ys, global, c) == threshold_in(ys, global, c),
    decreases xs.len(),
{
    if xs.len() > 0 {
        assert((xs + ys).drop_first() =~= xs.drop_first() + ys);
        assert forall|i: int| 0 <= i < xs.drop_first().len() implies #[trigger] xs.drop_first()[i].0
            != c by {
            assert(xs.drop_first()[i] == xs[i + 1]);
        }
        lemma_threshold_skips_others(xs.drop_first(), ys, global, c);
    } else {
        assert(xs + ys =~= ys);
    }
}

/// The first override registered for a component wins: after `(c, Info)`
/// and then `(c, Error)` are added to a table with no entry for `c`, the
/// threshold of `c` is `Info`.
pub proof fn lemma_first_override_wins(s: Settings, c: Seq<char>)
    requires
        forall|i: int| 0 <= i < s.overrides.len() ==> #[trigger] s.overrides[i].0 != c,
    ensures
        s.with_override(c, Level::Info).with_override(c, Level::Error).threshold(c) == Level::Info,
{
    let ys = seq![(c, Level::Info), (c, Level::Error)];
    assert(s.with_override(c, Level::Info).with_override(c, Level::Error).overrides
        =~= s.overrides + ys);
    lemma_threshold_skips_others(s.overrides, ys, s.global, c);
}

/// Setting the global threshold twice to the same level is the same as
/// setting it once, so every filtering decision is the same.
pub proof fn lemma_set_level_idempotent(s: Settings, level: Level, event: Level, target: Seq<char>)
    ensures
        s.with_global(level).with_global(level) == s.with_global(level),
        s.with_global(level).with_global(level).shows(event, target) == s.with_global(
            level,
        ).shows(event, target),
{
}

/// The threshold is inclusive: an event exactly at the threshold of its
/// component is shown, and one a single step less severe is not.
pub proof fn lemma_threshold_boundary(s: Settings, below: Level, target: Seq<char>)
    requires
        below.spec_rank() == s.threshold(component_of(target)).spec_rank() + 1,
    ensures
        s.shows(s.threshold(component_of(target)), target),
        !s.shows(below, target),
{
}

/// Registering an override loses none: every earlier override keeps its
/// place and the new one is last.
pub proof fn lemma_registration_keeps_all(s: Settings, c: Seq<char>, level: Level)
    ensures
        s.with_override(c, level).overrides.len() == s.overrides.len() + 1,
        forall|i: int|
            0 <= i < s.overrides.len() ==> #[trigger] s.with_override(c, level).overrides[i]
                == s.overrides[i],
        s.with_override(c, level).overrides.last() == (c, level),
{
}

} // verus!
