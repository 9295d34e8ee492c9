//! Which `WhenTime` strands the time watcher fires on one tick: only those
//! of macros that are listened to, each at most once per day.

use vstd::prelude::*;
use crate::macros::Macro;
use crate::text::str_eq;

verus! {

/// Whether a macro's event strands are watched: it asked to always be
/// listened to, or it is the selected macro.
pub open spec fn listened(always_listen: bool, macro_id: Seq<char>, selected: Option<Seq<char>>) -> bool {
    always_listen || selected == Some(macro_id)
}

/// Whether the watcher looks at `mac`'s strands while `selected_id` is the
/// selected macro (see [`listened`]).
pub fn listens(mac: &Macro, selected_id: Option<&str>) -> (r: bool)
    ensures
        r == listened(mac.settings.always_listen, mac.id@, match selected_id {
            Some(s) => Some(s@),
            None => None,
        }),
{
    if mac.settings.always_listen {
        return true;
    }
    match selected_id {
        Some(s) => str_eq(s, mac.id.as_str()),
        None => false,
    }
}

/// A `WhenTime` strand on one tick: its macro and strand ids, whether its
/// macro is listened to, and whether its schedule matches the current time.
pub struct TimeCandidate {
    pub macro_id: String,
    pub strand_id: String,
    pub listening: bool,
    pub due: bool,
}

/// A strand remembered as fired, with the day (a date's day number) it
/// fired on.
pub struct FiredOn {
    pub macro_id: String,
    pub strand_id: String,
    pub day: i64,
}

/// Whether `fired` remembers strand `strand_id` of macro `macro_id` as
/// fired on `day`.
pub open spec fn fired_on(fired: Seq<FiredOn>, macro_id: Seq<char>, strand_id: Seq<char>, day: i64) -> bool {
    exists|i: int|
        0 <= i < fired.len() && (#[trigger] fired[i]).macro_id@ == macro_id && fired[i].strand_id@ == strand_id
            && fired[i].day == day
}

/// A listened-to strand fires when its schedule matches and it has not
/// fired yet today.
pub open spec fn should_fire(fired: Seq<FiredOn>, c: TimeCandidate, today: i64) -> bool {
    c.listening && c.due && !fired_on(fired, c.macro_id@, c.strand_id@, today)
}

/// A listened-to strand is remembered as fired today when it fires now or
/// already had.
pub open spec fn remembered(fired: Seq<FiredOn>, c: TimeCandidate, today: i64) -> bool {
    c.listening && (should_fire(fired, c, today) || fired_on(fired, c.macro_id@, c.strand_id@, today))
}

/// The (macro id, strand id) pairs remembered after a tick, in the order of
/// the candidates.
pub open spec fn remembered_keys(fired: Seq<FiredOn>, cands: Seq<TimeCandidate>, today: i64) -> Seq<
    (Seq<char>, Seq<char>),
>
    decreases cands.len(),
{
    if cands.len() == 0 {
        Seq::empty()
    } else {
        let prev = remembered_keys(fired, cands.drop_last(), today);
        let c = cands.last();
        if remembered(fired, c, today) {
            prev.push((c.macro_id@, c.strand_id@))
        } else {
            prev
        }
    }
}

/// What one tick decides: which candidates fire, and what is remembered
/// as fired for the next tick.
pub struct TimeTick {
    pub fire: Vec<bool>,
    pub fired: Vec<FiredOn>,
}

/// Whether `fired` remembers the strand as fired on `day`.
fn find_fired(fired: &Vec<FiredOn>, macro_id: &str, strand_id: &str, day: i64) -> (r: bool)
    ensures
        r == fired_on(fired@, macro_id@, strand_id@, day),
{
    let n = fired.len();
    let mut i: usize = 0;
    while i < n
        invariant
            n == fired@.len(),
            i <= n,
            forall|j: int|
                0 <= j < i ==> !((#[trigger] fired@[j]).macro_id@ == macro_id@ && fired@[j].strand_id@ == strand_id@
                    && fired@[j].day == day),
        decreases n - i,
    {
        let f = &fired[i];
        if f.day == day && str_eq(f.macro_id.as_str(), macro_id) && str_eq(f.strand_id.as_str(), strand_id) {
            return true;
        }
        i += 1;
    }
    false
}

/// One tick of the time watcher over `candidates`, given what `last`
/// remembers as fired and today's day number.
pub fn time_tick(last: &Vec<FiredOn>, candidates: &Vec<TimeCandidate>, today: i64) -> (r: TimeTick)
    ensures
        r.fire@.len() == candidates@.len(),
        forall|c: int| 0 <= c < candidates@.len() ==> r.fire@[c] == should_fire(last@, #[trigger] candidates@[c], today),
        r.fired@.len() == remembered_keys(last@, candidates@, today).len(),
        forall|i: int|
            0 <= i < r.fired@.len() ==> ((#[trigger] r.fired@[i]).macro_id@, r.fired@[i].strand_id@)
                == remembered_keys(last@, candidates@, today)[i] && r.fired@[i].day == today,
{
    let n = candidates.len();
    let mut fire: Vec<bool> = Vec::new();
    let mut fired: Vec<FiredOn> = Vec::new();
    let mut k: usize = 0;
    while k < n
        invariant
            n == candidates@.len(),
            k <= n,
            fire@.len() == k,
            forall|c: int| 0 <= c < k ==> fire@[c] == should_fire(last@, #[trigger] candidates@[c], today),
            fired@.len() == remembered_keys(last@, candidates@.subrange(0, k as int), today).len(),
            forall|i: int|
                0 <= i < fired@.len() ==> ((#[trigger] fired@[i]).macro_id@, fired@[i].strand_id@)
                    == remembered_keys(last@, candidates@.subrange(0, k as int), today)[i] && fired@[i].day == today,
        decreases n - k,
    {
        let c = &candidates[k];
        let already = find_fired(last, c.macro_id.as_str(), c.strand_id.as_str(), today);
        let now = c.listening && c.due && !already;
        fire.push(now);
        proof {
            assert(candidates@.subrange(0, k as int + 1).drop_last() =~= candidates@.subrange(0, k as int));
            assert(candidates@.subrange(0, k as int + 1).last() == candidates@[k as int]);
        }
        if c.listening && (now || already) {
            fired.push(FiredOn { macro_id: c.macro_id.clone(), strand_id: c.strand_id.clone(), day: today });
        }
        k += 1;
    }
    proof {
        assert(candidates@.subrange(0, n as int) =~= candidates@);
    }
    TimeTick { fire, fired }
}

/// Every candidate remembered after a tick is among the remembered keys.
proof fn lemma_remembered_key_present(fired: Seq<FiredOn>, cands: Seq<TimeCandidate>, today: i64, c: int)
    requires
        0 <= c < cands.len(),
        remembered(fired, cands[c], today),
    ensures
        remembered_keys(fired, cands, today).contains((cands[c].macro_id@, cands[c].strand_id@)),
    decreases cands.len(),
{
    let prev = remembered_keys(fired, cands.drop_last(), today);
    if c == cands.len() - 1 {
        let k = prev.len() as int;
        assert(remembered_keys(fired, cands, today)[k] == (cands[c].macro_id@, cands[c].strand_id@));
    } else {
        lemma_remembered_key_present(fired, cands.drop_last(), today, c);
        let j = choose|j: int| 0 <= j < prev.len() && prev[j] == (cands[c].macro_id@, cands[c].strand_id@);
        let next = remembered_keys(fired, cands, today);
        assert(next[j] == prev[j]);
    }
}

/// A strand fires at most once a day: once a tick fires it, the next tick
/// on the same day does not fire it again, whatever that tick sees.
pub proof fn lemma_fires_once_a_day(
    last: Seq<FiredOn>,
    cands: Seq<TimeCandidate>,
    today: i64,
    fire: Seq<bool>,
    next: Seq<FiredOn>,
    c: int,
    later: TimeCandidate,
)
    requires
        0 <= c < cands.len(),
        fire.len() == cands.len(),
        forall|k: int| 0 <= k < cands.len() ==> fire[k] == should_fire(last, #[trigger] cands[k], today),
        next.len() == remembered_keys(last, cands, today).len(),
        forall|i: int|
            0 <= i < next.len() ==> ((#[trigger] next[i]).macro_id@, next[i].strand_id@)
                == remembered_keys(last, cands, today)[i] && next[i].day == today,
        fire[c],
        later.macro_id@ == cands[c].macro_id@,
        later.strand_id@ == cands[c].strand_id@,
    ensures
        !should_fire(next, later, today),
{
    assert(should_fire(last, cands[c], today));
    lemma_remembered_key_present(last, cands, today, c);
    let keys = remembered_keys(last, cands, today);
    let j = choose|j: int| 0 <= j < keys.len() && keys[j] == (cands[c].macro_id@, cands[c].strand_id@);
    assert(next[j].macro_id@ == later.macro_id@ && next[j].strand_id@ == later.strand_id@ && next[j].day == today);
    assert(fired_on(next, later.macro_id@, later.strand_id@, today));
}

/// A new day rearms every strand: what a tick remembers holds only today,
/// so on any other day a listened-to strand fires exactly when its schedule
/// matches.
pub proof fn lemma_new_day_rearms(next: Seq<FiredOn>, today: i64, other_day: i64, later: TimeCandidate)
    requires
        forall|i: int| 0 <= i < next.len() ==> (#[trigger] next[i]).day == today,
        other_day != today,
    ensures
        should_fire(next, later, other_day) == (later.listening && later.due),
{
    if fired_on(next, later.macro_id@, later.strand_id@, other_day) {
        let i = choose|i: int|
            0 <= i < next.len() && (#[trigger] next[i]).macro_id@ == later.macro_id@ && next[i].strand_id@
                == later.strand_id@ && next[i].day == other_day;
        assert(next[i].day == today);
    }
}

} // verus!
