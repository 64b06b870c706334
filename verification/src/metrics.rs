//! Usage counters of the application and named custom counters, with the
//! snapshot that reports them. Counters wrap around at `u64::MAX`, as
//! atomic additions do.

use vstd::prelude::*;

use crate::monitoring::Counter;
use crate::text::{owned, strings_equal};

verus! {

/// A counter value after one more.
pub open spec fn bumped(n: u64) -> u64 {
    if n == u64::MAX {
        0
    } else {
        (n + 1) as u64
    }
}

/// The named values by content.
pub open spec fn named_view(v: Seq<(String, u64)>) -> Seq<(Seq<char>, u64)> {
    v.map_values(|e: (String, u64)| (e.0@, e.1))
}

/// The value recorded under `name`: the last entry with that name.
pub open spec fn lookup(s: Seq<(Seq<char>, u64)>, name: Seq<char>) -> Option<u64>
    decreases s.len(),
{
    if s.len() == 0 {
        None
    } else if s.last().0 == name {
        Some(s.last().1)
    } else {
        lookup(s.drop_last(), name)
    }
}

/// `s` without the entries named `name`.
pub open spec fn without_name(s: Seq<(Seq<char>, u64)>, name: Seq<char>) -> Seq<(Seq<char>, u64)>
    decreases s.len(),
{
    if s.len() == 0 {
        s
    } else if s.last().0 == name {
        without_name(s.drop_last(), name)
    } else {
        without_name(s.drop_last(), name).push(s.last())
    }
}

/// Removing the entries of one name leaves every other name's value.
pub proof fn lemma_without_name(s: Seq<(Seq<char>, u64)>, name: Seq<char>, other: Seq<char>)
    ensures
        other != name ==> lookup(without_name(s, name), other) == lookup(s, other),
        lookup(without_name(s, name), name) is None,
    decreases s.len(),
{
    if s.len() > 0 {
        lemma_without_name(s.drop_last(), name, other);
        if s.last().0 != name {
            let w = without_name(s.drop_last(), name);
            assert(w.push(s.last()).drop_last() =~= w);
        }
    }
}

/// Finds the value recorded under `name`.
pub(crate) fn find_named(v: &Vec<(String, u64)>, name: &String) -> (r: Option<u64>)
    ensures
        r == lookup(named_view(v@), name@),
{
    let mut i: usize = v.len();
    assert(v@.take(v@.len() as int) =~= v@);
    while i > 0
        invariant
            i <= v.len(),
            lookup(named_view(v@), name@) == lookup(named_view(v@.take(i as int)), name@),
        decreases i,
    {
        let ghost t = named_view(v@.take(i as int));
        assert(named_view(v@.take(i - 1)) =~= t.drop_last());
        assert(t.last() == (v@[i - 1].0@, v@[i - 1].1));
        if strings_equal(&v[i - 1].0, name) {
            return Some(v[i - 1].1);
        }
        i = i - 1;
    }
    None
}

/// Records `value` under `name`, in place of any earlier value.
pub(crate) fn put_named(v: &mut Vec<(String, u64)>, name: String, value: u64)
    ensures
        named_view(final(v)@) == without_name(named_view(old(v)@), name@).push((name@, value)),
{
    let mut kept: Vec<(String, u64)> = Vec::new();
    let mut i: usize = 0;
    while i < v.len()
        invariant
            i <= v.len(),
            named_view(kept@) == without_name(named_view(v@.take(i as int)), name@),
        decreases v.len() - i,
    {
        let ghost t = named_view(v@.take(i + 1));
        assert(t.drop_last() =~= named_view(v@.take(i as int)));
        assert(t.last() == (v@[i as int].0@, v@[i as int].1));
        if !strings_equal(&v[i].0, &name) {
            let ghost before = kept@;
            kept.push((v[i].0.clone(), v[i].1));
            assert(named_view(kept@) =~= named_view(before).push(t.last()));
        }
        i = i + 1;
    }
    assert(v@.take(v@.len() as int) =~= v@);
    let ghost before = kept@;
    kept.push((name, value));
    assert(named_view(kept@) =~= named_view(before).push((name@, value)));
    *v = kept;
}

/// The counters of the application.
pub struct Metrics {
    /// Total media files played
    pub media_played: u64,
    /// Total playback time in seconds
    pub playback_time_seconds: u64,
    /// Errors encountered
    pub errors: u64,
    pub plugins_loaded: u64,
    pub crashes: u64,
    /// Custom counters by name
    pub custom: Vec<(String, u64)>,
}

/// The counters at one moment.
#[derive(Debug, Clone)]
pub struct MetricsSnapshot {
    pub media_played: u64,
    pub playback_time_seconds: u64,
    pub errors: u64,
    pub plugins_loaded: u64,
    pub crashes: u64,
    pub custom: Vec<(String, u64)>,
}

impl MetricsSnapshot {
    /// The value of a custom counter, if it was ever set.
    pub fn custom_value(&self, name: &str) -> (r: Option<u64>)
        ensures
            r == lookup(named_view(self.custom@), name@),
    {
        find_named(&self.custom, &owned(name))
    }
}

impl Metrics {
    /// The custom counters by name.
    pub open spec fn custom_counters(&self) -> Seq<(Seq<char>, u64)> {
        named_view(self.custom@)
    }

    /// All counters at zero, no custom counter.
    pub fn new() -> (m: Metrics)
        ensures
            m.media_played == 0,
            m.playback_time_seconds == 0,
            m.errors == 0,
            m.plugins_loaded == 0,
            m.crashes == 0,
            m.custom_counters().len() == 0,
    {
        Metrics { media_played: 0, playback_time_seconds: 0, errors: 0, plugins_loaded: 0, crashes: 0, custom: Vec::new() }
    }

    /// Counts one more of `counter`.
    pub fn increment(&mut self, counter: &Counter)
        ensures
            final(self).media_played == if *counter == Counter::MediaPlayed {
                bumped(old(self).media_played)
            } else {
                old(self).media_played
            },
            final(self).errors == if *counter == Counter::Errors {
                bumped(old(self).errors)
            } else {
                old(self).errors
            },
            final(self).plugins_loaded == if *counter == Counter::PluginsLoaded {
                bumped(old(self).plugins_loaded)
            } else {
                old(self).plugins_loaded
            },
            final(self).crashes == if *counter == Counter::Crashes {
                bumped(old(self).crashes)
            } else {
                old(self).crashes
            },
            final(self).playback_time_seconds == old(self).playback_time_seconds,
            final(self).custom_counters() == old(self).custom_counters(),
    {
        match counter {
            Counter::MediaPlayed => self.media_played = self.media_played.wrapping_add(1),
            Counter::Errors => self.errors = self.errors.wrapping_add(1),
            Counter::PluginsLoaded => self.plugins_loaded = self.plugins_loaded.wrapping_add(1),
            Counter::Crashes => self.crashes = self.crashes.wrapping_add(1),
        }
    }

    /// Adds playback time, wrapping around at `u64::MAX`.
    pub fn add_playback_time(&mut self, seconds: u64)
        ensures
            final(self).playback_time_seconds as int == (old(self).playback_time_seconds + seconds) % (
            u64::MAX + 1),
            final(self).media_played == old(self).media_played,
            final(self).errors == old(self).errors,
            final(self).plugins_loaded == old(self).plugins_loaded,
            final(self).crashes == old(self).crashes,
            final(self).custom_counters() == old(self).custom_counters(),
    {
        self.playback_time_seconds = self.playback_time_seconds.wrapping_add(seconds);
    }

    /// Sets a custom counter.
    pub fn set_custom(&mut self, name: &str, value: u64)
        ensures
            lookup(final(self).custom_counters(), name@) == Some(value),
            forall|other: Seq<char>|
                other != name@ ==> lookup(final(self).custom_counters(), other) == lookup(
                    old(self).custom_counters(),
                    other,
                ),
            final(self).media_played == old(self).media_played,
            final(self).playback_time_seconds == old(self).playback_time_seconds,
            final(self).errors == old(self).errors,
            final(self).plugins_loaded == old(self).plugins_loaded,
            final(self).crashes == old(self).crashes,
    {
        put_named(&mut self.custom, owned(name), value);
        proof {
            assert forall|other: Seq<char>| other != name@ implies lookup(self.custom_counters(), other) == lookup(
                old(self).custom_counters(),
                other,
            ) by {
                lemma_without_name(old(self).custom_counters(), name@, other);
                let w = without_name(old(self).custom_counters(), name@);
                assert(w.push((name@, value)).drop_last() =~= w);
            }
        }
    }

    /// Counts one more of a custom counter, which starts at zero.
    pub fn increment_custom(&mut self, name: &str)
        ensures
            lookup(final(self).custom_counters(), name@) == Some(
                bumped(
                    match lookup(old(self).custom_counters(), name@) {
                        Some(n) => n,
                        None => 0,
                    },
                ),
            ),
            forall|other: Seq<char>|
                other != name@ ==> lookup(final(self).custom_counters(), other) == lookup(
                    old(self).custom_counters(),
                    other,
                ),
            final(self).media_played == old(self).media_played,
            final(self).playback_time_seconds == old(self).playback_time_seconds,
            final(self).errors == old(self).errors,
            final(self).plugins_loaded == old(self).plugins_loaded,
            final(self).crashes == old(self).crashes,
    {
        let key = owned(name);
        let current = match find_named(&self.custom, &key) {
            Some(n) => n,
            None => 0,
        };
        self.set_custom(name, current.wrapping_add(1));
    }

    /// The counters at this moment.
    pub fn snapshot(&self) -> (s: MetricsSnapshot)
        ensures
            s.media_played == self.media_played,
            s.playback_time_seconds == self.playback_time_seconds,
            s.errors == self.errors,
            s.plugins_loaded == self.plugins_loaded,
            s.crashes == self.crashes,
            named_view(s.custom@) == self.custom_counters(),
    {
        let mut custom: Vec<(String, u64)> = Vec::new();
        let mut i: usize = 0;
        while i < self.custom.len()
            invariant
                i <= self.custom.len(),
                named_view(custom@) == named_view(self.custom@.take(i as int)),
            decreases self.custom.len() - i,
        {
            let ghost before = custom@;
            custom.push((self.custom[i].0.clone(), self.custom[i].1));
            assert(named_view(custom@) =~= named_view(before).push((self.custom@[i as int].0@, self.custom@[i as int].1)));
            assert(named_view(self.custom@.take(i + 1)) =~= named_view(self.custom@.take(i as int)).push(
                (self.custom@[i as int].0@, self.custom@[i as int].1),
            ));
            i = i + 1;
        }
        assert(self.custom@.take(self.custom@.len() as int) =~= self.custom@);
        MetricsSnapshot {
            media_played: self.media_played,
            playback_time_seconds: self.playback_time_seconds,
            errors: self.errors,
            plugins_loaded: self.plugins_loaded,
            crashes: self.crashes,
            custom,
        }
    }

    /// Sets every counter back to zero and forgets the custom counters.
    pub fn reset(&mut self)
        ensures
            final(self).media_played == 0,
            final(self).playback_time_seconds == 0,
            final(self).errors == 0,
            final(self).plugins_loaded == 0,
            final(self).crashes == 0,
            final(self).custom_counters().len() == 0,
    {
        self.media_played = 0;
        self.playback_time_seconds = 0;
        self.errors = 0;
        self.plugins_loaded = 0;
        self.crashes = 0;
        self.custom = Vec::new();
    }
}

} // verus!
