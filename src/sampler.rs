//! When to take a screen sample: on every change of the active window's
//! title, and otherwise once a dwell period has passed since the last one.
use vstd::prelude::*;

verus! {

/// The sampler's memory between polls. Times are whole seconds of a
/// monotonic clock.
pub struct Sampler {
    /// Title seen at the previous poll; `None` before the first poll.
    pub last_title: Option<String>,
    /// When the last sample was taken; `None` before the first one.
    pub last_sample: Option<u64>,
    /// Longest time between two samples under one title.
    pub dwell: u64,
}

/// Whether `title` differs from the title of the previous poll.
pub open spec fn title_changed(s: Sampler, title: Seq<char>) -> bool {
    match s.last_title {
        None => true,
        Some(t) => t@ != title,
    }
}

/// Whether at least `dwell` seconds have passed since the last sample. A
/// clock reading earlier than the last sample counts as no time passed.
pub open spec fn dwell_elapsed(s: Sampler, now: u64) -> bool {
    match s.last_sample {
        None => true,
        Some(t) => now >= t && now - t >= s.dwell,
    }
}

/// Whether a poll at `now` that sees `title` takes a sample.
pub open spec fn samples_at(s: Sampler, title: Seq<char>, now: u64) -> bool {
    title_changed(s, title) || dwell_elapsed(s, now)
}

/// The sampler after a poll at `now` that saw `title`.
pub open spec fn after_poll(s: Sampler, title: String, now: u64) -> Sampler {
    Sampler {
        last_title: Some(title),
        last_sample: if samples_at(s, title@, now) {
            Some(now)
        } else {
            s.last_sample
        },
        dwell: s.dwell,
    }
}

/// The sampler after `k` polls that all see `title`, one per second from
/// `from` on.
pub open spec fn run(s: Sampler, title: String, from: u64, k: nat) -> Sampler
    decreases k,
{
    if k == 0 {
        s
    } else {
        after_poll(run(s, title, from, (k - 1) as nat), title, (from + k - 1) as u64)
    }
}

impl Sampler {
    /// A sampler that has seen nothing yet.
    pub fn new(dwell: u64) -> (r: Sampler)
        ensures
            r.last_title is None,
            r.last_sample is None,
            r.dwell == dwell,
    {
        Sampler { last_title: None, last_sample: None, dwell }
    }

    /// Records a poll at `now` that saw `title`; returns whether to take a
    /// sample.
    pub fn poll(&mut self, title: String, now: u64) -> (sample: bool)
        ensures
            sample == samples_at(*old(self), title@, now),
            *final(self) == after_poll(*old(self), title, now),
    {
        let changed = match &self.last_title {
            None => true,
            Some(t) => *t != title,
        };
        let due = match self.last_sample {
            None => true,
            Some(t) => now >= t && now - t >= self.dwell,
        };
        let sample = changed || due;
        if sample {
            self.last_sample = Some(now);
        }
        self.last_title = Some(title);
        sample
    }
}

/// A poll that sees a title other than the previous poll's takes a sample
/// at once, however recently the last one was taken.
pub proof fn lemma_title_change_samples(s: Sampler, title: String, now: u64)
    requires
        s.last_title is Some,
        s.last_title->Some_0@ != title@,
    ensures
        samples_at(s, title@, now),
        after_poll(s, title, now).last_sample == Some(now),
{
}

/// Under an unchanging title, polled once a second after a sample at `t`,
/// the `k`-th later poll takes no sample before the dwell period is over
/// and takes one when it is: the next sample comes exactly `dwell` seconds
/// after the last.
pub proof fn lemma_dwell_spacing(s: Sampler, title: String, t: u64, k: nat)
    requires
        s.last_title is Some,
        s.last_title->Some_0@ == title@,
        s.last_sample == Some(t),
        k < s.dwell,
        t + s.dwell <= u64::MAX,
    ensures
        run(s, title, (t + 1) as u64, k).last_sample == Some(t),
        run(s, title, (t + 1) as u64, k).last_title is Some,
        run(s, title, (t + 1) as u64, k).last_title->Some_0@ == title@,
        run(s, title, (t + 1) as u64, k).dwell == s.dwell,
        k + 1 < s.dwell ==> !samples_at(run(s, title, (t + 1) as u64, k), title@, (t + 1 + k) as u64),
        k + 1 == s.dwell ==> samples_at(run(s, title, (t + 1) as u64, k), title@, (t + 1 + k) as u64),
    decreases k,
{
    if k > 0 {
        lemma_dwell_spacing(s, title, t, (k - 1) as nat);
    }
}

} // verus!
