//! Bounded rolling history of bandwidth samples.
//!
//! A `HistoryWindow` keeps two fixed-capacity FIFO sequences of rates (one
//! download, one upload) for one interface, together with a running maximum
//! used for display scaling. The running maximum never decays on its own; it
//! resets to a configured floor only on an explicit `clear`.

use vstd::prelude::*;

verus! {

/// Scaling headroom applied to a rate before it enters the running maximum:
/// the rate plus a tenth, clamped to `u64::MAX`, so the latest sample never
/// sits exactly at the top of a graph's scale.
pub open spec fn headroom(rate: u64) -> u64 {
    if rate * 11 / 10 > u64::MAX {
        u64::MAX
    } else {
        (rate * 11 / 10) as u64
    }
}

/// The larger of two rates.
pub open spec fn rate_max(a: u64, b: u64) -> u64 {
    if a >= b {
        a
    } else {
        b
    }
}

/// A FIFO push into a sequence bounded by `capacity`: the oldest entry is
/// evicted first when the sequence is full.
pub open spec fn window_push(s: Seq<u64>, capacity: int, value: u64) -> Seq<u64> {
    if s.len() < capacity {
        s.push(value)
    } else {
        s.drop_first().push(value)
    }
}

/// Ghost image of a `HistoryWindow`, with the rate sequences as `Seq`.
pub ghost struct SpecHistoryWindow {
    pub download_rates: Seq<u64>,
    pub upload_rates: Seq<u64>,
    pub capacity: usize,
    pub max_floor: u64,
    pub max_download_rate: u64,
    pub max_upload_rate: u64,
}

impl SpecHistoryWindow {
    /// Both sequences stay in lockstep and never exceed the capacity, and the
    /// running maxima never fall below the configured floor.
    pub open spec fn wf(self) -> bool {
        &&& self.download_rates.len() == self.upload_rates.len()
        &&& self.download_rates.len() <= self.capacity
        &&& self.capacity >= 1
        &&& self.max_download_rate >= self.max_floor
        &&& self.max_upload_rate >= self.max_floor
    }

    /// The window `HistoryWindow::new` returns: empty, with both running
    /// maxima at the floor.
    pub open spec fn spec_new(capacity: usize, max_floor: u64) -> SpecHistoryWindow {
        SpecHistoryWindow {
            download_rates: Seq::<u64>::empty(),
            upload_rates: Seq::<u64>::empty(),
            capacity,
            max_floor,
            max_download_rate: max_floor,
            max_upload_rate: max_floor,
        }
    }

    /// The window `HistoryWindow::clear` leaves behind: empty, with both
    /// running maxima back at the floor.
    pub open spec fn spec_clear(self) -> SpecHistoryWindow {
        SpecHistoryWindow {
            download_rates: Seq::<u64>::empty(),
            upload_rates: Seq::<u64>::empty(),
            capacity: self.capacity,
            max_floor: self.max_floor,
            max_download_rate: self.max_floor,
            max_upload_rate: self.max_floor,
        }
    }

    /// The window `HistoryWindow::append` leaves behind: a FIFO push of each
    /// rate and a running-maximum update with headroom.
    pub open spec fn spec_append(self, download_rate: u64, upload_rate: u64) -> SpecHistoryWindow {
        SpecHistoryWindow {
            download_rates: window_push(self.download_rates, self.capacity as int, download_rate),
            upload_rates: window_push(self.upload_rates, self.capacity as int, upload_rate),
            capacity: self.capacity,
            max_floor: self.max_floor,
            max_download_rate: rate_max(self.max_download_rate, headroom(download_rate)),
            max_upload_rate: rate_max(self.max_upload_rate, headroom(upload_rate)),
        }
    }
}

/// Per-interface bounded FIFO time series of bandwidth samples, with a
/// running maximum per direction for display scaling.
#[derive(Debug, Clone, PartialEq, Eq)]
pub struct HistoryWindow {
    pub download_rates: Vec<u64>,
    pub upload_rates: Vec<u64>,
    pub capacity: usize,
    pub max_floor: u64,
    pub max_download_rate: u64,
    pub max_upload_rate: u64,
}

impl View for HistoryWindow {
    type V = SpecHistoryWindow;

    open spec fn view(&self) -> SpecHistoryWindow {
        SpecHistoryWindow {
            download_rates: self.download_rates@,
            upload_rates: self.upload_rates@,
            capacity: self.capacity,
            max_floor: self.max_floor,
            max_download_rate: self.max_download_rate,
            max_upload_rate: self.max_upload_rate,
        }
    }
}

impl HistoryWindow {
    /// Both sequences stay in lockstep and never exceed the capacity, and the
    /// running maxima never fall below the configured floor.
    pub open spec fn wf(&self) -> bool {
        self@.wf()
    }

    /// An empty window with the given capacity and running-maximum floor.
    pub fn new(capacity: usize, max_floor: u64) -> (result: HistoryWindow)
        requires
            capacity >= 1,
        ensures
            result.wf(),
            result@ == SpecHistoryWindow::spec_new(capacity, max_floor),
    {
        let result = HistoryWindow {
            download_rates: Vec::new(),
            upload_rates: Vec::new(),
            capacity,
            max_floor,
            max_download_rate: max_floor,
            max_upload_rate: max_floor,
        };
        proof {
            assert(result@ =~= SpecHistoryWindow::spec_new(capacity, max_floor));
        }
        result
    }

    /// Appends one sample's rates to both sequences, evicting the oldest
    /// entry first when the window is full, and raises the running maxima to
    /// the new rates plus headroom where those are larger.
    pub fn append(&mut self, download_rate: u64, upload_rate: u64)
        requires
            old(self).wf(),
        ensures
            final(self).wf(),
            final(self)@ == old(self)@.spec_append(download_rate, upload_rate),
    {
        if self.download_rates.len() == self.capacity {
            self.download_rates.remove(0);
            self.upload_rates.remove(0);
        }
        self.download_rates.push(download_rate);
        self.upload_rates.push(upload_rate);
        let download_candidate = with_headroom(download_rate);
        if download_candidate > self.max_download_rate {
            self.max_download_rate = download_candidate;
        }
        let upload_candidate = with_headroom(upload_rate);
        if upload_candidate > self.max_upload_rate {
            self.max_upload_rate = upload_candidate;
        }
        proof {
            assert(self.download_rates@ =~= window_push(
                old(self).download_rates@,
                old(self).capacity as int,
                download_rate,
            ));
            assert(self.upload_rates@ =~= window_push(
                old(self).upload_rates@,
                old(self).capacity as int,
                upload_rate,
            ));
        }
    }

    /// Empties both sequences and resets both running maxima to the floor.
    /// The capacity and the floor itself are kept.
    pub fn clear(&mut self)
        ensures
            final(self).download_rates@.len() == 0,
            final(self).upload_rates@.len() == 0,
            final(self).max_download_rate == old(self).max_floor,
            final(self).max_upload_rate == old(self).max_floor,
            final(self).capacity == old(self).capacity,
            final(self).max_floor == old(self).max_floor,
            final(self)@ == old(self)@.spec_clear(),
            old(self).capacity >= 1 ==> final(self).wf(),
    {
        self.download_rates.clear();
        self.upload_rates.clear();
        self.max_download_rate = self.max_floor;
        self.max_upload_rate = self.max_floor;
        proof {
            assert(self@ =~= old(self)@.spec_clear());
        }
    }

    /// Number of samples currently held.
    pub fn len(&self) -> (result: usize)
        requires
            self.wf(),
        ensures
            result == self.download_rates@.len(),
            result == self.upload_rates@.len(),
    {
        self.download_rates.len()
    }
}

/// The download component of each sample, in order.
pub open spec fn download_parts(samples: Seq<(u64, u64)>) -> Seq<u64> {
    samples.map_values(|p: (u64, u64)| p.0)
}

/// The upload component of each sample, in order.
pub open spec fn upload_parts(samples: Seq<(u64, u64)>) -> Seq<u64> {
    samples.map_values(|p: (u64, u64)| p.1)
}

/// The suffix of `s` that a window of the given capacity retains: all of `s`
/// when it fits, otherwise its last `capacity` entries in order.
pub open spec fn last_within(s: Seq<u64>, capacity: int) -> Seq<u64> {
    if s.len() > capacity {
        s.skip(s.len() - capacity)
    } else {
        s
    }
}

/// Every sample of `samples` appended to `w` in order, oldest first.
pub open spec fn spec_append_all(w: SpecHistoryWindow, samples: Seq<(u64, u64)>) -> SpecHistoryWindow
    decreases samples.len(),
{
    if samples.len() == 0 {
        w
    } else {
        spec_append_all(w.spec_append(samples[0].0, samples[0].1), samples.drop_first())
    }
}

/// However many samples are appended, the window's length never exceeds its
/// capacity, and what it holds is exactly the most recent `capacity` entries
/// of everything ever pushed, oldest first: strict FIFO with eviction from
/// the front and no reordering.
pub proof fn lemma_window_is_fifo_suffix(w: SpecHistoryWindow, samples: Seq<(u64, u64)>)
    requires
        w.wf(),
    ensures
        spec_append_all(w, samples).wf(),
        spec_append_all(w, samples).capacity == w.capacity,
        spec_append_all(w, samples).download_rates == last_within(
            w.download_rates + download_parts(samples),
            w.capacity as int,
        ),
        spec_append_all(w, samples).upload_rates == last_within(
            w.upload_rates + upload_parts(samples),
            w.capacity as int,
        ),
    decreases samples.len(),
{
    if samples.len() == 0 {
        assert(download_parts(samples) =~= Seq::<u64>::empty());
        assert(upload_parts(samples) =~= Seq::<u64>::empty());
        assert(w.download_rates + download_parts(samples) =~= w.download_rates);
        assert(w.upload_rates + upload_parts(samples) =~= w.upload_rates);
    } else {
        let w1 = w.spec_append(samples[0].0, samples[0].1);
        let rest = samples.drop_first();
        assert(w1.wf());
        lemma_window_is_fifo_suffix(w1, rest);
        lemma_push_then_suffix(w.download_rates, download_parts(samples), w.capacity as int);
        assert(download_parts(rest) =~= download_parts(samples).drop_first());
        assert(upload_parts(rest) =~= upload_parts(samples).drop_first());
        assert(download_parts(samples)[0] == samples[0].0);
        assert(w1.download_rates == window_push(
            w.download_rates,
            w.capacity as int,
            download_parts(samples)[0],
        ));
        lemma_push_then_suffix(w.upload_rates, upload_parts(samples), w.capacity as int);
    }
}

/// One FIFO push followed by retaining the last `capacity` entries gives the
/// same sequence as retaining the last `capacity` entries of everything at
/// once. The helper step behind `lemma_window_is_fifo_suffix`.
proof fn lemma_push_then_suffix(s: Seq<u64>, pushed: Seq<u64>, capacity: int)
    requires
        s.len() <= capacity,
        capacity >= 1,
        pushed.len() >= 1,
    ensures
        last_within(
            window_push(s, capacity, pushed[0]) + pushed.drop_first(),
            capacity,
        ) == last_within(s + pushed, capacity),
{
    if s.len() < capacity {
        assert(window_push(s, capacity, pushed[0]) + pushed.drop_first() =~= s + pushed);
    } else {
        assert(window_push(s, capacity, pushed[0]) + pushed.drop_first() =~= (s + pushed).skip(1));
        let all = s + pushed;
        let shifted = all.skip(1);
        if shifted.len() > capacity {
            assert(last_within(shifted, capacity) =~= last_within(all, capacity));
        } else {
            assert(shifted.len() == capacity);
            assert(last_within(shifted, capacity) =~= last_within(all, capacity));
        }
    }
}

/// From a fresh window, any number of appends leaves exactly the most
/// recent `capacity` samples, in their original order: after `capacity + k`
/// appends the window holds samples `k + 1` through `capacity + k`, and its
/// length never exceeds the capacity.
pub proof fn lemma_fresh_window_holds_recent_samples(
    capacity: usize,
    max_floor: u64,
    samples: Seq<(u64, u64)>,
)
    requires
        capacity >= 1,
    ensures
        spec_append_all(SpecHistoryWindow::spec_new(capacity, max_floor), samples).download_rates
            == last_within(download_parts(samples), capacity as int),
        spec_append_all(SpecHistoryWindow::spec_new(capacity, max_floor), samples).upload_rates
            == last_within(upload_parts(samples), capacity as int),
        spec_append_all(
            SpecHistoryWindow::spec_new(capacity, max_floor),
            samples,
        ).download_rates.len() == (if samples.len() <= capacity {
            samples.len()
        } else {
            capacity as nat
        }),
{
    let w = SpecHistoryWindow::spec_new(capacity, max_floor);
    lemma_window_is_fifo_suffix(w, samples);
    assert(w.download_rates + download_parts(samples) =~= download_parts(samples));
    assert(w.upload_rates + upload_parts(samples) =~= upload_parts(samples));
    assert(download_parts(samples).len() == samples.len());
}

/// Appending to an empty window makes the new sample both the head and the
/// tail of a length-one window.
pub proof fn lemma_append_to_empty(w: SpecHistoryWindow, download_rate: u64, upload_rate: u64)
    requires
        w.wf(),
        w.download_rates.len() == 0,
    ensures
        w.spec_append(download_rate, upload_rate).download_rates =~= seq![download_rate],
        w.spec_append(download_rate, upload_rate).upload_rates =~= seq![upload_rate],
{
}

/// A rate with scaling headroom added: the rate plus a tenth, clamped to
/// `u64::MAX`.
fn with_headroom(rate: u64) -> (result: u64)
    ensures
        result == headroom(rate),
{
    let wide: u128 = (rate as u128) * 11 / 10;
    if wide > u64::MAX as u128 {
        u64::MAX
    } else {
        wide as u64
    }
}

} // verus!
