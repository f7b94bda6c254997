//! The classic list-style session.
//!
//! `App` shows every discovered interface at once: it keeps one last-known
//! snapshot and one optional derived sample per interface, and a selection
//! cursor over the full set. Its tick prefers the concurrent collection and
//! falls back to per-interface sequential outcomes when the concurrent path
//! fails as a whole; a single interface's failed read only skips that
//! interface for the cycle.

use vstd::prelude::*;
use crate::app_improved::{batch_covers, batch_reading, Command, CommandAction, TickBatch};
use crate::error::AppError;
use crate::stats::{spec_baseline, spec_calculate_bandwidth, BandwidthStats, InterfaceStats};
use crate::interface::NetworkInterface;

verus! {

/// One interface's part of a classic tick: a fresh, strictly newer snapshot
/// is stored and its derived sample published; a missing or stale reading
/// leaves both the stored snapshot and the published sample untouched.
pub open spec fn classic_step_ok(
    reading: Option<InterfaceStats>,
    old_stats: InterfaceStats,
    old_sample: Option<BandwidthStats>,
    new_stats: InterfaceStats,
    new_sample: Option<BandwidthStats>,
) -> bool {
    match reading {
        Some(s) => match spec_calculate_bandwidth(s, old_stats) {
            Some(b) => new_stats == s && new_sample == Some(b),
            None => new_stats == old_stats && new_sample == old_sample,
        },
        None => new_stats == old_stats && new_sample == old_sample,
    }
}

/// The classic session: one row per discovered interface.
#[derive(Debug)]
pub struct App {
    /// All interfaces discovered at startup; immutable for the session.
    pub interfaces: Vec<NetworkInterface>,
    /// Last-known snapshot per interface, positionally aligned.
    pub interface_stats: Vec<InterfaceStats>,
    /// Latest derived sample per interface, none before the first tick.
    pub bandwidth_stats: Vec<Option<BandwidthStats>>,
    /// Selection cursor over the full interface set.
    pub selected_interface: usize,
    /// Monotonic milliseconds of the last completed update.
    pub last_update: u64,
    /// Milliseconds between automatic updates.
    pub update_interval: u64,
    /// Set once a quit was requested.
    pub should_quit: bool,
}

impl App {
    /// Structural soundness: aligned vectors and an in-range cursor.
    pub open spec fn wf(&self) -> bool {
        &&& self.interface_stats@.len() == self.interfaces@.len()
        &&& self.bandwidth_stats@.len() == self.interfaces@.len()
        &&& self.interfaces@.len() == 0 ==> self.selected_interface == 0
        &&& self.interfaces@.len() > 0 ==> self.selected_interface < self.interfaces@.len()
    }

    /// A fresh classic session. Initial readings stand in for the first
    /// snapshot per interface; a failed initial read becomes a zero-valued
    /// baseline captured at `now`. Creation never fails: an empty set shows
    /// an empty list.
    pub fn new(
        interfaces: Vec<NetworkInterface>,
        initial_stats: Vec<Option<InterfaceStats>>,
        now: u64,
    ) -> (result: Result<App, AppError>)
        requires
            initial_stats@.len() == interfaces@.len(),
        ensures
            result is Ok,
            result->Ok_0.wf(),
            result->Ok_0.interfaces == interfaces,
            result->Ok_0.selected_interface == 0,
            result->Ok_0.last_update == now,
            result->Ok_0.update_interval == 1000,
            !result->Ok_0.should_quit,
            forall|i: int|
                0 <= i < interfaces@.len() ==> result->Ok_0.interface_stats@[i] == (if (
                #[trigger] initial_stats@[i]) is Some {
                    initial_stats@[i]->Some_0
                } else {
                    spec_baseline(interfaces@[i].index, now)
                }),
            forall|i: int|
                0 <= i < interfaces@.len() ==> (#[trigger] result->Ok_0.bandwidth_stats@[i])
                    is None,
    {
        let n = interfaces.len();
        let mut interface_stats: Vec<InterfaceStats> = Vec::new();
        let mut bandwidth_stats: Vec<Option<BandwidthStats>> = Vec::new();
        let mut i: usize = 0;
        while i < n
            invariant
                i <= n,
                n == interfaces@.len(),
                initial_stats@.len() == n,
                interface_stats@.len() == i,
                bandwidth_stats@.len() == i,
                forall|k: int|
                    0 <= k < i ==> interface_stats@[k] == (if (#[trigger] initial_stats@[k])
                        is Some {
                        initial_stats@[k]->Some_0
                    } else {
                        spec_baseline(interfaces@[k].index, now)
                    }),
                forall|k: int| 0 <= k < i ==> (#[trigger] bandwidth_stats@[k]) is None,
            decreases n - i,
        {
            match initial_stats[i] {
                Some(stats) => {
                    interface_stats.push(stats);
                },
                None => {
                    interface_stats.push(InterfaceStats::new(interfaces[i].index, now));
                },
            }
            bandwidth_stats.push(None);
            i = i + 1;
        }
        Ok(
            App {
                interfaces,
                interface_stats,
                bandwidth_stats,
                selected_interface: 0,
                last_update: now,
                update_interval: 1000,
                should_quit: false,
            },
        )
    }

    /// One tick's application. A `Parallel` batch is the concurrent path's
    /// complete result; a `Sequential` batch is the per-interface fallback
    /// after a collection-framework failure, where a `None` marks an
    /// individually unreadable interface that is skipped this cycle. Either
    /// way every delivered, strictly newer snapshot is stored and its
    /// derived sample published, and `now` becomes the update time.
    pub fn update_stats(&mut self, batch: TickBatch, now: u64)
        requires
            old(self).wf(),
            batch_covers(batch, old(self).interfaces@.len() as int),
        ensures
            final(self).wf(),
            final(self).interfaces == old(self).interfaces,
            final(self).selected_interface == old(self).selected_interface,
            final(self).update_interval == old(self).update_interval,
            final(self).should_quit == old(self).should_quit,
            final(self).last_update == now,
            final(self).interface_stats@.len() == old(self).interface_stats@.len(),
            final(self).bandwidth_stats@.len() == old(self).bandwidth_stats@.len(),
            forall|i: int|
                0 <= i < old(self).interfaces@.len() ==> classic_step_ok(
                    batch_reading(batch, i),
                    old(self).interface_stats@[i],
                    #[trigger] old(self).bandwidth_stats@[i],
                    final(self).interface_stats@[i],
                    final(self).bandwidth_stats@[i],
                ),
    {
        let ghost initial = *self;
        let n = self.interfaces.len();
        match &batch {
            TickBatch::Parallel(readings) => {
                let mut i: usize = 0;
                while i < n
                    invariant
                        i <= n,
                        n == initial.interfaces@.len(),
                        initial.wf(),
                        readings@.len() == n,
                        batch == TickBatch::Parallel(*readings),
                        self.wf(),
                        self.interfaces == initial.interfaces,
                        self.selected_interface == initial.selected_interface,
                        self.update_interval == initial.update_interval,
                        self.should_quit == initial.should_quit,
                        self.last_update == initial.last_update,
                        self.interface_stats@.len() == n,
                        self.bandwidth_stats@.len() == n,
                        forall|j: int|
                            0 <= j < i ==> classic_step_ok(
                                batch_reading(batch, j),
                                initial.interface_stats@[j],
                                #[trigger] initial.bandwidth_stats@[j],
                                self.interface_stats@[j],
                                self.bandwidth_stats@[j],
                            ),
                        forall|j: int|
                            i <= j < n ==> self.interface_stats@[j]
                                == initial.interface_stats@[j],
                        forall|j: int|
                            i <= j < n ==> #[trigger] self.bandwidth_stats@[j]
                                == initial.bandwidth_stats@[j],
                    decreases n - i,
                {
                    let reading = readings[i];
                    self.apply_reading(i, reading);
                    proof {
                        assert(batch_reading(batch, i as int) == Some(reading));
                    }
                    i = i + 1;
                }
            },
            TickBatch::Sequential(readings) => {
                let mut i: usize = 0;
                while i < n
                    invariant
                        i <= n,
                        n == initial.interfaces@.len(),
                        initial.wf(),
                        readings@.len() == n,
                        batch == TickBatch::Sequential(*readings),
                        self.wf(),
                        self.interfaces == initial.interfaces,
                        self.selected_interface == initial.selected_interface,
                        self.update_interval == initial.update_interval,
                        self.should_quit == initial.should_quit,
                        self.last_update == initial.last_update,
                        self.interface_stats@.len() == n,
                        self.bandwidth_stats@.len() == n,
                        forall|j: int|
                            0 <= j < i ==> classic_step_ok(
                                batch_reading(batch, j),
                                initial.interface_stats@[j],
                                #[trigger] initial.bandwidth_stats@[j],
                                self.interface_stats@[j],
                                self.bandwidth_stats@[j],
                            ),
                        forall|j: int|
                            i <= j < n ==> self.interface_stats@[j]
                                == initial.interface_stats@[j],
                        forall|j: int|
                            i <= j < n ==> #[trigger] self.bandwidth_stats@[j]
                                == initial.bandwidth_stats@[j],
                    decreases n - i,
                {
                    match readings[i] {
                        Some(reading) => {
                            self.apply_reading(i, reading);
                            proof {
                                assert(batch_reading(batch, i as int) == Some(reading));
                            }
                        },
                        None => {
                            proof {
                                assert(batch_reading(batch, i as int) is None);
                            }
                        },
                    }
                    i = i + 1;
                }
            },
        }
        self.last_update = now;
    }

    /// Applies one interface's fresh reading: stores it and publishes the
    /// derived sample, or leaves both untouched when it is stale.
    fn apply_reading(&mut self, i: usize, reading: InterfaceStats)
        requires
            old(self).wf(),
            i < old(self).interfaces@.len(),
        ensures
            final(self).wf(),
            final(self).interfaces == old(self).interfaces,
            final(self).selected_interface == old(self).selected_interface,
            final(self).update_interval == old(self).update_interval,
            final(self).should_quit == old(self).should_quit,
            final(self).last_update == old(self).last_update,
            final(self).interface_stats@.len() == old(self).interface_stats@.len(),
            final(self).bandwidth_stats@.len() == old(self).bandwidth_stats@.len(),
            classic_step_ok(
                Some(reading),
                old(self).interface_stats@[i as int],
                old(self).bandwidth_stats@[i as int],
                final(self).interface_stats@[i as int],
                final(self).bandwidth_stats@[i as int],
            ),
            forall|j: int|
                0 <= j < old(self).interface_stats@.len() && j != i
                    ==> final(self).interface_stats@[j] == old(self).interface_stats@[j],
            forall|j: int|
                0 <= j < old(self).bandwidth_stats@.len() && j != i ==> #[trigger] final(self).bandwidth_stats@[j] == old(self).bandwidth_stats@[j],
    {
        let bandwidth = reading.calculate_bandwidth(&self.interface_stats[i]);
        match bandwidth {
            Some(sample) => {
                self.bandwidth_stats[i] = Some(sample);
                self.interface_stats[i] = reading;
            },
            None => {},
        }
    }

    /// Moves the selection one row up, clamped at the first row.
    pub fn select_previous(&mut self)
        requires
            old(self).wf(),
        ensures
            final(self).wf(),
            final(self).interfaces == old(self).interfaces,
            final(self).interface_stats == old(self).interface_stats,
            final(self).bandwidth_stats == old(self).bandwidth_stats,
            final(self).last_update == old(self).last_update,
            final(self).update_interval == old(self).update_interval,
            final(self).should_quit == old(self).should_quit,
            final(self).selected_interface == (if old(self).selected_interface > 0 {
                old(self).selected_interface - 1
            } else {
                0int
            }),
    {
        if self.selected_interface > 0 {
            self.selected_interface = self.selected_interface - 1;
        }
    }

    /// Moves the selection one row down, clamped at the last row.
    pub fn select_next(&mut self)
        requires
            old(self).wf(),
        ensures
            final(self).wf(),
            final(self).interfaces == old(self).interfaces,
            final(self).interface_stats == old(self).interface_stats,
            final(self).bandwidth_stats == old(self).bandwidth_stats,
            final(self).last_update == old(self).last_update,
            final(self).update_interval == old(self).update_interval,
            final(self).should_quit == old(self).should_quit,
            final(self).selected_interface == (if old(self).selected_interface + 1 < old(self).interfaces@.len() {
                old(self).selected_interface + 1
            } else {
                old(self).selected_interface as int
            }),
    {
        if self.interfaces.len() > 0 && self.selected_interface < self.interfaces.len() - 1 {
            self.selected_interface = self.selected_interface + 1;
        }
    }

    /// Handles one logical command: selection moves, a quit request, or a
    /// request to collect now. A history reset does not apply to this
    /// session and changes nothing.
    pub fn handle_command(&mut self, command: Command) -> (action: CommandAction)
        requires
            old(self).wf(),
        ensures
            final(self).wf(),
            final(self).interfaces == old(self).interfaces,
            final(self).interface_stats == old(self).interface_stats,
            final(self).bandwidth_stats == old(self).bandwidth_stats,
            final(self).last_update == old(self).last_update,
            final(self).update_interval == old(self).update_interval,
            command == Command::Quit ==> action == CommandAction::Exit && final(self).should_quit,
            command != Command::Quit ==> final(self).should_quit == old(self).should_quit,
            command == Command::ForceUpdate ==> action == CommandAction::CollectNow,
            command == Command::SelectPrevious ==> action == CommandAction::Continue && final(self).selected_interface == (if old(self).selected_interface > 0 {
                old(self).selected_interface - 1
            } else {
                0int
            }),
            command == Command::SelectNext ==> action == CommandAction::Continue && final(self).selected_interface == (if old(self).selected_interface + 1 < old(self).interfaces@.len() {
                old(self).selected_interface + 1
            } else {
                old(self).selected_interface as int
            }),
            command == Command::ResetHistory ==> action == CommandAction::Continue && *final(self)
                == *old(self),
    {
        match command {
            Command::Quit => {
                self.should_quit = true;
                CommandAction::Exit
            },
            Command::SelectPrevious => {
                self.select_previous();
                CommandAction::Continue
            },
            Command::SelectNext => {
                self.select_next();
                CommandAction::Continue
            },
            Command::ForceUpdate => {
                CommandAction::CollectNow
            },
            Command::ResetHistory => {
                CommandAction::Continue
            },
        }
    }
}

} // verus!
