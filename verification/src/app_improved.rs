//! The monitoring session.
//!
//! `ImprovedApp` owns the interface set discovered at startup, the active
//! subset, a selection cursor, the last-known snapshot and a bounded history
//! window per interface, and the update cadence. A driver loop feeds it
//! logical commands and tick batches; every state change is decided here.

use vstd::prelude::*;
use vstd::string::StringExecFns;
use crate::error::{error_payload, AppError};
use crate::history::{HistoryWindow, SpecHistoryWindow};
use crate::interface::{spec_is_active, NetworkInterface};
use crate::stats::{spec_baseline, spec_calculate_bandwidth, InterfaceStats};

verus! {

/// History capacity: one sample per second for a one-minute window.
pub const HISTORY_SIZE: usize = 60;

/// Update cadence in milliseconds.
pub const UPDATE_INTERVAL_MILLIS: u64 = 1000;

/// Running-maximum floor: one mebibyte per second, so an idle link still
/// gets a sane graph scale.
pub const DEFAULT_MAX_RATE: u64 = 1048576;

/// One logical input command, decoupled from any input device encoding.
#[derive(Debug, Clone, Copy, PartialEq, Eq)]
pub enum Command {
    SelectPrevious,
    SelectNext,
    ForceUpdate,
    ResetHistory,
    Quit,
}

/// What the session asks the driver to do after handling a command.
#[derive(Debug, Clone, Copy, PartialEq, Eq)]
pub enum CommandAction {
    /// Nothing beyond the state change.
    Continue,
    /// Collect counters now and feed the batch back through `update_stats`.
    CollectNow,
    /// Leave the driver loop.
    Exit,
}

/// One tick's collection outcome, as the driver hands it in.
pub enum TickBatch {
    /// The concurrent collection completed: one snapshot per interface, in
    /// set order.
    Parallel(Vec<InterfaceStats>),
    /// The concurrent collection failed as a whole and the driver fell back
    /// to sequential reads: one outcome per interface, `None` where that
    /// interface's read failed.
    Sequential(Vec<Option<InterfaceStats>>),
}

/// The batch carries exactly one entry per interface of an `n`-interface set.
pub open spec fn batch_covers(batch: TickBatch, n: int) -> bool {
    match batch {
        TickBatch::Parallel(v) => v@.len() == n,
        TickBatch::Sequential(v) => v@.len() == n,
    }
}

/// The snapshot the batch carries for position `i`, if any.
pub open spec fn batch_reading(batch: TickBatch, i: int) -> Option<InterfaceStats> {
    match batch {
        TickBatch::Parallel(v) => if 0 <= i < v@.len() {
            Some(v@[i])
        } else {
            None
        },
        TickBatch::Sequential(v) => if 0 <= i < v@.len() {
            v@[i]
        } else {
            None
        },
    }
}

/// One interface's part of a tick: a fresh, strictly newer snapshot yields a
/// derived sample appended to the history and replaces the stored snapshot;
/// a missing or stale reading leaves both history and stored snapshot
/// untouched — never a zero or fabricated sample.
pub open spec fn tick_step_ok(
    reading: Option<InterfaceStats>,
    old_stats: InterfaceStats,
    old_hist: SpecHistoryWindow,
    new_stats: InterfaceStats,
    new_hist: SpecHistoryWindow,
) -> bool {
    match reading {
        Some(s) => match spec_calculate_bandwidth(s, old_stats) {
            Some(b) => new_stats == s && new_hist == old_hist.spec_append(
                b.download_rate,
                b.upload_rate,
            ),
            None => new_stats == old_stats && new_hist == old_hist,
        },
        None => new_stats == old_stats && new_hist == old_hist,
    }
}

/// Within one interface, snapshots are applied in strictly increasing
/// capture order: a tick step never moves the stored timestamp backwards,
/// and any actual replacement is strictly newer. A stale or missing reading
/// is discarded rather than allowed to regress history.
pub proof fn lemma_tick_step_preserves_time_order(
    reading: Option<InterfaceStats>,
    old_stats: InterfaceStats,
    old_hist: SpecHistoryWindow,
    new_stats: InterfaceStats,
    new_hist: SpecHistoryWindow,
)
    requires
        tick_step_ok(reading, old_stats, old_hist, new_stats, new_hist),
        old_stats.timestamp is Some,
    ensures
        new_stats.timestamp is Some,
        new_stats.timestamp.unwrap() >= old_stats.timestamp.unwrap(),
        new_stats != old_stats ==> new_stats.timestamp.unwrap() > old_stats.timestamp.unwrap(),
{
}

/// Both sessions hold the same history windows.
pub open spec fn histories_unchanged(a: ImprovedApp, b: ImprovedApp) -> bool {
    &&& b.histories@.len() == a.histories@.len()
    &&& forall|j: int|
        0 <= j < a.histories@.len() ==> (#[trigger] b.histories@[j])@ == (a.histories@[j])@
}

/// `b` holds `a`'s history windows except that the window at `i` is cleared.
pub open spec fn histories_cleared_at(a: ImprovedApp, b: ImprovedApp, i: int) -> bool {
    &&& b.histories@.len() == a.histories@.len()
    &&& 0 <= i < a.histories@.len()
    &&& (b.histories@[i])@ == (a.histories@[i])@.spec_clear()
    &&& forall|j: int|
        0 <= j < a.histories@.len() && j != i ==> (#[trigger] b.histories@[j])@ == (
        a.histories@[j])@
}

/// Everything outside a tick stays put: set, active subset, cursor, cadence
/// and quit flag.
pub open spec fn frame_outside_tick(a: ImprovedApp, b: ImprovedApp) -> bool {
    &&& b.interfaces == a.interfaces
    &&& b.active_interfaces == a.active_interfaces
    &&& b.current_interface_idx == a.current_interface_idx
    &&& b.update_interval == a.update_interval
    &&& b.should_quit == a.should_quit
}

/// The monitoring session: the stateful orchestrator of collection,
/// derivation, history and selection.
#[derive(Debug)]
pub struct ImprovedApp {
    /// All interfaces discovered at startup; immutable for the session.
    pub interfaces: Vec<NetworkInterface>,
    /// Positions of the active (up, non-loopback) interfaces, increasing.
    pub active_interfaces: Vec<usize>,
    /// Selection cursor into `active_interfaces`.
    pub current_interface_idx: usize,
    /// Last-known snapshot per interface, positionally aligned.
    pub interface_stats: Vec<InterfaceStats>,
    /// History window per interface, positionally aligned.
    pub histories: Vec<HistoryWindow>,
    /// Monotonic milliseconds of the last completed update.
    pub last_update: u64,
    /// Milliseconds between automatic updates.
    pub update_interval: u64,
    /// Set once a quit was requested; the driver exits at the next check.
    pub should_quit: bool,
}

impl ImprovedApp {
    /// Structural soundness: aligned vectors, a non-empty active subset of
    /// in-range, genuinely active, strictly increasing positions, a cursor
    /// inside the subset, and well-formed windows.
    pub open spec fn wf(&self) -> bool {
        &&& self.interface_stats@.len() == self.interfaces@.len()
        &&& self.histories@.len() == self.interfaces@.len()
        &&& self.active_interfaces@.len() >= 1
        &&& forall|k: int|
            0 <= k < self.active_interfaces@.len() ==> (#[trigger] self.active_interfaces@[k])
                < self.interfaces@.len()
        &&& forall|k: int|
            0 <= k < self.active_interfaces@.len() ==> spec_is_active(
                self.interfaces@[#[trigger] self.active_interfaces@[k] as int],
            )
        &&& forall|k1: int, k2: int|
            0 <= k1 < k2 < self.active_interfaces@.len() ==> (
            #[trigger] self.active_interfaces@[k1]) < (#[trigger] self.active_interfaces@[k2])
        &&& self.current_interface_idx < self.active_interfaces@.len()
        &&& forall|k: int| 0 <= k < self.histories@.len() ==> (#[trigger] self.histories@[k])@.wf()
    }

    /// The position of the selected interface in the full set.
    pub open spec fn spec_selected(&self) -> int {
        self.active_interfaces@[self.current_interface_idx as int] as int
    }

    /// A fresh session over the discovered interface set. The active subset
    /// is computed once here; creation fails exactly when it is empty.
    /// Initial readings stand in for the first snapshot per interface; a
    /// failed initial read (`None`) becomes a zero-valued baseline captured
    /// at `now` rather than an error.
    pub fn new(
        interfaces: Vec<NetworkInterface>,
        initial_stats: Vec<Option<InterfaceStats>>,
        now: u64,
    ) -> (result: Result<ImprovedApp, AppError>)
        requires
            initial_stats@.len() == interfaces@.len(),
        ensures
            result is Ok <==> (exists|i: int|
                0 <= i < interfaces@.len() && spec_is_active(#[trigger] interfaces@[i])),
            result is Err ==> result->Err_0 is NetworkInterface && error_payload(result->Err_0)
                == "No active network interfaces found"@,
            result is Ok ==> result->Ok_0.wf(),
            result is Ok ==> result->Ok_0.interfaces == interfaces,
            result is Ok ==> (forall|p: int|
                0 <= p < interfaces@.len() && spec_is_active(#[trigger] interfaces@[p]) ==> (
                exists|k: int|
                    0 <= k < result->Ok_0.active_interfaces@.len() && (
                    #[trigger] result->Ok_0.active_interfaces@[k]) == p)),
            result is Ok ==> result->Ok_0.current_interface_idx == 0,
            result is Ok ==> result->Ok_0.last_update == now,
            result is Ok ==> result->Ok_0.update_interval == UPDATE_INTERVAL_MILLIS,
            result is Ok ==> !result->Ok_0.should_quit,
            result is Ok ==> (forall|i: int|
                0 <= i < interfaces@.len() ==> result->Ok_0.interface_stats@[i] == (
                if (#[trigger] initial_stats@[i]) is Some {
                    initial_stats@[i]->Some_0
                } else {
                    spec_baseline(interfaces@[i].index, now)
                })),
            result is Ok ==> (forall|i: int|
                0 <= i < interfaces@.len() ==> (#[trigger] result->Ok_0.histories@[i])@
                    == SpecHistoryWindow::spec_new(HISTORY_SIZE, DEFAULT_MAX_RATE)),
    {
        let n = interfaces.len();
        let mut active_interfaces: Vec<usize> = Vec::new();
        let mut i: usize = 0;
        while i < n
            invariant
                i <= n,
                n == interfaces@.len(),
                forall|k: int|
                    0 <= k < active_interfaces@.len() ==> (#[trigger] active_interfaces@[k]) < i
                        && spec_is_active(interfaces@[active_interfaces@[k] as int]),
                forall|k1: int, k2: int|
                    0 <= k1 < k2 < active_interfaces@.len() ==> (
                    #[trigger] active_interfaces@[k1]) < (#[trigger] active_interfaces@[k2]),
                forall|p: int|
                    0 <= p < i && spec_is_active(#[trigger] interfaces@[p]) ==> (exists|k: int|
                        0 <= k < active_interfaces@.len() && (#[trigger] active_interfaces@[k])
                            == p),
            decreases n - i,
        {
            let ghost old_active = active_interfaces@;
            let iface = &interfaces[i];
            if iface.is_up && !iface.is_loopback {
                active_interfaces.push(i);
            }
            proof {
                assert forall|p: int|
                    0 <= p < i + 1 && spec_is_active(#[trigger] interfaces@[p]) implies (
                exists|k: int|
                    0 <= k < active_interfaces@.len() && (#[trigger] active_interfaces@[k])
                        == p) by {
                    if p == i {
                        assert(active_interfaces@[active_interfaces@.len() - 1] == p);
                    } else {
                        let k = choose|k: int|
                            0 <= k < old_active.len() && (#[trigger] old_active[k]) == p;
                        assert(active_interfaces@[k] == p);
                    }
                }
            }
            i = i + 1;
        }
        if active_interfaces.len() == 0 {
            proof {
                assert forall|p: int|
                    0 <= p < interfaces@.len() implies !spec_is_active(
                    #[trigger] interfaces@[p],
                ) by {
                    if spec_is_active(interfaces@[p]) {
                        let k = choose|k: int|
                            0 <= k < active_interfaces@.len() && (
                            #[trigger] active_interfaces@[k]) == p;
                    }
                }
            }
            return Err(
                AppError::NetworkInterface(
                    String::from_str("No active network interfaces found"),
                ),
            );
        }
        let mut interface_stats: Vec<InterfaceStats> = Vec::new();
        let mut histories: Vec<HistoryWindow> = Vec::new();
        let mut j: usize = 0;
        while j < n
            invariant
                j <= n,
                n == interfaces@.len(),
                initial_stats@.len() == n,
                interface_stats@.len() == j,
                histories@.len() == j,
                forall|k: int|
                    0 <= k < j ==> interface_stats@[k] == (if (#[trigger] initial_stats@[k])
                        is Some {
                        initial_stats@[k]->Some_0
                    } else {
                        spec_baseline(interfaces@[k].index, now)
                    }),
                forall|k: int|
                    0 <= k < j ==> (#[trigger] histories@[k])@ == SpecHistoryWindow::spec_new(
                        HISTORY_SIZE,
                        DEFAULT_MAX_RATE,
                    ),
            decreases n - j,
        {
            match initial_stats[j] {
                Some(stats) => {
                    interface_stats.push(stats);
                },
                None => {
                    interface_stats.push(InterfaceStats::new(interfaces[j].index, now));
                },
            }
            histories.push(HistoryWindow::new(HISTORY_SIZE, DEFAULT_MAX_RATE));
            j = j + 1;
        }
        proof {
            assert(spec_is_active(interfaces@[active_interfaces@[0] as int]));
        }
        Ok(
            ImprovedApp {
                interfaces,
                active_interfaces,
                current_interface_idx: 0,
                interface_stats,
                histories,
                last_update: now,
                update_interval: UPDATE_INTERVAL_MILLIS,
                should_quit: false,
            },
        )
    }

    /// The selected interface.
    pub fn current_interface(&self) -> (result: &NetworkInterface)
        requires
            self.wf(),
        ensures
            *result == self.interfaces@[self.spec_selected()],
    {
        let interface_idx = self.active_interfaces[self.current_interface_idx];
        &self.interfaces[interface_idx]
    }

    /// The selected interface's last-known snapshot.
    pub fn current_interface_stats(&self) -> (result: &InterfaceStats)
        requires
            self.wf(),
        ensures
            *result == self.interface_stats@[self.spec_selected()],
    {
        let interface_idx = self.active_interfaces[self.current_interface_idx];
        &self.interface_stats[interface_idx]
    }

    /// Read-only view of the selected interface's download-rate history,
    /// oldest first.
    pub fn download_history(&self) -> (result: &Vec<u64>)
        requires
            self.wf(),
        ensures
            result@ == (self.histories@[self.spec_selected()])@.download_rates,
    {
        let interface_idx = self.active_interfaces[self.current_interface_idx];
        &self.histories[interface_idx].download_rates
    }

    /// Read-only view of the selected interface's upload-rate history,
    /// oldest first.
    pub fn upload_history(&self) -> (result: &Vec<u64>)
        requires
            self.wf(),
        ensures
            result@ == (self.histories@[self.spec_selected()])@.upload_rates,
    {
        let interface_idx = self.active_interfaces[self.current_interface_idx];
        &self.histories[interface_idx].upload_rates
    }

    /// The selected interface's running maximum download rate, for scaling.
    pub fn max_download_rate(&self) -> (result: u64)
        requires
            self.wf(),
        ensures
            result == (self.histories@[self.spec_selected()])@.max_download_rate,
    {
        let interface_idx = self.active_interfaces[self.current_interface_idx];
        self.histories[interface_idx].max_download_rate
    }

    /// The selected interface's running maximum upload rate, for scaling.
    pub fn max_upload_rate(&self) -> (result: u64)
        requires
            self.wf(),
        ensures
            result == (self.histories@[self.spec_selected()])@.max_upload_rate,
    {
        let interface_idx = self.active_interfaces[self.current_interface_idx];
        self.histories[interface_idx].max_upload_rate
    }

    /// Whether a quit was requested.
    pub fn should_quit(&self) -> (result: bool)
        ensures
            result == self.should_quit,
    {
        self.should_quit
    }

    /// One-based position of the selection among the active interfaces, and
    /// their count, for display.
    pub fn current_interface_display_info(&self) -> (result: (usize, usize))
        requires
            self.wf(),
        ensures
            result.0 == self.current_interface_idx + 1,
            result.1 == self.active_interfaces@.len(),
    {
        let count = self.active_interfaces.len();
        (self.current_interface_idx + 1, count)
    }

    /// The selected interface's position in the full set, or a configuration
    /// error when the cursor is out of bounds (which `wf` rules out; this
    /// guard mirrors the defensive access).
    pub fn get_current_interface_index(&self) -> (result: Result<usize, AppError>)
        ensures
            self.current_interface_idx < self.active_interfaces@.len() ==> result is Ok
                && result->Ok_0 == self.active_interfaces@[self.current_interface_idx as int],
            self.current_interface_idx >= self.active_interfaces@.len() ==> result is Err
                && result->Err_0 is Configuration && error_payload(result->Err_0)
                == "Current interface index is out of bounds"@,
    {
        if self.current_interface_idx >= self.active_interfaces.len() {
            return Err(
                AppError::Configuration(
                    String::from_str("Current interface index is out of bounds"),
                ),
            );
        }
        Ok(self.active_interfaces[self.current_interface_idx])
    }

    /// Whether the automatic update cadence has elapsed at `now`.
    pub fn should_update(&self, now: u64) -> (result: bool)
        ensures
            result == (now >= self.last_update + self.update_interval),
    {
        if now < self.last_update {
            false
        } else {
            now - self.last_update >= self.update_interval
        }
    }

    /// Clears the selected interface's history window: both sequences
    /// emptied and its running maxima back at the floor. Other interfaces'
    /// windows, and every stored snapshot, are untouched.
    pub fn clear_history(&mut self)
        requires
            old(self).wf(),
        ensures
            final(self).wf(),
            frame_outside_tick(*old(self), *final(self)),
            final(self).interface_stats == old(self).interface_stats,
            final(self).last_update == old(self).last_update,
            histories_cleared_at(*old(self), *final(self), old(self).spec_selected()),
    {
        let interface_idx = self.active_interfaces[self.current_interface_idx];
        self.histories[interface_idx].clear();
    }

    /// Moves the selection to the previous active interface, clamped at the
    /// first, and clears the newly selected interface's history window so
    /// its displayed series restarts. Stored snapshots are kept: bandwidth
    /// continuity at the next tick is preserved.
    pub fn switch_to_previous_interface(&mut self)
        requires
            old(self).wf(),
        ensures
            final(self).wf(),
            final(self).interfaces == old(self).interfaces,
            final(self).active_interfaces == old(self).active_interfaces,
            final(self).interface_stats == old(self).interface_stats,
            final(self).last_update == old(self).last_update,
            final(self).update_interval == old(self).update_interval,
            final(self).should_quit == old(self).should_quit,
            old(self).current_interface_idx == 0 ==> final(self).current_interface_idx == 0
                && histories_unchanged(*old(self), *final(self)),
            old(self).current_interface_idx > 0 ==> final(self).current_interface_idx == old(self).current_interface_idx - 1 && histories_cleared_at(
                *old(self),
                *final(self),
                final(self).spec_selected(),
            ),
    {
        if self.current_interface_idx > 0 {
            self.current_interface_idx = self.current_interface_idx - 1;
            self.clear_history();
        }
    }

    /// Moves the selection to the next active interface, clamped at the
    /// last, and clears the newly selected interface's history window so its
    /// displayed series restarts. Stored snapshots are kept.
    pub fn switch_to_next_interface(&mut self)
        requires
            old(self).wf(),
        ensures
            final(self).wf(),
            final(self).interfaces == old(self).interfaces,
            final(self).active_interfaces == old(self).active_interfaces,
            final(self).interface_stats == old(self).interface_stats,
            final(self).last_update == old(self).last_update,
            final(self).update_interval == old(self).update_interval,
            final(self).should_quit == old(self).should_quit,
            old(self).current_interface_idx + 1 >= old(self).active_interfaces@.len() ==> final(self).current_interface_idx == old(self).current_interface_idx && histories_unchanged(
                *old(self),
                *final(self),
            ),
            old(self).current_interface_idx + 1 < old(self).active_interfaces@.len() ==> final(self).current_interface_idx == old(self).current_interface_idx + 1
                && histories_cleared_at(
                *old(self),
                *final(self),
                final(self).spec_selected(),
            ),
    {
        if self.current_interface_idx < self.active_interfaces.len() - 1 {
            self.current_interface_idx = self.current_interface_idx + 1;
            self.clear_history();
        }
    }

    /// Handles one logical command: a selection move mutates the cursor and
    /// clears the newly selected window, a reset clears the selected window,
    /// a quit raises the flag, and a forced update asks the driver to
    /// collect now.
    pub fn handle_command(&mut self, command: Command) -> (action: CommandAction)
        requires
            old(self).wf(),
        ensures
            final(self).wf(),
            final(self).interfaces == old(self).interfaces,
            final(self).active_interfaces == old(self).active_interfaces,
            final(self).interface_stats == old(self).interface_stats,
            final(self).last_update == old(self).last_update,
            final(self).update_interval == old(self).update_interval,
            command == Command::Quit ==> action == CommandAction::Exit && final(self).should_quit
                && final(self).current_interface_idx == old(self).current_interface_idx
                && histories_unchanged(*old(self), *final(self)),
            command == Command::ForceUpdate ==> action == CommandAction::CollectNow && final(self).should_quit == old(self).should_quit && final(self).current_interface_idx == old(self).current_interface_idx && histories_unchanged(*old(self), *final(self)),
            command == Command::ResetHistory ==> action == CommandAction::Continue && final(self).should_quit == old(self).should_quit && final(self).current_interface_idx == old(self).current_interface_idx && histories_cleared_at(
                *old(self),
                *final(self),
                old(self).spec_selected(),
            ),
            command == Command::SelectPrevious ==> action == CommandAction::Continue && final(self).should_quit == old(self).should_quit && (if old(self).current_interface_idx == 0 {
                final(self).current_interface_idx == 0 && histories_unchanged(
                    *old(self),
                    *final(self),
                )
            } else {
                final(self).current_interface_idx == old(self).current_interface_idx - 1
                    && histories_cleared_at(*old(self), *final(self), final(self).spec_selected())
            }),
            command == Command::SelectNext ==> action == CommandAction::Continue && final(self).should_quit == old(self).should_quit && (if old(self).current_interface_idx + 1
                >= old(self).active_interfaces@.len() {
                final(self).current_interface_idx == old(self).current_interface_idx
                    && histories_unchanged(*old(self), *final(self))
            } else {
                final(self).current_interface_idx == old(self).current_interface_idx + 1
                    && histories_cleared_at(*old(self), *final(self), final(self).spec_selected())
            }),
    {
        match command {
            Command::Quit => {
                self.should_quit = true;
                CommandAction::Exit
            },
            Command::SelectPrevious => {
                self.switch_to_previous_interface();
                CommandAction::Continue
            },
            Command::SelectNext => {
                self.switch_to_next_interface();
                CommandAction::Continue
            },
            Command::ForceUpdate => {
                CommandAction::CollectNow
            },
            Command::ResetHistory => {
                self.clear_history();
                CommandAction::Continue
            },
        }
    }
}

impl ImprovedApp {
    /// Applies one interface's fresh reading: derives a sample against the
    /// stored snapshot, appends it to that interface's window and stores the
    /// new snapshot — or leaves both untouched when the reading is stale.
    fn apply_reading(&mut self, i: usize, reading: InterfaceStats)
        requires
            old(self).wf(),
            i < old(self).interfaces@.len(),
        ensures
            final(self).wf(),
            frame_outside_tick(*old(self), *final(self)),
            final(self).last_update == old(self).last_update,
            final(self).interface_stats@.len() == old(self).interface_stats@.len(),
            final(self).histories@.len() == old(self).histories@.len(),
            tick_step_ok(
                Some(reading),
                old(self).interface_stats@[i as int],
                (old(self).histories@[i as int])@,
                final(self).interface_stats@[i as int],
                (final(self).histories@[i as int])@,
            ),
            forall|j: int|
                0 <= j < old(self).interface_stats@.len() && j != i
                    ==> final(self).interface_stats@[j] == old(self).interface_stats@[j],
            forall|j: int|
                0 <= j < old(self).histories@.len() && j != i ==> (
                #[trigger] final(self).histories@[j])@ == (old(self).histories@[j])@,
    {
        let bandwidth = reading.calculate_bandwidth(&self.interface_stats[i]);
        match bandwidth {
            Some(sample) => {
                self.histories[i].append(sample.download_rate, sample.upload_rate);
                self.interface_stats[i] = reading;
            },
            None => {},
        }
    }

    /// One tick's application: pairs every delivered snapshot with that
    /// interface's stored one, appends the derived samples to the
    /// per-interface windows, stores the fresh snapshots, and records `now`
    /// as the update time. An interface whose reading is missing (its read
    /// failed) or not strictly newer is left untouched this cycle.
    pub fn update_stats(&mut self, batch: TickBatch, now: u64)
        requires
            old(self).wf(),
            batch_covers(batch, old(self).interfaces@.len() as int),
        ensures
            final(self).wf(),
            frame_outside_tick(*old(self), *final(self)),
            final(self).last_update == now,
            final(self).interface_stats@.len() == old(self).interface_stats@.len(),
            final(self).histories@.len() == old(self).histories@.len(),
            forall|i: int|
                0 <= i < old(self).interfaces@.len() ==> tick_step_ok(
                    batch_reading(batch, i),
                    old(self).interface_stats@[i],
                    (#[trigger] old(self).histories@[i])@,
                    final(self).interface_stats@[i],
                    (final(self).histories@[i])@,
                ),
    {
        let ghost initial = *self;
        let n = self.interfaces.len();
        match &batch {
            TickBatch::Parallel(readings) => {
                let mut i: usize = 0;
                while i < n
                    invariant
                        i <= n,
                        n == initial.interfaces@.len(),
                        initial.wf(),
                        readings@.len() == n,
                        batch == TickBatch::Parallel(*readings),
                        self.wf(),
                        frame_outside_tick(initial, *self),
                        self.last_update == initial.last_update,
                        self.interface_stats@.len() == n,
                        self.histories@.len() == n,
                        forall|j: int|
                            0 <= j < i ==> tick_step_ok(
                                batch_reading(batch, j),
                                initial.interface_stats@[j],
                                (#[trigger] initial.histories@[j])@,
                                self.interface_stats@[j],
                                (self.histories@[j])@,
                            ),
                        forall|j: int|
                            i <= j < n ==> self.interface_stats@[j]
                                == initial.interface_stats@[j],
                        forall|j: int|
                            i <= j < n ==> (#[trigger] self.histories@[j])@ == (
                            initial.histories@[j])@,
                    decreases n - i,
                {
                    let reading = readings[i];
                    self.apply_reading(i, reading);
                    proof {
                        assert(batch_reading(batch, i as int) == Some(reading));
                    }
                    i = i + 1;
                }
            },
            TickBatch::Sequential(readings) => {
                let mut i: usize = 0;
                while i < n
                    invariant
                        i <= n,
                        n == initial.interfaces@.len(),
                        initial.wf(),
                        readings@.len() == n,
                        batch == TickBatch::Sequential(*readings),
                        self.wf(),
                        frame_outside_tick(initial, *self),
                        self.last_update == initial.last_update,
                        self.interface_stats@.len() == n,
                        self.histories@.len() == n,
                        forall|j: int|
                            0 <= j < i ==> tick_step_ok(
                                batch_reading(batch, j),
                                initial.interface_stats@[j],
                                (#[trigger] initial.histories@[j])@,
                                self.interface_stats@[j],
                                (self.histories@[j])@,
                            ),
                        forall|j: int|
                            i <= j < n ==> self.interface_stats@[j]
                                == initial.interface_stats@[j],
                        forall|j: int|
                            i <= j < n ==> (#[trigger] self.histories@[j])@ == (
                            initial.histories@[j])@,
                    decreases n - i,
                {
                    match readings[i] {
                        Some(reading) => {
                            self.apply_reading(i, reading);
                            proof {
                                assert(batch_reading(batch, i as int) == Some(reading));
                            }
                        },
                        None => {
                            proof {
                                assert(batch_reading(batch, i as int) is None);
                            }
                        },
                    }
                    i = i + 1;
                }
            },
        }
        self.last_update = now;
    }
}

} // verus!
