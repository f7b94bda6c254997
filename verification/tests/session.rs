//! Session behavior: creation, commands, ticks and fallback.

use nbmon::app_improved::{Command, CommandAction, TickBatch};
use nbmon::stats::InterfaceStats;
use nbmon::{App, ImprovedApp, NetworkInterface};

fn iface(index: u32, name: &str, up: bool, loopback: bool) -> NetworkInterface {
    let mut i = NetworkInterface::new(index, name.to_string(), name.to_string());
    i.is_up = up;
    i.is_loopback = loopback;
    i
}

fn snapshot(index: u32, received: u64, sent: u64, at: u64) -> InterfaceStats {
    InterfaceStats {
        interface_index: index,
        bytes_sent: sent,
        bytes_received: received,
        packets_sent: 0,
        packets_received: 0,
        errors_in: 0,
        errors_out: 0,
        timestamp: Some(at),
    }
}

fn three_interface_session() -> ImprovedApp {
    let interfaces = vec![
        iface(1, "lo", true, true),
        iface(2, "eth0", true, false),
        iface(3, "wlan0", true, false),
    ];
    let initial = vec![
        Some(snapshot(1, 0, 0, 0)),
        Some(snapshot(2, 1000, 500, 0)),
        Some(snapshot(3, 0, 0, 0)),
    ];
    ImprovedApp::new(interfaces, initial, 0).unwrap()
}

#[test]
fn session_creation_computes_active_subset() {
    let app = three_interface_session();
    assert_eq!(app.active_interfaces, vec![1, 2]);
    assert_eq!(app.current_interface_idx, 0);
    assert!(!app.should_quit());
    assert_eq!(app.current_interface().index, 2);
    assert_eq!(app.current_interface_display_info(), (1, 2));
    assert_eq!(app.histories.len(), 3);
    assert!(app.download_history().is_empty());
}

#[test]
fn session_creation_fails_without_active_interfaces() {
    let interfaces = vec![iface(1, "lo", true, true), iface(2, "eth0", false, false)];
    let err = ImprovedApp::new(interfaces, vec![None, None], 0).unwrap_err();
    assert_eq!(err.message_payload(), "No active network interfaces found");
}

#[test]
fn failed_initial_read_becomes_baseline() {
    let interfaces = vec![iface(2, "eth0", true, false)];
    let app = ImprovedApp::new(interfaces, vec![None], 555).unwrap();
    assert_eq!(app.interface_stats[0].bytes_received, 0);
    assert_eq!(app.interface_stats[0].timestamp, Some(555));
    assert_eq!(app.interface_stats[0].interface_index, 2);
}

#[test]
fn tick_appends_samples_and_stores_snapshots() {
    let mut app = three_interface_session();
    let batch = TickBatch::Parallel(vec![
        snapshot(1, 100, 100, 1000),
        snapshot(2, 3000, 1500, 1000),
        snapshot(3, 500, 0, 1000),
    ]);
    app.update_stats(batch, 1000);
    assert_eq!(app.last_update, 1000);
    // eth0: 2000 bytes down, 1000 up over one second.
    assert_eq!(app.histories[1].download_rates, vec![2000]);
    assert_eq!(app.histories[1].upload_rates, vec![1000]);
    assert_eq!(app.interface_stats[1].bytes_received, 3000);
    // wlan0: 500 down.
    assert_eq!(app.histories[2].download_rates, vec![500]);
    // the selected interface's view follows the cursor (eth0 first).
    assert_eq!(app.download_history(), &vec![2000]);
}

#[test]
fn stale_reading_leaves_interface_untouched() {
    let mut app = three_interface_session();
    let fresh = TickBatch::Parallel(vec![
        snapshot(1, 0, 0, 1000),
        snapshot(2, 3000, 1500, 1000),
        snapshot(3, 0, 0, 1000),
    ]);
    app.update_stats(fresh, 1000);
    let stale = TickBatch::Parallel(vec![
        snapshot(1, 0, 0, 500),
        snapshot(2, 9999, 9999, 500),
        snapshot(3, 0, 0, 500),
    ]);
    app.update_stats(stale, 2000);
    // The stale snapshot neither regressed history nor the stored snapshot.
    assert_eq!(app.histories[1].download_rates, vec![2000]);
    assert_eq!(app.interface_stats[1].bytes_received, 3000);
    assert_eq!(app.last_update, 2000);
}

#[test]
fn fallback_tick_skips_unreadable_interfaces() {
    let mut app = three_interface_session();
    let batch = TickBatch::Sequential(vec![
        None,
        Some(snapshot(2, 2000, 1000, 1000)),
        None,
    ]);
    app.update_stats(batch, 1000);
    assert_eq!(app.histories[1].download_rates, vec![1000]);
    assert_eq!(app.interface_stats[1].bytes_received, 2000);
    // The unreadable interfaces kept their stored snapshots and histories.
    assert!(app.histories[2].download_rates.is_empty());
    assert_eq!(app.interface_stats[2].bytes_received, 0);
}

#[test]
fn switching_clears_only_the_new_selection() {
    let mut app = three_interface_session();
    let batch = TickBatch::Parallel(vec![
        snapshot(1, 100, 100, 1000),
        snapshot(2, 3000, 1500, 1000),
        snapshot(3, 500, 250, 1000),
    ]);
    app.update_stats(batch, 1000);
    assert_eq!(app.histories[1].download_rates, vec![2000]);
    assert_eq!(app.histories[2].download_rates, vec![500]);
    let action = app.handle_command(Command::SelectNext);
    assert_eq!(action, CommandAction::Continue);
    assert_eq!(app.current_interface_idx, 1);
    assert_eq!(app.current_interface().index, 3);
    // The newly selected window restarts; the previous one is untouched.
    assert!(app.histories[2].download_rates.is_empty());
    assert_eq!(app.histories[1].download_rates, vec![2000]);
    // Stored snapshots are kept for bandwidth continuity.
    assert_eq!(app.interface_stats[2].bytes_received, 500);
}

#[test]
fn selection_clamps_at_both_ends() {
    let mut app = three_interface_session();
    app.handle_command(Command::SelectPrevious);
    assert_eq!(app.current_interface_idx, 0);
    app.handle_command(Command::SelectNext);
    assert_eq!(app.current_interface_idx, 1);
    app.handle_command(Command::SelectNext);
    assert_eq!(app.current_interface_idx, 1);
}

#[test]
fn quit_and_update_commands() {
    let mut app = three_interface_session();
    assert_eq!(app.handle_command(Command::ForceUpdate), CommandAction::CollectNow);
    assert!(!app.should_quit());
    assert_eq!(app.handle_command(Command::Quit), CommandAction::Exit);
    assert!(app.should_quit());
}

#[test]
fn reset_history_clears_selected_window() {
    let mut app = three_interface_session();
    let batch = TickBatch::Parallel(vec![
        snapshot(1, 100, 100, 1000),
        snapshot(2, 3000, 1500, 1000),
        snapshot(3, 500, 250, 1000),
    ]);
    app.update_stats(batch, 1000);
    assert_eq!(app.handle_command(Command::ResetHistory), CommandAction::Continue);
    assert!(app.histories[1].download_rates.is_empty());
    assert_eq!(app.histories[2].download_rates, vec![500]);
    assert_eq!(app.max_download_rate(), 1048576);
}

#[test]
fn update_cadence() {
    let app = three_interface_session();
    assert!(!app.should_update(999));
    assert!(app.should_update(1000));
    assert!(app.should_update(5000));
}

#[test]
fn classic_session_updates_all_rows() {
    let interfaces = vec![
        iface(1, "lo", true, true),
        iface(2, "eth0", true, false),
    ];
    let initial = vec![Some(snapshot(1, 0, 0, 0)), Some(snapshot(2, 1000, 0, 0))];
    let mut app = App::new(interfaces, initial, 0).unwrap();
    assert!(app.bandwidth_stats.iter().all(|b| b.is_none()));
    let batch = TickBatch::Parallel(vec![
        snapshot(1, 400, 0, 2000),
        snapshot(2, 5000, 0, 2000),
    ]);
    app.update_stats(batch, 2000);
    assert_eq!(app.bandwidth_stats[0].unwrap().download_rate, 200);
    assert_eq!(app.bandwidth_stats[1].unwrap().download_rate, 2000);
    assert_eq!(app.interface_stats[1].bytes_received, 5000);
}

#[test]
fn classic_fallback_still_updates_readable_rows() {
    let interfaces = vec![
        iface(1, "lo", true, true),
        iface(2, "eth0", true, false),
        iface(3, "wlan0", true, false),
    ];
    let initial = vec![
        Some(snapshot(1, 0, 0, 0)),
        Some(snapshot(2, 0, 0, 0)),
        Some(snapshot(3, 0, 0, 0)),
    ];
    let mut app = App::new(interfaces, initial, 0).unwrap();
    // Injected framework failure: the driver re-read sequentially and one
    // interface was individually unreadable.
    let batch = TickBatch::Sequential(vec![
        Some(snapshot(1, 100, 0, 1000)),
        None,
        Some(snapshot(3, 300, 0, 1000)),
    ]);
    app.update_stats(batch, 1000);
    assert_eq!(app.bandwidth_stats[0].unwrap().download_rate, 100);
    assert!(app.bandwidth_stats[1].is_none());
    assert_eq!(app.bandwidth_stats[2].unwrap().download_rate, 300);
    assert_eq!(app.interface_stats[1].bytes_received, 0);
}

#[test]
fn classic_selection_moves() {
    let interfaces = vec![iface(1, "a", true, false), iface(2, "b", true, false)];
    let mut app = App::new(interfaces, vec![None, None], 0).unwrap();
    assert_eq!(app.handle_command(Command::SelectNext), CommandAction::Continue);
    assert_eq!(app.selected_interface, 1);
    app.handle_command(Command::SelectNext);
    assert_eq!(app.selected_interface, 1);
    app.handle_command(Command::SelectPrevious);
    assert_eq!(app.selected_interface, 0);
    app.handle_command(Command::SelectPrevious);
    assert_eq!(app.selected_interface, 0);
    assert_eq!(app.handle_command(Command::Quit), CommandAction::Exit);
    assert!(app.should_quit);
}
