use feos::mock_data::{
    generate_pod_kernel_logs, get_mock_cpu_history, get_mock_feos_logs, get_mock_host_info,
    get_mock_kernel_logs, get_mock_memory_history, get_mock_vms, get_new_feos_log_entries,
    tick_updates, VmStatus,
};
use feos::textfmt::{format_bytes, format_cpu_limit, format_memory, format_memory_limit, format_uptime};
use feos::tui_app::{App, CurrentView, SystemAction};
use feos::input::{handle_key, Key, Mods};

#[test]
fn test_format_bytes() {
    assert_eq!(format_bytes(0), "0 B");
    assert_eq!(format_bytes(512), "512 B");
    assert_eq!(format_bytes(1024), "1.0 KB");
    assert_eq!(format_bytes(1536), "1.5 KB");
    assert_eq!(format_bytes(1048576), "1.0 MB");
    assert_eq!(format_bytes(1073741824), "1.0 GB");
    assert_eq!(format_bytes(17179869184), "16.0 GB");
}

#[test]
fn test_mock_host_info() {
    let host_info = get_mock_host_info(0);

    assert_eq!(host_info.num_cores, 8);
    assert_eq!(host_info.ram_total, 17179869184);
    assert!(host_info.ram_unused < host_info.ram_total);
    assert!(host_info.uptime > 0);
    assert_eq!(host_info.net_interfaces.len(), 2);

    for interface in &host_info.net_interfaces {
        assert!(!interface.name.is_empty());
        assert!(!interface.mac_address.is_empty());
        assert!(!interface.ipv6_address.is_empty());
    }
}

#[test]
fn test_mock_vms() {
    let vms = get_mock_vms(0);

    assert_eq!(vms.len(), 4);

    for vm in &vms {
        assert!(!vm.uuid.is_empty());
        assert!(!vm.image_name.is_empty());
        assert!(vm.cpu_count > 0);
        assert!(vm.memory_bytes > 0);
        assert!(!vm.image_uuid.is_empty());
    }

    let statuses: Vec<_> = vms.iter().map(|vm| &vm.status).collect();
    assert!(statuses.contains(&&VmStatus::Running));
    assert!(statuses.contains(&&VmStatus::Stopped));
}

#[test]
fn test_vm_status_display() {
    assert_eq!(VmStatus::Running.as_str(), "Running");
    assert_eq!(VmStatus::Stopped.as_str(), "Stopped");
    assert_eq!(VmStatus::Starting.as_str(), "Starting");
    assert_eq!(VmStatus::Stopping.as_str(), "Stopping");
    assert_eq!(VmStatus::Error.as_str(), "Error");
}

#[test]
fn test_mock_history_data() {
    let cpu_history = get_mock_cpu_history(0);
    let memory_history = get_mock_memory_history(0);

    assert_eq!(cpu_history.len(), 60);
    assert_eq!(memory_history.len(), 60);

    for &cpu in &cpu_history {
        assert!(cpu <= 100);
    }

    for &memory in &memory_history {
        assert!(memory <= 100);
    }
}

#[test]
fn test_mock_logs() {
    let feos_logs = get_mock_feos_logs();
    let kernel_logs = get_mock_kernel_logs();

    assert!(!feos_logs.is_empty());
    assert!(!kernel_logs.is_empty());

    for log in &feos_logs {
        assert!(!log.message.is_empty());
        assert!(log.timestamp > 0);
    }

    for log in &kernel_logs {
        assert!(!log.message.is_empty());
        assert!(log.timestamp > 0);
    }
}

#[test]
fn test_tick_updates_advances() {
    let mut c: u64 = 0;
    tick_updates(&mut c);
    assert_eq!(c, 1);
    let mut m: u64 = u64::MAX;
    tick_updates(&mut m);
    assert_eq!(m, 0);
}

#[test]
fn test_streamed_log_entries() {
    let entries = get_new_feos_log_entries(3, 1000);
    assert!(!entries.is_empty());
    assert!(entries.len() <= 4);
    for e in &entries {
        assert!(e.timestamp >= 1000);
        assert!(!e.message.is_empty());
    }
}

#[test]
fn test_format_uptime_units() {
    assert_eq!(format_uptime(59), "0m");
    assert_eq!(format_uptime(60), "1m");
    assert_eq!(format_uptime(3660), "1h 1m");
    assert_eq!(format_uptime(90061), "1d 1h 1m");
}

#[test]
fn test_format_limits() {
    assert_eq!(format_memory_limit(0), "No limit");
    assert_eq!(format_memory(0), "No limit");
    assert_eq!(format_memory(1536), "1.5 KB");
    assert_eq!(format_memory_limit(536870912), "512.0 MB");
    assert_eq!(format_cpu_limit(0), "No limit");
    assert_eq!(format_cpu_limit(15), "1.5 cores");
    assert_eq!(format_cpu_limit(20), "2.0 cores");
}

#[test]
fn test_view_index_round_trip() {
    assert_eq!(CurrentView::from_index(0), CurrentView::Dashboard);
    assert_eq!(CurrentView::from_index(4), CurrentView::Logs);
    assert_eq!(CurrentView::from_index(99), CurrentView::Dashboard);
    for v in [
        CurrentView::Dashboard,
        CurrentView::VMs,
        CurrentView::Containers,
        CurrentView::IsolatedPods,
        CurrentView::Logs,
    ] {
        assert_eq!(CurrentView::from_index(v.to_index()), v);
    }
    assert_eq!(CurrentView::titles().len(), 5);
}

#[test]
fn test_quit_key() {
    let mut app = App::new(10_000);
    assert!(!app.should_quit);
    handle_key(&mut app, Key::Char('q'), Mods::Plain);
    assert!(app.should_quit);
}

#[test]
fn test_view_switch_keys() {
    let mut app = App::new(10_000);
    handle_key(&mut app, Key::Char('v'), Mods::Plain);
    assert_eq!(app.current_view, CurrentView::VMs);
    handle_key(&mut app, Key::Char('p'), Mods::Plain);
    assert_eq!(app.current_view, CurrentView::IsolatedPods);
    handle_key(&mut app, Key::Right, Mods::Plain);
    assert_eq!(app.current_view, CurrentView::Logs);
    handle_key(&mut app, Key::Right, Mods::Plain);
    assert_eq!(app.current_view, CurrentView::Dashboard);
}

#[test]
fn test_vm_selection_wraps() {
    let mut app = App::new(10_000);
    assert_eq!(app.vms.len(), 4);
    assert_eq!(app.selected_vm_index, 0);
    app.select_previous_vm();
    assert_eq!(app.selected_vm_index, 3);
    app.select_next_vm();
    assert_eq!(app.selected_vm_index, 0);
}

#[test]
fn test_system_modal_flow() {
    let mut app = App::new(10_000);
    handle_key(&mut app, Key::Char('q'), Mods::Ctrl);
    assert!(app.system_modal_open);
    handle_key(&mut app, Key::Down, Mods::Plain);
    assert_eq!(app.selected_system_action, 1);
    handle_key(&mut app, Key::Enter, Mods::Plain);
    assert_eq!(app.system_confirmation, Some(SystemAction::Shutdown));
    handle_key(&mut app, Key::Char('n'), Mods::Plain);
    assert!(!app.system_modal_open);
    assert_eq!(app.system_confirmation, None);
    assert!(!app.should_quit);
}

#[test]
fn test_tick_keeps_interface_consistent() {
    let mut app = App::new(10_000);
    for _ in 0..5 {
        app.tick(true, true, 10_000);
    }
    assert!(app.feos_logs.len() <= 50 + 4);
    assert!(app.selected_vm_index < app.vms.len());
}

#[test]
fn test_pod_kernel_logs() {
    let logs = generate_pod_kernel_logs("microvm-web-001", 5000);
    assert!(!logs.is_empty());
    for (i, l) in logs.iter().enumerate() {
        assert_eq!(l.timestamp, 5000 + (i as u64) * 8);
        assert!(l.message.starts_with("microvm-web-001"));
    }
}
