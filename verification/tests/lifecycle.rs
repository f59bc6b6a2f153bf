use monitor_lib::lifecycle::{
    activation_script, report, toggle_script, Correction, LifecycleEvent, TaskOp,
};
use monitor_lib::models::{PowerState, Server};
use monitor_lib::state::{Action, AppState, InfoMode, Key};

fn store_insert(store: &mut Vec<Server>, name: &str, ram: &str, port: i32, cpu: &str) {
    let id = store.iter().map(|s| s.id).max().unwrap_or(0) + 1;
    store.push(Server::new(id, name, ram, port, cpu));
}

fn store_set_state(store: &mut Vec<Server>, id: i32, state: PowerState) {
    for s in store.iter_mut() {
        if s.id == id {
            s.status = state;
        }
    }
}

fn press_all(state: &mut AppState, text: &str, store: &Vec<Server>) {
    for c in text.chars() {
        state.handle_key(Key::Char(c), store, 0);
    }
}

fn run_script(
    ops: &Vec<TaskOp>,
    id: i32,
    name: &str,
    store: &mut Vec<Server>,
    state: &mut AppState,
    seen: &mut Vec<PowerState>,
) -> usize {
    let mut events = 0;
    for op in ops {
        if let TaskOp::SetState(s) = op {
            store_set_state(store, id, *s);
            seen.push(*s);
        }
        if let Some(ev) = report(*op, id, name, 100, 3) {
            events += 1;
            state.apply_event(ev, 100);
        }
    }
    events
}

#[test]
fn toggle_script_writes_then_reports_once() {
    assert_eq!(
        toggle_script(true),
        vec![
            TaskOp::SetState(PowerState::Starting),
            TaskOp::Wait { millis: 3000 },
            TaskOp::SetState(PowerState::On),
            TaskOp::Resolved { became_active: true },
        ]
    );
    assert_eq!(
        toggle_script(false),
        vec![
            TaskOp::SetState(PowerState::Stopping),
            TaskOp::Wait { millis: 3000 },
            TaskOp::SetState(PowerState::Off),
            TaskOp::Resolved { became_active: false },
        ]
    );
}

#[test]
fn toggle_from_off_reports_one_event_after_store_shows_on() {
    let mut store = vec![Server::new(4, "edge", "4.0", 443, "intel-i7")];
    store[0].status = PowerState::Off;
    let mut events: Vec<LifecycleEvent> = Vec::new();
    for op in toggle_script(true) {
        if let TaskOp::SetState(s) = op {
            store_set_state(&mut store, 4, s);
        }
        if let Some(ev) = report(op, 4, "edge", 10, 3) {
            assert_eq!(store[0].status, PowerState::On);
            events.push(ev);
        }
    }
    assert_eq!(events.len(), 1);
    assert_eq!(events[0].unit_id, 4);
    assert!(events[0].became_active);
    assert_eq!(events[0].message, "[00:00:10] edge: Started (took 3s)");
}

#[test]
fn activation_script_reports_progress_then_writes_off() {
    let ops = activation_script();
    let mut expected: Vec<TaskOp> = Vec::new();
    for p in [0u8, 25, 50, 75, 100] {
        expected.push(TaskOp::Progress { percent: p });
        expected.push(TaskOp::Wait { millis: 400 });
    }
    expected.push(TaskOp::SetState(PowerState::Off));
    expected.push(TaskOp::Activated);
    assert_eq!(ops, expected);
}

#[test]
fn reports_carry_stamped_messages() {
    let ev = report(TaskOp::Progress { percent: 25 }, 2, "db", 60, 0).unwrap();
    assert_eq!(ev.message, "[00:01:00] db: Activation 25%");
    assert!(!ev.became_active);
    assert_eq!(ev.unit_id, 2);
    let ev = report(TaskOp::Activated, 2, "db", 61, 0).unwrap();
    assert_eq!(ev.message, "[00:01:01] db: Activation complete");
    assert!(!ev.became_active);
    let ev = report(TaskOp::Resolved { became_active: false }, 2, "db", 62, 12).unwrap();
    assert_eq!(ev.message, "[00:01:02] db: Stopped (took 12s)");
    assert!(!ev.became_active);
    assert!(report(TaskOp::Wait { millis: 400 }, 2, "db", 0, 0).is_none());
    assert!(report(TaskOp::SetState(PowerState::On), 2, "db", 0, 0).is_none());
}

#[test]
fn events_update_log_and_running_times() {
    let mut state = AppState::new(0);
    let on = LifecycleEvent { unit_id: 5, message: "up".to_string(), became_active: true };
    state.apply_event(on, 77);
    assert_eq!(state.logs.len(), 2);
    assert_eq!(state.logs[1], "up");
    assert_eq!(state.start_times.get(&5), Some(&77));
    let off = LifecycleEvent { unit_id: 5, message: "down".to_string(), became_active: false };
    state.apply_event(off, 99);
    assert_eq!(state.logs[2], "down");
    assert!(state.start_times.is_empty());
}

#[test]
fn startup_reconciliation_settles_transient_units() {
    let mut store = vec![Server::new(1, "edge", "4.0", 443, "intel-i7")];
    store[0].status = PowerState::Starting;
    let mut state = AppState::new(0);
    let fixes = state.reconcile_startup(&store, 30);
    assert_eq!(fixes, vec![Correction { id: 1, state: PowerState::On }]);
    for f in &fixes {
        store_set_state(&mut store, f.id, f.state);
    }
    assert_eq!(store[0].status, PowerState::On);
    assert_eq!(state.logs.len(), 2);
    assert_eq!(state.logs[1], "[00:00:30] edge: state corrected to ON");
    assert_eq!(state.start_times.get(&1), Some(&30));
}

#[test]
fn startup_reconciliation_goes_through_all_units_in_order() {
    let mut store: Vec<Server> = Vec::new();
    for (i, st) in [
        PowerState::On,
        PowerState::Stopping,
        PowerState::Off,
        PowerState::Unknown,
        PowerState::Starting,
    ]
    .iter()
    .enumerate()
    {
        let mut s = Server::new(i as i32 + 1, "u", "1", 80, "intel-i5");
        s.status = *st;
        store.push(s);
    }
    let mut state = AppState::new(0);
    let fixes = state.reconcile_startup(&store, 5);
    assert_eq!(
        fixes,
        vec![
            Correction { id: 2, state: PowerState::Off },
            Correction { id: 5, state: PowerState::On },
        ]
    );
    assert_eq!(
        state.logs[1..],
        [
            "[00:00:05] u: state corrected to OFF".to_string(),
            "[00:00:05] u: state corrected to ON".to_string(),
        ]
    );
    assert_eq!(state.start_times.len(), 2);
    assert!(state.start_times.contains_key(&1));
    assert!(state.start_times.contains_key(&5));
    assert_eq!(PowerState::Starting.settled(), PowerState::On);
    assert_eq!(PowerState::Stopping.settled(), PowerState::Off);
    assert_eq!(PowerState::Unknown.settled(), PowerState::Unknown);
}

#[test]
fn end_to_end_add_activate_and_start() {
    let mut store: Vec<Server> = Vec::new();
    let mut state = AppState::new(0);
    assert!(state.reconcile_startup(&store, 0).is_empty());

    state.handle_key(Key::Tab, &store, 0);
    state.handle_key(Key::Char('n'), &store, 0);
    press_all(&mut state, "edge", &store);
    state.handle_key(Key::Enter, &store, 0);
    press_all(&mut state, "443", &store);
    state.handle_key(Key::Enter, &store, 0);
    press_all(&mut state, "4.0", &store);
    state.handle_key(Key::Enter, &store, 0);
    press_all(&mut state, "intel-i7", &store);
    match state.handle_key(Key::Enter, &store, 0) {
        Action::Insert { name, port, ram, cpu } => store_insert(&mut store, &name, &ram, port, &cpu),
        other => panic!("unexpected action {:?}", other),
    }
    assert_eq!(store.len(), 1);
    assert_eq!(store[0].status, PowerState::Unknown);
    assert_eq!(store[0].name, "edge");
    assert_eq!(store[0].port, 443);
    assert_eq!(store[0].max_ram, "4.0");
    assert_eq!(store[0].cpu_model, "intel-i7");
    assert_eq!(state.info_mode, InfoMode::View);

    state.handle_key(Key::Tab, &store, 0);
    let mut seen: Vec<PowerState> = Vec::new();
    match state.handle_key(Key::Char('a'), &store, 0) {
        Action::Activate { id, name } => {
            let n = run_script(&activation_script(), id, &name, &mut store, &mut state, &mut seen);
            assert_eq!(n, 6);
        }
        other => panic!("unexpected action {:?}", other),
    }
    assert_eq!(store[0].status, PowerState::Off);
    assert!(state.start_times.is_empty());

    seen.clear();
    match state.handle_key(Key::Enter, &store, 0) {
        Action::TogglePower { id, name, turning_on } => {
            assert!(turning_on);
            let n =
                run_script(&toggle_script(turning_on), id, &name, &mut store, &mut state, &mut seen);
            assert_eq!(n, 1);
        }
        other => panic!("unexpected action {:?}", other),
    }
    assert_eq!(seen, vec![PowerState::Starting, PowerState::On]);
    assert_eq!(store[0].status, PowerState::On);
    assert_eq!(state.logs.iter().filter(|l| l.contains("Started")).count(), 1);
    assert_eq!(state.start_times.get(&store[0].id), Some(&100));
}
