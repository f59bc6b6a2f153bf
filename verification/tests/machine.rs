use monitor_lib::models::{PowerState, Server};
use monitor_lib::machine::handle_key_read_only;
use monitor_lib::state::{Action, ActiveBlock, AppState, InfoMode, Key};

fn unit(id: i32, name: &str, status: PowerState) -> Server {
    let mut s = Server::new(id, name, "8", 80, "intel-i5");
    s.status = status;
    s
}

fn three_units() -> Vec<Server> {
    vec![
        unit(1, "alpha", PowerState::On),
        unit(2, "beta", PowerState::Off),
        unit(3, "gamma", PowerState::Unknown),
    ]
}

fn type_text(state: &mut AppState, text: &str, units: &Vec<Server>) {
    for c in text.chars() {
        let action = state.handle_key(Key::Char(c), units, 0);
        assert!(matches!(action, Action::Idle));
    }
}

fn idle(state: &mut AppState, key: Key, units: &Vec<Server>) {
    let action = state.handle_key(key, units, 0);
    assert!(matches!(action, Action::Idle));
}

#[test]
fn initial_state_is_view_on_servers() {
    let state = AppState::new(0);
    assert_eq!(state.info_mode, InfoMode::View);
    assert_eq!(state.active_block, ActiveBlock::Servers);
    assert_eq!(state.selected, Some(0));
    assert_eq!(state.update_id, None);
    assert_eq!(state.logs, vec!["[00:00:00] Monitoring is running".to_string()]);
    assert!(state.start_times.is_empty());
    assert_eq!(state.new_name, "");
}

#[test]
fn selection_wraps_at_both_ends() {
    let units = three_units();
    let mut state = AppState::new(0);
    state.selected = Some(2);
    idle(&mut state, Key::Down, &units);
    assert_eq!(state.selected, Some(0));
    idle(&mut state, Key::Up, &units);
    assert_eq!(state.selected, Some(2));
    idle(&mut state, Key::Up, &units);
    assert_eq!(state.selected, Some(1));
    idle(&mut state, Key::Down, &units);
    assert_eq!(state.selected, Some(2));
}

#[test]
fn selection_on_empty_list_does_not_move() {
    let units: Vec<Server> = Vec::new();
    let mut state = AppState::new(0);
    idle(&mut state, Key::Down, &units);
    assert_eq!(state.selected, Some(0));
    idle(&mut state, Key::Up, &units);
    assert_eq!(state.selected, Some(0));
    state.selected = None;
    idle(&mut state, Key::Down, &three_units());
    assert_eq!(state.selected, Some(0));
}

#[test]
fn selection_beyond_end_of_list_is_taken_modulo_length() {
    let units = three_units();
    let mut state = AppState::new(0);
    state.selected = Some(usize::MAX);
    idle(&mut state, Key::Down, &units);
    assert_eq!(state.selected, Some(((usize::MAX % 3) + 1) % 3));
}

#[test]
fn tab_toggles_focus_and_forces_view() {
    let units = three_units();
    let mut state = AppState::new(0);
    idle(&mut state, Key::Tab, &units);
    assert_eq!(state.active_block, ActiveBlock::Info);
    idle(&mut state, Key::Char('n'), &units);
    assert_eq!(state.info_mode, InfoMode::AddServerName);
    idle(&mut state, Key::Tab, &units);
    assert_eq!(state.active_block, ActiveBlock::Servers);
    assert_eq!(state.info_mode, InfoMode::View);
}

#[test]
fn add_flow_commits_valid_form() {
    let units: Vec<Server> = Vec::new();
    let mut state = AppState::new(0);
    idle(&mut state, Key::Tab, &units);
    idle(&mut state, Key::Char('n'), &units);
    type_text(&mut state, "edge", &units);
    idle(&mut state, Key::Enter, &units);
    assert_eq!(state.info_mode, InfoMode::AddServerPort);
    type_text(&mut state, "443", &units);
    idle(&mut state, Key::Enter, &units);
    assert_eq!(state.info_mode, InfoMode::AddServerRam);
    type_text(&mut state, "4.0", &units);
    idle(&mut state, Key::Enter, &units);
    assert_eq!(state.info_mode, InfoMode::AddServerCpu);
    type_text(&mut state, "intel-i7", &units);
    let action = state.handle_key(Key::Enter, &units, 3661);
    match action {
        Action::Insert { name, port, ram, cpu } => {
            assert_eq!(name, "edge");
            assert_eq!(port, 443);
            assert_eq!(ram, "4.0");
            assert_eq!(cpu, "intel-i7");
        }
        other => panic!("unexpected action {:?}", other),
    }
    assert_eq!(state.info_mode, InfoMode::View);
    assert_eq!(state.logs.len(), 2);
    assert_eq!(
        state.logs[1],
        "[01:01:01] SERVER CREATED: edge (Port: 443, RAM: 4.0G, CPU: intel-i7)"
    );
}

#[test]
fn form_filters_characters_by_field() {
    let units: Vec<Server> = Vec::new();
    let mut state = AppState::new(0);
    idle(&mut state, Key::Tab, &units);
    idle(&mut state, Key::Char('n'), &units);
    type_text(&mut state, "q r-2.x", &units);
    assert_eq!(state.new_name, "q r-2.x");
    idle(&mut state, Key::Down, &units);
    type_text(&mut state, "8a0.8-0", &units);
    assert_eq!(state.new_port, "8080");
    idle(&mut state, Key::Down, &units);
    type_text(&mut state, "1x6.5G", &units);
    assert_eq!(state.new_ram, "16.5");
    idle(&mut state, Key::Down, &units);
    type_text(&mut state, "Ryzen-9!", &units);
    assert_eq!(state.new_cpu, "Ryzen-9!");
    idle(&mut state, Key::Backspace, &units);
    assert_eq!(state.new_cpu, "Ryzen-9");
    idle(&mut state, Key::Up, &units);
    idle(&mut state, Key::Backspace, &units);
    assert_eq!(state.new_ram, "16.");
}

#[test]
fn backspace_on_empty_buffer_changes_nothing() {
    let units: Vec<Server> = Vec::new();
    let mut state = AppState::new(0);
    idle(&mut state, Key::Tab, &units);
    idle(&mut state, Key::Char('n'), &units);
    idle(&mut state, Key::Backspace, &units);
    assert_eq!(state.new_name, "");
    assert_eq!(state.info_mode, InfoMode::AddServerName);
}

#[test]
fn up_at_first_field_and_down_at_last_field_stay() {
    let units = three_units();
    let mut state = AppState::new(0);
    idle(&mut state, Key::Tab, &units);
    idle(&mut state, Key::Char('n'), &units);
    idle(&mut state, Key::Up, &units);
    assert_eq!(state.info_mode, InfoMode::AddServerName);
    idle(&mut state, Key::Down, &units);
    idle(&mut state, Key::Down, &units);
    idle(&mut state, Key::Down, &units);
    assert_eq!(state.info_mode, InfoMode::AddServerCpu);
    idle(&mut state, Key::Down, &units);
    assert_eq!(state.info_mode, InfoMode::AddServerCpu);
    assert_eq!(state.selected, Some(0));
}

#[test]
fn arrows_keep_the_update_flow() {
    let units = three_units();
    let mut state = AppState::new(0);
    state.selected = Some(1);
    idle(&mut state, Key::Tab, &units);
    idle(&mut state, Key::Char('u'), &units);
    assert_eq!(state.info_mode, InfoMode::UpdateServerName);
    idle(&mut state, Key::Down, &units);
    assert_eq!(state.info_mode, InfoMode::UpdateServerPort);
    idle(&mut state, Key::Down, &units);
    assert_eq!(state.info_mode, InfoMode::UpdateServerRam);
    idle(&mut state, Key::Up, &units);
    assert_eq!(state.info_mode, InfoMode::UpdateServerPort);
}

#[test]
fn update_prefills_form_from_unit_that_is_off() {
    let mut units = three_units();
    units[1].port = 27017;
    let mut state = AppState::new(0);
    state.selected = Some(1);
    idle(&mut state, Key::Tab, &units);
    idle(&mut state, Key::Char('u'), &units);
    assert_eq!(state.info_mode, InfoMode::UpdateServerName);
    assert_eq!(state.update_id, Some(2));
    assert_eq!(state.new_name, "beta");
    assert_eq!(state.new_port, "27017");
    assert_eq!(state.new_ram, "8");
    assert_eq!(state.new_cpu, "intel-i5");
}

#[test]
fn update_of_unit_that_is_not_off_is_refused() {
    let units = three_units();
    let mut state = AppState::new(0);
    state.selected = Some(0);
    idle(&mut state, Key::Tab, &units);
    idle(&mut state, Key::Char('u'), &units);
    assert_eq!(state.info_mode, InfoMode::View);
    assert_eq!(state.update_id, None);
    assert_eq!(state.logs.len(), 2);
    assert_eq!(state.logs[1], "[00:00:00] ERROR: Server must be OFF to be updated");
}

#[test]
fn invalid_update_warns_then_enter_commits_verbatim() {
    let units = three_units();
    let mut state = AppState::new(0);
    state.selected = Some(1);
    idle(&mut state, Key::Tab, &units);
    idle(&mut state, Key::Char('u'), &units);
    idle(&mut state, Key::Down, &units);
    idle(&mut state, Key::Backspace, &units);
    idle(&mut state, Key::Backspace, &units);
    type_text(&mut state, "81", &units);
    idle(&mut state, Key::Enter, &units);
    idle(&mut state, Key::Enter, &units);
    assert_eq!(state.info_mode, InfoMode::UpdateServerCpu);
    type_text(&mut state, "x", &units);
    idle(&mut state, Key::Enter, &units);
    assert_eq!(state.info_mode, InfoMode::ConfirmWarning);
    let action = state.handle_key(Key::Enter, &units, 0);
    match action {
        Action::Update { id, name, port, ram, cpu } => {
            assert_eq!(id, 2);
            assert_eq!(name, "beta");
            assert_eq!(port, 81);
            assert_eq!(ram, "8");
            assert_eq!(cpu, "intel-i5x");
        }
        other => panic!("unexpected action {:?}", other),
    }
    assert_eq!(state.info_mode, InfoMode::View);
    assert_eq!(
        state.logs[1],
        "[00:00:00] SERVER UPDATED: beta (Port: 81, RAM: 8G, CPU: intel-i5x)"
    );
}

#[test]
fn invalid_update_warns_then_escape_returns_to_cpu_field() {
    let units = three_units();
    let mut state = AppState::new(0);
    state.selected = Some(1);
    idle(&mut state, Key::Tab, &units);
    idle(&mut state, Key::Char('u'), &units);
    idle(&mut state, Key::Enter, &units);
    idle(&mut state, Key::Enter, &units);
    idle(&mut state, Key::Enter, &units);
    type_text(&mut state, "-turbo", &units);
    idle(&mut state, Key::Enter, &units);
    assert_eq!(state.info_mode, InfoMode::ConfirmWarning);
    idle(&mut state, Key::Esc, &units);
    assert_eq!(state.info_mode, InfoMode::UpdateServerCpu);
    assert_eq!(state.active_block, ActiveBlock::Info);
    assert_eq!(state.new_name, "beta");
    assert_eq!(state.new_port, "80");
    assert_eq!(state.new_ram, "8");
    assert_eq!(state.new_cpu, "intel-i5-turbo");
    assert_eq!(state.update_id, Some(2));
    assert_eq!(state.logs.len(), 1);
}

#[test]
fn empty_port_is_invalid_and_commits_as_zero() {
    let units: Vec<Server> = Vec::new();
    let mut state = AppState::new(0);
    idle(&mut state, Key::Tab, &units);
    idle(&mut state, Key::Char('n'), &units);
    type_text(&mut state, "db", &units);
    idle(&mut state, Key::Enter, &units);
    idle(&mut state, Key::Enter, &units);
    idle(&mut state, Key::Enter, &units);
    type_text(&mut state, "RYZEN-7", &units);
    idle(&mut state, Key::Enter, &units);
    assert_eq!(state.info_mode, InfoMode::ConfirmWarning);
    let action = state.handle_key(Key::Enter, &units, 0);
    match action {
        Action::Insert { name, port, ram, cpu } => {
            assert_eq!(name, "db");
            assert_eq!(port, 0);
            assert_eq!(ram, "");
            assert_eq!(cpu, "RYZEN-7");
        }
        other => panic!("unexpected action {:?}", other),
    }
}

#[test]
fn cpu_model_is_matched_without_regard_to_case() {
    let units: Vec<Server> = Vec::new();
    let mut state = AppState::new(0);
    idle(&mut state, Key::Tab, &units);
    idle(&mut state, Key::Char('n'), &units);
    type_text(&mut state, "db", &units);
    idle(&mut state, Key::Enter, &units);
    type_text(&mut state, "3000", &units);
    idle(&mut state, Key::Enter, &units);
    idle(&mut state, Key::Enter, &units);
    type_text(&mut state, "Intel-I9", &units);
    assert!(state.form_is_valid());
    let action = state.handle_key(Key::Enter, &units, 0);
    assert!(matches!(action, Action::Insert { port: 3000, .. }));
}

#[test]
fn escape_from_field_returns_to_view_and_servers() {
    let units = three_units();
    let mut state = AppState::new(0);
    idle(&mut state, Key::Tab, &units);
    idle(&mut state, Key::Char('n'), &units);
    idle(&mut state, Key::Enter, &units);
    idle(&mut state, Key::Esc, &units);
    assert_eq!(state.info_mode, InfoMode::View);
    assert_eq!(state.active_block, ActiveBlock::Servers);
}

#[test]
fn quit_key_quits_outside_the_form_and_is_typed_inside() {
    let units = three_units();
    let mut state = AppState::new(0);
    assert!(matches!(state.handle_key(Key::Char('q'), &units, 0), Action::Quit));
    idle(&mut state, Key::Tab, &units);
    idle(&mut state, Key::Char('n'), &units);
    idle(&mut state, Key::Char('q'), &units);
    assert_eq!(state.new_name, "q");
}

#[test]
fn enter_on_unactivated_unit_logs_error() {
    let units = three_units();
    let mut state = AppState::new(0);
    state.selected = Some(2);
    idle(&mut state, Key::Enter, &units);
    assert_eq!(state.logs.len(), 2);
    assert_eq!(state.logs[1], "[00:00:00] ERROR: Server is not activated");
}

#[test]
fn enter_on_running_unit_asks_to_stop_it() {
    let units = three_units();
    let mut state = AppState::new(0);
    let action = state.handle_key(Key::Enter, &units, 59);
    match action {
        Action::TogglePower { id, name, turning_on } => {
            assert_eq!(id, 1);
            assert_eq!(name, "alpha");
            assert!(!turning_on);
        }
        other => panic!("unexpected action {:?}", other),
    }
    assert_eq!(state.logs[1], "[00:00:59] alpha: Stopping");
}

#[test]
fn enter_on_unit_in_transition_does_nothing() {
    let units = vec![unit(1, "alpha", PowerState::Starting)];
    let mut state = AppState::new(0);
    idle(&mut state, Key::Enter, &units);
    assert_eq!(state.logs.len(), 1);
}

#[test]
fn activate_key_on_activated_unit_logs_error() {
    let units = three_units();
    let mut state = AppState::new(0);
    idle(&mut state, Key::Char('a'), &units);
    assert_eq!(state.logs[1], "[00:00:00] ERROR: Server alpha is already activated");
    state.selected = Some(2);
    let action = state.handle_key(Key::Char('a'), &units, 0);
    match action {
        Action::Activate { id, name } => {
            assert_eq!(id, 3);
            assert_eq!(name, "gamma");
        }
        other => panic!("unexpected action {:?}", other),
    }
    assert_eq!(state.logs.len(), 2);
}

#[test]
fn remove_key_asks_for_confirmation_and_enter_deletes() {
    let units = three_units();
    let mut state = AppState::new(0);
    state.selected = Some(1);
    idle(&mut state, Key::Char('r'), &units);
    assert_eq!(state.info_mode, InfoMode::DeleteConfirm);
    assert_eq!(state.active_block, ActiveBlock::Info);
    assert_eq!(state.update_id, Some(2));
    assert_eq!(state.new_name, "beta");
    let action = state.handle_key(Key::Enter, &units, 0);
    assert!(matches!(action, Action::Delete { id: 2 }));
    assert_eq!(state.info_mode, InfoMode::View);
    assert_eq!(state.active_block, ActiveBlock::Servers);
    assert_eq!(state.logs[1], "[00:00:00] SERVER REMOVED: beta");
}

#[test]
fn escape_from_delete_confirmation_deletes_nothing() {
    let units = three_units();
    let mut state = AppState::new(0);
    idle(&mut state, Key::Char('r'), &units);
    idle(&mut state, Key::Esc, &units);
    assert_eq!(state.info_mode, InfoMode::View);
    assert_eq!(state.logs.len(), 1);
}

#[test]
fn unbound_keys_change_nothing() {
    let units = three_units();
    let mut state = AppState::new(0);
    idle(&mut state, Key::Other, &units);
    idle(&mut state, Key::Char('z'), &units);
    idle(&mut state, Key::Backspace, &units);
    idle(&mut state, Key::Char('n'), &units);
    idle(&mut state, Key::Char('u'), &units);
    assert_eq!(state.info_mode, InfoMode::View);
    assert_eq!(state.active_block, ActiveBlock::Servers);
    assert_eq!(state.selected, Some(0));
    assert_eq!(state.logs.len(), 1);
}

#[test]
fn read_only_monitor_only_quits() {
    assert!(matches!(handle_key_read_only(Key::Char('q')), Action::Quit));
    for key in [Key::Char('a'), Key::Char('n'), Key::Enter, Key::Tab, Key::Esc, Key::Up, Key::Other] {
        assert!(matches!(handle_key_read_only(key), Action::Idle));
    }
}

#[test]
fn missing_unit_is_reported_in_the_log() {
    let mut state = AppState::new(0);
    state.log_not_found(-12, 7);
    assert_eq!(state.logs.len(), 2);
    assert_eq!(state.logs[1], "[00:00:07] ERROR: Server -12 was not found");
}
