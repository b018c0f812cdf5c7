use fight_macros::domain::{step_id, Config, KeyCombination, ListenableChannel, Macro, Profile, SequenceStep};
use fight_macros::executor::{
    execute, run_result, Command, Executor, ExecutorError, RunStatus, StepAction, StepOutcome,
};
use fight_macros::keys::{key_matches, key_of_upper, mod_to_key, str_to_key, Key, ModifierKey};
use fight_macros::lifecycle::{LifecycleManager, ShutdownSignal};
use fight_macros::matcher::{process_event, process_event_in_order, HotkeyEvent};
use fight_macros::parser::{config_to_flat, flat_to_config, flat_to_config_in_order, resolve_sequence};
use fight_macros::processor::{handle_event, handle_profile_switch, reload, EventProcessor, ProcessorAction};
use fight_macros::queue::{macro_sequence, MacroQueue, QueueCommand, Wake};
use fight_macros::service::ConfigService;
use fight_macros::state::{is_combo_completed, InputEvent, KeyState};
use fight_macros::store::{FlatStorage, StoredMacro};

fn combo(mods: Vec<ModifierKey>, key: &str) -> KeyCombination {
    KeyCombination { modifiers: mods, key: key.to_string() }
}

fn down(id: u64, key: &str) -> SequenceStep {
    SequenceStep::KeyDown { id, key: key.to_string() }
}

fn up(id: u64, key: &str) -> SequenceStep {
    SequenceStep::KeyUp { id, key: key.to_string() }
}

fn delay(id: u64, ms: u64) -> SequenceStep {
    SequenceStep::Delay { id, ms }
}

fn mac(id: u64, trigger: KeyCombination, sequence: Vec<SequenceStep>) -> Macro {
    Macro { id, name: format!("macro {}", id), trigger, sequence }
}

fn profile(id: u64, function_key: Option<&str>, macros: Vec<Macro>) -> Profile {
    Profile {
        id,
        name: format!("profile {}", id),
        function_key: function_key.map(|s| s.to_string()),
        macros,
    }
}

fn held(keys: &[Key]) -> KeyState {
    let mut st = KeyState::new();
    for k in keys {
        st.update(&InputEvent::KeyPress(*k));
    }
    st
}

fn press(k: Key) -> InputEvent {
    InputEvent::KeyPress(k)
}

fn ctrl_shift_a_config() -> Config {
    Config {
        profiles: vec![profile(
            1,
            None,
            vec![mac(
                10,
                combo(vec![ModifierKey::Ctrl, ModifierKey::Shift], "A"),
                vec![down(100, "A"), delay(101, 50), up(102, "A")],
            )],
        )],
        selected_profile_id: Some(1),
    }
}

#[test]
fn key_names_resolve_ignoring_case() {
    assert_eq!(str_to_key("a"), Key::KeyA);
    assert_eq!(str_to_key("A"), Key::KeyA);
    assert_eq!(str_to_key("enter"), Key::Return);
    assert_eq!(str_to_key("f10"), Key::F10);
    assert_eq!(str_to_key("F1"), Key::F1);
    assert_eq!(str_to_key("num_0"), Key::Kp0);
    assert_eq!(str_to_key("NUM*"), Key::KpMultiply);
    assert_eq!(str_to_key("pageup"), Key::PageUp);
}

#[test]
fn key_aliases_share_a_key() {
    assert_eq!(str_to_key("WIN"), Key::MetaLeft);
    assert_eq!(str_to_key("super"), Key::MetaLeft);
    assert_eq!(str_to_key("Command"), Key::MetaLeft);
    assert_eq!(str_to_key("!"), Key::Num1);
    assert_eq!(str_to_key("1"), Key::Num1);
    assert_eq!(str_to_key("\n"), Key::Return);
    assert_eq!(str_to_key(" "), Key::Space);
    assert_eq!(str_to_key("\\"), Key::BackSlash);
    assert_eq!(str_to_key("\""), Key::Quote);
}

#[test]
fn unknown_key_names_give_the_sentinel() {
    assert_eq!(str_to_key("not a key"), Key::Unknown(0));
    assert_eq!(str_to_key(""), Key::Unknown(0));
    assert_eq!(str_to_key("é"), Key::Unknown(0));
    assert_eq!(key_of_upper("enter"), Key::Unknown(0));
    assert_eq!(key_of_upper("ENTER"), Key::Return);
}

#[test]
fn modifiers_map_to_left_keys() {
    assert_eq!(mod_to_key(&ModifierKey::Alt), Key::Alt);
    assert_eq!(mod_to_key(&ModifierKey::Control), Key::ControlLeft);
    assert_eq!(mod_to_key(&ModifierKey::Ctrl), Key::ControlLeft);
    assert_eq!(mod_to_key(&ModifierKey::Shift), Key::ShiftLeft);
    assert_eq!(mod_to_key(&ModifierKey::Meta), Key::MetaLeft);
}

#[test]
fn key_matches_compares_resolved_names() {
    assert!(key_matches("tab", Key::Tab));
    assert!(!key_matches("tab", Key::Space));
    assert!(key_matches("bogus", Key::Unknown(0)));
}

#[test]
fn key_state_tracks_presses_and_releases() {
    let mut st = KeyState::new();
    assert!(!st.pressed(Key::KeyA));
    st.update(&InputEvent::KeyPress(Key::KeyA));
    st.update(&InputEvent::KeyPress(Key::KeyA));
    assert!(st.pressed(Key::KeyA));
    st.update(&InputEvent::Other);
    assert!(st.pressed(Key::KeyA));
    st.update(&InputEvent::KeyRelease(Key::KeyA));
    assert!(!st.pressed(Key::KeyA));
    st.update(&InputEvent::KeyRelease(Key::KeyB));
    assert!(!st.pressed(Key::KeyB));
}

#[test]
fn combo_needs_base_key_and_every_modifier() {
    let c = combo(vec![ModifierKey::Control, ModifierKey::Shift], "a");
    assert!(!is_combo_completed(&held(&[Key::ControlLeft, Key::ShiftLeft]), &c));
    assert!(!is_combo_completed(&held(&[Key::ControlLeft, Key::KeyA]), &c));
    assert!(is_combo_completed(&held(&[Key::ControlLeft, Key::ShiftLeft, Key::KeyA]), &c));
    assert!(!is_combo_completed(&held(&[Key::ControlRight, Key::ShiftLeft, Key::KeyA]), &c));
}

#[test]
fn combo_without_modifiers_needs_only_its_key() {
    let c = combo(vec![], "F5");
    assert!(is_combo_completed(&held(&[Key::F5]), &c));
    assert!(!is_combo_completed(&held(&[]), &c));
}

#[test]
fn step_ids_of_every_kind() {
    assert_eq!(step_id(&down(7, "A")), 7);
    assert_eq!(step_id(&up(8, "A")), 8);
    assert_eq!(step_id(&delay(9, 10)), 9);
}

#[test]
fn channel_names() {
    assert_eq!(ListenableChannel::SelectedProfileChanged.name(), "selected-profile-changed");
    assert_eq!(ListenableChannel::SequenceStep.name(), "sequence-step");
}

#[test]
fn flattening_keeps_every_table_entry() {
    let cfg = ctrl_shift_a_config();
    let flat = config_to_flat(&cfg);
    assert_eq!(flat.selected_profile_id, Some(1));
    let p = flat.find_profile(&1).unwrap();
    assert_eq!(p.macro_ids, vec![10]);
    let m = flat.find_macro(&10).unwrap();
    assert_eq!(m.sequence_step_ids, vec![100, 101, 102]);
    assert_eq!(m.trigger, combo(vec![ModifierKey::Ctrl, ModifierKey::Shift], "A"));
    assert!(flat.find_macro(&11).is_none());
    assert!(flat.find_profile(&2).is_none());
    assert_eq!(flat.get_active_profile().unwrap().id, 1);
}

#[test]
fn later_entries_with_the_same_id_win() {
    let cfg = Config {
        profiles: vec![profile(1, None, vec![mac(10, combo(vec![], "A"), vec![down(5, "A"), up(5, "B")])])],
        selected_profile_id: None,
    };
    let flat = config_to_flat(&cfg);
    let steps = resolve_sequence(&flat.steps, &vec![5]);
    assert_eq!(steps.len(), 1);
    assert!(matches!(&steps[0], SequenceStep::KeyUp { id: 5, key } if key == "B"));
    assert!(flat.get_active_profile().is_none());
}

#[test]
fn round_trip_restores_the_nested_config() {
    let cfg = Config {
        profiles: vec![
            profile(1, Some("F1"), vec![mac(10, combo(vec![ModifierKey::Alt], "Q"), vec![down(1, "Q"), up(2, "Q")])]),
            profile(2, None, vec![mac(20, combo(vec![], "W"), vec![delay(3, 5)]), mac(21, combo(vec![], "E"), vec![])]),
        ],
        selected_profile_id: Some(2),
    };
    let back = flat_to_config(&config_to_flat(&cfg));
    assert_eq!(back.selected_profile_id, Some(2));
    assert_eq!(back.profiles.len(), 2);
    for given in &cfg.profiles {
        let p = back.profiles.iter().find(|p| p.id == given.id).unwrap();
        assert_eq!(p.name, given.name);
        assert_eq!(p.function_key, given.function_key);
        assert_eq!(p.macros.len(), given.macros.len());
        for (a, b) in p.macros.iter().zip(given.macros.iter()) {
            assert_eq!(a.id, b.id);
            assert_eq!(a.name, b.name);
            assert_eq!(a.trigger, b.trigger);
            let ids_a: Vec<u64> = a.sequence.iter().map(step_id).collect();
            let ids_b: Vec<u64> = b.sequence.iter().map(step_id).collect();
            assert_eq!(ids_a, ids_b);
        }
    }
}

#[test]
fn materializing_in_order_skips_unknown_profiles() {
    let flat = config_to_flat(&ctrl_shift_a_config());
    let cfg = flat_to_config_in_order(&flat, &vec![3, 1, 4]);
    assert_eq!(cfg.profiles.len(), 1);
    assert_eq!(cfg.profiles[0].id, 1);
    assert_eq!(cfg.profiles[0].macros[0].sequence.len(), 3);
}

#[test]
fn combo_triggers_and_replays() {
    let flat = config_to_flat(&ctrl_shift_a_config());
    let mut st = KeyState::new();
    let mut events = Vec::new();
    for k in [Key::ControlLeft, Key::ShiftLeft, Key::KeyA] {
        st.update(&press(k));
        if let Some(ev) = process_event(&flat, &st, &press(k)) {
            events.push(ev);
        }
    }
    assert_eq!(events, vec![HotkeyEvent::ComboTriggered(10)]);

    let m = match handle_event(&flat, events[0]) {
        ProcessorAction::Run(m) => m,
        other => panic!("unexpected {:?}", other),
    };
    let steps = macro_sequence(&m, &flat);
    let mut exec = Executor::new();
    let mut run = exec.run_sequence(&steps).unwrap();
    let mut performed = Vec::new();
    loop {
        match run.next_command(exec.is_active()) {
            Command::Perform(a) => {
                performed.push(a);
                run.record(StepOutcome::Done);
            }
            Command::Finish(s) => {
                assert_eq!(s, RunStatus::Completed);
                exec.finish();
                break;
            }
        }
    }
    assert_eq!(
        performed,
        vec![StepAction::Press(Key::KeyA), StepAction::Wait(50), StepAction::Release(Key::KeyA)]
    );
    assert_eq!(run_result(run.status()), Ok(()));
}

#[test]
fn activation_key_wins_over_macros() {
    let cfg = Config {
        profiles: vec![
            profile(1, Some("F1"), vec![mac(10, combo(vec![], "F2"), vec![down(1, "A")])]),
            profile(2, Some("F2"), vec![]),
        ],
        selected_profile_id: Some(1),
    };
    let flat = config_to_flat(&cfg);
    let st = held(&[Key::F2]);
    assert_eq!(process_event(&flat, &st, &press(Key::F2)), Some(HotkeyEvent::ProfileSwitch(2)));
    assert_eq!(process_event(&flat, &st, &press(Key::F1)), Some(HotkeyEvent::ProfileSwitch(1)));
}

#[test]
fn more_modifiers_are_preferred() {
    let cfg = Config {
        profiles: vec![profile(
            1,
            None,
            vec![
                mac(10, combo(vec![], "A"), vec![]),
                mac(11, combo(vec![ModifierKey::Ctrl], "A"), vec![]),
                mac(12, combo(vec![ModifierKey::Ctrl, ModifierKey::Shift], "A"), vec![]),
                mac(13, combo(vec![ModifierKey::Alt, ModifierKey::Shift], "A"), vec![]),
            ],
        )],
        selected_profile_id: Some(1),
    };
    let flat = config_to_flat(&cfg);
    let order = vec![1];
    let ev = press(Key::KeyA);
    assert_eq!(process_event_in_order(&flat, &order, &held(&[Key::KeyA]), &ev), Some(HotkeyEvent::ComboTriggered(10)));
    assert_eq!(
        process_event_in_order(&flat, &order, &held(&[Key::ControlLeft, Key::KeyA]), &ev),
        Some(HotkeyEvent::ComboTriggered(11))
    );
    assert_eq!(
        process_event_in_order(&flat, &order, &held(&[Key::ControlLeft, Key::ShiftLeft, Key::KeyA]), &ev),
        Some(HotkeyEvent::ComboTriggered(12))
    );
    // Two firing combos with equally many modifiers: the earlier one wins.
    assert_eq!(
        process_event_in_order(
            &flat,
            &order,
            &held(&[Key::ControlLeft, Key::Alt, Key::ShiftLeft, Key::KeyA]),
            &ev
        ),
        Some(HotkeyEvent::ComboTriggered(12))
    );
}

#[test]
fn no_event_without_a_match() {
    let flat = config_to_flat(&ctrl_shift_a_config());
    assert_eq!(process_event(&flat, &held(&[Key::KeyA]), &press(Key::KeyA)), None);
    assert_eq!(process_event(&flat, &held(&[]), &InputEvent::KeyRelease(Key::KeyA)), None);
    assert_eq!(process_event(&flat, &held(&[]), &InputEvent::Other), None);
    let mut none_active = ctrl_shift_a_config();
    none_active.selected_profile_id = None;
    let flat = config_to_flat(&none_active);
    let st = held(&[Key::ControlLeft, Key::ShiftLeft, Key::KeyA]);
    assert_eq!(process_event(&flat, &st, &press(Key::KeyA)), None);
}

#[test]
fn interrupted_delay_stops_the_run() {
    let steps = vec![down(1, "A"), delay(2, 10_000), up(3, "A")];
    let mut exec = Executor::new();
    let mut run = exec.run_sequence(&steps).unwrap();
    assert_eq!(run.next_command(true), Command::Perform(StepAction::Press(Key::KeyA)));
    run.record(StepOutcome::Done);
    assert_eq!(run.next_command(true), Command::Perform(StepAction::Wait(10_000)));
    let current = exec.shutdown();
    assert_eq!(current.map(|v| v.len()), Some(3));
    run.record(StepOutcome::Interrupted);
    assert_eq!(run.next_command(exec.is_active()), Command::Finish(RunStatus::Interrupted));
    assert_eq!(run.next_command(true), Command::Finish(RunStatus::Interrupted));
    assert_eq!(run.position(), 1);
    assert_eq!(run_result(run.status()), Ok(()));
}

#[test]
fn failed_step_aborts_the_run() {
    let steps = vec![down(1, "A"), up(2, "A")];
    let mut exec = Executor::new();
    let mut run = exec.run_sequence(&steps).unwrap();
    assert!(matches!(run.next_command(true), Command::Perform(_)));
    run.record(StepOutcome::Failed);
    assert_eq!(run.next_command(true), Command::Finish(RunStatus::Failed));
    assert_eq!(run_result(run.status()), Err(ExecutorError::StepFailed));
}

#[test]
fn shut_down_executor_refuses_new_sequences() {
    let mut exec = Executor::new();
    assert!(exec.is_active());
    assert!(exec.shutdown().is_none());
    assert!(!exec.is_active());
    assert_eq!(exec.run_sequence(&[down(1, "A")]).err(), Some(ExecutorError::ShuttingDown));
}

#[test]
fn inactive_executor_stops_a_run_between_steps() {
    let steps = vec![down(1, "A"), up(2, "A")];
    let mut exec = Executor::new();
    let mut run = exec.run_sequence(&steps).unwrap();
    assert!(matches!(run.next_command(true), Command::Perform(_)));
    run.record(StepOutcome::Done);
    exec.shutdown();
    assert_eq!(run.next_command(exec.is_active()), Command::Finish(RunStatus::Interrupted));
}

#[test]
fn steps_map_to_actions() {
    assert_eq!(execute(&down(1, "shift")), StepAction::Press(Key::ShiftLeft));
    assert_eq!(execute(&up(1, "ctrl")), StepAction::Release(Key::ControlLeft));
    assert_eq!(execute(&delay(1, 25)), StepAction::Wait(25));
    assert_eq!(execute(&down(1, "nope")), StepAction::Press(Key::Unknown(0)));
}

#[test]
fn empty_sequence_completes_at_once() {
    let flat = config_to_flat(&ctrl_shift_a_config());
    let m = StoredMacro {
        id: 50,
        name: "ghost".to_string(),
        trigger: combo(vec![], "A"),
        sequence_step_ids: vec![900, 901],
    };
    let steps = macro_sequence(&m, &flat);
    assert!(steps.is_empty());
    let mut exec = Executor::new();
    let mut run = exec.run_sequence(&steps).unwrap();
    assert_eq!(run.next_command(true), Command::Finish(RunStatus::Completed));
    assert_eq!(run_result(run.status()), Ok(()));
}

#[test]
fn two_pushes_both_dispatch() {
    let flat = config_to_flat(&ctrl_shift_a_config());
    let m = flat.find_macro(&10).unwrap().clone();
    let mut other = m.clone();
    other.id = 11;
    let mut q = MacroQueue::new();
    let a = q.run(Wake::Message(QueueCommand::Push(m)));
    let b = q.run(Wake::Message(QueueCommand::Push(other)));
    assert_eq!(a.map(|m| m.id), Some(10));
    assert_eq!(b.map(|m| m.id), Some(11));
    assert!(q.is_running());
}

#[test]
fn queue_stops_on_shutdown_or_close() {
    let flat = config_to_flat(&ctrl_shift_a_config());
    let m = flat.find_macro(&10).unwrap().clone();
    let mut q = MacroQueue::new();
    assert!(q.run(Wake::Shutdown).is_none());
    assert!(!q.is_running());
    assert!(q.run(Wake::Message(QueueCommand::Push(m))).is_none());
    let mut q2 = MacroQueue::new();
    assert!(q2.run(Wake::Closed).is_none());
    assert!(!q2.is_running());
}

#[test]
fn processor_routes_hotkey_events() {
    let flat = config_to_flat(&ctrl_shift_a_config());
    assert!(matches!(handle_event(&flat, HotkeyEvent::ComboTriggered(10)), ProcessorAction::Run(m) if m.id == 10));
    assert!(matches!(handle_event(&flat, HotkeyEvent::ComboTriggered(99)), ProcessorAction::MissingMacro(99)));
    assert!(matches!(
        handle_event(&flat, HotkeyEvent::ProfileSwitch(1)),
        ProcessorAction::SelectProfile { requested: 1, selected: Some(1) }
    ));
    assert!(matches!(
        handle_event(&flat, HotkeyEvent::ProfileSwitch(7)),
        ProcessorAction::SelectProfile { requested: 7, selected: None }
    ));
}

#[test]
fn processor_loop_stops_for_good() {
    let flat = config_to_flat(&ctrl_shift_a_config());
    let mut p = EventProcessor::new();
    assert!(p.process_events(&flat, Wake::Message(HotkeyEvent::ComboTriggered(10))).is_some());
    assert!(p.process_events(&flat, Wake::Closed).is_none());
    assert!(!p.is_running());
    assert!(p.process_events(&flat, Wake::Message(HotkeyEvent::ComboTriggered(10))).is_none());
}

#[test]
fn profile_switch_updates_the_store() {
    let mut flat = config_to_flat(&ctrl_shift_a_config());
    handle_profile_switch(&mut flat, None);
    assert_eq!(flat.selected_profile_id, None);
    handle_profile_switch(&mut flat, Some(1));
    assert_eq!(flat.selected_profile_id, Some(1));
    flat.change_active_profile(42);
    assert_eq!(flat.selected_profile_id, Some(42));
    assert!(flat.get_active_profile().is_none());
}

#[test]
fn failed_reload_keeps_last_good_snapshot() {
    let mut flat = config_to_flat(&ctrl_shift_a_config());
    assert!(!reload(&mut flat, None));
    let st = held(&[Key::ControlLeft, Key::ShiftLeft, Key::KeyA]);
    assert_eq!(process_event(&flat, &st, &press(Key::KeyA)), Some(HotkeyEvent::ComboTriggered(10)));

    let replacement = Config { profiles: vec![profile(5, Some("F5"), vec![])], selected_profile_id: None };
    assert!(reload(&mut flat, Some(&replacement)));
    assert_eq!(process_event(&flat, &st, &press(Key::KeyA)), None);
    assert_eq!(process_event(&flat, &st, &press(Key::F5)), Some(HotkeyEvent::ProfileSwitch(5)));
}

#[test]
fn shutdown_twice_signals_once() {
    let mut lm = LifecycleManager::new();
    assert!(!lm.wait_for_completion());
    let first = lm.shutdown();
    assert_eq!(
        first,
        vec![ShutdownSignal::EventLoop, ShutdownSignal::Executor, ShutdownSignal::Watchdog, ShutdownSignal::Queue]
    );
    assert!(lm.shutdown().is_empty());
    assert!(lm.wait_for_completion());
    assert!(!lm.wait_for_completion());
    assert!(lm.shutdown().is_empty());
}

#[test]
fn config_service_operations() {
    let mut svc = ConfigService::new(FlatStorage::new());
    assert!(svc.load_config().profiles.is_empty());
    let cfg = ctrl_shift_a_config();
    svc.save_changes(&cfg);
    let loaded = svc.load_config();
    assert_eq!(loaded.profiles.len(), 1);
    assert_eq!(svc.get_active_profile_idx(&loaded), Some(0));
    svc.change_active_profile(9);
    assert_eq!(svc.get_config().selected_profile_id, Some(9));
    assert_eq!(svc.get_active_profile_idx(&loaded), None);
    let two = Config { profiles: vec![profile(3, None, vec![]), profile(9, None, vec![])], selected_profile_id: None };
    assert_eq!(svc.get_active_profile_idx(&two), Some(1));
    svc.replace(FlatStorage::new());
    assert_eq!(svc.get_config().selected_profile_id, None);
    assert_eq!(svc.get_active_profile_idx(&two), None);
}
