use lcd_heartbeat::sequence::{Action, Outcome};
use lcd_heartbeat::settings::{
    BusConfig, BusPins, Cursor, ExpanderAddress, LcdOptions, LoggerOptions, Severity,
};
use lcd_heartbeat::trace::replay;

fn startup_actions() -> Vec<Action> {
    vec![
        Action::ClaimPeripherals,
        Action::SpawnLogger(LoggerOptions { buffer_size: 1024, min_severity: Severity::Info }),
        Action::OpenBus { pins: BusPins { sda: 4, scl: 5 }, config: BusConfig { frequency: 200_000 } },
        Action::AttachExpander(ExpanderAddress { a0: true, a1: true, a2: true }),
        Action::BuildDisplay(LcdOptions { cursor: Cursor::Off, reliable_init: 10_000 }),
        Action::Print("Hello World"),
    ]
}

fn working() -> Action {
    Action::Log { severity: Severity::Info, text: "Working" }
}

fn is_print(action: &Action) -> bool {
    matches!(action, Action::Print(_))
}

fn is_log(action: &Action) -> bool {
    matches!(action, Action::Log { .. })
}

#[test]
fn replay_of_nothing_asks_for_the_peripherals() {
    assert_eq!(replay(&[]), vec![Action::ClaimPeripherals]);
}

#[test]
fn replay_of_clean_startup() {
    let actions = replay(&[Outcome::Completed; 5]);
    assert_eq!(actions, startup_actions());
}

#[test]
fn replay_into_the_heartbeat() {
    let actions = replay(&[Outcome::Completed; 9]);
    let mut expected = startup_actions();
    expected.push(working());
    expected.push(Action::Sleep { secs: 10 });
    expected.push(working());
    expected.push(Action::Sleep { secs: 10 });
    assert_eq!(actions, expected);
}

#[test]
fn greeting_is_printed_once_before_first_heartbeat() {
    let actions = replay(&[Outcome::Completed; 40]);
    let prints: Vec<usize> = (0..actions.len()).filter(|&i| is_print(&actions[i])).collect();
    assert_eq!(prints, vec![5]);
    assert_eq!(actions[5], Action::Print("Hello World"));
    let first_log = (0..actions.len()).find(|&i| is_log(&actions[i]));
    assert_eq!(first_log, Some(6));
}

#[test]
fn heartbeat_lines_are_ten_seconds_apart() {
    let actions = replay(&[Outcome::Completed; 206]);
    assert_eq!(actions.len(), 207);
    for n in 0..100 {
        assert_eq!(actions[6 + 2 * n], working());
        assert_eq!(actions[6 + 2 * n + 1], Action::Sleep { secs: 10 });
        assert_eq!(actions[6 + 2 * n + 2], working());
    }
}

#[test]
fn heartbeat_survives_reported_faults() {
    let mut outcomes = vec![Outcome::Completed; 6];
    outcomes.extend([Outcome::Failed; 20]);
    let actions = replay(&outcomes);
    for n in 0..10 {
        assert_eq!(actions[6 + 2 * n], working());
        assert_eq!(actions[6 + 2 * n + 1], Action::Sleep { secs: 10 });
    }
    assert!(!actions.contains(&Action::Halt));
}

#[test]
fn logger_is_spawned_exactly_once() {
    let actions = replay(&[Outcome::Completed; 60]);
    let spawns = actions.iter().filter(|a| matches!(a, Action::SpawnLogger(_))).count();
    let claims = actions.iter().filter(|a| matches!(a, Action::ClaimPeripherals)).count();
    assert_eq!(spawns, 1);
    assert_eq!(claims, 1);
    assert!(matches!(actions[1], Action::SpawnLogger(_)));
}

#[test]
fn bus_fault_halts_before_print_and_heartbeat() {
    let mut outcomes = vec![Outcome::Completed, Outcome::Completed, Outcome::Failed];
    outcomes.extend([Outcome::Completed; 10]);
    let actions = replay(&outcomes);
    assert_eq!(actions.len(), 14);
    assert_eq!(&actions[..3], &startup_actions()[..3]);
    for action in &actions[3..] {
        assert_eq!(*action, Action::Halt);
    }
    assert!(!actions.iter().any(is_print));
    assert!(!actions.iter().any(is_log));
}

#[test]
fn fault_at_each_startup_step_halts_there() {
    for step in 0..6 {
        let mut outcomes = vec![Outcome::Completed; 12];
        outcomes[step] = Outcome::Failed;
        let actions = replay(&outcomes);
        assert_eq!(&actions[..=step], &startup_actions()[..=step]);
        for action in &actions[step + 1..] {
            assert_eq!(*action, Action::Halt);
        }
        assert!(!actions.iter().any(is_log));
        assert_eq!(actions.iter().any(is_print), step == 5);
    }
}

#[test]
fn spawn_fault_leaves_the_bus_closed() {
    let actions = replay(&[Outcome::Completed, Outcome::Failed, Outcome::Completed]);
    assert_eq!(
        actions,
        vec![
            Action::ClaimPeripherals,
            Action::SpawnLogger(LoggerOptions { buffer_size: 1024, min_severity: Severity::Info }),
            Action::Halt,
            Action::Halt,
        ]
    );
}
