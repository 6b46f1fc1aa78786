use auto_ocr::chord::{chord_satisfied, is_down, sample, ActivationEvent, Key};
use auto_ocr::cooldown::{Cooldown, LoopEvent, COOLDOWN_MS, SAMPLE_INTERVAL_MS};
use auto_ocr::lifecycle::{on_menu_poll, Control, MenuCommand};

#[test]
fn chord_needs_all_three_keys() {
    assert!(chord_satisfied(&[Key::LeftShift, Key::LeftAlt, Key::LetterO]));
    assert!(chord_satisfied(&[Key::LetterO, Key::Other, Key::LeftAlt, Key::LeftShift, Key::Other]));
    assert!(!chord_satisfied(&[]));
    assert!(!chord_satisfied(&[Key::LeftShift, Key::LeftAlt]));
    assert!(!chord_satisfied(&[Key::LeftShift, Key::LetterO]));
    assert!(!chord_satisfied(&[Key::LeftAlt, Key::LetterO]));
    assert!(!chord_satisfied(&[Key::Other, Key::Other, Key::Other]));
    assert!(!chord_satisfied(&[Key::LetterO, Key::LetterO, Key::LetterO]));
}

#[test]
fn is_down_finds_a_key() {
    assert!(is_down(&[Key::Other, Key::LeftAlt], Key::LeftAlt));
    assert!(!is_down(&[Key::Other, Key::LeftAlt], Key::LetterO));
    assert!(!is_down(&[], Key::Other));
}

#[test]
fn sample_reports_the_chord_at_every_snapshot() {
    let down = [Key::LeftAlt, Key::LetterO, Key::LeftShift];
    assert_eq!(sample(&down, 0), Some(ActivationEvent { at_ms: 0 }));
    assert_eq!(sample(&down, 50), Some(ActivationEvent { at_ms: 50 }));
    assert_eq!(sample(&[Key::LeftAlt], 100), None);
}

#[test]
fn timing_constants() {
    assert_eq!(COOLDOWN_MS, 1000);
    assert_eq!(SAMPLE_INTERVAL_MS, 50);
}

#[test]
fn held_chord_is_honoured_once_per_window() {
    let down = [Key::LeftShift, Key::LeftAlt, Key::LetterO];
    let mut cooldown = Cooldown::new();
    let mut honoured = Vec::new();
    for tick in 0u64..20 {
        let now = 7 + tick * SAMPLE_INTERVAL_MS;
        if cooldown.offer(sample(&down, now)) {
            honoured.push(now);
        }
    }
    assert_eq!(honoured, vec![7]);
}

#[test]
fn held_chord_is_honoured_again_after_the_window() {
    let down = [Key::LeftShift, Key::LeftAlt, Key::LetterO];
    let mut cooldown = Cooldown::new();
    let mut honoured = Vec::new();
    for tick in 0u64..=60 {
        let now = tick * SAMPLE_INTERVAL_MS;
        if cooldown.offer(sample(&down, now)) {
            honoured.push(now);
        }
    }
    assert_eq!(honoured, vec![0, 1000, 2000, 3000]);
}

#[test]
fn cooldown_boundary_is_inclusive() {
    let mut cooldown = Cooldown::new();
    assert!(cooldown.offer(Some(ActivationEvent { at_ms: 100 })));
    assert_eq!(cooldown.since, Some(100));
    assert!(!cooldown.offer(Some(ActivationEvent { at_ms: 1099 })));
    assert_eq!(cooldown.since, Some(100));
    assert!(cooldown.offer(Some(ActivationEvent { at_ms: 1100 })));
    assert_eq!(cooldown.since, Some(1100));
}

#[test]
fn cooldown_runs_from_the_end_of_the_run() {
    let mut cooldown = Cooldown::new();
    assert!(cooldown.offer(Some(ActivationEvent { at_ms: 0 })));
    cooldown.run_finished(700);
    assert_eq!(cooldown.since, Some(700));
    assert!(!cooldown.offer(Some(ActivationEvent { at_ms: 1000 })));
    assert!(!cooldown.offer(Some(ActivationEvent { at_ms: 1699 })));
    assert!(cooldown.offer(Some(ActivationEvent { at_ms: 1700 })));
}

#[test]
fn cooldown_ignores_a_clock_that_steps_back() {
    let mut cooldown = Cooldown::new();
    assert!(cooldown.offer(Some(ActivationEvent { at_ms: 5000 })));
    assert!(!cooldown.offer(Some(ActivationEvent { at_ms: 10 })));
    cooldown.run_finished(20);
    assert_eq!(cooldown.since, Some(5000));
    assert!(cooldown.offer(Some(ActivationEvent { at_ms: u64::MAX })));
    assert!(!cooldown.offer(Some(ActivationEvent { at_ms: u64::MAX })));
}

#[test]
fn cooldown_without_activation_stays_open() {
    let mut cooldown = Cooldown::new();
    assert_eq!(cooldown.since, None);
    assert!(!cooldown.offer(None));
    assert!(!cooldown.observe(LoopEvent::Sample { at_ms: 3, chord_down: false }));
    assert_eq!(cooldown.since, None);
    assert!(cooldown.observe(LoopEvent::Sample { at_ms: 4, chord_down: true }));
    assert!(!cooldown.observe(LoopEvent::RunFinished { at_ms: 9 }));
    assert_eq!(cooldown.since, Some(9));
}

#[test]
fn only_quit_ends_the_process() {
    assert_eq!(on_menu_poll(Some(MenuCommand::Quit)), Control::Exit);
    assert_eq!(on_menu_poll(Some(MenuCommand::Other)), Control::KeepRunning);
    assert_eq!(on_menu_poll(None), Control::KeepRunning);
}
