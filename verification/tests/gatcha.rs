use gatcha_machine::machine::{ConfigError, Machine, RowStyle};
use gatcha_machine::roulette::{Roulette, PHASE_STEPS};

fn names(list: &[&str]) -> Vec<String> {
    list.iter().map(|s| String::from(*s)).collect()
}

#[test]
fn spin_starts_at_first_item() {
    for len in 1..7usize {
        for target in 0..len {
            let r = Roulette::new(len, target);
            assert_eq!(r.current_index(), 0);
        }
    }
}

#[test]
fn spin_lands_on_target() {
    for len in 1..7usize {
        for target in 0..len {
            let r = Roulette { phase: PHASE_STEPS, len, target };
            assert_eq!(r.current_index(), target);
        }
    }
}

#[test]
fn settled_spin_stays_on_target() {
    let r = Roulette { phase: PHASE_STEPS + 500, len: 5, target: 3 };
    assert_eq!(r.current_index(), 3);
    assert!(r.is_settled());
}

#[test]
fn exact_indices_mid_spin() {
    // len 4, target 2: 18 virtual steps in all.
    // phase 250: eased progress 437_500 of 1_000_000, position 7, index 3.
    let r = Roulette { phase: 250, len: 4, target: 2 };
    assert_eq!(r.current_index(), 3);
    // phase 500: eased progress 750_000, position 13, index 1.
    let r = Roulette { phase: 500, len: 4, target: 2 };
    assert_eq!(r.current_index(), 1);
}

#[test]
fn index_never_moves_backward() {
    for (len, target) in [(4usize, 2usize), (10, 7), (1, 0), (100, 99)] {
        let mut r = Roulette::new(len, target);
        let mut prev = r.current_index();
        while !r.is_settled() {
            r.advance();
            let next = r.current_index();
            assert!(
                next == prev || next == (prev + 1) % len,
                "index jumped from {} to {} (len {})",
                prev,
                next,
                len
            );
            prev = next;
        }
        assert_eq!(prev, target);
    }
}

#[test]
fn index_is_pure() {
    let r = Roulette { phase: 321, len: 9, target: 4 };
    let first = r.current_index();
    let second = r.current_index();
    assert_eq!(first, second);
    let again = Roulette { phase: 321, len: 9, target: 4 };
    assert_eq!(again.current_index(), first);
}

#[test]
fn retrigger_replaces_spin() {
    let mut m = Machine::new(names(&["A", "B", "C", "D"]), None);
    assert_eq!(m.trigger(1), Ok(()));
    for _ in 0..300 {
        m.advance_frame();
    }
    assert_eq!(m.trigger(2), Ok(()));
    let r = m.roulette.as_ref().unwrap();
    assert_eq!(r.phase, 0);
    assert_eq!(r.target, 2);
    assert_eq!(r.len, 4);
    // The highlight is back on the first item, and nowhere else.
    assert_eq!(m.row_style(0), RowStyle::Highlighted);
    for i in 1..4 {
        assert_eq!(m.row_style(i), RowStyle::Plain);
    }
}

#[test]
fn seeded_spin_scenario() {
    // Four targets, spin rigged to land on "C" (index 2).
    let mut m = Machine::new(names(&["A", "B", "C", "D"]), None);
    assert_eq!(m.trigger(2), Ok(()));

    let mut seen = [false; 4];
    let mut wraps = 0usize;
    let mut prev = m.roulette.as_ref().unwrap().current_index();
    assert_eq!(prev, 0);
    seen[prev] = true;
    while m.needs_repaint() {
        m.advance_frame();
        let next = m.roulette.as_ref().unwrap().current_index();
        if next < prev {
            wraps += 1;
        }
        seen[next] = true;
        prev = next;
    }
    // The spin circled the whole list several times...
    assert!(wraps >= 4, "only {} laps", wraps);
    assert!(seen.iter().all(|s| *s));
    // ...and landed on the chosen target, styled as final from then on.
    assert_eq!(prev, 2);
    assert_eq!(m.row_style(2), RowStyle::Landed);
    for _ in 0..50 {
        m.advance_frame();
        assert_eq!(m.row_style(2), RowStyle::Landed);
    }
}

#[test]
fn empty_targets_reports_error() {
    let mut m = Machine::new(Vec::new(), None);
    assert_eq!(m.spin(), Err(ConfigError::EmptyTargets));
    assert_eq!(m.trigger(0), Err(ConfigError::EmptyTargets));
    assert!(m.roulette.is_none());
    assert_eq!(m.row_style(0), RowStyle::Plain);
    m.advance_frame();
    assert!(!m.needs_repaint());
}

#[test]
fn target_off_the_list_reports_error() {
    let mut m = Machine::new(names(&["A", "B", "C"]), None);
    assert_eq!(m.trigger(3), Err(ConfigError::TargetOutOfRange));
    assert!(m.roulette.is_none());
    assert_eq!(m.trigger(2), Ok(()));
    assert_eq!(m.trigger(7), Err(ConfigError::TargetOutOfRange));
    // The running spin survives a refused trigger.
    let r = m.roulette.as_ref().unwrap();
    assert_eq!(r.target, 2);
}

#[test]
fn random_spin_is_in_range() {
    let mut m = Machine::new(names(&["A", "B", "C", "D", "E"]), None);
    for _ in 0..50 {
        let target = m.spin().unwrap();
        assert!(target < 5);
        let r = m.roulette.as_ref().unwrap();
        assert_eq!(r.phase, 0);
        assert_eq!(r.len, 5);
        assert_eq!(r.target, target);
        assert_eq!(m.row_style(0), RowStyle::Highlighted);
    }
}

#[test]
fn repaint_pacing() {
    let mut m = Machine::new(names(&["A", "B"]), None);
    assert!(!m.needs_repaint());
    assert_eq!(m.trigger(1), Ok(()));
    assert!(m.needs_repaint());
    for _ in 0..PHASE_STEPS {
        assert!(m.needs_repaint());
        m.advance_frame();
    }
    assert!(!m.needs_repaint());
    let settled_phase = m.roulette.as_ref().unwrap().phase;
    assert_eq!(settled_phase, PHASE_STEPS);
    m.advance_frame();
    assert_eq!(m.roulette.as_ref().unwrap().phase, PHASE_STEPS);
    assert_eq!(m.row_style(1), RowStyle::Landed);
}

#[test]
fn construction_keeps_inputs() {
    let m = Machine::new(names(&["X", "Y"]), Some(vec![1u8, 2, 3]));
    assert_eq!(m.targets, names(&["X", "Y"]));
    assert_eq!(m.font, Some(vec![1u8, 2, 3]));
    assert!(m.roulette.is_none());

    let fallback = Machine::new(Vec::new(), None);
    assert!(fallback.font.is_none());
}
