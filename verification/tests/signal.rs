use ayo::{Access, ActiveState, High, Interrupt, IoDir, Level, Low, PinState};

#[test]
fn not_gives_the_other_level() {
    assert_eq!(!Level::Low, Level::High);
    assert_eq!(!Level::High, Level::Low);
}

#[test]
fn inverting_twice_gives_the_level_back() {
    assert_eq!(!!Level::Low, Level::Low);
    assert_eq!(!!Level::High, Level::High);
}

#[test]
fn a_level_differs_from_its_inversion() {
    assert_ne!(!Level::Low, Level::Low);
    assert_ne!(!Level::High, Level::High);
}

#[test]
fn high_marker_is_active_high() {
    assert_eq!(High::active_state(), Level::High);
}

#[test]
fn low_marker_is_active_low() {
    assert_eq!(Low::active_state(), Level::Low);
}

#[test]
fn levels_copy_and_compare() {
    let level = Level::High;
    let copy = level;
    assert_eq!(level, copy);
    assert_ne!(Level::Low, Level::High);
    assert_eq!(format!("{:?}", Level::Low), "Low");
    assert_eq!(format!("{:?}", Level::High), "High");
}

#[test]
fn interrupt_modes_are_five_distinct_values() {
    let modes = [
        Interrupt::Off,
        Interrupt::RisingEdge,
        Interrupt::FallingEgdge,
        Interrupt::Low,
        Interrupt::High,
    ];
    for (i, a) in modes.iter().enumerate() {
        for (j, b) in modes.iter().enumerate() {
            assert_eq!(a == b, i == j);
        }
    }
}

#[test]
fn directions_are_two_distinct_values() {
    assert_ne!(IoDir::In, IoDir::Out);
    assert_eq!(IoDir::In, IoDir::In);
    assert_eq!(IoDir::Out, IoDir::Out);
}

#[test]
fn pin_states_compare_field_by_field() {
    let state = PinState { dir: IoDir::Out, interrupt: Interrupt::Off, level: Level::High };
    assert_eq!(state, PinState { dir: IoDir::Out, interrupt: Interrupt::Off, level: Level::High });
    assert_ne!(state, PinState { dir: IoDir::In, ..state });
    assert_ne!(state, PinState { interrupt: Interrupt::RisingEdge, ..state });
    assert_ne!(state, PinState { level: !state.level, ..state });
}

#[test]
fn accesses_compare_by_kind_pin_and_value() {
    assert_eq!(Access::Write(3, Level::High), Access::Write(3, Level::High));
    assert_ne!(Access::Write(3, Level::High), Access::Write(3, Level::Low));
    assert_ne!(Access::Write(3, Level::High), Access::Write(4, Level::High));
    assert_ne!(Access::SetDir(3, IoDir::Out), Access::SetDir(3, IoDir::In));
    assert_ne!(
        Access::SetInterrupt(3, Interrupt::Low),
        Access::SetInterrupt(3, Interrupt::High)
    );
}
