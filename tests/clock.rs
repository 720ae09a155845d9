use oscilloscope::wave::{ControlWrite, Key, PlaybackResource, Transport, VolumeStep};

const SECOND: u64 = 1_000_000_000;

fn bound_clock(start: u64) -> PlaybackResource {
    let mut clock = PlaybackResource::new(48000);
    clock.bind(start);
    clock
}

#[test]
fn unbound_clock_stays_at_zero() {
    let clock = PlaybackResource::new(44100);
    assert_eq!(clock.sample_rate(), 44100);
    assert!(!clock.is_bound());
    assert_eq!(clock.elapsed(0), 0);
    assert_eq!(clock.elapsed(5 * SECOND), 0);
}

#[test]
fn pause_before_binding_does_nothing() {
    let mut clock = PlaybackResource::new(48000);
    assert_eq!(clock.toggle_pause(3 * SECOND), ControlWrite::Nothing);
    assert_eq!(clock.handle_key(Key::Space, 4 * SECOND), ControlWrite::Nothing);
    assert_eq!(clock.set_time(SECOND, 5 * SECOND), ControlWrite::Nothing);
    assert_eq!(clock.handle_key(Key::ArrowUp, 5 * SECOND), ControlWrite::Nothing);
    assert_eq!(clock.elapsed(6 * SECOND), 0);
    // Once bound, the clock runs and was never paused.
    clock.bind(10 * SECOND);
    assert_eq!(clock.elapsed(12 * SECOND), 2 * SECOND);
}

#[test]
fn elapsed_counts_from_start() {
    let clock = bound_clock(100);
    assert_eq!(clock.elapsed(100), 0);
    assert_eq!(clock.elapsed(150), 50);
    // A reading before the start saturates at zero.
    assert_eq!(clock.elapsed(40), 0);
}

#[test]
fn pause_then_unpause_resumes_where_paused() {
    let mut clock = bound_clock(SECOND);
    assert_eq!(clock.pause(4 * SECOND), ControlWrite::Rate(Transport::Paused));
    assert_eq!(clock.elapsed(4 * SECOND), 3 * SECOND);
    assert_eq!(clock.elapsed(100 * SECOND), 3 * SECOND);
    assert_eq!(clock.unpause(250 * SECOND), ControlWrite::Rate(Transport::Playing));
    assert_eq!(clock.elapsed(250 * SECOND), 3 * SECOND);
    assert_eq!(clock.elapsed(251 * SECOND), 4 * SECOND);
}

#[test]
fn toggle_pause_flips_state() {
    let mut clock = bound_clock(0);
    assert_eq!(clock.toggle_pause(7), ControlWrite::Rate(Transport::Paused));
    assert_eq!(clock.elapsed(20), 7);
    assert_eq!(clock.toggle_pause(30), ControlWrite::Rate(Transport::Playing));
    assert_eq!(clock.elapsed(30), 7);
    assert_eq!(clock.elapsed(33), 10);
}

#[test]
fn unpause_while_playing_does_nothing() {
    let mut clock = bound_clock(10);
    assert_eq!(clock.unpause(50), ControlWrite::Nothing);
    assert_eq!(clock.elapsed(50), 40);
}

#[test]
fn seek_sets_position_playing() {
    let mut clock = bound_clock(SECOND);
    assert_eq!(clock.set_time(20 * SECOND, 5 * SECOND), ControlWrite::Seek(20 * SECOND));
    assert_eq!(clock.elapsed(5 * SECOND), 20 * SECOND);
    assert_eq!(clock.elapsed(6 * SECOND), 21 * SECOND);
}

#[test]
fn seek_sets_position_paused() {
    let mut clock = bound_clock(SECOND);
    clock.pause(2 * SECOND);
    assert_eq!(clock.set_time(30 * SECOND, 3 * SECOND), ControlWrite::Seek(30 * SECOND));
    assert_eq!(clock.elapsed(3 * SECOND), 30 * SECOND);
    assert_eq!(clock.elapsed(9 * SECOND), 30 * SECOND);
    // Unpausing plays on from the sought position, even past the clock reading.
    clock.unpause(4 * SECOND);
    assert_eq!(clock.elapsed(4 * SECOND), 30 * SECOND);
    assert_eq!(clock.elapsed(5 * SECOND), 31 * SECOND);
}

#[test]
fn keys_map_to_controller_writes() {
    let mut clock = bound_clock(0);
    assert_eq!(clock.handle_key(Key::ArrowUp, 1), ControlWrite::Volume(VolumeStep::Up));
    assert_eq!(clock.handle_key(Key::ArrowDown, 1), ControlWrite::Volume(VolumeStep::Down));
    assert_eq!(clock.handle_key(Key::Other, 1), ControlWrite::Nothing);
    assert_eq!(clock.handle_key(Key::Space, 5), ControlWrite::Rate(Transport::Paused));
    assert_eq!(clock.handle_key(Key::R, 9), ControlWrite::Seek(0));
    assert_eq!(clock.elapsed(9), 0);
    assert_eq!(clock.handle_key(Key::Space, 12), ControlWrite::Rate(Transport::Playing));
    assert_eq!(clock.elapsed(15), 3);
}
