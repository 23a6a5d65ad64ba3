use beatcli::clock::PlayClock;

#[test]
fn elapsed_counts_only_playing_time() {
    let mut c = PlayClock::new();
    assert_eq!(c.current_ms(0), 0);
    c.on_play(1000);
    assert_eq!(c.current_ms(1000), 0);
    assert_eq!(c.current_ms(3500), 2500);
    c.on_pause(4000);
    // frozen while paused, however much real time passes
    assert_eq!(c.current_ms(4000), 3000);
    assert_eq!(c.current_ms(60000), 3000);
    c.on_resume(10000);
    // resume does not add the paused stretch
    assert_eq!(c.current_ms(10000), 3000);
    assert_eq!(c.current_ms(11000), 4000);
}

#[test]
fn repeated_pause_resume_cycles_accumulate_no_error() {
    let mut c = PlayClock::new();
    c.on_play(0);
    let mut now: u128 = 0;
    for _ in 0..5 {
        now += 100; // play 100ms
        c.on_pause(now);
        now += 900; // pause 900ms
        c.on_resume(now);
    }
    assert_eq!(c.current_ms(now), 500);
}

#[test]
fn pausing_twice_keeps_the_first_pause_point() {
    let mut c = PlayClock::new();
    c.on_play(0);
    c.on_pause(1000);
    c.on_pause(5000);
    assert_eq!(c.current_ms(5000), 1000);
    c.on_resume(6000);
    assert_eq!(c.current_ms(6000), 1000);
}

#[test]
fn a_new_track_resets_the_clock() {
    let mut c = PlayClock::new();
    c.on_play(0);
    c.on_pause(500);
    c.on_play(2000);
    assert_eq!(c.current_ms(2600), 600);
    c.on_stop(3000);
    assert_eq!(c.current_ms(9999), 0);
}
