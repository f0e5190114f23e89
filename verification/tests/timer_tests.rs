use herb_timer::timer::HerbTimer;
use herb_timer::render::duration_text_of;
use herb_timer::FIXED_DURATION_MS;

#[test]
fn fresh_timer_shows_no_progress() {
    let t = HerbTimer::new_at(1, 0);
    assert_eq!(t.progress_at(0), 0);
    assert!(!t.is_ready_at(0));
    assert_eq!(t.time_remaining_at(0), FIXED_DURATION_MS as i128);
    assert!(!t.paused);
    assert_eq!(t.elapsed_paused, 0);
    assert_eq!(t.last_pause_time, None);
}

#[test]
fn patch_names_follow_the_table() {
    let names = [
        "Falador",
        "Port Phasmatys",
        "Catherby",
        "Ardougne",
        "Hosidius",
        "Trollheim",
        "Weiss",
        "Civitas illa Fortis",
    ];
    for id in 1u8..=8 {
        let t = HerbTimer::new_at(id, 0);
        assert_eq!(t.patch_id, id);
        assert_eq!(t.patch_name, names[(id - 1) as usize]);
    }
}

#[test]
fn out_of_range_patch_id_falls_back_to_sentinel() {
    assert_eq!(HerbTimer::new_at(0, 0).patch_name, "Unknown");
    assert_eq!(HerbTimer::new_at(9, 0).patch_name, "Unknown");
    assert_eq!(HerbTimer::new_at(255, 0).patch_name, "Unknown");
}

#[test]
fn formatted_full_duration() {
    let t = HerbTimer::new_at(1, 0);
    assert_eq!(t.formatted_remaining_at(0), "90:00.000");
}

#[test]
fn formatted_mid_countdown_truncates_to_the_millisecond() {
    let t = HerbTimer::new_at(2, 0);
    // 2_699_001 ms remain: 44 minutes, 59 seconds, 1 millisecond.
    assert_eq!(t.formatted_remaining_at(2_700_999), "44:59.001");
}

#[test]
fn formatted_clamped_after_expiry() {
    // Advance the clock 91 minutes past the start without pausing.
    let t = HerbTimer::new_at(4, 0);
    let now = 91 * 60_000;
    assert!(t.is_ready_at(now));
    assert_eq!(t.formatted_remaining_at(now), "00:00.000");
    assert_eq!(t.progress_at(now), 1000);
    assert_eq!(t.time_remaining_at(now), -60_000);
}

#[test]
fn duration_text_exact_values() {
    assert_eq!(duration_text_of(0), "00:00.000");
    assert_eq!(duration_text_of(59_999), "00:59.999");
    assert_eq!(duration_text_of(61_001), "01:01.001");
    assert_eq!(duration_text_of(5_400_000), "90:00.000");
    // Minutes grow past two digits only when the value needs them.
    assert_eq!(duration_text_of(6_000_000), "100:00.000");
}

#[test]
fn pause_is_idempotent() {
    let mut t = HerbTimer::new_at(3, 0);
    t.pause_at(1_000);
    let once = (t.paused, t.elapsed_paused, t.last_pause_time, t.planted_at);
    t.pause_at(9_000);
    let twice = (t.paused, t.elapsed_paused, t.last_pause_time, t.planted_at);
    assert_eq!(once, twice);
    assert_eq!(t.last_pause_time, Some(1_000));
}

#[test]
fn resume_is_idempotent() {
    let mut t = HerbTimer::new_at(3, 0);
    t.pause_at(1_000);
    t.resume_at(4_000);
    let once = (t.paused, t.elapsed_paused, t.last_pause_time, t.planted_at);
    t.resume_at(9_000);
    let twice = (t.paused, t.elapsed_paused, t.last_pause_time, t.planted_at);
    assert_eq!(once, twice);
    assert_eq!(t.elapsed_paused, 3_000);
}

#[test]
fn pause_resume_round_trip_freezes_the_countdown() {
    // Create at T0; at T0+45min progress is exactly half.
    let mut t = HerbTimer::new_at(5, 0);
    let t0_45 = 45 * 60_000;
    assert_eq!(t.progress_at(t0_45), 500);
    let before_pause = t.time_remaining_at(t0_45);
    assert_eq!(before_pause, 2_700_000);

    // Pause at T0+45min; ten minutes later the value is frozen.
    t.pause_at(t0_45);
    let t0_55 = 55 * 60_000;
    assert_eq!(t.time_remaining_at(t0_55), before_pause);
    assert_eq!(t.progress_at(t0_55), 500);

    // Resume at T0+55min: remaining is unchanged at that instant...
    t.resume_at(t0_55);
    assert_eq!(t.time_remaining_at(t0_55), before_pause);
    assert_eq!(t.elapsed_paused, 10 * 60_000);

    // ...and keeps decreasing afterwards.
    assert_eq!(t.time_remaining_at(t0_55 + 90_000), before_pause - 90_000);
}

#[test]
fn reset_yields_a_fresh_epoch_from_any_state() {
    // Mid-countdown, while paused.
    let mut t = HerbTimer::new_at(6, 0);
    t.pause_at(100);
    t.reset_at(5_000);
    assert!(!t.paused);
    assert_eq!(t.elapsed_paused, 0);
    assert_eq!(t.last_pause_time, None);
    assert_eq!(t.planted_at, 5_000);
    assert_eq!(t.progress_at(5_000), 0);

    // Post-expiry.
    let mut u = HerbTimer::new_at(6, 0);
    assert!(u.is_ready_at(6_000_000));
    u.reset_at(6_000_000);
    assert!(!u.is_ready_at(6_000_000));
    assert_eq!(u.progress_at(6_000_000), 0);
    assert_eq!(u.time_remaining_at(6_000_000), FIXED_DURATION_MS as i128);
}

#[test]
fn resume_never_shrinks_the_pause_account() {
    // A clock reading earlier than the pause instant adds nothing.
    let mut t = HerbTimer::new_at(7, 1_000);
    t.pause_at(2_000);
    t.resume_at(1_500);
    assert!(!t.paused);
    assert_eq!(t.elapsed_paused, 0);
}

#[test]
fn progress_is_clamped_at_both_ends() {
    let t = HerbTimer::new_at(8, 1_000);
    // Queried before the start instant: no negative progress.
    assert_eq!(t.progress_at(500), 0);
    // The display widens past two-digit minutes rather than clamping.
    assert_eq!(t.formatted_remaining_at(500), "90:00.500");
    // Far past expiry: progress stays at one thousand per mille.
    assert_eq!(t.progress_at(1_000_000_000), 1000);
}

#[test]
fn wall_clock_queries_agree_with_injected_ones() {
    let mut t = HerbTimer::new(2);
    assert_eq!(t.patch_name, "Port Phasmatys");
    assert!(!t.is_ready());
    assert_eq!(t.progress(), 0);
    let remaining = t.time_remaining();
    assert!(remaining <= FIXED_DURATION_MS as i128);
    assert!(remaining > (FIXED_DURATION_MS - 60_000) as i128);
    assert_eq!(t.formatted_remaining().len(), 9);
    t.pause();
    assert!(t.paused);
    let frozen = t.time_remaining();
    assert_eq!(t.time_remaining(), frozen);
    t.resume();
    assert!(!t.paused);
    t.reset();
    assert!(!t.paused);
    assert_eq!(t.elapsed_paused, 0);
    assert_eq!(t.progress(), 0);
}
