use herb_timer::registry::TimerRegistry;

#[test]
fn empty_registry_has_no_entries_until_started() {
    let mut reg = TimerRegistry::new();
    for id in 1u8..=8 {
        assert!(reg.get(id).is_none());
    }
    reg.start_at(3, 0);
    for id in 1u8..=8 {
        if id == 3 {
            let t = reg.get(3).unwrap();
            assert_eq!(t.patch_id, 3);
            assert_eq!(t.patch_name, "Catherby");
            assert_eq!(t.planted_at, 0);
            assert!(!t.paused);
        } else {
            assert!(reg.get(id).is_none());
        }
    }
}

#[test]
fn start_never_overwrites_a_running_countdown() {
    let mut reg = TimerRegistry::new();
    reg.start_at(2, 0);
    reg.pause_at(2, 100);
    reg.start_at(2, 500);
    let t = reg.get(2).unwrap();
    assert_eq!(t.planted_at, 0);
    assert!(t.paused);
    assert_eq!(t.last_pause_time, Some(100));
}

#[test]
fn identifiers_out_of_range_are_ignored() {
    let mut reg = TimerRegistry::new();
    reg.start_at(0, 0);
    reg.start_at(9, 0);
    reg.start_at(200, 0);
    assert!(reg.get(0).is_none());
    assert!(reg.get(9).is_none());
    assert!(reg.get(200).is_none());
    for id in 1u8..=8 {
        assert!(reg.get(id).is_none());
    }
}

#[test]
fn actions_dispatch_onto_the_stored_timer() {
    let mut reg = TimerRegistry::new();
    reg.start_at(1, 0);
    reg.pause_at(1, 60_000);
    {
        let t = reg.get(1).unwrap();
        assert!(t.paused);
        // Frozen at the pause instant, whenever it is queried.
        assert_eq!(t.time_remaining_at(999_999), 5_400_000 - 60_000);
    }
    reg.resume_at(1, 120_000);
    {
        let t = reg.get(1).unwrap();
        assert!(!t.paused);
        assert_eq!(t.elapsed_paused, 60_000);
        assert_eq!(t.time_remaining_at(120_000), 5_400_000 - 60_000);
    }
    reg.reset_at(1, 200_000);
    {
        let t = reg.get(1).unwrap();
        assert!(!t.paused);
        assert_eq!(t.planted_at, 200_000);
        assert_eq!(t.elapsed_paused, 0);
    }
}

#[test]
fn actions_on_absent_entries_do_nothing() {
    let mut reg = TimerRegistry::new();
    reg.pause_at(4, 1_000);
    reg.resume_at(4, 2_000);
    reg.reset_at(4, 3_000);
    assert!(reg.get(4).is_none());
}

#[test]
fn wall_clock_registry_round_trip() {
    let mut reg = TimerRegistry::new();
    reg.start(5);
    {
        let t = reg.get(5).unwrap();
        assert_eq!(t.patch_name, "Hosidius");
        assert!(!t.paused);
        assert!(!t.is_ready());
        assert_eq!(t.progress(), 0);
    }
    reg.pause(5);
    assert!(reg.get(5).unwrap().paused);
    reg.resume(5);
    assert!(!reg.get(5).unwrap().paused);
    reg.reset(5);
    let t = reg.get(5).unwrap();
    assert!(!t.paused);
    assert_eq!(t.elapsed_paused, 0);
}
