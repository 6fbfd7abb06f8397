use greaheisl::button_processor::ButtonFlagsTrait;
use greaheisl::milliseconds::InstantMillis;
use greaheisl::system::{
    daytime_to_seconds, get_time_left, normalize_immediate_out_entry, seconds_to_daytime,
    update_relay_states, ButtonFlags, ImmediateOutEntry, RtcTime, ScheduledOutEntry, Settings,
    SignalFlags, SystemInputs,
};

#[test]
fn instant_arithmetic() {
    let t = InstantMillis::from_absolute(20);
    assert_eq!(t.into_inner(), 20);
    assert_eq!(t.sub(InstantMillis::from_absolute(5)), 15);
    assert_eq!(InstantMillis::from_absolute(5).sub(t), -15);
    // wraparound: 5 lies 10 ms after u32::MAX - 4
    assert_eq!(
        InstantMillis::from_absolute(5).sub(InstantMillis::from_absolute(u32::MAX - 4)),
        10
    );
    assert_eq!(
        InstantMillis::from_absolute(u32::MAX - 4).sub(InstantMillis::from_absolute(5)),
        -10
    );
    assert_eq!(InstantMillis::from_absolute(u32::MAX).add(1).into_inner(), 0);
    assert_eq!(InstantMillis::from_absolute(0).add(-1).into_inner(), u32::MAX);
    let mut t2 = InstantMillis::from_absolute(100);
    t2.add_assign(-150);
    assert_eq!(t2.into_inner(), u32::MAX - 49);
    // t1 + (t2 - t1) == t2, also across the wrap boundary
    let t1 = InstantMillis::from_absolute(u32::MAX - 10);
    let t2 = InstantMillis::from_absolute(30);
    assert_eq!(t1.add(t2.sub(t1)).into_inner(), 30);
}

#[test]
fn button_flag_operations() {
    let none = ButtonFlags::none();
    assert!(none.is_none());
    assert_eq!(none.bits(), 0);
    let combo = ButtonFlags::prev().union(ButtonFlags::next());
    assert_eq!(combo.bits(), 2 | 4);
    assert!(!combo.is_none());
    assert!(combo.contains(ButtonFlags::prev()));
    assert!(combo.contains(ButtonFlags::next()));
    assert!(!combo.contains(ButtonFlags::enter()));
    assert!(combo.contains(none));
    assert!(combo.same_as(ButtonFlags::next().union(ButtonFlags::prev())));
    assert!(!combo.same_as(ButtonFlags::prev()));
    assert_eq!(ButtonFlags::escape().bits(), 1);
    assert_eq!(ButtonFlags::enter().bits(), 8);
}

#[test]
fn signal_flag_operations() {
    assert_eq!(SignalFlags::default(), SignalFlags::none());
    assert!(SignalFlags::button().intersects(SignalFlags::button()));
    assert!(!SignalFlags::none().intersects(SignalFlags::button()));
    let inputs = SystemInputs::default();
    assert_eq!(inputs.signals, SignalFlags::none());
    assert!(inputs.buttons.is_none());
}

#[test]
fn daytime_conversions() {
    assert_eq!(daytime_to_seconds(1, 2, 3), 3723);
    assert_eq!(seconds_to_daytime(3723), (1, 2, 3));
    assert_eq!(daytime_to_seconds(23, 59, 59), 86399);
    assert_eq!(seconds_to_daytime(86399), (23, 59, 59));
    assert_eq!(seconds_to_daytime(0), (0, 0, 0));
    // wraps around at midnight
    assert_eq!(seconds_to_daytime(86400 + 61), (0, 1, 1));
}

#[test]
fn normalize_immediate_entry() {
    // a running entry is rebased to `now`, keeping the remaining time
    let mut entry = Some(ImmediateOutEntry {
        start: InstantMillis::from_absolute(100),
        duration: 500,
    });
    normalize_immediate_out_entry(&mut entry, InstantMillis::from_absolute(400));
    let rebased = entry.clone().unwrap();
    assert_eq!(rebased.start.into_inner(), 400);
    assert_eq!(rebased.duration, 200);
    assert_eq!(get_time_left(&entry, InstantMillis::from_absolute(400)), 200);
    assert_eq!(get_time_left(&entry, InstantMillis::from_absolute(900)), 0);

    // an expired entry is cleared
    normalize_immediate_out_entry(&mut entry, InstantMillis::from_absolute(600));
    assert!(entry.is_none());
    normalize_immediate_out_entry(&mut entry, InstantMillis::from_absolute(700));
    assert!(entry.is_none());
    assert_eq!(get_time_left(&entry, InstantMillis::from_absolute(700)), 0);
}

#[test]
fn relay_states_tick() {
    let rtc = RtcTime { hour: 7, minute: 0, second: 30 };
    let seven = ScheduledOutEntry { start_hour: 7, start_minute: 0, duration: 60_000 };
    let idle = ScheduledOutEntry::default();
    let now = InstantMillis::from_absolute(10_000);
    let mut settings = Settings {
        immediate_out: [
            None,
            Some(ImmediateOutEntry { start: InstantMillis::from_absolute(8_000), duration: 5_000 }),
            Some(ImmediateOutEntry { start: InstantMillis::from_absolute(1_000), duration: 2_000 }),
            None,
        ],
        scheduled_out: [
            [seven, idle, idle],
            [idle; 3],
            [idle; 3],
            [idle; 3],
        ],
    };
    let mut stops = [[None; 3]; 4];
    let states = update_relay_states(&mut settings, &mut stops, now, &rtc);
    // relay 0: its scheduled entry starts at 7:00; relay 1: immediate entry
    // still running; relay 2: immediate entry expired and cleared; relay 3: idle
    assert_eq!(states, [true, true, false, false]);
    assert_eq!(stops[0][0].unwrap().into_inner(), 70_000);
    let rebased = settings.immediate_out[1].unwrap();
    assert_eq!(rebased.start.into_inner(), 10_000);
    assert_eq!(rebased.duration, 3_000);
    assert!(settings.immediate_out[2].is_none());

    // a second tick past every stop instant switches everything off
    let later = InstantMillis::from_absolute(80_000);
    let off_rtc = RtcTime { hour: 7, minute: 5, second: 0 };
    let states = update_relay_states(&mut settings, &mut stops, later, &off_rtc);
    assert_eq!(states, [false, false, false, false]);
    assert_eq!(stops, [[None; 3]; 4]);
    assert!(settings.immediate_out.iter().all(|e| e.is_none()));
}
