use rlicker::clicker::{clicker_step, coarse_sleep_ns, plan_click, rand_jitter, ClickTiming, ClickerStep};
use rlicker::keys::BTN_LEFT;
use rlicker::state::{AppState, Field, Msg};

#[test]
fn jitter_stays_in_range() {
    let mut rng = rand::thread_rng();
    assert_eq!(rand_jitter(&mut rng, 0), 0);
    let draws: Vec<i64> = (0..300).map(|_| rand_jitter(&mut rng, 1000)).collect();
    assert!(draws.iter().all(|j| (-1000..=1000).contains(j)));
    assert!(draws.iter().any(|&j| j != -1000));
    assert!(draws.iter().any(|&j| j != 1000));
    for _ in 0..50 {
        let j = rand_jitter(&mut rng, 1);
        assert!((-1..=1).contains(&j));
    }
}

#[test]
fn plan_timing() {
    let p = plan_click(BTN_LEFT, 50, 0, 1000, 0);
    assert_eq!(p.timing(), ClickTiming { button: BTN_LEFT, hold_ms: 50, cycle_ms: 1000 });
    assert_eq!(p.hold_ns(), 50_000_000);
    let p = plan_click(BTN_LEFT, 50, -80, 10, -30);
    assert_eq!(p.timing(), ClickTiming { button: BTN_LEFT, hold_ms: 0, cycle_ms: 1 });
    let p = plan_click(BTN_LEFT, 50, 30, 10, 5);
    assert_eq!(p.timing(), ClickTiming { button: BTN_LEFT, hold_ms: 80, cycle_ms: 15 });
    let p = plan_click(BTN_LEFT, u32::MAX, u32::MAX as i64, u32::MAX, u32::MAX as i64);
    assert_eq!(p.timing().cycle_ms, 2 * u32::MAX as u64);
}

#[test]
fn wait_after_release() {
    let p = plan_click(BTN_LEFT, 50, 0, 1000, 0);
    assert_eq!(p.wait_after_release_ns(0), 1_000_000_000);
    assert_eq!(p.wait_after_release_ns(250_000_000), 750_000_000);
    assert_eq!(p.wait_after_release_ns(1_000_000_000), 0);
    assert_eq!(p.wait_after_release_ns(5_000_000_000), 0);
    assert_eq!(p.wait_after_release_ns(u128::MAX), 0);
}

#[test]
fn coarse_sleep() {
    assert_eq!(coarse_sleep_ns(0), 0);
    assert_eq!(coarse_sleep_ns(1_500_000), 0);
    assert_eq!(coarse_sleep_ns(1_500_001), 1_000_001);
    assert_eq!(coarse_sleep_ns(50_000_000), 49_500_000);
}

#[test]
fn steps() {
    let mut rng = rand::thread_rng();
    let mut st = AppState::new();
    match clicker_step(&st, &mut rng) {
        ClickerStep::Idle { pause_ms } => assert_eq!(pause_ms, 5),
        _ => panic!("stopped clicker must idle"),
    }
    st.transition(Msg::Toggle);
    match clicker_step(&st, &mut rng) {
        ClickerStep::Click(p) => {
            assert_eq!(p.timing(), ClickTiming { button: BTN_LEFT, hold_ms: 50, cycle_ms: 1000 })
        },
        _ => panic!("running clicker must click"),
    }
    st.set_field(Field::HoldJitter, "20");
    st.set_field(Field::IntervalJitter, "100");
    for _ in 0..100 {
        match clicker_step(&st, &mut rng) {
            ClickerStep::Click(p) => {
                let t = p.timing();
                assert!((30..=70).contains(&t.hold_ms));
                assert!((900..=1100).contains(&t.cycle_ms));
            },
            _ => panic!("running clicker must click"),
        }
    }
    st.request_shutdown();
    assert!(matches!(clicker_step(&st, &mut rng), ClickerStep::Stop));
    st.transition(Msg::Toggle);
    assert!(matches!(clicker_step(&st, &mut rng), ClickerStep::Stop));
}
