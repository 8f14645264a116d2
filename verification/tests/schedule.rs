use split_keyboard::keymap::SWITCH_COUNT;
use split_keyboard::schedule::{
    Step, ANNOUNCEMENT_PERIOD_MS, FEED_PERIOD_MS, PASS_LEN, REST_MS, WATCHDOG_TIMEOUT_MS,
};

#[test]
fn a_pass_takes_every_step_in_order() {
    let mut expected = vec![Step::ReadPosition];
    for switch in 0..SWITCH_COUNT {
        expected.push(Step::SamplePress(switch));
        expected.push(Step::SampleRelease(switch));
    }
    expected.push(Step::TakeReport);
    expected.push(Step::ShowLights);
    expected.push(Step::Rest);
    assert_eq!(expected.len(), PASS_LEN);
    let mut step = Step::ReadPosition;
    for expected in expected {
        assert_eq!(step, expected);
        step = step.next();
    }
    assert_eq!(step, Step::ReadPosition);
}

#[test]
fn periods() {
    assert_eq!(REST_MS, 5);
    assert_eq!(ANNOUNCEMENT_PERIOD_MS, 500);
    assert_eq!(WATCHDOG_TIMEOUT_MS, 1000);
    assert_eq!(FEED_PERIOD_MS, 500);
    for moment in 0..5000 {
        let since_feed = moment - moment / FEED_PERIOD_MS * FEED_PERIOD_MS;
        assert!(since_feed < WATCHDOG_TIMEOUT_MS);
    }
}
