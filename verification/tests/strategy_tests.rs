use premium_monitor::strategy::{AlertState, AlertStrategy};

#[test]
fn new_strategy_has_no_streaks() {
    let s = AlertStrategy::new(3);
    assert_eq!(s.min_hits(), 3);
    assert_eq!(s.hits("OKX"), 0);
    assert_eq!(s.hits(""), 0);
    assert!(!s.is_alerting("OKX"));
    assert_eq!(s.state_of("OKX"), AlertState { consecutive_below: 0, alerting: false });
}

#[test]
fn should_alert_fires_when_streak_reaches_min_hits() {
    let mut s = AlertStrategy::new(3);
    assert!(!s.should_alert("OKX", true));
    assert_eq!(s.hits("OKX"), 1);
    assert!(!s.should_alert("OKX", true));
    assert_eq!(s.hits("OKX"), 2);
    assert!(!s.is_alerting("OKX"));
    assert!(s.should_alert("OKX", true));
    assert_eq!(s.state_of("OKX"), AlertState { consecutive_below: 3, alerting: true });
}

#[test]
fn should_alert_is_silent_past_min_hits() {
    let mut s = AlertStrategy::new(2);
    assert!(!s.should_alert("OKX", true));
    assert!(s.should_alert("OKX", true));
    assert!(!s.should_alert("OKX", true));
    assert!(!s.should_alert("OKX", true));
    assert_eq!(s.hits("OKX"), 4);
    assert!(s.is_alerting("OKX"));
}

#[test]
fn should_alert_resets_on_a_round_not_below() {
    let mut s = AlertStrategy::new(2);
    assert!(!s.should_alert("OKX", true));
    assert!(!s.should_alert("OKX", false));
    assert_eq!(s.hits("OKX"), 0);
    assert!(!s.should_alert("OKX", true));
    assert!(s.should_alert("OKX", true));
}

#[test]
fn should_alert_confirms_no_second_alert_without_a_reset() {
    let mut s = AlertStrategy::new(1);
    assert!(s.should_alert("OKX", true));
    assert!(!s.should_alert("OKX", false));
    assert_eq!(s.state_of("OKX"), AlertState { consecutive_below: 0, alerting: true });
    assert!(!s.should_alert("OKX", true));
    assert!(!s.should_alert("OKX", false));
    assert!(!s.should_alert("OKX", true));
    assert!(!s.should_alert("OKX", true));
    assert!(s.is_alerting("OKX"));
}

#[test]
fn should_alert_confirms_once_in_any_mix_of_rounds() {
    let rounds = [
        true, false, true, true, false, false, true, true, true, true, false, true, true, true,
        false, true,
    ];
    for min_hits in 1..=4u32 {
        let mut s = AlertStrategy::new(min_hits);
        let mut alerts = 0;
        let mut streak = 0;
        for below in rounds {
            streak = if below { streak + 1 } else { 0 };
            let alert = s.should_alert("OKX", below);
            if alert {
                alerts += 1;
                assert_eq!(streak, min_hits);
            }
            assert_eq!(s.hits("OKX"), streak);
            assert_eq!(s.is_alerting("OKX"), alerts > 0);
        }
        assert_eq!(alerts, 1);
    }
}

#[test]
fn should_alert_confirms_again_after_a_reset() {
    let mut s = AlertStrategy::new(1);
    assert!(s.should_alert("OKX", true));
    assert!(!s.should_alert("OKX", false));
    s.reset_if_needed("OKX");
    assert!(!s.is_alerting("OKX"));
    assert!(s.should_alert("OKX", true));
    assert!(!s.should_alert("OKX", true));
}

#[test]
fn should_alert_with_zero_min_hits_confirms_on_the_first_breach() {
    let mut s = AlertStrategy::new(0);
    assert!(!s.should_alert("OKX", false));
    assert!(s.should_alert("OKX", true));
    assert!(!s.should_alert("OKX", true));
}

#[test]
fn should_alert_counts_each_source_alone() {
    let mut s = AlertStrategy::new(2);
    assert!(!s.should_alert("OKX", true));
    assert!(!s.should_alert("Binance", true));
    assert!(!s.should_alert("Binance", false));
    assert!(s.should_alert("OKX", true));
    assert_eq!(s.hits("OKX"), 2);
    assert_eq!(s.hits("Binance"), 0);
    assert!(s.is_alerting("OKX"));
    assert!(!s.is_alerting("Binance"));
    assert!(!s.should_alert("Binance", true));
    assert!(s.should_alert("Binance", true));
}

#[test]
fn reset_if_needed_ends_the_streak_and_the_alert() {
    let mut s = AlertStrategy::new(3);
    s.should_alert("OKX", true);
    s.should_alert("OKX", true);
    s.should_alert("Binance", true);
    s.reset_if_needed("OKX");
    assert_eq!(s.hits("OKX"), 0);
    assert_eq!(s.hits("Binance"), 1);
    assert_eq!(s.min_hits(), 3);
    assert!(!s.should_alert("OKX", true));
    assert!(!s.should_alert("OKX", true));
    assert!(s.should_alert("OKX", true));
    assert!(!s.should_alert("OKX", true));
    s.reset_if_needed("OKX");
    assert_eq!(s.state_of("OKX"), AlertState { consecutive_below: 0, alerting: false });
    assert!(!s.should_alert("OKX", true));
    assert!(!s.should_alert("OKX", true));
    assert!(s.should_alert("OKX", true));
}

#[test]
fn reset_if_needed_on_an_unseen_source() {
    let mut s = AlertStrategy::new(1);
    s.reset_if_needed("OKX");
    assert_eq!(s.hits("OKX"), 0);
    assert!(s.should_alert("OKX", true));
}
