use neotron_bmc::debounce::{Debouncer, Edge, DEBOUNCE_LONG_DEPTH, DEBOUNCE_SHORT_DEPTH};

#[test]
fn short_depth_needs_two_samples() {
    let mut d = Debouncer::new(DEBOUNCE_SHORT_DEPTH, false);
    assert_eq!(d.update(true), None);
    assert_eq!(d.update(true), Some(Edge::Rising));
}

#[test]
fn fewer_than_depth_samples_report_nothing() {
    let mut d = Debouncer::new(DEBOUNCE_LONG_DEPTH, false);
    for _ in 0..15 {
        assert_eq!(d.update(true), None);
    }
}

#[test]
fn exactly_depth_samples_report_one_edge() {
    let mut d = Debouncer::new(DEBOUNCE_LONG_DEPTH, false);
    let mut edges = 0;
    for _ in 0..16 {
        if d.update(true).is_some() {
            edges += 1;
        }
    }
    assert_eq!(edges, 1);
}

#[test]
fn holding_reports_no_further_edges() {
    let mut d = Debouncer::new(DEBOUNCE_SHORT_DEPTH, false);
    d.update(true);
    assert_eq!(d.update(true), Some(Edge::Rising));
    for _ in 0..20 {
        assert_eq!(d.update(true), None);
    }
}

#[test]
fn release_reports_falling_after_depth() {
    let mut d = Debouncer::new(DEBOUNCE_SHORT_DEPTH, false);
    d.update(true);
    d.update(true);
    assert_eq!(d.update(false), None);
    assert_eq!(d.update(false), Some(Edge::Falling));
}

#[test]
fn bounce_does_not_reach_the_edge() {
    let mut d = Debouncer::new(DEBOUNCE_SHORT_DEPTH, false);
    for _ in 0..10 {
        assert_eq!(d.update(true), None);
        assert_eq!(d.update(false), None);
    }
}

#[test]
fn initially_pressed_channel_waits_for_release() {
    let mut d = Debouncer::new(DEBOUNCE_SHORT_DEPTH, true);
    assert_eq!(d.update(true), None);
    assert_eq!(d.update(false), None);
    assert_eq!(d.update(false), Some(Edge::Falling));
}
