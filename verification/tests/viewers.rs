use reedstreams::viewers::ActiveViewers;

#[test]
fn unseen_match_counts_zero() {
    let v = ActiveViewers::new();
    assert_eq!(v.get_count("m1"), 0);
}

#[test]
fn increment_counts_up_by_one() {
    let mut v = ActiveViewers::new();
    assert_eq!(v.increment("m1"), 1);
    assert_eq!(v.increment("m1"), 2);
    assert_eq!(v.get_count("m1"), 2);
}

#[test]
fn increment_then_decrement_restores_count() {
    let mut v = ActiveViewers::new();
    v.increment("m1");
    v.increment("m1");
    let before = v.get_count("m1");
    v.increment("m1");
    assert_eq!(v.decrement("m1"), before);
    assert_eq!(v.get_count("m1"), before);
}

#[test]
fn decrement_of_unseen_match_is_zero_and_keeps_it_uncounted() {
    let mut v = ActiveViewers::new();
    assert_eq!(v.decrement("ghost"), 0);
    assert_eq!(v.get_count("ghost"), 0);
    assert_eq!(v.increment("ghost"), 1);
}

#[test]
fn decrement_never_goes_below_zero() {
    let mut v = ActiveViewers::new();
    v.increment("m1");
    assert_eq!(v.decrement("m1"), 0);
    assert_eq!(v.decrement("m1"), 0);
    assert_eq!(v.get_count("m1"), 0);
}

#[test]
fn other_matches_are_untouched() {
    let mut v = ActiveViewers::new();
    v.increment("a");
    v.increment("b");
    v.increment("b");
    v.decrement("a");
    assert_eq!(v.get_count("a"), 0);
    assert_eq!(v.get_count("b"), 2);
}

#[test]
fn subscribe_reports_current_count_and_keeps_it() {
    let mut v = ActiveViewers::new();
    let (c0, _rx0) = v.subscribe("m1");
    assert_eq!(c0, 0);
    v.increment("m1");
    v.increment("m1");
    let (c, _rx) = v.subscribe("m1");
    assert_eq!(c, 2);
    assert_eq!(v.get_count("m1"), 2);
}

#[test]
fn subscribers_receive_later_counts() {
    let mut v = ActiveViewers::new();
    let (_, mut rx) = v.subscribe("m1");
    v.increment("m1");
    v.increment("m1");
    v.decrement("m1");
    assert_eq!(rx.try_recv().unwrap(), 1);
    assert_eq!(rx.try_recv().unwrap(), 2);
    assert_eq!(rx.try_recv().unwrap(), 1);
    assert!(rx.try_recv().is_err());
}

#[test]
fn counts_without_subscribers_are_still_kept() {
    let mut v = ActiveViewers::new();
    assert_eq!(v.increment("solo"), 1);
    assert_eq!(v.get_count("solo"), 1);
}

#[test]
fn second_subscriber_shares_the_channel() {
    let mut v = ActiveViewers::new();
    assert_eq!(v.increment("m"), 1);
    let (c1, mut rx1) = v.subscribe("m");
    let (c2, mut rx2) = v.subscribe("m");
    assert_eq!((c1, c2, v.get_count("m")), (1, 1, 1));
    assert_eq!(v.increment("m"), 2);
    assert_eq!(rx1.try_recv().unwrap(), 2);
    assert_eq!(rx2.try_recv().unwrap(), 2);
}

#[test]
fn decrement_is_announced_to_subscribers() {
    let mut v = ActiveViewers::new();
    let (_, mut rx) = v.subscribe("m");
    assert_eq!(v.decrement("m"), 0);
    assert_eq!(rx.try_recv().unwrap(), 0);
    assert_eq!(v.decrement("never"), 0);
    assert!(rx.try_recv().is_err());
}
