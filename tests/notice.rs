use desktop_agent::notice::{
    amount_text, challenge_notice, daily_summary_notice, milestone_notice,
    milestone_notice_on_update,
};

#[test]
fn amount_with_four_decimals() {
    assert_eq!(amount_text(5000, 4), "0.5000");
    assert_eq!(amount_text(12345, 4), "1.2345");
    assert_eq!(amount_text(0, 4), "0.0000");
    assert_eq!(amount_text(-12345, 4), "-1.2345");
    assert_eq!(amount_text(1000000, 4), "100.0000");
}

#[test]
fn amount_with_two_decimals_rounds_halves_up() {
    assert_eq!(amount_text(12345, 2), "1.23");
    assert_eq!(amount_text(12350, 2), "1.24");
    assert_eq!(amount_text(99999, 2), "10.00");
    assert_eq!(amount_text(-12350, 2), "-1.24");
    assert_eq!(amount_text(0, 2), "0.00");
}

#[test]
fn amount_with_no_decimals() {
    assert_eq!(amount_text(15000, 0), "2");
    assert_eq!(amount_text(14999, 0), "1");
}

#[test]
fn amount_extremes() {
    assert_eq!(amount_text(i64::MIN, 4), "-922337203685477.5808");
    assert_eq!(amount_text(i64::MAX, 4), "922337203685477.5807");
    assert_eq!(amount_text(i64::MAX, 2), "922337203685477.58");
}

#[test]
fn challenge_notice_text() {
    let n = challenge_notice(5);
    assert_eq!(n.summary, "PoA Challenge Passed!");
    assert_eq!(n.body, "+0.0005 HBD earned");
}

#[test]
fn milestone_notice_shows_larger_amount() {
    let n = milestone_notice(500000, 10000);
    assert_eq!(n.summary, "Milestone Reached!");
    assert_eq!(n.body, "Total earned: 50.00 HBD");
    let m = milestone_notice(9999, 10000);
    assert_eq!(m.body, "Total earned: 1.00 HBD");
}

#[test]
fn daily_summary_text() {
    let n = daily_summary_notice(123456, 42);
    assert_eq!(n.summary, "Daily Earnings Summary");
    assert_eq!(n.body, "Daily earnings: 12.3456 HBD from 42 challenges");
    let z = daily_summary_notice(0, 0);
    assert_eq!(z.body, "Daily earnings: 0.0000 HBD from 0 challenges");
}

#[test]
fn notice_on_update_only_when_crossing() {
    let n = milestone_notice_on_update(50, 200).expect("crossing");
    assert_eq!(n.body, "Total earned: 0.02 HBD");
    let m = milestone_notice_on_update(5000, 500000).expect("crossing");
    assert_eq!(m.body, "Total earned: 50.00 HBD");
    assert!(milestone_notice_on_update(200, 900).is_none());
    assert!(milestone_notice_on_update(1000000, 1000000).is_none());
}
