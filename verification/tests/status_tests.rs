use fastclient::models::{Customer, StatusCount, UpdateCustomer};
use fastclient::status::{
    is_valid_status, status_badge, status_badge_for, status_class, status_label, tally_statuses,
    STATUSES,
};

fn count(status: &str, n: i64) -> StatusCount {
    StatusCount { status: status.to_string(), count: n }
}

#[test]
fn labels_of_each_status() {
    assert_eq!(status_label("new"), "New");
    assert_eq!(status_label("contacted"), "Contacted");
    assert_eq!(status_label("callback"), "Callback");
    assert_eq!(status_label("follow_up"), "Follow Up");
    assert_eq!(status_label("lost"), "Unknown");
    assert_eq!(status_label("New"), "Unknown");
}

#[test]
fn classes_of_each_status() {
    assert_eq!(status_class("new"), "bg-green-100 text-green-800 dark:bg-green-900/40 dark:text-green-300");
    assert_eq!(status_class("follow_up"), "bg-purple-100 text-purple-800 dark:bg-purple-900/40 dark:text-purple-300");
    assert_eq!(status_class(""), "bg-gray-100 text-gray-800 dark:bg-gray-900/40 dark:text-gray-300");
}

#[test]
fn badge_html() {
    assert_eq!(
        status_badge_for("callback"),
        r#"<span class="px-2 inline-flex text-xs leading-5 font-semibold rounded-full bg-yellow-100 text-yellow-800 dark:bg-yellow-900/40 dark:text-yellow-300">Callback</span>"#
    );
    let c = Customer {
        id: 0,
        name: "X".to_string(),
        email: None,
        phone: None,
        website: None,
        city: None,
        state: None,
        industry: None,
        status: "new".to_string(),
        needs_review: false,
        review_reason: None,
        created_at: 0,
        updated_at: 0,
    };
    assert_eq!(c.get_status_label(), "New");
    assert_eq!(status_badge(&c), status_badge_for("new"));
}

#[test]
fn known_statuses() {
    for s in STATUSES {
        assert!(is_valid_status(s));
        assert_ne!(status_label(s), "Unknown");
    }
    assert!(!is_valid_status("follow up"));
}

#[test]
fn tally_keeps_the_last_count_per_status() {
    let rows = vec![count("new", 3), count("callback", 2), count("new", 5), count("lost", 4)];
    let t = tally_statuses(&rows).unwrap();
    assert_eq!(t.new_count, 5);
    assert_eq!(t.callback_count, 2);
    assert_eq!(t.contacted_count, 0);
    assert_eq!(t.follow_up_count, 0);
    assert_eq!(t.total, 11);
}

#[test]
fn empty_tally() {
    let t = tally_statuses(&vec![]).unwrap();
    assert_eq!(t.total, 0);
    assert_eq!(t.new_count, 0);
}

#[test]
fn status_only_update() {
    let u = UpdateCustomer::status_only("contacted".to_string());
    assert_eq!(u.status.as_deref(), Some("contacted"));
    assert!(u.name.is_none() && u.phone.is_none() && u.industry.is_none());
}

#[test]
fn tally_refuses_a_total_beyond_i64() {
    assert!(tally_statuses(&vec![count("new", i64::MAX), count("lost", 1)]).is_none());
    assert!(tally_statuses(&vec![count("new", i64::MAX), count("new", 1)]).is_some());
}
