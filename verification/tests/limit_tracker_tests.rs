use std::cell::RefCell;

use book_examples::limit_tracker::{LimitTracker, Messenger};

struct MockMessenger2 {
    sent_messages: RefCell<Vec<String>>,
}

impl MockMessenger2 {
    fn new() -> MockMessenger2 {
        MockMessenger2 { sent_messages: RefCell::new(vec![]) }
    }
}

impl Messenger for MockMessenger2 {
    fn send(&self, message: &str) {
        self.sent_messages.borrow_mut().push(String::from(message));
    }
}

#[test]
fn it_sends_an_over_75_percent_warning_message2() {
    let mock_messenger = MockMessenger2::new();
    let mut limit_tracker = LimitTracker::new(&mock_messenger, 100);

    limit_tracker.set_value(80);
    assert_eq!(mock_messenger.sent_messages.borrow().len(), 1);
}

#[test]
fn it_warns_at_exactly_three_quarters() {
    let mock_messenger = MockMessenger2::new();
    let mut limit_tracker = LimitTracker::new(&mock_messenger, 100);

    limit_tracker.set_value(75);
    assert_eq!(
        vec![String::from("Warning: You are at 75% of your quota.")],
        *mock_messenger.sent_messages.borrow(),
    );
}

#[test]
fn it_escalates_at_nine_tenths() {
    let mock_messenger = MockMessenger2::new();
    let mut limit_tracker = LimitTracker::new(&mock_messenger, 100);

    limit_tracker.set_value(90);
    assert_eq!(
        vec![String::from("Urgent: You are at 90% of your quota.")],
        *mock_messenger.sent_messages.borrow(),
    );
}

#[test]
fn it_reports_reaching_the_quota() {
    let mock_messenger = MockMessenger2::new();
    let mut limit_tracker = LimitTracker::new(&mock_messenger, 100);

    limit_tracker.set_value(100);
    assert_eq!(
        vec![String::from("Error: You are over your quota.")],
        *mock_messenger.sent_messages.borrow(),
    );
}

#[test]
fn it_stays_silent_below_three_quarters() {
    let mock_messenger = MockMessenger2::new();
    let mut limit_tracker = LimitTracker::new(&mock_messenger, 100);

    limit_tracker.set_value(74);
    assert!(mock_messenger.sent_messages.borrow().is_empty());
}
