use ashell::modules::clock::{Clock, Message};

#[test]
fn hours_on_both_dials() {
    assert_eq!(Clock::at(0).hours(), (0, 12));
    assert_eq!(Clock::at(1).hours(), (1, 1));
    assert_eq!(Clock::at(11).hours(), (11, 11));
    assert_eq!(Clock::at(12).hours(), (12, 12));
    assert_eq!(Clock::at(13).hours(), (13, 1));
    assert_eq!(Clock::at(23).hours(), (23, 11));
}

#[test]
fn hours_past_the_day_wrap() {
    assert_eq!(Clock::at(24).hours(), (0, 12));
    assert_eq!(Clock::at(37).hours(), (13, 1));
}

#[test]
fn tick_takes_the_given_hour() {
    let mut clock = Clock::at(9);
    clock.update_at(Message::Update, 10);
    assert_eq!(clock.hours(), (10, 10));
    clock.update_at(Message::Update, 48);
    assert_eq!(clock.hours(), (0, 12));
}
