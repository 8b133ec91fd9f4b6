use pickup_core::domain::get_rsvp_str;
use pickup_core::domain::orient_pair;
use pickup_core::domain::rsvp_to_confirmation;
use pickup_core::domain::rsvp_to_decision;
use pickup_core::domain::ConfirmationState;
use pickup_core::domain::Rsvp;
use pickup_core::domain::RsvpDecision;
use pickup_core::requests::Count;
use pickup_core::requests::SignIn;

#[test]
fn rsvp_labels_match_the_store() {
    assert_eq!(get_rsvp_str(Rsvp::Pending), "Pending");
    assert_eq!(get_rsvp_str(Rsvp::Yes), "Yes");
    assert_eq!(get_rsvp_str(Rsvp::No), "No");
}

#[test]
fn wire_status_splits_into_the_two_domains() {
    assert_eq!(rsvp_to_decision(Rsvp::Pending), RsvpDecision::Pending);
    assert_eq!(rsvp_to_decision(Rsvp::Yes), RsvpDecision::Accepted);
    assert_eq!(rsvp_to_decision(Rsvp::No), RsvpDecision::Declined);
    assert_eq!(rsvp_to_confirmation(Rsvp::Pending), ConfirmationState::Pending);
    assert_eq!(rsvp_to_confirmation(Rsvp::Yes), ConfirmationState::Confirmed);
    assert_eq!(rsvp_to_confirmation(Rsvp::No), ConfirmationState::Disputed);
}

#[test]
fn orient_pair_puts_the_viewer_first() {
    assert_eq!(orient_pair(1, 1, 2), (1, 2));
    assert_eq!(orient_pair(2, 1, 2), (2, 1));
}

#[test]
fn request_rows_hold_plain_values() {
    let body = SignIn { username: String::from("ada"), password: String::from("pw") };
    assert_eq!(body.username, "ada");
    let count = Count { count: None };
    assert_eq!(count.count.unwrap_or(0), 0);
}
