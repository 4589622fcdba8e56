use ecies_study::envelope::send_message;
use ecies_study::envelope::verify_and_decrypt_message_info;
use ecies_study::error::EciesError;
use ecies_study::keys::generate_keypair;
use ecies_study::keys::PublicKey;
use ecies_study::state::receive_outcome;
use ecies_study::state::send_outcome;
use ecies_study::state::MessageEvent;
use ecies_study::state::MessageState;

const STATES: [MessageState; 6] = [
    MessageState::Unsent,
    MessageState::Assembled,
    MessageState::InTransit,
    MessageState::Received,
    MessageState::Decrypted,
    MessageState::Rejected,
];

const EVENTS: [MessageEvent; 5] = [
    MessageEvent::Sealed,
    MessageEvent::HandedOver,
    MessageEvent::Delivered,
    MessageEvent::Opened,
    MessageEvent::Failed,
];

#[test]
fn a_message_goes_from_unsent_to_decrypted() {
    let state = MessageState::Unsent;
    let state = state.next(MessageEvent::Sealed).unwrap();
    assert_eq!(state, MessageState::Assembled);
    let state = state.next(MessageEvent::HandedOver).unwrap();
    assert_eq!(state, MessageState::InTransit);
    let state = state.next(MessageEvent::Delivered).unwrap();
    assert_eq!(state, MessageState::Received);
    let state = state.next(MessageEvent::Opened).unwrap();
    assert_eq!(state, MessageState::Decrypted);
}

#[test]
fn terminal_states_are_final() {
    for event in EVENTS {
        assert_eq!(MessageState::Decrypted.next(event), None);
        assert_eq!(MessageState::Rejected.next(event), None);
    }
}

#[test]
fn any_failure_rejects() {
    for state in [
        MessageState::Unsent,
        MessageState::Assembled,
        MessageState::InTransit,
        MessageState::Received,
    ] {
        assert_eq!(state.next(MessageEvent::Failed), Some(MessageState::Rejected));
    }
}

#[test]
fn only_the_event_that_is_due_is_taken() {
    let mut taken = 0;
    for state in STATES {
        for event in EVENTS {
            if state.next(event).is_some() {
                taken += 1;
            }
        }
    }
    // Four steps forward and four ways to fail.
    assert_eq!(taken, 8);
    assert_eq!(MessageState::Unsent.next(MessageEvent::Opened), None);
    assert_eq!(MessageState::Assembled.next(MessageEvent::Sealed), None);
    assert_eq!(MessageState::Received.next(MessageEvent::Delivered), None);
}

#[test]
fn outcomes_become_events() {
    let alice = generate_keypair();
    let bob = generate_keypair();

    let sent = send_message(b"milady", &alice, bob.public_key());
    assert_eq!(send_outcome(&sent), MessageEvent::Sealed);
    let opened = verify_and_decrypt_message_info(sent.unwrap(), bob.secret_key());
    assert_eq!(receive_outcome(&opened), MessageEvent::Opened);

    let lost = send_message(b"milady", &alice, &PublicKey { bytes: vec![] });
    assert_eq!(send_outcome(&lost), MessageEvent::Failed);
    assert_eq!(receive_outcome(&Err(EciesError::AuthenticationFailure)), MessageEvent::Failed);
}
