use pipecat::relay::{
    decide_event, exit_code, resolve_event_bit, Direction, EventDecision, RelayEnd, RelayState,
    READABLE,
};
use pipecat::transfer::TransferOutcome;

const POLLERR: u16 = 8;
const POLLHUP: u16 = 16;

#[test]
fn readable_bit_is_lowest() {
    assert_eq!(READABLE, 1);
    assert_eq!(resolve_event_bit(0), 0);
    assert_eq!(resolve_event_bit(READABLE), READABLE);
    assert_eq!(resolve_event_bit(READABLE | POLLHUP), READABLE);
    assert_eq!(resolve_event_bit(POLLERR | POLLHUP), POLLERR);
}

#[test]
fn event_decisions() {
    assert_eq!(decide_event(0), EventDecision::Ignore);
    assert_eq!(decide_event(READABLE), EventDecision::Transfer);
    // Readable combined with hang-up still resolves to the transfer.
    assert_eq!(decide_event(READABLE | POLLHUP), EventDecision::Transfer);
    assert_eq!(decide_event(POLLHUP), EventDecision::FatalEvent);
    assert_eq!(decide_event(POLLERR), EventDecision::FatalEvent);
}

#[test]
fn fresh_state_registers_both_directions() {
    let s = RelayState::new();
    assert_eq!(s.interest(Direction::LocalToRemote), READABLE);
    assert_eq!(s.interest(Direction::RemoteToLocal), READABLE);
    assert!(!s.is_done());
}

#[test]
fn moved_bytes_keep_direction_active() {
    let mut s = RelayState::new();
    s.record_outcome(Direction::LocalToRemote, TransferOutcome::Moved(512));
    assert_eq!(s.interest(Direction::LocalToRemote), READABLE);
    assert_eq!(s.interest(Direction::RemoteToLocal), READABLE);
}

#[test]
fn end_of_stream_disables_only_its_direction() {
    // Losing one direction must not terminate the other: the peer keeps
    // its readable registration and the relay is not done.
    let mut s = RelayState::new();
    s.record_outcome(Direction::LocalToRemote, TransferOutcome::EndOfStream);
    assert_eq!(s.interest(Direction::LocalToRemote), 0);
    assert_eq!(s.interest(Direction::RemoteToLocal), READABLE);
    assert!(!s.is_done());
    s.record_outcome(Direction::RemoteToLocal, TransferOutcome::Moved(7));
    assert_eq!(s.interest(Direction::RemoteToLocal), READABLE);
}

#[test]
fn failure_disables_like_end_of_stream() {
    let mut s = RelayState::new();
    s.record_outcome(Direction::RemoteToLocal, TransferOutcome::Failed(104));
    assert_eq!(s.interest(Direction::RemoteToLocal), 0);
    assert_eq!(s.interest(Direction::LocalToRemote), READABLE);
}

#[test]
fn disabled_direction_stays_disabled() {
    let mut s = RelayState::new();
    s.record_outcome(Direction::LocalToRemote, TransferOutcome::EndOfStream);
    s.record_outcome(Direction::LocalToRemote, TransferOutcome::Moved(9));
    assert_eq!(s.interest(Direction::LocalToRemote), 0);
}

#[test]
fn disabled_direction_ignores_reported_events() {
    // The loop body for a disabled direction is a no-op, even if the
    // kernel still reports a hang-up for its descriptor.
    let mut s = RelayState::new();
    s.record_outcome(Direction::LocalToRemote, TransferOutcome::EndOfStream);
    assert_eq!(s.decide_for(Direction::LocalToRemote, POLLHUP), EventDecision::Ignore);
    assert_eq!(s.decide_for(Direction::LocalToRemote, READABLE), EventDecision::Ignore);
    assert_eq!(s.decide_for(Direction::RemoteToLocal, READABLE), EventDecision::Transfer);
    assert_eq!(s.decide_for(Direction::RemoteToLocal, POLLHUP), EventDecision::FatalEvent);
}

#[test]
fn both_ends_of_stream_terminate_with_exit_zero() {
    let mut s = RelayState::new();
    s.record_outcome(Direction::LocalToRemote, TransferOutcome::EndOfStream);
    s.record_outcome(Direction::RemoteToLocal, TransferOutcome::EndOfStream);
    assert!(s.is_done());
    assert_eq!(exit_code(RelayEnd::CleanShutdown), 0);
}

#[test]
fn fatal_event_exits_nonzero() {
    assert_ne!(exit_code(RelayEnd::FatalEvent), 0);
}
