use sqa_engine::channels::{ChannelTable, PortId};
use sqa_engine::errors::EngineError;
use sqa_engine::MAX_CHANS;

#[test]
fn first_channel_gets_index_zero() {
    let mut table = ChannelTable::new();
    assert_eq!(table.live_count(), 0);
    assert_eq!(table.insert(PortId(7)).unwrap(), 0);
    assert_eq!(table.port_at(0), Some(PortId(7)));
    assert_eq!(table.live_count(), 1);
}

#[test]
fn channels_get_consecutive_indices() {
    let mut table = ChannelTable::new();
    for index in 0..10 {
        assert_eq!(table.insert(PortId(100 + index)).unwrap(), index);
    }
    for index in 0..10 {
        assert_eq!(table.port_at(index), Some(PortId(100 + index)));
    }
    assert_eq!(table.port_at(10), None);
    assert_eq!(table.port_at(usize::MAX), None);
}

#[test]
fn removed_channel_leaves_a_hole() {
    let mut table = ChannelTable::new();
    table.insert(PortId(1)).unwrap();
    table.insert(PortId(2)).unwrap();
    table.insert(PortId(3)).unwrap();
    assert_eq!(table.remove(1).unwrap(), PortId(2));
    assert_eq!(table.port_at(0), Some(PortId(1)));
    assert_eq!(table.port_at(1), None);
    assert_eq!(table.port_at(2), Some(PortId(3)));
    assert_eq!(table.live_count(), 2);
}

#[test]
fn removing_twice_is_no_such_channel() {
    let mut table = ChannelTable::new();
    table.insert(PortId(1)).unwrap();
    table.remove(0).unwrap();
    assert!(matches!(table.remove(0), Err(EngineError::NoSuchChannel)));
    assert_eq!(table.live_count(), 0);
}

#[test]
fn removing_out_of_range_is_no_such_channel() {
    let mut table = ChannelTable::new();
    assert!(matches!(table.remove(0), Err(EngineError::NoSuchChannel)));
    table.insert(PortId(1)).unwrap();
    assert!(matches!(table.remove(1), Err(EngineError::NoSuchChannel)));
    assert!(matches!(table.remove(usize::MAX), Err(EngineError::NoSuchChannel)));
    assert_eq!(table.port_at(0), Some(PortId(1)));
}

#[test]
fn freed_indices_are_reused_oldest_first() {
    let mut table = ChannelTable::new();
    for port in 0..5 {
        table.insert(PortId(port)).unwrap();
    }
    table.remove(3).unwrap();
    table.remove(1).unwrap();
    assert_eq!(table.insert(PortId(50)).unwrap(), 3);
    assert_eq!(table.insert(PortId(51)).unwrap(), 1);
    assert_eq!(table.insert(PortId(52)).unwrap(), 5);
    assert_eq!(table.port_at(3), Some(PortId(50)));
    assert_eq!(table.port_at(1), Some(PortId(51)));
    assert_eq!(table.port_at(5), Some(PortId(52)));
}

#[test]
fn limit_is_one_less_than_the_slots() {
    let mut table = ChannelTable::new();
    for port in 0..MAX_CHANS - 1 {
        assert_eq!(table.insert(PortId(port)).unwrap(), port);
    }
    assert_eq!(table.live_count(), MAX_CHANS - 1);
    assert!(matches!(table.insert(PortId(999)), Err(EngineError::LimitExceeded)));
    assert_eq!(table.live_count(), MAX_CHANS - 1);
    assert_eq!(table.port_at(MAX_CHANS - 1), None);
}

#[test]
fn full_table_takes_a_channel_again_after_a_removal() {
    let mut table = ChannelTable::new();
    for port in 0..MAX_CHANS - 1 {
        table.insert(PortId(port)).unwrap();
    }
    assert_eq!(table.remove(20).unwrap(), PortId(20));
    assert_eq!(table.insert(PortId(777)).unwrap(), 20);
    assert_eq!(table.port_at(20), Some(PortId(777)));
    assert!(matches!(table.insert(PortId(999)), Err(EngineError::LimitExceeded)));
}

#[test]
fn every_slot_can_be_freed_and_filled_again() {
    let mut table = ChannelTable::new();
    for port in 0..MAX_CHANS - 1 {
        table.insert(PortId(port)).unwrap();
    }
    for index in 0..MAX_CHANS - 1 {
        assert_eq!(table.remove(index).unwrap(), PortId(index));
    }
    assert_eq!(table.live_count(), 0);
    for index in 0..MAX_CHANS - 1 {
        assert_eq!(table.insert(PortId(1_000 + index)).unwrap(), index);
    }
    assert!(matches!(table.insert(PortId(999)), Err(EngineError::LimitExceeded)));
}

#[test]
fn error_messages() {
    assert_eq!(EngineError::LimitExceeded.message(), "Engine channel or sender limit exceeded");
    assert_eq!(EngineError::NoSuchChannel.message(), "No such channel.");
    assert_eq!(
        EngineError::Jack("jack_client_open() failed".to_string()).message(),
        "JACK error: jack_client_open() failed"
    );
    assert_eq!(EngineError::Jack(String::new()).message(), "JACK error: ");
}
