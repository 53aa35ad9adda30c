use fluxus::error::NonCriticalError;
use fluxus::servers::channels_map::ChannelsMap;
use fluxus::servers::tcp::TcpServer;
use fluxus::utils::buffer_ring::{BufferRing, RingIsFull, RING_CAPACITY};
use fluxus::utils::return_id::ReturnId;
use rustc_hash::FxHashMap;
use tokio::sync::mpsc::unbounded_channel;

#[test]
fn ring_is_last_in_first_out() {
    let mut ring = BufferRing::new();
    assert_eq!(ring.try_pop(), None);
    ring.push(vec![1]).unwrap();
    ring.push(vec![2, 2]).unwrap();
    assert_eq!(ring.try_pop(), Some(vec![2, 2]));
    assert_eq!(ring.try_pop(), Some(vec![1]));
    assert_eq!(ring.try_pop(), None);
}

#[test]
fn full_ring_hands_buffer_back() {
    let mut ring = BufferRing::new();
    for i in 0..RING_CAPACITY {
        ring.push(vec![i as u8]).unwrap();
    }
    match ring.push(vec![7, 7, 7]) {
        Err(RingIsFull(back)) => assert_eq!(back, vec![7, 7, 7]),
        Ok(()) => panic!("a full ring accepted a buffer"),
    }
    assert_eq!(ring.try_pop(), Some(vec![(RING_CAPACITY - 1) as u8]));
}

#[test]
fn channels_map_send_and_remove() {
    let mut map: ChannelsMap<u32> = ChannelsMap::default();
    let (tx, mut rx) = unbounded_channel();
    map.insert(5, tx);
    assert!(map.send_command(5, 42).is_ok());
    assert_eq!(rx.try_recv().unwrap(), 42);
    match map.send_command(6, 1) {
        Err(NonCriticalError::ClientIsNotFound { id: 6, chan_closed: false }) => {}
        other => panic!("unexpected {other:?}"),
    }
    let (id, chan) = map.remove(5).unwrap().into_parts();
    assert_eq!(id, 5);
    chan.send(9).unwrap();
    assert_eq!(rx.try_recv().unwrap(), 9);
    match map.remove(5) {
        Err(NonCriticalError::ClientIsNotFound { id: 5, chan_closed: true }) => {}
        _ => panic!("removed client still present"),
    }
    match map.send_command(5, 1) {
        Err(NonCriticalError::ClientIsNotFound { id: 5, chan_closed: false }) => {}
        other => panic!("unexpected {other:?}"),
    }
}

#[test]
fn channels_map_closed_channel() {
    let mut map: ChannelsMap<u32> = ChannelsMap::default();
    let (tx, rx) = unbounded_channel();
    map.insert(1, tx);
    drop(rx);
    match map.send_command(1, 3) {
        Err(NonCriticalError::ClientIsNotFound { id: 1, chan_closed: true }) => {}
        other => panic!("unexpected {other:?}"),
    }
}

#[test]
fn channels_map_from_table() {
    let (tx, mut rx) = unbounded_channel();
    let mut table = FxHashMap::default();
    table.insert(3u16, tx);
    let map: ChannelsMap<&str> = ChannelsMap::from(table);
    assert!(map.send_command(3, "hi").is_ok());
    assert_eq!(rx.try_recv().unwrap(), "hi");
    assert!(TcpServer::default().clients.send_command(0, fluxus::data::TcpSlaveCommand::Disconnect).is_err());
}

#[test]
fn return_id_parts() {
    let r = ReturnId::new(7u16, "value");
    assert_eq!(r.into_parts(), (7, "value"));
}
