use nri::comms::{actual_period, hatch, rest_of_period, Block, CmdTo, Hatch};
use nri::mpmc::MultiSender;
use nri::utils::{absdiff, check_container_compatibility, circular_push, step, AsContainerOfError};

#[test]
fn hatching() {
    assert_eq!(hatch(CmdTo::Start(None)), Hatch::Begin(None));
    assert_eq!(hatch(CmdTo::Start(Some("fast".to_string()))), Hatch::Begin(Some("fast".to_string())));
    assert_eq!(hatch(CmdTo::Data("x".to_string())), Hatch::Wait);
    assert_eq!(hatch(CmdTo::Stop), Hatch::Leave);
    assert_eq!(hatch(CmdTo::Quit), Hatch::Leave);
}

#[test]
fn periods() {
    assert_eq!(actual_period(Block::Immediate), 0);
    assert_eq!(actual_period(Block::Infinite), -1);
    assert_eq!(actual_period(Block::Period(5_000)), 5_000);
    assert_eq!(rest_of_period(1_000, 300), Some(700));
    assert_eq!(rest_of_period(1_000, 1_000), None);
    assert_eq!(rest_of_period(1_000, 2_000), None);
}

#[test]
fn multi_sender_keeps_its_clients_in_order() {
    let mut m: MultiSender<u32> = MultiSender::new();
    let a = m.receiver();
    let b = m.receiver();
    assert_eq!(m.client_count(), 2);
    m.send(7);
    assert!(m.send_one(1, 8).0.is_ok());
    assert_eq!(a.try_recv(), Ok(7));
    assert_eq!(b.try_recv(), Ok(7));
    assert_eq!(b.try_recv(), Ok(8));
    assert!(a.try_recv().is_err());
    drop(a);
    match m.send_one(0, 9).0 {
        Err(std::sync::mpsc::SendError(v)) => assert_eq!(v, 9),
        Ok(()) => panic!("the receiving end is gone"),
    }
    m.disconnect_all();
    assert_eq!(m.client_count(), 0);
}

#[test]
fn container_compatibility() {
    assert_eq!(check_container_compatibility(16, 8, 16, 1, 4, 4), Ok((2, 4)));
    assert_eq!(check_container_compatibility(16, 2, 4, 4, 1, 1), Ok((8, 16)));
    assert_eq!(check_container_compatibility(17, 8, 16, 1, 4, 4), Err(AsContainerOfError::BadAlignment));
    assert_eq!(check_container_compatibility(16, 8, 16, 3, 4, 4), Err(AsContainerOfError::IncompatibleSize));
    assert_eq!(check_container_compatibility(16, 6, 16, 1, 4, 4), Err(AsContainerOfError::IncompatibleLen));
    assert_eq!(check_container_compatibility(16, 8, 15, 1, 4, 4), Err(AsContainerOfError::IncompatibleLen));
}

#[test]
fn stepping() {
    let mut s = step(0..10, 4);
    assert_eq!(s.next(), Some(0));
    assert_eq!(s.next(), Some(4));
    assert_eq!(s.next(), Some(8));
    assert_eq!(s.next(), None);
    assert_eq!(s.next(), None);
}

#[test]
fn differences() {
    assert_eq!(absdiff(3, 10), 7);
    assert_eq!(absdiff(10, 3), 7);
    assert_eq!(absdiff(0, u32::MAX), u32::MAX);
}

#[test]
fn circular_buffers_keep_the_newest_items() {
    let mut v: Vec<u8> = Vec::new();
    for i in 0..5 {
        circular_push(&mut v, i, 3);
    }
    assert_eq!(v, vec![2, 3, 4]);
}
