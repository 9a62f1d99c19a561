use nri::scribe::{Handle, Message, ScribeAction, Worker, Writer};


#[test]
fn handles_count_up_from_one() {
    assert_eq!(Handle::new(), Handle(0));
    assert_eq!(Handle::new().next(), Handle(1));
    assert_eq!(Handle(4).next(), Handle(5));
}

#[test]
fn a_file_writer_creates_appends_and_closes() {
    let mut w = Worker::new();
    let mut wr: Writer<Vec<u8>> = Writer::with_file(&mut w, "log.dat".to_string());
    wr.write(&mut w, &vec![2u8, 1]);
    wr.write_bytes(&mut w, vec![9]);
    wr.set_index(&mut w, 5);
    wr.decoy(&mut w);
    wr.close(&mut w);
    assert_eq!(
        w.take_actions(),
        vec![
            ScribeAction::Create(Handle(1), "log.dat".to_string()),
            ScribeAction::Append(Handle(1), vec![2, 1]),
            ScribeAction::Append(Handle(1), vec![9]),
            ScribeAction::Close(Handle(1)),
        ]
    );
    assert_eq!(w.take_actions(), vec![]);
}

#[test]
fn a_pattern_writer_numbers_its_packets() {
    let mut w = Worker::new();
    let mut wr: Writer<Vec<u8>> = Writer::with_files(&mut w, "frame{}.png".to_string());
    wr.write_bytes(&mut w, vec![1]);
    wr.write_bytes(&mut w, vec![2]);
    wr.decoy(&mut w);
    wr.write(&mut w, &vec![3u8, 0]);
    wr.set_index(&mut w, 10);
    wr.write_bytes(&mut w, vec![4]);
    wr.close(&mut w);
    assert_eq!(
        w.take_actions(),
        vec![
            ScribeAction::WriteFile("frame1.png".to_string(), vec![1]),
            ScribeAction::WriteFile("frame2.png".to_string(), vec![2]),
            ScribeAction::WriteFile("frame5.png".to_string(), vec![3, 0]),
            ScribeAction::WriteFile("frame10.png".to_string(), vec![4]),
        ]
    );
}

#[test]
fn the_worker_answers_opens_and_registrations() {
    let mut w = Worker::new();
    assert_eq!(w.handle(Message::Open("a".to_string())), Some(Handle(1)));
    assert_eq!(w.handle(Message::Open("b".to_string())), Some(Handle(2)));
    assert_eq!(w.handle(Message::Register("p{}".to_string())), Some(Handle(1)));
    assert!(w.accepts(&Message::Write(Handle(2), vec![])));
    assert!(!w.accepts(&Message::Write(Handle(3), vec![])));
    assert!(w.accepts(&Message::Packet(Handle(1), vec![])));
    assert!(!w.accepts(&Message::Decoy(Handle(2))));
    assert_eq!(w.handle(Message::Close(Handle(1))), None);
    assert!(!w.accepts(&Message::Write(Handle(1), vec![])));
    assert_eq!(w.handle(Message::Unregister(Handle(1))), None);
    assert!(!w.accepts(&Message::Packet(Handle(1), vec![])));
    assert_eq!(
        w.take_actions(),
        vec![
            ScribeAction::Create(Handle(1), "a".to_string()),
            ScribeAction::Create(Handle(2), "b".to_string()),
            ScribeAction::Close(Handle(1)),
        ]
    );
}

#[test]
fn pending_writes_count_until_handed_over() {
    let mut w = Worker::new();
    assert_eq!(w.pending(), 0);
    let mut wr: Writer<Vec<u8>> = Writer::with_file(&mut w, "log.dat".to_string());
    assert_eq!(w.pending(), 0);
    wr.write(&mut w, &vec![1u8]);
    wr.write_bytes(&mut w, vec![2]);
    assert_eq!(w.pending(), 2);
    let mut pw: Writer<Vec<u8>> = Writer::with_files(&mut w, "f{}.bin".to_string());
    pw.decoy(&mut w);
    pw.write_bytes(&mut w, vec![3]);
    assert_eq!(w.pending(), 3);
    wr.close(&mut w);
    assert_eq!(w.pending(), 3);
    assert_eq!(w.take_actions().len(), 5);
    assert_eq!(w.pending(), 0);
}

#[test]
fn a_decoy_skips_two_numbers() {
    let mut w = Worker::new();
    let mut pw: Writer<Vec<u8>> = Writer::with_files(&mut w, "f{}.bin".to_string());
    pw.write_bytes(&mut w, vec![1]);
    pw.decoy(&mut w);
    pw.write_bytes(&mut w, vec![2]);
    let mut fw: Writer<Vec<u8>> = Writer::with_file(&mut w, "one.dat".to_string());
    fw.decoy(&mut w);
    assert_eq!(
        w.take_actions(),
        vec![
            ScribeAction::WriteFile("f1.bin".to_string(), vec![1]),
            ScribeAction::WriteFile("f4.bin".to_string(), vec![2]),
            ScribeAction::Create(Handle(1), "one.dat".to_string()),
        ]
    );
}
