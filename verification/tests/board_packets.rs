use nri::packet::{
    accelerations, announced_size, board_command, gauges, scan_for_prefix, Board, BoardCommand, Packet, PacketError,
};

fn with_checksum(mut b: Vec<u8>) -> Vec<u8> {
    let sum = b.iter().fold(0u8, |a, x| a.wrapping_add(*x));
    b.push(sum);
    b
}

#[test]
fn too_small() {
    assert_eq!(Packet::new(&[0u8; 10], Board::Teensy), Err(PacketError::TooSmall(10)));
    assert_eq!(Packet::new(&[], Board::Stb), Err(PacketError::TooSmall(0)));
}

#[test]
fn data_only() {
    let b: Vec<u8> = (0..31).collect();
    let p = Packet::new(&b, Board::Stb).unwrap();
    assert_eq!(p.ft, b);
    assert_eq!(p.dt, (0, 0));
    assert_eq!((p.n_acc, p.n_gyro), (0, 0));
    assert!(p.imu.is_empty());
    assert_eq!(p.park, 30);
}

#[test]
fn teensy_clears_the_parking_bits() {
    let mut b = vec![1u8; 31];
    b[30] = 0xFF;
    let p = Packet::new(&b, Board::Teensy).unwrap();
    assert_eq!(p.park, 0xFF);
    assert_eq!(p.ft[30], 0xEC);
    let s = Packet::new(&b, Board::Stb).unwrap();
    assert_eq!(s.ft[30], 0xFF);
}

#[test]
fn checksums() {
    let b = with_checksum(vec![200u8; 31]);
    assert!(Packet::new(&b, Board::Stb).is_ok());
    let mut bad = b.clone();
    bad[31] = bad[31].wrapping_add(1);
    let expected = b[31];
    assert_eq!(Packet::new(&bad, Board::Stb), Err(PacketError::Checksum(expected.wrapping_add(1), expected)));
}

#[test]
fn timing_words_on_the_teensy() {
    let mut b = vec![0x34u8, 0x12, 0xE8, 0x03];
    b.extend((0..31).map(|x| x as u8));
    let p = Packet::new(&b, Board::Teensy).unwrap();
    assert_eq!(p.dt, (0x1234, 1000));
    assert!(p.is_delayed());
    assert_eq!(p.ft[0], 0);
    let c = with_checksum(b.clone());
    assert_eq!(Packet::new(&c, Board::Teensy).unwrap().dt, (0x1234, 1000));
    assert_eq!(Packet::new(&b, Board::Stb), Err(PacketError::ImpossibleSize(35, 0x34, 0x12)));
}

#[test]
fn delayed_packets() {
    let mut b = vec![0xE9u8, 0x03, 0, 0];
    b.extend(vec![0u8; 31]);
    assert!(Packet::new(&b, Board::Teensy).unwrap().is_delayed());
}

#[test]
fn imu_readings() {
    // one accelerometer reading and the magnetometer
    let mut b = vec![1u8, 0];
    b.extend([1, 0, 0xFF, 0xFF, 0x00, 0x80]);
    b.extend([2, 1, 3, 0, 0xFE, 0x7F]);
    b.extend(vec![9u8; 31]);
    assert_eq!(b.len(), 45);
    let p = Packet::new(&b, Board::Stb).unwrap();
    assert_eq!((p.n_acc, p.n_gyro), (1, 0));
    assert_eq!(p.imu, vec![(1, -1, -32768), (258, 3, 32766)]);
    assert_eq!(p.ft, vec![9u8; 31]);
    let c = with_checksum(b);
    assert_eq!(Packet::new(&c, Board::Stb).unwrap().imu.len(), 2);
}

#[test]
fn imu_with_timing() {
    let mut b = vec![0u8, 0];
    b.extend([5, 0, 6, 0, 7, 0]);
    b.extend([1, 0, 2, 0]);
    b.extend(vec![3u8; 31]);
    let p = Packet::new(&b, Board::Teensy).unwrap();
    assert_eq!(p.imu, vec![(5, 6, 7)]);
    assert_eq!(p.dt, (1, 2));
}

#[test]
fn impossible_sizes_and_overflowing_readings() {
    assert_eq!(Packet::new(&[7u8; 40], Board::Stb), Err(PacketError::ImpossibleSize(40, 7, 7)));
    let mut b = vec![40u8, 0];
    b.extend(vec![0u8; 6 * 41 + 31]);
    assert_eq!(Packet::new(&b, Board::Stb), Err(PacketError::TooManyReadings(40, 0)));
    assert_eq!(Packet::new(&b, Board::Teensy).unwrap().imu.len(), 41);
}

#[test]
fn size_prefixes() {
    assert_eq!(announced_size(b"aaa\x20", Board::Stb), Some(32));
    assert_eq!(announced_size(b"aab\x20", Board::Stb), None);
    assert_eq!(announced_size(b"aaa\x01\x02", Board::Teensy), Some(258));
    assert_eq!(announced_size(b"baa\x01\x02", Board::Teensy), None);
}

#[test]
fn scanning_for_a_prefix() {
    let mut count = 0;
    for b in b"xaaxaaa" {
        count = scan_for_prefix(count, *b);
        if count == 3 {
            break;
        }
    }
    assert_eq!(count, 3);
    assert_eq!(scan_for_prefix(2, b'b'), 0);
}

#[test]
fn teensy_commands() {
    assert_eq!(board_command("kick"), Some(BoardCommand::Kick(None)));
    assert_eq!(board_command("kick 12"), Some(BoardCommand::Kick(Some(12))));
    assert_eq!(board_command("kick x"), None);
    assert_eq!(board_command("kickstart"), Some(BoardCommand::Kick(None)));
    assert_eq!(board_command("metermaid"), Some(BoardCommand::Metermaid));
    assert_eq!(board_command("ref int"), Some(BoardCommand::RefInt));
    assert_eq!(board_command("ref ext"), Some(BoardCommand::RefExt));
    assert_eq!(board_command("hello"), Some(BoardCommand::Nothing));
}

#[test]
fn gauge_readings() {
    let mut ft = vec![0u8; 31];
    ft[0] = 0x07;
    ft[1] = 0xFF; // 2047
    ft[2] = 0x08;
    ft[3] = 0x00; // 2048 -> -2048
    ft[4] = 0x0F;
    ft[5] = 0xFF; // 4095 -> -1
    assert_eq!(gauges(&ft), vec![2047, -2048, -1, 0, 0, 0]);
    ft[18] = 0x08;
    ft[19] = 0x10;
    ft[22] = 0x07;
    ft[23] = 0xF0;
    assert_eq!(accelerations(&ft), (16, -16, -2048));
}
