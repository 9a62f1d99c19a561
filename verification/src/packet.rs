//! Packets from the sensor boards (the STB and the Teensy that replaced it).
//!
//! A packet holds, in this order: optionally the IMU readings (a byte with the number of
//! accelerometer readings `a`, a byte with the number of gyroscope readings `g`, then `a + g + 1`
//! readings of three little-endian `i16` each, the last one the magnetometer's), optionally (on
//! the Teensy) two little-endian `u16` timing words, then 31 bytes of force/torque and analog
//! data, and optionally a checksum byte: the sum of all the bytes before it, modulo 256. Which
//! parts are there follows from the packet's length.
use vstd::prelude::*;
use crate::text::{
    decimal, decimal_chars, concat_chars, string_from_chars, starts_with, split, chars_of, starts_with_chars, split_chars, pattern1, parse_u64, chars_eq_str,
};

verus! {

/// The board a packet comes from.
#[derive(Copy, Clone, Debug, PartialEq, Eq, Structural)]
pub enum Board {
    /// The STB: no timing words, room for 37 IMU readings.
    Stb,
    /// The Teensy: optional timing words, room for 63 IMU readings.
    Teensy,
}

/// How many IMU readings a packet from the board can hold.
pub open spec fn imu_room(b: Board) -> nat {
    match b {
        Board::Stb => 37,
        Board::Teensy => 63,
    }
}

/// A decoded packet.
#[derive(Debug, PartialEq, Eq)]
pub struct Packet {
    /// The two timing words (zero when the packet has none).
    pub dt: (u16, u16),
    /// The force/torque and analog bytes (31 of them); on the Teensy the last one has the
    /// parking-lot bits cleared.
    pub ft: Vec<u8>,
    /// Number of accelerometer readings.
    pub n_acc: u8,
    /// Number of gyroscope readings.
    pub n_gyro: u8,
    /// The IMU readings: accelerometer, then gyroscope, then magnetometer.
    pub imu: Vec<(i16, i16, i16)>,
    /// The raw last force/torque byte, which on the Teensy carries the parking-lot state.
    pub park: u8,
}

/// Model of a decoded packet.
pub struct PacketView {
    pub dt: (u16, u16),
    pub ft: Seq<u8>,
    pub n_acc: u8,
    pub n_gyro: u8,
    pub imu: Seq<(i16, i16, i16)>,
    pub park: u8,
}

impl View for Packet {
    type V = PacketView;

    open spec fn view(&self) -> PacketView {
        PacketView {
            dt: self.dt,
            ft: self.ft@,
            n_acc: self.n_acc,
            n_gyro: self.n_gyro,
            imu: self.imu@,
            park: self.park,
        }
    }
}

/// Why a packet was refused.
#[derive(Copy, Clone, Debug, PartialEq, Eq, Structural)]
pub enum PacketError {
    /// Fewer than 31 bytes (the length).
    TooSmall(usize),
    /// The checksum byte (first) differs from the sum of the other bytes (second).
    Checksum(u8, u8),
    /// No layout has this length (with these counts of accelerometer and gyroscope readings).
    ImpossibleSize(usize, u8, u8),
    /// More IMU readings than the board's packet holds (accelerometer and gyroscope counts).
    TooManyReadings(u8, u8),
}

/// The sum of the bytes, modulo 256.
pub open spec fn byte_sum(b: Seq<u8>) -> u8
    decreases b.len(),
{
    if b.len() == 0 {
        0
    } else {
        ((byte_sum(b.drop_last()) + b.last()) % 256) as u8
    }
}

/// Whether the last byte is the checksum of the others.
pub open spec fn checksum_ok(b: Seq<u8>) -> bool {
    byte_sum(b.drop_last()) == b.last()
}

/// The little-endian `u16` at position `i`.
pub open spec fn le_u16(b: Seq<u8>, i: int) -> u16 {
    (b[i] + 256 * b[i + 1]) as u16
}

/// The little-endian `i16` at position `i`.
pub open spec fn le_i16(b: Seq<u8>, i: int) -> i16 {
    let v = b[i] + 256 * b[i + 1];
    (if v >= 32768 { v - 65536 } else { v }) as i16
}

/// The `n` IMU readings that start at position `i`.
pub open spec fn readings(b: Seq<u8>, i: int, n: nat) -> Seq<(i16, i16, i16)> {
    Seq::new(n, |k: int| (le_i16(b, i + 6 * k), le_i16(b, i + 6 * k + 2), le_i16(b, i + 6 * k + 4)))
}

/// The parking-lot bits of the last force/torque byte.
pub open spec fn park_bits() -> u8 {
    0b0001_0011
}

/// The packet laid out with its IMU readings (`n` of them, counts `a` and `g`) from position 2,
/// its timing words (if `dt`) and its 31 data bytes from position `s`. The Teensy clears the
/// parking-lot bits of the last data byte.
pub open spec fn layout(b: Seq<u8>, board: Board, a: u8, g: u8, n: nat, s: int, dt: bool) -> PacketView {
    let f = if dt { s + 4 } else { s };
    let ft = b.subrange(f, f + 31);
    PacketView {
        dt: if dt { (le_u16(b, s), le_u16(b, s + 2)) } else { (0, 0) },
        ft: if board == Board::Teensy { ft.update(30, ft[30] & !park_bits()) } else { ft },
        n_acc: a,
        n_gyro: g,
        imu: readings(b, 2, n),
        park: ft[30],
    }
}

/// Whether checking the checksum (when `check`) lets the packet through.
pub open spec fn passes(b: Seq<u8>, check: bool) -> bool {
    !check || checksum_ok(b)
}

/// The refusal of a packet whose checksum is wrong.
pub open spec fn checksum_error(b: Seq<u8>) -> PacketError {
    PacketError::Checksum(b.last(), byte_sum(b.drop_last()))
}

/// A packet with the layout, or the checksum's refusal.
pub open spec fn checked(b: Seq<u8>, check: bool, p: PacketView) -> Result<PacketView, PacketError> {
    if passes(b, check) {
        Ok(p)
    } else {
        Err(checksum_error(b))
    }
}

/// What a packet of bytes from the board holds. By length: under 31 is too small; 31 bytes are
/// data alone and 32 add a checksum; on the Teensy 35 bytes are timing and data and 36 add a
/// checksum; otherwise the first two bytes count the IMU readings, and the length tells whether
/// timing words (Teensy) and a checksum follow them.
pub open spec fn spec_decode(b: Seq<u8>, board: Board) -> Result<PacketView, PacketError> {
    let len = b.len();
    let teensy = board == Board::Teensy;
    if len < 31 {
        Err(PacketError::TooSmall(len as usize))
    } else if len == 31 || len == 32 {
        checked(b, len == 32, layout(b, board, 0, 0, 0, 0, false))
    } else if teensy && (len == 35 || len == 36) {
        checked(b, len == 36, layout(b, board, 0, 0, 0, 0, true))
    } else {
        let a = b[0];
        let g = b[1];
        let n = (a + g + 1) as nat;
        let s: int = (2 + 6 * n) as int;
        if !(len == 31 + s || len == 32 + s || (teensy && (len == 35 + s || len == 36 + s))) {
            Err(PacketError::ImpossibleSize(len as usize, a, g))
        } else if n > imu_room(board) {
            Err(PacketError::TooManyReadings(a, g))
        } else {
            let dt = teensy && (len == 35 + s || len == 36 + s);
            checked(b, len == 32 + s || len == 36 + s, layout(b, board, a, g, n, s, dt))
        }
    }
}

/// The sum of the bytes, modulo 256.
fn sum_bytes(b: &[u8], n: usize) -> (r: u8)
    requires
        n <= b@.len(),
    ensures
        r == byte_sum(b@.subrange(0, n as int)),
{
    let mut sum: u8 = 0;
    let mut i: usize = 0;
    while i < n
        invariant
            i <= n <= b@.len(),
            sum == byte_sum(b@.subrange(0, i as int)),
        decreases n - i,
    {
        assert(b@.subrange(0, i + 1).drop_last() =~= b@.subrange(0, i as int));
        sum = ((sum as u16 + b[i] as u16) % 256) as u8;
        i = i + 1;
    }
    sum
}

/// The little-endian `u16` at position `i`.
fn read_u16(b: &[u8], i: usize) -> (r: u16)
    requires
        i + 1 < b@.len(),
    ensures
        r == le_u16(b@, i as int),
{
    b[i] as u16 + 256 * (b[i + 1] as u16)
}

/// The little-endian `i16` at position `i`.
fn read_i16(b: &[u8], i: usize) -> (r: i16)
    requires
        i + 1 < b@.len(),
    ensures
        r == le_i16(b@, i as int),
{
    let v: i32 = b[i] as i32 + 256 * (b[i + 1] as i32);
    if v >= 32768 {
        (v - 65536) as i16
    } else {
        v as i16
    }
}

/// Decodes a laid-out packet (see `layout`).
fn decode_layout(b: &[u8], board: Board, a: u8, g: u8, n: usize, s: usize, dt: bool) -> (r: Packet)
    requires
        n == 0 || 2 + 6 * n <= s,
        dt ==> s + 35 <= b.len(),
        s + 31 <= b.len(),
    ensures
        r@ == layout(b@, board, a, g, n as nat, s as int, dt),
{
    let mut imu: Vec<(i16, i16, i16)> = Vec::new();
    let mut k: usize = 0;
    while k < n
        invariant
            k <= n,
            n == 0 || 2 + 6 * n <= s,
            dt ==> s + 35 <= b.len(),
            s + 31 <= b.len(),
            imu@ == readings(b@, 2, n as nat).subrange(0, k as int),
        decreases n - k,
    {
        let i = 2 + 6 * k;
        let x = (read_i16(b, i), read_i16(b, i + 2), read_i16(b, i + 4));
        imu.push(x);
        assert(imu@ =~= readings(b@, 2, n as nat).subrange(0, k + 1));
        k = k + 1;
    }
    assert(imu@ =~= readings(b@, 2, n as nat));
    let f = if dt { s + 4 } else { s };
    let times = if dt { (read_u16(b, s), read_u16(b, s + 2)) } else { (0u16, 0u16) };
    let mut ft: Vec<u8> = Vec::new();
    let mut j: usize = 0;
    while j < 31
        invariant
            j <= 31,
            f + 31 <= b.len(),
            ft@ == b@.subrange(f as int, f + j),
        decreases 31 - j,
    {
        ft.push(b[f + j]);
        assert(ft@ =~= b@.subrange(f as int, f + j + 1));
        j = j + 1;
    }
    let park = ft[30];
    let teensy = match board {
        Board::Stb => false,
        Board::Teensy => true,
    };
    if teensy {
        let cleared = ft[30] & !0b0001_0011u8;
        ft.set(30, cleared);
    }
    Packet { dt: times, ft: ft, n_acc: a, n_gyro: g, imu: imu, park: park }
}

/// A laid-out packet, after checking its checksum when `check` is set.
fn decode_checked(b: &[u8], check: bool, board: Board, a: u8, g: u8, n: usize, s: usize, dt: bool) -> (r: Result<Packet, PacketError>)
    requires
        b@.len() >= 1,
        n == 0 || 2 + 6 * n <= s,
        dt ==> s + 35 <= b.len(),
        s + 31 <= b.len(),
    ensures
        match checked(b@, check, layout(b@, board, a, g, n as nat, s as int, dt)) {
            Ok(p) => r matches Ok(x) && x@ == p,
            Err(e) => r == Err::<Packet, PacketError>(e),
        },
{
    if check {
        let last = b[b.len() - 1];
        let sum = sum_bytes(b, b.len() - 1);
        assert(b@.subrange(0, b@.len() - 1) =~= b@.drop_last());
        if sum != last {
            return Err(PacketError::Checksum(last, sum));
        }
    }
    Ok(decode_layout(b, board, a, g, n, s, dt))
}

impl Packet {
    /// Decodes a packet of bytes from the board (see `spec_decode`).
    pub fn new(b: &[u8], board: Board) -> (r: Result<Packet, PacketError>)
        ensures
            match spec_decode(b@, board) {
                Ok(p) => r matches Ok(x) && x@ == p,
                Err(e) => r == Err::<Packet, PacketError>(e),
            },
    {
        let len = b.len();
        let teensy = match board {
            Board::Stb => false,
            Board::Teensy => true,
        };
        if len < 31 {
            return Err(PacketError::TooSmall(len));
        }
        if len == 31 || len == 32 {
            return decode_checked(b, len == 32, board, 0, 0, 0, 0, false);
        }
        if teensy && (len == 35 || len == 36) {
            return decode_checked(b, len == 36, board, 0, 0, 0, 0, true);
        }
        let a = b[0];
        let g = b[1];
        let n: usize = a as usize + g as usize + 1;
        let s: usize = 2 + 6 * n;
        let plain = len == 31 + s || len == 32 + s;
        let timed = teensy && (len == 35 + s || len == 36 + s);
        if !(plain || timed) {
            return Err(PacketError::ImpossibleSize(len, a, g));
        }
        let room: usize = if teensy { 63 } else { 37 };
        if n > room {
            return Err(PacketError::TooManyReadings(a, g));
        }
        decode_checked(b, len == 32 + s || len == 36 + s, board, a, g, n, s, timed)
    }

    /// Whether the board reports the packet as delayed (its first timing word is over 1000).
    pub fn is_delayed(&self) -> (r: bool)
        ensures
            r == (self.dt.0 > 1000),
    {
        self.dt.0 > 1000
    }
}

/// The length of the size prefix that comes before each packet: `aaa` and the size, in one byte
/// on the STB and in two (high byte first) on the Teensy.
pub open spec fn prefix_len(board: Board) -> nat {
    match board {
        Board::Stb => 4,
        Board::Teensy => 5,
    }
}

/// The packet size that a size prefix announces, or `None` when it does not start with `aaa`.
pub open spec fn spec_announced_size(p: Seq<u8>, board: Board) -> Option<usize> {
    if !(p[0] == 97 && p[1] == 97 && p[2] == 97) {
        None
    } else {
        match board {
            Board::Stb => Some(p[3] as usize),
            Board::Teensy => Some((256 * p[3] + p[4]) as usize),
        }
    }
}

/// The packet size that a size prefix announces, or `None` when the prefix is not there.
pub fn announced_size(p: &[u8], board: Board) -> (r: Option<usize>)
    requires
        p@.len() == prefix_len(board),
    ensures
        r == spec_announced_size(p@, board),
{
    if !(p[0] == 97 && p[1] == 97 && p[2] == 97) {
        return None;
    }
    match board {
        Board::Stb => Some(p[3] as usize),
        Board::Teensy => Some(256 * (p[3] as usize) + p[4] as usize),
    }
}

/// While looking for the prefix again after a bad one: how many `a` bytes in a row have been
/// seen once the next byte is read (the search ends at three).
pub fn scan_for_prefix(count: u8, byte: u8) -> (r: u8)
    requires
        count < 3,
    ensures
        byte == 97 ==> r == count + 1,
        byte != 97 ==> r == 0,
{
    if byte == 97 {
        count + 1
    } else {
        0
    }
}

/// What the Teensy service is asked to do alongside reading a packet.
#[derive(Debug, PartialEq, Eq)]
pub enum BoardCommand {
    /// Send a plot of the recent data, tagged with the number if one was given.
    Kick(Option<usize>),
    /// Report the parking state.
    Metermaid,
    /// Switch the accelerometers to their internal reference.
    RefInt,
    /// Switch the accelerometers to the external reference.
    RefExt,
    /// Nothing.
    Nothing,
}

/// Model of a board command.
pub enum BoardCommandView {
    Kick(Option<usize>),
    Metermaid,
    RefInt,
    RefExt,
    Nothing,
}

/// What a command asks of the Teensy service: data starting with `kick` asks for a plot (the
/// second space-separated word, if any, is its tag and must be a number); `metermaid`, `ref int`
/// and `ref ext` as they are; anything else nothing. `None` when a plot's tag is not a number.
pub open spec fn spec_board_command(c: Seq<char>) -> Option<BoardCommand> {
    if starts_with(c, "kick"@) {
        let ws = split(c, seq![' ']);
        if ws.len() < 2 {
            Some(BoardCommand::Kick(None))
        } else {
            match crate::web::spec_parse_usize(ws[1]) {
                Some(n) => Some(BoardCommand::Kick(Some(n))),
                None => None,
            }
        }
    } else if c == "metermaid"@ {
        Some(BoardCommand::Metermaid)
    } else if c == "ref int"@ {
        Some(BoardCommand::RefInt)
    } else if c == "ref ext"@ {
        Some(BoardCommand::RefExt)
    } else {
        Some(BoardCommand::Nothing)
    }
}

/// What a command asks of the Teensy service; `None` when a plot's tag is not a number.
pub fn board_command(c: &str) -> (r: Option<BoardCommand>)
    ensures
        r == spec_board_command(c@),
{
    let v = chars_of(c);
    if starts_with_chars(&v, &chars_of("kick")) {
        let ws = split_chars(&v, &pattern1(' '));
        if ws.len() < 2 {
            return Some(BoardCommand::Kick(None));
        }
        assert(ws@.map_values(|w: Vec<char>| w@)[1] == ws@[1]@);
        return match parse_u64(&ws[1]) {
            Some(n) => if n <= (usize::MAX as u64) {
                Some(BoardCommand::Kick(Some(n as usize)))
            } else {
                None
            },
            None => None,
        };
    }
    if chars_eq_str(&v, "metermaid") {
        Some(BoardCommand::Metermaid)
    } else if chars_eq_str(&v, "ref int") {
        Some(BoardCommand::RefInt)
    } else if chars_eq_str(&v, "ref ext") {
        Some(BoardCommand::RefExt)
    } else {
        Some(BoardCommand::Nothing)
    }
}

/// The big-endian 16-bit value at position `i` of the data bytes.
pub open spec fn be_word(ft: Seq<u8>, i: int) -> int {
    256 * ft[i] + ft[i + 1]
}

/// The six force/torque gauge readings of the data bytes: big-endian words, where values from
/// 2048 on stand for negative readings (4096 less).
pub open spec fn spec_gauges(ft: Seq<u8>) -> Seq<i32> {
    Seq::new(6, |k: int| {
        let v = be_word(ft, 2 * k);
        (if v >= 2048 { v - 4096 } else { v }) as i32
    })
}

/// The six force/torque gauge readings of the data bytes.
pub fn gauges(ft: &[u8]) -> (r: Vec<i32>)
    requires
        ft@.len() >= 12,
    ensures
        r@ == spec_gauges(ft@),
{
    let mut out: Vec<i32> = Vec::new();
    let mut k: usize = 0;
    while k < 6
        invariant
            k <= 6,
            ft@.len() >= 12,
            out@ == spec_gauges(ft@).subrange(0, k as int),
        decreases 6 - k,
    {
        let v: i32 = 256 * (ft[2 * k] as i32) + ft[2 * k + 1] as i32;
        let g = if v >= 2048 { v - 4096 } else { v };
        out.push(g);
        assert(out@ =~= spec_gauges(ft@).subrange(0, k + 1));
        k = k + 1;
    }
    assert(out@ =~= spec_gauges(ft@));
    out
}

/// The three accelerometer readings of the data bytes (big-endian words at positions 18, 22
/// and 24), centred on 2048.
pub fn accelerations(ft: &[u8]) -> (r: (i32, i32, i32))
    requires
        ft@.len() >= 26,
    ensures
        r.0 == be_word(ft@, 18) - 2048,
        r.1 == be_word(ft@, 22) - 2048,
        r.2 == be_word(ft@, 24) - 2048,
{
    let a = 256 * (ft[18] as i32) + ft[19] as i32 - 2048;
    let b = 256 * (ft[22] as i32) + ft[23] as i32 - 2048;
    let c = 256 * (ft[24] as i32) + ft[25] as i32 - 2048;
    (a, b, c)
}

/// The name of a board in messages.
pub open spec fn board_name(b: Board) -> Seq<char> {
    match b {
        Board::Stb => "STB"@,
        Board::Teensy => "Teensy"@,
    }
}

/// The description of a refused packet from a board.
pub open spec fn error_message(e: PacketError, b: Board) -> Seq<char> {
    match e {
        PacketError::TooSmall(n) => "Implausibly small packet ("@ + decimal(n as nat) + ") from "@ + board_name(b) + "!"@,
        PacketError::Checksum(says, sum) => "Received "@ + board_name(b) + " packet with wrong checksum (it says "@
            + decimal(says as nat) + ", I calculate "@ + decimal(sum as nat) + ")!"@,
        PacketError::ImpossibleSize(n, a, g) => match b {
            Board::Stb => "Impossible packet size ("@ + decimal(n as nat) + ") from STB!"@,
            Board::Teensy => "Impossible packet size ("@ + decimal(n as nat) + " with a="@ + decimal(a as nat)
                + ", g="@ + decimal(g as nat) + ") from Teensy!"@,
        },
        PacketError::TooManyReadings(a, g) => "Too many IMU readings (a="@ + decimal(a as nat) + ", g="@
            + decimal(g as nat) + ") from "@ + board_name(b) + "!"@,
    }
}

/// `a` followed by the literal `b`.
fn cat_str(a: Vec<char>, b: &str) -> (r: Vec<char>)
    ensures
        r@ == a@ + b@,
{
    concat_chars(&a, &chars_of(b))
}

/// `a` followed by the decimal digits of `n`.
fn cat_num(a: Vec<char>, n: u64) -> (r: Vec<char>)
    ensures
        r@ == a@ + decimal(n as nat),
{
    concat_chars(&a, &decimal_chars(n))
}

impl PacketError {
    /// The description of this refusal of a packet from the board.
    pub fn message(&self, b: Board) -> (r: String)
        ensures
            r@ == error_message(*self, b),
    {
        let name = match b {
            Board::Stb => "STB",
            Board::Teensy => "Teensy",
        };
        let t = match *self {
            PacketError::TooSmall(n) => {
                let t = cat_num(chars_of("Implausibly small packet ("), n as u64);
                let t = cat_str(cat_str(t, ") from "), name);
                cat_str(t, "!")
            },
            PacketError::Checksum(says, sum) => {
                let t = cat_str(cat_str(chars_of("Received "), name), " packet with wrong checksum (it says ");
                let t = cat_num(t, says as u64);
                let t = cat_num(cat_str(t, ", I calculate "), sum as u64);
                cat_str(t, ")!")
            },
            PacketError::ImpossibleSize(n, a, g) => {
                let t = cat_num(chars_of("Impossible packet size ("), n as u64);
                match b {
                    Board::Stb => cat_str(t, ") from STB!"),
                    Board::Teensy => {
                        let t = cat_num(cat_str(t, " with a="), a as u64);
                        let t = cat_num(cat_str(t, ", g="), g as u64);
                        cat_str(t, ") from Teensy!")
                    },
                }
            },
            PacketError::TooManyReadings(a, g) => {
                let t = cat_num(chars_of("Too many IMU readings (a="), a as u64);
                let t = cat_num(cat_str(t, ", g="), g as u64);
                let t = cat_str(cat_str(t, ") from "), name);
                cat_str(t, "!")
            },
        };
        let r = string_from_chars(&t);
        proof {
            reveal_strlit("STB");
            reveal_strlit("Teensy");
        }
        assert(r@ =~= error_message(*self, b));
        r
    }
}

/// Whether a packet of bytes from the board carries no checksum byte, going by its length: its
/// data alone (31 bytes), timing words and data on the Teensy (35), or, after the IMU readings
/// that its first two bytes count, the data alone or (on the Teensy) timing words and data.
pub open spec fn unchecked_length(b: Seq<u8>, board: Board) -> bool {
    let len = b.len();
    let teensy = board == Board::Teensy;
    ||| len == 31
    ||| teensy && len == 35
    ||| len >= 2 && len == 31 + 2 + 6 * (b[0] + b[1] + 1)
    ||| len >= 2 && teensy && len == 35 + 2 + 6 * (b[0] + b[1] + 1)
}

/// The layout of a packet reads only bytes before the data's end, so bytes added after it
/// change nothing.
proof fn lemma_layout_prefix(b: Seq<u8>, c: Seq<u8>, board: Board, a: u8, g: u8, n: nat, s: int, dt: bool)
    requires
        b.len() <= c.len(),
        forall|i: int| 0 <= i < b.len() ==> #[trigger] c[i] == b[i],
        0 <= s,
        n == 0 || 2 + 6 * n <= s,
        (if dt { s + 35 } else { s + 31 }) <= b.len(),
    ensures
        layout(c, board, a, g, n, s, dt) == layout(b, board, a, g, n, s, dt),
{
    let f = if dt { s + 4 } else { s };
    assert(c.subrange(f, f + 31) =~= b.subrange(f, f + 31));
    assert(readings(c, 2, n) =~= readings(b, 2, n)) by {
        assert forall|k: int| 0 <= k < n implies #[trigger] readings(c, 2, n)[k] == readings(b, 2, n)[k] by {
            assert(2 + 6 * k + 5 < s) by (nonlinear_arith)
                requires
                    0 <= k < n,
                    2 + 6 * n <= s,
            ;
        }
    }
    if dt {
        assert(le_u16(c, s) == le_u16(b, s));
        assert(le_u16(c, s + 2) == le_u16(b, s + 2));
    }
}

/// A checksum byte after a packet that has none changes nothing when it is right: the packet
/// decodes to what it decoded to without it. When it is wrong, the packet is refused, with the
/// byte found and the sum of the others.
pub proof fn law_checksum_byte(b: Seq<u8>, board: Board, x: u8)
    requires
        unchecked_length(b, board),
        spec_decode(b, board) is Ok,
    ensures
        spec_decode(b.push(byte_sum(b)), board) == spec_decode(b, board),
        x != byte_sum(b) ==> spec_decode(b.push(x), board) == Err::<PacketView, PacketError>(PacketError::Checksum(x, byte_sum(b))),
{
    let teensy = board == Board::Teensy;
    let len = b.len();
    assert forall|y: u8| #![auto] b.push(y).drop_last() == b && b.push(y).last() == y by {
        assert(b.push(y).drop_last() =~= b);
    }
    assert forall|y: u8, i: int| 0 <= i < b.len() implies #[trigger] b.push(y)[i] == b[i] by {}
    if len == 31 {
        lemma_layout_prefix(b, b.push(byte_sum(b)), board, 0, 0, 0, 0, false);
    } else if teensy && len == 35 {
        lemma_layout_prefix(b, b.push(byte_sum(b)), board, 0, 0, 0, 0, true);
    } else {
        let a = b[0];
        let g = b[1];
        let n = (a + g + 1) as nat;
        let s: int = (2 + 6 * n) as int;
        let c = b.push(byte_sum(b));
        assert(c[0] == a && c[1] == g);
        let dt = teensy && len == 35 + s;
        lemma_layout_prefix(b, c, board, a, g, n, s, dt);
        assert(spec_decode(b, board) == checked(b, false, layout(b, board, a, g, n, s, dt)));
        assert(spec_decode(c, board) == checked(c, true, layout(c, board, a, g, n, s, dt)));
        let cx = b.push(x);
        assert(cx[0] == a && cx[1] == g);
    }
}

/// What a decoded packet holds: 31 data bytes; the parking-lot state is the last data byte as
/// sent, and the Teensy's data keeps that byte with the parking-lot bits cleared; IMU readings
/// as many as the first two bytes count plus one (none for a packet of data alone), with those
/// counts; and timing words only from the Teensy.
pub proof fn law_decoded_packet(b: Seq<u8>, board: Board)
    requires
        spec_decode(b, board) is Ok,
    ensures
        ({
            let p = spec_decode(b, board).unwrap();
            &&& p.ft.len() == 31
            &&& board == Board::Teensy ==> p.ft[30] == p.park & !park_bits()
            &&& board == Board::Stb ==> p.ft[30] == p.park && p.dt == (0u16, 0u16)
            &&& p.imu.len() == 0 ==> p.n_acc == 0 && p.n_gyro == 0
            &&& p.imu.len() > 0 ==> p.n_acc == b[0] && p.n_gyro == b[1] && p.imu.len() == b[0] + b[1] + 1
            &&& p.imu.len() <= imu_room(board)
        }),
{
}

/// Each gauge reading is the 12-bit two's-complement value of its word: when the word fits in
/// 12 bits, the reading lies in [-2048, 2048) and differs from the word by a multiple of 4096
/// (none for a word under 2048).
pub proof fn law_gauges_twelve_bit(ft: Seq<u8>)
    requires
        ft.len() >= 12,
    ensures
        spec_gauges(ft).len() == 6,
        forall|k: int| 0 <= k < 6 && be_word(ft, 2 * k) < 4096 ==> {
            let g = #[trigger] spec_gauges(ft)[k] as int;
            let w = be_word(ft, 2 * k);
            &&& -2048 <= g < 2048
            &&& (g == w || g == w - 4096)
            &&& w < 2048 ==> g == w
        },
{
}

/// A size prefix starts with three `a` bytes; the STB's announces its last byte, the Teensy's
/// the big-endian 16-bit number of its last two bytes.
pub proof fn law_announced_size(p: Seq<u8>, board: Board)
    requires
        p.len() == prefix_len(board),
    ensures
        spec_announced_size(p, board) is Some <==> p[0] == 97 && p[1] == 97 && p[2] == 97,
        spec_announced_size(p, board) matches Some(n) ==> match board {
            Board::Stb => n == p[3],
            Board::Teensy => n < 65536 && n / 256 == p[3] && n % 256 == p[4],
        },
{
    if board == Board::Teensy && spec_announced_size(p, board) is Some {
        let n = 256 * p[3] + p[4];
        assert(n < 65536);
        assert(n / 256 == p[3] && n % 256 == p[4]) by (nonlinear_arith)
            requires
                n == 256 * p[3] + p[4],
                p[4] < 256,
                p[3] < 256,
        ;
    }
}

} // verus!
