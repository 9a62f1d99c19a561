//! Settings of the OptoForce sensor and their one-byte device encoding.
use vstd::prelude::*;

verus! {

/// Sampling speed of the sensor.
#[derive(Copy, Clone, Debug, PartialEq, Eq, Structural)]
pub enum Speed {
    Hz30,
    Hz100,
    Hz333,
    Hz1000,
}

/// Low-pass filter of the sensor.
#[derive(Copy, Clone, Debug, PartialEq, Eq, Structural)]
pub enum Filter {
    /// No filtering (named `None` by the sensor library)
    Off,
    Hz15,
    Hz50,
    Hz150,
}

/// Output mode of the sensor.
#[derive(Copy, Clone, Debug, PartialEq, Eq, Structural)]
pub enum Mode {
    Raw,
    Force,
}

/// Health state reported by the sensor.
#[derive(Copy, Clone, Debug, PartialEq, Eq, Structural)]
pub enum State {
    NoSensor,
    OverloadX,
    OverloadY,
    OverloadZ,
    SensorFailure,
    SensorOk,
    ConnectionFailure,
}

/// Device code of each speed.
pub open spec fn speed_code(s: Speed) -> u8 {
    match s {
        Speed::Hz30 => 3,
        Speed::Hz100 => 2,
        Speed::Hz333 => 1,
        Speed::Hz1000 => 0,
    }
}

/// Frequency of each speed.
pub open spec fn speed_hz(s: Speed) -> u16 {
    match s {
        Speed::Hz30 => 30,
        Speed::Hz100 => 100,
        Speed::Hz333 => 333,
        Speed::Hz1000 => 1000,
    }
}

/// Device code of each filter.
pub open spec fn filter_code(f: Filter) -> u8 {
    match f {
        Filter::Off => 0,
        Filter::Hz15 => 3,
        Filter::Hz50 => 2,
        Filter::Hz150 => 1,
    }
}

/// Cutoff frequency of each filter (none when filtering is off).
pub open spec fn filter_hz(f: Filter) -> Option<u8> {
    match f {
        Filter::Off => None,
        Filter::Hz15 => Some(15u8),
        Filter::Hz50 => Some(50u8),
        Filter::Hz150 => Some(150u8),
    }
}

/// Device code of each mode.
pub open spec fn mode_code(m: Mode) -> u8 {
    match m {
        Mode::Raw => 0,
        Mode::Force => 1,
    }
}

/// Name of each mode.
pub open spec fn mode_name(m: Mode) -> Seq<char> {
    match m {
        Mode::Raw => "raw"@,
        Mode::Force => "force"@,
    }
}

/// Device code of each state.
pub open spec fn state_code(s: State) -> u8 {
    match s {
        State::NoSensor => 0,
        State::OverloadX => 1,
        State::OverloadY => 2,
        State::OverloadZ => 3,
        State::SensorFailure => 4,
        State::SensorOk => 5,
        State::ConnectionFailure => 6,
    }
}

impl Speed {
    /// Speed with the given device code.
    pub fn from_device(i: u8) -> (r: Option<Speed>)
        ensures
            r matches Some(s) ==> speed_code(s) == i,
            r is None <==> i > 3,
    {
        match i {
            3 => Some(Speed::Hz30),
            2 => Some(Speed::Hz100),
            1 => Some(Speed::Hz333),
            0 => Some(Speed::Hz1000),
            _ => None,
        }
    }

    /// Device code of this speed.
    pub fn to_device(self) -> (r: u8)
        ensures
            r == speed_code(self),
    {
        match self {
            Speed::Hz30 => 3,
            Speed::Hz100 => 2,
            Speed::Hz333 => 1,
            Speed::Hz1000 => 0,
        }
    }

    /// Speed with the given frequency.
    pub fn from_hz(i: u16) -> (r: Option<Speed>)
        ensures
            r matches Some(s) ==> speed_hz(s) == i,
            r is None <==> !(i == 30 || i == 100 || i == 333 || i == 1000),
    {
        match i {
            30 => Some(Speed::Hz30),
            100 => Some(Speed::Hz100),
            333 => Some(Speed::Hz333),
            1000 => Some(Speed::Hz1000),
            _ => None,
        }
    }

    /// Frequency of this speed.
    pub fn to_hz(self) -> (r: Option<u16>)
        ensures
            r == Some(speed_hz(self)),
    {
        match self {
            Speed::Hz30 => Some(30),
            Speed::Hz100 => Some(100),
            Speed::Hz333 => Some(333),
            Speed::Hz1000 => Some(1000),
        }
    }
}

impl Filter {
    /// Filter with the given device code.
    pub fn from_device(i: u8) -> (r: Option<Filter>)
        ensures
            r matches Some(f) ==> filter_code(f) == i,
            r is None <==> i > 3,
    {
        match i {
            0 => Some(Filter::Off),
            3 => Some(Filter::Hz15),
            2 => Some(Filter::Hz50),
            1 => Some(Filter::Hz150),
            _ => None,
        }
    }

    /// Device code of this filter.
    pub fn to_device(self) -> (r: u8)
        ensures
            r == filter_code(self),
    {
        match self {
            Filter::Off => 0,
            Filter::Hz15 => 3,
            Filter::Hz50 => 2,
            Filter::Hz150 => 1,
        }
    }

    /// Filter with the given cutoff frequency (`Off` has none).
    pub fn from_hz(i: u8) -> (r: Option<Filter>)
        ensures
            r matches Some(f) ==> filter_hz(f) == Some(i),
            r is None <==> !(i == 15 || i == 50 || i == 150),
    {
        match i {
            15 => Some(Filter::Hz15),
            50 => Some(Filter::Hz50),
            150 => Some(Filter::Hz150),
            _ => None,
        }
    }

    /// Cutoff frequency of this filter.
    pub fn to_hz(self) -> (r: Option<u8>)
        ensures
            r == filter_hz(self),
    {
        match self {
            Filter::Off => None,
            Filter::Hz15 => Some(15),
            Filter::Hz50 => Some(50),
            Filter::Hz150 => Some(150),
        }
    }
}

impl Mode {
    /// Mode with the given device code.
    pub fn from_device(i: u8) -> (r: Option<Mode>)
        ensures
            r matches Some(m) ==> mode_code(m) == i,
            r is None <==> i > 1,
    {
        match i {
            0 => Some(Mode::Raw),
            1 => Some(Mode::Force),
            _ => None,
        }
    }

    /// Device code of this mode.
    pub fn to_device(self) -> (r: u8)
        ensures
            r == mode_code(self),
    {
        match self {
            Mode::Raw => 0,
            Mode::Force => 1,
        }
    }

    /// Mode with the given name.
    pub fn from_hz(s: &str) -> (r: Option<Mode>)
        ensures
            r matches Some(m) ==> mode_name(m) == s@,
            r is None <==> (s@ != "raw"@ && s@ != "force"@),
    {
        let v = crate::text::chars_of(s);
        if crate::text::chars_eq_str(&v, "raw") {
            Some(Mode::Raw)
        } else if crate::text::chars_eq_str(&v, "force") {
            Some(Mode::Force)
        } else {
            None
        }
    }

    /// Name of this mode.
    pub fn to_hz(self) -> (r: Option<&'static str>)
        ensures
            r matches Some(s) && s@ == mode_name(self),
    {
        match self {
            Mode::Raw => Some("raw"),
            Mode::Force => Some("force"),
        }
    }
}

impl State {
    /// State with the given device code.
    pub fn from_device(i: u8) -> (r: Option<State>)
        ensures
            r matches Some(s) ==> state_code(s) == i,
            r is None <==> i > 6,
    {
        match i {
            0 => Some(State::NoSensor),
            1 => Some(State::OverloadX),
            2 => Some(State::OverloadY),
            3 => Some(State::OverloadZ),
            4 => Some(State::SensorFailure),
            5 => Some(State::SensorOk),
            6 => Some(State::ConnectionFailure),
            _ => None,
        }
    }

    /// Device code of this state.
    pub fn to_device(self) -> (r: u8)
        ensures
            r == state_code(self),
    {
        match self {
            State::NoSensor => 0,
            State::OverloadX => 1,
            State::OverloadY => 2,
            State::OverloadZ => 3,
            State::SensorFailure => 4,
            State::SensorOk => 5,
            State::ConnectionFailure => 6,
        }
    }

    /// States carry no frequency, so no unit value names one.
    pub fn from_hz(i: ()) -> (r: Option<State>)
        ensures
            r is None,
    {
        None
    }

    /// States carry no frequency.
    pub fn to_hz(self) -> (r: Option<()>)
        ensures
            r is None,
    {
        None
    }
}

/// Version of the sensor library.
#[derive(Copy, Clone, Debug, PartialEq, Eq, Structural)]
pub struct Version {
    pub major: i32,
    pub minor: i32,
    pub revision: i32,
}

/// Where and how fast to connect to the sensor; a negative baud rate leaves the rate to the
/// sensor library.
pub struct ConnectOptions<'a> {
    pub path: &'a str,
    pub baud: i32,
}

impl Default for ConnectOptions<'static> {
    /// The sensor's usual serial device, at the library's rate.
    fn default() -> (r: ConnectOptions<'static>)
        ensures
            r.path@ == "/dev/ttyACM0"@,
            r.baud == -1,
    {
        ConnectOptions { path: "/dev/ttyACM0", baud: -1 }
    }
}

/// Configuration of the sensor, packed into one byte on the device.
#[derive(Copy, Clone, Debug, PartialEq, Eq, Structural)]
pub struct Settings {
    pub speed: Speed,
    pub filter: Filter,
    pub mode: Mode,
    pub state: State,
}

/// The device byte of a configuration: mode in bit 0, filter in bits 1-2, speed in bits 3-4,
/// state in bits 5-7.
pub open spec fn spec_encode(s: Settings) -> u8 {
    (mode_code(s.mode) | (filter_code(s.filter) << 1u8) | (speed_code(s.speed) << 3u8)
        | (state_code(s.state) << 5u8)) as u8
}

/// The configuration that a device byte describes, if its state field is a known state.
pub open spec fn spec_decode(b: u8) -> Option<Settings> {
    let m = b & 1u8;
    let f = (b >> 1u8) & 3u8;
    let sp = (b >> 3u8) & 3u8;
    let st = (b >> 5u8) & 7u8;
    if st > 6 {
        None
    } else {
        Some(
            Settings {
                mode: if m == 0 { Mode::Raw } else { Mode::Force },
                filter: if f == 0 {
                    Filter::Off
                } else if f == 3 {
                    Filter::Hz15
                } else if f == 2 {
                    Filter::Hz50
                } else {
                    Filter::Hz150
                },
                speed: if sp == 3 {
                    Speed::Hz30
                } else if sp == 2 {
                    Speed::Hz100
                } else if sp == 1 {
                    Speed::Hz333
                } else {
                    Speed::Hz1000
                },
                state: if st == 0 {
                    State::NoSensor
                } else if st == 1 {
                    State::OverloadX
                } else if st == 2 {
                    State::OverloadY
                } else if st == 3 {
                    State::OverloadZ
                } else if st == 4 {
                    State::SensorFailure
                } else if st == 5 {
                    State::SensorOk
                } else {
                    State::ConnectionFailure
                },
            },
        )
    }
}

/// The configuration a new sensor is set to.
pub open spec fn default_settings() -> Settings {
    Settings {
        state: State::SensorOk,
        speed: Speed::Hz100,
        filter: Filter::Hz15,
        mode: Mode::Force,
    }
}

impl Settings {
    /// The default configuration.
    pub fn new() -> (r: Settings)
        ensures
            r == default_settings(),
    {
        Settings { state: State::SensorOk, speed: Speed::Hz100, filter: Filter::Hz15, mode: Mode::Force }
    }

    /// This configuration with another speed.
    pub fn set_speed(self, speed: Speed) -> (r: Settings)
        ensures
            r == (Settings { speed, ..self }),
    {
        let mut s = self;
        s.speed = speed;
        s
    }

    /// This configuration with another filter.
    pub fn set_filter(self, filter: Filter) -> (r: Settings)
        ensures
            r == (Settings { filter, ..self }),
    {
        let mut s = self;
        s.filter = filter;
        s
    }

    /// This configuration with another mode.
    pub fn set_mode(self, mode: Mode) -> (r: Settings)
        ensures
            r == (Settings { mode, ..self }),
    {
        let mut s = self;
        s.mode = mode;
        s
    }

    /// This configuration with another state.
    pub fn set_state(self, state: State) -> (r: Settings)
        ensures
            r == (Settings { state, ..self }),
    {
        let mut s = self;
        s.state = state;
        s
    }

    /// Packs this configuration into the device byte.
    pub fn encode(self) -> (r: u8)
        ensures
            r == spec_encode(self),
    {
        let m = self.mode.to_device();
        let f = self.filter.to_device();
        let sp = self.speed.to_device();
        let st = self.state.to_device();
        assert(m <= 1 && f <= 3 && sp <= 3 && st <= 6);
        m | (f << 1u8) | (sp << 3u8) | (st << 5u8)
    }

    /// Unpacks a device byte; fails when the state field is not a known state.
    pub fn decode(byte: u8) -> (r: Option<Settings>)
        ensures
            r == spec_decode(byte),
    {
        assert(byte & 1u8 <= 1 && (byte >> 1u8) & 3u8 <= 3 && (byte >> 3u8) & 3u8 <= 3)
            by (bit_vector);
        let mode = match Mode::from_device(byte & 0b0000_0001u8) {
            Some(m) => m,
            None => {
                return None;
            },
        };
        let filter = match Filter::from_device((byte >> 1u8) & 0b0000_0011u8) {
            Some(f) => f,
            None => {
                return None;
            },
        };
        let speed = match Speed::from_device((byte >> 3u8) & 0b0000_0011u8) {
            Some(s) => s,
            None => {
                return None;
            },
        };
        let state = match State::from_device((byte >> 5u8) & 0b0000_0111u8) {
            Some(s) => s,
            None => {
                return None;
            },
        };
        Some(Settings { mode, filter, speed, state })
    }
}

/// Helper: the four fields come back out of the byte they were packed into.
proof fn lemma_fields_roundtrip(m: u8, f: u8, sp: u8, st: u8)
    requires
        m <= 1,
        f <= 3,
        sp <= 3,
        st <= 6,
    ensures
        ((m | (f << 1u8) | (sp << 3u8) | (st << 5u8)) as u8) & 1u8 == m,
        (((m | (f << 1u8) | (sp << 3u8) | (st << 5u8)) as u8) >> 1u8) & 3u8 == f,
        (((m | (f << 1u8) | (sp << 3u8) | (st << 5u8)) as u8) >> 3u8) & 3u8 == sp,
        (((m | (f << 1u8) | (sp << 3u8) | (st << 5u8)) as u8) >> 5u8) & 7u8 == st,
{
    assert(((m | (f << 1u8) | (sp << 3u8) | (st << 5u8)) as u8) & 1u8 == m) by (bit_vector)
        requires
            m <= 1,
            f <= 3,
            sp <= 3,
            st <= 6,
    ;
    assert((((m | (f << 1u8) | (sp << 3u8) | (st << 5u8)) as u8) >> 1u8) & 3u8 == f) by (bit_vector)
        requires
            m <= 1,
            f <= 3,
            sp <= 3,
            st <= 6,
    ;
    assert((((m | (f << 1u8) | (sp << 3u8) | (st << 5u8)) as u8) >> 3u8) & 3u8 == sp)
        by (bit_vector)
        requires
            m <= 1,
            f <= 3,
            sp <= 3,
            st <= 6,
    ;
    assert((((m | (f << 1u8) | (sp << 3u8) | (st << 5u8)) as u8) >> 5u8) & 7u8 == st)
        by (bit_vector)
        requires
            m <= 1,
            f <= 3,
            sp <= 3,
            st <= 6,
    ;
}

/// Decoding the byte that a configuration encodes to gives the configuration back.
pub proof fn lemma_decode_encode(s: Settings)
    ensures
        spec_decode(spec_encode(s)) == Some(s),
{
    lemma_fields_roundtrip(mode_code(s.mode), filter_code(s.filter), speed_code(s.speed), state_code(s.state));
}

/// Encoding the configuration that a byte decodes to gives the byte back: every bit of the
/// byte is a field, so no information is lost.
pub proof fn lemma_encode_decode(b: u8)
    requires
        spec_decode(b) is Some,
    ensures
        spec_encode(spec_decode(b).unwrap()) == b,
{
    let m = b & 1u8;
    let f = (b >> 1u8) & 3u8;
    let sp = (b >> 3u8) & 3u8;
    let st = (b >> 5u8) & 7u8;
    assert((m | (f << 1u8) | (sp << 3u8) | (st << 5u8)) as u8 == b) by (bit_vector)
        requires
            m == b & 1u8,
            f == (b >> 1u8) & 3u8,
            sp == (b >> 3u8) & 3u8,
            st == (b >> 5u8) & 7u8,
    ;
    assert(m <= 1 && f <= 3 && sp <= 3 && st <= 7) by (bit_vector)
        requires
            m == b & 1u8,
            f == (b >> 1u8) & 3u8,
            sp == (b >> 3u8) & 3u8,
            st == (b >> 5u8) & 7u8,
    ;
}

/// How many of the sensor's speeds are faster than `s`.
pub open spec fn faster_speeds(s: Speed) -> nat {
    (if speed_hz(Speed::Hz30) > speed_hz(s) { 1nat } else { 0nat })
        + (if speed_hz(Speed::Hz100) > speed_hz(s) { 1nat } else { 0nat })
        + (if speed_hz(Speed::Hz333) > speed_hz(s) { 1nat } else { 0nat })
        + (if speed_hz(Speed::Hz1000) > speed_hz(s) { 1nat } else { 0nat })
}

/// How many of the sensor's filters have a higher cutoff than `f` (filtering off has none).
pub open spec fn higher_cutoffs(f: Filter) -> nat {
    match filter_hz(f) {
        None => 0,
        Some(c) => 1 + (if 15 > c { 1nat } else { 0nat }) + (if 50 > c { 1nat } else { 0nat })
            + (if 150 > c { 1nat } else { 0nat }),
    }
}

/// The sensor numbers its speeds from the fastest: a speed's device code is how many speeds are
/// faster, so the slowest (30 Hz) is 3 and the fastest (1000 Hz) is 0. Its filters are numbered
/// from off (0) and then from the highest cutoff (150 Hz is 1, 15 Hz is 3). The device byte of
/// a configuration holds those codes in bits 3-4 and 1-2, and a byte decodes to the speed and
/// filter with the codes it holds.
pub proof fn law_device_codes(s: Settings, b: u8)
    ensures
        speed_code(s.speed) == faster_speeds(s.speed),
        filter_code(s.filter) == higher_cutoffs(s.filter),
        (spec_encode(s) >> 3u8) & 3u8 == faster_speeds(s.speed),
        (spec_encode(s) >> 1u8) & 3u8 == higher_cutoffs(s.filter),
        spec_decode(b) matches Some(d) ==> (b >> 3u8) & 3u8 == faster_speeds(d.speed)
            && (b >> 1u8) & 3u8 == higher_cutoffs(d.filter),
{
    lemma_fields_roundtrip(mode_code(s.mode), filter_code(s.filter), speed_code(s.speed), state_code(s.state));
    if spec_decode(b) is Some {
        let sp = (b >> 3u8) & 3u8;
        let f = (b >> 1u8) & 3u8;
        assert(sp <= 3) by (bit_vector)
            requires
                sp == (b >> 3u8) & 3u8,
        ;
        assert(f <= 3) by (bit_vector)
            requires
                f == (b >> 1u8) & 3u8,
        ;
    }
}

} // verus!
