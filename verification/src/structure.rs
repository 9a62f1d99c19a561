//! Status codes and descriptors of the OpenNI interface to the Structure depth sensor.
use vstd::prelude::*;

verus! {

/// Status returned by an OpenNI call.
#[derive(Copy, Clone, Debug, PartialEq, Eq, Structural)]
pub enum OniStatus {
    /// The call succeeded (the variant the interface calls `Ok`).
    Success,
    Error,
    NotImplemented,
    NotSupported,
    BadParameter,
    OutOfFlow,
    NoDevice,
    TimeOut,
}

/// The code of each status.
pub open spec fn status_code(s: OniStatus) -> i32 {
    match s {
        OniStatus::Success => 0,
        OniStatus::Error => 1,
        OniStatus::NotImplemented => 2,
        OniStatus::NotSupported => 3,
        OniStatus::BadParameter => 4,
        OniStatus::OutOfFlow => 5,
        OniStatus::NoDevice => 6,
        OniStatus::TimeOut => 102,
    }
}

/// The reason an OpenNI call failed.
#[derive(Copy, Clone, Debug, PartialEq, Eq, Structural)]
pub enum OniErrorCode {
    Error,
    NotImplemented,
    NotSupported,
    BadParameter,
    OutOfFlow,
    NoDevice,
    TimeOut,
}

/// The code of each failure.
pub open spec fn error_code(e: OniErrorCode) -> i32 {
    match e {
        OniErrorCode::Error => 1,
        OniErrorCode::NotImplemented => 2,
        OniErrorCode::NotSupported => 3,
        OniErrorCode::BadParameter => 4,
        OniErrorCode::OutOfFlow => 5,
        OniErrorCode::NoDevice => 6,
        OniErrorCode::TimeOut => 102,
    }
}

/// A failed OpenNI call: the reason and the interface's extended description.
#[derive(Debug, PartialEq, Eq)]
pub struct OniError {
    code: OniErrorCode,
    extended: String,
}

impl OniError {
    /// The reason of the failure.
    pub closed spec fn spec_code(&self) -> OniErrorCode {
        self.code
    }

    /// The extended description of the failure.
    pub closed spec fn spec_extended(&self) -> Seq<char> {
        self.extended@
    }

    /// The reason of the failure.
    pub fn code(&self) -> (r: OniErrorCode)
        ensures
            r == self.spec_code(),
    {
        self.code
    }

    /// The extended description of the failure.
    pub fn extended(&self) -> (r: &String)
        ensures
            r@ == self.spec_extended(),
    {
        &self.extended
    }
}

impl OniStatus {
    /// The status with the given code, if any.
    pub fn from_code(i: i32) -> (r: Option<OniStatus>)
        ensures
            r matches Some(s) ==> status_code(s) == i,
            r is None <==> !(0 <= i <= 6 || i == 102),
    {
        match i {
            0 => Some(OniStatus::Success),
            1 => Some(OniStatus::Error),
            2 => Some(OniStatus::NotImplemented),
            3 => Some(OniStatus::NotSupported),
            4 => Some(OniStatus::BadParameter),
            5 => Some(OniStatus::OutOfFlow),
            6 => Some(OniStatus::NoDevice),
            102 => Some(OniStatus::TimeOut),
            _ => None,
        }
    }

    /// The code of this status.
    pub fn code(self) -> (r: i32)
        ensures
            r == status_code(self),
    {
        match self {
            OniStatus::Success => 0,
            OniStatus::Error => 1,
            OniStatus::NotImplemented => 2,
            OniStatus::NotSupported => 3,
            OniStatus::BadParameter => 4,
            OniStatus::OutOfFlow => 5,
            OniStatus::NoDevice => 6,
            OniStatus::TimeOut => 102,
        }
    }

    /// The error that a failure status stands for, with the interface's extended description.
    pub fn into_err(self, extended: String) -> (r: OniError)
        requires
            self != OniStatus::Success,
        ensures
            error_code(r.spec_code()) == status_code(self),
            r.spec_extended() == extended@,
    {
        let code = match self {
            OniStatus::Error => OniErrorCode::Error,
            OniStatus::NotImplemented => OniErrorCode::NotImplemented,
            OniStatus::NotSupported => OniErrorCode::NotSupported,
            OniStatus::BadParameter => OniErrorCode::BadParameter,
            OniStatus::OutOfFlow => OniErrorCode::OutOfFlow,
            OniStatus::NoDevice => OniErrorCode::NoDevice,
            _ => OniErrorCode::TimeOut,
        };
        OniError { code, extended }
    }
}

/// Turns the raw status of an OpenNI call into a result: code 0 is success, a known failure
/// code its error, and an unknown code a generic `Error`.
pub fn check_status(code: i32, extended: String) -> (r: Result<(), OniError>)
    ensures
        code == 0 <==> r is Ok,
        r matches Err(e) ==> e.spec_extended() == extended@ && (if 1 <= code <= 6 || code == 102 {
            error_code(e.spec_code()) == code
        } else {
            e.spec_code() == OniErrorCode::Error
        }),
{
    match OniStatus::from_code(code) {
        Some(OniStatus::Success) => Ok(()),
        Some(s) => Err(s.into_err(extended)),
        None => Err(OniStatus::Error.into_err(extended)),
    }
}

/// Kind of sensor of a stream.
#[derive(Copy, Clone, Debug, PartialEq, Eq, Structural)]
pub enum OniSensorType {
    IR,
    Color,
    Depth,
}

impl OniSensorType {
    /// The code of this sensor type.
    pub fn code(self) -> (r: i32)
        ensures
            r == (match self {
                OniSensorType::IR => 1i32,
                OniSensorType::Color => 2i32,
                OniSensorType::Depth => 3i32,
            }),
    {
        match self {
            OniSensorType::IR => 1,
            OniSensorType::Color => 2,
            OniSensorType::Depth => 3,
        }
    }
}

/// Pixel format of a stream.
#[derive(Copy, Clone, Debug, PartialEq, Eq, Structural)]
pub enum OniPixelFormat {
    Depth1mm,
    Depth100um,
    Shift92,
    Shift93,
    RGB888,
    YUV422,
    Gray8,
    Gray16,
    JPEG,
    YUYV,
}

/// The code of each pixel format.
pub open spec fn pixel_format_code(p: OniPixelFormat) -> i32 {
    match p {
        OniPixelFormat::Depth1mm => 100,
        OniPixelFormat::Depth100um => 101,
        OniPixelFormat::Shift92 => 102,
        OniPixelFormat::Shift93 => 103,
        OniPixelFormat::RGB888 => 200,
        OniPixelFormat::YUV422 => 201,
        OniPixelFormat::Gray8 => 202,
        OniPixelFormat::Gray16 => 203,
        OniPixelFormat::JPEG => 204,
        OniPixelFormat::YUYV => 205,
    }
}

impl OniPixelFormat {
    /// The code of this pixel format.
    pub fn code(self) -> (r: i32)
        ensures
            r == pixel_format_code(self),
    {
        match self {
            OniPixelFormat::Depth1mm => 100,
            OniPixelFormat::Depth100um => 101,
            OniPixelFormat::Shift92 => 102,
            OniPixelFormat::Shift93 => 103,
            OniPixelFormat::RGB888 => 200,
            OniPixelFormat::YUV422 => 201,
            OniPixelFormat::Gray8 => 202,
            OniPixelFormat::Gray16 => 203,
            OniPixelFormat::JPEG => 204,
            OniPixelFormat::YUYV => 205,
        }
    }

    /// The pixel format with the given code, if any.
    pub fn from_code(i: i32) -> (r: Option<OniPixelFormat>)
        ensures
            r matches Some(p) ==> pixel_format_code(p) == i,
            r is None <==> !(100 <= i <= 103 || 200 <= i <= 205),
    {
        match i {
            100 => Some(OniPixelFormat::Depth1mm),
            101 => Some(OniPixelFormat::Depth100um),
            102 => Some(OniPixelFormat::Shift92),
            103 => Some(OniPixelFormat::Shift93),
            200 => Some(OniPixelFormat::RGB888),
            201 => Some(OniPixelFormat::YUV422),
            202 => Some(OniPixelFormat::Gray8),
            203 => Some(OniPixelFormat::Gray16),
            204 => Some(OniPixelFormat::JPEG),
            205 => Some(OniPixelFormat::YUYV),
            _ => None,
        }
    }
}

/// A video mode of a stream.
#[derive(Copy, Clone, Debug, PartialEq, Eq, Structural)]
pub struct OniVideoMode {
    pub pixel_format: OniPixelFormat,
    pub resolution_x: i32,
    pub resolution_y: i32,
    pub fps: i32,
}

/// What a sensor is and which video modes it supports.
pub struct OniSensorInfo {
    pub sensor_type: OniSensorType,
    pub supported_video_modes: Vec<OniVideoMode>,
}

impl OniSensorInfo {
    /// The supported video modes.
    pub fn video_modes(&self) -> (r: &[OniVideoMode])
        ensures
            r@ == self.supported_video_modes@,
    {
        self.supported_video_modes.as_slice()
    }
}

/// The sensor information of a stream.
pub struct SensorInfo {
    pub info: OniSensorInfo,
}

impl SensorInfo {
    /// The information itself.
    pub fn get(&self) -> (r: &OniSensorInfo)
        ensures
            r == &self.info,
    {
        &self.info
    }
}

} // verus!
