//! Handles, status codes and pixel formats of the mvBlueFOX camera driver.
use vstd::prelude::*;
use crate::text::{spec_parse_u64, parse_u64, chars_of, subvec};

verus! {

/// A driver handle.
#[derive(Copy, Clone, Debug, PartialEq, Eq, Structural)]
pub struct HDMR(pub i32);

/// A driver handle.
#[derive(Copy, Clone, Debug, PartialEq, Eq, Structural)]
pub struct HDEV(pub i32);

/// A driver handle.
#[derive(Copy, Clone, Debug, PartialEq, Eq, Structural)]
pub struct HDRV(pub i32);

/// A driver handle.
#[derive(Copy, Clone, Debug, PartialEq, Eq, Structural)]
pub struct HOBJ(pub i32);

/// A driver handle.
#[derive(Copy, Clone, Debug, PartialEq, Eq, Structural)]
pub struct HLIST(pub i32);

impl HOBJ {
    /// The same handle, used as a list.
    pub fn into_hlist(self) -> (r: HLIST)
        ensures
            r.0 == self.0,
    {
        HLIST(self.0)
    }
}

/// Status of a device manager call.
#[allow(non_camel_case_types)]
#[derive(Copy, Clone, Debug, PartialEq, Eq, Structural)]
pub enum TDMR_ERROR {
    DMR_NO_ERROR,
    DMR_DEV_NOT_FOUND,
    DMR_INIT_FAILED,
    DMR_DRV_ALREADY_IN_USE,
    DMR_DEV_CANNOT_OPEN,
    DMR_NOT_INITIALIZED,
    DMR_DRV_CANNOT_OPEN,
    DMR_DEV_REQUEST_QUEUE_EMPTY,
    DMR_DEV_REQUEST_CREATION_FAILED,
    DMR_INVALID_PARAMETER,
    DMR_EXPORTED_SYMBOL_NOT_FOUND,
    DEV_UNKNOWN_ERROR,
    DEV_HANDLE_INVALID,
    DEV_INPUT_PARAM_INVALID,
    DEV_WRONG_INPUT_PARAM_COUNT,
    DEV_CREATE_SETTING_FAILED,
    DEV_REQUEST_CANT_BE_UNLOCKED,
    DEV_INVALID_REQUEST_NUMBER,
    DEV_LOCKED_REQUEST_IN_QUEUE,
    DEV_NO_FREE_REQUEST_AVAILABLE,
    DEV_WAIT_FOR_REQUEST_FAILED,
    DEV_UNSUPPORTED_PARAMETER,
    DEV_INVALID_RTC_NUMBER,
    DMR_INTERNAL_ERROR,
    DMR_INPUT_BUFFER_TOO_SMALL,
    DEV_INTERNAL_ERROR,
    DMR_LIBRARY_NOT_FOUND,
    DMR_FUNCTION_NOT_IMPLEMENTED,
    DMR_FEATURE_NOT_AVAILABLE,
    DMR_EXECUTION_PROHIBITED,
    DMR_FILE_NOT_FOUND,
    DMR_INVALID_LICENCE,
    DEV_SENSOR_TYPE_ERROR,
    DMR_CAMERA_DESCRIPTION_INVALID,
    DMR_NEWER_LIBRARY_REQUIRED,
    DMR_TIMEOUT,
    DMR_WAIT_ABANDONED,
    DMR_EXECUTION_FAILED,
    DEV_REQUEST_ALREADY_IN_USE,
    DEV_REQUEST_BUFFER_INVALID,
    DEV_REQUEST_BUFFER_MISALIGNED,
    DEV_ACCESS_DENIED,
    DMR_PRELOAD_CHECK_FAILED,
    DMR_CAMERA_DESCRIPTION_INVALID_PARAMETER,
    DMR_FILE_ACCESS_ERROR,
    DMR_INVALID_QUEUE_SELECTION,
    DMR_ACQUISITION_ENGINE_BUSY,
    DMR_LAST_VALID_ERROR_CODE,
}

/// The code of each value of `TDMR_ERROR`.
pub open spec fn dmr_code(e: TDMR_ERROR) -> int {
    match e {
        TDMR_ERROR::DMR_NO_ERROR => 0,
        TDMR_ERROR::DMR_DEV_NOT_FOUND => -2100,
        TDMR_ERROR::DMR_INIT_FAILED => -2101,
        TDMR_ERROR::DMR_DRV_ALREADY_IN_USE => -2102,
        TDMR_ERROR::DMR_DEV_CANNOT_OPEN => -2103,
        TDMR_ERROR::DMR_NOT_INITIALIZED => -2104,
        TDMR_ERROR::DMR_DRV_CANNOT_OPEN => -2105,
        TDMR_ERROR::DMR_DEV_REQUEST_QUEUE_EMPTY => -2106,
        TDMR_ERROR::DMR_DEV_REQUEST_CREATION_FAILED => -2107,
        TDMR_ERROR::DMR_INVALID_PARAMETER => -2108,
        TDMR_ERROR::DMR_EXPORTED_SYMBOL_NOT_FOUND => -2109,
        TDMR_ERROR::DEV_UNKNOWN_ERROR => -2110,
        TDMR_ERROR::DEV_HANDLE_INVALID => -2111,
        TDMR_ERROR::DEV_INPUT_PARAM_INVALID => -2112,
        TDMR_ERROR::DEV_WRONG_INPUT_PARAM_COUNT => -2113,
        TDMR_ERROR::DEV_CREATE_SETTING_FAILED => -2114,
        TDMR_ERROR::DEV_REQUEST_CANT_BE_UNLOCKED => -2115,
        TDMR_ERROR::DEV_INVALID_REQUEST_NUMBER => -2116,
        TDMR_ERROR::DEV_LOCKED_REQUEST_IN_QUEUE => -2117,
        TDMR_ERROR::DEV_NO_FREE_REQUEST_AVAILABLE => -2118,
        TDMR_ERROR::DEV_WAIT_FOR_REQUEST_FAILED => -2119,
        TDMR_ERROR::DEV_UNSUPPORTED_PARAMETER => -2120,
        TDMR_ERROR::DEV_INVALID_RTC_NUMBER => -2121,
        TDMR_ERROR::DMR_INTERNAL_ERROR => -2122,
        TDMR_ERROR::DMR_INPUT_BUFFER_TOO_SMALL => -2123,
        TDMR_ERROR::DEV_INTERNAL_ERROR => -2124,
        TDMR_ERROR::DMR_LIBRARY_NOT_FOUND => -2125,
        TDMR_ERROR::DMR_FUNCTION_NOT_IMPLEMENTED => -2126,
        TDMR_ERROR::DMR_FEATURE_NOT_AVAILABLE => -2127,
        TDMR_ERROR::DMR_EXECUTION_PROHIBITED => -2128,
        TDMR_ERROR::DMR_FILE_NOT_FOUND => -2129,
        TDMR_ERROR::DMR_INVALID_LICENCE => -2130,
        TDMR_ERROR::DEV_SENSOR_TYPE_ERROR => -2131,
        TDMR_ERROR::DMR_CAMERA_DESCRIPTION_INVALID => -2132,
        TDMR_ERROR::DMR_NEWER_LIBRARY_REQUIRED => -2133,
        TDMR_ERROR::DMR_TIMEOUT => -2134,
        TDMR_ERROR::DMR_WAIT_ABANDONED => -2135,
        TDMR_ERROR::DMR_EXECUTION_FAILED => -2136,
        TDMR_ERROR::DEV_REQUEST_ALREADY_IN_USE => -2137,
        TDMR_ERROR::DEV_REQUEST_BUFFER_INVALID => -2138,
        TDMR_ERROR::DEV_REQUEST_BUFFER_MISALIGNED => -2139,
        TDMR_ERROR::DEV_ACCESS_DENIED => -2140,
        TDMR_ERROR::DMR_PRELOAD_CHECK_FAILED => -2141,
        TDMR_ERROR::DMR_CAMERA_DESCRIPTION_INVALID_PARAMETER => -2142,
        TDMR_ERROR::DMR_FILE_ACCESS_ERROR => -2143,
        TDMR_ERROR::DMR_INVALID_QUEUE_SELECTION => -2144,
        TDMR_ERROR::DMR_ACQUISITION_ENGINE_BUSY => -2145,
        TDMR_ERROR::DMR_LAST_VALID_ERROR_CODE => -2199,
    }
}

impl TDMR_ERROR {
    /// The code of this value.
    pub fn code(self) -> (r: i32)
        ensures
            r == dmr_code(self),
    {
        match self {
            TDMR_ERROR::DMR_NO_ERROR => 0,
            TDMR_ERROR::DMR_DEV_NOT_FOUND => -2100,
            TDMR_ERROR::DMR_INIT_FAILED => -2101,
            TDMR_ERROR::DMR_DRV_ALREADY_IN_USE => -2102,
            TDMR_ERROR::DMR_DEV_CANNOT_OPEN => -2103,
            TDMR_ERROR::DMR_NOT_INITIALIZED => -2104,
            TDMR_ERROR::DMR_DRV_CANNOT_OPEN => -2105,
            TDMR_ERROR::DMR_DEV_REQUEST_QUEUE_EMPTY => -2106,
            TDMR_ERROR::DMR_DEV_REQUEST_CREATION_FAILED => -2107,
            TDMR_ERROR::DMR_INVALID_PARAMETER => -2108,
            TDMR_ERROR::DMR_EXPORTED_SYMBOL_NOT_FOUND => -2109,
            TDMR_ERROR::DEV_UNKNOWN_ERROR => -2110,
            TDMR_ERROR::DEV_HANDLE_INVALID => -2111,
            TDMR_ERROR::DEV_INPUT_PARAM_INVALID => -2112,
            TDMR_ERROR::DEV_WRONG_INPUT_PARAM_COUNT => -2113,
            TDMR_ERROR::DEV_CREATE_SETTING_FAILED => -2114,
            TDMR_ERROR::DEV_REQUEST_CANT_BE_UNLOCKED => -2115,
            TDMR_ERROR::DEV_INVALID_REQUEST_NUMBER => -2116,
            TDMR_ERROR::DEV_LOCKED_REQUEST_IN_QUEUE => -2117,
            TDMR_ERROR::DEV_NO_FREE_REQUEST_AVAILABLE => -2118,
            TDMR_ERROR::DEV_WAIT_FOR_REQUEST_FAILED => -2119,
            TDMR_ERROR::DEV_UNSUPPORTED_PARAMETER => -2120,
            TDMR_ERROR::DEV_INVALID_RTC_NUMBER => -2121,
            TDMR_ERROR::DMR_INTERNAL_ERROR => -2122,
            TDMR_ERROR::DMR_INPUT_BUFFER_TOO_SMALL => -2123,
            TDMR_ERROR::DEV_INTERNAL_ERROR => -2124,
            TDMR_ERROR::DMR_LIBRARY_NOT_FOUND => -2125,
            TDMR_ERROR::DMR_FUNCTION_NOT_IMPLEMENTED => -2126,
            TDMR_ERROR::DMR_FEATURE_NOT_AVAILABLE => -2127,
            TDMR_ERROR::DMR_EXECUTION_PROHIBITED => -2128,
            TDMR_ERROR::DMR_FILE_NOT_FOUND => -2129,
            TDMR_ERROR::DMR_INVALID_LICENCE => -2130,
            TDMR_ERROR::DEV_SENSOR_TYPE_ERROR => -2131,
            TDMR_ERROR::DMR_CAMERA_DESCRIPTION_INVALID => -2132,
            TDMR_ERROR::DMR_NEWER_LIBRARY_REQUIRED => -2133,
            TDMR_ERROR::DMR_TIMEOUT => -2134,
            TDMR_ERROR::DMR_WAIT_ABANDONED => -2135,
            TDMR_ERROR::DMR_EXECUTION_FAILED => -2136,
            TDMR_ERROR::DEV_REQUEST_ALREADY_IN_USE => -2137,
            TDMR_ERROR::DEV_REQUEST_BUFFER_INVALID => -2138,
            TDMR_ERROR::DEV_REQUEST_BUFFER_MISALIGNED => -2139,
            TDMR_ERROR::DEV_ACCESS_DENIED => -2140,
            TDMR_ERROR::DMR_PRELOAD_CHECK_FAILED => -2141,
            TDMR_ERROR::DMR_CAMERA_DESCRIPTION_INVALID_PARAMETER => -2142,
            TDMR_ERROR::DMR_FILE_ACCESS_ERROR => -2143,
            TDMR_ERROR::DMR_INVALID_QUEUE_SELECTION => -2144,
            TDMR_ERROR::DMR_ACQUISITION_ENGINE_BUSY => -2145,
            TDMR_ERROR::DMR_LAST_VALID_ERROR_CODE => -2199,
        }
    }

    /// The value with the given code, if any.
    pub fn from_code(i: i32) -> (r: Option<TDMR_ERROR>)
        ensures
            r matches Some(e) ==> dmr_code(e) == i,
            r is None ==> forall|e: TDMR_ERROR| dmr_code(e) != i,
    {
        match i {
            0 => Some(TDMR_ERROR::DMR_NO_ERROR),
            -2100 => Some(TDMR_ERROR::DMR_DEV_NOT_FOUND),
            -2101 => Some(TDMR_ERROR::DMR_INIT_FAILED),
            -2102 => Some(TDMR_ERROR::DMR_DRV_ALREADY_IN_USE),
            -2103 => Some(TDMR_ERROR::DMR_DEV_CANNOT_OPEN),
            -2104 => Some(TDMR_ERROR::DMR_NOT_INITIALIZED),
            -2105 => Some(TDMR_ERROR::DMR_DRV_CANNOT_OPEN),
            -2106 => Some(TDMR_ERROR::DMR_DEV_REQUEST_QUEUE_EMPTY),
            -2107 => Some(TDMR_ERROR::DMR_DEV_REQUEST_CREATION_FAILED),
            -2108 => Some(TDMR_ERROR::DMR_INVALID_PARAMETER),
            -2109 => Some(TDMR_ERROR::DMR_EXPORTED_SYMBOL_NOT_FOUND),
            -2110 => Some(TDMR_ERROR::DEV_UNKNOWN_ERROR),
            -2111 => Some(TDMR_ERROR::DEV_HANDLE_INVALID),
            -2112 => Some(TDMR_ERROR::DEV_INPUT_PARAM_INVALID),
            -2113 => Some(TDMR_ERROR::DEV_WRONG_INPUT_PARAM_COUNT),
            -2114 => Some(TDMR_ERROR::DEV_CREATE_SETTING_FAILED),
            -2115 => Some(TDMR_ERROR::DEV_REQUEST_CANT_BE_UNLOCKED),
            -2116 => Some(TDMR_ERROR::DEV_INVALID_REQUEST_NUMBER),
            -2117 => Some(TDMR_ERROR::DEV_LOCKED_REQUEST_IN_QUEUE),
            -2118 => Some(TDMR_ERROR::DEV_NO_FREE_REQUEST_AVAILABLE),
            -2119 => Some(TDMR_ERROR::DEV_WAIT_FOR_REQUEST_FAILED),
            -2120 => Some(TDMR_ERROR::DEV_UNSUPPORTED_PARAMETER),
            -2121 => Some(TDMR_ERROR::DEV_INVALID_RTC_NUMBER),
            -2122 => Some(TDMR_ERROR::DMR_INTERNAL_ERROR),
            -2123 => Some(TDMR_ERROR::DMR_INPUT_BUFFER_TOO_SMALL),
            -2124 => Some(TDMR_ERROR::DEV_INTERNAL_ERROR),
            -2125 => Some(TDMR_ERROR::DMR_LIBRARY_NOT_FOUND),
            -2126 => Some(TDMR_ERROR::DMR_FUNCTION_NOT_IMPLEMENTED),
            -2127 => Some(TDMR_ERROR::DMR_FEATURE_NOT_AVAILABLE),
            -2128 => Some(TDMR_ERROR::DMR_EXECUTION_PROHIBITED),
            -2129 => Some(TDMR_ERROR::DMR_FILE_NOT_FOUND),
            -2130 => Some(TDMR_ERROR::DMR_INVALID_LICENCE),
            -2131 => Some(TDMR_ERROR::DEV_SENSOR_TYPE_ERROR),
            -2132 => Some(TDMR_ERROR::DMR_CAMERA_DESCRIPTION_INVALID),
            -2133 => Some(TDMR_ERROR::DMR_NEWER_LIBRARY_REQUIRED),
            -2134 => Some(TDMR_ERROR::DMR_TIMEOUT),
            -2135 => Some(TDMR_ERROR::DMR_WAIT_ABANDONED),
            -2136 => Some(TDMR_ERROR::DMR_EXECUTION_FAILED),
            -2137 => Some(TDMR_ERROR::DEV_REQUEST_ALREADY_IN_USE),
            -2138 => Some(TDMR_ERROR::DEV_REQUEST_BUFFER_INVALID),
            -2139 => Some(TDMR_ERROR::DEV_REQUEST_BUFFER_MISALIGNED),
            -2140 => Some(TDMR_ERROR::DEV_ACCESS_DENIED),
            -2141 => Some(TDMR_ERROR::DMR_PRELOAD_CHECK_FAILED),
            -2142 => Some(TDMR_ERROR::DMR_CAMERA_DESCRIPTION_INVALID_PARAMETER),
            -2143 => Some(TDMR_ERROR::DMR_FILE_ACCESS_ERROR),
            -2144 => Some(TDMR_ERROR::DMR_INVALID_QUEUE_SELECTION),
            -2145 => Some(TDMR_ERROR::DMR_ACQUISITION_ENGINE_BUSY),
            -2199 => Some(TDMR_ERROR::DMR_LAST_VALID_ERROR_CODE),
            _ => None,
        }
    }
}

/// Status of a property handling call.
#[allow(non_camel_case_types)]
#[derive(Copy, Clone, Debug, PartialEq, Eq, Structural)]
pub enum TPROPHANDLING_ERROR {
    PROPHANDLING_NO_ERROR,
    PROPHANDLING_NOT_A_LIST,
    PROPHANDLING_NOT_A_PROPERTY,
    PROPHANDLING_NOT_A_METHOD,
    PROPHANDLING_NO_READ_RIGHTS,
    PROPHANDLING_NO_WRITE_RIGHTS,
    PROPHANDLING_NO_MODIFY_SIZE_RIGHTS,
    PROPHANDLING_INCOMPATIBLE_COMPONENTS,
    PROPHANDLING_NO_USER_ALLOCATED_MEMORY,
    PROPHANDLING_UNSUPPORTED_PARAMETER,
    PROPHANDLING_SIZE_MISMATCH,
    PROPHANDLING_IMPLEMENTATION_MISSING,
    PROPHANDLING_ACCESSTOKEN_CREATION_FAILED,
    PROPHANDLING_INVALID_PROP_VALUE,
    PROPHANDLING_PROP_TRANSLATION_TABLE_CORRUPTED,
    PROPHANDLING_PROP_VAL_ID_OUT_OF_BOUNDS,
    PROPHANDLING_PROP_TRANSLATION_TABLE_NOT_DEFINED,
    PROPHANDLING_INVALID_PROP_VALUE_TYPE,
    PROPHANDLING_PROP_VAL_TOO_LARGE,
    PROPHANDLING_PROP_VAL_TOO_SMALL,
    PROPHANDLING_COMPONENT_NOT_FOUND,
    PROPHANDLING_LIST_ID_INVALID,
    PROPHANDLING_COMPONENT_ID_INVALID,
    PROPHANDLING_LIST_ENTRY_OCCUPIED,
    PROPHANDLING_COMPONENT_HAS_OWNER_ALREADY,
    PROPHANDLING_COMPONENT_ALREADY_REGISTERED,
    PROPHANDLING_LIST_CANT_ACCESS_DATA,
    PROPHANDLING_METHOD_PTR_INVALID,
    PROPHANDLING_METHOD_INVALID_PARAM_LIST,
    PROPHANDLING_SWIG_ERROR,
    PROPHANDLING_INVALID_INPUT_PARAMETER,
    PROPHANDLING_COMPONENT_NO_CALLBACK_REGISTERED,
    PROPHANDLING_INPUT_BUFFER_TOO_SMALL,
    PROPHANDLING_WRONG_PARAM_COUNT,
    PROPHANDLING_UNSUPPORTED_OPERATION,
    PROPHANDLING_CANT_SERIALIZE_DATA,
    PROPHANDLING_INVALID_FILE_CONTENT,
    PROPHANDLING_CANT_ALLOCATE_LIST,
    PROPHANDLING_CANT_REGISTER_COMPONENT,
    PROPHANDLING_PROP_VALIDATION_FAILED,
    PROPHANDLING_LAST_VALID_ERROR_CODE,
}

/// The code of each value of `TPROPHANDLING_ERROR`.
pub open spec fn prop_code(e: TPROPHANDLING_ERROR) -> int {
    match e {
        TPROPHANDLING_ERROR::PROPHANDLING_NO_ERROR => 0,
        TPROPHANDLING_ERROR::PROPHANDLING_NOT_A_LIST => -2000,
        TPROPHANDLING_ERROR::PROPHANDLING_NOT_A_PROPERTY => -2001,
        TPROPHANDLING_ERROR::PROPHANDLING_NOT_A_METHOD => -2002,
        TPROPHANDLING_ERROR::PROPHANDLING_NO_READ_RIGHTS => -2003,
        TPROPHANDLING_ERROR::PROPHANDLING_NO_WRITE_RIGHTS => -2004,
        TPROPHANDLING_ERROR::PROPHANDLING_NO_MODIFY_SIZE_RIGHTS => -2005,
        TPROPHANDLING_ERROR::PROPHANDLING_INCOMPATIBLE_COMPONENTS => -2006,
        TPROPHANDLING_ERROR::PROPHANDLING_NO_USER_ALLOCATED_MEMORY => -2007,
        TPROPHANDLING_ERROR::PROPHANDLING_UNSUPPORTED_PARAMETER => -2008,
        TPROPHANDLING_ERROR::PROPHANDLING_SIZE_MISMATCH => -2009,
        TPROPHANDLING_ERROR::PROPHANDLING_IMPLEMENTATION_MISSING => -2010,
        TPROPHANDLING_ERROR::PROPHANDLING_ACCESSTOKEN_CREATION_FAILED => -2011,
        TPROPHANDLING_ERROR::PROPHANDLING_INVALID_PROP_VALUE => -2012,
        TPROPHANDLING_ERROR::PROPHANDLING_PROP_TRANSLATION_TABLE_CORRUPTED => -2013,
        TPROPHANDLING_ERROR::PROPHANDLING_PROP_VAL_ID_OUT_OF_BOUNDS => -2014,
        TPROPHANDLING_ERROR::PROPHANDLING_PROP_TRANSLATION_TABLE_NOT_DEFINED => -2015,
        TPROPHANDLING_ERROR::PROPHANDLING_INVALID_PROP_VALUE_TYPE => -2016,
        TPROPHANDLING_ERROR::PROPHANDLING_PROP_VAL_TOO_LARGE => -2017,
        TPROPHANDLING_ERROR::PROPHANDLING_PROP_VAL_TOO_SMALL => -2018,
        TPROPHANDLING_ERROR::PROPHANDLING_COMPONENT_NOT_FOUND => -2019,
        TPROPHANDLING_ERROR::PROPHANDLING_LIST_ID_INVALID => -2020,
        TPROPHANDLING_ERROR::PROPHANDLING_COMPONENT_ID_INVALID => -2021,
        TPROPHANDLING_ERROR::PROPHANDLING_LIST_ENTRY_OCCUPIED => -2022,
        TPROPHANDLING_ERROR::PROPHANDLING_COMPONENT_HAS_OWNER_ALREADY => -2023,
        TPROPHANDLING_ERROR::PROPHANDLING_COMPONENT_ALREADY_REGISTERED => -2024,
        TPROPHANDLING_ERROR::PROPHANDLING_LIST_CANT_ACCESS_DATA => -2025,
        TPROPHANDLING_ERROR::PROPHANDLING_METHOD_PTR_INVALID => -2026,
        TPROPHANDLING_ERROR::PROPHANDLING_METHOD_INVALID_PARAM_LIST => -2027,
        TPROPHANDLING_ERROR::PROPHANDLING_SWIG_ERROR => -2028,
        TPROPHANDLING_ERROR::PROPHANDLING_INVALID_INPUT_PARAMETER => -2029,
        TPROPHANDLING_ERROR::PROPHANDLING_COMPONENT_NO_CALLBACK_REGISTERED => -2030,
        TPROPHANDLING_ERROR::PROPHANDLING_INPUT_BUFFER_TOO_SMALL => -2031,
        TPROPHANDLING_ERROR::PROPHANDLING_WRONG_PARAM_COUNT => -2032,
        TPROPHANDLING_ERROR::PROPHANDLING_UNSUPPORTED_OPERATION => -2033,
        TPROPHANDLING_ERROR::PROPHANDLING_CANT_SERIALIZE_DATA => -2034,
        TPROPHANDLING_ERROR::PROPHANDLING_INVALID_FILE_CONTENT => -2035,
        TPROPHANDLING_ERROR::PROPHANDLING_CANT_ALLOCATE_LIST => -2036,
        TPROPHANDLING_ERROR::PROPHANDLING_CANT_REGISTER_COMPONENT => -2037,
        TPROPHANDLING_ERROR::PROPHANDLING_PROP_VALIDATION_FAILED => -2038,
        TPROPHANDLING_ERROR::PROPHANDLING_LAST_VALID_ERROR_CODE => -2099,
    }
}

impl TPROPHANDLING_ERROR {
    /// The code of this value.
    pub fn code(self) -> (r: i32)
        ensures
            r == prop_code(self),
    {
        match self {
            TPROPHANDLING_ERROR::PROPHANDLING_NO_ERROR => 0,
            TPROPHANDLING_ERROR::PROPHANDLING_NOT_A_LIST => -2000,
            TPROPHANDLING_ERROR::PROPHANDLING_NOT_A_PROPERTY => -2001,
            TPROPHANDLING_ERROR::PROPHANDLING_NOT_A_METHOD => -2002,
            TPROPHANDLING_ERROR::PROPHANDLING_NO_READ_RIGHTS => -2003,
            TPROPHANDLING_ERROR::PROPHANDLING_NO_WRITE_RIGHTS => -2004,
            TPROPHANDLING_ERROR::PROPHANDLING_NO_MODIFY_SIZE_RIGHTS => -2005,
            TPROPHANDLING_ERROR::PROPHANDLING_INCOMPATIBLE_COMPONENTS => -2006,
            TPROPHANDLING_ERROR::PROPHANDLING_NO_USER_ALLOCATED_MEMORY => -2007,
            TPROPHANDLING_ERROR::PROPHANDLING_UNSUPPORTED_PARAMETER => -2008,
            TPROPHANDLING_ERROR::PROPHANDLING_SIZE_MISMATCH => -2009,
            TPROPHANDLING_ERROR::PROPHANDLING_IMPLEMENTATION_MISSING => -2010,
            TPROPHANDLING_ERROR::PROPHANDLING_ACCESSTOKEN_CREATION_FAILED => -2011,
            TPROPHANDLING_ERROR::PROPHANDLING_INVALID_PROP_VALUE => -2012,
            TPROPHANDLING_ERROR::PROPHANDLING_PROP_TRANSLATION_TABLE_CORRUPTED => -2013,
            TPROPHANDLING_ERROR::PROPHANDLING_PROP_VAL_ID_OUT_OF_BOUNDS => -2014,
            TPROPHANDLING_ERROR::PROPHANDLING_PROP_TRANSLATION_TABLE_NOT_DEFINED => -2015,
            TPROPHANDLING_ERROR::PROPHANDLING_INVALID_PROP_VALUE_TYPE => -2016,
            TPROPHANDLING_ERROR::PROPHANDLING_PROP_VAL_TOO_LARGE => -2017,
            TPROPHANDLING_ERROR::PROPHANDLING_PROP_VAL_TOO_SMALL => -2018,
            TPROPHANDLING_ERROR::PROPHANDLING_COMPONENT_NOT_FOUND => -2019,
            TPROPHANDLING_ERROR::PROPHANDLING_LIST_ID_INVALID => -2020,
            TPROPHANDLING_ERROR::PROPHANDLING_COMPONENT_ID_INVALID => -2021,
            TPROPHANDLING_ERROR::PROPHANDLING_LIST_ENTRY_OCCUPIED => -2022,
            TPROPHANDLING_ERROR::PROPHANDLING_COMPONENT_HAS_OWNER_ALREADY => -2023,
            TPROPHANDLING_ERROR::PROPHANDLING_COMPONENT_ALREADY_REGISTERED => -2024,
            TPROPHANDLING_ERROR::PROPHANDLING_LIST_CANT_ACCESS_DATA => -2025,
            TPROPHANDLING_ERROR::PROPHANDLING_METHOD_PTR_INVALID => -2026,
            TPROPHANDLING_ERROR::PROPHANDLING_METHOD_INVALID_PARAM_LIST => -2027,
            TPROPHANDLING_ERROR::PROPHANDLING_SWIG_ERROR => -2028,
            TPROPHANDLING_ERROR::PROPHANDLING_INVALID_INPUT_PARAMETER => -2029,
            TPROPHANDLING_ERROR::PROPHANDLING_COMPONENT_NO_CALLBACK_REGISTERED => -2030,
            TPROPHANDLING_ERROR::PROPHANDLING_INPUT_BUFFER_TOO_SMALL => -2031,
            TPROPHANDLING_ERROR::PROPHANDLING_WRONG_PARAM_COUNT => -2032,
            TPROPHANDLING_ERROR::PROPHANDLING_UNSUPPORTED_OPERATION => -2033,
            TPROPHANDLING_ERROR::PROPHANDLING_CANT_SERIALIZE_DATA => -2034,
            TPROPHANDLING_ERROR::PROPHANDLING_INVALID_FILE_CONTENT => -2035,
            TPROPHANDLING_ERROR::PROPHANDLING_CANT_ALLOCATE_LIST => -2036,
            TPROPHANDLING_ERROR::PROPHANDLING_CANT_REGISTER_COMPONENT => -2037,
            TPROPHANDLING_ERROR::PROPHANDLING_PROP_VALIDATION_FAILED => -2038,
            TPROPHANDLING_ERROR::PROPHANDLING_LAST_VALID_ERROR_CODE => -2099,
        }
    }

    /// The value with the given code, if any.
    pub fn from_code(i: i32) -> (r: Option<TPROPHANDLING_ERROR>)
        ensures
            r matches Some(e) ==> prop_code(e) == i,
            r is None ==> forall|e: TPROPHANDLING_ERROR| prop_code(e) != i,
    {
        match i {
            0 => Some(TPROPHANDLING_ERROR::PROPHANDLING_NO_ERROR),
            -2000 => Some(TPROPHANDLING_ERROR::PROPHANDLING_NOT_A_LIST),
            -2001 => Some(TPROPHANDLING_ERROR::PROPHANDLING_NOT_A_PROPERTY),
            -2002 => Some(TPROPHANDLING_ERROR::PROPHANDLING_NOT_A_METHOD),
            -2003 => Some(TPROPHANDLING_ERROR::PROPHANDLING_NO_READ_RIGHTS),
            -2004 => Some(TPROPHANDLING_ERROR::PROPHANDLING_NO_WRITE_RIGHTS),
            -2005 => Some(TPROPHANDLING_ERROR::PROPHANDLING_NO_MODIFY_SIZE_RIGHTS),
            -2006 => Some(TPROPHANDLING_ERROR::PROPHANDLING_INCOMPATIBLE_COMPONENTS),
            -2007 => Some(TPROPHANDLING_ERROR::PROPHANDLING_NO_USER_ALLOCATED_MEMORY),
            -2008 => Some(TPROPHANDLING_ERROR::PROPHANDLING_UNSUPPORTED_PARAMETER),
            -2009 => Some(TPROPHANDLING_ERROR::PROPHANDLING_SIZE_MISMATCH),
            -2010 => Some(TPROPHANDLING_ERROR::PROPHANDLING_IMPLEMENTATION_MISSING),
            -2011 => Some(TPROPHANDLING_ERROR::PROPHANDLING_ACCESSTOKEN_CREATION_FAILED),
            -2012 => Some(TPROPHANDLING_ERROR::PROPHANDLING_INVALID_PROP_VALUE),
            -2013 => Some(TPROPHANDLING_ERROR::PROPHANDLING_PROP_TRANSLATION_TABLE_CORRUPTED),
            -2014 => Some(TPROPHANDLING_ERROR::PROPHANDLING_PROP_VAL_ID_OUT_OF_BOUNDS),
            -2015 => Some(TPROPHANDLING_ERROR::PROPHANDLING_PROP_TRANSLATION_TABLE_NOT_DEFINED),
            -2016 => Some(TPROPHANDLING_ERROR::PROPHANDLING_INVALID_PROP_VALUE_TYPE),
            -2017 => Some(TPROPHANDLING_ERROR::PROPHANDLING_PROP_VAL_TOO_LARGE),
            -2018 => Some(TPROPHANDLING_ERROR::PROPHANDLING_PROP_VAL_TOO_SMALL),
            -2019 => Some(TPROPHANDLING_ERROR::PROPHANDLING_COMPONENT_NOT_FOUND),
            -2020 => Some(TPROPHANDLING_ERROR::PROPHANDLING_LIST_ID_INVALID),
            -2021 => Some(TPROPHANDLING_ERROR::PROPHANDLING_COMPONENT_ID_INVALID),
            -2022 => Some(TPROPHANDLING_ERROR::PROPHANDLING_LIST_ENTRY_OCCUPIED),
            -2023 => Some(TPROPHANDLING_ERROR::PROPHANDLING_COMPONENT_HAS_OWNER_ALREADY),
            -2024 => Some(TPROPHANDLING_ERROR::PROPHANDLING_COMPONENT_ALREADY_REGISTERED),
            -2025 => Some(TPROPHANDLING_ERROR::PROPHANDLING_LIST_CANT_ACCESS_DATA),
            -2026 => Some(TPROPHANDLING_ERROR::PROPHANDLING_METHOD_PTR_INVALID),
            -2027 => Some(TPROPHANDLING_ERROR::PROPHANDLING_METHOD_INVALID_PARAM_LIST),
            -2028 => Some(TPROPHANDLING_ERROR::PROPHANDLING_SWIG_ERROR),
            -2029 => Some(TPROPHANDLING_ERROR::PROPHANDLING_INVALID_INPUT_PARAMETER),
            -2030 => Some(TPROPHANDLING_ERROR::PROPHANDLING_COMPONENT_NO_CALLBACK_REGISTERED),
            -2031 => Some(TPROPHANDLING_ERROR::PROPHANDLING_INPUT_BUFFER_TOO_SMALL),
            -2032 => Some(TPROPHANDLING_ERROR::PROPHANDLING_WRONG_PARAM_COUNT),
            -2033 => Some(TPROPHANDLING_ERROR::PROPHANDLING_UNSUPPORTED_OPERATION),
            -2034 => Some(TPROPHANDLING_ERROR::PROPHANDLING_CANT_SERIALIZE_DATA),
            -2035 => Some(TPROPHANDLING_ERROR::PROPHANDLING_INVALID_FILE_CONTENT),
            -2036 => Some(TPROPHANDLING_ERROR::PROPHANDLING_CANT_ALLOCATE_LIST),
            -2037 => Some(TPROPHANDLING_ERROR::PROPHANDLING_CANT_REGISTER_COMPONENT),
            -2038 => Some(TPROPHANDLING_ERROR::PROPHANDLING_PROP_VALIDATION_FAILED),
            -2099 => Some(TPROPHANDLING_ERROR::PROPHANDLING_LAST_VALID_ERROR_CODE),
            _ => None,
        }
    }
}

/// The result of a device manager call with the given raw status: success, the status as an
/// error, or `DMR_LAST_VALID_ERROR_CODE` for a code that is not a known status.
pub fn dmr_status(code: i32) -> (r: Result<(), TDMR_ERROR>)
    ensures
        code == 0 <==> r is Ok,
        r matches Err(e) ==> (dmr_code(e) == code || (e == TDMR_ERROR::DMR_LAST_VALID_ERROR_CODE
            && forall|x: TDMR_ERROR| dmr_code(x) != code)),
{
    if code == 0 {
        return Ok(());
    }
    match TDMR_ERROR::from_code(code) {
        Some(e) => Err(e),
        None => Err(TDMR_ERROR::DMR_LAST_VALID_ERROR_CODE),
    }
}

/// The result of a property handling call with the given raw status: success, the status as an
/// error, or `PROPHANDLING_LAST_VALID_ERROR_CODE` for a code that is not a known status.
pub fn prop_status(code: i32) -> (r: Result<(), TPROPHANDLING_ERROR>)
    ensures
        code == 0 <==> r is Ok,
        r matches Err(e) ==> (prop_code(e) == code || (e == TPROPHANDLING_ERROR::PROPHANDLING_LAST_VALID_ERROR_CODE
            && forall|x: TPROPHANDLING_ERROR| prop_code(x) != code)),
{
    if code == 0 {
        return Ok(());
    }
    match TPROPHANDLING_ERROR::from_code(code) {
        Some(e) => Err(e),
        None => Err(TPROPHANDLING_ERROR::PROPHANDLING_LAST_VALID_ERROR_CODE),
    }
}

/// A failed driver call.
#[derive(Copy, Clone, Debug, PartialEq, Eq, Structural)]
pub enum MVError {
    Dmr(TDMR_ERROR),
    Prop(TPROPHANDLING_ERROR),
}

impl MVError {
    /// The error of a failed device manager call.
    pub fn from_dmr(err: TDMR_ERROR) -> (r: MVError)
        ensures
            r == MVError::Dmr(err),
    {
        MVError::Dmr(err)
    }

    /// The error of a failed property handling call.
    pub fn from_prop(err: TPROPHANDLING_ERROR) -> (r: MVError)
        ensures
            r == MVError::Prop(err),
    {
        MVError::Prop(err)
    }
}

/// Pixel format of a camera image.
#[allow(non_camel_case_types)]
#[derive(Copy, Clone, Debug, PartialEq, Eq, Structural)]
pub enum PixelFormat {
    Raw,
    Mono8,
    Mono16,
    RGBx888Packed,
    YUV422Packed,
    RGBx888Planar,
    Mono10,
    Mono12,
    Mono14,
    RGB888Packed,
    YUV444Planar,
    Mono32,
    YUV422Planar,
    RGB101010Packed,
    RGB121212Packed,
    RGB141414Packed,
    RGB161616Packed,
    YUV422_UYVYPacked,
    Mono12Packed_V2,
    YUV422_10Packed,
    YUV422_UYVY_10Packed,
    BGR888Packed,
    BGR101010Packed_V2,
    YUV444_UYVPacked,
    YUV444_UYV_10Packed,
    YUV444Packed,
    YUV444_10Packed,
    Mono12Packed_V1,
    Auto,
    Unknown,
}

/// The code of each pixel format in image buffers.
pub open spec fn pixel_code(p: PixelFormat) -> int {
    match p {
        PixelFormat::Raw => 0,
        PixelFormat::Mono8 => 1,
        PixelFormat::Mono16 => 2,
        PixelFormat::RGBx888Packed => 3,
        PixelFormat::YUV422Packed => 4,
        PixelFormat::RGBx888Planar => 5,
        PixelFormat::Mono10 => 6,
        PixelFormat::Mono12 => 7,
        PixelFormat::Mono14 => 8,
        PixelFormat::RGB888Packed => 9,
        PixelFormat::YUV444Planar => 10,
        PixelFormat::Mono32 => 11,
        PixelFormat::YUV422Planar => 12,
        PixelFormat::RGB101010Packed => 13,
        PixelFormat::RGB121212Packed => 14,
        PixelFormat::RGB141414Packed => 15,
        PixelFormat::RGB161616Packed => 16,
        PixelFormat::YUV422_UYVYPacked => 17,
        PixelFormat::Mono12Packed_V2 => 18,
        PixelFormat::YUV422_10Packed => 20,
        PixelFormat::YUV422_UYVY_10Packed => 21,
        PixelFormat::BGR888Packed => 22,
        PixelFormat::BGR101010Packed_V2 => 23,
        PixelFormat::YUV444_UYVPacked => 24,
        PixelFormat::YUV444_UYV_10Packed => 25,
        PixelFormat::YUV444Packed => 26,
        PixelFormat::YUV444_10Packed => 27,
        PixelFormat::Mono12Packed_V1 => 28,
        PixelFormat::Auto => -1,
        PixelFormat::Unknown => -2,
    }
}

/// The value of the driver's `PixelFormat` property for each pixel format that it can be set to.
pub open spec fn prop_value(p: PixelFormat) -> Option<i32> {
    match p {
        PixelFormat::Raw => Some(1i32),
        PixelFormat::Mono8 => Some(2i32),
        PixelFormat::Mono16 => Some(9i32),
        PixelFormat::RGBx888Packed => Some(3i32),
        PixelFormat::YUV422Packed => Some(4i32),
        PixelFormat::RGBx888Planar => Some(5i32),
        PixelFormat::Mono10 => Some(6i32),
        PixelFormat::Mono12 => Some(7i32),
        PixelFormat::Mono14 => Some(8i32),
        PixelFormat::RGB888Packed => Some(10i32),
        PixelFormat::YUV444Planar => None,
        PixelFormat::Mono32 => None,
        PixelFormat::YUV422Planar => Some(13i32),
        PixelFormat::RGB101010Packed => Some(14i32),
        PixelFormat::RGB121212Packed => Some(15i32),
        PixelFormat::RGB141414Packed => Some(16i32),
        PixelFormat::RGB161616Packed => Some(17i32),
        PixelFormat::YUV422_UYVYPacked => Some(18i32),
        PixelFormat::Mono12Packed_V2 => Some(19i32),
        PixelFormat::YUV422_10Packed => Some(20i32),
        PixelFormat::YUV422_UYVY_10Packed => Some(21i32),
        PixelFormat::BGR888Packed => Some(22i32),
        PixelFormat::BGR101010Packed_V2 => Some(23i32),
        PixelFormat::YUV444_UYVPacked => Some(24i32),
        PixelFormat::YUV444_UYV_10Packed => Some(25i32),
        PixelFormat::YUV444Packed => Some(26i32),
        PixelFormat::YUV444_10Packed => Some(27i32),
        PixelFormat::Mono12Packed_V1 => Some(28i32),
        PixelFormat::Auto => Some(0i32),
        PixelFormat::Unknown => None,
    }
}

impl PixelFormat {
    /// The code of this pixel format in image buffers.
    pub fn code(self) -> (r: i32)
        ensures
            r == pixel_code(self),
    {
        match self {
            PixelFormat::Raw => 0,
            PixelFormat::Mono8 => 1,
            PixelFormat::Mono16 => 2,
            PixelFormat::RGBx888Packed => 3,
            PixelFormat::YUV422Packed => 4,
            PixelFormat::RGBx888Planar => 5,
            PixelFormat::Mono10 => 6,
            PixelFormat::Mono12 => 7,
            PixelFormat::Mono14 => 8,
            PixelFormat::RGB888Packed => 9,
            PixelFormat::YUV444Planar => 10,
            PixelFormat::Mono32 => 11,
            PixelFormat::YUV422Planar => 12,
            PixelFormat::RGB101010Packed => 13,
            PixelFormat::RGB121212Packed => 14,
            PixelFormat::RGB141414Packed => 15,
            PixelFormat::RGB161616Packed => 16,
            PixelFormat::YUV422_UYVYPacked => 17,
            PixelFormat::Mono12Packed_V2 => 18,
            PixelFormat::YUV422_10Packed => 20,
            PixelFormat::YUV422_UYVY_10Packed => 21,
            PixelFormat::BGR888Packed => 22,
            PixelFormat::BGR101010Packed_V2 => 23,
            PixelFormat::YUV444_UYVPacked => 24,
            PixelFormat::YUV444_UYV_10Packed => 25,
            PixelFormat::YUV444Packed => 26,
            PixelFormat::YUV444_10Packed => 27,
            PixelFormat::Mono12Packed_V1 => 28,
            PixelFormat::Auto => -1,
            PixelFormat::Unknown => -2,
        }
    }

    /// The pixel format with the given image-buffer code, if any.
    pub fn from_code(i: i32) -> (r: Option<PixelFormat>)
        ensures
            r matches Some(p) ==> pixel_code(p) == i,
            r is None ==> forall|p: PixelFormat| pixel_code(p) != i,
    {
        match i {
            0 => Some(PixelFormat::Raw),
            1 => Some(PixelFormat::Mono8),
            2 => Some(PixelFormat::Mono16),
            3 => Some(PixelFormat::RGBx888Packed),
            4 => Some(PixelFormat::YUV422Packed),
            5 => Some(PixelFormat::RGBx888Planar),
            6 => Some(PixelFormat::Mono10),
            7 => Some(PixelFormat::Mono12),
            8 => Some(PixelFormat::Mono14),
            9 => Some(PixelFormat::RGB888Packed),
            10 => Some(PixelFormat::YUV444Planar),
            11 => Some(PixelFormat::Mono32),
            12 => Some(PixelFormat::YUV422Planar),
            13 => Some(PixelFormat::RGB101010Packed),
            14 => Some(PixelFormat::RGB121212Packed),
            15 => Some(PixelFormat::RGB141414Packed),
            16 => Some(PixelFormat::RGB161616Packed),
            17 => Some(PixelFormat::YUV422_UYVYPacked),
            18 => Some(PixelFormat::Mono12Packed_V2),
            20 => Some(PixelFormat::YUV422_10Packed),
            21 => Some(PixelFormat::YUV422_UYVY_10Packed),
            22 => Some(PixelFormat::BGR888Packed),
            23 => Some(PixelFormat::BGR101010Packed_V2),
            24 => Some(PixelFormat::YUV444_UYVPacked),
            25 => Some(PixelFormat::YUV444_UYV_10Packed),
            26 => Some(PixelFormat::YUV444Packed),
            27 => Some(PixelFormat::YUV444_10Packed),
            28 => Some(PixelFormat::Mono12Packed_V1),
            -1 => Some(PixelFormat::Auto),
            -2 => Some(PixelFormat::Unknown),
            _ => None,
        }
    }

    /// The property value that selects this pixel format; fails with the format itself when the
    /// driver cannot be set to it.
    pub fn to_prop(px: PixelFormat) -> (r: Result<i32, PixelFormat>)
        ensures
            match prop_value(px) {
                Some(i) => r == Ok::<i32, PixelFormat>(i),
                None => r == Err::<i32, PixelFormat>(px),
            },
    {
        match px {
            PixelFormat::Auto => Ok(0),
            PixelFormat::Raw => Ok(1),
            PixelFormat::Mono8 => Ok(2),
            PixelFormat::Mono10 => Ok(6),
            PixelFormat::Mono12 => Ok(7),
            PixelFormat::Mono12Packed_V1 => Ok(28),
            PixelFormat::Mono12Packed_V2 => Ok(19),
            PixelFormat::Mono14 => Ok(8),
            PixelFormat::Mono16 => Ok(9),
            PixelFormat::BGR888Packed => Ok(22),
            PixelFormat::BGR101010Packed_V2 => Ok(23),
            PixelFormat::RGB888Packed => Ok(10),
            PixelFormat::RGB101010Packed => Ok(14),
            PixelFormat::RGB121212Packed => Ok(15),
            PixelFormat::RGB141414Packed => Ok(16),
            PixelFormat::RGB161616Packed => Ok(17),
            PixelFormat::RGBx888Packed => Ok(3),
            PixelFormat::RGBx888Planar => Ok(5),
            PixelFormat::YUV422Packed => Ok(4),
            PixelFormat::YUV422_UYVYPacked => Ok(18),
            PixelFormat::YUV422_10Packed => Ok(20),
            PixelFormat::YUV422_UYVY_10Packed => Ok(21),
            PixelFormat::YUV444_UYVPacked => Ok(24),
            PixelFormat::YUV444_UYV_10Packed => Ok(25),
            PixelFormat::YUV444Packed => Ok(26),
            PixelFormat::YUV444_10Packed => Ok(27),
            PixelFormat::YUV422Planar => Ok(13),
            _ => Err(px),
        }
    }

    /// The pixel format that a property value selects; fails with the value itself when it selects
    /// none.
    pub fn from_prop(i: i32) -> (r: Result<PixelFormat, i32>)
        ensures
            r matches Ok(px) ==> prop_value(px) == Some(i),
            r matches Err(j) ==> j == i && forall|px: PixelFormat| prop_value(px) != Some(i),
    {
        match i {
            0 => Ok(PixelFormat::Auto),
            1 => Ok(PixelFormat::Raw),
            2 => Ok(PixelFormat::Mono8),
            6 => Ok(PixelFormat::Mono10),
            7 => Ok(PixelFormat::Mono12),
            28 => Ok(PixelFormat::Mono12Packed_V1),
            19 => Ok(PixelFormat::Mono12Packed_V2),
            8 => Ok(PixelFormat::Mono14),
            9 => Ok(PixelFormat::Mono16),
            22 => Ok(PixelFormat::BGR888Packed),
            23 => Ok(PixelFormat::BGR101010Packed_V2),
            10 => Ok(PixelFormat::RGB888Packed),
            14 => Ok(PixelFormat::RGB101010Packed),
            15 => Ok(PixelFormat::RGB121212Packed),
            16 => Ok(PixelFormat::RGB141414Packed),
            17 => Ok(PixelFormat::RGB161616Packed),
            3 => Ok(PixelFormat::RGBx888Packed),
            5 => Ok(PixelFormat::RGBx888Planar),
            4 => Ok(PixelFormat::YUV422Packed),
            18 => Ok(PixelFormat::YUV422_UYVYPacked),
            20 => Ok(PixelFormat::YUV422_10Packed),
            21 => Ok(PixelFormat::YUV422_UYVY_10Packed),
            24 => Ok(PixelFormat::YUV444_UYVPacked),
            25 => Ok(PixelFormat::YUV444_UYV_10Packed),
            26 => Ok(PixelFormat::YUV444Packed),
            27 => Ok(PixelFormat::YUV444_10Packed),
            13 => Ok(PixelFormat::YUV422Planar),
            _ => Err(i),
        }
    }
}

/// No two pixel formats select the same property value, so the format that `from_prop` reads
/// back from a value is the one that `to_prop` set it from.
pub proof fn lemma_prop_roundtrip(px: PixelFormat, i: i32)
    ensures
        prop_value(px) == Some(i) ==> (forall|qx: PixelFormat| prop_value(qx) == Some(i) ==> qx == px),
{
}

/// Type of a property value.
#[derive(Copy, Clone, Debug, PartialEq, Eq, Structural)]
pub enum ValueType {
    Int,
    Float,
    Ptr,
    String,
    Int64,
}

impl ValueType {
    /// The code of this value type.
    pub fn code(self) -> (r: i32)
        ensures
            r == (match self {
                ValueType::Int => 1i32,
                ValueType::Float => 2i32,
                ValueType::Ptr => 3i32,
                ValueType::String => 4i32,
                ValueType::Int64 => 5i32,
            }),
    {
        match self {
            ValueType::Int => 1,
            ValueType::Float => 2,
            ValueType::Ptr => 3,
            ValueType::String => 4,
            ValueType::Int64 => 5,
        }
    }
}

/// Type of a driver component: a property (of a value type), a list or a method.
#[derive(Copy, Clone, Debug, PartialEq, Eq, Structural)]
pub enum ComponentType {
    Prop,
    List,
    Meth,
    PropInt,
    PropFloat,
    PropString,
    PropPtr,
    PropInt64,
}

impl ComponentType {
    /// The code of this component type: the kind in the upper bits, the value type of a
    /// property in the lower ones.
    pub fn code(self) -> (r: i32)
        ensures
            r == (match self {
                ComponentType::Prop => 0x00010000i32,
                ComponentType::List => 0x00020000i32,
                ComponentType::Meth => 0x00040000i32,
                ComponentType::PropInt => 0x00010001i32,
                ComponentType::PropFloat => 0x00010002i32,
                ComponentType::PropString => 0x00010004i32,
                ComponentType::PropPtr => 0x00010003i32,
                ComponentType::PropInt64 => 0x00010005i32,
            }),
    {
        match self {
            ComponentType::Prop => 0x00010000,
            ComponentType::List => 0x00020000,
            ComponentType::Meth => 0x00040000,
            ComponentType::PropInt => 0x00010001,
            ComponentType::PropFloat => 0x00010002,
            ComponentType::PropString => 0x00010004,
            ComponentType::PropPtr => 0x00010003,
            ComponentType::PropInt64 => 0x00010005,
        }
    }
}

/// The number that a camera frame's file stem (`bluefox<n>`) holds after its first seven
/// characters, as `u32::from_str` reads it.
pub open spec fn spec_frame_number(stem: Seq<char>) -> Option<u64> {
    spec_parse_u64(stem.subrange(7, stem.len() as int))
}

/// The frame number of a camera frame from its file stem (`bluefox<n>`). The stem must begin
/// with seven ASCII characters and go on with a number that fits in a `u32`.
pub fn frame_number(stem: &str) -> (r: u32)
    requires
        stem@.len() >= 7,
        forall|i: int| 0 <= i < 7 ==> (#[trigger] stem@[i] as u32) < 128,
        spec_frame_number(stem@) matches Some(v) && v <= u32::MAX,
    ensures
        spec_frame_number(stem@) == Some(r as u64),
{
    let s = chars_of(stem);
    let rest = subvec(&s, 7, s.len());
    match parse_u64(&rest) {
        Some(v) => v as u32,
        None => 0,
    }
}

} // verus!
