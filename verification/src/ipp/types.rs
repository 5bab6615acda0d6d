use vstd::prelude::*;
use vstd::std_specs::convert::FromSpecImpl;
use vstd::std_specs::convert::TryFromSpecImpl;
use std::string::FromUtf8Error;
use vstd::utf8::encode_utf8;
use vstd::slice::slice_to_vec;
use vstd::string::StringExecFns;
use crate::text::{str_eq, string_bytes};
use crate::ipp::wire::{be_i32_bytes, be_u16_bytes, push_be_i32, push_be_u16};

verus! {

/// `std::string::FromUtf8Error`, the error of `String::from_utf8`; carried as is.
#[verifier::external_type_specification]
#[verifier::external_body]
pub struct ExFromUtf8Error(FromUtf8Error);

/// `std::io::Error`; carried as is.
#[verifier::external_type_specification]
#[verifier::external_body]
pub struct ExIoError(std::io::Error);

/// IPP protocol version carried in every message header.
#[derive(Debug, Clone, Copy, PartialEq, Eq, Structural)]
pub struct IppVersion {
    pub major: u8,
    pub minor: u8,
}

impl IppVersion {
    /// Version 1.1.
    pub fn ipp_1_1() -> (v: IppVersion)
        ensures
            v == (IppVersion { major: 1, minor: 1 }),
    {
        IppVersion { major: 1, minor: 1 }
    }

    /// Version 2.0.
    pub fn ipp_2_0() -> (v: IppVersion)
        ensures
            v == (IppVersion { major: 2, minor: 0 }),
    {
        IppVersion { major: 2, minor: 0 }
    }
}

/// IPP operation identifiers (RFC 8011, section 5.4.15).
#[derive(Debug, Clone, Copy, PartialEq, Eq, Structural)]
pub enum IppOperationId {
    PrintJob,
    PrintUri,
    ValidateJob,
    CreateJob,
    SendDocument,
    CancelJob,
    GetJobAttributes,
    GetJobs,
    GetPrinterAttributes,
    HoldJob,
    ReleaseJob,
    RestartJob,
    PausePrinter,
    ResumePrinter,
    PurgeJobs,
    Unknown(u16),
}

/// The operation that a wire code names.
pub open spec fn operation_from_code(v: u16) -> IppOperationId {
    if v == 0x0002 {
        IppOperationId::PrintJob
    } else if v == 0x0003 {
        IppOperationId::PrintUri
    } else if v == 0x0004 {
        IppOperationId::ValidateJob
    } else if v == 0x0005 {
        IppOperationId::CreateJob
    } else if v == 0x0006 {
        IppOperationId::SendDocument
    } else if v == 0x0008 {
        IppOperationId::CancelJob
    } else if v == 0x0009 {
        IppOperationId::GetJobAttributes
    } else if v == 0x000A {
        IppOperationId::GetJobs
    } else if v == 0x000B {
        IppOperationId::GetPrinterAttributes
    } else if v == 0x000C {
        IppOperationId::HoldJob
    } else if v == 0x000D {
        IppOperationId::ReleaseJob
    } else if v == 0x000E {
        IppOperationId::RestartJob
    } else if v == 0x0010 {
        IppOperationId::PausePrinter
    } else if v == 0x0011 {
        IppOperationId::ResumePrinter
    } else if v == 0x0012 {
        IppOperationId::PurgeJobs
    } else {
        IppOperationId::Unknown(v)
    }
}

/// The wire code of an operation.
pub open spec fn operation_code(op: IppOperationId) -> u16 {
    match op {
        IppOperationId::PrintJob => 0x0002,
        IppOperationId::PrintUri => 0x0003,
        IppOperationId::ValidateJob => 0x0004,
        IppOperationId::CreateJob => 0x0005,
        IppOperationId::SendDocument => 0x0006,
        IppOperationId::CancelJob => 0x0008,
        IppOperationId::GetJobAttributes => 0x0009,
        IppOperationId::GetJobs => 0x000A,
        IppOperationId::GetPrinterAttributes => 0x000B,
        IppOperationId::HoldJob => 0x000C,
        IppOperationId::ReleaseJob => 0x000D,
        IppOperationId::RestartJob => 0x000E,
        IppOperationId::PausePrinter => 0x0010,
        IppOperationId::ResumePrinter => 0x0011,
        IppOperationId::PurgeJobs => 0x0012,
        IppOperationId::Unknown(v) => v,
    }
}

impl From<u16> for IppOperationId {
    fn from(v: u16) -> (op: Self) {
        match v {
            0x0002 => IppOperationId::PrintJob,
            0x0003 => IppOperationId::PrintUri,
            0x0004 => IppOperationId::ValidateJob,
            0x0005 => IppOperationId::CreateJob,
            0x0006 => IppOperationId::SendDocument,
            0x0008 => IppOperationId::CancelJob,
            0x0009 => IppOperationId::GetJobAttributes,
            0x000A => IppOperationId::GetJobs,
            0x000B => IppOperationId::GetPrinterAttributes,
            0x000C => IppOperationId::HoldJob,
            0x000D => IppOperationId::ReleaseJob,
            0x000E => IppOperationId::RestartJob,
            0x0010 => IppOperationId::PausePrinter,
            0x0011 => IppOperationId::ResumePrinter,
            0x0012 => IppOperationId::PurgeJobs,
            other => IppOperationId::Unknown(other),
        }
    }
}

impl FromSpecImpl<u16> for IppOperationId {
    open spec fn obeys_from_spec() -> bool {
        true
    }

    open spec fn from_spec(v: u16) -> Self {
        operation_from_code(v)
    }
}

impl From<IppOperationId> for u16 {
    fn from(op: IppOperationId) -> (v: u16) {
        match op {
            IppOperationId::PrintJob => 0x0002,
            IppOperationId::PrintUri => 0x0003,
            IppOperationId::ValidateJob => 0x0004,
            IppOperationId::CreateJob => 0x0005,
            IppOperationId::SendDocument => 0x0006,
            IppOperationId::CancelJob => 0x0008,
            IppOperationId::GetJobAttributes => 0x0009,
            IppOperationId::GetJobs => 0x000A,
            IppOperationId::GetPrinterAttributes => 0x000B,
            IppOperationId::HoldJob => 0x000C,
            IppOperationId::ReleaseJob => 0x000D,
            IppOperationId::RestartJob => 0x000E,
            IppOperationId::PausePrinter => 0x0010,
            IppOperationId::ResumePrinter => 0x0011,
            IppOperationId::PurgeJobs => 0x0012,
            IppOperationId::Unknown(v) => v,
        }
    }
}

impl FromSpecImpl<IppOperationId> for u16 {
    open spec fn obeys_from_spec() -> bool {
        true
    }

    open spec fn from_spec(op: IppOperationId) -> u16 {
        operation_code(op)
    }
}

/// IPP status codes (RFC 8011, section B).
#[derive(Debug, Clone, Copy, PartialEq, Eq, Structural)]
pub enum IppStatusCode {
    SuccessfulOk,
    SuccessfulOkIgnoredOrSubstituted,
    SuccessfulOkConflictingAttributes,
    ClientErrorBadRequest,
    ClientErrorForbidden,
    ClientErrorNotAuthenticated,
    ClientErrorNotAuthorized,
    ClientErrorNotPossible,
    ClientErrorTimeout,
    ClientErrorNotFound,
    ClientErrorGone,
    ClientErrorRequestEntityTooLarge,
    ClientErrorRequestValueTooLong,
    ClientErrorDocumentFormatNotSupported,
    ClientErrorAttributesOrValuesNotSupported,
    ClientErrorUriSchemeNotSupported,
    ClientErrorCharsetNotSupported,
    ClientErrorConflictingAttributes,
    ServerErrorInternalError,
    ServerErrorOperationNotSupported,
    ServerErrorServiceUnavailable,
    ServerErrorVersionNotSupported,
    ServerErrorDeviceError,
    ServerErrorTemporaryError,
    ServerErrorNotAcceptingJobs,
    ServerErrorBusy,
    ServerErrorJobCanceled,
    ServerErrorMultipleDocumentJobsNotSupported,
}

/// The wire code of a status.
pub open spec fn status_code(s: IppStatusCode) -> u16 {
    match s {
        IppStatusCode::SuccessfulOk => 0x0000,
        IppStatusCode::SuccessfulOkIgnoredOrSubstituted => 0x0001,
        IppStatusCode::SuccessfulOkConflictingAttributes => 0x0002,
        IppStatusCode::ClientErrorBadRequest => 0x0400,
        IppStatusCode::ClientErrorForbidden => 0x0401,
        IppStatusCode::ClientErrorNotAuthenticated => 0x0402,
        IppStatusCode::ClientErrorNotAuthorized => 0x0403,
        IppStatusCode::ClientErrorNotPossible => 0x0404,
        IppStatusCode::ClientErrorTimeout => 0x0405,
        IppStatusCode::ClientErrorNotFound => 0x0406,
        IppStatusCode::ClientErrorGone => 0x0407,
        IppStatusCode::ClientErrorRequestEntityTooLarge => 0x0408,
        IppStatusCode::ClientErrorRequestValueTooLong => 0x0409,
        IppStatusCode::ClientErrorDocumentFormatNotSupported => 0x040A,
        IppStatusCode::ClientErrorAttributesOrValuesNotSupported => 0x040B,
        IppStatusCode::ClientErrorUriSchemeNotSupported => 0x040C,
        IppStatusCode::ClientErrorCharsetNotSupported => 0x040D,
        IppStatusCode::ClientErrorConflictingAttributes => 0x040E,
        IppStatusCode::ServerErrorInternalError => 0x0500,
        IppStatusCode::ServerErrorOperationNotSupported => 0x0501,
        IppStatusCode::ServerErrorServiceUnavailable => 0x0502,
        IppStatusCode::ServerErrorVersionNotSupported => 0x0503,
        IppStatusCode::ServerErrorDeviceError => 0x0504,
        IppStatusCode::ServerErrorTemporaryError => 0x0505,
        IppStatusCode::ServerErrorNotAcceptingJobs => 0x0506,
        IppStatusCode::ServerErrorBusy => 0x0507,
        IppStatusCode::ServerErrorJobCanceled => 0x0508,
        IppStatusCode::ServerErrorMultipleDocumentJobsNotSupported => 0x0509,
    }
}

impl IppStatusCode {
    /// The wire code of this status.
    pub fn code(&self) -> (c: u16)
        ensures
            c == status_code(*self),
    {
        match self {
            IppStatusCode::SuccessfulOk => 0x0000,
            IppStatusCode::SuccessfulOkIgnoredOrSubstituted => 0x0001,
            IppStatusCode::SuccessfulOkConflictingAttributes => 0x0002,
            IppStatusCode::ClientErrorBadRequest => 0x0400,
            IppStatusCode::ClientErrorForbidden => 0x0401,
            IppStatusCode::ClientErrorNotAuthenticated => 0x0402,
            IppStatusCode::ClientErrorNotAuthorized => 0x0403,
            IppStatusCode::ClientErrorNotPossible => 0x0404,
            IppStatusCode::ClientErrorTimeout => 0x0405,
            IppStatusCode::ClientErrorNotFound => 0x0406,
            IppStatusCode::ClientErrorGone => 0x0407,
            IppStatusCode::ClientErrorRequestEntityTooLarge => 0x0408,
            IppStatusCode::ClientErrorRequestValueTooLong => 0x0409,
            IppStatusCode::ClientErrorDocumentFormatNotSupported => 0x040A,
            IppStatusCode::ClientErrorAttributesOrValuesNotSupported => 0x040B,
            IppStatusCode::ClientErrorUriSchemeNotSupported => 0x040C,
            IppStatusCode::ClientErrorCharsetNotSupported => 0x040D,
            IppStatusCode::ClientErrorConflictingAttributes => 0x040E,
            IppStatusCode::ServerErrorInternalError => 0x0500,
            IppStatusCode::ServerErrorOperationNotSupported => 0x0501,
            IppStatusCode::ServerErrorServiceUnavailable => 0x0502,
            IppStatusCode::ServerErrorVersionNotSupported => 0x0503,
            IppStatusCode::ServerErrorDeviceError => 0x0504,
            IppStatusCode::ServerErrorTemporaryError => 0x0505,
            IppStatusCode::ServerErrorNotAcceptingJobs => 0x0506,
            IppStatusCode::ServerErrorBusy => 0x0507,
            IppStatusCode::ServerErrorJobCanceled => 0x0508,
            IppStatusCode::ServerErrorMultipleDocumentJobsNotSupported => 0x0509,
        }
    }
}

impl From<IppStatusCode> for u16 {
    fn from(s: IppStatusCode) -> (v: u16) {
        s.code()
    }
}

impl FromSpecImpl<IppStatusCode> for u16 {
    open spec fn obeys_from_spec() -> bool {
        true
    }

    open spec fn from_spec(s: IppStatusCode) -> u16 {
        status_code(s)
    }
}

/// IPP attribute-group delimiter tags.
#[derive(Debug, Clone, Copy, PartialEq, Eq, Structural)]
pub enum DelimiterTag {
    OperationAttributes,
    JobAttributes,
    EndOfAttributes,
    PrinterAttributes,
    UnsupportedAttributes,
}

/// The byte that stands for a delimiter on the wire.
pub open spec fn delimiter_byte(d: DelimiterTag) -> u8 {
    match d {
        DelimiterTag::OperationAttributes => 0x01,
        DelimiterTag::JobAttributes => 0x02,
        DelimiterTag::EndOfAttributes => 0x03,
        DelimiterTag::PrinterAttributes => 0x04,
        DelimiterTag::UnsupportedAttributes => 0x05,
    }
}

/// The delimiter that a byte stands for, if any.
pub open spec fn delimiter_from_byte(v: u8) -> Option<DelimiterTag> {
    if v == 0x01 {
        Some(DelimiterTag::OperationAttributes)
    } else if v == 0x02 {
        Some(DelimiterTag::JobAttributes)
    } else if v == 0x03 {
        Some(DelimiterTag::EndOfAttributes)
    } else if v == 0x04 {
        Some(DelimiterTag::PrinterAttributes)
    } else if v == 0x05 {
        Some(DelimiterTag::UnsupportedAttributes)
    } else {
        None
    }
}

impl DelimiterTag {
    /// The byte that stands for this delimiter on the wire.
    pub fn byte(&self) -> (b: u8)
        ensures
            b == delimiter_byte(*self),
    {
        match self {
            DelimiterTag::OperationAttributes => 0x01,
            DelimiterTag::JobAttributes => 0x02,
            DelimiterTag::EndOfAttributes => 0x03,
            DelimiterTag::PrinterAttributes => 0x04,
            DelimiterTag::UnsupportedAttributes => 0x05,
        }
    }
}

impl TryFrom<u8> for DelimiterTag {
    type Error = IppError;

    fn try_from(v: u8) -> (r: Result<Self, Self::Error>) {
        match v {
            0x01 => Ok(DelimiterTag::OperationAttributes),
            0x02 => Ok(DelimiterTag::JobAttributes),
            0x03 => Ok(DelimiterTag::EndOfAttributes),
            0x04 => Ok(DelimiterTag::PrinterAttributes),
            0x05 => Ok(DelimiterTag::UnsupportedAttributes),
            other => Err(IppError::UnknownDelimiter(other)),
        }
    }
}

impl TryFromSpecImpl<u8> for DelimiterTag {
    open spec fn obeys_try_from_spec() -> bool {
        true
    }

    open spec fn try_from_spec(v: u8) -> Result<Self, IppError> {
        match delimiter_from_byte(v) {
            Some(d) => Ok(d),
            None => Err(IppError::UnknownDelimiter(v)),
        }
    }
}

} // verus!

verus! {

/// IPP value tags.
#[derive(Debug, Clone, Copy, PartialEq, Eq, Structural)]
pub enum ValueTag {
    Unsupported,
    Unknown,
    NoValue,
    Integer,
    Boolean,
    Enum,
    OctetStringUnspecified,
    DateTime,
    Resolution,
    RangeOfInteger,
    BegCollection,
    TextWithLanguage,
    NameWithLanguage,
    EndCollection,
    TextWithoutLanguage,
    NameWithoutLanguage,
    Keyword,
    Uri,
    UriScheme,
    Charset,
    NaturalLanguage,
    MimeMediaType,
    MemberAttrName,
}

/// The byte that stands for a value tag on the wire.
pub open spec fn value_tag_byte(t: ValueTag) -> u8 {
    match t {
        ValueTag::Unsupported => 0x10,
        ValueTag::Unknown => 0x12,
        ValueTag::NoValue => 0x13,
        ValueTag::Integer => 0x21,
        ValueTag::Boolean => 0x22,
        ValueTag::Enum => 0x23,
        ValueTag::OctetStringUnspecified => 0x30,
        ValueTag::DateTime => 0x31,
        ValueTag::Resolution => 0x32,
        ValueTag::RangeOfInteger => 0x33,
        ValueTag::BegCollection => 0x34,
        ValueTag::TextWithLanguage => 0x35,
        ValueTag::NameWithLanguage => 0x36,
        ValueTag::EndCollection => 0x37,
        ValueTag::TextWithoutLanguage => 0x41,
        ValueTag::NameWithoutLanguage => 0x42,
        ValueTag::Keyword => 0x44,
        ValueTag::Uri => 0x45,
        ValueTag::UriScheme => 0x46,
        ValueTag::Charset => 0x47,
        ValueTag::NaturalLanguage => 0x48,
        ValueTag::MimeMediaType => 0x49,
        ValueTag::MemberAttrName => 0x4A,
    }
}

/// The value tag that a byte stands for, if any.
pub open spec fn value_tag_from_byte(v: u8) -> Option<ValueTag> {
    if v == 0x10 {
        Some(ValueTag::Unsupported)
    } else if v == 0x12 {
        Some(ValueTag::Unknown)
    } else if v == 0x13 {
        Some(ValueTag::NoValue)
    } else if v == 0x21 {
        Some(ValueTag::Integer)
    } else if v == 0x22 {
        Some(ValueTag::Boolean)
    } else if v == 0x23 {
        Some(ValueTag::Enum)
    } else if v == 0x30 {
        Some(ValueTag::OctetStringUnspecified)
    } else if v == 0x31 {
        Some(ValueTag::DateTime)
    } else if v == 0x32 {
        Some(ValueTag::Resolution)
    } else if v == 0x33 {
        Some(ValueTag::RangeOfInteger)
    } else if v == 0x34 {
        Some(ValueTag::BegCollection)
    } else if v == 0x35 {
        Some(ValueTag::TextWithLanguage)
    } else if v == 0x36 {
        Some(ValueTag::NameWithLanguage)
    } else if v == 0x37 {
        Some(ValueTag::EndCollection)
    } else if v == 0x41 {
        Some(ValueTag::TextWithoutLanguage)
    } else if v == 0x42 {
        Some(ValueTag::NameWithoutLanguage)
    } else if v == 0x44 {
        Some(ValueTag::Keyword)
    } else if v == 0x45 {
        Some(ValueTag::Uri)
    } else if v == 0x46 {
        Some(ValueTag::UriScheme)
    } else if v == 0x47 {
        Some(ValueTag::Charset)
    } else if v == 0x48 {
        Some(ValueTag::NaturalLanguage)
    } else if v == 0x49 {
        Some(ValueTag::MimeMediaType)
    } else if v == 0x4A {
        Some(ValueTag::MemberAttrName)
    } else {
        None
    }
}

impl ValueTag {
    /// The byte that stands for this tag on the wire.
    pub fn byte(&self) -> (b: u8)
        ensures
            b == value_tag_byte(*self),
    {
        match self {
            ValueTag::Unsupported => 0x10,
            ValueTag::Unknown => 0x12,
            ValueTag::NoValue => 0x13,
            ValueTag::Integer => 0x21,
            ValueTag::Boolean => 0x22,
            ValueTag::Enum => 0x23,
            ValueTag::OctetStringUnspecified => 0x30,
            ValueTag::DateTime => 0x31,
            ValueTag::Resolution => 0x32,
            ValueTag::RangeOfInteger => 0x33,
            ValueTag::BegCollection => 0x34,
            ValueTag::TextWithLanguage => 0x35,
            ValueTag::NameWithLanguage => 0x36,
            ValueTag::EndCollection => 0x37,
            ValueTag::TextWithoutLanguage => 0x41,
            ValueTag::NameWithoutLanguage => 0x42,
            ValueTag::Keyword => 0x44,
            ValueTag::Uri => 0x45,
            ValueTag::UriScheme => 0x46,
            ValueTag::Charset => 0x47,
            ValueTag::NaturalLanguage => 0x48,
            ValueTag::MimeMediaType => 0x49,
            ValueTag::MemberAttrName => 0x4A,
        }
    }
}

impl TryFrom<u8> for ValueTag {
    type Error = IppError;

    fn try_from(v: u8) -> (r: Result<Self, Self::Error>) {
        match v {
            0x10 => Ok(ValueTag::Unsupported),
            0x12 => Ok(ValueTag::Unknown),
            0x13 => Ok(ValueTag::NoValue),
            0x21 => Ok(ValueTag::Integer),
            0x22 => Ok(ValueTag::Boolean),
            0x23 => Ok(ValueTag::Enum),
            0x30 => Ok(ValueTag::OctetStringUnspecified),
            0x31 => Ok(ValueTag::DateTime),
            0x32 => Ok(ValueTag::Resolution),
            0x33 => Ok(ValueTag::RangeOfInteger),
            0x34 => Ok(ValueTag::BegCollection),
            0x35 => Ok(ValueTag::TextWithLanguage),
            0x36 => Ok(ValueTag::NameWithLanguage),
            0x37 => Ok(ValueTag::EndCollection),
            0x41 => Ok(ValueTag::TextWithoutLanguage),
            0x42 => Ok(ValueTag::NameWithoutLanguage),
            0x44 => Ok(ValueTag::Keyword),
            0x45 => Ok(ValueTag::Uri),
            0x46 => Ok(ValueTag::UriScheme),
            0x47 => Ok(ValueTag::Charset),
            0x48 => Ok(ValueTag::NaturalLanguage),
            0x49 => Ok(ValueTag::MimeMediaType),
            0x4A => Ok(ValueTag::MemberAttrName),
            other => Err(IppError::UnknownValueTag(other)),
        }
    }
}

impl TryFromSpecImpl<u8> for ValueTag {
    open spec fn obeys_try_from_spec() -> bool {
        true
    }

    open spec fn try_from_spec(v: u8) -> Result<Self, IppError> {
        match value_tag_from_byte(v) {
            Some(t) => Ok(t),
            None => Err(IppError::UnknownValueTag(v)),
        }
    }
}

/// Errors of IPP decoding.
#[derive(Debug)]
pub enum IppError {
    UnexpectedEof { need: usize, have: usize },
    UnknownDelimiter(u8),
    UnknownValueTag(u8),
    InvalidUtf8(FromUtf8Error),
    InvalidVersion { major: u8, minor: u8 },
    Io(std::io::Error),
}

/// What an [`IppError`] says, with the carried std errors left out.
pub enum ErrorKind {
    UnexpectedEof { need: nat, have: nat },
    UnknownDelimiter(u8),
    UnknownValueTag(u8),
    InvalidUtf8,
    InvalidVersion { major: u8, minor: u8 },
    Io,
}

impl View for IppError {
    type V = ErrorKind;

    open spec fn view(&self) -> ErrorKind {
        match self {
            IppError::UnexpectedEof { need, have } => ErrorKind::UnexpectedEof {
                need: *need as nat,
                have: *have as nat,
            },
            IppError::UnknownDelimiter(v) => ErrorKind::UnknownDelimiter(*v),
            IppError::UnknownValueTag(v) => ErrorKind::UnknownValueTag(*v),
            IppError::InvalidUtf8(_) => ErrorKind::InvalidUtf8,
            IppError::InvalidVersion { major, minor } => ErrorKind::InvalidVersion {
                major: *major,
                minor: *minor,
            },
            IppError::Io(_) => ErrorKind::Io,
        }
    }
}

} // verus!

verus! {

/// Abstract form of an attribute value: strings as characters, byte strings as bytes.
pub enum ValueV {
    Integer(i32),
    Boolean(bool),
    Enum(i32),
    TextWithoutLanguage(Seq<char>),
    NameWithoutLanguage(Seq<char>),
    Keyword(Seq<char>),
    Uri(Seq<char>),
    UriScheme(Seq<char>),
    Charset(Seq<char>),
    NaturalLanguage(Seq<char>),
    MimeMediaType(Seq<char>),
    OctetString(Seq<u8>),
    DateTime {
        year: u16,
        month: u8,
        day: u8,
        hour: u8,
        minutes: u8,
        seconds: u8,
        deci_seconds: u8,
        direction_from_utc: u8,
        hours_from_utc: u8,
        minutes_from_utc: u8,
    },
    Resolution { cross_feed: i32, feed: i32, units: u8 },
    RangeOfInteger { lower: i32, upper: i32 },
    Collection(Seq<(Seq<char>, ValueV)>),
    NoValue,
    Unsupported,
    Unknown(Seq<u8>),
}

/// IPP attribute value.
#[derive(Debug, PartialEq)]
pub enum IppValue {
    Integer(i32),
    Boolean(bool),
    Enum(i32),
    TextWithoutLanguage(String),
    NameWithoutLanguage(String),
    Keyword(String),
    Uri(String),
    UriScheme(String),
    Charset(String),
    NaturalLanguage(String),
    MimeMediaType(String),
    OctetString(Vec<u8>),
    DateTime {
        year: u16,
        month: u8,
        day: u8,
        hour: u8,
        minutes: u8,
        seconds: u8,
        deci_seconds: u8,
        direction_from_utc: u8,
        hours_from_utc: u8,
        minutes_from_utc: u8,
    },
    Resolution { cross_feed: i32, feed: i32, units: u8 },
    RangeOfInteger { lower: i32, upper: i32 },
    /// IPP collection (begCollection/memberAttrName/endCollection).
    /// Each element is (member_name, member_value); nested collections are supported.
    Collection(Vec<(String, IppValue)>),
    NoValue,
    Unsupported,
    Unknown(Vec<u8>),
}

/// The abstract form of a value.
pub open spec fn value_view(v: IppValue) -> ValueV
    decreases v,
{
    match v {
        IppValue::Integer(i) => ValueV::Integer(i),
        IppValue::Boolean(b) => ValueV::Boolean(b),
        IppValue::Enum(i) => ValueV::Enum(i),
        IppValue::TextWithoutLanguage(s) => ValueV::TextWithoutLanguage(s@),
        IppValue::NameWithoutLanguage(s) => ValueV::NameWithoutLanguage(s@),
        IppValue::Keyword(s) => ValueV::Keyword(s@),
        IppValue::Uri(s) => ValueV::Uri(s@),
        IppValue::UriScheme(s) => ValueV::UriScheme(s@),
        IppValue::Charset(s) => ValueV::Charset(s@),
        IppValue::NaturalLanguage(s) => ValueV::NaturalLanguage(s@),
        IppValue::MimeMediaType(s) => ValueV::MimeMediaType(s@),
        IppValue::OctetString(b) => ValueV::OctetString(b@),
        IppValue::DateTime {
            year,
            month,
            day,
            hour,
            minutes,
            seconds,
            deci_seconds,
            direction_from_utc,
            hours_from_utc,
            minutes_from_utc,
        } => ValueV::DateTime {
            year,
            month,
            day,
            hour,
            minutes,
            seconds,
            deci_seconds,
            direction_from_utc,
            hours_from_utc,
            minutes_from_utc,
        },
        IppValue::Resolution { cross_feed, feed, units } => ValueV::Resolution {
            cross_feed,
            feed,
            units,
        },
        IppValue::RangeOfInteger { lower, upper } => ValueV::RangeOfInteger { lower, upper },
        IppValue::Collection(ms) => ValueV::Collection(members_view(ms@)),
        IppValue::NoValue => ValueV::NoValue,
        IppValue::Unsupported => ValueV::Unsupported,
        IppValue::Unknown(b) => ValueV::Unknown(b@),
    }
}

/// The abstract form of the members of a collection.
pub open spec fn members_view(ms: Seq<(String, IppValue)>) -> Seq<(Seq<char>, ValueV)>
    decreases ms,
{
    if ms.len() == 0 {
        Seq::empty()
    } else {
        members_view(ms.drop_last()).push((ms.last().0@, value_view(ms.last().1)))
    }
}

impl Clone for IppValue {
    fn clone(&self) -> (r: Self)
        ensures
            r@ == self@,
    {
        self.deep_copy()
    }
}

impl View for IppValue {
    type V = ValueV;

    open spec fn view(&self) -> ValueV {
        value_view(*self)
    }
}

/// The abstract form of a sequence of values.
pub open spec fn values_view(vs: Seq<IppValue>) -> Seq<ValueV> {
    vs.map_values(|v: IppValue| v@)
}

/// The value-tag byte that a value is written with.
pub open spec fn spec_value_tag(v: ValueV) -> u8 {
    match v {
        ValueV::Integer(_) => 0x21,
        ValueV::Boolean(_) => 0x22,
        ValueV::Enum(_) => 0x23,
        ValueV::TextWithoutLanguage(_) => 0x41,
        ValueV::NameWithoutLanguage(_) => 0x42,
        ValueV::Keyword(_) => 0x44,
        ValueV::Uri(_) => 0x45,
        ValueV::UriScheme(_) => 0x46,
        ValueV::Charset(_) => 0x47,
        ValueV::NaturalLanguage(_) => 0x48,
        ValueV::MimeMediaType(_) => 0x49,
        ValueV::OctetString(_) => 0x30,
        ValueV::DateTime { .. } => 0x31,
        ValueV::Resolution { .. } => 0x32,
        ValueV::RangeOfInteger { .. } => 0x33,
        ValueV::Collection(_) => 0x34,
        ValueV::NoValue => 0x13,
        ValueV::Unsupported => 0x10,
        ValueV::Unknown(_) => 0x12,
    }
}

/// The bytes of the value field that a (non-collection) value is written with.
pub open spec fn spec_value_bytes(v: ValueV) -> Seq<u8> {
    match v {
        ValueV::Integer(i) => be_i32_bytes(i),
        ValueV::Enum(i) => be_i32_bytes(i),
        ValueV::Boolean(b) => seq![if b { 1u8 } else { 0u8 }],
        ValueV::TextWithoutLanguage(s) => encode_utf8(s),
        ValueV::NameWithoutLanguage(s) => encode_utf8(s),
        ValueV::Keyword(s) => encode_utf8(s),
        ValueV::Uri(s) => encode_utf8(s),
        ValueV::UriScheme(s) => encode_utf8(s),
        ValueV::Charset(s) => encode_utf8(s),
        ValueV::NaturalLanguage(s) => encode_utf8(s),
        ValueV::MimeMediaType(s) => encode_utf8(s),
        ValueV::OctetString(b) => b,
        ValueV::Unknown(b) => b,
        ValueV::DateTime {
            year,
            month,
            day,
            hour,
            minutes,
            seconds,
            deci_seconds,
            direction_from_utc,
            hours_from_utc,
            minutes_from_utc,
        } => be_u16_bytes(year) + seq![
            month,
            day,
            hour,
            minutes,
            seconds,
            deci_seconds,
            direction_from_utc,
            hours_from_utc,
            minutes_from_utc,
        ],
        ValueV::Resolution { cross_feed, feed, units } => be_i32_bytes(cross_feed) + be_i32_bytes(
            feed,
        ) + seq![units],
        ValueV::RangeOfInteger { lower, upper } => be_i32_bytes(lower) + be_i32_bytes(upper),
        ValueV::Collection(_) => Seq::empty(),
        ValueV::NoValue => Seq::empty(),
        ValueV::Unsupported => Seq::empty(),
    }
}

impl IppValue {
    /// A copy of this value, collections copied member by member.
    pub fn deep_copy(&self) -> (r: IppValue)
        ensures
            r@ == self@,
        decreases self,
    {
        match self {
            IppValue::Integer(i) => IppValue::Integer(*i),
            IppValue::Boolean(b) => IppValue::Boolean(*b),
            IppValue::Enum(i) => IppValue::Enum(*i),
            IppValue::TextWithoutLanguage(s) => IppValue::TextWithoutLanguage(s.clone()),
            IppValue::NameWithoutLanguage(s) => IppValue::NameWithoutLanguage(s.clone()),
            IppValue::Keyword(s) => IppValue::Keyword(s.clone()),
            IppValue::Uri(s) => IppValue::Uri(s.clone()),
            IppValue::UriScheme(s) => IppValue::UriScheme(s.clone()),
            IppValue::Charset(s) => IppValue::Charset(s.clone()),
            IppValue::NaturalLanguage(s) => IppValue::NaturalLanguage(s.clone()),
            IppValue::MimeMediaType(s) => IppValue::MimeMediaType(s.clone()),
            IppValue::OctetString(b) => IppValue::OctetString(b.clone()),
            IppValue::DateTime {
                year,
                month,
                day,
                hour,
                minutes,
                seconds,
                deci_seconds,
                direction_from_utc,
                hours_from_utc,
                minutes_from_utc,
            } => IppValue::DateTime {
                year: *year,
                month: *month,
                day: *day,
                hour: *hour,
                minutes: *minutes,
                seconds: *seconds,
                deci_seconds: *deci_seconds,
                direction_from_utc: *direction_from_utc,
                hours_from_utc: *hours_from_utc,
                minutes_from_utc: *minutes_from_utc,
            },
            IppValue::Resolution { cross_feed, feed, units } => IppValue::Resolution {
                cross_feed: *cross_feed,
                feed: *feed,
                units: *units,
            },
            IppValue::RangeOfInteger { lower, upper } => IppValue::RangeOfInteger {
                lower: *lower,
                upper: *upper,
            },
            IppValue::Collection(ms) => {
                let mut out: Vec<(String, IppValue)> = Vec::new();
                let mut i: usize = 0;
                while i < ms.len()
                    invariant
                        *self == IppValue::Collection(*ms),
                        i <= ms@.len(),
                        members_view(out@) == members_view(ms@.take(i as int)),
                    decreases ms@.len() - i,
                {
                    proof {
                        let m = ms@[i as int];
                        assert(decreases_to!(*self => self->Collection_0));
                        assert(decreases_to!(*self => *ms));
                        assert(decreases_to!(*ms => ms@));
                        assert(decreases_to!(ms@ => m));
                        assert(decreases_to!(m => m.1));
                        assert(decreases_to!(*self => m.1));
                    }
                    let name = ms[i].0.clone();
                    let value = ms[i].1.deep_copy();
                    let ghost prev = out@;
                    out.push((name, value));
                    proof {
                        assert(out@.drop_last() =~= prev);
                        assert(ms@.take(i + 1).drop_last() =~= ms@.take(i as int));
                    }
                    i = i + 1;
                }
                proof {
                    assert(ms@.take(ms@.len() as int) =~= ms@);
                }
                IppValue::Collection(out)
            },
            IppValue::NoValue => IppValue::NoValue,
            IppValue::Unsupported => IppValue::Unsupported,
            IppValue::Unknown(b) => IppValue::Unknown(b.clone()),
        }
    }

    /// The value-tag byte this value is written with.
    pub fn value_tag(&self) -> (t: u8)
        ensures
            t == spec_value_tag(self@),
    {
        match self {
            IppValue::Integer(_) => 0x21,
            IppValue::Boolean(_) => 0x22,
            IppValue::Enum(_) => 0x23,
            IppValue::TextWithoutLanguage(_) => 0x41,
            IppValue::NameWithoutLanguage(_) => 0x42,
            IppValue::Keyword(_) => 0x44,
            IppValue::Uri(_) => 0x45,
            IppValue::UriScheme(_) => 0x46,
            IppValue::Charset(_) => 0x47,
            IppValue::NaturalLanguage(_) => 0x48,
            IppValue::MimeMediaType(_) => 0x49,
            IppValue::OctetString(_) => 0x30,
            IppValue::DateTime { .. } => 0x31,
            IppValue::Resolution { .. } => 0x32,
            IppValue::RangeOfInteger { .. } => 0x33,
            IppValue::Collection(_) => 0x34,
            IppValue::NoValue => 0x13,
            IppValue::Unsupported => 0x10,
            IppValue::Unknown(_) => 0x12,
        }
    }

    /// The bytes of the value field (empty for collections, whose members the serializer writes).
    pub fn serialized_value(&self) -> (b: Vec<u8>)
        ensures
            b@ == spec_value_bytes(self@),
    {
        let mut v: Vec<u8> = Vec::new();
        match self {
            IppValue::Integer(i) => {
                push_be_i32(&mut v, *i);
            },
            IppValue::Enum(i) => {
                push_be_i32(&mut v, *i);
            },
            IppValue::Boolean(b) => {
                v.push(if *b { 1u8 } else { 0u8 });
            },
            IppValue::TextWithoutLanguage(s) => {
                v = string_bytes(s);
            },
            IppValue::NameWithoutLanguage(s) => {
                v = string_bytes(s);
            },
            IppValue::Keyword(s) => {
                v = string_bytes(s);
            },
            IppValue::Uri(s) => {
                v = string_bytes(s);
            },
            IppValue::UriScheme(s) => {
                v = string_bytes(s);
            },
            IppValue::Charset(s) => {
                v = string_bytes(s);
            },
            IppValue::NaturalLanguage(s) => {
                v = string_bytes(s);
            },
            IppValue::MimeMediaType(s) => {
                v = string_bytes(s);
            },
            IppValue::OctetString(b) => {
                v = b.clone();
            },
            IppValue::Unknown(b) => {
                v = b.clone();
            },
            IppValue::DateTime {
                year,
                month,
                day,
                hour,
                minutes,
                seconds,
                deci_seconds,
                direction_from_utc,
                hours_from_utc,
                minutes_from_utc,
            } => {
                push_be_u16(&mut v, *year);
                v.push(*month);
                v.push(*day);
                v.push(*hour);
                v.push(*minutes);
                v.push(*seconds);
                v.push(*deci_seconds);
                v.push(*direction_from_utc);
                v.push(*hours_from_utc);
                v.push(*minutes_from_utc);
            },
            IppValue::Resolution { cross_feed, feed, units } => {
                push_be_i32(&mut v, *cross_feed);
                push_be_i32(&mut v, *feed);
                v.push(*units);
            },
            IppValue::RangeOfInteger { lower, upper } => {
                push_be_i32(&mut v, *lower);
                push_be_i32(&mut v, *upper);
            },
            IppValue::Collection(_) => {},
            IppValue::NoValue => {},
            IppValue::Unsupported => {},
        }
        proof {
            assert(v@ =~= spec_value_bytes(self@));
        }
        v
    }
}

} // verus!

verus! {

/// Abstract form of an attribute.
pub struct AttrV {
    pub name: Seq<char>,
    pub values: Seq<ValueV>,
}

/// Abstract form of an attribute group.
pub struct GroupV {
    pub delimiter: DelimiterTag,
    pub attributes: Seq<AttrV>,
}

/// Abstract form of a request.
pub struct RequestV {
    pub version: IppVersion,
    pub operation_id: IppOperationId,
    pub request_id: u32,
    pub attribute_groups: Seq<GroupV>,
    pub document_data: Seq<u8>,
}

/// Abstract form of a response.
pub struct ResponseV {
    pub version: IppVersion,
    pub status_code: IppStatusCode,
    pub request_id: u32,
    pub attribute_groups: Seq<GroupV>,
}

/// A single IPP attribute (name + one or more values)
#[derive(Debug, Clone, PartialEq)]
pub struct IppAttribute {
    pub name: String,
    pub values: Vec<IppValue>,
}

impl View for IppAttribute {
    type V = AttrV;

    open spec fn view(&self) -> AttrV {
        AttrV { name: self.name@, values: values_view(self.values@) }
    }
}

/// The abstract form of a sequence of attributes.
pub open spec fn attrs_view(attrs: Seq<IppAttribute>) -> Seq<AttrV> {
    attrs.map_values(|a: IppAttribute| a@)
}

impl IppAttribute {
    /// An attribute with one value.
    pub fn new(name: &str, value: IppValue) -> (a: Self)
        ensures
            a@ == (AttrV { name: name@, values: seq![value@] }),
    {
        let values = vec![value];
        proof {
            assert(values_view(values@) =~= seq![value@]);
        }
        IppAttribute { name: String::from_str(name), values }
    }

    /// An attribute with the given values, in order.
    pub fn new_multi(name: &str, values: Vec<IppValue>) -> (a: Self)
        ensures
            a@ == (AttrV { name: name@, values: values_view(values@) }),
    {
        IppAttribute { name: String::from_str(name), values }
    }
}

/// A group of attributes with the same delimiter tag
#[derive(Debug, Clone, PartialEq)]
pub struct IppAttributeGroup {
    pub delimiter: DelimiterTag,
    pub attributes: Vec<IppAttribute>,
}

impl View for IppAttributeGroup {
    type V = GroupV;

    open spec fn view(&self) -> GroupV {
        GroupV { delimiter: self.delimiter, attributes: attrs_view(self.attributes@) }
    }
}

/// The abstract form of a sequence of groups.
pub open spec fn groups_view(groups: Seq<IppAttributeGroup>) -> Seq<GroupV> {
    groups.map_values(|g: IppAttributeGroup| g@)
}

/// The index of the first attribute at or after `i` with the given name.
pub open spec fn find_attr_from(attrs: Seq<AttrV>, name: Seq<char>, i: int) -> Option<int>
    decreases attrs.len() - i,
{
    if i < 0 || i >= attrs.len() {
        None
    } else if attrs[i].name == name {
        Some(i)
    } else {
        find_attr_from(attrs, name, i + 1)
    }
}

/// The first value of the first attribute with the given name, if that attribute has a value.
pub open spec fn group_get(g: GroupV, name: Seq<char>) -> Option<ValueV> {
    match find_attr_from(g.attributes, name, 0) {
        Some(i) => if g.attributes[i].values.len() > 0 {
            Some(g.attributes[i].values[0])
        } else {
            None
        },
        None => None,
    }
}

/// `find_attr_from` only ever answers an index in range whose attribute has the name.
pub proof fn lemma_find_attr_from(attrs: Seq<AttrV>, name: Seq<char>, i: int)
    ensures
        find_attr_from(attrs, name, i) matches Some(k) ==> i <= k < attrs.len()
            && attrs[k].name == name,
        find_attr_from(attrs, name, i) is None ==> forall|k: int|
            0 <= i <= k < attrs.len() ==> attrs[k].name != name,
    decreases attrs.len() - i,
{
    if 0 <= i < attrs.len() && attrs[i].name != name {
        lemma_find_attr_from(attrs, name, i + 1);
    }
}

impl IppAttributeGroup {
    /// An empty group.
    pub fn new(delimiter: DelimiterTag) -> (g: Self)
        ensures
            g@ == (GroupV { delimiter, attributes: Seq::empty() }),
    {
        let g = IppAttributeGroup { delimiter, attributes: Vec::new() };
        proof {
            assert(attrs_view(g.attributes@) =~= Seq::<AttrV>::empty());
        }
        g
    }

    /// Appends an attribute.
    pub fn add(&mut self, attr: IppAttribute)
        ensures
            final(self)@ == (GroupV {
                delimiter: old(self)@.delimiter,
                attributes: old(self)@.attributes.push(attr@),
            }),
    {
        self.attributes.push(attr);
        proof {
            assert(attrs_view(self.attributes@) =~= attrs_view(old(self).attributes@).push(attr@));
        }
    }

    /// The first value of the first attribute named `name`, if that attribute has a value.
    pub fn get(&self, name: &str) -> (r: Option<&IppValue>)
        ensures
            r matches Some(v) ==> group_get(self@, name@) == Some(v@),
            r is None ==> group_get(self@, name@) is None,
    {
        let mut i: usize = 0;
        while i < self.attributes.len()
            invariant
                i <= self.attributes@.len(),
                find_attr_from(self@.attributes, name@, 0) == find_attr_from(
                    self@.attributes,
                    name@,
                    i as int,
                ),
            decreases self.attributes@.len() - i,
        {
            let a = &self.attributes[i];
            if str_eq(a.name.as_str(), name) {
                if a.values.len() > 0 {
                    return Some(&a.values[0]);
                } else {
                    return None;
                }
            }
            i = i + 1;
        }
        None
    }
}

/// A parsed IPP request
#[derive(Debug, Clone)]
pub struct IppRequest {
    pub version: IppVersion,
    pub operation_id: IppOperationId,
    pub request_id: u32,
    pub attribute_groups: Vec<IppAttributeGroup>,
    pub document_data: Vec<u8>,
}

impl View for IppRequest {
    type V = RequestV;

    open spec fn view(&self) -> RequestV {
        RequestV {
            version: self.version,
            operation_id: self.operation_id,
            request_id: self.request_id,
            attribute_groups: groups_view(self.attribute_groups@),
            document_data: self.document_data@,
        }
    }
}

/// The index of the first group at or after `i` with the given delimiter.
pub open spec fn find_group_from(groups: Seq<GroupV>, d: DelimiterTag, i: int) -> Option<int>
    decreases groups.len() - i,
{
    if i < 0 || i >= groups.len() {
        None
    } else if groups[i].delimiter == d {
        Some(i)
    } else {
        find_group_from(groups, d, i + 1)
    }
}

/// The first group with the given delimiter.
pub open spec fn first_group(groups: Seq<GroupV>, d: DelimiterTag) -> Option<GroupV> {
    match find_group_from(groups, d, 0) {
        Some(i) => Some(groups[i]),
        None => None,
    }
}

/// `find_group_from` only ever answers an index in range whose group has the delimiter.
pub proof fn lemma_find_group_from(groups: Seq<GroupV>, d: DelimiterTag, i: int)
    ensures
        find_group_from(groups, d, i) matches Some(k) ==> i <= k < groups.len()
            && groups[k].delimiter == d,
    decreases groups.len() - i,
{
    if 0 <= i < groups.len() && groups[i].delimiter != d {
        lemma_find_group_from(groups, d, i + 1);
    }
}

/// The characters of a string value of one of the string kinds that `get_attr_str` reads.
pub open spec fn string_of(v: ValueV) -> Option<Seq<char>> {
    match v {
        ValueV::TextWithoutLanguage(s) => Some(s),
        ValueV::NameWithoutLanguage(s) => Some(s),
        ValueV::Keyword(s) => Some(s),
        ValueV::Uri(s) => Some(s),
        ValueV::Charset(s) => Some(s),
        ValueV::MimeMediaType(s) => Some(s),
        ValueV::NaturalLanguage(s) => Some(s),
        _ => None,
    }
}

/// What `get_attr_str` answers for a request.
pub open spec fn request_attr_str(r: RequestV, group: DelimiterTag, name: Seq<char>) -> Option<
    Seq<char>,
> {
    match first_group(r.attribute_groups, group) {
        Some(g) => match group_get(g, name) {
            Some(v) => string_of(v),
            None => None,
        },
        None => None,
    }
}

impl IppRequest {
    /// The first group with the given delimiter.
    pub fn find_group(&self, d: DelimiterTag) -> (r: Option<&IppAttributeGroup>)
        ensures
            r matches Some(g) ==> first_group(self@.attribute_groups, d) == Some(g@),
            r is None ==> first_group(self@.attribute_groups, d) is None,
    {
        let mut i: usize = 0;
        while i < self.attribute_groups.len()
            invariant
                i <= self.attribute_groups@.len(),
                find_group_from(self@.attribute_groups, d, 0) == find_group_from(
                    self@.attribute_groups,
                    d,
                    i as int,
                ),
            decreases self.attribute_groups@.len() - i,
        {
            if self.attribute_groups[i].delimiter == d {
                return Some(&self.attribute_groups[i]);
            }
            i = i + 1;
        }
        None
    }

    /// The first operation-attributes group.
    pub fn get_operation_attributes(&self) -> (r: Option<&IppAttributeGroup>)
        ensures
            r matches Some(g) ==> first_group(
                self@.attribute_groups,
                DelimiterTag::OperationAttributes,
            ) == Some(g@),
            r is None ==> first_group(
                self@.attribute_groups,
                DelimiterTag::OperationAttributes,
            ) is None,
    {
        self.find_group(DelimiterTag::OperationAttributes)
    }

    /// The first job-attributes group.
    pub fn get_job_attributes(&self) -> (r: Option<&IppAttributeGroup>)
        ensures
            r matches Some(g) ==> first_group(self@.attribute_groups, DelimiterTag::JobAttributes)
                == Some(g@),
            r is None ==> first_group(
                self@.attribute_groups,
                DelimiterTag::JobAttributes,
            ) is None,
    {
        self.find_group(DelimiterTag::JobAttributes)
    }

    /// The string held by the first value of attribute `name` in the first `group` group,
    /// when that value is of a string kind.
    pub fn get_attr_str<'a>(&'a self, group: DelimiterTag, name: &str) -> (r: Option<&'a str>)
        ensures
            r matches Some(s) ==> request_attr_str(self@, group, name@) == Some(s@),
            r is None ==> request_attr_str(self@, group, name@) is None,
    {
        match self.find_group(group) {
            None => None,
            Some(g) => match g.get(name) {
                None => None,
                Some(v) => match v {
                    IppValue::TextWithoutLanguage(s) => Some(s.as_str()),
                    IppValue::NameWithoutLanguage(s) => Some(s.as_str()),
                    IppValue::Keyword(s) => Some(s.as_str()),
                    IppValue::Uri(s) => Some(s.as_str()),
                    IppValue::Charset(s) => Some(s.as_str()),
                    IppValue::MimeMediaType(s) => Some(s.as_str()),
                    IppValue::NaturalLanguage(s) => Some(s.as_str()),
                    _ => None,
                },
            },
        }
    }
}

/// A built IPP response
#[derive(Debug, Clone)]
pub struct IppResponse {
    pub version: IppVersion,
    pub status_code: IppStatusCode,
    pub request_id: u32,
    pub attribute_groups: Vec<IppAttributeGroup>,
}

impl View for IppResponse {
    type V = ResponseV;

    open spec fn view(&self) -> ResponseV {
        ResponseV {
            version: self.version,
            status_code: self.status_code,
            request_id: self.request_id,
            attribute_groups: groups_view(self.attribute_groups@),
        }
    }
}

} // verus!

verus! {

/// Reading an operation from any code and writing it back gives the code.
pub proof fn lemma_operation_code_roundtrip(v: u16)
    ensures
        operation_code(operation_from_code(v)) == v,
{
}

/// Writing an operation's code and reading it back gives the operation, unless it is an
/// `Unknown` that carries the code of a known operation.
pub proof fn lemma_operation_roundtrip(op: IppOperationId)
    requires
        op matches IppOperationId::Unknown(v) ==> operation_from_code(v) == IppOperationId::Unknown(
            v,
        ),
    ensures
        operation_from_code(operation_code(op)) == op,
{
}

/// Writing a delimiter's byte and reading it back gives the delimiter.
pub proof fn lemma_delimiter_roundtrip(d: DelimiterTag)
    ensures
        delimiter_from_byte(delimiter_byte(d)) == Some(d),
{
}

/// Writing a value tag's byte and reading it back gives the tag.
pub proof fn lemma_value_tag_roundtrip(t: ValueTag)
    ensures
        value_tag_from_byte(value_tag_byte(t)) == Some(t),
{
}

} // verus!

verus! {

/// The operation codes are those RFC 8011 assigns (5.4.15): 0x0002 Print-Job, 0x0003
/// Print-URI, 0x0004 Validate-Job, 0x0005 Create-Job, 0x0006 Send-Document, 0x0008
/// Cancel-Job, 0x0009 Get-Job-Attributes, 0x000A Get-Jobs, 0x000B Get-Printer-Attributes,
/// 0x000C Hold-Job, 0x000D Release-Job, 0x000E Restart-Job, 0x0010 Pause-Printer, 0x0011
/// Resume-Printer, 0x0012 Purge-Jobs; any other code is an unknown operation that carries it.
pub proof fn lemma_operation_codes()
    ensures
        operation_from_code(0x0002) == IppOperationId::PrintJob,
        operation_from_code(0x0003) == IppOperationId::PrintUri,
        operation_from_code(0x0004) == IppOperationId::ValidateJob,
        operation_from_code(0x0005) == IppOperationId::CreateJob,
        operation_from_code(0x0006) == IppOperationId::SendDocument,
        operation_from_code(0x0008) == IppOperationId::CancelJob,
        operation_from_code(0x0009) == IppOperationId::GetJobAttributes,
        operation_from_code(0x000A) == IppOperationId::GetJobs,
        operation_from_code(0x000B) == IppOperationId::GetPrinterAttributes,
        operation_from_code(0x000C) == IppOperationId::HoldJob,
        operation_from_code(0x000D) == IppOperationId::ReleaseJob,
        operation_from_code(0x000E) == IppOperationId::RestartJob,
        operation_from_code(0x0010) == IppOperationId::PausePrinter,
        operation_from_code(0x0011) == IppOperationId::ResumePrinter,
        operation_from_code(0x0012) == IppOperationId::PurgeJobs,
        operation_code(IppOperationId::PrintJob) == 0x0002,
        operation_code(IppOperationId::PrintUri) == 0x0003,
        operation_code(IppOperationId::ValidateJob) == 0x0004,
        operation_code(IppOperationId::CreateJob) == 0x0005,
        operation_code(IppOperationId::SendDocument) == 0x0006,
        operation_code(IppOperationId::CancelJob) == 0x0008,
        operation_code(IppOperationId::GetJobAttributes) == 0x0009,
        operation_code(IppOperationId::GetJobs) == 0x000A,
        operation_code(IppOperationId::GetPrinterAttributes) == 0x000B,
        operation_code(IppOperationId::HoldJob) == 0x000C,
        operation_code(IppOperationId::ReleaseJob) == 0x000D,
        operation_code(IppOperationId::RestartJob) == 0x000E,
        operation_code(IppOperationId::PausePrinter) == 0x0010,
        operation_code(IppOperationId::ResumePrinter) == 0x0011,
        operation_code(IppOperationId::PurgeJobs) == 0x0012,
        forall|v: u16| #![trigger operation_from_code(v)]
            v != 0x0002 && v != 0x0003 && v != 0x0004 && v != 0x0005 && v != 0x0006 && v != 0x0008 && v != 0x0009 && v != 0x000A && v != 0x000B && v != 0x000C && v != 0x000D && v != 0x000E && v != 0x0010 && v != 0x0011 && v != 0x0012 ==> operation_from_code(v) == IppOperationId::Unknown(v),
{
}

/// The status codes are those RFC 8011 assigns (Appendix B): successful-ok 0x0000,
/// client errors from 0x0400, server errors from 0x0500.
pub proof fn lemma_status_codes()
    ensures
        status_code(IppStatusCode::SuccessfulOk) == 0x0000,
        status_code(IppStatusCode::SuccessfulOkIgnoredOrSubstituted) == 0x0001,
        status_code(IppStatusCode::SuccessfulOkConflictingAttributes) == 0x0002,
        status_code(IppStatusCode::ClientErrorBadRequest) == 0x0400,
        status_code(IppStatusCode::ClientErrorForbidden) == 0x0401,
        status_code(IppStatusCode::ClientErrorNotAuthenticated) == 0x0402,
        status_code(IppStatusCode::ClientErrorNotAuthorized) == 0x0403,
        status_code(IppStatusCode::ClientErrorNotPossible) == 0x0404,
        status_code(IppStatusCode::ClientErrorTimeout) == 0x0405,
        status_code(IppStatusCode::ClientErrorNotFound) == 0x0406,
        status_code(IppStatusCode::ClientErrorGone) == 0x0407,
        status_code(IppStatusCode::ClientErrorRequestEntityTooLarge) == 0x0408,
        status_code(IppStatusCode::ClientErrorRequestValueTooLong) == 0x0409,
        status_code(IppStatusCode::ClientErrorDocumentFormatNotSupported) == 0x040A,
        status_code(IppStatusCode::ClientErrorAttributesOrValuesNotSupported) == 0x040B,
        status_code(IppStatusCode::ClientErrorUriSchemeNotSupported) == 0x040C,
        status_code(IppStatusCode::ClientErrorCharsetNotSupported) == 0x040D,
        status_code(IppStatusCode::ClientErrorConflictingAttributes) == 0x040E,
        status_code(IppStatusCode::ServerErrorInternalError) == 0x0500,
        status_code(IppStatusCode::ServerErrorOperationNotSupported) == 0x0501,
        status_code(IppStatusCode::ServerErrorServiceUnavailable) == 0x0502,
        status_code(IppStatusCode::ServerErrorVersionNotSupported) == 0x0503,
        status_code(IppStatusCode::ServerErrorDeviceError) == 0x0504,
        status_code(IppStatusCode::ServerErrorTemporaryError) == 0x0505,
        status_code(IppStatusCode::ServerErrorNotAcceptingJobs) == 0x0506,
        status_code(IppStatusCode::ServerErrorBusy) == 0x0507,
        status_code(IppStatusCode::ServerErrorJobCanceled) == 0x0508,
        status_code(IppStatusCode::ServerErrorMultipleDocumentJobsNotSupported) == 0x0509,
{
}

} // verus!
