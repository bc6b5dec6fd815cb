use vstd::prelude::*;

verus! {

/// The protocol version carried in record headers and hello messages.
#[allow(non_camel_case_types)]
#[derive(Clone, Copy, Debug, PartialEq, Eq, Structural)]
pub enum ProtocolVersion {
    SSLv2,
    SSLv3,
    TLSv1_0,
    TLSv1_1,
    TLSv1_2,
    TLSv1_3,
    Unknown(u16),
}

impl ProtocolVersion {
    /// The value this item has on the wire.
    pub open spec fn wire(self) -> u16 {
        match self {
            ProtocolVersion::SSLv2 => 0x0200,
            ProtocolVersion::SSLv3 => 0x0300,
            ProtocolVersion::TLSv1_0 => 0x0301,
            ProtocolVersion::TLSv1_1 => 0x0302,
            ProtocolVersion::TLSv1_2 => 0x0303,
            ProtocolVersion::TLSv1_3 => 0x0304,
            ProtocolVersion::Unknown(x) => x,
        }
    }

    /// The item that a wire value stands for; values without a name of their own map to `Unknown`.
    pub open spec fn of_wire(x: u16) -> ProtocolVersion {
        if x == 0x0200 {
            ProtocolVersion::SSLv2
        } else if x == 0x0300 {
            ProtocolVersion::SSLv3
        } else if x == 0x0301 {
            ProtocolVersion::TLSv1_0
        } else if x == 0x0302 {
            ProtocolVersion::TLSv1_1
        } else if x == 0x0303 {
            ProtocolVersion::TLSv1_2
        } else if x == 0x0304 {
            ProtocolVersion::TLSv1_3
        } else {
            ProtocolVersion::Unknown(x)
        }
    }

    /// True when the value is not an `Unknown` that shadows a named item.
    pub open spec fn canonical(self) -> bool {
        ProtocolVersion::of_wire(self.wire()) == self
    }

    /// The value this item has on the wire.
    pub fn get_u16(self) -> (r: u16)
        ensures
            r == self.wire(),
    {
        match self {
            ProtocolVersion::SSLv2 => 0x0200,
            ProtocolVersion::SSLv3 => 0x0300,
            ProtocolVersion::TLSv1_0 => 0x0301,
            ProtocolVersion::TLSv1_1 => 0x0302,
            ProtocolVersion::TLSv1_2 => 0x0303,
            ProtocolVersion::TLSv1_3 => 0x0304,
            ProtocolVersion::Unknown(x) => x,
        }
    }

    /// The item that a wire value stands for.
    pub fn from_u16(x: u16) -> (r: ProtocolVersion)
        ensures
            r == ProtocolVersion::of_wire(x),
            r.wire() == x,
            r.canonical(),
    {
        if x == 0x0200 {
            ProtocolVersion::SSLv2
        } else if x == 0x0300 {
            ProtocolVersion::SSLv3
        } else if x == 0x0301 {
            ProtocolVersion::TLSv1_0
        } else if x == 0x0302 {
            ProtocolVersion::TLSv1_1
        } else if x == 0x0303 {
            ProtocolVersion::TLSv1_2
        } else if x == 0x0304 {
            ProtocolVersion::TLSv1_3
        } else {
            ProtocolVersion::Unknown(x)
        }
    }
}

/// The content type of a record.
#[derive(Clone, Copy, Debug, PartialEq, Eq, Structural)]
pub enum ContentType {
    ChangeCipherSpec,
    Alert,
    Handshake,
    ApplicationData,
    Heartbeat,
    Unknown(u8),
}

impl ContentType {
    /// The value this item has on the wire.
    pub open spec fn wire(self) -> u8 {
        match self {
            ContentType::ChangeCipherSpec => 0x14,
            ContentType::Alert => 0x15,
            ContentType::Handshake => 0x16,
            ContentType::ApplicationData => 0x17,
            ContentType::Heartbeat => 0x18,
            ContentType::Unknown(x) => x,
        }
    }

    /// The item that a wire value stands for; values without a name of their own map to `Unknown`.
    pub open spec fn of_wire(x: u8) -> ContentType {
        if x == 0x14 {
            ContentType::ChangeCipherSpec
        } else if x == 0x15 {
            ContentType::Alert
        } else if x == 0x16 {
            ContentType::Handshake
        } else if x == 0x17 {
            ContentType::ApplicationData
        } else if x == 0x18 {
            ContentType::Heartbeat
        } else {
            ContentType::Unknown(x)
        }
    }

    /// True when the value is not an `Unknown` that shadows a named item.
    pub open spec fn canonical(self) -> bool {
        ContentType::of_wire(self.wire()) == self
    }

    /// The value this item has on the wire.
    pub fn get_u8(self) -> (r: u8)
        ensures
            r == self.wire(),
    {
        match self {
            ContentType::ChangeCipherSpec => 0x14,
            ContentType::Alert => 0x15,
            ContentType::Handshake => 0x16,
            ContentType::ApplicationData => 0x17,
            ContentType::Heartbeat => 0x18,
            ContentType::Unknown(x) => x,
        }
    }

    /// The item that a wire value stands for.
    pub fn from_u8(x: u8) -> (r: ContentType)
        ensures
            r == ContentType::of_wire(x),
            r.wire() == x,
            r.canonical(),
    {
        if x == 0x14 {
            ContentType::ChangeCipherSpec
        } else if x == 0x15 {
            ContentType::Alert
        } else if x == 0x16 {
            ContentType::Handshake
        } else if x == 0x17 {
            ContentType::ApplicationData
        } else if x == 0x18 {
            ContentType::Heartbeat
        } else {
            ContentType::Unknown(x)
        }
    }
}

/// The type of a handshake message.
#[derive(Clone, Copy, Debug, PartialEq, Eq, Structural)]
pub enum HandshakeType {
    HelloRequest,
    ClientHello,
    ServerHello,
    NewSessionTicket,
    EndOfEarlyData,
    HelloRetryRequest,
    EncryptedExtensions,
    Certificate,
    ServerKeyExchange,
    CertificateRequest,
    ServerHelloDone,
    CertificateVerify,
    ClientKeyExchange,
    Finished,
    CertificateURL,
    CertificateStatus,
    KeyUpdate,
    MessageHash,
    Unknown(u8),
}

impl HandshakeType {
    /// The value this item has on the wire.
    pub open spec fn wire(self) -> u8 {
        match self {
            HandshakeType::HelloRequest => 0x00,
            HandshakeType::ClientHello => 0x01,
            HandshakeType::ServerHello => 0x02,
            HandshakeType::NewSessionTicket => 0x04,
            HandshakeType::EndOfEarlyData => 0x05,
            HandshakeType::HelloRetryRequest => 0x06,
            HandshakeType::EncryptedExtensions => 0x08,
            HandshakeType::Certificate => 0x0b,
            HandshakeType::ServerKeyExchange => 0x0c,
            HandshakeType::CertificateRequest => 0x0d,
            HandshakeType::ServerHelloDone => 0x0e,
            HandshakeType::CertificateVerify => 0x0f,
            HandshakeType::ClientKeyExchange => 0x10,
            HandshakeType::Finished => 0x14,
            HandshakeType::CertificateURL => 0x15,
            HandshakeType::CertificateStatus => 0x16,
            HandshakeType::KeyUpdate => 0x18,
            HandshakeType::MessageHash => 0xfe,
            HandshakeType::Unknown(x) => x,
        }
    }

    /// The item that a wire value stands for; values without a name of their own map to `Unknown`.
    pub open spec fn of_wire(x: u8) -> HandshakeType {
        if x == 0x00 {
            HandshakeType::HelloRequest
        } else if x == 0x01 {
            HandshakeType::ClientHello
        } else if x == 0x02 {
            HandshakeType::ServerHello
        } else if x == 0x04 {
            HandshakeType::NewSessionTicket
        } else if x == 0x05 {
            HandshakeType::EndOfEarlyData
        } else if x == 0x06 {
            HandshakeType::HelloRetryRequest
        } else if x == 0x08 {
            HandshakeType::EncryptedExtensions
        } else if x == 0x0b {
            HandshakeType::Certificate
        } else if x == 0x0c {
            HandshakeType::ServerKeyExchange
        } else if x == 0x0d {
            HandshakeType::CertificateRequest
        } else if x == 0x0e {
            HandshakeType::ServerHelloDone
        } else if x == 0x0f {
            HandshakeType::CertificateVerify
        } else if x == 0x10 {
            HandshakeType::ClientKeyExchange
        } else if x == 0x14 {
            HandshakeType::Finished
        } else if x == 0x15 {
            HandshakeType::CertificateURL
        } else if x == 0x16 {
            HandshakeType::CertificateStatus
        } else if x == 0x18 {
            HandshakeType::KeyUpdate
        } else if x == 0xfe {
            HandshakeType::MessageHash
        } else {
            HandshakeType::Unknown(x)
        }
    }

    /// True when the value is not an `Unknown` that shadows a named item.
    pub open spec fn canonical(self) -> bool {
        HandshakeType::of_wire(self.wire()) == self
    }

    /// The value this item has on the wire.
    pub fn get_u8(self) -> (r: u8)
        ensures
            r == self.wire(),
    {
        match self {
            HandshakeType::HelloRequest => 0x00,
            HandshakeType::ClientHello => 0x01,
            HandshakeType::ServerHello => 0x02,
            HandshakeType::NewSessionTicket => 0x04,
            HandshakeType::EndOfEarlyData => 0x05,
            HandshakeType::HelloRetryRequest => 0x06,
            HandshakeType::EncryptedExtensions => 0x08,
            HandshakeType::Certificate => 0x0b,
            HandshakeType::ServerKeyExchange => 0x0c,
            HandshakeType::CertificateRequest => 0x0d,
            HandshakeType::ServerHelloDone => 0x0e,
            HandshakeType::CertificateVerify => 0x0f,
            HandshakeType::ClientKeyExchange => 0x10,
            HandshakeType::Finished => 0x14,
            HandshakeType::CertificateURL => 0x15,
            HandshakeType::CertificateStatus => 0x16,
            HandshakeType::KeyUpdate => 0x18,
            HandshakeType::MessageHash => 0xfe,
            HandshakeType::Unknown(x) => x,
        }
    }

    /// The item that a wire value stands for.
    pub fn from_u8(x: u8) -> (r: HandshakeType)
        ensures
            r == HandshakeType::of_wire(x),
            r.wire() == x,
            r.canonical(),
    {
        if x == 0x00 {
            HandshakeType::HelloRequest
        } else if x == 0x01 {
            HandshakeType::ClientHello
        } else if x == 0x02 {
            HandshakeType::ServerHello
        } else if x == 0x04 {
            HandshakeType::NewSessionTicket
        } else if x == 0x05 {
            HandshakeType::EndOfEarlyData
        } else if x == 0x06 {
            HandshakeType::HelloRetryRequest
        } else if x == 0x08 {
            HandshakeType::EncryptedExtensions
        } else if x == 0x0b {
            HandshakeType::Certificate
        } else if x == 0x0c {
            HandshakeType::ServerKeyExchange
        } else if x == 0x0d {
            HandshakeType::CertificateRequest
        } else if x == 0x0e {
            HandshakeType::ServerHelloDone
        } else if x == 0x0f {
            HandshakeType::CertificateVerify
        } else if x == 0x10 {
            HandshakeType::ClientKeyExchange
        } else if x == 0x14 {
            HandshakeType::Finished
        } else if x == 0x15 {
            HandshakeType::CertificateURL
        } else if x == 0x16 {
            HandshakeType::CertificateStatus
        } else if x == 0x18 {
            HandshakeType::KeyUpdate
        } else if x == 0xfe {
            HandshakeType::MessageHash
        } else {
            HandshakeType::Unknown(x)
        }
    }
}

/// The severity of an alert.
#[derive(Clone, Copy, Debug, PartialEq, Eq, Structural)]
pub enum AlertLevel {
    Warning,
    Fatal,
    Unknown(u8),
}

impl AlertLevel {
    /// The value this item has on the wire.
    pub open spec fn wire(self) -> u8 {
        match self {
            AlertLevel::Warning => 0x01,
            AlertLevel::Fatal => 0x02,
            AlertLevel::Unknown(x) => x,
        }
    }

    /// The item that a wire value stands for; values without a name of their own map to `Unknown`.
    pub open spec fn of_wire(x: u8) -> AlertLevel {
        if x == 0x01 {
            AlertLevel::Warning
        } else if x == 0x02 {
            AlertLevel::Fatal
        } else {
            AlertLevel::Unknown(x)
        }
    }

    /// True when the value is not an `Unknown` that shadows a named item.
    pub open spec fn canonical(self) -> bool {
        AlertLevel::of_wire(self.wire()) == self
    }

    /// The value this item has on the wire.
    pub fn get_u8(self) -> (r: u8)
        ensures
            r == self.wire(),
    {
        match self {
            AlertLevel::Warning => 0x01,
            AlertLevel::Fatal => 0x02,
            AlertLevel::Unknown(x) => x,
        }
    }

    /// The item that a wire value stands for.
    pub fn from_u8(x: u8) -> (r: AlertLevel)
        ensures
            r == AlertLevel::of_wire(x),
            r.wire() == x,
            r.canonical(),
    {
        if x == 0x01 {
            AlertLevel::Warning
        } else if x == 0x02 {
            AlertLevel::Fatal
        } else {
            AlertLevel::Unknown(x)
        }
    }
}

/// What an alert reports.
#[derive(Clone, Copy, Debug, PartialEq, Eq, Structural)]
pub enum AlertDescription {
    CloseNotify,
    UnexpectedMessage,
    BadRecordMac,
    DecryptionFailed,
    RecordOverflow,
    DecompressionFailure,
    HandshakeFailure,
    NoCertificate,
    BadCertificate,
    UnsupportedCertificate,
    CertificateRevoked,
    CertificateExpired,
    CertificateUnknown,
    IllegalParameter,
    UnknownCA,
    AccessDenied,
    DecodeError,
    DecryptError,
    ExportRestriction,
    ProtocolVersion,
    InsufficientSecurity,
    InternalError,
    InappropriateFallback,
    UserCanceled,
    NoRenegotiation,
    MissingExtension,
    UnsupportedExtension,
    CertificateUnobtainable,
    UnrecognisedName,
    BadCertificateStatusResponse,
    BadCertificateHashValue,
    UnknownPSKIdentity,
    CertificateRequired,
    NoApplicationProtocol,
    Unknown(u8),
}

impl AlertDescription {
    /// The value this item has on the wire.
    pub open spec fn wire(self) -> u8 {
        match self {
            AlertDescription::CloseNotify => 0x00,
            AlertDescription::UnexpectedMessage => 0x0a,
            AlertDescription::BadRecordMac => 0x14,
            AlertDescription::DecryptionFailed => 0x15,
            AlertDescription::RecordOverflow => 0x16,
            AlertDescription::DecompressionFailure => 0x1e,
            AlertDescription::HandshakeFailure => 0x28,
            AlertDescription::NoCertificate => 0x29,
            AlertDescription::BadCertificate => 0x2a,
            AlertDescription::UnsupportedCertificate => 0x2b,
            AlertDescription::CertificateRevoked => 0x2c,
            AlertDescription::CertificateExpired => 0x2d,
            AlertDescription::CertificateUnknown => 0x2e,
            AlertDescription::IllegalParameter => 0x2f,
            AlertDescription::UnknownCA => 0x30,
            AlertDescription::AccessDenied => 0x31,
            AlertDescription::DecodeError => 0x32,
            AlertDescription::DecryptError => 0x33,
            AlertDescription::ExportRestriction => 0x3c,
            AlertDescription::ProtocolVersion => 0x46,
            AlertDescription::InsufficientSecurity => 0x47,
            AlertDescription::InternalError => 0x50,
            AlertDescription::InappropriateFallback => 0x56,
            AlertDescription::UserCanceled => 0x5a,
            AlertDescription::NoRenegotiation => 0x64,
            AlertDescription::MissingExtension => 0x6d,
            AlertDescription::UnsupportedExtension => 0x6e,
            AlertDescription::CertificateUnobtainable => 0x6f,
            AlertDescription::UnrecognisedName => 0x70,
            AlertDescription::BadCertificateStatusResponse => 0x71,
            AlertDescription::BadCertificateHashValue => 0x72,
            AlertDescription::UnknownPSKIdentity => 0x73,
            AlertDescription::CertificateRequired => 0x74,
            AlertDescription::NoApplicationProtocol => 0x78,
            AlertDescription::Unknown(x) => x,
        }
    }

    /// The item that a wire value stands for; values without a name of their own map to `Unknown`.
    pub open spec fn of_wire(x: u8) -> AlertDescription {
        if x == 0x00 {
            AlertDescription::CloseNotify
        } else if x == 0x0a {
            AlertDescription::UnexpectedMessage
        } else if x == 0x14 {
            AlertDescription::BadRecordMac
        } else if x == 0x15 {
            AlertDescription::DecryptionFailed
        } else if x == 0x16 {
            AlertDescription::RecordOverflow
        } else if x == 0x1e {
            AlertDescription::DecompressionFailure
        } else if x == 0x28 {
            AlertDescription::HandshakeFailure
        } else if x == 0x29 {
            AlertDescription::NoCertificate
        } else if x == 0x2a {
            AlertDescription::BadCertificate
        } else if x == 0x2b {
            AlertDescription::UnsupportedCertificate
        } else if x == 0x2c {
            AlertDescription::CertificateRevoked
        } else if x == 0x2d {
            AlertDescription::CertificateExpired
        } else if x == 0x2e {
            AlertDescription::CertificateUnknown
        } else if x == 0x2f {
            AlertDescription::IllegalParameter
        } else if x == 0x30 {
            AlertDescription::UnknownCA
        } else if x == 0x31 {
            AlertDescription::AccessDenied
        } else if x == 0x32 {
            AlertDescription::DecodeError
        } else if x == 0x33 {
            AlertDescription::DecryptError
        } else if x == 0x3c {
            AlertDescription::ExportRestriction
        } else if x == 0x46 {
            AlertDescription::ProtocolVersion
        } else if x == 0x47 {
            AlertDescription::InsufficientSecurity
        } else if x == 0x50 {
            AlertDescription::InternalError
        } else if x == 0x56 {
            AlertDescription::InappropriateFallback
        } else if x == 0x5a {
            AlertDescription::UserCanceled
        } else if x == 0x64 {
            AlertDescription::NoRenegotiation
        } else if x == 0x6d {
            AlertDescription::MissingExtension
        } else if x == 0x6e {
            AlertDescription::UnsupportedExtension
        } else if x == 0x6f {
            AlertDescription::CertificateUnobtainable
        } else if x == 0x70 {
            AlertDescription::UnrecognisedName
        } else if x == 0x71 {
            AlertDescription::BadCertificateStatusResponse
        } else if x == 0x72 {
            AlertDescription::BadCertificateHashValue
        } else if x == 0x73 {
            AlertDescription::UnknownPSKIdentity
        } else if x == 0x74 {
            AlertDescription::CertificateRequired
        } else if x == 0x78 {
            AlertDescription::NoApplicationProtocol
        } else {
            AlertDescription::Unknown(x)
        }
    }

    /// True when the value is not an `Unknown` that shadows a named item.
    pub open spec fn canonical(self) -> bool {
        AlertDescription::of_wire(self.wire()) == self
    }

    /// The value this item has on the wire.
    pub fn get_u8(self) -> (r: u8)
        ensures
            r == self.wire(),
    {
        match self {
            AlertDescription::CloseNotify => 0x00,
            AlertDescription::UnexpectedMessage => 0x0a,
            AlertDescription::BadRecordMac => 0x14,
            AlertDescription::DecryptionFailed => 0x15,
            AlertDescription::RecordOverflow => 0x16,
            AlertDescription::DecompressionFailure => 0x1e,
            AlertDescription::HandshakeFailure => 0x28,
            AlertDescription::NoCertificate => 0x29,
            AlertDescription::BadCertificate => 0x2a,
            AlertDescription::UnsupportedCertificate => 0x2b,
            AlertDescription::CertificateRevoked => 0x2c,
            AlertDescription::CertificateExpired => 0x2d,
            AlertDescription::CertificateUnknown => 0x2e,
            AlertDescription::IllegalParameter => 0x2f,
            AlertDescription::UnknownCA => 0x30,
            AlertDescription::AccessDenied => 0x31,
            AlertDescription::DecodeError => 0x32,
            AlertDescription::DecryptError => 0x33,
            AlertDescription::ExportRestriction => 0x3c,
            AlertDescription::ProtocolVersion => 0x46,
            AlertDescription::InsufficientSecurity => 0x47,
            AlertDescription::InternalError => 0x50,
            AlertDescription::InappropriateFallback => 0x56,
            AlertDescription::UserCanceled => 0x5a,
            AlertDescription::NoRenegotiation => 0x64,
            AlertDescription::MissingExtension => 0x6d,
            AlertDescription::UnsupportedExtension => 0x6e,
            AlertDescription::CertificateUnobtainable => 0x6f,
            AlertDescription::UnrecognisedName => 0x70,
            AlertDescription::BadCertificateStatusResponse => 0x71,
            AlertDescription::BadCertificateHashValue => 0x72,
            AlertDescription::UnknownPSKIdentity => 0x73,
            AlertDescription::CertificateRequired => 0x74,
            AlertDescription::NoApplicationProtocol => 0x78,
            AlertDescription::Unknown(x) => x,
        }
    }

    /// The item that a wire value stands for.
    pub fn from_u8(x: u8) -> (r: AlertDescription)
        ensures
            r == AlertDescription::of_wire(x),
            r.wire() == x,
            r.canonical(),
    {
        if x == 0x00 {
            AlertDescription::CloseNotify
        } else if x == 0x0a {
            AlertDescription::UnexpectedMessage
        } else if x == 0x14 {
            AlertDescription::BadRecordMac
        } else if x == 0x15 {
            AlertDescription::DecryptionFailed
        } else if x == 0x16 {
            AlertDescription::RecordOverflow
        } else if x == 0x1e {
            AlertDescription::DecompressionFailure
        } else if x == 0x28 {
            AlertDescription::HandshakeFailure
        } else if x == 0x29 {
            AlertDescription::NoCertificate
        } else if x == 0x2a {
            AlertDescription::BadCertificate
        } else if x == 0x2b {
            AlertDescription::UnsupportedCertificate
        } else if x == 0x2c {
            AlertDescription::CertificateRevoked
        } else if x == 0x2d {
            AlertDescription::CertificateExpired
        } else if x == 0x2e {
            AlertDescription::CertificateUnknown
        } else if x == 0x2f {
            AlertDescription::IllegalParameter
        } else if x == 0x30 {
            AlertDescription::UnknownCA
        } else if x == 0x31 {
            AlertDescription::AccessDenied
        } else if x == 0x32 {
            AlertDescription::DecodeError
        } else if x == 0x33 {
            AlertDescription::DecryptError
        } else if x == 0x3c {
            AlertDescription::ExportRestriction
        } else if x == 0x46 {
            AlertDescription::ProtocolVersion
        } else if x == 0x47 {
            AlertDescription::InsufficientSecurity
        } else if x == 0x50 {
            AlertDescription::InternalError
        } else if x == 0x56 {
            AlertDescription::InappropriateFallback
        } else if x == 0x5a {
            AlertDescription::UserCanceled
        } else if x == 0x64 {
            AlertDescription::NoRenegotiation
        } else if x == 0x6d {
            AlertDescription::MissingExtension
        } else if x == 0x6e {
            AlertDescription::UnsupportedExtension
        } else if x == 0x6f {
            AlertDescription::CertificateUnobtainable
        } else if x == 0x70 {
            AlertDescription::UnrecognisedName
        } else if x == 0x71 {
            AlertDescription::BadCertificateStatusResponse
        } else if x == 0x72 {
            AlertDescription::BadCertificateHashValue
        } else if x == 0x73 {
            AlertDescription::UnknownPSKIdentity
        } else if x == 0x74 {
            AlertDescription::CertificateRequired
        } else if x == 0x78 {
            AlertDescription::NoApplicationProtocol
        } else {
            AlertDescription::Unknown(x)
        }
    }
}

/// The identifier of a cipher suite.
#[allow(non_camel_case_types)]
#[derive(Clone, Copy, Debug, PartialEq, Eq, Structural)]
pub enum CipherSuite {
    TLS_NULL_WITH_NULL_NULL,
    TLS13_AES_128_GCM_SHA256,
    TLS13_AES_256_GCM_SHA384,
    TLS13_CHACHA20_POLY1305_SHA256,
    TLS_ECDHE_ECDSA_WITH_AES_128_GCM_SHA256,
    TLS_ECDHE_ECDSA_WITH_AES_256_GCM_SHA384,
    TLS_ECDHE_RSA_WITH_AES_128_GCM_SHA256,
    TLS_ECDHE_RSA_WITH_AES_256_GCM_SHA384,
    TLS_ECDHE_RSA_WITH_CHACHA20_POLY1305_SHA256,
    TLS_ECDHE_ECDSA_WITH_CHACHA20_POLY1305_SHA256,
    Unknown(u16),
}

impl CipherSuite {
    /// The value this item has on the wire.
    pub open spec fn wire(self) -> u16 {
        match self {
            CipherSuite::TLS_NULL_WITH_NULL_NULL => 0x0000,
            CipherSuite::TLS13_AES_128_GCM_SHA256 => 0x1301,
            CipherSuite::TLS13_AES_256_GCM_SHA384 => 0x1302,
            CipherSuite::TLS13_CHACHA20_POLY1305_SHA256 => 0x1303,
            CipherSuite::TLS_ECDHE_ECDSA_WITH_AES_128_GCM_SHA256 => 0xc02b,
            CipherSuite::TLS_ECDHE_ECDSA_WITH_AES_256_GCM_SHA384 => 0xc02c,
            CipherSuite::TLS_ECDHE_RSA_WITH_AES_128_GCM_SHA256 => 0xc02f,
            CipherSuite::TLS_ECDHE_RSA_WITH_AES_256_GCM_SHA384 => 0xc030,
            CipherSuite::TLS_ECDHE_RSA_WITH_CHACHA20_POLY1305_SHA256 => 0xcca8,
            CipherSuite::TLS_ECDHE_ECDSA_WITH_CHACHA20_POLY1305_SHA256 => 0xcca9,
            CipherSuite::Unknown(x) => x,
        }
    }

    /// The item that a wire value stands for; values without a name of their own map to `Unknown`.
    pub open spec fn of_wire(x: u16) -> CipherSuite {
        if x == 0x0000 {
            CipherSuite::TLS_NULL_WITH_NULL_NULL
        } else if x == 0x1301 {
            CipherSuite::TLS13_AES_128_GCM_SHA256
        } else if x == 0x1302 {
            CipherSuite::TLS13_AES_256_GCM_SHA384
        } else if x == 0x1303 {
            CipherSuite::TLS13_CHACHA20_POLY1305_SHA256
        } else if x == 0xc02b {
            CipherSuite::TLS_ECDHE_ECDSA_WITH_AES_128_GCM_SHA256
        } else if x == 0xc02c {
            CipherSuite::TLS_ECDHE_ECDSA_WITH_AES_256_GCM_SHA384
        } else if x == 0xc02f {
            CipherSuite::TLS_ECDHE_RSA_WITH_AES_128_GCM_SHA256
        } else if x == 0xc030 {
            CipherSuite::TLS_ECDHE_RSA_WITH_AES_256_GCM_SHA384
        } else if x == 0xcca8 {
            CipherSuite::TLS_ECDHE_RSA_WITH_CHACHA20_POLY1305_SHA256
        } else if x == 0xcca9 {
            CipherSuite::TLS_ECDHE_ECDSA_WITH_CHACHA20_POLY1305_SHA256
        } else {
            CipherSuite::Unknown(x)
        }
    }

    /// True when the value is not an `Unknown` that shadows a named item.
    pub open spec fn canonical(self) -> bool {
        CipherSuite::of_wire(self.wire()) == self
    }

    /// The value this item has on the wire.
    pub fn get_u16(self) -> (r: u16)
        ensures
            r == self.wire(),
    {
        match self {
            CipherSuite::TLS_NULL_WITH_NULL_NULL => 0x0000,
            CipherSuite::TLS13_AES_128_GCM_SHA256 => 0x1301,
            CipherSuite::TLS13_AES_256_GCM_SHA384 => 0x1302,
            CipherSuite::TLS13_CHACHA20_POLY1305_SHA256 => 0x1303,
            CipherSuite::TLS_ECDHE_ECDSA_WITH_AES_128_GCM_SHA256 => 0xc02b,
            CipherSuite::TLS_ECDHE_ECDSA_WITH_AES_256_GCM_SHA384 => 0xc02c,
            CipherSuite::TLS_ECDHE_RSA_WITH_AES_128_GCM_SHA256 => 0xc02f,
            CipherSuite::TLS_ECDHE_RSA_WITH_AES_256_GCM_SHA384 => 0xc030,
            CipherSuite::TLS_ECDHE_RSA_WITH_CHACHA20_POLY1305_SHA256 => 0xcca8,
            CipherSuite::TLS_ECDHE_ECDSA_WITH_CHACHA20_POLY1305_SHA256 => 0xcca9,
            CipherSuite::Unknown(x) => x,
        }
    }

    /// The item that a wire value stands for.
    pub fn from_u16(x: u16) -> (r: CipherSuite)
        ensures
            r == CipherSuite::of_wire(x),
            r.wire() == x,
            r.canonical(),
    {
        if x == 0x0000 {
            CipherSuite::TLS_NULL_WITH_NULL_NULL
        } else if x == 0x1301 {
            CipherSuite::TLS13_AES_128_GCM_SHA256
        } else if x == 0x1302 {
            CipherSuite::TLS13_AES_256_GCM_SHA384
        } else if x == 0x1303 {
            CipherSuite::TLS13_CHACHA20_POLY1305_SHA256
        } else if x == 0xc02b {
            CipherSuite::TLS_ECDHE_ECDSA_WITH_AES_128_GCM_SHA256
        } else if x == 0xc02c {
            CipherSuite::TLS_ECDHE_ECDSA_WITH_AES_256_GCM_SHA384
        } else if x == 0xc02f {
            CipherSuite::TLS_ECDHE_RSA_WITH_AES_128_GCM_SHA256
        } else if x == 0xc030 {
            CipherSuite::TLS_ECDHE_RSA_WITH_AES_256_GCM_SHA384
        } else if x == 0xcca8 {
            CipherSuite::TLS_ECDHE_RSA_WITH_CHACHA20_POLY1305_SHA256
        } else if x == 0xcca9 {
            CipherSuite::TLS_ECDHE_ECDSA_WITH_CHACHA20_POLY1305_SHA256
        } else {
            CipherSuite::Unknown(x)
        }
    }
}

/// The public-key family of a signature.
#[derive(Clone, Copy, Debug, PartialEq, Eq, Structural)]
pub enum SignatureAlgorithm {
    Anonymous,
    RSA,
    DSA,
    ECDSA,
    ED25519,
    ED448,
    Unknown(u8),
}

impl SignatureAlgorithm {
    /// The value this item has on the wire.
    pub open spec fn wire(self) -> u8 {
        match self {
            SignatureAlgorithm::Anonymous => 0x00,
            SignatureAlgorithm::RSA => 0x01,
            SignatureAlgorithm::DSA => 0x02,
            SignatureAlgorithm::ECDSA => 0x03,
            SignatureAlgorithm::ED25519 => 0x07,
            SignatureAlgorithm::ED448 => 0x08,
            SignatureAlgorithm::Unknown(x) => x,
        }
    }

    /// The item that a wire value stands for; values without a name of their own map to `Unknown`.
    pub open spec fn of_wire(x: u8) -> SignatureAlgorithm {
        if x == 0x00 {
            SignatureAlgorithm::Anonymous
        } else if x == 0x01 {
            SignatureAlgorithm::RSA
        } else if x == 0x02 {
            SignatureAlgorithm::DSA
        } else if x == 0x03 {
            SignatureAlgorithm::ECDSA
        } else if x == 0x07 {
            SignatureAlgorithm::ED25519
        } else if x == 0x08 {
            SignatureAlgorithm::ED448
        } else {
            SignatureAlgorithm::Unknown(x)
        }
    }

    /// True when the value is not an `Unknown` that shadows a named item.
    pub open spec fn canonical(self) -> bool {
        SignatureAlgorithm::of_wire(self.wire()) == self
    }

    /// The value this item has on the wire.
    pub fn get_u8(self) -> (r: u8)
        ensures
            r == self.wire(),
    {
        match self {
            SignatureAlgorithm::Anonymous => 0x00,
            SignatureAlgorithm::RSA => 0x01,
            SignatureAlgorithm::DSA => 0x02,
            SignatureAlgorithm::ECDSA => 0x03,
            SignatureAlgorithm::ED25519 => 0x07,
            SignatureAlgorithm::ED448 => 0x08,
            SignatureAlgorithm::Unknown(x) => x,
        }
    }

    /// The item that a wire value stands for.
    pub fn from_u8(x: u8) -> (r: SignatureAlgorithm)
        ensures
            r == SignatureAlgorithm::of_wire(x),
            r.wire() == x,
            r.canonical(),
    {
        if x == 0x00 {
            SignatureAlgorithm::Anonymous
        } else if x == 0x01 {
            SignatureAlgorithm::RSA
        } else if x == 0x02 {
            SignatureAlgorithm::DSA
        } else if x == 0x03 {
            SignatureAlgorithm::ECDSA
        } else if x == 0x07 {
            SignatureAlgorithm::ED25519
        } else if x == 0x08 {
            SignatureAlgorithm::ED448
        } else {
            SignatureAlgorithm::Unknown(x)
        }
    }
}

/// A signature scheme: a public-key family together with its hash or padding.
#[allow(non_camel_case_types)]
#[derive(Clone, Copy, Debug, PartialEq, Eq, Structural)]
pub enum SignatureScheme {
    RSA_PKCS1_SHA1,
    ECDSA_SHA1_Legacy,
    RSA_PKCS1_SHA256,
    ECDSA_NISTP256_SHA256,
    RSA_PKCS1_SHA384,
    ECDSA_NISTP384_SHA384,
    RSA_PKCS1_SHA512,
    ECDSA_NISTP521_SHA512,
    RSA_PSS_SHA256,
    RSA_PSS_SHA384,
    RSA_PSS_SHA512,
    ED25519,
    ED448,
    Unknown(u16),
}

impl SignatureScheme {
    /// The value this item has on the wire.
    pub open spec fn wire(self) -> u16 {
        match self {
            SignatureScheme::RSA_PKCS1_SHA1 => 0x0201,
            SignatureScheme::ECDSA_SHA1_Legacy => 0x0203,
            SignatureScheme::RSA_PKCS1_SHA256 => 0x0401,
            SignatureScheme::ECDSA_NISTP256_SHA256 => 0x0403,
            SignatureScheme::RSA_PKCS1_SHA384 => 0x0501,
            SignatureScheme::ECDSA_NISTP384_SHA384 => 0x0503,
            SignatureScheme::RSA_PKCS1_SHA512 => 0x0601,
            SignatureScheme::ECDSA_NISTP521_SHA512 => 0x0603,
            SignatureScheme::RSA_PSS_SHA256 => 0x0804,
            SignatureScheme::RSA_PSS_SHA384 => 0x0805,
            SignatureScheme::RSA_PSS_SHA512 => 0x0806,
            SignatureScheme::ED25519 => 0x0807,
            SignatureScheme::ED448 => 0x0808,
            SignatureScheme::Unknown(x) => x,
        }
    }

    /// The item that a wire value stands for; values without a name of their own map to `Unknown`.
    pub open spec fn of_wire(x: u16) -> SignatureScheme {
        if x == 0x0201 {
            SignatureScheme::RSA_PKCS1_SHA1
        } else if x == 0x0203 {
            SignatureScheme::ECDSA_SHA1_Legacy
        } else if x == 0x0401 {
            SignatureScheme::RSA_PKCS1_SHA256
        } else if x == 0x0403 {
            SignatureScheme::ECDSA_NISTP256_SHA256
        } else if x == 0x0501 {
            SignatureScheme::RSA_PKCS1_SHA384
        } else if x == 0x0503 {
            SignatureScheme::ECDSA_NISTP384_SHA384
        } else if x == 0x0601 {
            SignatureScheme::RSA_PKCS1_SHA512
        } else if x == 0x0603 {
            SignatureScheme::ECDSA_NISTP521_SHA512
        } else if x == 0x0804 {
            SignatureScheme::RSA_PSS_SHA256
        } else if x == 0x0805 {
            SignatureScheme::RSA_PSS_SHA384
        } else if x == 0x0806 {
            SignatureScheme::RSA_PSS_SHA512
        } else if x == 0x0807 {
            SignatureScheme::ED25519
        } else if x == 0x0808 {
            SignatureScheme::ED448
        } else {
            SignatureScheme::Unknown(x)
        }
    }

    /// True when the value is not an `Unknown` that shadows a named item.
    pub open spec fn canonical(self) -> bool {
        SignatureScheme::of_wire(self.wire()) == self
    }

    /// The value this item has on the wire.
    pub fn get_u16(self) -> (r: u16)
        ensures
            r == self.wire(),
    {
        match self {
            SignatureScheme::RSA_PKCS1_SHA1 => 0x0201,
            SignatureScheme::ECDSA_SHA1_Legacy => 0x0203,
            SignatureScheme::RSA_PKCS1_SHA256 => 0x0401,
            SignatureScheme::ECDSA_NISTP256_SHA256 => 0x0403,
            SignatureScheme::RSA_PKCS1_SHA384 => 0x0501,
            SignatureScheme::ECDSA_NISTP384_SHA384 => 0x0503,
            SignatureScheme::RSA_PKCS1_SHA512 => 0x0601,
            SignatureScheme::ECDSA_NISTP521_SHA512 => 0x0603,
            SignatureScheme::RSA_PSS_SHA256 => 0x0804,
            SignatureScheme::RSA_PSS_SHA384 => 0x0805,
            SignatureScheme::RSA_PSS_SHA512 => 0x0806,
            SignatureScheme::ED25519 => 0x0807,
            SignatureScheme::ED448 => 0x0808,
            SignatureScheme::Unknown(x) => x,
        }
    }

    /// The item that a wire value stands for.
    pub fn from_u16(x: u16) -> (r: SignatureScheme)
        ensures
            r == SignatureScheme::of_wire(x),
            r.wire() == x,
            r.canonical(),
    {
        if x == 0x0201 {
            SignatureScheme::RSA_PKCS1_SHA1
        } else if x == 0x0203 {
            SignatureScheme::ECDSA_SHA1_Legacy
        } else if x == 0x0401 {
            SignatureScheme::RSA_PKCS1_SHA256
        } else if x == 0x0403 {
            SignatureScheme::ECDSA_NISTP256_SHA256
        } else if x == 0x0501 {
            SignatureScheme::RSA_PKCS1_SHA384
        } else if x == 0x0503 {
            SignatureScheme::ECDSA_NISTP384_SHA384
        } else if x == 0x0601 {
            SignatureScheme::RSA_PKCS1_SHA512
        } else if x == 0x0603 {
            SignatureScheme::ECDSA_NISTP521_SHA512
        } else if x == 0x0804 {
            SignatureScheme::RSA_PSS_SHA256
        } else if x == 0x0805 {
            SignatureScheme::RSA_PSS_SHA384
        } else if x == 0x0806 {
            SignatureScheme::RSA_PSS_SHA512
        } else if x == 0x0807 {
            SignatureScheme::ED25519
        } else if x == 0x0808 {
            SignatureScheme::ED448
        } else {
            SignatureScheme::Unknown(x)
        }
    }
}

/// A key-exchange group.
#[allow(non_camel_case_types)]
#[derive(Clone, Copy, Debug, PartialEq, Eq, Structural)]
pub enum NamedGroup {
    secp256r1,
    secp384r1,
    secp521r1,
    X25519,
    X448,
    Unknown(u16),
}

impl NamedGroup {
    /// The value this item has on the wire.
    pub open spec fn wire(self) -> u16 {
        match self {
            NamedGroup::secp256r1 => 0x0017,
            NamedGroup::secp384r1 => 0x0018,
            NamedGroup::secp521r1 => 0x0019,
            NamedGroup::X25519 => 0x001d,
            NamedGroup::X448 => 0x001e,
            NamedGroup::Unknown(x) => x,
        }
    }

    /// The item that a wire value stands for; values without a name of their own map to `Unknown`.
    pub open spec fn of_wire(x: u16) -> NamedGroup {
        if x == 0x0017 {
            NamedGroup::secp256r1
        } else if x == 0x0018 {
            NamedGroup::secp384r1
        } else if x == 0x0019 {
            NamedGroup::secp521r1
        } else if x == 0x001d {
            NamedGroup::X25519
        } else if x == 0x001e {
            NamedGroup::X448
        } else {
            NamedGroup::Unknown(x)
        }
    }

    /// True when the value is not an `Unknown` that shadows a named item.
    pub open spec fn canonical(self) -> bool {
        NamedGroup::of_wire(self.wire()) == self
    }

    /// The value this item has on the wire.
    pub fn get_u16(self) -> (r: u16)
        ensures
            r == self.wire(),
    {
        match self {
            NamedGroup::secp256r1 => 0x0017,
            NamedGroup::secp384r1 => 0x0018,
            NamedGroup::secp521r1 => 0x0019,
            NamedGroup::X25519 => 0x001d,
            NamedGroup::X448 => 0x001e,
            NamedGroup::Unknown(x) => x,
        }
    }

    /// The item that a wire value stands for.
    pub fn from_u16(x: u16) -> (r: NamedGroup)
        ensures
            r == NamedGroup::of_wire(x),
            r.wire() == x,
            r.canonical(),
    {
        if x == 0x0017 {
            NamedGroup::secp256r1
        } else if x == 0x0018 {
            NamedGroup::secp384r1
        } else if x == 0x0019 {
            NamedGroup::secp521r1
        } else if x == 0x001d {
            NamedGroup::X25519
        } else if x == 0x001e {
            NamedGroup::X448
        } else {
            NamedGroup::Unknown(x)
        }
    }
}

impl SignatureScheme {
    /// The public-key family that a scheme signs with. Only the RSA and the
    /// NIST-curve ECDSA schemes name one; every other scheme gives `Unknown(0)`.
    pub open spec fn spec_sign(self) -> SignatureAlgorithm {
        match self {
            SignatureScheme::RSA_PKCS1_SHA1
            | SignatureScheme::RSA_PKCS1_SHA256
            | SignatureScheme::RSA_PKCS1_SHA384
            | SignatureScheme::RSA_PKCS1_SHA512
            | SignatureScheme::RSA_PSS_SHA256
            | SignatureScheme::RSA_PSS_SHA384
            | SignatureScheme::RSA_PSS_SHA512 => SignatureAlgorithm::RSA,
            SignatureScheme::ECDSA_NISTP256_SHA256
            | SignatureScheme::ECDSA_NISTP384_SHA384
            | SignatureScheme::ECDSA_NISTP521_SHA512 => SignatureAlgorithm::ECDSA,
            _ => SignatureAlgorithm::Unknown(0),
        }
    }

    #[verifier::when_used_as_spec(spec_sign)]
    pub fn sign(self) -> (r: SignatureAlgorithm)
        ensures
            r == self.spec_sign(),
    {
        match self {
            SignatureScheme::RSA_PKCS1_SHA1
            | SignatureScheme::RSA_PKCS1_SHA256
            | SignatureScheme::RSA_PKCS1_SHA384
            | SignatureScheme::RSA_PKCS1_SHA512
            | SignatureScheme::RSA_PSS_SHA256
            | SignatureScheme::RSA_PSS_SHA384
            | SignatureScheme::RSA_PSS_SHA512 => SignatureAlgorithm::RSA,
            SignatureScheme::ECDSA_NISTP256_SHA256
            | SignatureScheme::ECDSA_NISTP384_SHA384
            | SignatureScheme::ECDSA_NISTP521_SHA512 => SignatureAlgorithm::ECDSA,
            _ => SignatureAlgorithm::Unknown(0),
        }
    }
}

/// How the two sides agree on the premaster secret.
#[derive(Clone, Copy, Debug, PartialEq, Eq, Structural)]
pub enum KeyExchangeAlgorithm {
    BulkOnly,
    DH,
    DHE,
    RSA,
    ECDH,
    ECDHE,
}

} // verus!
