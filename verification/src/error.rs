use crate::msgs::enums::{AlertDescription, ContentType, HandshakeType};
use vstd::prelude::*;

verus! {

/// Why a certificate was not accepted.
#[derive(Clone, Copy, Debug, PartialEq, Eq, Structural)]
pub enum CertificateError {
    BadEncoding,
    Expired,
    NotValidYet,
    UnknownIssuer,
    NotValidForName,
    Other,
}

/// Everything that can go wrong on a connection.
#[allow(inconsistent_fields)]
#[derive(Debug, PartialEq, Eq)]
pub enum Error {
    /// A record arrived whose content type the current state does not accept.
    InappropriateMessage { expect_types: Vec<ContentType>, got_type: ContentType },
    /// A handshake message arrived whose type the current state does not accept.
    InappropriateHandshakeMessage { expect_types: Vec<HandshakeType>, got_type: HandshakeType },
    /// The byte stream lost its record framing.
    CorruptMessage,
    /// A record of the given content type did not parse.
    CorruptMessagePayload(ContentType),
    /// A record failed authentication or could not be decrypted.
    DecryptError,
    /// The peer broke the protocol; the text says how.
    PeerMisbehavedError(String),
    /// The peer sent a fatal alert.
    AlertReceived(AlertDescription),
    /// The peer's certificate was refused.
    InvalidCertificate(CertificateError),
    /// A signature did not verify.
    InvalidSignature,
    /// A configuration or usage error; the text says which.
    General(String),
    /// A record was longer than the protocol allows.
    PeerSentOversizedRecord,
    /// The configured maximum fragment size is out of range.
    BadMaxFragmentSize,
    /// Something was asked for that needs the handshake to be complete.
    HandshakeNotComplete,
}

/// The mathematical value of an [`Error`].
#[allow(inconsistent_fields)]
pub ghost enum ErrorView {
    InappropriateMessage { expect_types: Seq<ContentType>, got_type: ContentType },
    InappropriateHandshakeMessage { expect_types: Seq<HandshakeType>, got_type: HandshakeType },
    CorruptMessage,
    CorruptMessagePayload(ContentType),
    DecryptError,
    PeerMisbehavedError(Seq<char>),
    AlertReceived(AlertDescription),
    InvalidCertificate(CertificateError),
    InvalidSignature,
    General(Seq<char>),
    PeerSentOversizedRecord,
    BadMaxFragmentSize,
    HandshakeNotComplete,
}

impl View for Error {
    type V = ErrorView;

    open spec fn view(&self) -> ErrorView {
        match *self {
            Error::InappropriateMessage { expect_types, got_type } => ErrorView::InappropriateMessage {
                expect_types: expect_types@,
                got_type,
            },
            Error::InappropriateHandshakeMessage {
                expect_types,
                got_type,
            } => ErrorView::InappropriateHandshakeMessage { expect_types: expect_types@, got_type },
            Error::CorruptMessage => ErrorView::CorruptMessage,
            Error::CorruptMessagePayload(t) => ErrorView::CorruptMessagePayload(t),
            Error::DecryptError => ErrorView::DecryptError,
            Error::PeerMisbehavedError(s) => ErrorView::PeerMisbehavedError(s@),
            Error::AlertReceived(d) => ErrorView::AlertReceived(d),
            Error::InvalidCertificate(k) => ErrorView::InvalidCertificate(k),
            Error::InvalidSignature => ErrorView::InvalidSignature,
            Error::General(s) => ErrorView::General(s@),
            Error::PeerSentOversizedRecord => ErrorView::PeerSentOversizedRecord,
            Error::BadMaxFragmentSize => ErrorView::BadMaxFragmentSize,
            Error::HandshakeNotComplete => ErrorView::HandshakeNotComplete,
        }
    }
}

impl Clone for Error {
    fn clone(&self) -> (r: Self)
        ensures
            r@ == self@,
    {
        match self {
            Error::InappropriateMessage { expect_types, got_type } => Error::InappropriateMessage {
                expect_types: expect_types.clone(),
                got_type: *got_type,
            },
            Error::InappropriateHandshakeMessage {
                expect_types,
                got_type,
            } => Error::InappropriateHandshakeMessage {
                expect_types: expect_types.clone(),
                got_type: *got_type,
            },
            Error::CorruptMessage => Error::CorruptMessage,
            Error::CorruptMessagePayload(t) => Error::CorruptMessagePayload(*t),
            Error::DecryptError => Error::DecryptError,
            Error::PeerMisbehavedError(s) => Error::PeerMisbehavedError(s.clone()),
            Error::AlertReceived(d) => Error::AlertReceived(*d),
            Error::InvalidCertificate(k) => Error::InvalidCertificate(*k),
            Error::InvalidSignature => Error::InvalidSignature,
            Error::General(s) => Error::General(s.clone()),
            Error::PeerSentOversizedRecord => Error::PeerSentOversizedRecord,
            Error::BadMaxFragmentSize => Error::BadMaxFragmentSize,
            Error::HandshakeNotComplete => Error::HandshakeNotComplete,
        }
    }
}

impl Error {
    /// A protocol violation by the peer, with the reason as text.
    pub fn peer_misbehaved(why: &str) -> (r: Error)
        ensures
            r@ == ErrorView::PeerMisbehavedError(why@),
    {
        Error::PeerMisbehavedError(why.to_owned())
    }

    /// A configuration or usage error, with the reason as text.
    pub fn general(why: &str) -> (r: Error)
        ensures
            r@ == ErrorView::General(why@),
    {
        Error::General(why.to_owned())
    }

    /// True for the two errors that report a message the current state does
    /// not accept.
    pub open spec fn spec_is_inappropriate(&self) -> bool {
        self@ is InappropriateMessage || self@ is InappropriateHandshakeMessage
    }

    #[verifier::when_used_as_spec(spec_is_inappropriate)]
    pub fn is_inappropriate(&self) -> (r: bool)
        ensures
            r == self.spec_is_inappropriate(),
    {
        match self {
            Error::InappropriateMessage { .. } => true,
            Error::InappropriateHandshakeMessage { .. } => true,
            _ => false,
        }
    }
}

} // verus!
