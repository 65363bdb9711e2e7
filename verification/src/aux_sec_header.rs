//! The IEEE 802.15.4 Auxiliary Security Header.
use vstd::prelude::*;

verus! {

/// A reader for the IEEE 802.15.4 Auxiliary Security Header.
#[derive(Debug)]
pub struct AuxiliarySecurityHeader<T> {
    buffer: T,
}

impl<T: View<V = Seq<u8>>> View for AuxiliarySecurityHeader<T> {
    type V = Seq<u8>;

    closed spec fn view(&self) -> Seq<u8> {
        self.buffer@
    }
}

/// The MIC length, in octets, of the security level in the low three bits of
/// the Security Control octet `b`.
pub open spec fn spec_mic_length(b: u8) -> nat {
    match b & 7 {
        1 | 5 => 4,
        2 | 6 => 8,
        3 | 7 => 16,
        _ => 0,
    }
}

impl<'a> AuxiliarySecurityHeader<&'a [u8]> {
    /// Create a new reader.
    pub fn new(buffer: &'a [u8]) -> (r: Self)
        ensures
            r@ == buffer@,
    {
        Self { buffer }
    }

    /// The length of the header: the Security Control octet and the MIC
    /// length of its security level.
    #[allow(clippy::len_without_is_empty)]
    pub fn len(&self) -> (r: usize)
        requires
            self@.len() >= 1,
        ensures
            r == 1 + spec_mic_length(self@[0]),
    {
        1 + self.security_control().security_level().mic_length()
    }

    /// Return the Security Control field.
    pub fn security_control(&self) -> (r: SecurityControl)
        requires
            self@.len() >= 1,
        ensures
            r.buffer == self@[0],
    {
        SecurityControl::from(self.buffer[0])
    }
}

/// A reader for the IEEE 802.15.4 Security Control field.
pub struct SecurityControl {
    pub buffer: u8,
}

impl SecurityControl {
    /// Create a reader over the Security Control octet.
    pub fn from(buffer: u8) -> (r: Self)
        ensures
            r.buffer == buffer,
    {
        Self { buffer }
    }

    /// Return the security level field (bits 0-2).
    pub fn security_level(&self) -> (r: SecurityLevel)
        ensures
            r.buffer == self.buffer & 0b111,
    {
        SecurityLevel::from(self.buffer & 0b111)
    }

    /// Return the key identifier mode field (bits 3-4).
    pub fn key_identifier_mode(&self) -> (r: KeyIdentifierField)
        ensures
            r.buffer == (self.buffer >> 3u8) & 0b11,
    {
        KeyIdentifierField::from((self.buffer >> 3u8) & 0b11)
    }

    /// Returns `true` when the frame counter is suppressed (bit 5).
    pub fn frame_counter_suppression(&self) -> (r: bool)
        ensures
            r == ((self.buffer >> 5u8) & 1 == 1),
    {
        (self.buffer >> 5u8) & 0b1 == 1
    }

    /// Returns `true` when the ASN is included in the nonce (bit 6).
    pub fn asn_in_nonce(&self) -> (r: bool)
        ensures
            r == ((self.buffer >> 6u8) & 1 == 1),
    {
        (self.buffer >> 6u8) & 0b1 == 1
    }
}

/// A Security Level field.
pub struct SecurityLevel {
    pub buffer: u8,
}

/// The security attributes of a security level.
#[derive(Debug, Clone, Copy, PartialEq, Eq, Structural)]
pub enum SecurityAttributes {
    /// No security.
    NoSecurity,
    /// 32-bit MIC.
    Mic32,
    /// 64-bit MIC.
    Mic64,
    /// 128-bit MIC.
    Mic128,
    /// Encryption and 32-bit MIC.
    EncMic32,
    /// Encryption and 64-bit MIC.
    EncMic64,
    /// Encryption and 128-bit MIC.
    EncMic128,
    /// Reserved security level.
    Unknown,
}

impl SecurityAttributes {
    /// The security attributes of the security level `v`.
    pub open spec fn spec_from(v: u8) -> SecurityAttributes {
        match v {
            0 => SecurityAttributes::NoSecurity,
            1 => SecurityAttributes::Mic32,
            2 => SecurityAttributes::Mic64,
            3 => SecurityAttributes::Mic128,
            5 => SecurityAttributes::EncMic32,
            6 => SecurityAttributes::EncMic64,
            7 => SecurityAttributes::EncMic128,
            _ => SecurityAttributes::Unknown,
        }
    }

    /// The MIC length of these attributes, in octets.
    pub open spec fn spec_mic_length(self) -> nat {
        match self {
            SecurityAttributes::Mic32 | SecurityAttributes::EncMic32 => 4,
            SecurityAttributes::Mic64 | SecurityAttributes::EncMic64 => 8,
            SecurityAttributes::Mic128 | SecurityAttributes::EncMic128 => 16,
            _ => 0,
        }
    }
}

impl SecurityAttributes {
    /// The attributes include encryption.
    pub open spec fn spec_encrypted(self) -> bool {
        self is EncMic32 || self is EncMic64 || self is EncMic128
    }
}

/// The attributes of a security level follow its bits: level 0 is no
/// security and level 4 and the values past 7 are reserved; for the others,
/// encryption is on exactly when the Data Confidentiality bit (bit 2) is set,
/// as [`SecurityLevel::data_confidentiality`] reads it, and the MIC length
/// is the one the low two bits give (4, 8 or 16 octets).
pub proof fn lemma_security_attributes_bits(v: u8)
    ensures
        SecurityAttributes::spec_from(v) is NoSecurity <==> v == 0,
        SecurityAttributes::spec_from(v) is Unknown <==> (v == 4 || v >= 8),
        v < 8 && v != 0 && v != 4 ==> (SecurityAttributes::spec_from(v).spec_encrypted() <==> (v >> 2u8) & 1 == 1),
        v < 8 ==> SecurityAttributes::spec_from(v).spec_mic_length() == spec_mic_length(v),
{
    if v < 8 {
        assert(v & 7 == v) by (bit_vector)
            requires
                v < 8,
        ;
        assert(((v >> 2u8) & 1 == 1) == (v >= 4)) by (bit_vector)
            requires
                v < 8,
        ;
    }
}

impl SecurityLevel {
    /// Create a reader over the security level value.
    pub fn from(buffer: u8) -> (r: Self)
        ensures
            r.buffer == buffer,
    {
        Self { buffer }
    }

    /// Return the used Security Attributes.
    pub fn security_attributes(&self) -> (r: SecurityAttributes)
        ensures
            r == SecurityAttributes::spec_from(self.buffer),
    {
        match self.buffer {
            0 => SecurityAttributes::NoSecurity,
            1 => SecurityAttributes::Mic32,
            2 => SecurityAttributes::Mic64,
            3 => SecurityAttributes::Mic128,
            5 => SecurityAttributes::EncMic32,
            6 => SecurityAttributes::EncMic64,
            7 => SecurityAttributes::EncMic128,
            _ => SecurityAttributes::Unknown,
        }
    }

    /// Return `true` when confidentiality is enabled: the Data
    /// Confidentiality bit (bit 2) of the level is set, as in the encrypting
    /// levels 5 to 7.
    pub fn data_confidentiality(&self) -> (r: bool)
        ensures
            r == ((self.buffer >> 2u8) & 1 == 1),
    {
        (self.buffer >> 2u8) & 0b1 == 1
    }

    /// Return `true` when authenticity is enabled (any nonzero level).
    pub fn data_authenticity(&self) -> (r: bool)
        ensures
            r == (self.buffer != 0),
    {
        self.buffer != 0
    }

    /// Return the MIC length, in octets.
    pub fn mic_length(&self) -> (r: usize)
        ensures
            r == SecurityAttributes::spec_from(self.buffer).spec_mic_length(),
            self.buffer < 8 ==> r == spec_mic_length(self.buffer),
    {
        proof {
            let b = self.buffer;
            assert(b < 8 ==> b & 7 == b) by (bit_vector);
        }
        match self.security_attributes() {
            SecurityAttributes::Mic32 | SecurityAttributes::EncMic32 => 4,
            SecurityAttributes::Mic64 | SecurityAttributes::EncMic64 => 8,
            SecurityAttributes::Mic128 | SecurityAttributes::EncMic128 => 16,
            _ => 0,
        }
    }
}

/// A Key Identifier Mode field.
pub struct KeyIdentifierField {
    pub buffer: u8,
}

/// The key identifier mode.
#[derive(Debug, Clone, Copy, PartialEq, Eq, Structural)]
pub enum KeyIdentifierMode {
    /// The key is determined implicitly.
    Implicit,
    /// The key is determined explicitly.
    Explicit,
    /// Reserved mode.
    Unknown,
}

impl KeyIdentifierField {
    /// Create a reader over the key identifier mode value.
    pub fn from(buffer: u8) -> (r: Self)
        ensures
            r.buffer == buffer,
    {
        Self { buffer }
    }

    /// Return the Key Identifier Mode.
    pub fn key_identifier_mode(&self) -> (r: KeyIdentifierMode)
        ensures
            r == (match self.buffer {
                0 => KeyIdentifierMode::Implicit,
                1 => KeyIdentifierMode::Explicit,
                _ => KeyIdentifierMode::Unknown,
            }),
    {
        match self.buffer {
            0 => KeyIdentifierMode::Implicit,
            1 => KeyIdentifierMode::Explicit,
            _ => KeyIdentifierMode::Unknown,
        }
    }
}

} // verus!
