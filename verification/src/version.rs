//! The version TLV: the AWDL protocol version and the class of the device
//! speaking it, in two bytes.
use vstd::prelude::*;

use crate::awdl_version::AWDLVersion;
use crate::parser::ParserError;

verus! {

/// The device class of the peer.
#[derive(Debug, Clone, Copy, PartialEq, Eq, Structural)]
pub enum AWDLDeviceClass {
    /// A macOS device.
    MacOS,
    /// An iOS device.
    IOS,
    /// A watchOS device.
    WatchOS,
    /// A tvOS device.
    TVOS,
    /// A class byte outside the known table.
    Unknown(u8),
}

impl AWDLDeviceClass {
    /// The class denoted by a wire byte.
    pub open spec fn spec_from_bits(value: u8) -> AWDLDeviceClass {
        match value {
            0x1 => AWDLDeviceClass::MacOS,
            0x2 => AWDLDeviceClass::IOS,
            0x4 => AWDLDeviceClass::WatchOS,
            0x8 => AWDLDeviceClass::TVOS,
            _ => AWDLDeviceClass::Unknown(value),
        }
    }

    /// The wire byte of this class.
    pub open spec fn spec_into_bits(self) -> u8 {
        match self {
            AWDLDeviceClass::MacOS => 0x1,
            AWDLDeviceClass::IOS => 0x2,
            AWDLDeviceClass::WatchOS => 0x4,
            AWDLDeviceClass::TVOS => 0x8,
            AWDLDeviceClass::Unknown(value) => value,
        }
    }

    /// Maps a wire byte to the class it denotes.
    pub fn from_bits(value: u8) -> (r: AWDLDeviceClass)
        ensures
            r == Self::spec_from_bits(value),
    {
        match value {
            0x1 => AWDLDeviceClass::MacOS,
            0x2 => AWDLDeviceClass::IOS,
            0x4 => AWDLDeviceClass::WatchOS,
            0x8 => AWDLDeviceClass::TVOS,
            _ => AWDLDeviceClass::Unknown(value),
        }
    }

    /// Maps the class to its wire byte.
    pub fn into_bits(self) -> (r: u8)
        ensures
            r == self.spec_into_bits(),
    {
        match self {
            AWDLDeviceClass::MacOS => 0x1,
            AWDLDeviceClass::IOS => 0x2,
            AWDLDeviceClass::WatchOS => 0x4,
            AWDLDeviceClass::TVOS => 0x8,
            AWDLDeviceClass::Unknown(value) => value,
        }
    }
}

impl Default for AWDLDeviceClass {
    /// The default class is macOS.
    fn default() -> (r: Self)
        ensures
            r == AWDLDeviceClass::MacOS,
    {
        AWDLDeviceClass::MacOS
    }
}

/// A TLV containing the actual version of the AWDL protocol that is spoken.
#[derive(Debug, Clone, Copy, PartialEq, Eq, Structural, Default)]
pub struct VersionTLV {
    /// The AWDL protocol version.
    pub version: AWDLVersion,
    /// The device class.
    pub device_class: AWDLDeviceClass,
}

impl VersionTLV {
    /// The version halves fit four bits each and the class byte survives.
    pub open spec fn wf(self) -> bool {
        self.version.wf() && AWDLDeviceClass::spec_from_bits(self.device_class.spec_into_bits())
            == self.device_class
    }

    /// Parses a version TLV payload: the packed version byte, then the
    /// device class byte. Trailing bytes are ignored.
    pub open spec fn spec_parse(b: Seq<u8>) -> Result<VersionTLV, ParserError> {
        if b.len() < 2 {
            Err(ParserError::TooLittleData((2 - b.len()) as usize))
        } else {
            Ok(
                VersionTLV {
                    version: AWDLVersion::spec_from_bits(b[0]),
                    device_class: AWDLDeviceClass::spec_from_bits(b[1]),
                },
            )
        }
    }

    /// The two payload bytes of the TLV.
    pub open spec fn spec_serial(self) -> Seq<u8> {
        seq![self.version.spec_into_bits(), self.device_class.spec_into_bits()]
    }

    /// Decodes the payload of a version TLV.
    pub fn from_bytes(b: &[u8]) -> (r: Result<VersionTLV, ParserError>)
        ensures
            r == Self::spec_parse(b@),
            r matches Ok(v) ==> v.wf(),
    {
        if b.len() < 2 {
            return Err(ParserError::TooLittleData(2 - b.len()));
        }
        Ok(
            VersionTLV {
                version: AWDLVersion::from_bits(b[0]),
                device_class: AWDLDeviceClass::from_bits(b[1]),
            },
        )
    }

    /// Encodes the payload of a version TLV.
    pub fn to_bytes(&self) -> (r: Vec<u8>)
        requires
            self.wf(),
        ensures
            r@ == self.spec_serial(),
    {
        let mut out: Vec<u8> = Vec::new();
        out.push(self.version.into_bits());
        out.push(self.device_class.into_bits());
        assert(out@ =~= self.spec_serial());
        out
    }
}

/// A serialized well-formed version TLV parses back to itself.
pub proof fn lemma_version_tlv_round_trip(v: VersionTLV)
    requires
        v.wf(),
    ensures
        VersionTLV::spec_parse(v.spec_serial()) == Ok::<_, ParserError>(v),
{
    crate::awdl_version::lemma_version_round_trip(v.version, 0);
}

} // verus!
