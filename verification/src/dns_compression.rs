//! The two-byte codes that stand in for well-known DNS-SD suffix domains
//! instead of spelling them out on the wire.
use vstd::prelude::*;

verus! {

/// Compressed dns-sd domains/services; a two-byte code stands in for a
/// well-known suffix string.
#[derive(Debug, Clone, Copy, PartialEq, Eq, Hash, Structural)]
pub enum AWDLDnsCompression {
    Null,
    AirPlayTcpLocal,
    AirPlayUdpLocal,
    AirPlay,
    RaopTcpLocal,
    RaopUdpLocal,
    Raop,
    AirDropTcpLocal,
    AirDropUdpLocal,
    AirDrop,
    TcpLocal,
    UdpLocal,
    Local,
    Ip6Arpa,
    Ip4Arpa,
    /// A code outside the known table, preserved as its numeric value.
    Unknown(u16),
}

impl AWDLDnsCompression {
    /// The domain denoted by the given two-byte code.
    pub open spec fn spec_from_bits(value: u16) -> AWDLDnsCompression {
        match value {
            0xC000 => AWDLDnsCompression::Null,
            0xC001 => AWDLDnsCompression::AirPlayTcpLocal,
            0xC002 => AWDLDnsCompression::AirPlayUdpLocal,
            0xC003 => AWDLDnsCompression::AirPlay,
            0xC004 => AWDLDnsCompression::RaopTcpLocal,
            0xC005 => AWDLDnsCompression::RaopUdpLocal,
            0xC006 => AWDLDnsCompression::Raop,
            0xC007 => AWDLDnsCompression::AirDropTcpLocal,
            0xC008 => AWDLDnsCompression::AirDropUdpLocal,
            0xC009 => AWDLDnsCompression::AirDrop,
            0xC00A => AWDLDnsCompression::TcpLocal,
            0xC00B => AWDLDnsCompression::UdpLocal,
            0xC00C => AWDLDnsCompression::Local,
            0xC00D => AWDLDnsCompression::Ip6Arpa,
            0xC00E => AWDLDnsCompression::Ip4Arpa,
            _ => AWDLDnsCompression::Unknown(value),
        }
    }

    /// The two-byte code of this domain.
    pub open spec fn spec_into_bits(self) -> u16 {
        match self {
            AWDLDnsCompression::Null => 0xC000,
            AWDLDnsCompression::AirPlayTcpLocal => 0xC001,
            AWDLDnsCompression::AirPlayUdpLocal => 0xC002,
            AWDLDnsCompression::AirPlay => 0xC003,
            AWDLDnsCompression::RaopTcpLocal => 0xC004,
            AWDLDnsCompression::RaopUdpLocal => 0xC005,
            AWDLDnsCompression::Raop => 0xC006,
            AWDLDnsCompression::AirDropTcpLocal => 0xC007,
            AWDLDnsCompression::AirDropUdpLocal => 0xC008,
            AWDLDnsCompression::AirDrop => 0xC009,
            AWDLDnsCompression::TcpLocal => 0xC00A,
            AWDLDnsCompression::UdpLocal => 0xC00B,
            AWDLDnsCompression::Local => 0xC00C,
            AWDLDnsCompression::Ip6Arpa => 0xC00D,
            AWDLDnsCompression::Ip4Arpa => 0xC00E,
            AWDLDnsCompression::Unknown(value) => value,
        }
    }

    /// The domain round-trips through its code: it is either a known variant
    /// or an `Unknown` whose value maps to no known variant.
    pub open spec fn wf(self) -> bool {
        Self::spec_from_bits(self.spec_into_bits()) == self
    }

    /// Maps a two-byte code to the domain it denotes; codes outside the
    /// table are preserved as `Unknown`.
    pub fn from_bits(value: u16) -> (r: AWDLDnsCompression)
        ensures
            r == Self::spec_from_bits(value),
            r.wf(),
    {
        match value {
            0xC000 => AWDLDnsCompression::Null,
            0xC001 => AWDLDnsCompression::AirPlayTcpLocal,
            0xC002 => AWDLDnsCompression::AirPlayUdpLocal,
            0xC003 => AWDLDnsCompression::AirPlay,
            0xC004 => AWDLDnsCompression::RaopTcpLocal,
            0xC005 => AWDLDnsCompression::RaopUdpLocal,
            0xC006 => AWDLDnsCompression::Raop,
            0xC007 => AWDLDnsCompression::AirDropTcpLocal,
            0xC008 => AWDLDnsCompression::AirDropUdpLocal,
            0xC009 => AWDLDnsCompression::AirDrop,
            0xC00A => AWDLDnsCompression::TcpLocal,
            0xC00B => AWDLDnsCompression::UdpLocal,
            0xC00C => AWDLDnsCompression::Local,
            0xC00D => AWDLDnsCompression::Ip6Arpa,
            0xC00E => AWDLDnsCompression::Ip4Arpa,
            _ => AWDLDnsCompression::Unknown(value),
        }
    }

    /// Maps the domain to its two-byte code.
    pub fn into_bits(self) -> (r: u16)
        ensures
            r == self.spec_into_bits(),
    {
        match self {
            AWDLDnsCompression::Null => 0xC000,
            AWDLDnsCompression::AirPlayTcpLocal => 0xC001,
            AWDLDnsCompression::AirPlayUdpLocal => 0xC002,
            AWDLDnsCompression::AirPlay => 0xC003,
            AWDLDnsCompression::RaopTcpLocal => 0xC004,
            AWDLDnsCompression::RaopUdpLocal => 0xC005,
            AWDLDnsCompression::Raop => 0xC006,
            AWDLDnsCompression::AirDropTcpLocal => 0xC007,
            AWDLDnsCompression::AirDropUdpLocal => 0xC008,
            AWDLDnsCompression::AirDrop => 0xC009,
            AWDLDnsCompression::TcpLocal => 0xC00A,
            AWDLDnsCompression::UdpLocal => 0xC00B,
            AWDLDnsCompression::Local => 0xC00C,
            AWDLDnsCompression::Ip6Arpa => 0xC00D,
            AWDLDnsCompression::Ip4Arpa => 0xC00E,
            AWDLDnsCompression::Unknown(value) => value,
        }
    }

    /// The suffix string this compression code stands for.
    pub fn to_string(&self) -> &'static str {
        match self {
            AWDLDnsCompression::Null => "",
            AWDLDnsCompression::AirPlayTcpLocal => "_airplay._tcp.local",
            AWDLDnsCompression::AirPlayUdpLocal => "_airplay._udp.local",
            AWDLDnsCompression::AirPlay => "_airplay",
            AWDLDnsCompression::RaopTcpLocal => "_raop._tcp.local",
            AWDLDnsCompression::RaopUdpLocal => "_raop._udp.local",
            AWDLDnsCompression::Raop => "raop",
            AWDLDnsCompression::AirDropTcpLocal => "_airdrop._tcp.local",
            AWDLDnsCompression::AirDropUdpLocal => "_airdrop._udp.local",
            AWDLDnsCompression::AirDrop => "_airdrop",
            AWDLDnsCompression::TcpLocal => "_tcp.local",
            AWDLDnsCompression::UdpLocal => "_udp.local",
            AWDLDnsCompression::Local => "local",
            AWDLDnsCompression::Ip6Arpa => "ip6.arpa",
            AWDLDnsCompression::Ip4Arpa => "ip4.arpa",
            AWDLDnsCompression::Unknown(_) => "Unknown Compression",
        }
    }
}

impl Default for AWDLDnsCompression {
    /// The default domain is `local`.
    fn default() -> (r: Self)
        ensures
            r == AWDLDnsCompression::Local,
    {
        AWDLDnsCompression::Local
    }
}

} // verus!
