//! The enumerated control fields of an NTP header.
use vstd::prelude::*;

verus! {

/// Leap indicator: warns of a leap second in the last minute of the day (2 bits).
#[derive(PartialEq, Eq, Structural, Debug, Clone, Copy)]
pub enum LI {
    NoLeap,
    LastMinute61,
    LastMinute59,
    UnknownUnsync,
}

impl LI {
    /// The variant that the 2-bit value `v` stands for.
    pub open spec fn spec_from(v: u8) -> LI
        recommends
            v < 4,
    {
        if v == 0 {
            LI::NoLeap
        } else if v == 1 {
            LI::LastMinute61
        } else if v == 2 {
            LI::LastMinute59
        } else {
            LI::UnknownUnsync
        }
    }

    /// The 2-bit value of a variant.
    pub open spec fn spec_bits(self) -> u8 {
        match self {
            LI::NoLeap => 0,
            LI::LastMinute61 => 1,
            LI::LastMinute59 => 2,
            LI::UnknownUnsync => 3,
        }
    }

    /// Decodes a leap indicator from a value already masked to two bits.
    pub fn from(value: u8) -> (r: LI)
        requires
            value < 4,
        ensures
            r == LI::spec_from(value),
    {
        match value {
            0 => LI::NoLeap,
            1 => LI::LastMinute61,
            2 => LI::LastMinute59,
            _ => LI::UnknownUnsync,
        }
    }

    /// The 2-bit value that encodes this leap indicator.
    pub fn bits(self) -> (r: u8)
        ensures
            r == self.spec_bits(),
            r < 4,
    {
        match self {
            LI::NoLeap => 0,
            LI::LastMinute61 => 1,
            LI::LastMinute59 => 2,
            LI::UnknownUnsync => 3,
        }
    }
}

/// Every 2-bit value decodes to the variant that encodes back to it, and every
/// variant encodes to a value that decodes back to it.
pub proof fn lemma_li_round_trip(v: u8, li: LI)
    requires
        v < 4,
    ensures
        LI::spec_from(v).spec_bits() == v,
        LI::spec_from(li.spec_bits()) == li,
{
}

/// Association mode of the sender (3 bits).
#[derive(PartialEq, Eq, Structural, Debug, Clone, Copy)]
pub enum Mode {
    Reserved,
    SymActive,
    SymPassive,
    Client,
    Server,
    Broadcast,
    NtpControl,
    ReservedPrivateUse,
}

impl Mode {
    /// The variant that the 3-bit value `v` stands for.
    pub open spec fn spec_from(v: u8) -> Mode
        recommends
            v < 8,
    {
        if v == 0 {
            Mode::Reserved
        } else if v == 1 {
            Mode::SymActive
        } else if v == 2 {
            Mode::SymPassive
        } else if v == 3 {
            Mode::Client
        } else if v == 4 {
            Mode::Server
        } else if v == 5 {
            Mode::Broadcast
        } else if v == 6 {
            Mode::NtpControl
        } else {
            Mode::ReservedPrivateUse
        }
    }

    /// The 3-bit value of a variant.
    pub open spec fn spec_bits(self) -> u8 {
        match self {
            Mode::Reserved => 0,
            Mode::SymActive => 1,
            Mode::SymPassive => 2,
            Mode::Client => 3,
            Mode::Server => 4,
            Mode::Broadcast => 5,
            Mode::NtpControl => 6,
            Mode::ReservedPrivateUse => 7,
        }
    }

    /// Decodes a mode from a value already masked to three bits.
    pub fn from(value: u8) -> (r: Mode)
        requires
            value < 8,
        ensures
            r == Mode::spec_from(value),
    {
        match value {
            0 => Mode::Reserved,
            1 => Mode::SymActive,
            2 => Mode::SymPassive,
            3 => Mode::Client,
            4 => Mode::Server,
            5 => Mode::Broadcast,
            6 => Mode::NtpControl,
            _ => Mode::ReservedPrivateUse,
        }
    }

    /// The 3-bit value that encodes this mode.
    pub fn bits(self) -> (r: u8)
        ensures
            r == self.spec_bits(),
            r < 8,
    {
        match self {
            Mode::Reserved => 0,
            Mode::SymActive => 1,
            Mode::SymPassive => 2,
            Mode::Client => 3,
            Mode::Server => 4,
            Mode::Broadcast => 5,
            Mode::NtpControl => 6,
            Mode::ReservedPrivateUse => 7,
        }
    }
}

/// Every 3-bit value decodes to the mode that encodes back to it, and every
/// mode encodes to a value that decodes back to it.
pub proof fn lemma_mode_round_trip(v: u8, m: Mode)
    requires
        v < 8,
    ensures
        Mode::spec_from(v).spec_bits() == v,
        Mode::spec_from(m.spec_bits()) == m,
{
}

/// Distance of the server from a reference clock, by category.
#[derive(PartialEq, Eq, Structural, Debug, Clone, Copy)]
pub enum Stratum {
    UnspecifiedInvalid,
    /// e.g., equipped with a GPS receiver
    PrimaryServer,
    /// synchronised via NTP
    SecondaryServer,
    Unsynchronized,
    Reserved,
}

impl Stratum {
    /// The category of the stratum byte `v`.
    pub open spec fn spec_from(v: u8) -> Stratum {
        if v == 0 {
            Stratum::UnspecifiedInvalid
        } else if v == 1 {
            Stratum::PrimaryServer
        } else if v <= 15 {
            Stratum::SecondaryServer
        } else if v == 16 {
            Stratum::Unsynchronized
        } else {
            Stratum::Reserved
        }
    }
}

impl From<u8> for Stratum {
    fn from(value: u8) -> (r: Stratum) {
        match value {
            0 => Stratum::UnspecifiedInvalid,
            1 => Stratum::PrimaryServer,
            2..=15 => Stratum::SecondaryServer,
            16 => Stratum::Unsynchronized,
            _ => Stratum::Reserved,
        }
    }
}

impl vstd::std_specs::convert::FromSpecImpl<u8> for Stratum {
    open spec fn obeys_from_spec() -> bool {
        true
    }

    open spec fn from_spec(v: u8) -> Stratum {
        Stratum::spec_from(v)
    }
}

/// Every stratum byte from 2 to 15 inclusive is a secondary server, and no
/// other byte is.
pub proof fn lemma_secondary_range(v: u8)
    ensures
        (Stratum::spec_from(v) == Stratum::SecondaryServer) <==> (2 <= v && v <= 15),
{
}

/// The reason a server gives, in the reference-ID field of an unsynchronized
/// response, for declining or restricting service.
#[derive(PartialEq, Eq, Structural, Debug, Clone, Copy)]
pub enum KissCodes {
    /// `ACST`
    UnicastServer,
    /// `AUTH`
    AuthFailed,
    /// `AUTO`
    AutokeyFailed,
    /// `BCST`
    BroadcastServer,
    /// `CRYP`
    CryptoIdAuthFail,
    /// `DENY`
    AccessDenied,
    /// `DROP`
    LostPeerInSymmetricMode,
    /// `RSTR`
    AccessRestricted,
    /// `INIT`
    Initializing,
    /// `MCST`
    DynamicallyDiscoveredServer,
    /// `NKEY`
    NoKey,
    /// `RATE`
    RateExceeded,
    /// `RMOT`
    RemoteAssocAlteration,
    /// `STEP`
    StepTimeChange,
    /// any other four bytes
    UnknownKissCode,
}

/// The four bytes of a code, as a tuple.
pub open spec fn quad(v: [u8; 4]) -> (u8, u8, u8, u8) {
    (v@[0], v@[1], v@[2], v@[3])
}

impl KissCodes {
    /// The known code whose bytes are `q`, else the unknown code.
    pub open spec fn spec_lookup(q: (u8, u8, u8, u8)) -> KissCodes {
        if exists|k: KissCodes| #[trigger] k.spec_code() == Some(q) {
            choose|k: KissCodes| #[trigger] k.spec_code() == Some(q)
        } else {
            KissCodes::UnknownKissCode
        }
    }

    /// The ASCII bytes of a known code; none for the unknown one.
    pub open spec fn spec_code(self) -> Option<(u8, u8, u8, u8)> {
        match self {
            KissCodes::UnicastServer => Some((65, 67, 83, 84)),
            KissCodes::AuthFailed => Some((65, 85, 84, 72)),
            KissCodes::AutokeyFailed => Some((65, 85, 84, 79)),
            KissCodes::BroadcastServer => Some((66, 67, 83, 84)),
            KissCodes::CryptoIdAuthFail => Some((67, 82, 89, 80)),
            KissCodes::AccessDenied => Some((68, 69, 78, 89)),
            KissCodes::LostPeerInSymmetricMode => Some((68, 82, 79, 80)),
            KissCodes::AccessRestricted => Some((82, 83, 84, 82)),
            KissCodes::Initializing => Some((73, 78, 73, 84)),
            KissCodes::DynamicallyDiscoveredServer => Some((77, 67, 83, 84)),
            KissCodes::NoKey => Some((78, 75, 69, 89)),
            KissCodes::RateExceeded => Some((82, 65, 84, 69)),
            KissCodes::RemoteAssocAlteration => Some((82, 77, 79, 84)),
            KissCodes::StepTimeChange => Some((83, 84, 69, 80)),
            KissCodes::UnknownKissCode => None,
        }
    }

    /// The four ASCII bytes of a known code; `None` for the unknown one.
    pub fn code(self) -> (r: Option<[u8; 4]>)
        ensures
            r matches Some(b) ==> self.spec_code() == Some(quad(b)),
            r is None <==> self.spec_code() is None,
    {
        match self {
            KissCodes::UnicastServer => Some([65, 67, 83, 84]),
            KissCodes::AuthFailed => Some([65, 85, 84, 72]),
            KissCodes::AutokeyFailed => Some([65, 85, 84, 79]),
            KissCodes::BroadcastServer => Some([66, 67, 83, 84]),
            KissCodes::CryptoIdAuthFail => Some([67, 82, 89, 80]),
            KissCodes::AccessDenied => Some([68, 69, 78, 89]),
            KissCodes::LostPeerInSymmetricMode => Some([68, 82, 79, 80]),
            KissCodes::AccessRestricted => Some([82, 83, 84, 82]),
            KissCodes::Initializing => Some([73, 78, 73, 84]),
            KissCodes::DynamicallyDiscoveredServer => Some([77, 67, 83, 84]),
            KissCodes::NoKey => Some([78, 75, 69, 89]),
            KissCodes::RateExceeded => Some([82, 65, 84, 69]),
            KissCodes::RemoteAssocAlteration => Some([82, 77, 79, 84]),
            KissCodes::StepTimeChange => Some([83, 84, 69, 80]),
            KissCodes::UnknownKissCode => None,
        }
    }
}

/// Whether the bytes `v` are exactly `a`, `b`, `c`, `d`.
fn is_code(v: &[u8; 4], a: u8, b: u8, c: u8, d: u8) -> (r: bool)
    ensures
        r == (quad(*v) == (a, b, c, d)),
{
    v[0] == a && v[1] == b && v[2] == c && v[3] == d
}

impl<'a> From<&'a [u8; 4]> for KissCodes {
    fn from(value: &'a [u8; 4]) -> (r: KissCodes) {
        let kind = if is_code(value, 65, 67, 83, 84) {
            KissCodes::UnicastServer
        } else if is_code(value, 65, 85, 84, 72) {
            KissCodes::AuthFailed
        } else if is_code(value, 65, 85, 84, 79) {
            KissCodes::AutokeyFailed
        } else if is_code(value, 66, 67, 83, 84) {
            KissCodes::BroadcastServer
        } else if is_code(value, 67, 82, 89, 80) {
            KissCodes::CryptoIdAuthFail
        } else if is_code(value, 68, 69, 78, 89) {
            KissCodes::AccessDenied
        } else if is_code(value, 68, 82, 79, 80) {
            KissCodes::LostPeerInSymmetricMode
        } else if is_code(value, 82, 83, 84, 82) {
            KissCodes::AccessRestricted
        } else if is_code(value, 73, 78, 73, 84) {
            KissCodes::Initializing
        } else if is_code(value, 77, 67, 83, 84) {
            KissCodes::DynamicallyDiscoveredServer
        } else if is_code(value, 78, 75, 69, 89) {
            KissCodes::NoKey
        } else if is_code(value, 82, 65, 84, 69) {
            KissCodes::RateExceeded
        } else if is_code(value, 82, 77, 79, 84) {
            KissCodes::RemoteAssocAlteration
        } else if is_code(value, 83, 84, 69, 80) {
            KissCodes::StepTimeChange
        } else {
            KissCodes::UnknownKissCode
        };
        proof {
            let q = quad(*value);
            if kind != KissCodes::UnknownKissCode {
                assert(kind.spec_code() == Some(q));
                let c = choose|k: KissCodes| #[trigger] k.spec_code() == Some(q);
                lemma_kiss_codes_distinct(c, kind);
            } else {
                assert(forall|k: KissCodes| #[trigger] k.spec_code() != Some(q));
            }
        }
        kind
    }
}

impl<'a> vstd::std_specs::convert::FromSpecImpl<&'a [u8; 4]> for KissCodes {
    open spec fn obeys_from_spec() -> bool {
        true
    }

    open spec fn from_spec(v: &'a [u8; 4]) -> KissCodes {
        KissCodes::spec_lookup(quad(*v))
    }
}

/// No two variants share a code.
pub proof fn lemma_kiss_codes_distinct(k1: KissCodes, k2: KissCodes)
    ensures
        k1.spec_code() is Some && k1.spec_code() == k2.spec_code() ==> k1 == k2,
{
}

/// Looking up the bytes of a known code gives back that code.
pub proof fn lemma_kiss_code_round_trip(k: KissCodes)
    requires
        k != KissCodes::UnknownKissCode,
    ensures
        KissCodes::spec_lookup(k.spec_code().unwrap()) == k,
{
    let q = k.spec_code().unwrap();
    assert(k.spec_code() == Some(q));
    let c = choose|c: KissCodes| #[trigger] c.spec_code() == Some(q);
    lemma_kiss_codes_distinct(c, k);
}

/// A lookup gives a known code exactly when the bytes are that code's bytes;
/// any other four bytes give the unknown code.
pub proof fn lemma_kiss_lookup_exact(q: (u8, u8, u8, u8), k: KissCodes)
    requires
        k != KissCodes::UnknownKissCode,
    ensures
        (KissCodes::spec_lookup(q) == k) <==> (k.spec_code() == Some(q)),
        (KissCodes::spec_lookup(q) == KissCodes::UnknownKissCode) <==> (forall|c: KissCodes|
            #[trigger] c.spec_code() != Some(q)),
{
    if k.spec_code() == Some(q) {
        lemma_kiss_code_round_trip(k);
    }
    if exists|c: KissCodes| #[trigger] c.spec_code() == Some(q) {
        let c = choose|c: KissCodes| #[trigger] c.spec_code() == Some(q);
        assert(c != KissCodes::UnknownKissCode);
    }
}

} // verus!
