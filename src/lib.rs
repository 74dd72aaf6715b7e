//! Codec for the fixed 48-byte header of the Network Time Protocol.
pub mod fields;
pub mod packet;

pub use fields::{KissCodes, Mode, Stratum, LI};
pub use packet::{
    get_client_request, DecodeError, ExtensionField, NtpServerResponse, PacketHeaders,
};

use vstd::prelude::*;

use fields::{lemma_kiss_code_round_trip, quad};

verus! {

/// The UDP port of an NTP server.
pub const NTP_PORT: u8 = 123;

/// Protocol version identifier.
pub const NTP_VERSION: u8 = 1;

/// Kiss code `DENY`: access denied by the server.
pub const KISS_CODE_DENY: [u8; 4] = [68, 69, 78, 89];

/// Kiss code `RSTR`: access restricted by the server.
pub const KISS_CODE_RSTR: [u8; 4] = [82, 83, 84, 82];

/// Kiss code `RATE`: the client polls too often.
pub const KISS_CODE_RATE: [u8; 4] = [82, 65, 84, 69];

/// The three named kiss-code constants look up to their own, distinct
/// variants.
pub proof fn lemma_named_kiss_codes()
    ensures
        KissCodes::spec_lookup(quad(KISS_CODE_DENY)) == KissCodes::AccessDenied,
        KissCodes::spec_lookup(quad(KISS_CODE_RSTR)) == KissCodes::AccessRestricted,
        KissCodes::spec_lookup(quad(KISS_CODE_RATE)) == KissCodes::RateExceeded,
{
    lemma_kiss_code_round_trip(KissCodes::AccessDenied);
    lemma_kiss_code_round_trip(KissCodes::AccessRestricted);
    lemma_kiss_code_round_trip(KissCodes::RateExceeded);
}

} // verus!
