//! Discovery and pairing decisions.
//!
//! Scanning yields advertisements; one is accepted only when its
//! manufacturer-data entry for the vendor's company id starts with the
//! five-byte vendor signature. A connected device is classified as a left or
//! right half by the first characteristic whose identity matches one of the
//! two known half identities; a device with neither is not a controller half
//! and is disconnected. Before a session is handed off, the fixed
//! initialization sequence is written to the device's command characteristic:
//! the LED frame first, then the vibration frame.

use crate::commands::{set_led_frame, vibration_frame, Commands};
use crate::state::Controller;
use vstd::prelude::*;

verus! {

/// Manufacturer company id whose payload carries the vendor signature.
pub const VENDOR_COMPANY_ID: u16 = 0x0553;

/// The identity of the left half's notification characteristic
/// (cc1bbbb5-7354-4d32-a716-a81cb241a32a as one 128-bit value).
pub const JOYCON_LEFT_UUID: u128 = 0xcc1bbbb5_7354_4d32_a716_a81cb241a32a;

/// The identity of the right half's notification characteristic
/// (d5a9e01e-2ffc-4cca-b20c-8b67142bf442 as one 128-bit value).
pub const JOYCON_RIGHT_UUID: u128 = 0xd5a9e01e_2ffc_4cca_b20c_8b67142bf442;

/// The identity of the command characteristic
/// (649d4ac9-8eb7-4e6c-af44-1ea54fe5f005 as one 128-bit value).
pub const COMMAND_CHARACTERISTIC_UUID: u128 = 0x649d4ac9_8eb7_4e6c_af44_1ea54fe5f005;

/// The five-byte vendor signature an accepted advertisement's payload starts
/// with.
pub open spec fn vendor_signature() -> Seq<u8> {
    seq![1u8, 0u8, 3u8, 126u8, 5u8]
}

/// One scan advertisement: the manufacturer data as company-id/payload
/// pairs. The radio stack delivers each company id at most once per event.
#[derive(Debug)]
pub struct RawAdvertisement {
    pub manufacturer_data: Vec<(u16, Vec<u8>)>,
}

/// One discovered characteristic, by its own identity and its service's.
#[derive(Clone, Copy, Debug, PartialEq, Eq, Structural)]
pub struct CharacteristicInfo {
    pub uuid: u128,
    pub service_uuid: u128,
}

/// Whether a manufacturer-data payload starts with the vendor signature.
pub open spec fn payload_matches(payload: Seq<u8>) -> bool {
    payload.len() >= 5 && payload.subrange(0, 5) == vendor_signature()
}

/// Whether an advertisement is accepted: some entry for the vendor's company
/// id carries the signature prefix.
pub open spec fn advertisement_accepted_spec(adv: RawAdvertisement) -> bool {
    exists|i: int|
        0 <= i < adv.manufacturer_data@.len() && adv.manufacturer_data@[i].0 == VENDOR_COMPANY_ID
            && payload_matches(adv.manufacturer_data@[i].1@)
}

/// Whether this payload starts with the vendor signature.
pub fn payload_has_signature(payload: &Vec<u8>) -> (r: bool)
    ensures
        r == payload_matches(payload@),
{
    if payload.len() < 5 {
        return false;
    }
    let r = payload[0] == 1 && payload[1] == 0 && payload[2] == 3 && payload[3] == 126
        && payload[4] == 5;
    proof {
        if r {
            assert(payload@.subrange(0, 5) =~= vendor_signature());
        }
        if payload@.subrange(0, 5) == vendor_signature() {
            assert(payload@[0] == vendor_signature()[0]);
            assert(payload@[1] == vendor_signature()[1]);
            assert(payload@[2] == vendor_signature()[2]);
            assert(payload@[3] == vendor_signature()[3]);
            assert(payload@[4] == vendor_signature()[4]);
        }
    }
    r
}

/// Decide whether a scan advertisement is a candidate controller half:
/// accepted exactly when a vendor entry starts with the signature. Only an
/// accepted advertisement is ever connected to.
pub fn advertisement_accepted(adv: &RawAdvertisement) -> (r: bool)
    ensures
        r == advertisement_accepted_spec(*adv),
{
    let n = adv.manufacturer_data.len();
    let mut i: usize = 0;
    while i < n
        invariant
            i <= n,
            n == adv.manufacturer_data@.len(),
            forall|j: int|
                0 <= j < i ==> !(adv.manufacturer_data@[j].0 == VENDOR_COMPANY_ID
                    && payload_matches(adv.manufacturer_data@[j].1@)),
        decreases n - i,
    {
        let entry = &adv.manufacturer_data[i];
        if entry.0 == VENDOR_COMPANY_ID && payload_has_signature(&entry.1) {
            return true;
        }
        i = i + 1;
    }
    false
}

/// Law: an advertisement whose vendor payloads all lack the signature prefix
/// is never accepted, so discovery never connects to it.
pub proof fn lemma_unmatched_advertisement_rejected(adv: RawAdvertisement)
    requires
        forall|i: int|
            0 <= i < adv.manufacturer_data@.len() ==> (adv.manufacturer_data@[i].0
                == VENDOR_COMPANY_ID ==> !payload_matches(adv.manufacturer_data@[i].1@)),
    ensures
        !advertisement_accepted_spec(adv),
{
}

/// The half a characteristic list classifies a device as: the first
/// characteristic matching a known half identity wins; a device matches at
/// most one half per characteristic, so no device is dual-classified.
pub open spec fn classification_of(chars: Seq<CharacteristicInfo>) -> Option<Controller>
    decreases chars.len(),
{
    if chars.len() == 0 {
        None
    } else if chars[0].uuid == JOYCON_LEFT_UUID {
        Some(Controller::JoyconLeft)
    } else if chars[0].uuid == JOYCON_RIGHT_UUID {
        Some(Controller::JoyconRight)
    } else {
        classification_of(chars.skip(1))
    }
}

/// Classify a connected device by its discovered characteristics.
pub fn classify_characteristics(chars: &Vec<CharacteristicInfo>) -> (r: Option<Controller>)
    ensures
        r == classification_of(chars@),
{
    let n = chars.len();
    let mut i: usize = 0;
    proof {
        assert(chars@.skip(0) =~= chars@);
    }
    while i < n
        invariant
            i <= n,
            n == chars@.len(),
            classification_of(chars@) == classification_of(chars@.skip(i as int)),
        decreases n - i,
    {
        proof {
            assert(chars@.skip(i as int)[0] == chars@[i as int]);
            assert(chars@.skip(i as int).skip(1) =~= chars@.skip(i as int + 1));
        }
        let c = chars[i];
        if c.uuid == JOYCON_LEFT_UUID {
            return Some(Controller::JoyconLeft);
        }
        if c.uuid == JOYCON_RIGHT_UUID {
            return Some(Controller::JoyconRight);
        }
        i = i + 1;
    }
    proof {
        assert(chars@.skip(n as int) =~= Seq::<CharacteristicInfo>::empty());
    }
    None
}

/// Find the command characteristic: the first whose identity is
/// [`COMMAND_CHARACTERISTIC_UUID`].
pub fn find_command_characteristic(chars: &Vec<CharacteristicInfo>) -> (r: Option<usize>)
    ensures
        match r {
            Some(i) => 0 <= i < chars@.len() && chars@[i as int].uuid
                == COMMAND_CHARACTERISTIC_UUID && forall|j: int|
                0 <= j < i ==> chars@[j].uuid != COMMAND_CHARACTERISTIC_UUID,
            None => forall|j: int|
                0 <= j < chars@.len() ==> chars@[j].uuid != COMMAND_CHARACTERISTIC_UUID,
        },
{
    let n = chars.len();
    let mut i: usize = 0;
    while i < n
        invariant
            i <= n,
            n == chars@.len(),
            forall|j: int| 0 <= j < i ==> chars@[j].uuid != COMMAND_CHARACTERISTIC_UUID,
        decreases n - i,
    {
        if chars[i].uuid == COMMAND_CHARACTERISTIC_UUID {
            return Some(i);
        }
        i = i + 1;
    }
    None
}

/// The fixed initialization sequence written to a half before subscribing:
/// the LED frame with the standard intensity pattern, then the vibration
/// frame, in that order. A failed write aborts session creation.
pub fn initialization_frames() -> (frames: Vec<Vec<u8>>)
    ensures
        frames@.len() == 2,
        frames@[0]@ == set_led_frame(0b1001),
        frames@[1]@ == vibration_frame(),
{
    let mut frames: Vec<Vec<u8>> = Vec::new();
    frames.push(Commands::SetLED(0b1001).to_bytes());
    frames.push(Commands::SendVibration.to_bytes());
    frames
}

} // verus!
