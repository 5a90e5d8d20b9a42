use joycon_bridge::discovery::{
    advertisement_accepted, classify_characteristics, find_command_characteristic,
    initialization_frames, payload_has_signature, COMMAND_CHARACTERISTIC_UUID, JOYCON_LEFT_UUID,
    JOYCON_RIGHT_UUID, VENDOR_COMPANY_ID,
};
use joycon_bridge::{CharacteristicInfo, Commands, Controller, RawAdvertisement};

fn adv(entries: Vec<(u16, Vec<u8>)>) -> RawAdvertisement {
    RawAdvertisement { manufacturer_data: entries }
}

fn characteristic(uuid: u128) -> CharacteristicInfo {
    CharacteristicInfo { uuid, service_uuid: 0 }
}

#[test]
fn signed_vendor_payload_is_accepted() {
    // A real advertisement payload: the five-byte signature then extra data.
    let payload = vec![
        1, 0, 3, 126, 5, 103, 32, 0, 1, 0, 0, 0, 0, 0, 0, 0, 15, 0, 0, 0, 0, 0, 0, 0,
    ];
    assert!(advertisement_accepted(&adv(vec![(VENDOR_COMPANY_ID, payload)])));
}

#[test]
fn unsigned_payload_is_never_accepted() {
    // Wrong prefix byte: not a candidate, never connected to.
    assert!(!advertisement_accepted(&adv(vec![(
        VENDOR_COMPANY_ID,
        vec![2, 0, 3, 126, 5, 103, 32]
    )])));
    // Signature bytes in the wrong order.
    assert!(!advertisement_accepted(&adv(vec![(
        VENDOR_COMPANY_ID,
        vec![0, 1, 3, 126, 5]
    )])));
    // Too short to carry the signature.
    assert!(!advertisement_accepted(&adv(vec![(VENDOR_COMPANY_ID, vec![1, 0, 3, 126])])));
}

#[test]
fn other_company_ids_are_ignored() {
    let signed = vec![1, 0, 3, 126, 5];
    assert!(!advertisement_accepted(&adv(vec![(0x004C, signed.clone())])));
    // The right payload under the right company id among others is found.
    assert!(advertisement_accepted(&adv(vec![
        (0x004C, vec![9, 9, 9]),
        (VENDOR_COMPANY_ID, signed),
    ])));
}

#[test]
fn empty_advertisement_is_ignored() {
    assert!(!advertisement_accepted(&adv(vec![])));
}

#[test]
fn exact_signature_only_payload_is_accepted() {
    assert!(payload_has_signature(&vec![1, 0, 3, 126, 5]));
    assert!(!payload_has_signature(&vec![1, 0, 3, 126]));
}

#[test]
fn classification_picks_the_matching_half() {
    let left = vec![characteristic(0x1234), characteristic(JOYCON_LEFT_UUID)];
    assert_eq!(classify_characteristics(&left), Some(Controller::JoyconLeft));

    let right = vec![characteristic(JOYCON_RIGHT_UUID)];
    assert_eq!(classify_characteristics(&right), Some(Controller::JoyconRight));

    let neither = vec![characteristic(0x1234), characteristic(COMMAND_CHARACTERISTIC_UUID)];
    assert_eq!(classify_characteristics(&neither), None);
    assert_eq!(classify_characteristics(&vec![]), None);
}

#[test]
fn classification_first_match_wins() {
    let both = vec![
        characteristic(JOYCON_RIGHT_UUID),
        characteristic(JOYCON_LEFT_UUID),
    ];
    assert_eq!(classify_characteristics(&both), Some(Controller::JoyconRight));
}

#[test]
fn command_characteristic_is_found_by_identity() {
    let chars = vec![
        characteristic(JOYCON_LEFT_UUID),
        characteristic(COMMAND_CHARACTERISTIC_UUID),
    ];
    assert_eq!(find_command_characteristic(&chars), Some(1));
    let none = vec![characteristic(JOYCON_LEFT_UUID)];
    assert_eq!(find_command_characteristic(&none), None);
}

#[test]
fn initialization_writes_led_then_vibration() {
    let frames = initialization_frames();
    assert_eq!(frames.len(), 2);
    assert_eq!(frames[0], Commands::SetLED(0b1001).to_bytes());
    assert_eq!(frames[1], Commands::SendVibration.to_bytes());
}
