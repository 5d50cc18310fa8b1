//! Device keys and routes.

use openlogi::device::{DeviceModelInfo, DeviceRoute, DeviceTransports};
use openlogi::device_order::DeviceStableId;
use openlogi::gui::state::devices::{direct_key_prefix, is_transient};

#[test]
fn a_receiver_slot_has_a_key_of_its_own() {
    let route = DeviceRoute::Bolt {
        receiver_uid: "AA00".to_string(),
        slot: 2,
    };
    let id = DeviceStableId::from_parts(Some(&route), 2, None, [0; 4]);
    assert_eq!(id.key().as_deref(), Some("receiver:aa00:slot:2"));
    assert_eq!(id.physical_key(), id.key());
    assert!(!id.is_transient());
}

#[test]
fn a_serial_number_wins_over_the_unit() {
    let route = DeviceRoute::Direct {
        vendor_id: 0x046d,
        product_id: 0xb023,
    };
    let serial = DeviceStableId::from_parts(Some(&route), 0xff, Some("ABC123"), [1, 2, 3, 4]);
    assert_eq!(
        serial.key().as_deref(),
        Some("direct:046d:b023:serial:abc123")
    );
    let unit = DeviceStableId::from_parts(Some(&route), 0xff, None, [1, 2, 3, 4]);
    assert_eq!(unit.key().as_deref(), Some("direct:046d:b023:unit:01020304"));
    assert!(unit.same(&DeviceStableId::from_parts(
        Some(&route),
        0xff,
        None,
        [1, 2, 3, 4]
    )));
    assert!(!unit.same(&serial));
}

#[test]
fn a_half_read_unit_is_transient() {
    let route = DeviceRoute::Direct {
        vendor_id: 0x046d,
        product_id: 0xb023,
    };
    let id = DeviceStableId::from_parts(Some(&route), 0xff, None, [0; 4]);
    assert!(id.is_transient());
    assert_eq!(id.physical_key(), None);
    assert!(is_transient("direct:046d:b023:unit:00000000"));
    assert!(!is_transient("direct:046d:b023:unit:00000001"));
    assert!(!is_transient("receiver:aa00:slot:2"));
    assert_eq!(
        direct_key_prefix("direct:046d:b023:unit:00000000").as_deref(),
        direct_key_prefix("direct:046d:b023:serial:abc123").as_deref()
    );
    assert_eq!(direct_key_prefix("receiver:aa00:slot:2"), None);
}

#[test]
fn model_keys_and_anonymous_models() {
    let model = DeviceModelInfo {
        entity_count: 1,
        serial_number: Some("ABC123".to_string()),
        unit_id: [1, 2, 3, 4],
        transports: DeviceTransports::default(),
        model_ids: [0xb034, 0, 0],
        extended_model_id: 2,
    };
    assert_eq!(model.config_key(), "2b034");
    let anonymous = model.anonymized();
    assert_eq!(anonymous.serial_number, None);
    assert_eq!(anonymous.unit_id, [0; 4]);
    assert_eq!(anonymous.config_key(), model.config_key());
}
