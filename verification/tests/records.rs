use ocsd::data::{OcsdDeviceHeaderData, OcsdHeaderData, OcsdSensorData};
use ocsd::MemoryMapped;

#[test]
fn checksum_null() {
    let sensor_data: Vec<u8> = vec![
        0x00, 0x00, 0x00, 0x00, 0x00, 0x00, 0x00, 0x00, 0x00, 0x00, 0x00, 0x00, 0x00, 0x00, 0x00,
        0x00, 0x00, 0x00, 0x00, 0x00, 0x00, 0x00, 0x00, 0x00, 0x00, 0x00, 0x00, 0x00, 0x00, 0x00,
        0x00, 0x00,
    ];
    let sensor = OcsdSensorData::decode(&sensor_data);
    assert_eq!(sensor.checksum(0x03), sensor.checksum);
}

#[test]
fn checksum_1() {
    let sensor_data: Vec<u8> = vec![
        0x01, 0x00, 0x00, 0x00, 0x01, 0x00, 0x00, 0x00, 0x67, 0x00, 0x00, 0x00, 0x5d, 0x00, 0x00,
        0x00, 0x00, 0x00, 0x0b, 0x00, 0x23, 0x00, 0x00, 0x00, 0x83, 0xdb, 0x00, 0x00, 0x91, 0x23,
        0xf4, 0xff,
    ];
    let sensor = OcsdSensorData::decode(&sensor_data);
    assert_eq!(sensor.checksum(0x03), sensor.checksum);

    let new_sensor = sensor.clone();
    assert_eq!(
        OcsdSensorData {
            checksum: new_sensor.checksum(0x03),
            ..new_sensor
        }
        .encode(),
        sensor_data
    );
}

#[test]
fn checksum_2() {
    let sensor_data: Vec<u8> = vec![
        0x01, 0x00, 0x00, 0x00, 0x05, 0x00, 0x00, 0x00, 0x4e, 0x00, 0x00, 0x00, 0x44, 0x00, 0x00,
        0x00, 0x00, 0x00, 0x0b, 0x00, 0x18, 0x00, 0x00, 0x00, 0x82, 0xdb, 0x00, 0x00, 0xcb, 0x23,
        0xf4, 0xff,
    ];
    let sensor = OcsdSensorData::decode(&sensor_data);
    assert_eq!(sensor.checksum(0x03), sensor.checksum);
}

#[test]
fn null_sensor_checksum_any_bus() {
    for bus in [0u8, 1, 3, 7, 255] {
        let null_record = OcsdSensorData::new(0, 0, 0, 0, 0, 0, 0, 0, bus);
        assert_eq!(null_record.checksum, 0);
        assert_eq!(null_record.checksum(bus), 0);
    }
}

#[test]
fn sensor_data_fields_and_checksum() {
    // The known-vector record, built by hand: checksum folds in the bus.
    let record = OcsdSensorData::new(0x01, 0x00000001, 0x67, 0x5d, 0x23, 0x0000, 0x000b, 0xdb83, 0x03);
    assert_eq!(record.configuration_status, 0x000b0000);
    assert_eq!(record.configuration(), 0x0000);
    assert_eq!(record.status(), 0x000b);
    assert_eq!(record.checksum, 0xfff42391);
}

#[test]
fn header_data_checksum_exact() {
    let header = OcsdHeaderData::new(2, 320, 2, 160, 0x1000, 1, 1);
    // Field sum is 4582; the checksum is its additive inverse modulo 2^32.
    assert_eq!(header.checksum, 0xffffee1a);
    assert_eq!(header.checksum(), 0xffffee1a);
}

#[test]
fn header_data_encode_decode() {
    let header = OcsdHeaderData::new(2, 320, 2, 160, 0x1000, 1, 1);
    let bytes = header.encode();
    assert_eq!(bytes.len(), 64);
    // The last four bytes hold the checksum, little-endian.
    assert_eq!(&bytes[60..64], &[0x1a, 0xee, 0xff, 0xff]);
    let decoded = OcsdHeaderData::decode(&bytes);
    assert_eq!(decoded, header);
}

#[test]
fn device_header_data_encode_exact() {
    let header = OcsdDeviceHeaderData::new(1, 4, 0, 0x10);
    // Field sum is 21 = 0x15; checksum is 0xffffffeb.
    assert_eq!(header.checksum, 0xffffffeb);
    let bytes = header.encode();
    let mut expected = vec![0u8; 64];
    expected[0] = 0x01; // version
    expected[4] = 0x04; // pci_bus
    // pci_device 0, reserved fields zero
    expected[20] = 0x10; // flags_caps
    expected[60] = 0xeb;
    expected[61] = 0xff;
    expected[62] = 0xff;
    expected[63] = 0xff;
    assert_eq!(bytes, expected);
}

#[test]
fn decode_is_passive() {
    // Unrecognized codes and a stored checksum that disagrees with the
    // recomputed one are preserved, never rejected.
    let mut bytes = vec![0u8; 32];
    bytes[0] = 9; // unknown sensor type code
    bytes[4] = 2; // unknown location code
    bytes[28] = 0xde;
    bytes[29] = 0xad;
    let record = OcsdSensorData::decode(&bytes);
    assert_eq!(record.sensor_type, 9);
    assert_eq!(record.sensor_location, 2);
    assert_eq!(record.checksum, 0x0000adde);
    assert_ne!(record.checksum(0), record.checksum);
}

#[test]
fn typed_decode_maps_unknown_codes() {
    let mut bytes = vec![0u8; 32];
    bytes[0] = 9;
    bytes[4] = 2;
    let sensor = ocsd::OcsdSensor::from_bytes(&bytes);
    assert_eq!(sensor.sensor_type, ocsd::OcsdSensorType::Unknown);
    assert_eq!(sensor.sensor_location, ocsd::OcsdSensorLocation::Unknown);
    assert_eq!(sensor.bus, None);
}
