use ocsd::{
    Celsius, DeviceVersion, MemoryMapped, OcsdDevice, OcsdDeviceHeader, OcsdHeader, OcsdSensor,
    OcsdSensorLocation, OcsdSensorStatus, OcsdSensorType, OcsdVersion,
};

fn sample_sensor(bus: u8) -> OcsdSensor {
    OcsdSensor {
        sensor_type: OcsdSensorType::Thermal,
        sensor_location: OcsdSensorLocation::InternalToAsic,
        configuration: 0x0000,
        status: OcsdSensorStatus::with_checksum()
            .union(OcsdSensorStatus::present())
            .union(OcsdSensorStatus::not_failed()),
        max_continuous_threshold: Celsius::new(80).unwrap(),
        caution_threshold: Celsius::new(90).unwrap(),
        reading: Celsius::new(40).unwrap(),
        update_count: 0x23,
        bus: Some(bus),
    }
}

#[test]
fn status_flags_combine() {
    let status = OcsdSensorStatus::not_failed()
        .union(OcsdSensorStatus::present())
        .union(OcsdSensorStatus::with_checksum());
    assert_eq!(status.bits, 0x000b);
    assert_eq!(OcsdSensorStatus::disabled().bits, 0x4);
    assert_eq!(OcsdSensorStatus::empty().bits, 0);
    assert_eq!(OcsdSensorStatus::default().bits, 0);
}

#[test]
fn enum_codes_decode_total() {
    assert_eq!(OcsdSensorType::from(1), OcsdSensorType::Thermal);
    assert_eq!(OcsdSensorType::from(0), OcsdSensorType::Unknown);
    assert_eq!(OcsdSensorType::from(9), OcsdSensorType::Unknown);
    assert_eq!(OcsdSensorLocation::from(1), OcsdSensorLocation::InternalToAsic);
    assert_eq!(OcsdSensorLocation::from(5), OcsdSensorLocation::OnboardOther);
    assert_eq!(OcsdSensorLocation::from(2), OcsdSensorLocation::Unknown);
    assert_eq!(OcsdVersion::from(2), OcsdVersion::Version2);
    assert_eq!(OcsdVersion::from(3), OcsdVersion::Unknown);
    assert_eq!(DeviceVersion::from(1), DeviceVersion::Version1);
    assert_eq!(DeviceVersion::from(2), DeviceVersion::Unknown);
}

#[test]
fn sensor_round_trip_except_bus() {
    let sensor = sample_sensor(0x04);
    let bytes = sensor.to_bytes();
    assert_eq!(bytes.len(), 32);
    let decoded = OcsdSensor::from_bytes(&bytes);
    assert_eq!(decoded.sensor_type, sensor.sensor_type);
    assert_eq!(decoded.sensor_location, sensor.sensor_location);
    assert_eq!(decoded.configuration, sensor.configuration);
    assert_eq!(decoded.status, sensor.status);
    assert_eq!(
        decoded.max_continuous_threshold.raw_value(),
        sensor.max_continuous_threshold.raw_value()
    );
    assert_eq!(
        decoded.caution_threshold.raw_value(),
        sensor.caution_threshold.raw_value()
    );
    assert_eq!(decoded.reading.raw_value(), sensor.reading.raw_value());
    assert_eq!(decoded.update_count, sensor.update_count);
    assert_eq!(decoded.bus, None);
}

#[test]
fn sensor_without_bus_encodes_to_zeroes() {
    let mut sensor = sample_sensor(0x04);
    sensor.bus = None;
    let bytes = sensor.to_bytes();
    assert_eq!(bytes, vec![0u8; 32]);
}

#[test]
fn header_round_trip() {
    let header = OcsdHeader {
        ocsd_version: OcsdVersion::Version2,
        buffer_size: 320,
        max_option_cards: 2,
        one_option_card_size: 160,
        buffer_start_address: 0x1000,
        update_interval: 1,
        buffers_in_use: 1,
    };
    let bytes = header.to_bytes();
    assert_eq!(bytes.len(), OcsdHeader::memory_size());
    // The checksum of the six scalar fields, stored in the last four bytes,
    // is the two's-complement negative of their sum.
    assert_eq!(&bytes[60..64], &[0x1a, 0xee, 0xff, 0xff]);
    let decoded = OcsdHeader::from_bytes(&bytes);
    assert_eq!(decoded, header);
}

#[test]
fn device_round_trip_with_absent_middle_sensor() {
    let device = OcsdDevice {
        header: OcsdDeviceHeader {
            version: DeviceVersion::Version1,
            pci_bus: 0x04,
            pci_device: 0x00,
            flags_caps: 0x00000010,
        },
        sensors: [sample_sensor(0x04), OcsdSensor::default(), sample_sensor(0x04)],
    };
    let bytes = device.to_bytes();
    assert_eq!(bytes.len(), OcsdDevice::memory_size());
    assert_eq!(bytes.len(), 160);
    // The middle sensor slot is absent (no bus): its 32 bytes are all zero.
    assert_eq!(&bytes[96..128], &[0u8; 32]);

    let decoded = OcsdDevice::from_bytes(&bytes);
    assert_eq!(decoded.header, device.header);
    for i in 0..3 {
        assert_eq!(decoded.sensors[i].sensor_type, device.sensors[i].sensor_type);
        assert_eq!(decoded.sensors[i].sensor_location, device.sensors[i].sensor_location);
        assert_eq!(decoded.sensors[i].configuration, device.sensors[i].configuration);
        assert_eq!(decoded.sensors[i].status, device.sensors[i].status);
        assert_eq!(
            decoded.sensors[i].reading.raw_value(),
            device.sensors[i].reading.raw_value()
        );
        assert_eq!(decoded.sensors[i].update_count, device.sensors[i].update_count);
        assert_eq!(decoded.sensors[i].bus, None);
    }
}

#[test]
fn device_header_round_trip() {
    let header = OcsdDeviceHeader {
        version: DeviceVersion::Version1,
        pci_bus: 0x04,
        pci_device: 0x00,
        flags_caps: 0x00000010,
    };
    let bytes = header.to_bytes();
    assert_eq!(bytes.len(), OcsdDeviceHeader::memory_size());
    let decoded = OcsdDeviceHeader::from_bytes(&bytes);
    assert_eq!(decoded, header);
}

#[test]
fn device_slot_addressing() {
    let header = OcsdHeader {
        ocsd_version: OcsdVersion::Version2,
        buffer_size: 320,
        max_option_cards: 2,
        one_option_card_size: 160,
        buffer_start_address: 0x1000,
        update_interval: 1,
        buffers_in_use: 1,
    };
    assert_eq!(header.device_slot_address(0).unwrap(), 0x1000);
    assert_eq!(header.device_slot_address(1).unwrap(), 0x1000 + 160);
    let error = header.device_slot_address(2).unwrap_err();
    assert_eq!(
        error.message(),
        "requested device index does not fit max number of option cards"
    );
    assert!(header.device_slot_address(255).is_err());
}
