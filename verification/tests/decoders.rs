use ccs811::AlgorithmResultsData;
use ccs811::Co2;
use ccs811::Ccs811Error;
use ccs811::DeviceError;
use ccs811::ErrorId;
use ccs811::MeasureDriveMode;
use ccs811::MeasureInterrupt;
use ccs811::MeasureThresh;
use ccs811::RegisterAddress;
use ccs811::Status;
use ccs811::Tvoc;
use ccs811::encode_meas_mode;
use ccs811::to_devise_error;

#[test]
fn status_succeeds_when_error_bit_clear() {
    for raw in 0u16..=255 {
        let raw = raw as u8;
        if raw & 0b0000_0001 == 0 {
            let s = Status::new(raw).expect("error bit clear must decode");
            assert_eq!(s.raw(), raw);
            assert_eq!(s.is_ready(), raw & 0b0000_1000 != 0);
            assert_eq!(s.is_value(), raw & 0b0001_0000 != 0);
            assert_eq!(s.is_app_mode(), raw & 0b1000_0000 != 0);
            assert!(!s.is_error());
        }
    }
}

#[test]
fn status_fails_with_raw_byte_attached_when_error_bit_set() {
    for raw in 0u16..=255 {
        let raw = raw as u8;
        if raw & 0b0000_0001 != 0 {
            match Status::new(raw) {
                Err(Ccs811Error::ErrorStatus(s)) => {
                    assert_eq!(s.raw(), raw);
                    assert!(s.is_error());
                }
                _ => panic!("error bit set must fail with the raw byte attached"),
            }
        }
    }
}

#[test]
fn status_raw_accessor_keeps_all_bits() {
    let s = Status::from_raw(0b1001_1001);
    assert_eq!(s.raw(), 0b1001_1001);
    assert!(s.is_error());
    assert!(s.is_ready());
    assert!(s.is_value());
    assert!(s.is_app_mode());
}

#[test]
fn error_id_causes_equal_set_bit_positions() {
    let causes = [
        DeviceError::MessageInvalid,
        DeviceError::ReadRegisterInvalid,
        DeviceError::MeasureModeInvalid,
        DeviceError::MaxResistance,
        DeviceError::HeaterFault,
        DeviceError::HeaterSupply,
    ];
    for raw in 0u16..=255 {
        let raw = raw as u8;
        let id = ErrorId::new(raw);
        // The decoded list holds exactly the causes whose bit is set,
        // in bit order low to high, with no placeholders.
        let expected: Vec<DeviceError> = causes
            .iter()
            .enumerate()
            .filter(|(i, _)| raw & (1 << i) != 0)
            .map(|(_, c)| *c)
            .collect();
        assert_eq!(id.errors(), expected.as_slice());
        for (i, cause) in causes.iter().enumerate() {
            let bit_set = raw & (1 << i) != 0;
            assert_eq!(id.errors().contains(cause), bit_set);
            assert_eq!(id.has_error(*cause), bit_set);
        }
        assert_eq!(id.has_any_error(), raw & 0b0011_1111 != 0);
    }
}

#[test]
fn error_id_zero_decodes_to_empty_cause_set() {
    let id = ErrorId::new(0);
    assert!(id.errors().is_empty());
    assert!(!id.has_any_error());
    assert!(!id.has_error(DeviceError::ReadRegisterInvalid));
}

#[test]
fn error_id_all_bits_decodes_to_all_causes_in_bit_order() {
    let id = ErrorId::new(0xFF);
    assert_eq!(
        id.errors(),
        &[
            DeviceError::MessageInvalid,
            DeviceError::ReadRegisterInvalid,
            DeviceError::MeasureModeInvalid,
            DeviceError::MaxResistance,
            DeviceError::HeaterFault,
            DeviceError::HeaterSupply,
        ]
    );
}

#[test]
fn to_devise_error_tests_a_single_cause_bit() {
    assert_eq!(
        to_devise_error(0b0000_0010, DeviceError::ReadRegisterInvalid),
        Some(DeviceError::ReadRegisterInvalid)
    );
    assert_eq!(to_devise_error(0b0000_0010, DeviceError::HeaterFault), None);
}

#[test]
fn result_block_decodes_big_endian_pairs() {
    let ard = AlgorithmResultsData::new([0x01, 0x90, 0x00, 0x00, 0x00, 0x00]);
    assert_eq!(ard.co2().ppm(), 400);
    assert_eq!(ard.tvoc().ppb(), 0);
    assert!(ard.status().is_ok());
}

#[test]
fn result_block_round_trips_any_pair() {
    let pairs: [(u16, u16); 5] = [(0, 0), (400, 0), (8192, 1187), (65535, 65535), (0x1234, 0xABCD)];
    for (co2, tvoc) in pairs {
        let block = [
            (co2 >> 8) as u8,
            (co2 & 0xFF) as u8,
            (tvoc >> 8) as u8,
            (tvoc & 0xFF) as u8,
            0x98,
            0x07,
        ];
        let ard = AlgorithmResultsData::new(block);
        assert_eq!(ard.co2().ppm(), co2);
        assert_eq!(ard.tvoc().ppb(), tvoc);
        let status = ard.status().expect("0x98 has the error bit clear");
        assert_eq!(status.raw(), 0x98);
    }
}

#[test]
fn result_block_propagates_embedded_error_status() {
    let ard = AlgorithmResultsData::new([0x00, 0x00, 0x00, 0x00, 0x01, 0x00]);
    match ard.status() {
        Err(Ccs811Error::ErrorStatus(s)) => assert_eq!(s.raw(), 0x01),
        _ => panic!("embedded error bit must fail the status decode"),
    }
}

#[test]
fn co2_plausible_range_is_400_to_8192() {
    assert!(!Co2::new(399).is_valid());
    assert!(Co2::new(400).is_valid());
    assert!(Co2::new(8192).is_valid());
    assert!(!Co2::new(8193).is_valid());
}

#[test]
fn tvoc_plausible_range_is_0_to_1187() {
    assert!(Tvoc::new(0).is_valid());
    assert!(Tvoc::new(1187).is_valid());
    assert!(!Tvoc::new(1188).is_valid());
}

#[test]
fn register_map_has_fixed_byte_offsets() {
    assert_eq!(RegisterAddress::Status.to_byte(), 0x00);
    assert_eq!(RegisterAddress::MeasMode.to_byte(), 0x01);
    assert_eq!(RegisterAddress::AlgResultData.to_byte(), 0x02);
    assert_eq!(RegisterAddress::RawData.to_byte(), 0x03);
    assert_eq!(RegisterAddress::EnvData.to_byte(), 0x05);
    assert_eq!(RegisterAddress::Ntc.to_byte(), 0x06);
    assert_eq!(RegisterAddress::Thresholds.to_byte(), 0x10);
    assert_eq!(RegisterAddress::Baseline.to_byte(), 0x11);
    assert_eq!(RegisterAddress::HwId.to_byte(), 0x20);
    assert_eq!(RegisterAddress::HwVersion.to_byte(), 0x21);
    assert_eq!(RegisterAddress::FwBootVersion.to_byte(), 0x23);
    assert_eq!(RegisterAddress::FwAppVersion.to_byte(), 0x24);
    assert_eq!(RegisterAddress::ErrorId.to_byte(), 0xE0);
    assert_eq!(RegisterAddress::AppStart.to_byte(), 0xF4);
    assert_eq!(RegisterAddress::SwReset.to_byte(), 0xFF);
}

#[test]
fn mode_byte_packs_three_bit_groups() {
    assert_eq!(
        encode_meas_mode(
            MeasureDriveMode::EverySecond,
            MeasureInterrupt::Disable,
            MeasureThresh::Disable,
        ),
        0b0001_0000
    );
    assert_eq!(
        encode_meas_mode(
            MeasureDriveMode::Idle,
            MeasureInterrupt::Disable,
            MeasureThresh::Disable,
        ),
        0b0000_0000
    );
    assert_eq!(
        encode_meas_mode(
            MeasureDriveMode::EveryTenSeconds,
            MeasureInterrupt::Enable,
            MeasureThresh::Enable,
        ),
        0b0010_1100
    );
    assert_eq!(
        encode_meas_mode(
            MeasureDriveMode::EveryMinute,
            MeasureInterrupt::Enable,
            MeasureThresh::Disable,
        ),
        0b0011_1000
    );
    assert_eq!(
        encode_meas_mode(
            MeasureDriveMode::Raw,
            MeasureInterrupt::Disable,
            MeasureThresh::Disable,
        ),
        0b0100_1000
    );
}
