use couveuse::bus::{
    device_line, family_code, find_devices, select_sensor, AddressError, DeviceLine, SearchAction,
    SearchEvent, DS18B20_FAMILY_CODE, SENSOR_ADDRESS,
};
use one_wire_bus::Address;

const ADDRESSES: [u64; 6] =
    [0, 0x28, 0x6B00_0000_363E_8B28, 0x0100_0000_0000_00FF, 0xABCD_EF01_2345_6709, u64::MAX];

fn joined(line: &DeviceLine) -> String {
    format!("{}{}{}", line.start, line.address.as_str(), line.family.as_str())
}

fn report(address: u64) -> String {
    joined(&device_line(address))
}

#[test]
fn family_code_is_the_lowest_byte() {
    assert_eq!(family_code(SENSOR_ADDRESS), 0x28);
    assert_eq!(family_code(0x1234_5678_9ABC_DEF0), 0xF0);
    assert_eq!(family_code(0x100), 0);
}

#[test]
fn configured_sensor_is_accepted() {
    assert_eq!(DS18B20_FAMILY_CODE, ds18b20::FAMILY_CODE);
    assert_eq!(SENSOR_ADDRESS, 0x6B000000363E8B28);
    assert_eq!(select_sensor(SENSOR_ADDRESS), Ok(SENSOR_ADDRESS));
}

#[test]
fn other_family_is_refused() {
    assert_eq!(select_sensor(0x6B00_0000_363E_8B10), Err(AddressError::FamilyCodeMismatch));
    assert_eq!(select_sensor(0x2800), Err(AddressError::FamilyCodeMismatch));
}

#[test]
fn device_lines() {
    assert_eq!(
        report(SENSOR_ADDRESS),
        "Found device at address 6B000000363E8B28 with family code: 0x28"
    );
    assert_eq!(
        report(0),
        "Found device at address 0000000000000000 with family code: 0x0"
    );
    assert_eq!(
        report(u64::MAX),
        "Found device at address FFFFFFFFFFFFFFFF with family code: 0xff"
    );
}

#[test]
fn device_lines_agree_with_the_driver() {
    for address in ADDRESSES {
        let device = Address(address);
        let expected = format!(
            "Found device at address {:?} with family code: {:#x?}",
            device,
            device.family_code()
        );
        assert_eq!(report(address), expected);
    }
    for code in 0..=255u64 {
        let expected = format!("0x{:x}", code);
        assert!(report(code).ends_with(&expected));
    }
}

#[test]
fn reports_differ() {
    for a in ADDRESSES {
        for b in ADDRESSES {
            assert_eq!(report(a) == report(b), a == b);
        }
    }
}

#[test]
fn search_reports_devices_and_ends() {
    match find_devices(SearchEvent::Found(SENSOR_ADDRESS)) {
        SearchAction::Report(line) => assert_eq!(joined(&line), report(SENSOR_ADDRESS)),
        _ => panic!("a found device must be reported"),
    }
    assert!(matches!(find_devices(SearchEvent::Failed), SearchAction::Halt));
    assert!(matches!(find_devices(SearchEvent::Finished), SearchAction::Leave));
}

#[test]
fn failed_search_reports_the_devices_found_before() {
    let events = [
        SearchEvent::Found(0x28),
        SearchEvent::Found(0x128),
        SearchEvent::Failed,
        SearchEvent::Found(0x228),
    ];
    let mut printed = Vec::new();
    for event in events {
        match find_devices(event) {
            SearchAction::Report(line) => printed.push(joined(&line)),
            SearchAction::Halt | SearchAction::Leave => break,
        }
    }
    assert_eq!(
        printed,
        vec![
            "Found device at address 0000000000000028 with family code: 0x28",
            "Found device at address 0000000000000128 with family code: 0x28",
        ]
    );
}
