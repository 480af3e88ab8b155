use sds011_exporter::{
    checksum, parse_packet, Error, GetFirmwareVersionResponse, QueryResponse, ReportingMode, Resp,
    Response, SetDeviceIdResponse, SetReportingModeResponse, SetSleepWorkResponse,
    SetWorkingPeriodResponse, WorkMode, WorkingPeriod,
};

fn frame(command: u8, data: [u8; 6]) -> Vec<u8> {
    let mut bytes = vec![0xAA, command];
    bytes.extend_from_slice(&data);
    bytes.push(checksum(&data));
    bytes.push(0xAB);
    bytes
}

fn packet_error(result: Result<Resp, Error>) -> String {
    match result {
        Err(Error::PacketError(message)) => message,
        other => panic!("unexpected: {:?}", other),
    }
}

#[test]
fn decodes_working_period_response() {
    let bytes = [0xAA, 0xC5, 0x08, 0x00, 0x05, 0x00, 0xA1, 0x60, 0x0E, 0xAB];
    assert_eq!(
        parse_packet(&bytes).unwrap(),
        Resp::SetWorkingPeriod(SetWorkingPeriodResponse {
            query: true,
            working_period: WorkingPeriod::Periodic(5),
            device: 0xA160,
        })
    );
}

#[test]
fn decodes_query_response() {
    let bytes = frame(0xC0, [0x34, 0x00, 0x50, 0x00, 0xA1, 0x60]);
    let response = parse_packet(&bytes).unwrap();
    assert_eq!(response, Resp::Query(QueryResponse { pm25_tenths: 52, pm10_tenths: 80, device: 0xA160 }));
    match response {
        Resp::Query(reading) => {
            assert_eq!(reading.pm25_tenths as f32 / 10f32, 5.2);
            assert_eq!(reading.pm10_tenths as f32 / 10f32, 8.0);
        }
        other => panic!("unexpected: {:?}", other),
    }
}

#[test]
fn query_response_readings_are_little_endian() {
    let bytes = frame(0xC0, [0x01, 0x02, 0x03, 0x04, 0x05, 0x06]);
    assert_eq!(
        parse_packet(&bytes).unwrap(),
        Resp::Query(QueryResponse { pm25_tenths: 0x0201, pm10_tenths: 0x0403, device: 0x0506 })
    );
}

#[test]
fn query_response_ignores_the_first_data_byte_for_dispatch() {
    for first in [0x00u8, 0x02, 0x05, 0xFF] {
        let bytes = frame(0xC0, [first, 0, 0, 0, 0, 1]);
        assert!(matches!(parse_packet(&bytes), Ok(Resp::Query(_))));
    }
}

#[test]
fn decodes_reporting_mode_response() {
    let bytes = frame(0xC5, [0x02, 0x01, 0x01, 0x00, 0x12, 0x34]);
    assert_eq!(
        parse_packet(&bytes).unwrap(),
        Resp::SetReportingMode(SetReportingModeResponse {
            query: false,
            mode: ReportingMode::Query,
            device: 0x1234,
        })
    );
    let bytes = frame(0xC5, [0x02, 0x00, 0x00, 0x00, 0x00, 0x01]);
    assert_eq!(
        parse_packet(&bytes).unwrap(),
        Resp::SetReportingMode(SetReportingModeResponse {
            query: true,
            mode: ReportingMode::Active,
            device: 1,
        })
    );
}

#[test]
fn decodes_device_id_response() {
    let bytes = frame(0xC5, [0x05, 0x00, 0x00, 0x00, 0xA0, 0x01]);
    assert_eq!(
        parse_packet(&bytes).unwrap(),
        Resp::SetDeviceId(SetDeviceIdResponse { device: 0xA001 })
    );
}

#[test]
fn decodes_sleep_work_response() {
    let bytes = frame(0xC5, [0x06, 0x01, 0x00, 0x00, 0xA1, 0x60]);
    assert_eq!(
        parse_packet(&bytes).unwrap(),
        Resp::SetSleepWork(SetSleepWorkResponse {
            query: false,
            mode: WorkMode::Sleep,
            device: 0xA160,
        })
    );
    let bytes = frame(0xC5, [0x06, 0x00, 0x01, 0x00, 0xA1, 0x60]);
    assert_eq!(
        parse_packet(&bytes).unwrap(),
        Resp::SetSleepWork(SetSleepWorkResponse {
            query: true,
            mode: WorkMode::Work,
            device: 0xA160,
        })
    );
}

#[test]
fn decodes_continuous_working_period() {
    let bytes = frame(0xC5, [0x08, 0x01, 0x00, 0x00, 0xA1, 0x60]);
    assert_eq!(
        parse_packet(&bytes).unwrap(),
        Resp::SetWorkingPeriod(SetWorkingPeriodResponse {
            query: false,
            working_period: WorkingPeriod::Continuous,
            device: 0xA160,
        })
    );
}

#[test]
fn decodes_firmware_version_response() {
    let bytes = frame(0xC5, [0x07, 0x0F, 0x07, 0x0A, 0x01, 0x02]);
    assert_eq!(
        parse_packet(&bytes).unwrap(),
        Resp::GetFirmwareVersion(GetFirmwareVersionResponse {
            year: 15,
            month: 7,
            day: 10,
            device: 0x0102,
        })
    );
}

#[test]
fn tail_and_header_are_not_validated() {
    let mut bytes = frame(0xC5, [0x07, 0x0F, 0x07, 0x0A, 0x01, 0x02]);
    bytes[0] = 0x00;
    bytes[9] = 0x00;
    assert!(matches!(parse_packet(&bytes), Ok(Resp::GetFirmwareVersion(_))));
}

#[test]
fn rejects_wrong_length() {
    assert_eq!(
        packet_error(parse_packet(&[0xAA, 0xC5])),
        "packet has invalid length: [aa, c5]"
    );
    assert_eq!(packet_error(parse_packet(&[])), "packet has invalid length: []");
    let long = [0xAA, 0xC5, 0x08, 0x00, 0x05, 0x00, 0xA1, 0x60, 0x0E, 0xAB, 0x00];
    assert_eq!(
        packet_error(parse_packet(&long)),
        "packet has invalid length: [aa, c5, 8, 0, 5, 0, a1, 60, e, ab, 0]"
    );
}

#[test]
fn rejects_bad_checksum() {
    let bytes = [0xAA, 0xC5, 0x08, 0x00, 0x05, 0x00, 0xA1, 0x60, 0x0F, 0xAB];
    assert_eq!(
        packet_error(parse_packet(&bytes)),
        "packet ([aa, c5, 8, 0, 5, 0, a1, 60, f, ab]) has invalid checksum: expected=e received=f"
    );
}

#[test]
fn rejects_unknown_command() {
    let bytes = frame(0xC5, [0x03, 0x00, 0x00, 0x00, 0x00, 0x00]);
    assert_eq!(
        packet_error(parse_packet(&bytes)),
        "packet ([aa, c5, 3, 0, 0, 0, 0, 0, 3, ab]) has invalid command: c5/3"
    );
    let bytes = frame(0xB4, [0x02, 0x00, 0x00, 0x00, 0x00, 0x00]);
    assert_eq!(
        packet_error(parse_packet(&bytes)),
        "packet ([aa, b4, 2, 0, 0, 0, 0, 0, 2, ab]) has invalid command: b4/2"
    );
}

#[test]
fn checksum_is_looked_at_before_the_command() {
    let mut bytes = frame(0xC5, [0x03, 0x00, 0x00, 0x00, 0x00, 0x00]);
    bytes[8] = 0x00;
    assert!(packet_error(parse_packet(&bytes)).contains("has invalid checksum"));
}

#[test]
fn valid_frames_carry_their_checksum() {
    let bytes = [0xAA, 0xC5, 0x08, 0x00, 0x05, 0x00, 0xA1, 0x60, 0x0E, 0xAB];
    assert!(parse_packet(&bytes).is_ok());
    assert_eq!(checksum(&bytes[2..=7]), bytes[8]);
}

#[test]
fn corrupting_any_covered_byte_is_a_checksum_error() {
    let good = [0xAA, 0xC5, 0x08, 0x00, 0x05, 0x00, 0xA1, 0x60, 0x0E, 0xAB];
    for index in 2..=7 {
        for value in 0..=255u8 {
            if value == good[index] {
                continue;
            }
            let mut bytes = good;
            bytes[index] = value;
            let message = packet_error(parse_packet(&bytes));
            assert!(message.contains("has invalid checksum"), "{}", message);
            assert!(message.ends_with("received=e"), "{}", message);
        }
    }
}

#[test]
fn unpacks_the_matching_kind() {
    let inner = SetDeviceIdResponse { device: 7 };
    assert_eq!(SetDeviceIdResponse::unpack_resp(Resp::SetDeviceId(inner)).unwrap(), inner);
    let inner = QueryResponse { pm25_tenths: 1, pm10_tenths: 2, device: 3 };
    assert_eq!(Resp::Query(inner).try_into_response::<QueryResponse>().unwrap(), inner);
    let inner = SetReportingModeResponse { query: true, mode: ReportingMode::Active, device: 3 };
    assert_eq!(
        Resp::SetReportingMode(inner).try_into_response::<SetReportingModeResponse>().unwrap(),
        inner
    );
    let inner = SetSleepWorkResponse { query: true, mode: WorkMode::Work, device: 3 };
    assert_eq!(
        Resp::SetSleepWork(inner).try_into_response::<SetSleepWorkResponse>().unwrap(),
        inner
    );
    let inner = SetWorkingPeriodResponse {
        query: true,
        working_period: WorkingPeriod::Continuous,
        device: 3,
    };
    assert_eq!(
        Resp::SetWorkingPeriod(inner).try_into_response::<SetWorkingPeriodResponse>().unwrap(),
        inner
    );
    let inner = GetFirmwareVersionResponse { year: 1, month: 2, day: 3, device: 4 };
    assert_eq!(
        Resp::GetFirmwareVersion(inner).try_into_response::<GetFirmwareVersionResponse>().unwrap(),
        inner
    );
}

#[test]
fn refuses_to_unpack_another_kind() {
    let resp = Resp::Query(QueryResponse { pm25_tenths: 1, pm10_tenths: 2, device: 3 });
    match resp.try_into_response::<SetDeviceIdResponse>() {
        Err(Error::InvalidResponseConversion { resp: given, target }) => {
            assert_eq!(given, resp);
            assert_eq!(target, "SetDeviceIdResponse");
        }
        other => panic!("unexpected: {:?}", other),
    }
    let resp = Resp::SetDeviceId(SetDeviceIdResponse { device: 7 });
    let targets = [
        resp.try_into_response::<QueryResponse>().map(|_| ()),
        resp.try_into_response::<SetReportingModeResponse>().map(|_| ()),
        resp.try_into_response::<SetSleepWorkResponse>().map(|_| ()),
        resp.try_into_response::<SetWorkingPeriodResponse>().map(|_| ()),
        resp.try_into_response::<GetFirmwareVersionResponse>().map(|_| ()),
    ];
    let names = [
        "QueryResponse",
        "SetReportingModeResponse",
        "SetSleepWorkResponse",
        "SetWorkingPeriodResponse",
        "GetFirmwareVersionResponse",
    ];
    for (result, name) in targets.into_iter().zip(names) {
        match result {
            Err(Error::InvalidResponseConversion { resp: given, target }) => {
                assert_eq!(given, resp);
                assert_eq!(target, name);
            }
            other => panic!("unexpected: {:?}", other),
        }
    }
}
