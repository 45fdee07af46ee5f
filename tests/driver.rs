use dacal::error::{classify, CommandError};
use dacal::protocol::{command_outcome, GET_STATUS, IDENTIFY, LED_OFF, LED_ON, MOVE_TO, RESET, RETRACT};
use dacal::status::{decode_status, get_id, status_from_decoded};
use dacal::{
    cmd_close, cmd_open, cmd_reset, control_request, devices, is_spindle, Dacal, DacalStatus,
    Probe, Session, SpindleError, TransportError,
};

/// A transport that answers from a script and records the commands issued.
struct FakeTransport {
    open_error: Option<TransportError>,
    responses: Vec<Result<Vec<u8>, TransportError>>,
    issued: Vec<u8>,
}

impl FakeTransport {
    fn new(responses: Vec<Result<Vec<u8>, TransportError>>) -> FakeTransport {
        FakeTransport { open_error: None, responses, issued: Vec::new() }
    }

    fn run(&mut self, session: &mut Session) {
        if let Some(e) = self.open_error {
            session.open_failed(e);
            return;
        }
        while let Some(code) = session.next_command() {
            self.issued.push(code);
            let read = if self.responses.is_empty() {
                Err(TransportError::Timeout)
            } else {
                self.responses.remove(0)
            };
            session.on_response(read);
        }
    }
}

/// A string descriptor holding `text` as UTF-16LE.
fn text_response(text: &str) -> Vec<u8> {
    let mut bytes = vec![0u8, 0x03];
    for unit in text.encode_utf16() {
        bytes.extend_from_slice(&unit.to_le_bytes());
    }
    bytes[0] = bytes.len() as u8;
    bytes
}

fn ack() -> Result<Vec<u8>, TransportError> {
    Ok(text_response("ACK"))
}

fn spindle(id: u16) -> Dacal<u32> {
    Dacal { id, device: 7 }
}

fn identification(hi: u8, lo: u8) -> Vec<u8> {
    vec![0x08, 0x03, 0x00, 0x00, hi, 0xaa, lo, 0xbb]
}

fn probe(device: u32, vendor_id: u16, identification: Result<Vec<u8>, TransportError>) -> Probe<u32> {
    Probe { device, vendor_id, product_id: 0x5a9b, identification }
}

#[test]
fn access_slot_out_of_range_issues_nothing() {
    let d = spindle(45540);
    for n in [0u8, 151, 200, 255] {
        match d.access_slot(n) {
            Err(SpindleError::NoSlot { id, number }) => {
                assert_eq!(id, 45540);
                assert_eq!(number, n);
            }
            _ => panic!("slot {} accepted", n),
        }
    }
}

#[test]
fn access_slot_edges_are_accepted() {
    let d = spindle(1);
    for n in [1u8, 150] {
        let mut s = d.access_slot(n).ok().unwrap();
        let mut t = FakeTransport::new(vec![ack(), ack(), ack()]);
        t.run(&mut s);
        assert_eq!(t.issued, vec![RETRACT, MOVE_TO, n]);
        assert!(s.finish().is_ok());
    }
}

#[test]
fn decodes_ack_and_busy() {
    assert!(matches!(decode_status(&text_response("ACK")), DacalStatus::Ack));
    assert!(matches!(decode_status(&text_response("BUSY")), DacalStatus::Busy));
}

#[test]
fn other_text_is_kept_as_unknown() {
    for text in ["SOS", "ack", "ACKX", "Ünïcödé ✓"] {
        match decode_status(&text_response(text)) {
            DacalStatus::Unknown { status } => assert_eq!(status, text),
            other => panic!("{:?}", other),
        }
    }
}

#[test]
fn undecodable_text_is_a_parse_error() {
    // an odd number of text bytes
    match decode_status(&[0x05, 0x03, 0x41, 0x00, 0x43]) {
        DacalStatus::Unknown { status } => assert_eq!(status, "Parse Error"),
        other => panic!("{:?}", other),
    }
    // a lone trailing surrogate
    match decode_status(&[0x04, 0x03, 0x00, 0xdc]) {
        DacalStatus::Unknown { status } => assert_eq!(status, "Parse Error"),
        other => panic!("{:?}", other),
    }
}

#[test]
fn empty_text_is_unknown_and_empty() {
    for response in [vec![], vec![0x02], vec![0x02, 0x03]] {
        match decode_status(&response) {
            DacalStatus::Unknown { status } => assert_eq!(status, ""),
            other => panic!("{:?}", other),
        }
    }
}

#[test]
fn status_from_string_conversion() {
    assert!(matches!(DacalStatus::from("ACK".to_string()), DacalStatus::Ack));
    assert!(matches!(DacalStatus::from("BUSY".to_string()), DacalStatus::Busy));
    assert!(matches!(
        status_from_decoded(None),
        DacalStatus::Unknown { status } if status == "Parse Error"
    ));
    assert!(matches!(
        status_from_decoded(Some("SOS".to_string())),
        DacalStatus::Unknown { status } if status == "SOS"
    ));
}

#[test]
fn short_identification_is_malformed() {
    for len in 0..7 {
        let response = vec![0x12u8; len];
        assert_eq!(get_id(&response), Err(TransportError::Malformed));
    }
}

#[test]
fn identification_reads_bytes_four_and_six() {
    assert_eq!(get_id(&identification(0x12, 0x34)), Ok(0x1234));
    assert_eq!(get_id(&[0, 0, 0, 0, 0x12, 0xff, 0x34, 0xff]), Ok(0x1234));
    assert_eq!(get_id(&[9, 9, 9, 9, 0x12, 0x00, 0x34]), Ok(0x1234));
    assert_eq!(get_id(&identification(0xb1, 0xe4)), Ok(45540));
}

#[test]
fn access_slot_issues_retract_move_and_slot() {
    let d = spindle(3);
    let mut s = d.access_slot(25).ok().unwrap();
    let mut t = FakeTransport::new(vec![ack(), ack(), ack()]);
    t.run(&mut s);
    assert_eq!(t.issued, vec![0x0e, 0x0c, 25]);
    assert!(s.finish().is_ok());
}

#[test]
fn access_slot_stops_when_transport_busy() {
    let d = spindle(3);
    let mut s = d.access_slot(25).ok().unwrap();
    let mut t = FakeTransport::new(vec![ack(), Err(TransportError::Busy), ack()]);
    t.run(&mut s);
    assert_eq!(t.issued, vec![RETRACT, MOVE_TO]);
    assert!(matches!(s.finish(), Err(SpindleError::Busy { id: 3 })));
}

#[test]
fn access_slot_stops_when_device_busy() {
    let d = spindle(4);
    let mut s = d.access_slot(25).ok().unwrap();
    let mut t = FakeTransport::new(vec![ack(), Ok(text_response("BUSY")), ack()]);
    t.run(&mut s);
    assert_eq!(t.issued, vec![RETRACT, MOVE_TO]);
    assert!(matches!(s.finish(), Err(SpindleError::Busy { id: 4 })));
}

#[test]
fn access_slot_is_not_rolled_back() {
    let d = spindle(4);
    let mut s = d.access_slot(60).ok().unwrap();
    let mut t = FakeTransport::new(vec![ack(), ack(), Err(TransportError::Io)]);
    t.run(&mut s);
    assert_eq!(t.issued, vec![RETRACT, MOVE_TO, 60]);
    assert!(matches!(s.finish(), Err(SpindleError::Io)));
}

#[test]
fn enumeration_skips_device_that_fails_to_open() {
    let listing = vec![
        probe(1, 0x04b4, Err(TransportError::Access)),
        probe(2, 0x04b4, Ok(identification(0x12, 0x34))),
    ];
    let found = devices(Ok(listing)).unwrap();
    assert_eq!(found.len(), 1);
    assert_eq!(found[0].id, 0x1234);
    assert_eq!(found[0].device, 2);
}

#[test]
fn enumeration_filters_and_keeps_order() {
    let listing = vec![
        probe(1, 0x04b4, Ok(identification(0, 2))),
        probe(2, 0x1234, Ok(identification(0, 9))),
        probe(3, 0x04b4, Ok(vec![1, 2, 3])),
        Probe { device: 4, vendor_id: 0x04b4, product_id: 0x0001, identification: Ok(identification(0, 8)) },
        probe(5, 0x04b4, Ok(identification(0, 1))),
    ];
    let found = devices(Ok(listing)).unwrap();
    let ids: Vec<(u16, u32)> = found.iter().map(|d| (d.id, d.device)).collect();
    assert_eq!(ids, vec![(2, 1), (1, 5)]);
}

#[test]
fn enumeration_fails_only_with_listing() {
    assert!(matches!(devices::<u32>(Err(TransportError::NoMem)), Err(TransportError::NoMem)));
    assert!(devices::<u32>(Ok(vec![])).unwrap().is_empty());
}

#[test]
fn spindle_ids() {
    assert!(is_spindle(0x04b4, 0x5a9b));
    assert!(!is_spindle(0x04b4, 0x5a9c));
    assert!(!is_spindle(0x04b5, 0x5a9b));
}

#[test]
fn from_id_finds_or_reports() {
    let listing = || Ok(vec![
        probe(1, 0x04b4, Ok(identification(0, 5))),
        probe(2, 0x04b4, Ok(identification(0, 6))),
        probe(3, 0x04b4, Ok(identification(0, 6))),
    ]);
    let d = Dacal::from_id(listing(), 6).ok().unwrap();
    assert_eq!((d.id, d.device), (6, 2));
    assert!(matches!(Dacal::from_id(listing(), 7), Err(SpindleError::NoSpindle { id: 7 })));
    assert!(matches!(Dacal::<u32>::from_id(Err(TransportError::Access), 6), Err(SpindleError::NoAccess)));
    assert!(matches!(Dacal::<u32>::from_id(Err(TransportError::Busy), 6), Err(SpindleError::Unknown)));
}

#[test]
fn get_status_reports_sos_as_a_result() {
    let mut s = spindle(9).get_status();
    let mut t = FakeTransport::new(vec![Ok(text_response("SOS"))]);
    t.run(&mut s);
    assert_eq!(t.issued, vec![GET_STATUS]);
    match s.finish_status() {
        Ok(DacalStatus::Unknown { status }) => assert_eq!(status, "SOS"),
        other => panic!("{:?}", other),
    }
}

#[test]
fn get_status_fails_when_busy() {
    let mut s = spindle(9).get_status();
    FakeTransport::new(vec![Ok(text_response("BUSY"))]).run(&mut s);
    assert!(matches!(s.finish_status(), Err(SpindleError::Busy { id: 9 })));

    let mut s = spindle(9).get_status();
    FakeTransport::new(vec![Err(TransportError::Busy)]).run(&mut s);
    assert!(matches!(s.finish_status(), Err(SpindleError::Busy { id: 9 })));
}

#[test]
fn get_status_ack_and_transport_failure() {
    let mut s = spindle(9).get_status();
    FakeTransport::new(vec![ack()]).run(&mut s);
    assert!(matches!(s.finish_status(), Ok(DacalStatus::Ack)));

    let mut s = spindle(9).get_status();
    FakeTransport::new(vec![Err(TransportError::Timeout)]).run(&mut s);
    assert!(matches!(s.finish_status(), Err(SpindleError::Unknown)));
}

#[test]
fn single_command_sessions() {
    let d = spindle(11);
    let cases: Vec<(Session, u8)> = vec![
        (d.retract_arm(), RETRACT),
        (d.reset(), RESET),
        (d.set_led(true), LED_ON),
        (d.set_led(false), LED_OFF),
        (d.debug(0x0d), 0x0d),
    ];
    for (mut s, code) in cases {
        assert_eq!(s.id(), 11);
        let mut t = FakeTransport::new(vec![ack()]);
        t.run(&mut s);
        assert_eq!(t.issued, vec![code]);
        assert!(s.finish().is_ok());
    }
}

#[test]
fn device_status_other_than_ack_is_an_error_status() {
    let mut s = spindle(11).reset();
    FakeTransport::new(vec![Ok(text_response("SOS"))]).run(&mut s);
    match s.finish() {
        Err(SpindleError::ErrorStatus { status: DacalStatus::Unknown { status } }) => assert_eq!(status, "SOS"),
        other => panic!("{:?}", other),
    }
}

#[test]
fn failed_open_issues_nothing() {
    let mut s = spindle(12).retract_arm();
    let mut t = FakeTransport::new(vec![ack()]);
    t.open_error = Some(TransportError::Busy);
    t.run(&mut s);
    assert!(t.issued.is_empty());
    assert!(matches!(s.finish(), Err(SpindleError::Busy { id: 12 })));

    let mut s = spindle(12).retract_arm();
    let mut t = FakeTransport::new(vec![]);
    t.open_error = Some(TransportError::Access);
    t.run(&mut s);
    assert!(matches!(s.finish(), Err(SpindleError::NoAccess)));
}

#[test]
fn transport_errors_are_classified() {
    let cases = [
        (TransportError::Io, "Io"),
        (TransportError::Access, "NoAccess"),
        (TransportError::NotSupported, "UnsupportedOperation"),
        (TransportError::Busy, "Busy"),
        (TransportError::Timeout, "Unknown"),
        (TransportError::NoMem, "Unknown"),
        (TransportError::Malformed, "Unknown"),
        (TransportError::Pipe, "Unknown"),
    ];
    for (error, expected) in cases {
        let e = classify(5, CommandError::Transport { error });
        let name = match e {
            SpindleError::Io => "Io",
            SpindleError::NoAccess => "NoAccess",
            SpindleError::UnsupportedOperation => "UnsupportedOperation",
            SpindleError::Busy { id: 5 } => "Busy",
            SpindleError::Unknown => "Unknown",
            _ => "other",
        };
        assert_eq!(name, expected);
    }
    assert!(matches!(SpindleError::from(TransportError::Busy), SpindleError::Unknown));
    assert!(matches!(
        classify(5, CommandError::Device { status: DacalStatus::Busy }),
        SpindleError::Busy { id: 5 }
    ));
    assert!(matches!(
        classify(5, CommandError::Device { status: DacalStatus::Sos }),
        SpindleError::ErrorStatus { status: DacalStatus::Sos }
    ));
}

#[test]
fn command_outcome_of_responses() {
    assert!(command_outcome(ack()).is_ok());
    assert!(matches!(
        command_outcome(Ok(text_response("BUSY"))),
        Err(CommandError::Device { status: DacalStatus::Busy })
    ));
    assert!(matches!(
        command_outcome(Err(TransportError::Pipe)),
        Err(CommandError::Transport { error: TransportError::Pipe })
    ));
}

#[test]
fn control_requests() {
    let r = control_request(RETRACT);
    assert_eq!((r.request_type, r.request, r.value, r.index, r.length, r.timeout_ms), (0x80, 0x06, 0x030e, 1033, 255, 1000));
    let r = control_request(IDENTIFY);
    assert_eq!((r.value, r.length), (0x030a, 8));
    let r = control_request(150);
    assert_eq!((r.value, r.length), (0x0396, 255));
}

#[test]
fn command_line_plans() {
    let listing = || Ok(vec![probe(1, 0x04b4, Ok(identification(0xb1, 0xe4)))]);

    let (d, mut s) = cmd_open(listing(), 45540, 25).ok().unwrap();
    assert_eq!(d.id, 45540);
    let mut t = FakeTransport::new(vec![ack(), ack(), ack()]);
    t.run(&mut s);
    assert_eq!(t.issued, vec![RETRACT, MOVE_TO, 25]);

    assert!(matches!(cmd_open(listing(), 45540, 0), Err(SpindleError::NoSlot { id: 45540, number: 0 })));
    assert!(matches!(cmd_open(listing(), 1, 25), Err(SpindleError::NoSpindle { id: 1 })));

    let (_, mut s) = cmd_close(listing(), 45540).ok().unwrap();
    let mut t = FakeTransport::new(vec![ack()]);
    t.run(&mut s);
    assert_eq!(t.issued, vec![RETRACT]);
    assert!(matches!(cmd_close(listing(), 2), Err(SpindleError::NoSpindle { id: 2 })));

    let (_, mut s) = cmd_reset(listing(), 45540).ok().unwrap();
    let mut t = FakeTransport::new(vec![ack()]);
    t.run(&mut s);
    assert_eq!(t.issued, vec![RESET]);
    assert!(matches!(cmd_reset::<u32>(Err(TransportError::Io), 45540), Err(SpindleError::Io)));
}
