use rg15::cmd::{BaudRate, Command};

#[test]
fn wire_tokens() {
    assert_eq!(Command::AccumulationData.cmd(), b"a\r\n".to_vec());
    assert_eq!(Command::ReadAvailableData.cmd(), b"r\r\n".to_vec());
    assert_eq!(Command::Kill.cmd(), b"k\r\n".to_vec());
    assert_eq!(Command::PollingMode.cmd(), b"p\r\n".to_vec());
    assert_eq!(Command::ContinuousMode.cmd(), b"c\r\n".to_vec());
    assert_eq!(Command::ForceHighResolution.cmd(), b"h\r\n".to_vec());
    assert_eq!(Command::ForceLowResolution.cmd(), b"l\r\n".to_vec());
    assert_eq!(Command::ForceImperial.cmd(), b"i\r\n".to_vec());
    assert_eq!(Command::ForceMetric.cmd(), b"m\r\n".to_vec());
    assert_eq!(Command::UseSwitchValue.cmd(), b"s\r\n".to_vec());
    assert_eq!(Command::ResetAccumulationCounter.cmd(), b"o\r\n".to_vec());
    assert_eq!(Command::EnableExternalTbInput.cmd(), b"x\r\n".to_vec());
    assert_eq!(Command::DisableExternalTbInput.cmd(), b"y\r\n".to_vec());
}

#[test]
fn wire_tokens_baud() {
    assert_eq!(Command::BaudRate(BaudRate::Baud1200).cmd(), b"b0\r\n".to_vec());
    assert_eq!(Command::BaudRate(BaudRate::Baud9600).cmd(), b"b3\r\n".to_vec());
    assert_eq!(Command::BaudRate(BaudRate::Baud57600).cmd(), b"b6\r\n".to_vec());
}

#[test]
fn identifiers_round_trip() {
    for c in Command::list() {
        assert_eq!(Command::try_from_code(c.code()), Some(*c));
    }
    for b in BaudRate::list() {
        let c = Command::BaudRate(b);
        assert_eq!(Command::try_from_code(c.code()), Some(c));
    }
}

#[test]
fn identifier_values() {
    assert_eq!(Command::AccumulationData.code(), 0);
    assert_eq!(Command::Kill.code(), 2);
    assert_eq!(Command::BaudRate(BaudRate::Baud1200).code(), 1203);
    assert_eq!(Command::BaudRate(BaudRate::Baud57600).code(), 57603);
    assert_eq!(Command::DisableExternalTbInput.code(), 13);
}

#[test]
fn unmapped_identifiers() {
    assert_eq!(Command::try_from_code(3), None);
    assert_eq!(Command::try_from_code(14), None);
    assert_eq!(Command::try_from_code(1204), None);
    assert_eq!(Command::try_from_code(u32::MAX), None);
}

#[test]
fn command_names() {
    assert_eq!(Command::Kill.name(), "Kill");
    assert_eq!(Command::AccumulationData.name(), "Get Accumulation Data");
    assert_eq!(Command::BaudRate(BaudRate::Baud9600).name(), "Set Baud Rate");
    assert_eq!(Command::UseSwitchValue.name(), "Use Values from Switch");
}

#[test]
fn command_list_excludes_baud() {
    let list = Command::list();
    assert_eq!(list.len(), 13);
    assert!(!list.iter().any(|c| matches!(c, Command::BaudRate(_))));
}

#[test]
fn baud_codes_and_rates() {
    let expected: [(BaudRate, u8, u16, &str); 7] = [
        (BaudRate::Baud1200, 0, 1200, "1200"),
        (BaudRate::Baud2400, 1, 2400, "2400"),
        (BaudRate::Baud4800, 2, 4800, "4800"),
        (BaudRate::Baud9600, 3, 9600, "9600"),
        (BaudRate::Baud19200, 4, 19200, "19200"),
        (BaudRate::Baud38400, 5, 38400, "38400"),
        (BaudRate::Baud57600, 6, 57600, "57600"),
    ];
    for (i, (b, code, rate, text)) in expected.into_iter().enumerate() {
        assert_eq!(BaudRate::list()[i], b);
        assert_eq!(b.code(), code);
        assert_eq!(b.rate(), rate);
        assert_eq!(b.rate_as_char(), text);
    }
}

#[test]
fn baud_lookup_round_trip() {
    for b in BaudRate::list() {
        assert_eq!(BaudRate::try_from(b.code() as u16), Ok(b));
        assert_eq!(BaudRate::try_from(b.rate()), Ok(b));
        assert_eq!(BaudRate::try_from(b.rate()).unwrap().rate(), b.rate());
    }
}

#[test]
fn baud_lookup_rejects_with_payload() {
    assert_eq!(BaudRate::try_from(7), Err(7));
    assert_eq!(BaudRate::try_from(1199), Err(1199));
    assert_eq!(BaudRate::try_from(9601), Err(9601));
    assert_eq!(BaudRate::try_from(u16::MAX), Err(u16::MAX));
}

#[test]
fn baud_default_is_9600() {
    assert_eq!(BaudRate::default(), BaudRate::Baud9600);
    assert_eq!(BaudRate::default().rate(), 9600);
}
