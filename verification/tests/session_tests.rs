use rg15::channel::ByteChannel;
use rg15::cmd::{BaudRate, Command};
use rg15::line::LineAssembler;
use rg15::model::TelemetryModel;
use rg15::session::{ingestion_step, Interrupted, SerialAction, SerialRxEvent, Session};

#[test]
fn channel_delivers_in_order() {
    let (tx, mut rx) = ByteChannel::new(16);
    tx.send(1);
    tx.send(2);
    tx.send(3);
    assert_eq!(rx.recv_timeout(200), Some(1));
    assert_eq!(rx.recv_timeout(200), Some(2));
    assert_eq!(rx.recv_timeout(200), Some(3));
    assert!(rx.is_producer_alive());
}

#[test]
fn channel_drops_bytes_when_full() {
    let (tx, mut rx) = ByteChannel::new(2);
    tx.send(10);
    tx.send(20);
    tx.send(30);
    assert_eq!(rx.recv_timeout(200), Some(10));
    assert_eq!(rx.recv_timeout(200), Some(20));
    assert_eq!(rx.recv_timeout(50), None);
}

#[test]
fn channel_detects_producer_gone() {
    let (tx, mut rx) = ByteChannel::new(4);
    assert!(rx.is_producer_alive());
    drop(tx);
    let start = std::time::Instant::now();
    assert_eq!(rx.recv_timeout(200), None);
    assert!(start.elapsed() < std::time::Duration::from_secs(5));
    assert!(!rx.is_producer_alive());
    assert_eq!(rx.recv_timeout(50), None);
    assert!(!rx.is_producer_alive());
}

#[test]
fn channel_drains_before_disconnect() {
    let (tx, mut rx) = ByteChannel::new(4);
    tx.send(7);
    tx.send(8);
    drop(tx);
    assert_eq!(rx.recv_timeout(200), Some(7));
    assert_eq!(rx.recv_timeout(200), Some(8));
    assert!(rx.is_producer_alive());
    assert_eq!(rx.recv_timeout(200), None);
    assert!(!rx.is_producer_alive());
}

#[test]
fn session_init_plan() {
    let s = Session::new();
    let (s, plan) = s.init(BaudRate::Baud9600);
    assert_eq!(plan, vec![SerialAction::Init(9600)]);
    let bytes = s.send_command(&Command::ReadAvailableData);
    assert_eq!(bytes, b"r\r\n".to_vec());
}

#[test]
fn session_send_by_code() {
    let s = Session::new();
    let (s, _) = s.init(BaudRate::Baud9600);
    assert_eq!(s.send_command_by_code(2), Some(b"k\r\n".to_vec()));
    assert_eq!(s.send_command_by_code(19203), Some(b"b4\r\n".to_vec()));
    assert_eq!(s.send_command_by_code(3), None);
    assert_eq!(s.send_command_by_code(99999), None);
}

#[test]
fn session_reconfigure_plan() {
    let s = Session::new();
    let (mut s, _) = s.init(BaudRate::Baud9600);
    let (_tx, _rx, start_plan) = s.async_rx_start(4096);
    assert_eq!(start_plan, vec![SerialAction::StartRx]);
    let plan = s.reconfigure_baud(BaudRate::Baud19200);
    assert_eq!(
        plan,
        vec![SerialAction::StopRx, SerialAction::Init(19200), SerialAction::StartRx]
    );
}

#[test]
fn session_reconfigure_without_reception() {
    let s = Session::new();
    let (mut s, _) = s.init(BaudRate::Baud9600);
    let plan = s.reconfigure_baud(BaudRate::Baud2400);
    assert_eq!(plan, vec![SerialAction::Init(2400)]);
}

#[test]
fn session_teardown_plan() {
    let s = Session::new();
    let (s, _) = s.init(BaudRate::Baud4800);
    let plan = s.teardown();
    assert_eq!(
        plan,
        vec![SerialAction::StopRx, SerialAction::Deinit, SerialAction::Release]
    );
}

#[test]
fn event_codes_decode() {
    assert_eq!(SerialRxEvent::from_wire(1), Some(SerialRxEvent::Data));
    assert_eq!(SerialRxEvent::from_wire(2), Some(SerialRxEvent::Idle));
    assert_eq!(SerialRxEvent::from_wire(4), Some(SerialRxEvent::FrameError));
    assert_eq!(SerialRxEvent::from_wire(8), Some(SerialRxEvent::NoiseError));
    assert_eq!(SerialRxEvent::from_wire(16), Some(SerialRxEvent::OverrunError));
    assert_eq!(SerialRxEvent::from_wire(0), None);
    assert_eq!(SerialRxEvent::from_wire(3), None);
    assert_eq!(SerialRxEvent::from_wire(255), None);
}

#[test]
fn isr_forwards_only_data_events() {
    let (tx, mut rx) = ByteChannel::new(8);
    assert!(!Session::<Interrupted>::deliver(&tx, 2, b'x'));
    assert!(!Session::<Interrupted>::deliver(&tx, 4, b'x'));
    assert!(!Session::<Interrupted>::deliver(&tx, 0, b'x'));
    assert!(Session::<Interrupted>::deliver(&tx, 1, b'y'));
    assert_eq!(rx.recv_timeout(200), Some(b'y'));
    assert_eq!(rx.recv_timeout(50), None);
}

#[test]
fn ingestion_pipeline_end_to_end() {
    let (tx, mut rx) = ByteChannel::new(4096);
    let model = TelemetryModel::new();
    let mut assembler = LineAssembler::new(4096);
    for &b in b"Acc 7.7, RInt 0.1\nTotalAcc 88\n".iter() {
        tx.send(b);
    }
    drop(tx);
    let mut steps = 0u32;
    while ingestion_step(&mut rx, &mut assembler, &model, 50) {
        steps += 1;
        assert!(steps < 1000);
    }
    let s = model.snapshot();
    assert_eq!(s.acc, b"7.7".to_vec());
    assert_eq!(s.r_int, b"0.1".to_vec());
    assert_eq!(s.total_acc, b"88".to_vec());
    assert_eq!(s.raw, b"Acc 7.7, RInt 0.1\nTotalAcc 88\n".to_vec());
}
