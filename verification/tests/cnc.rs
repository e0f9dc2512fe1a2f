use lcnc_web::cnc::commands::Command;
use lcnc_web::cnc::handler::{next_step, opening_command, InboundFrame, SessionStep};
use lcnc_web::cnc::protocol::recv::{PollOutcome, ReadOutcome, ReceiveBuffer};
use lcnc_web::cnc::protocol::send::{poll_close, send_all_step, CloseStep, FlushStatus, SendBuffer, SendStep, WriteOutcome};
use lcnc_web::cnc::protocol::ssh::{channel_text, check_server_key, OneShot};
use lcnc_web::cnc::state::{
    get_lcnc_pids, CncMode, CncState, CommandAction, IpAddress, Machine, Spindle, SpindleState,
    StartupAction, StartupEvent, StartupPhase,
};
use lcnc_web::options::InputOptions;

fn options() -> InputOptions {
    InputOptions {
        listen_port: 80,
        path_to_compiled_client: ".".to_string(),
        my_host: "127.0.0.1".to_string(),
        lcnc_rsh_host: "192.168.1.5".to_string(),
        lcnc_rsh_port: 5007,
        temp_ngc_files: "/tmp".to_string(),
        ssh_user: "pi".to_string(),
        cmd: "linuxcnc ~/machine.ini".to_string(),
    }
}

fn item(o: PollOutcome) -> Option<String> {
    match o {
        PollOutcome::Item(s) => Some(s),
        _ => None,
    }
}

#[test]
fn pids_split_on_lines() {
    assert_eq!(get_lcnc_pids("1234\n5678\n"), vec!["1234", "5678"]);
    assert_eq!(get_lcnc_pids("  42  "), vec!["42"]);
    assert_eq!(get_lcnc_pids("\u{a0}7\n\u{3000}"), vec!["7"]);
}

#[test]
fn empty_pgrep_output_still_gives_one_pid() {
    assert_eq!(get_lcnc_pids(""), vec![""]);
    assert_eq!(get_lcnc_pids(" \n\t "), vec![""]);
}

#[test]
fn new_state() {
    let s = CncState::new(options());
    assert_eq!(s.mode, CncMode::Preparation);
    assert!(s.axes.is_empty());
    assert_eq!(s.spindle.state, SpindleState::Off);
    assert_eq!(s.spindle.speed_bits, 0.0f64.to_bits());
    assert!(s.program_loaded.is_none());
    assert!(!s.machine.estop && !s.machine.power && !s.machine.connected);
    assert!(s.upstream_rx_available);
    assert!(!s.downstream_rx_attached);
}

#[test]
fn defaults() {
    let sp = Spindle::default();
    assert_eq!(sp.limit_bits, (0.0f64.to_bits(), 0.0f64.to_bits()));
    let m = Machine::default();
    assert!(!m.estop && !m.power && !m.connected);
}

#[test]
fn only_lcnc_commands_act() {
    let s = CncState::new(options());
    assert_eq!(s.handle_command(&Command::Lcnc(true)), CommandAction::TurnOn);
    assert_eq!(s.handle_command(&Command::Lcnc(false)), CommandAction::TurnOff);
    assert_eq!(s.handle_command(&Command::Power(true)), CommandAction::Keep);
    assert_eq!(s.handle_command(&Command::ListPrograms), CommandAction::Keep);
    assert_eq!(
        s.handle_command(&Command::SetSpindleSpeed { dir: SpindleState::Cw, speed_bits: 1.5f64.to_bits() }),
        CommandAction::Keep
    );
}

#[test]
fn turn_off_keeps_state() {
    let s = CncState::new(options()).turn_off_lcnc();
    assert!(s.upstream_rx_available);
    assert_eq!(s.config.cmd, "linuxcnc ~/machine.ini");
}

#[test]
fn ssh_address_uses_port_22() {
    assert_eq!(CncState::new(options()).ssh_address(), "192.168.1.5:22");
}

#[test]
fn startup_sequence() {
    let mut s = CncState::new(options());
    s.machine.power = true;
    let (phase, action) = s.turn_on_lcnc();
    assert_eq!(phase, StartupPhase::QueryingPids);
    assert!(matches!(action, StartupAction::RunRemote(ref c) if c == "pgrep linuxcnc"));

    let (phase, action) = s.startup_step(phase, StartupEvent::PidsListed("".to_string()));
    assert_eq!(phase, StartupPhase::ParsingHost);
    assert!(matches!(action, StartupAction::ParseHost(ref h) if h == "192.168.1.5"));

    let address = IpAddress::V4(192, 168, 1, 5);
    let (phase, action) = s.startup_step(phase, StartupEvent::HostParsed(address));
    assert_eq!(phase, StartupPhase::Connecting(address));
    assert!(matches!(action, StartupAction::Connect { address: a, port: 5007 } if a == address));

    let (phase, action) = s.startup_step(phase, StartupEvent::ConnectFailed);
    assert_eq!(phase, StartupPhase::Waiting(address));
    assert!(matches!(action, StartupAction::Sleep { millis: 1000 }));

    let (phase, action) = s.startup_step(phase, StartupEvent::Slept);
    assert_eq!(phase, StartupPhase::Connecting(address));
    assert!(matches!(action, StartupAction::Connect { address: a, port: 5007 } if a == address));

    let (phase, action) = s.startup_step(phase, StartupEvent::Connected);
    assert_eq!(phase, StartupPhase::Ready);
    match action {
        StartupAction::Initialize { commands, log_downstream } => {
            assert_eq!(commands, vec!["hello EMC azl 1\n", "set enable EMCTOO\n", "get joint_limit\n"]);
            assert!(log_downstream);
        }
        _ => panic!("expected the initialisation"),
    }
    assert!(!s.upstream_rx_available);
    assert!(!s.downstream_rx_attached);
    assert!(s.machine.power);
    assert_eq!(s.mode, CncMode::Preparation);
}

#[test]
fn startup_after_launch_parses_host() {
    let mut s = CncState::new(options());
    let (phase, action) = s.startup_step(StartupPhase::Launching, StartupEvent::Launched);
    assert_eq!(phase, StartupPhase::ParsingHost);
    assert!(matches!(action, StartupAction::ParseHost(_)));
}

#[test]
fn startup_connects_to_v6_address() {
    let mut s = CncState::new(options());
    let address = IpAddress::V6(0, 0, 0, 0, 0, 0, 0, 1);
    let (phase, action) = s.startup_step(StartupPhase::ParsingHost, StartupEvent::HostParsed(address));
    assert_eq!(phase, StartupPhase::Connecting(address));
    assert!(matches!(action, StartupAction::Connect { address: a, .. } if a == address));
}

#[test]
fn downstream_is_taken_once() {
    let mut s = CncState::new(options());
    s.downstream_rx_attached = true;
    assert!(s.run_downstream_recv_loop());
    assert!(!s.run_downstream_recv_loop());
}

#[test]
fn receiver_yields_lines_in_order() {
    let mut r = ReceiveBuffer::new();
    assert_eq!(item(r.poll_next(ReadOutcome::Data(b"a\nb".to_vec()))), Some("a".to_string()));
    assert_eq!(item(r.poll_next(ReadOutcome::NotReady)), Some("b".to_string()));
    assert!(matches!(r.poll_next(ReadOutcome::NotReady), PollOutcome::NotReady));
}

#[test]
fn receiver_keeps_trailing_empty_line() {
    let mut r = ReceiveBuffer::new();
    assert_eq!(item(r.poll_next(ReadOutcome::Data(b"x\n".to_vec()))), Some("x".to_string()));
    assert_eq!(item(r.poll_next(ReadOutcome::NotReady)), Some("".to_string()));
    assert_eq!(item(r.poll_next(ReadOutcome::Data(Vec::new()))), Some("".to_string()));
}

#[test]
fn receiver_decodes_utf8() {
    let mut r = ReceiveBuffer::new();
    assert_eq!(item(r.poll_next(ReadOutcome::Data("Größe\n".as_bytes().to_vec()))), Some("Größe".to_string()));
}

#[test]
fn receiver_failure_ends_stream() {
    let mut r = ReceiveBuffer::new();
    r.poll_next(ReadOutcome::Data(b"a\nb\nc".to_vec()));
    assert!(matches!(r.poll_next(ReadOutcome::Failed), PollOutcome::Finished));
    assert_eq!(item(r.poll_next(ReadOutcome::NotReady)), Some("b".to_string()));
}

#[test]
fn sender_is_fifo() {
    let mut s = SendBuffer::new();
    s.start_send("one\n".to_string());
    s.start_send("two\n".to_string());
    assert_eq!(s.next_item().as_deref(), Some("one\n"));
    s.start_send("three\n".to_string());
    assert_eq!(s.next_item().as_deref(), Some("two\n"));
    assert_eq!(s.next_item().as_deref(), Some("three\n"));
    assert_eq!(s.next_item(), None);
}

#[test]
fn send_steps() {
    assert_eq!(send_all_step(4, WriteOutcome::Written(4)), SendStep::Continue { complete: true });
    assert_eq!(send_all_step(4, WriteOutcome::Written(2)), SendStep::Continue { complete: false });
    assert_eq!(send_all_step(4, WriteOutcome::Failed), SendStep::Stop(FlushStatus::Failed));
    assert_eq!(send_all_step(4, WriteOutcome::NotReady), SendStep::Stop(FlushStatus::NotReady));
}

#[test]
fn close_steps() {
    assert_eq!(poll_close(FlushStatus::Done), CloseStep::Shutdown);
    assert_eq!(poll_close(FlushStatus::Failed), CloseStep::Finish(FlushStatus::Failed));
    assert_eq!(poll_close(FlushStatus::NotReady), CloseStep::Finish(FlushStatus::NotReady));
}

#[test]
fn one_shot_delivers_once() {
    let mut o = OneShot::new(7u8);
    assert_eq!(o.take(), Some(7));
    assert_eq!(o.take(), None);
}

#[test]
fn ssh_glue() {
    assert!(check_server_key());
    assert_eq!(channel_text("1234\n".as_bytes().to_vec()), "1234\n");
}

#[test]
fn session_steps() {
    assert!(matches!(opening_command(), Command::Lcnc(true)));
    assert!(matches!(next_step(InboundFrame::Text("{}".to_string())), SessionStep::Dispatch(ref t) if t == "{}"));
    assert!(matches!(next_step(InboundFrame::Other), SessionStep::Stop));
    assert!(matches!(next_step(InboundFrame::Closed), SessionStep::Stop));
    assert!(matches!(next_step(InboundFrame::Failed), SessionStep::Stop));
}
