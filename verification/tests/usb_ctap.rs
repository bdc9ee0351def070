use lib::errors::{CommandReturn, ErrorCode};
use lib::usb_ctap::{
    App, CtapAction, CtapUsbSyscallDriver, Side, CTAP_CMD_CANCEL, CTAP_CMD_CHECK,
    CTAP_CMD_CONNECT, CTAP_CMD_RECEIVE, CTAP_CMD_TRANSMIT, CTAP_CMD_TRANSMIT_OR_RECEIVE,
};

fn app_of(d: &CtapUsbSyscallDriver, p: u32) -> App {
    d.apps().into_iter().find(|e| e.process == p).expect("process in grant").app
}

fn connected_driver(p: u32) -> CtapUsbSyscallDriver {
    let mut d = CtapUsbSyscallDriver::new();
    assert_eq!(d.command(CTAP_CMD_CONNECT, 0, p, None), CtapAction::Attach);
    d
}

#[test]
fn check_always_succeeds() {
    let mut d = CtapUsbSyscallDriver::new();
    assert_eq!(d.command(CTAP_CMD_CHECK, 0, 7, None), CtapAction::Reply(CommandReturn::Success));
    assert!(d.apps().is_empty());
}

#[test]
fn unknown_command_is_not_supported() {
    let mut d = CtapUsbSyscallDriver::new();
    assert_eq!(
        d.command(6, 0, 7, None),
        CtapAction::Reply(CommandReturn::Failure(ErrorCode::NOSUPPORT))
    );
    assert!(d.apps().is_empty());
}

#[test]
fn grant_failure_is_answered() {
    let mut d = CtapUsbSyscallDriver::new();
    assert_eq!(
        d.command(CTAP_CMD_CONNECT, 0, 7, Some(ErrorCode::NOMEM)),
        CtapAction::Reply(CommandReturn::Failure(ErrorCode::NOMEM))
    );
    assert!(d.apps().is_empty());
}

#[test]
fn connect_then_again_is_already() {
    let mut d = connected_driver(1);
    assert!(app_of(&d, 1).connected);
    assert_eq!(
        d.command(CTAP_CMD_CONNECT, 0, 1, None),
        CtapAction::Reply(CommandReturn::Failure(ErrorCode::ALREADY))
    );
}

#[test]
fn second_process_is_busy() {
    let mut d = connected_driver(1);
    assert_eq!(
        d.command(CTAP_CMD_CONNECT, 0, 2, None),
        CtapAction::Reply(CommandReturn::Failure(ErrorCode::BUSY))
    );
    assert!(!app_of(&d, 2).connected);
    assert_eq!(d.apps().iter().filter(|e| e.app.connected).count(), 1);
}

#[test]
fn unconnected_transfer_is_reserved() {
    let mut d = CtapUsbSyscallDriver::new();
    for cmd in [CTAP_CMD_TRANSMIT, CTAP_CMD_RECEIVE, CTAP_CMD_TRANSMIT_OR_RECEIVE, CTAP_CMD_CANCEL] {
        assert_eq!(
            d.command(cmd, 0, 3, None),
            CtapAction::Reply(CommandReturn::Failure(ErrorCode::RESERVE))
        );
    }
    // The grant was entered, so the process has a fresh record.
    assert_eq!(app_of(&d, 3), App::new());
}

#[test]
fn transmit_flow() {
    let mut d = connected_driver(1);
    assert_eq!(d.command(CTAP_CMD_TRANSMIT, 4, 1, None), CtapAction::Transmit { endpoint: 4 });
    assert_eq!(app_of(&d, 1).side, Some(Side::Transmit));
    assert!(!app_of(&d, 1).waiting);
    assert_eq!(d.transmit_done(1, Some(CommandReturn::Success)), CommandReturn::Success);
    assert!(app_of(&d, 1).waiting);
    // A second transmit while waiting.
    assert_eq!(
        d.command(CTAP_CMD_TRANSMIT, 4, 1, None),
        CtapAction::Reply(CommandReturn::Failure(ErrorCode::ALREADY))
    );
    // The packet went out: the process is told and its side is forgotten.
    assert_eq!(d.packet_transmitted(), vec![1]);
    let a = app_of(&d, 1);
    assert!(!a.waiting);
    assert_eq!(a.side, None);
}

#[test]
fn transmit_failure_keeps_idle() {
    let mut d = connected_driver(1);
    d.command(CTAP_CMD_TRANSMIT, 0, 1, None);
    let failure = CommandReturn::Failure(ErrorCode::BUSY);
    assert_eq!(d.transmit_done(1, Some(failure)), failure);
    assert!(!app_of(&d, 1).waiting);
    assert_eq!(
        d.transmit_done(1, None),
        CommandReturn::Failure(ErrorCode::FAIL)
    );
}

#[test]
fn side_mismatch_is_inval() {
    let mut d = connected_driver(1);
    d.command(CTAP_CMD_TRANSMIT, 0, 1, None);
    assert_eq!(
        d.command(CTAP_CMD_RECEIVE, 0, 1, None),
        CtapAction::Reply(CommandReturn::Failure(ErrorCode::INVAL))
    );
    assert_eq!(app_of(&d, 1).side, Some(Side::Transmit));
}

#[test]
fn receive_and_packet_arrival() {
    let mut d = connected_driver(1);
    assert_eq!(d.command(CTAP_CMD_RECEIVE, 0, 1, None), CtapAction::Receive);
    assert!(app_of(&d, 1).waiting);
    assert!(d.can_receive_packet(None));
    assert!(d.can_receive_packet(Some(1)));
    assert_eq!(d.packet_received(None), vec![1]);
    let a = app_of(&d, 1);
    assert!(!a.waiting);
    assert_eq!(a.side, None);
    assert!(!d.can_receive_packet(None));
    // No one waits now.
    assert_eq!(d.packet_received(None), Vec::<u32>::new());
}

#[test]
fn packet_for_one_process() {
    let mut d = connected_driver(5);
    d.command(CTAP_CMD_RECEIVE, 0, 5, None);
    assert_eq!(d.packet_received(Some(5)), vec![5]);
    assert_eq!(d.packet_received(Some(5)), Vec::<u32>::new());
}

#[test]
fn transmit_or_receive_flow() {
    let mut d = connected_driver(1);
    assert_eq!(
        d.command(CTAP_CMD_TRANSMIT_OR_RECEIVE, 2, 1, None),
        CtapAction::ReceiveThenTransmit { endpoint: 2 }
    );
    // No packet was pending: the packet is to be sent.
    assert_eq!(d.after_receive(1, 2), CtapAction::TransmitAfterReceive { endpoint: 2 });
    assert_eq!(
        CtapUsbSyscallDriver::transmit_or_receive_done(Some(CommandReturn::SuccessU32(3))),
        CommandReturn::Success
    );
    let failure = CommandReturn::Failure(ErrorCode::SIZE);
    assert_eq!(CtapUsbSyscallDriver::transmit_or_receive_done(Some(failure)), failure);
    assert_eq!(
        CtapUsbSyscallDriver::transmit_or_receive_done(None),
        CommandReturn::Failure(ErrorCode::FAIL)
    );
}

#[test]
fn transmit_or_receive_served_by_pending_packet() {
    let mut d = connected_driver(1);
    d.command(CTAP_CMD_TRANSMIT_OR_RECEIVE, 2, 1, None);
    // The USB client handed over a pending packet during the receive.
    assert_eq!(d.packet_received(Some(1)), vec![1]);
    assert_eq!(d.after_receive(1, 2), CtapAction::Reply(CommandReturn::Success));
}

#[test]
fn cancel_flow() {
    let mut d = connected_driver(1);
    assert_eq!(
        d.command(CTAP_CMD_CANCEL, 3, 1, None),
        CtapAction::Reply(CommandReturn::Failure(ErrorCode::ALREADY))
    );
    d.command(CTAP_CMD_RECEIVE, 3, 1, None);
    assert_eq!(d.command(CTAP_CMD_CANCEL, 3, 1, None), CtapAction::Cancel { endpoint: 3 });
    // Until the USB client answers, the process still waits.
    assert!(app_of(&d, 1).waiting);
    // The transaction is already under way: the process keeps waiting.
    assert_eq!(d.cancel_done(1, false), CommandReturn::Failure(ErrorCode::BUSY));
    let a = app_of(&d, 1);
    assert!(a.waiting);
    assert_eq!(a.side, Some(Side::Receive));
    // A cancel that succeeds ends the wait and forgets the side.
    assert_eq!(d.command(CTAP_CMD_CANCEL, 3, 1, None), CtapAction::Cancel { endpoint: 3 });
    assert_eq!(d.cancel_done(1, true), CommandReturn::Success);
    let a = app_of(&d, 1);
    assert!(!a.waiting);
    assert_eq!(a.side, None);
}

#[test]
fn allocate_grant_outcomes() {
    let mut d = CtapUsbSyscallDriver::new();
    assert_eq!(d.allocate_grant(9, Some(ErrorCode::NOMEM)), Err(ErrorCode::NOMEM));
    assert!(d.apps().is_empty());
    assert_eq!(d.allocate_grant(9, None), Ok(()));
    assert_eq!(d.allocate_grant(9, None), Ok(()));
    assert_eq!(d.apps().len(), 1);
}

#[test]
fn app_record_rules() {
    let mut a = App::new();
    assert!(!a.can_receive_packet());
    assert!(a.set_side(Side::TransmitOrReceive));
    assert!(a.is_ready_for_command(Side::TransmitOrReceive));
    assert!(!a.set_side(Side::Receive));
    a.waiting = true;
    assert!(a.can_receive_packet());
    a.check_side();
    assert_eq!(a.side, Some(Side::TransmitOrReceive));
    a.waiting = false;
    a.check_side();
    assert_eq!(a.side, None);
    assert!(Side::TransmitOrReceive.can_transmit() && Side::TransmitOrReceive.can_receive());
    assert!(!Side::Receive.can_transmit() && !Side::Transmit.can_receive());
}

#[test]
fn error_numbers() {
    assert_eq!(ErrorCode::FAIL.to_usize(), 1);
    assert_eq!(ErrorCode::RESERVE.to_usize(), 5);
    assert_eq!(ErrorCode::NOSUPPORT.to_usize(), 10);
    assert_eq!(ErrorCode::NOACK.to_usize(), 13);
    assert!(CommandReturn::SuccessU64(1).is_success());
    assert!(CommandReturn::FailureU32(ErrorCode::FAIL, 2).is_failure());
}

#[test]
fn connection_survives_every_command() {
    let mut d = connected_driver(1);
    for cmd in 0..8 {
        d.command(cmd, 0, 1, None);
        d.command(cmd, 0, 2, None);
        assert!(app_of(&d, 1).connected);
        assert!(d.apps().iter().all(|e| e.process == 1 || !e.app.connected));
    }
}

#[test]
fn only_the_connected_process_takes_packets() {
    let mut d = CtapUsbSyscallDriver::new();
    d.allocate_grant(1, None).unwrap();
    d.command(CTAP_CMD_CONNECT, 0, 2, None);
    d.command(CTAP_CMD_RECEIVE, 0, 2, None);
    // Process 1 is not connected and cannot wait for packets.
    assert_eq!(
        d.command(CTAP_CMD_RECEIVE, 0, 1, None),
        CtapAction::Reply(CommandReturn::Failure(ErrorCode::RESERVE))
    );
    assert!(d.can_receive_packet(None));
    assert!(!d.can_receive_packet(Some(1)));
    assert_eq!(d.packet_received(None), vec![2]);
}

#[test]
fn success_variants() {
    assert!(CommandReturn::SuccessU32U32U32(1, 2, 3).is_success());
    assert!(CommandReturn::SuccessU32U64(1, 2).is_success());
    assert!(CommandReturn::FailureU32U32(ErrorCode::SIZE, 1, 2).is_failure());
    assert!(CommandReturn::FailureU64(ErrorCode::OFF, 1).is_failure());
    assert_eq!(CommandReturn::success_u32(4), CommandReturn::SuccessU32(4));
    assert_eq!(CommandReturn::failure(ErrorCode::OFF), CommandReturn::Failure(ErrorCode::OFF));
}

#[test]
fn packet_handover_checks() {
    assert!(CtapUsbSyscallDriver::receive_buffer_fits(64));
    assert!(CtapUsbSyscallDriver::receive_buffer_fits(100));
    assert!(!CtapUsbSyscallDriver::receive_buffer_fits(63));
    assert!(CtapUsbSyscallDriver::app_data_consistent(false, false));
    assert!(CtapUsbSyscallDriver::app_data_consistent(true, true));
    assert!(!CtapUsbSyscallDriver::app_data_consistent(true, false));
    let d = connected_driver(4);
    assert!(d.contains(4));
    assert!(!d.contains(5));
}
