use virpil::color::LedPower;
use virpil::description::{
    AllAddBoard, AllOnBoard, LedList, ToAxisIndex, ToBoardAndLedNumber, ToButtonIndex,
    VirpilDeviceDescription, MAX_LED_NUMBER, VIRPIL_VID,
};
use virpil::discovery::{find_device, DeviceInterfaces, InterfaceInfo};
use virpil::error::DeviceError;
use virpil::left_panel::{LeftPanel, LeftPanelAxis, LeftPanelButtons, LeftPanelLed};
use virpil::packet::packet_for_command;
use virpil::report::decode_input;
use virpil::right_panel::{RightPanel, RightPanelAxis, RightPanelButtons, RightPanelLed};
use virpil::right_stick::{RightStick, RightStickAxis, RightStickButtons, RightStickLed};
use virpil::shark_panel::{SharkPanel, SharkPanelAxis, SharkPanelButtons, SharkPanelLed};
use virpil::state::State;
use virpil::throttle::{Throttle, ThrottleAxis, ThrottleButtons, ThrottleLed};
use virpil::virpil_device::{packet_for_led, priming_packets, settle_request, VirpilDevice};
use virpil::BoardType;

fn interface(product_id: u16, usage: u16) -> InterfaceInfo {
    InterfaceInfo { vendor_id: VIRPIL_VID, product_id, usage }
}

fn check_leds<L: LedList + ToBoardAndLedNumber + Copy + PartialEq + std::fmt::Debug>(
    expected: usize,
) {
    assert_eq!(L::count(), expected);
    let mut seen: Vec<(BoardType, u8)> = Vec::new();
    for position in 0..L::count() {
        let led = L::nth(position);
        assert_eq!(led.position(), position);
        let address = led.to_board_and_led_number();
        assert!(address.1 <= MAX_LED_NUMBER);
        assert!(!seen.contains(&address));
        seen.push(address);
    }
}

#[test]
fn product_ids() {
    assert_eq!(VIRPIL_VID, 0x3344);
    assert_eq!(LeftPanel::PID, 0x025b);
    assert_eq!(RightPanel::PID, 0x0259);
    assert_eq!(RightStick::PID, 0x4130);
    assert_eq!(SharkPanel::PID, 0x825d);
    assert_eq!(Throttle::PID, 0x0194);
}

#[test]
fn led_lists_are_ordered_and_distinct() {
    check_leds::<LeftPanelLed>(17);
    check_leds::<RightPanelLed>(12);
    check_leds::<RightStickLed>(1);
    check_leds::<SharkPanelLed>(10);
    check_leds::<ThrottleLed>(6);
    check_leds::<AllOnBoard>(20);
    check_leds::<AllAddBoard>(4);
}

#[test]
fn led_addresses() {
    assert_eq!(LeftPanelLed::B1.to_board_and_led_number(), (BoardType::OnBoard, 2));
    assert_eq!(LeftPanelLed::B5.to_board_and_led_number(), (BoardType::OnBoard, 17));
    assert_eq!(LeftPanelLed::GearRight.to_board_and_led_number(), (BoardType::OnBoard, 10));
    assert_eq!(RightPanelLed::B1.to_board_and_led_number(), (BoardType::OnBoard, 12));
    assert_eq!(RightPanelLed::B10.to_board_and_led_number(), (BoardType::OnBoard, 1));
    assert_eq!(RightStickLed::Top.to_board_and_led_number(), (BoardType::AddBoard, 1));
    assert_eq!(SharkPanelLed::B1.to_board_and_led_number(), (BoardType::OnBoard, 8));
    assert_eq!(SharkPanelLed::Rst.to_board_and_led_number(), (BoardType::OnBoard, 1));
    assert_eq!(ThrottleLed::B6.to_board_and_led_number(), (BoardType::OnBoard, 6));
    assert_eq!(AllOnBoard::L20.to_board_and_led_number(), (BoardType::OnBoard, 20));
    assert_eq!(AllAddBoard::G4.to_board_and_led_number(), (BoardType::AddBoard, 4));
}

#[test]
fn button_and_axis_indices() {
    assert_eq!(<LeftPanelButtons as ToButtonIndex>::count(), 42);
    assert_eq!(<RightPanelButtons as ToButtonIndex>::count(), 47);
    assert_eq!(<RightStickButtons as ToButtonIndex>::count(), 32);
    assert_eq!(<SharkPanelButtons as ToButtonIndex>::count(), 45);
    assert_eq!(<ThrottleButtons as ToButtonIndex>::count(), 78);
    assert_eq!(LeftPanelButtons::B1.to_button_index(), 0);
    assert_eq!(LeftPanelButtons::GearDown.to_button_index(), 41);
    assert_eq!(RightPanelButtons::A2Right.to_button_index(), 46);
    assert_eq!(RightStickButtons::GuardIn.to_button_index(), 31);
    assert_eq!(SharkPanelButtons::High.to_button_index(), 44);
    assert_eq!(ThrottleButtons::PinkyDialPress.to_button_index(), 0);
    assert_eq!(ThrottleButtons::RightThrottleNonZero.to_button_index(), 77);
    assert_eq!(<LeftPanelAxis as ToAxisIndex>::count(), 0);
    assert_eq!(<RightPanelAxis as ToAxisIndex>::count(), 2);
    assert_eq!(<RightStickAxis as ToAxisIndex>::count(), 5);
    assert_eq!(<SharkPanelAxis as ToAxisIndex>::count(), 4);
    assert_eq!(<ThrottleAxis as ToAxisIndex>::count(), 6);
    assert_eq!(RightPanelAxis::A1.to_axis_index(), 0);
    assert_eq!(RightPanelAxis::A2.to_axis_index(), 1);
    assert_eq!(RightStickAxis::LowerTrigger.to_axis_index(), 4);
    assert_eq!(SharkPanelAxis::RightOuter.to_axis_index(), 0);
    assert_eq!(ThrottleAxis::Slider.to_axis_index(), 5);
}

#[test]
fn find_device_picks_the_two_interfaces() {
    let list = [
        interface(Throttle::PID, 1),
        interface(SharkPanel::PID, 4),
        InterfaceInfo { vendor_id: 0x1234, product_id: SharkPanel::PID, usage: 1 },
        interface(SharkPanel::PID, 6),
        interface(SharkPanel::PID, 1),
    ];
    assert_eq!(
        find_device::<SharkPanel>(&list),
        Ok(DeviceInterfaces { state_read: 1, led_write: 4 })
    );
}

#[test]
fn find_device_reports_a_missing_interface() {
    let list = [interface(SharkPanel::PID, 4), interface(Throttle::PID, 1)];
    assert_eq!(find_device::<SharkPanel>(&list), Err(DeviceError::DeviceNotFound));
    assert_eq!(find_device::<Throttle>(&list), Err(DeviceError::DeviceNotFound));
    assert_eq!(find_device::<LeftPanel>(&[]), Err(DeviceError::DeviceNotFound));
}

#[test]
fn find_device_reports_an_ambiguous_interface() {
    let twice_read = [
        interface(RightStick::PID, 4),
        interface(RightStick::PID, 1),
        interface(RightStick::PID, 4),
    ];
    assert_eq!(find_device::<RightStick>(&twice_read), Err(DeviceError::AmbiguousDevice));
    let twice_write = [interface(RightStick::PID, 1), interface(RightStick::PID, 1)];
    assert_eq!(find_device::<RightStick>(&twice_write), Err(DeviceError::AmbiguousDevice));
}

#[test]
fn error_messages() {
    assert_eq!(DeviceError::DeviceNotFound.message(), "device not found");
    assert_eq!(DeviceError::AmbiguousDevice.message(), "ambiguous device");
    assert_eq!(DeviceError::ProtocolError.message(), "protocol error");
    assert_eq!(DeviceError::QueueClosed.message(), "queue closed");
}

#[test]
fn state_starts_at_zero() {
    let state = State::new(2, 10);
    assert_eq!(state.axes(), 2);
    assert_eq!(state.buttons(), 10);
    assert_eq!(state.read_axis(0), 0);
    assert_eq!(state.read_axis(1), 0);
    assert_eq!(state.read_button_group(0), 0);
    assert_eq!(state.read_button_group(1), 0);
    assert!(!state.is_stopped());
    state.signal_stop();
    assert!(state.is_stopped());
}

#[test]
fn one_poll_cycle_fills_the_state() {
    let state = State::new(2, 10);
    let buffer = [0x01, 0x00, 0x10, 0x00, 0x10, 0xff, 0x03];
    let report = decode_input(&buffer, state.axes(), state.buttons()).unwrap();
    state.store_report(&report);
    assert_eq!(state.read_axis(0), 0x1000);
    assert_eq!(state.read_axis(1), 0x1000);
    for button in 0u8..10 {
        assert!(state.button_state(button));
    }
}

#[test]
fn device_reads_what_the_poller_stored() {
    let (device, _receiver) = VirpilDevice::<RightPanel>::new(LedPower::FULL_RED);
    assert!(!device.button_state(RightPanelButtons::T1));
    assert_eq!(device.axis_state(RightPanelAxis::A2), 0);
    let mut buffer = vec![0x01, 0x00, 0x10, 0x00, 0x10];
    buffer.extend([0xff; 6]);
    let report = decode_input(&buffer, 2, 47).unwrap();
    device.state().store_report(&report);
    assert_eq!(device.axis_state(RightPanelAxis::A1), 0x1000);
    assert_eq!(device.axis_state(RightPanelAxis::A2), 0x1000);
    assert!(device.button_state(RightPanelButtons::B1));
    assert!(device.button_state(RightPanelButtons::T1));
    assert!(device.button_state(RightPanelButtons::A2Right));
}

#[test]
fn device_reads_single_buttons() {
    let (device, _receiver) = VirpilDevice::<Throttle>::new(LedPower::OFF);
    let mut buffer = vec![0u8; 1 + 12 + 10];
    buffer[1 + 12 + 1] = 0b0000_0100;
    let report = decode_input(&buffer, 6, 78).unwrap();
    device.state().store_report(&report);
    assert!(device.button_state(ThrottleButtons::IndexHatUp));
    assert!(!device.button_state(ThrottleButtons::IndexHatRight));
    assert!(!device.button_state(ThrottleButtons::IndexHatLeft));
    assert!(!device.button_state(ThrottleButtons::PinkyDialForward));
}

#[test]
fn priming_packets_cover_every_led() {
    let packets = priming_packets::<SharkPanel>(LedPower::FULL_GREEN);
    assert_eq!(packets.len(), 10);
    assert_eq!(packets[0], packet_for_command(BoardType::OnBoard, 8, LedPower::FULL_GREEN));
    assert_eq!(packets[4], packet_for_command(BoardType::OnBoard, 1, LedPower::FULL_GREEN));
    assert_eq!(packets[9], packet_for_command(BoardType::OnBoard, 5, LedPower::FULL_GREEN));
    let stick = priming_packets::<RightStick>(LedPower::FULL_RED);
    assert_eq!(stick.len(), 1);
    assert_eq!(stick[0][1], 0x65);
    assert_eq!(stick[0][2], 1);
    assert_eq!(stick[0][5], 0x83);
}

#[test]
fn packet_for_led_resolves_board_and_number() {
    let packet = packet_for_led(&RightPanelLed::B7, LedPower::FULL_BLUE);
    assert_eq!(packet, packet_for_command(BoardType::OnBoard, 4, LedPower::FULL_BLUE));
    assert_eq!(packet[2], 8);
    assert_eq!(packet[8], 0xb0);
}

#[test]
fn set_led_twice_enqueues_once() {
    let (mut device, receiver) = VirpilDevice::<SharkPanel>::new(LedPower::FULL_RED);
    assert_eq!(device.send_queue_size(), 0);
    let first = device.set_led(SharkPanelLed::Dir, LedPower::FULL_BLUE);
    assert_eq!(first, Ok(LedPower::FULL_RED));
    assert_eq!(device.send_queue_size(), 1);
    let second = device.set_led(SharkPanelLed::Dir, LedPower::FULL_BLUE);
    assert_eq!(second, Ok(LedPower::FULL_BLUE));
    assert_eq!(device.send_queue_size(), 1);
    assert_eq!(receiver.try_recv(), Ok((SharkPanelLed::Dir, LedPower::FULL_BLUE)));
    assert!(receiver.try_recv().is_err());
}

#[test]
fn set_led_with_the_starting_color_enqueues_nothing() {
    let (mut device, receiver) = VirpilDevice::<Throttle>::new(LedPower::FULL_RED);
    assert_eq!(device.set_led(ThrottleLed::B3, LedPower::FULL_RED), Ok(LedPower::FULL_RED));
    assert_eq!(device.set_led(ThrottleLed::B3, LedPower::FULL_RED), Ok(LedPower::FULL_RED));
    assert_eq!(receiver.len(), 0);
}

#[test]
fn set_led_keeps_the_order_of_requests() {
    let (mut device, receiver) = VirpilDevice::<LeftPanel>::new(LedPower::OFF);
    assert_eq!(device.set_led(LeftPanelLed::Warning, LedPower::FULL_RED), Ok(LedPower::OFF));
    assert_eq!(device.set_led(LeftPanelLed::GearLeft, LedPower::FULL_GREEN), Ok(LedPower::OFF));
    assert_eq!(
        device.set_led(LeftPanelLed::Warning, LedPower::FULL_YELLOW),
        Ok(LedPower::FULL_RED)
    );
    assert_eq!(receiver.try_recv(), Ok((LeftPanelLed::Warning, LedPower::FULL_RED)));
    assert_eq!(receiver.try_recv(), Ok((LeftPanelLed::GearLeft, LedPower::FULL_GREEN)));
    assert_eq!(receiver.try_recv(), Ok((LeftPanelLed::Warning, LedPower::FULL_YELLOW)));
    assert!(receiver.try_recv().is_err());
}

#[test]
fn set_led_fails_when_the_writer_is_gone() {
    let (mut device, receiver) = VirpilDevice::<RightStick>::new(LedPower::FULL_RED);
    drop(receiver);
    assert_eq!(
        device.set_led(RightStickLed::Top, LedPower::FULL_BLUE),
        Err(DeviceError::QueueClosed)
    );
    assert_eq!(device.set_led(RightStickLed::Top, LedPower::FULL_RED), Ok(LedPower::FULL_RED));
    assert_eq!(
        device.set_led(RightStickLed::Top, LedPower::FULL_BLUE),
        Err(DeviceError::QueueClosed)
    );
}

#[test]
fn shutdown_resets_every_led_once() {
    let (mut device, receiver) = VirpilDevice::<SharkPanel>::new(LedPower::FULL_RED);
    assert_eq!(device.set_led(SharkPanelLed::B1, LedPower::DEFAULT_RED), Ok(LedPower::FULL_RED));
    assert_eq!(receiver.try_recv(), Ok((SharkPanelLed::B1, LedPower::DEFAULT_RED)));
    let state = std::sync::Arc::clone(device.state());
    assert!(!state.is_stopped());
    device.shutdown();
    assert!(state.is_stopped());
    let expected = [
        SharkPanelLed::B1,
        SharkPanelLed::B2,
        SharkPanelLed::B3,
        SharkPanelLed::B4,
        SharkPanelLed::Rst,
        SharkPanelLed::B5,
        SharkPanelLed::B6,
        SharkPanelLed::Dir,
        SharkPanelLed::B7,
        SharkPanelLed::B8,
    ];
    for led in expected {
        assert_eq!(receiver.recv(), Ok((led, LedPower::DEFAULT_RED)));
    }
    assert!(receiver.recv().is_err());
}

#[test]
fn shutdown_closes_the_queue() {
    let (mut device, receiver) = VirpilDevice::<RightStick>::new(LedPower::FULL_RED);
    device.shutdown();
    assert_eq!(device.send_queue_size(), 0);
    assert_eq!(receiver.len(), 1);
    assert_eq!(
        device.set_led(RightStickLed::Top, LedPower::FULL_GREEN),
        Err(DeviceError::QueueClosed)
    );
    assert_eq!(
        device.set_led(RightStickLed::Top, LedPower::DEFAULT_RED),
        Ok(LedPower::DEFAULT_RED)
    );
    device.shutdown();
    assert_eq!(receiver.len(), 1);
}

#[test]
fn accept_report_stores_a_report_of_the_right_length() {
    let state = State::new(1, 3);
    assert!(state.accept_report(&[0x01, 0x02, 0x03, 0x05]).is_ok());
    assert_eq!(state.read_axis(0), 0x0302);
    assert_eq!(state.read_button_group(0), 0x05);
    assert!(state.button_state(0));
    assert!(!state.button_state(1));
    assert!(state.button_state(2));
}

#[test]
fn accept_report_hands_back_a_malformed_report() {
    let state = State::new(1, 3);
    assert!(state.accept_report(&[0x01, 0x02, 0x03, 0x05]).is_ok());
    let error = state.accept_report(&[0x01, 0xff, 0xff, 0xff, 0xff]).unwrap_err();
    assert_eq!(error.length, 5);
    assert_eq!(error.bytes, vec![0x01, 0xff, 0xff, 0xff, 0xff]);
    let short = state.accept_report(&[0x01, 0xff]).unwrap_err();
    assert_eq!(short.length, 2);
    assert_eq!(short.bytes, vec![0x01, 0xff]);
    assert_eq!(state.read_axis(0), 0x0302);
    assert_eq!(state.read_button_group(0), 0x05);
}

#[test]
fn a_taken_request_returns_the_previous_color_and_caches_the_new_one() {
    assert_eq!(
        settle_request(LedPower::FULL_RED, LedPower::FULL_BLUE, true),
        (Ok(LedPower::FULL_RED), LedPower::FULL_BLUE)
    );
}

#[test]
fn a_refused_request_fails_and_keeps_the_previous_color() {
    assert_eq!(
        settle_request(LedPower::FULL_RED, LedPower::FULL_BLUE, false),
        (Err(DeviceError::QueueClosed), LedPower::FULL_RED)
    );
}

#[test]
fn a_refused_request_is_offered_again() {
    let (mut device, receiver) = VirpilDevice::<Throttle>::new(LedPower::FULL_RED);
    drop(receiver);
    assert_eq!(device.set_led(ThrottleLed::B1, LedPower::FULL_GREEN), Err(DeviceError::QueueClosed));
    assert_eq!(device.set_led(ThrottleLed::B1, LedPower::FULL_GREEN), Err(DeviceError::QueueClosed));
    assert_eq!(device.set_led(ThrottleLed::B1, LedPower::FULL_RED), Ok(LedPower::FULL_RED));
}
