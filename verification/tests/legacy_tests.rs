use virtuoso::legacy_backend::{
    apply_uart_data, InputData, IrCommands, LegacyBackend, PinsData, UartData, UartFramer,
};
use virtuoso::match_info::{MatchInfo, Priority};
use virtuoso::modules::{Modules, VirtuosoModule};

/// A frame with every slot number in the top bits and the given payloads.
fn frame(payload: [u8; 8]) -> [u8; 8] {
    let mut b = [0u8; 8];
    for k in 0..8 {
        b[k] = ((k as u8) << 5) | (payload[k] & 0x1f);
    }
    b
}

#[test]
fn decoding_a_frame() {
    // lights: yellow_red, red, green; clock 2:45; scores 3 and 37; period 2
    let bytes = frame([0b1_1001, 0b0_0010, 0b0_0100, 0b0_0101, 3, 5, 0b1_0010, 0b1_0110]);
    let d = UartData::from_8bytes(bytes);
    assert!(d.yellow_red && d.red && d.green);
    assert!(!d.white_green && !d.yellow_green);
    assert!(!d.white_red && !d.apparel_sound && !d.symbol && !d.on_timer && !d.timer_sound);
    assert_eq!(d.minutes, 2);
    assert_eq!(d.dec_seconds, 4);
    assert_eq!(d.seconds, 5);
    assert_eq!(d.score_left, 32 + 3);
    assert_eq!(d.score_right, 32 + 5);
    assert_eq!(d.period, 2);
    assert_eq!(d.yellow_card_left, 1);
    assert_eq!(d.yellow_card_right, 2);
}

#[test]
fn applying_frames() {
    let mut info = MatchInfo::new();
    let d = UartData::from_8bytes(frame([0, 0b0_0010, 4, 5, 3, 5, 2, 0]));
    apply_uart_data(&mut info, &d);
    assert_eq!(info.left_score, 3);
    assert_eq!(info.right_score, 5);
    assert_eq!(info.timer, 245);
    assert_eq!(info.period, 2);
    assert_eq!(info.priority, Priority::Neither);
    // period 1100 reads the minutes as 4, and is no valid period
    let d = UartData::from_8bytes(frame([0, 0, 0, 0, 1, 1, 0b0_1100, 0]));
    apply_uart_data(&mut info, &d);
    assert_eq!(info.timer, 400);
    assert_eq!(info.period, 2);
    // priorities
    let d = UartData::from_8bytes(frame([0, 0, 0, 0, 1, 1, 0b0_1110, 0]));
    apply_uart_data(&mut info, &d);
    assert_eq!(info.priority, Priority::Right);
    let d = UartData::from_8bytes(frame([0, 0, 0, 0, 1, 1, 0b0_1111, 0]));
    apply_uart_data(&mut info, &d);
    assert_eq!(info.priority, Priority::Left);
    let d = UartData::from_8bytes(frame([0, 0, 0, 0, 1, 1, 0, 0]));
    apply_uart_data(&mut info, &d);
    assert_eq!(info.priority, Priority::Left);
    assert_eq!(info.period, 2);
    let d = UartData::from_8bytes(frame([0, 0, 0, 0, 1, 1, 0b0_1011, 0]));
    apply_uart_data(&mut info, &d);
    assert_eq!(info.priority, Priority::Neither);
    // a symbol on the display leaves the clock
    let d = UartData::from_8bytes(frame([0, 0b0_0100, 9, 9, 1, 1, 9, 0]));
    apply_uart_data(&mut info, &d);
    assert_eq!(info.timer, 0);
    assert_eq!(info.period, 9);
}

#[test]
fn framing_bytes() {
    let mut f = UartFramer::new();
    let bytes = frame([1, 2, 3, 4, 5, 6, 7, 8]);
    for k in 0..7 {
        assert!(f.push_byte(bytes[k]).is_none());
    }
    let d = f.push_byte(bytes[7]).expect("frame");
    assert_eq!(d, UartData::from_8bytes(bytes));
    assert_eq!(f.ind, 0);
    // a byte out of turn is dropped, a slot-0 byte starts over
    assert!(f.push_byte(bytes[0]).is_none());
    assert!(f.push_byte(bytes[1]).is_none());
    assert!(f.push_byte(bytes[3]).is_none());
    assert_eq!(f.ind, 2);
    assert!(f.push_byte(bytes[0]).is_none());
    assert_eq!(f.ind, 1);
    for k in 1..7 {
        assert!(f.push_byte(bytes[k]).is_none());
    }
    assert!(f.push_byte(bytes[7]).is_some());
}

#[test]
fn ir_commands() {
    assert_eq!(IrCommands::from_int(13), IrCommands::TimerStartStop);
    assert_eq!(IrCommands::from_int(1), IrCommands::AutoTimerOnOff);
    assert_eq!(IrCommands::from_int(16), IrCommands::AutoScoreOnOff);
    assert_eq!(IrCommands::from_int(2), IrCommands::LeftScoreIncrement);
    assert_eq!(IrCommands::from_int(3), IrCommands::LeftScoreDecrement);
    assert_eq!(IrCommands::from_int(9), IrCommands::RightScoreIncrement);
    assert_eq!(IrCommands::from_int(15), IrCommands::RightScoreDecrement);
    assert_eq!(IrCommands::from_int(17), IrCommands::LeftPassiveCard);
    assert_eq!(IrCommands::from_int(18), IrCommands::RightPassiveCard);
    assert_eq!(IrCommands::from_int(4), IrCommands::LeftPenaltyCard);
    assert_eq!(IrCommands::from_int(11), IrCommands::RightPenalty);
    assert_eq!(IrCommands::from_int(14), IrCommands::SecondsIncrement);
    assert_eq!(IrCommands::from_int(6), IrCommands::SecondsDecrement);
    assert_eq!(IrCommands::from_int(12), IrCommands::PriorityRaffle);
    assert_eq!(IrCommands::from_int(7), IrCommands::SetTime);
    assert_eq!(IrCommands::from_int(0), IrCommands::FlipSides);
    assert_eq!(IrCommands::from_int(5), IrCommands::ChangeWeapon);
    assert_eq!(IrCommands::from_int(10), IrCommands::Reset);
    assert_eq!(IrCommands::from_int(8), IrCommands::PeriodIncrement);
    assert_eq!(IrCommands::from_int(19), IrCommands::Unknown);
    assert_eq!(IrCommands::from_int(63), IrCommands::Unknown);
}

#[test]
fn pins_compare_by_every_field() {
    let a = PinsData { wireless: true, recording: false, weapon: 2, weapon_select_btn: false };
    assert!(a == PinsData { wireless: true, recording: false, weapon: 2, weapon_select_btn: false });
    assert!(a != PinsData { wireless: false, ..a });
    assert!(a != PinsData { recording: true, ..a });
    assert!(a != PinsData { weapon: 1, ..a });
    assert!(a != PinsData { weapon_select_btn: true, ..a });
}

#[test]
fn backend_handles_serial_frames() {
    let b = LegacyBackend::new();
    assert_eq!(b.get_module_type(), Modules::LegacyBackend);
    let mut info = MatchInfo::new();
    let d = UartData::from_8bytes(frame([0, 1, 0, 7, 4, 2, 3, 0]));
    b.handle_input(&mut info, &InputData::UartData(d));
    assert_eq!(info.left_score, 4);
    assert_eq!(info.right_score, 2);
    assert_eq!(info.timer, 107);
    assert_eq!(info.period, 3);
}
