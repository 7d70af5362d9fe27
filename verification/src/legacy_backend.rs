//! The legacy scoring box: the frames it sends over its serial line, the
//! infrared remote's commands and the selector pins, and what they do to
//! the state of the bout.
use vstd::prelude::*;
use crate::match_info::{MatchInfo, Priority};
use crate::modules::{Modules, VirtuosoModule};

verus! {

/// One frame of the scoring box: its lights, sounds, clock, scores, period
/// and cards.
#[derive(Clone, Copy, Debug, PartialEq, Eq, Structural)]
pub struct UartData {
    pub yellow_red: bool,
    pub white_red: bool,
    pub red: bool,
    pub yellow_green: bool,
    pub white_green: bool,
    pub green: bool,
    pub apparel_sound: bool,
    pub symbol: bool,
    pub on_timer: bool,
    pub minutes: u32,
    pub dec_seconds: u32,
    pub seconds: u32,
    pub timer_sound: bool,
    pub score_left: u32,
    pub score_right: u32,
    pub period: u32,
    pub yellow_card_left: u32,
    pub yellow_card_right: u32,
}

/// Whether bit `k` of `b` is set.
pub open spec fn bit(b: u8, k: u8) -> bool {
    (b >> k) & 1 == 1
}

/// The frame that eight bytes from the scoring box carry.
pub open spec fn uart_decode(src: Seq<u8>) -> UartData {
    UartData {
        yellow_red: bit(src[0], 4),
        red: bit(src[0], 3),
        white_green: bit(src[0], 2),
        yellow_green: bit(src[0], 1),
        green: bit(src[0], 0),
        white_red: bit(src[1], 4),
        apparel_sound: bit(src[1], 3),
        symbol: bit(src[1], 2),
        on_timer: bit(src[2], 4),
        timer_sound: bit(src[3], 4),
        score_left: (((src[6] & 0x10) << 1u8) | (src[4] & 0x1f)) as u32,
        score_right: (((src[7] & 0x10) << 1u8) | (src[5] & 0x1f)) as u32,
        minutes: (src[1] & 0x03) as u32,
        dec_seconds: (src[2] & 0x0f) as u32,
        seconds: (src[3] & 0x0f) as u32,
        period: (src[6] & 0x0f) as u32,
        yellow_card_left: ((src[7] >> 2u8) & 0x03) as u32,
        yellow_card_right: (src[7] & 0x03) as u32,
    }
}

impl UartData {
    /// The bounds that the widths of the fields in a frame give.
    pub open spec fn in_range(&self) -> bool {
        &&& self.minutes < 4
        &&& self.dec_seconds < 16
        &&& self.seconds < 16
        &&& self.score_left < 64
        &&& self.score_right < 64
        &&& self.period < 16
        &&& self.yellow_card_left < 4
        &&& self.yellow_card_right < 4
    }

    pub fn from_8bytes(src: [u8; 8]) -> (d: Self)
        ensures
            d == uart_decode(src@),
            d.in_range(),
    {
        let d = UartData {
            yellow_red: (src[0] >> 4) & 1 == 1,
            red: (src[0] >> 3) & 1 == 1,
            white_green: (src[0] >> 2) & 1 == 1,
            yellow_green: (src[0] >> 1) & 1 == 1,
            green: (src[0] >> 0) & 1 == 1,
            white_red: (src[1] >> 4) & 1 == 1,
            apparel_sound: (src[1] >> 3) & 1 == 1,
            symbol: (src[1] >> 2) & 1 == 1,
            on_timer: (src[2] >> 4) & 1 == 1,
            timer_sound: (src[3] >> 4) & 1 == 1,
            score_left: (((src[6] & 0x10) << 1u8) | (src[4] & 0x1f)) as u32,
            score_right: (((src[7] & 0x10) << 1u8) | (src[5] & 0x1f)) as u32,
            minutes: (src[1] & 0x03) as u32,
            dec_seconds: (src[2] & 0x0f) as u32,
            seconds: (src[3] & 0x0f) as u32,
            period: (src[6] & 0x0f) as u32,
            yellow_card_left: ((src[7] >> 2u8) & 0x03) as u32,
            yellow_card_right: (src[7] & 0x03) as u32,
        };
        proof {
            let (b0, b1, b2, b3, b4, b5, b6, b7) = (src[0], src[1], src[2], src[3], src[4], src[5], src[6], src[7]);
            assert((b0 >> 0) == b0) by (bit_vector);
            assert((b1 & 0x03) < 4) by (bit_vector);
            assert((b2 & 0x0f) < 16) by (bit_vector);
            assert((b3 & 0x0f) < 16) by (bit_vector);
            assert((b6 & 0x0f) < 16) by (bit_vector);
            assert((((b6 & 0x10) << 1u8) | (b4 & 0x1f)) < 64) by (bit_vector);
            assert((((b7 & 0x10) << 1u8) | (b5 & 0x1f)) < 64) by (bit_vector);
            assert(((b7 >> 2u8) & 0x03) < 4) by (bit_vector);
            assert((b7 & 0x03) < 4) by (bit_vector);
        }
        d
    }
}

/// The clock that a frame shows, as minutes, tens of seconds and seconds
/// run together (`3:05` is `305`): the minutes read 4 when the low half of
/// the period is `1100`.
pub open spec fn frame_timer(msg: UartData) -> int {
    (if msg.period & 0x0f == 0x0c { 4 } else { msg.minutes as int }) * 100 + msg.dec_seconds * 10
        + msg.seconds
}

/// The state of the bout after a frame from the scoring box: the scores
/// are taken; the clock is taken unless the frame shows a symbol; the
/// period is taken when it is between 1 and 9; the periods `1110`, `1111`
/// and `1011` give priority to the right, to the left and to neither.
pub open spec fn apply_uart(info: MatchInfo, msg: UartData) -> MatchInfo {
    MatchInfo {
        left_score: msg.score_left,
        right_score: msg.score_right,
        timer: if msg.symbol { info.timer } else { frame_timer(msg) as u32 },
        period: if 0 < msg.period && msg.period < 10 { msg.period } else { info.period },
        priority: if msg.period == 0x0e {
            Priority::Right
        } else if msg.period == 0x0f {
            Priority::Left
        } else if msg.period == 0x0b {
            Priority::Neither
        } else {
            info.priority
        },
        ..info
    }
}

/// Carries out a frame from the scoring box on the state of the bout.
pub fn apply_uart_data(info: &mut MatchInfo, msg: &UartData)
    requires
        !msg.symbol ==> frame_timer(*msg) <= u32::MAX,
    ensures
        *final(info) == apply_uart(*old(info), *msg),
{
    let i = *info;
    let timer = if msg.symbol {
        i.timer
    } else {
        let minutes = if msg.period & 0x0f == 0x0c { 4 } else { msg.minutes };
        minutes * 100 + msg.dec_seconds * 10 + msg.seconds
    };
    let period = if msg.period > 0 && msg.period < 10 { msg.period } else { i.period };
    let priority = if msg.period == 0x0e {
        Priority::Right
    } else if msg.period == 0x0f {
        Priority::Left
    } else if msg.period == 0x0b {
        Priority::Neither
    } else {
        i.priority
    };
    *info = MatchInfo {
        left_score: msg.score_left,
        right_score: msg.score_right,
        timer,
        period,
        priority,
        ..i
    };
}


/// The position of a byte in a frame: its top three bits.
pub open spec fn byte_slot(b: u8) -> u8 {
    b >> 5u8
}

/// Reassembles frames from the bytes of the serial line. Each byte of a
/// frame carries its position in its top three bits; a byte for position
/// 0 starts a new frame and a byte out of turn is dropped.
pub struct UartFramer {
    pub buf: [u8; 8],
    pub ind: usize,
}

impl UartFramer {
    /// Every byte gathered so far sits at the position it names.
    pub open spec fn gathered_in_order(&self) -> bool {
        &&& self.ind < 8
        &&& forall|k: int| 0 <= k < self.ind ==> byte_slot(#[trigger] self.buf@[k]) == k
    }

    pub fn new() -> (f: Self)
        ensures
            f.ind == 0,
            f.buf@ == seq![0u8, 0, 0, 0, 0, 0, 0, 0],
            f.gathered_in_order(),
    {
        let f = UartFramer { buf: [0u8; 8], ind: 0 };
        assert(f.buf@ =~= seq![0u8, 0, 0, 0, 0, 0, 0, 0]);
        f
    }

    /// Takes one byte from the serial line; returns the frame that it
    /// completes, if any.
    pub fn push_byte(&mut self, b: u8) -> (d: Option<UartData>)
        ensures
            ({
                let start = if byte_slot(b) == 0 { 0 } else { old(self).ind as int };
                if byte_slot(b) == start {
                    let filled = old(self).buf@.update(start, b);
                    &&& final(self).buf@ == filled
                    &&& if start + 1 == 8 {
                        final(self).ind == 0 && d == Some(uart_decode(filled))
                    } else {
                        final(self).ind == start + 1 && d.is_none()
                    }
                } else {
                    &&& final(self).buf@ == old(self).buf@
                    &&& final(self).ind == start
                    &&& d.is_none()
                }
            }),
            old(self).gathered_in_order() ==> final(self).gathered_in_order(),
            d is Some ==> d == Some(uart_decode(final(self).buf@)),
            old(self).gathered_in_order() && d is Some ==> forall|k: int|
                0 <= k < 8 ==> byte_slot(#[trigger] final(self).buf@[k]) == k,
    {
        let slot = b >> 5u8;
        assert(slot < 8) by (bit_vector)
            requires slot == b >> 5u8;
        if slot == 0 {
            self.ind = 0;
        }
        if slot as usize == self.ind {
            self.buf[self.ind] = b;
            self.ind = self.ind + 1;
            if self.ind == 8 {
                self.ind = 0;
                let d = UartData::from_8bytes(self.buf);
                proof {
                    if old(self).gathered_in_order() {
                        assert(forall|k: int| 0 <= k < 8 ==> byte_slot(#[trigger] self.buf@[k]) == k);
                    }
                }
                return Some(d);
            }
        }
        None
    }
}


/// The state of the selector pins.
#[derive(Clone, Copy, Debug)]
pub struct PinsData {
    pub wireless: bool,
    pub recording: bool,
    pub weapon: u8,
    pub weapon_select_btn: bool,
}

impl PartialEq for PinsData {
    fn eq(&self, other: &Self) -> (r: bool) {
        self.wireless == other.wireless && self.recording == other.recording
            && self.weapon == other.weapon && self.weapon_select_btn == other.weapon_select_btn
    }
}

impl vstd::std_specs::cmp::PartialEqSpecImpl for PinsData {
    open spec fn obeys_eq_spec() -> bool {
        true
    }

    open spec fn eq_spec(&self, other: &Self) -> bool {
        self.wireless == other.wireless && self.recording == other.recording
            && self.weapon == other.weapon && self.weapon_select_btn == other.weapon_select_btn
    }
}

/// The buttons of the infrared remote.
#[derive(Clone, Copy, Debug, PartialEq, Eq, Structural)]
pub enum IrCommands {
    TimerStartStop,
    AutoTimerOnOff,
    AutoScoreOnOff,
    LeftScoreIncrement,
    LeftScoreDecrement,
    RightScoreIncrement,
    RightScoreDecrement,
    LeftPassiveCard,
    RightPassiveCard,
    LeftPenaltyCard,
    RightPenalty,
    SecondsIncrement,
    SecondsDecrement,
    PriorityRaffle,
    SetTime,
    FlipSides,
    ChangeWeapon,
    Reset,
    PeriodIncrement,
    Unknown,
}

/// The button that an RC5 command number stands for.
pub open spec fn ir_command(command: u32) -> IrCommands {
    if command == 13 { IrCommands::TimerStartStop }
    else if command == 1 { IrCommands::AutoTimerOnOff }
    else if command == 16 { IrCommands::AutoScoreOnOff }
    else if command == 2 { IrCommands::LeftScoreIncrement }
    else if command == 3 { IrCommands::LeftScoreDecrement }
    else if command == 9 { IrCommands::RightScoreIncrement }
    else if command == 15 { IrCommands::RightScoreDecrement }
    else if command == 17 { IrCommands::LeftPassiveCard }
    else if command == 18 { IrCommands::RightPassiveCard }
    else if command == 4 { IrCommands::LeftPenaltyCard }
    else if command == 11 { IrCommands::RightPenalty }
    else if command == 14 { IrCommands::SecondsIncrement }
    else if command == 6 { IrCommands::SecondsDecrement }
    else if command == 12 { IrCommands::PriorityRaffle }
    else if command == 7 { IrCommands::SetTime }
    else if command == 0 { IrCommands::FlipSides }
    else if command == 5 { IrCommands::ChangeWeapon }
    else if command == 10 { IrCommands::Reset }
    else if command == 8 { IrCommands::PeriodIncrement }
    else { IrCommands::Unknown }
}

impl IrCommands {
    pub fn from_int(command: u32) -> (c: Self)
        ensures
            c == ir_command(command),
    {
        match command {
            13 => IrCommands::TimerStartStop,
            1 => IrCommands::AutoTimerOnOff,
            16 => IrCommands::AutoScoreOnOff,
            2 => IrCommands::LeftScoreIncrement,
            3 => IrCommands::LeftScoreDecrement,
            9 => IrCommands::RightScoreIncrement,
            15 => IrCommands::RightScoreDecrement,
            17 => IrCommands::LeftPassiveCard,
            18 => IrCommands::RightPassiveCard,
            4 => IrCommands::LeftPenaltyCard,
            11 => IrCommands::RightPenalty,
            14 => IrCommands::SecondsIncrement,
            6 => IrCommands::SecondsDecrement,
            12 => IrCommands::PriorityRaffle,
            7 => IrCommands::SetTime,
            0 => IrCommands::FlipSides,
            5 => IrCommands::ChangeWeapon,
            10 => IrCommands::Reset,
            8 => IrCommands::PeriodIncrement,
            _ => IrCommands::Unknown,
        }
    }
}

/// A command from the infrared remote: whether the button was pressed
/// anew, the device address and the button.
#[derive(Clone, Copy, Debug, PartialEq, Eq, Structural)]
pub struct IrFrame {
    pub new: bool,
    pub address: u32,
    pub command: IrCommands,
}

/// What the inputs of the scoring box report.
#[derive(Clone, Copy, Debug)]
pub enum InputData {
    UartData(UartData),
    PinsData(PinsData),
    IrCommand(IrFrame),
}

/// The legacy scoring box module.
pub struct LegacyBackend {}

impl LegacyBackend {
    pub fn new() -> (b: Self) {
        LegacyBackend {}
    }

    /// Carries out one report of the scoring box on the bout. Only frames
    /// from the serial line are handled.
    pub fn handle_input(&self, info: &mut MatchInfo, input: &InputData)
        requires
            input is UartData,
            !input->UartData_0.symbol ==> frame_timer(input->UartData_0) <= u32::MAX,
        ensures
            *final(info) == apply_uart(*old(info), input->UartData_0),
    {
        match input {
            InputData::UartData(msg) => apply_uart_data(info, msg),
            _ => {},
        }
    }
}

impl VirtuosoModule for LegacyBackend {
    fn get_module_type(&self) -> (m: Modules)
        ensures
            m == Modules::LegacyBackend,
    {
        Modules::LegacyBackend
    }
}


/// A frame decoded from the serial line always has a clock that fits, so
/// it can always be applied to the bout.
pub proof fn law_frames_fit(msg: UartData)
    requires
        msg.in_range(),
    ensures
        0 <= frame_timer(msg) <= 4 * 100 + 15 * 10 + 15,
{
}

/// The period stays between 1 and 9 whatever frames arrive.
pub proof fn law_period_stays_valid(info: MatchInfo, msg: UartData)
    requires
        1 <= info.period <= 9,
    ensures
        1 <= apply_uart(info, msg).period <= 9,
{
}

/// A frame sets the scores to the box's and leaves every field it does
/// not carry as it was.
pub proof fn law_frame_keeps_other_fields(info: MatchInfo, msg: UartData)
    ensures
        apply_uart(info, msg).left_score == msg.score_left,
        apply_uart(info, msg).right_score == msg.score_right,
        apply_uart(info, msg).weapon == info.weapon,
        apply_uart(info, msg).left_red_led_on == info.left_red_led_on,
        apply_uart(info, msg).cyrano_online == info.cyrano_online,
        msg.symbol ==> apply_uart(info, msg).timer == info.timer,
{
}

/// The remote's commands 0 to 18 are the buttons, each its own; every
/// other command is unknown.
pub proof fn law_ir_codes(a: u32, b: u32)
    ensures
        (ir_command(a) != IrCommands::Unknown) <==> a <= 18,
        a <= 18 && b <= 18 && a != b ==> ir_command(a) != ir_command(b),
{
}


/// Only the periods `1110`, `1111` and `1011` give the priority (to the
/// right, to the left and to neither); every other frame, ordinary periods
/// included, leaves the priority as it was.
pub proof fn law_priority_only_from_its_codes(info: MatchInfo, msg: UartData)
    ensures
        msg.period == 0x0e ==> apply_uart(info, msg).priority == Priority::Right,
        msg.period == 0x0f ==> apply_uart(info, msg).priority == Priority::Left,
        msg.period == 0x0b ==> apply_uart(info, msg).priority == Priority::Neither,
        msg.period != 0x0b && msg.period != 0x0e && msg.period != 0x0f
            ==> apply_uart(info, msg).priority == info.priority,
        1 <= msg.period <= 9 ==> apply_uart(info, msg).priority == info.priority,
{
}

/// A frame applied twice does no more than applied once.
pub proof fn law_frame_idempotent(info: MatchInfo, msg: UartData)
    ensures
        apply_uart(apply_uart(info, msg), msg) == apply_uart(info, msg),
{
}

proof fn lemma_byte_fields(b: u8)
    by (bit_vector)
    ensures
        bit(b, 0) == (b & 0x01 != 0),
        bit(b, 1) == (b & 0x02 != 0),
        bit(b, 2) == (b & 0x04 != 0),
        bit(b, 3) == (b & 0x08 != 0),
        bit(b, 4) == (b & 0x10 != 0),
        (b & 0x03) == b % 4,
        (b & 0x0f) == b % 16,
        ((b >> 2u8) & 0x03) == (b / 4) % 4,
{
}

proof fn lemma_score_bits(hi: u8, lo: u8)
    by (bit_vector)
    ensures
        (((hi & 0x10) << 1u8) | (lo & 0x1f)) == (if hi & 0x10 != 0 { 32u8 } else { 0u8 }) + lo % 32,
{
}

/// Each lamp and flag of a frame comes from its own bit: byte 0 holds the
/// lamps (bit 4 yellow red, 3 red, 2 white green, 1 yellow green, 0 green),
/// byte 1 the white red lamp (bit 4), the sound (3) and the symbol (2),
/// bytes 2 and 3 the timer flags (bit 4).
pub proof fn law_frame_lamps(src: Seq<u8>)
    requires
        src.len() == 8,
    ensures
        uart_decode(src).yellow_red == (src[0] & 0x10 != 0),
        uart_decode(src).red == (src[0] & 0x08 != 0),
        uart_decode(src).white_green == (src[0] & 0x04 != 0),
        uart_decode(src).yellow_green == (src[0] & 0x02 != 0),
        uart_decode(src).green == (src[0] & 0x01 != 0),
        uart_decode(src).white_red == (src[1] & 0x10 != 0),
        uart_decode(src).apparel_sound == (src[1] & 0x08 != 0),
        uart_decode(src).symbol == (src[1] & 0x04 != 0),
        uart_decode(src).on_timer == (src[2] & 0x10 != 0),
        uart_decode(src).timer_sound == (src[3] & 0x10 != 0),
{
    lemma_byte_fields(src[0]);
    lemma_byte_fields(src[1]);
    lemma_byte_fields(src[2]);
    lemma_byte_fields(src[3]);
}

/// Each number of a frame comes from its own bits: the minutes are the low
/// two bits of byte 1, the tens and units of the seconds the low four bits
/// of bytes 2 and 3, the scores the low five bits of bytes 4 and 5 with bit
/// 4 of bytes 6 and 7 worth 32, the period the low four bits of byte 6 and
/// the yellow cards bits 3-2 and 1-0 of byte 7.
pub proof fn law_frame_numbers(src: Seq<u8>)
    requires
        src.len() == 8,
    ensures
        uart_decode(src).minutes == src[1] % 4,
        uart_decode(src).dec_seconds == src[2] % 16,
        uart_decode(src).seconds == src[3] % 16,
        uart_decode(src).period == src[6] % 16,
        uart_decode(src).score_left == (if src[6] & 0x10 != 0 { 32int } else { 0 }) + src[4] % 32,
        uart_decode(src).score_right == (if src[7] & 0x10 != 0 { 32int } else { 0 }) + src[5] % 32,
        uart_decode(src).yellow_card_left == (src[7] / 4) % 4,
        uart_decode(src).yellow_card_right == src[7] % 4,
{
    lemma_byte_fields(src[1]);
    lemma_byte_fields(src[2]);
    lemma_byte_fields(src[3]);
    lemma_byte_fields(src[6]);
    lemma_byte_fields(src[7]);
    lemma_score_bits(src[6], src[4]);
    lemma_score_bits(src[7], src[5]);
}

proof fn lemma_flip_bits(b: u8)
    by (bit_vector)
    ensures
        bit(b ^ 0x01, 0) == !bit(b, 0),
        bit(b ^ 0x01, 1) == bit(b, 1),
        bit(b ^ 0x01, 2) == bit(b, 2),
        bit(b ^ 0x01, 3) == bit(b, 3),
        bit(b ^ 0x01, 4) == bit(b, 4),
        bit(b ^ 0x02, 0) == bit(b, 0),
        bit(b ^ 0x02, 1) == !bit(b, 1),
        bit(b ^ 0x02, 2) == bit(b, 2),
        bit(b ^ 0x02, 3) == bit(b, 3),
        bit(b ^ 0x02, 4) == bit(b, 4),
        bit(b ^ 0x04, 0) == bit(b, 0),
        bit(b ^ 0x04, 1) == bit(b, 1),
        bit(b ^ 0x04, 2) == !bit(b, 2),
        bit(b ^ 0x04, 3) == bit(b, 3),
        bit(b ^ 0x04, 4) == bit(b, 4),
        bit(b ^ 0x08, 0) == bit(b, 0),
        bit(b ^ 0x08, 1) == bit(b, 1),
        bit(b ^ 0x08, 2) == bit(b, 2),
        bit(b ^ 0x08, 3) == !bit(b, 3),
        bit(b ^ 0x08, 4) == bit(b, 4),
        bit(b ^ 0x10, 0) == bit(b, 0),
        bit(b ^ 0x10, 1) == bit(b, 1),
        bit(b ^ 0x10, 2) == bit(b, 2),
        bit(b ^ 0x10, 3) == bit(b, 3),
        bit(b ^ 0x10, 4) == !bit(b, 4),
{
}

/// Each lamp of the scoring box has a bit of its own: flipping one bit of
/// byte 0 turns exactly its lamp on or off and changes nothing else.
pub proof fn law_each_lamp_its_own_bit(src: Seq<u8>)
    requires
        src.len() == 8,
    ensures
        uart_decode(src.update(0, src[0] ^ 0x01)) == (UartData { green: !uart_decode(src).green, ..uart_decode(src) }),
        uart_decode(src.update(0, src[0] ^ 0x02)) == (UartData { yellow_green: !uart_decode(src).yellow_green, ..uart_decode(src) }),
        uart_decode(src.update(0, src[0] ^ 0x04)) == (UartData { white_green: !uart_decode(src).white_green, ..uart_decode(src) }),
        uart_decode(src.update(0, src[0] ^ 0x08)) == (UartData { red: !uart_decode(src).red, ..uart_decode(src) }),
        uart_decode(src.update(0, src[0] ^ 0x10)) == (UartData { yellow_red: !uart_decode(src).yellow_red, ..uart_decode(src) }),
{
    lemma_flip_bits(src[0]);
    assert(src.update(0, src[0] ^ 0x01)[0] == src[0] ^ 0x01);
    assert(src.update(0, src[0] ^ 0x02)[0] == src[0] ^ 0x02);
    assert(src.update(0, src[0] ^ 0x04)[0] == src[0] ^ 0x04);
    assert(src.update(0, src[0] ^ 0x08)[0] == src[0] ^ 0x08);
    assert(src.update(0, src[0] ^ 0x10)[0] == src[0] ^ 0x10);
}

} // verus!
