use vstd::prelude::*;

verus! {

/// Which fencer holds priority.
#[derive(Clone, Copy, Debug, PartialEq, Eq, Structural)]
pub enum Priority {
    Left,
    Neither,
    Right,
}

/// The weapon of the bout.
#[derive(Clone, Copy, Debug, PartialEq, Eq, Structural)]
pub enum Weapon {
    Unknown,
    Epee,
    Sabre,
    Fleuret,
}

/// Whether the program keeps running.
#[derive(Clone, Copy, Debug, PartialEq, Eq, Structural)]
pub enum ProgramState {
    Running,
    Exiting,
}

/// The state of the bout, shared by every module.
#[derive(Clone, Copy, Debug)]
pub struct MatchInfo {
    pub weapon: Weapon,
    pub left_score: u32,
    pub right_score: u32,
    pub timer: u32,
    pub period: u32,
    pub priority: Priority,
    pub passive_indicator: u32,
    pub passive_counter: u32,
    pub auto_score_on: bool,
    pub auto_timer_on: bool,
    pub left_red_led_on: bool,
    pub left_white_led_on: bool,
    pub right_green_led_on: bool,
    pub right_white_led_on: bool,
    pub left_caution: bool,
    pub left_penalty: bool,
    pub right_caution: bool,
    pub right_penalty: bool,
    pub left_pcard_bot: bool,
    pub left_pcard_top: bool,
    pub right_pcard_bot: bool,
    pub right_pcard_top: bool,
    pub cyrano_online: bool,
    pub program_state: ProgramState,
    /// Time of the last Cyrano request, in nanoseconds of a monotonic clock.
    pub last_cyrano_request: Option<u64>,
}

/// What a module is told through its channel.
#[derive(Clone, Copy, Debug, PartialEq, Eq, Structural)]
pub enum MessageContent {
    MatchInfoUpdated,
    Exit,
}

/// A message between modules.
#[derive(Clone, Copy, Debug, PartialEq, Eq, Structural)]
pub struct Message {
    pub msg: MessageContent,
}

impl MatchInfo {
    /// The state of a bout that has not started: scores zero, three minutes
    /// on the clock (`300`), first period, no priority, every light off.
    pub open spec fn initial() -> MatchInfo {
        MatchInfo {
            weapon: Weapon::Unknown,
            left_score: 0,
            right_score: 0,
            timer: 300,
            period: 1,
            priority: Priority::Neither,
            passive_indicator: 0,
            passive_counter: 60,
            auto_score_on: false,
            auto_timer_on: false,
            left_red_led_on: false,
            left_white_led_on: false,
            right_green_led_on: false,
            right_white_led_on: false,
            left_caution: false,
            left_penalty: false,
            right_caution: false,
            right_penalty: false,
            left_pcard_bot: false,
            left_pcard_top: false,
            right_pcard_bot: false,
            right_pcard_top: false,
            cyrano_online: false,
            program_state: ProgramState::Running,
            last_cyrano_request: None,
        }
    }

    pub fn new() -> (m: Self)
        ensures
            m == MatchInfo::initial(),
    {
        MatchInfo {
            weapon: Weapon::Unknown,
            left_score: 0,
            right_score: 0,
            timer: 300,
            period: 1,
            priority: Priority::Neither,
            passive_indicator: 0,
            passive_counter: 60,
            auto_score_on: false,
            auto_timer_on: false,
            left_red_led_on: false,
            left_white_led_on: false,
            right_green_led_on: false,
            right_white_led_on: false,
            left_caution: false,
            left_penalty: false,
            right_caution: false,
            right_penalty: false,
            left_pcard_bot: false,
            left_pcard_top: false,
            right_pcard_bot: false,
            right_pcard_top: false,
            cyrano_online: false,
            program_state: ProgramState::Running,
            last_cyrano_request: None,
        }
    }
}

} // verus!
