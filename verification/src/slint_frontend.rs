//! The display: what it shows of the bout, and when it refreshes.
use vstd::prelude::*;
use crate::match_info::{MatchInfo, Message, MessageContent, Priority, Weapon};
use crate::modules::{Modules, VirtuosoModule};

verus! {

/// The values that the display shows.
#[derive(Clone, Copy, Debug, PartialEq, Eq, Structural)]
pub struct DisplayState {
    pub left_score: i32,
    pub right_score: i32,
    pub timer: i32,
    pub period: i32,
    pub weapon: i32,
    pub priority: i32,
    pub left_color_led_on: bool,
    pub left_white_led_on: bool,
    pub right_color_led_on: bool,
    pub right_white_led_on: bool,
    pub left_caution: bool,
    pub left_penalty: bool,
    pub right_caution: bool,
    pub right_penalty: bool,
    pub left_bot_pcard: bool,
    pub left_top_pcard: bool,
    pub right_bot_pcard: bool,
    pub right_top_pcard: bool,
    pub auto_score_on: bool,
    pub auto_timer_on: bool,
    pub passive_counter: i32,
    pub passive_indicator: i32,
    pub is_online: bool,
}

/// The number by which the display knows a weapon.
pub open spec fn weapon_number(w: Weapon) -> i32 {
    match w {
        Weapon::Unknown => 0,
        Weapon::Epee => 1,
        Weapon::Sabre => 2,
        Weapon::Fleuret => 3,
    }
}

/// The side of the priority: -1 left, 0 neither, 1 right.
pub open spec fn priority_number(p: Priority) -> i32 {
    match p {
        Priority::Left => -1i32,
        Priority::Neither => 0i32,
        Priority::Right => 1i32,
    }
}

/// What the display shows of a state of the bout; a passive counter above
/// 60 shows as -1.
pub open spec fn display_of(info: MatchInfo) -> DisplayState {
    DisplayState {
        left_score: info.left_score as i32,
        right_score: info.right_score as i32,
        timer: info.timer as i32,
        period: info.period as i32,
        weapon: weapon_number(info.weapon),
        priority: priority_number(info.priority),
        left_color_led_on: info.left_red_led_on,
        left_white_led_on: info.left_white_led_on,
        right_color_led_on: info.right_green_led_on,
        right_white_led_on: info.right_white_led_on,
        left_caution: info.left_caution,
        left_penalty: info.left_penalty,
        right_caution: info.right_caution,
        right_penalty: info.right_penalty,
        left_bot_pcard: info.left_pcard_bot,
        left_top_pcard: info.left_pcard_top,
        right_bot_pcard: info.right_pcard_bot,
        right_top_pcard: info.right_pcard_top,
        auto_score_on: info.auto_score_on,
        auto_timer_on: info.auto_timer_on,
        passive_counter: passive_shown(info.passive_counter),
        passive_indicator: info.passive_indicator as i32,
        is_online: info.cyrano_online,
    }
}

/// What a look at the display's channel found.
#[derive(Clone, Copy, Debug, PartialEq, Eq, Structural)]
pub enum Received {
    Message(Message),
    Empty,
    Disconnected,
}

/// Decides, on each tick of the display, whether to refresh it.
pub struct MessageHandler {}

impl MessageHandler {
    pub fn new() -> (h: Self) {
        MessageHandler {}
    }

    /// The values to show after a look at the channel: the current state of
    /// the bout when it was reported updated; nothing otherwise.
    pub fn update_data(&self, received: Received, info: &MatchInfo) -> (d: Option<DisplayState>)
        ensures
            d == (if received == (Received::Message(Message { msg: MessageContent::MatchInfoUpdated })) {
                Some(display_of(*info))
            } else {
                None
            }),
    {
        match received {
            Received::Message(m) => match m.msg {
                MessageContent::MatchInfoUpdated => {},
                MessageContent::Exit => {
                    return None;
                },
            },
            Received::Empty => {
                return None;
            },
            Received::Disconnected => {
                return None;
            },
        }
        Some(display_state(info))
    }
}

fn weapon_num(w: Weapon) -> (n: i32)
    ensures
        n == weapon_number(w),
{
    match w {
        Weapon::Unknown => 0,
        Weapon::Epee => 1,
        Weapon::Sabre => 2,
        Weapon::Fleuret => 3,
    }
}

fn priority_num(p: Priority) -> (n: i32)
    ensures
        n == priority_number(p),
{
    match p {
        Priority::Left => -1,
        Priority::Neither => 0,
        Priority::Right => 1,
    }
}

/// The passive counter as the display shows it: -1 above 60.
pub open spec fn passive_shown(c: u32) -> i32 {
    if c <= 60 { c as i32 } else { -1i32 }
}

fn passive_num(c: u32) -> (n: i32)
    ensures
        n == passive_shown(c),
{
    if c <= 60 { c as i32 } else { -1 }
}

/// What the display shows of a state of the bout.
pub fn display_state(info: &MatchInfo) -> (d: DisplayState)
    ensures
        d == display_of(*info),
{
    let weapon = weapon_num(info.weapon);
    let priority = priority_num(info.priority);
    let passive_counter = passive_num(info.passive_counter);
    DisplayState {
        left_score: info.left_score as i32,
        right_score: info.right_score as i32,
        timer: info.timer as i32,
        period: info.period as i32,
        weapon,
        priority,
        left_color_led_on: info.left_red_led_on,
        left_white_led_on: info.left_white_led_on,
        right_color_led_on: info.right_green_led_on,
        right_white_led_on: info.right_white_led_on,
        left_caution: info.left_caution,
        left_penalty: info.left_penalty,
        right_caution: info.right_caution,
        right_penalty: info.right_penalty,
        left_bot_pcard: info.left_pcard_bot,
        left_top_pcard: info.left_pcard_top,
        right_bot_pcard: info.right_pcard_bot,
        right_top_pcard: info.right_pcard_top,
        auto_score_on: info.auto_score_on,
        auto_timer_on: info.auto_timer_on,
        passive_counter,
        passive_indicator: info.passive_indicator as i32,
        is_online: info.cyrano_online,
    }
}

/// The display module.
pub struct SlintFrontend {
    pub message_handler: MessageHandler,
}

impl SlintFrontend {
    pub fn new() -> (f: Self) {
        SlintFrontend { message_handler: MessageHandler::new() }
    }
}

impl VirtuosoModule for SlintFrontend {
    fn get_module_type(&self) -> (m: Modules)
        ensures
            m == Modules::SlintFrontend,
    {
        Modules::SlintFrontend
    }
}


/// Each value on the display comes from the matching field of the bout.
pub proof fn law_display_fields(info: MatchInfo)
    ensures
        display_of(info).left_score == info.left_score as i32,
        display_of(info).right_score == info.right_score as i32,
        display_of(info).timer == info.timer as i32,
        display_of(info).period == info.period as i32,
        display_of(info).left_color_led_on == info.left_red_led_on,
        display_of(info).left_white_led_on == info.left_white_led_on,
        display_of(info).right_color_led_on == info.right_green_led_on,
        display_of(info).right_white_led_on == info.right_white_led_on,
        display_of(info).left_caution == info.left_caution,
        display_of(info).left_penalty == info.left_penalty,
        display_of(info).right_caution == info.right_caution,
        display_of(info).right_penalty == info.right_penalty,
        display_of(info).left_bot_pcard == info.left_pcard_bot,
        display_of(info).left_top_pcard == info.left_pcard_top,
        display_of(info).right_bot_pcard == info.right_pcard_bot,
        display_of(info).right_top_pcard == info.right_pcard_top,
        display_of(info).auto_score_on == info.auto_score_on,
        display_of(info).auto_timer_on == info.auto_timer_on,
        display_of(info).passive_indicator == info.passive_indicator as i32,
        display_of(info).is_online == info.cyrano_online,
        info.passive_counter <= 60 ==> display_of(info).passive_counter == info.passive_counter as i32,
        info.passive_counter > 60 ==> display_of(info).passive_counter == -1,
        (display_of(info).weapon == 0) == (info.weapon == Weapon::Unknown),
        (display_of(info).priority < 0) == (info.priority == Priority::Left),
        (display_of(info).priority > 0) == (info.priority == Priority::Right),
{
}

/// The priority shown on the other side.
pub open spec fn mirror_priority(p: Priority) -> Priority {
    match p {
        Priority::Left => Priority::Right,
        Priority::Neither => Priority::Neither,
        Priority::Right => Priority::Left,
    }
}

/// The same bout seen from the other side: the fencers' scores, lamps,
/// cards and priority swapped.
pub open spec fn mirrored(info: MatchInfo) -> MatchInfo {
    MatchInfo {
        left_score: info.right_score,
        right_score: info.left_score,
        priority: mirror_priority(info.priority),
        left_red_led_on: info.right_green_led_on,
        right_green_led_on: info.left_red_led_on,
        left_white_led_on: info.right_white_led_on,
        right_white_led_on: info.left_white_led_on,
        left_caution: info.right_caution,
        right_caution: info.left_caution,
        left_penalty: info.right_penalty,
        right_penalty: info.left_penalty,
        left_pcard_bot: info.right_pcard_bot,
        right_pcard_bot: info.left_pcard_bot,
        left_pcard_top: info.right_pcard_top,
        right_pcard_top: info.left_pcard_top,
        ..info
    }
}

/// Swapping the fencers swaps what the display shows on the two sides,
/// turns the priority around and leaves the rest.
pub proof fn law_display_mirror(info: MatchInfo)
    ensures
        ({
            let d = display_of(info);
            let m = display_of(mirrored(info));
            &&& m.left_score == d.right_score
            &&& m.right_score == d.left_score
            &&& m.priority == -d.priority
            &&& m.left_color_led_on == d.right_color_led_on
            &&& m.right_color_led_on == d.left_color_led_on
            &&& m.left_white_led_on == d.right_white_led_on
            &&& m.right_white_led_on == d.left_white_led_on
            &&& m.left_caution == d.right_caution
            &&& m.right_caution == d.left_caution
            &&& m.left_penalty == d.right_penalty
            &&& m.right_penalty == d.left_penalty
            &&& m.left_bot_pcard == d.right_bot_pcard
            &&& m.right_bot_pcard == d.left_bot_pcard
            &&& m.left_top_pcard == d.right_top_pcard
            &&& m.right_top_pcard == d.left_top_pcard
            &&& m.timer == d.timer
            &&& m.period == d.period
            &&& m.weapon == d.weapon
            &&& m.passive_counter == d.passive_counter
            &&& m.is_online == d.is_online
        }),
{
}

} // verus!
