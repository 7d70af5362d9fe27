use virtuoso::match_info::{MatchInfo, Priority, ProgramState, Weapon};

#[test]
fn new_match_is_at_the_start() {
    let m = MatchInfo::new();
    assert_eq!(m.weapon, Weapon::Unknown);
    assert_eq!(m.left_score, 0);
    assert_eq!(m.right_score, 0);
    assert_eq!(m.timer, 300);
    assert_eq!(m.period, 1);
    assert_eq!(m.priority, Priority::Neither);
    assert_eq!(m.passive_indicator, 0);
    assert_eq!(m.passive_counter, 60);
    assert!(!m.auto_score_on && !m.auto_timer_on);
    assert!(!m.left_red_led_on && !m.left_white_led_on);
    assert!(!m.right_green_led_on && !m.right_white_led_on);
    assert!(!m.left_caution && !m.left_penalty && !m.right_caution && !m.right_penalty);
    assert!(!m.left_pcard_bot && !m.left_pcard_top && !m.right_pcard_bot && !m.right_pcard_top);
    assert!(!m.cyrano_online);
    assert_eq!(m.program_state, ProgramState::Running);
    assert_eq!(m.last_cyrano_request, None);
}
