use virtuoso::gpio::{get_pin_by_phys_number, PinLocation};
use virtuoso::match_info::{MatchInfo, Message, MessageContent, Priority, Weapon};
use virtuoso::modules::{Modules, VirtuosoModule};
use virtuoso::slint_frontend::{display_state, MessageHandler, Received, SlintFrontend};

#[test]
fn display_shows_the_bout() {
    let mut info = MatchInfo::new();
    info.left_score = 4;
    info.weapon = Weapon::Fleuret;
    info.priority = Priority::Left;
    info.passive_counter = 61;
    info.cyrano_online = true;
    info.right_pcard_top = true;
    let d = display_state(&info);
    assert_eq!(d.left_score, 4);
    assert_eq!(d.timer, 300);
    assert_eq!(d.period, 1);
    assert_eq!(d.weapon, 3);
    assert_eq!(d.priority, -1);
    assert_eq!(d.passive_counter, -1);
    assert!(d.is_online);
    assert!(d.right_top_pcard && !d.left_top_pcard);
    info.passive_counter = 60;
    info.weapon = Weapon::Epee;
    info.priority = Priority::Right;
    let d = display_state(&info);
    assert_eq!(d.passive_counter, 60);
    assert_eq!(d.weapon, 1);
    assert_eq!(d.priority, 1);
    info.weapon = Weapon::Sabre;
    info.priority = Priority::Neither;
    let d = display_state(&info);
    assert_eq!(d.weapon, 2);
    assert_eq!(d.priority, 0);
}

#[test]
fn display_refreshes_only_on_update() {
    let h = MessageHandler::new();
    let info = MatchInfo::new();
    let upd = Received::Message(Message { msg: MessageContent::MatchInfoUpdated });
    assert_eq!(h.update_data(upd, &info), Some(display_state(&info)));
    assert_eq!(h.update_data(Received::Message(Message { msg: MessageContent::Exit }), &info), None);
    assert_eq!(h.update_data(Received::Empty, &info), None);
    assert_eq!(h.update_data(Received::Disconnected, &info), None);
    assert_eq!(SlintFrontend::new().get_module_type(), Modules::SlintFrontend);
}

#[test]
fn header_pins() {
    assert_eq!(get_pin_by_phys_number(3), Some(PinLocation { chip: 0, line: 12 }));
    assert_eq!(get_pin_by_phys_number(32), Some(PinLocation { chip: 1, line: 2 }));
    assert_eq!(get_pin_by_phys_number(36), Some(PinLocation { chip: 1, line: 4 }));
    assert_eq!(get_pin_by_phys_number(26), Some(PinLocation { chip: 0, line: 71 }));
    assert_eq!(get_pin_by_phys_number(1), None);
    assert_eq!(get_pin_by_phys_number(39), None);
    let known = (0..=255u8).filter(|p| get_pin_by_phys_number(*p).is_some()).count();
    assert_eq!(known, 28);
}
