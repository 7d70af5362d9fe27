use virtuoso::cyrano_server::{
    info_message_string, is_cyrano_request, split_bytes, CyranoServer, FencerInfo, PeerAddr, Protocol,
};
use virtuoso::match_info::{MatchInfo, Priority, Weapon};
use virtuoso::modules::{Modules, VirtuosoModule};

fn peer() -> PeerAddr {
    PeerAddr { ip: 0xc0a8_0005, is_v6: false, port: 50101 }
}

fn buffer(text: &str) -> Vec<u8> {
    let mut b = vec![0u8; 512];
    b[..text.len()].copy_from_slice(text.as_bytes());
    b
}

const SEC: u64 = 1_000_000_000;

#[test]
fn protocol_names() {
    assert_eq!(Protocol::UNKNOWN.to_string(), "UNKNWN");
    assert_eq!(Protocol::CYRANO1_0.to_string(), "EFP1.0");
    assert_eq!(Protocol::CYRANO1_1.to_string(), "EFP1.1");
}

#[test]
fn fencer_records() {
    let f = FencerInfo::new();
    assert_eq!(f.to_1_0_string(), "||||0|0|0|0|0|0|0|0|");
    assert_eq!(f.to_1_1_string(), "||||0|0|0|0|0|0|0|0|0|");
    let mut g = FencerInfo::new();
    g.id = "33".to_string();
    g.name = "DUPONT Jean".to_string();
    g.nation = "FRA".to_string();
    g.score = 12;
    g.status = 1;
    g.yellow_card = 1;
    g.red_card = 2;
    g.light = 1;
    g.white_light = 0;
    g.medical_interventions = 3;
    g.reserve_introduction = 0;
    g.p_card = 4;
    assert_eq!(g.to_1_0_string(), "|33|DUPONT Jean|FRA|12|1|1|2|1|0|3|0|");
    assert_eq!(g.to_1_1_string(), "|33|DUPONT Jean|FRA|12|1|1|2|1|0|3|0|4|");
}

#[test]
fn info_messages() {
    let mut info = MatchInfo::new();
    let r = FencerInfo::new();
    let l = FencerInfo::new();
    assert_eq!(
        info_message_string(Protocol::UNKNOWN, &info, &r, &l),
        "|UNKNWN|INFO|7|aboba|2|7|8|2||300|||N|E||||%%"
    );
    info.weapon = Weapon::Sabre;
    info.priority = Priority::Left;
    info.timer = 125;
    assert_eq!(
        info_message_string(Protocol::CYRANO1_0, &info, &r, &l),
        "|EFP1.0|INFO|7|aboba|2|7|8|2||125||S|L|E||||%||||0|0|0|0|0|0|0|0|%||||0|0|0|0|0|0|0|0|"
    );
    info.weapon = Weapon::Epee;
    info.priority = Priority::Right;
    let mut right = FencerInfo::new();
    right.score = 5;
    assert_eq!(
        info_message_string(Protocol::CYRANO1_1, &info, &right, &l),
        "|EFP1.1|INFO|7|aboba|2|7|8|2||125||E|R|E||||%||||5|0|0|0|0|0|0|0|0|%||||0|0|0|0|0|0|0|0|0|"
    );
    info.weapon = Weapon::Fleuret;
    assert!(info_message_string(Protocol::UNKNOWN, &info, &r, &l).contains("||F|R|E|"));
}

#[test]
fn splitting_like_str_split() {
    for text in ["", "|", "a|b", "|EFP1.1|HELLO|", "||x||", "abc"] {
        let parts = split_bytes(text.as_bytes(), b'|');
        let expect: Vec<Vec<u8>> = text.split('|').map(|p| p.as_bytes().to_vec()).collect();
        assert_eq!(parts, expect, "input {:?}", text);
    }
}

#[test]
fn requests_need_three_fields() {
    assert!(is_cyrano_request(b"|EFP1.1|HELLO|"));
    assert!(is_cyrano_request(b"a|b|c"));
    assert!(!is_cyrano_request(b"|EFP1.1"));
    assert!(!is_cyrano_request(b""));
}

#[test]
fn new_server_defaults() {
    let s = CyranoServer::new(None);
    assert_eq!(s.udp_port, 50100);
    assert_eq!(s.protocol, Protocol::UNKNOWN);
    assert_eq!(s.software_ip, None);
    assert_eq!(s.last_hello, None);
    assert!(!s.online);
    assert_eq!(CyranoServer::new(Some(4000)).udp_port, 4000);
    assert_eq!(s.get_module_type(), Modules::CyranoServer);
}

#[test]
fn hello_is_answered_with_full_info() {
    let mut s = CyranoServer::new(None);
    let info = MatchInfo::new();
    let d = s.handle_request(&buffer("|EFP1.1|HELLO|7|"), peer(), 5 * SEC, &info).expect("answer");
    assert_eq!(s.protocol, Protocol::CYRANO1_1);
    assert_eq!(s.software_ip, Some(peer()));
    assert_eq!(s.last_hello, Some(5 * SEC));
    assert_eq!(d.to, Some(peer()));
    assert_eq!(
        d.payload,
        "|EFP1.1|INFO|7|aboba|2|7|8|2||300|||N|E||||%||||0|0|0|0|0|0|0|0|0|%||||0|0|0|0|0|0|0|0|0|"
    );
}

#[test]
fn other_requests_are_noted_not_answered() {
    let mut s = CyranoServer::new(None);
    let info = MatchInfo::new();
    assert!(s.handle_request(&buffer("|EFP1|DISP|"), peer(), SEC, &info).is_none());
    assert_eq!(s.protocol, Protocol::CYRANO1_0);
    assert_eq!(s.software_ip, Some(peer()));
    assert_eq!(s.last_hello, None);
    assert!(s.handle_request(&buffer("|EFP1.0|HELLO|"), peer(), SEC, &info).is_some());
    assert_eq!(s.protocol, Protocol::UNKNOWN);
}

#[test]
fn changes_are_sent_once() {
    let mut s = CyranoServer::new(None);
    let mut info = MatchInfo::new();
    // nothing changed
    assert!(s.poll(&mut info, 0).is_none());
    info.left_score = 3;
    // a change, but the software has not been heard from: built, addressed nowhere
    let d = s.poll(&mut info, 0).expect("change noted");
    assert_eq!(d.to, None);
    assert!(d.payload.starts_with("|UNKNWN|INFO|"));
    assert_eq!(s.left_fencer.score, 3);
    assert_eq!(s.prev_match_info.left_score, 3);
    s.handle_request(&buffer("|EFP1.1|HELLO|"), peer(), 0, &info);
    info.right_score = 70000;
    let d = s.poll(&mut info, SEC).expect("change sent");
    assert_eq!(d.to, Some(peer()));
    assert_eq!(s.right_fencer.score, (70000u32 as u16));
    assert!(d.payload.contains("%||||4464|"));
    assert!(d.payload.ends_with("%||||3|0|0|0|0|0|0|0|0|"));
    // same state again: nothing
    assert!(s.poll(&mut info, 2 * SEC).is_none());
    // a change the software is not told of still counts
    info.left_pcard_top = true;
    assert!(s.poll(&mut info, 3 * SEC).is_some());
}

#[test]
fn online_follows_hello() {
    let mut s = CyranoServer::new(None);
    let mut info = MatchInfo::new();
    s.poll(&mut info, 100 * SEC);
    assert!(!s.online && !info.cyrano_online);
    s.handle_request(&buffer("|EFP1.1|HELLO|"), peer(), 100 * SEC, &info);
    s.poll(&mut info, 100 * SEC);
    assert!(s.online && info.cyrano_online);
    s.poll(&mut info, 115 * SEC + SEC - 1);
    assert!(s.online && info.cyrano_online);
    s.poll(&mut info, 116 * SEC);
    assert!(!s.online && !info.cyrano_online);
    s.handle_request(&buffer("|EFP1.1|HELLO|"), peer(), 120 * SEC, &info);
    s.poll(&mut info, 121 * SEC);
    assert!(s.online && info.cyrano_online);
    // a clock that reads earlier than the hello counts as no time at all
    s.poll(&mut info, 50 * SEC);
    assert!(s.online);
}

#[test]
fn full_info_without_address() {
    let s = CyranoServer::new(None);
    let d = s.send_full_info(&MatchInfo::new());
    assert_eq!(d.to, None);
    assert_eq!(d.payload, "|UNKNWN|INFO|7|aboba|2|7|8|2||300|||N|E||||%%");
}

#[test]
fn fencer_cards_survive_a_poll() {
    let mut s = CyranoServer::new(None);
    s.left_fencer.p_card = 2;
    s.right_fencer.yellow_card = 1;
    let mut info = MatchInfo::new();
    info.right_score = 4;
    s.handle_request(&buffer("|EFP1.1|HELLO|"), peer(), 0, &info);
    let d = s.poll(&mut info, 0).expect("change sent");
    assert_eq!(s.left_fencer.p_card, 2);
    assert_eq!(s.right_fencer.yellow_card, 1);
    assert!(d.payload.ends_with("%||||4|0|1|0|0|0|0|0|0|%||||0|0|0|0|0|0|0|0|2|"));
}
