//! The Cyrano protocol server: it answers the scoring software on the
//! network and tells it the state of the bout whenever that changes.
use vstd::prelude::*;
use crate::match_info::{MatchInfo, Priority, Weapon};
use crate::modules::{Modules, VirtuosoModule};
use crate::text::{bar_join, bar_list, decimal, decimal_string, push_char};
use crate::slint_frontend::display_of;

verus! {

/// The version of the protocol that the scoring software speaks.
#[allow(non_camel_case_types)]
#[derive(Clone, Copy, Debug, PartialEq, Eq, Structural)]
pub enum Protocol {
    UNKNOWN,
    CYRANO1_0,
    CYRANO1_1,
}

impl Protocol {
    /// The name that goes into the first field of a message.
    pub open spec fn name(self) -> Seq<char> {
        match self {
            Protocol::UNKNOWN => "UNKNWN"@,
            Protocol::CYRANO1_0 => "EFP1.0"@,
            Protocol::CYRANO1_1 => "EFP1.1"@,
        }
    }

    pub fn to_string(&self) -> (s: String)
        ensures
            s@ == self.name(),
    {
        match self {
            Protocol::UNKNOWN => String::from_str("UNKNWN"),
            Protocol::CYRANO1_0 => String::from_str("EFP1.0"),
            Protocol::CYRANO1_1 => String::from_str("EFP1.1"),
        }
    }
}

/// What the protocol tells of one fencer.
pub struct FencerInfo {
    pub id: String,
    pub name: String,
    pub nation: String,
    pub score: u16,
    pub status: u8,
    pub yellow_card: u8,
    pub red_card: u8,
    pub light: u8,
    pub white_light: u8,
    pub medical_interventions: u8,
    pub reserve_introduction: u8,
    pub p_card: u8,
}

impl FencerInfo {
    /// The fields of the fencer in version 1.0 of the protocol.
    pub open spec fn items_1_0(&self) -> Seq<Seq<char>> {
        seq![
            self.id@,
            self.name@,
            self.nation@,
            decimal(self.score as nat),
            decimal(self.status as nat),
            decimal(self.yellow_card as nat),
            decimal(self.red_card as nat),
            decimal(self.light as nat),
            decimal(self.white_light as nat),
            decimal(self.medical_interventions as nat),
            decimal(self.reserve_introduction as nat),
        ]
    }

    /// The fields of the fencer in version 1.1: those of 1.0, then the P-card.
    pub open spec fn items_1_1(&self) -> Seq<Seq<char>> {
        self.items_1_0().push(decimal(self.p_card as nat))
    }

    /// A fencer not yet known: empty texts and every number zero.
    pub open spec fn blank(&self) -> bool {
        &&& self.id@ == Seq::<char>::empty()
        &&& self.name@ == Seq::<char>::empty()
        &&& self.nation@ == Seq::<char>::empty()
        &&& self.score == 0
        &&& self.status == 0
        &&& self.yellow_card == 0
        &&& self.red_card == 0
        &&& self.light == 0
        &&& self.white_light == 0
        &&& self.medical_interventions == 0
        &&& self.reserve_introduction == 0
        &&& self.p_card == 0
    }

    pub fn new() -> (f: Self)
        ensures
            f.blank(),
    {
        FencerInfo {
            id: String::new(),
            name: String::new(),
            nation: String::new(),
            score: 0,
            status: 0,
            yellow_card: 0,
            red_card: 0,
            light: 0,
            white_light: 0,
            medical_interventions: 0,
            reserve_introduction: 0,
            p_card: 0,
        }
    }

    fn items_1_0_exec(&self) -> (v: Vec<String>)
        ensures
            v.deep_view() == self.items_1_0(),
    {
        let v = vec![
            self.id.clone(),
            self.name.clone(),
            self.nation.clone(),
            decimal_string(self.score as u64),
            decimal_string(self.status as u64),
            decimal_string(self.yellow_card as u64),
            decimal_string(self.red_card as u64),
            decimal_string(self.light as u64),
            decimal_string(self.white_light as u64),
            decimal_string(self.medical_interventions as u64),
            decimal_string(self.reserve_introduction as u64),
        ];
        assert(v.deep_view() =~= self.items_1_0());
        v
    }

    /// The fencer's record in version 1.0: `|id|name|nation|score|...|reserve|`.
    pub fn to_1_0_string(&self) -> (s: String)
        ensures
            s@ == bar_list(self.items_1_0()),
    {
        let v = self.items_1_0_exec();
        bar_join(&v)
    }

    /// The fencer's record in version 1.1: that of 1.0 with the P-card added.
    pub fn to_1_1_string(&self) -> (s: String)
        ensures
            s@ == bar_list(self.items_1_1()),
    {
        let mut v = self.items_1_0_exec();
        v.push(decimal_string(self.p_card as u64));
        assert(v.deep_view() =~= self.items_1_1());
        bar_join(&v)
    }
}


/// The one-letter code of the weapon in a message; nothing when it is unknown.
pub open spec fn weapon_code(w: Weapon) -> Seq<char> {
    match w {
        Weapon::Unknown => Seq::empty(),
        Weapon::Epee => seq!['E'],
        Weapon::Sabre => seq!['S'],
        Weapon::Fleuret => seq!['F'],
    }
}

/// The one-letter code of the priority in a message.
pub open spec fn priority_code(p: Priority) -> Seq<char> {
    match p {
        Priority::Left => seq!['L'],
        Priority::Neither => seq!['N'],
        Priority::Right => seq!['R'],
    }
}

fn weapon_code_string(w: Weapon) -> (s: String)
    ensures
        s@ == weapon_code(w),
{
    let mut s = String::new();
    match w {
        Weapon::Unknown => {},
        Weapon::Epee => push_char(&mut s, 'E'),
        Weapon::Sabre => push_char(&mut s, 'S'),
        Weapon::Fleuret => push_char(&mut s, 'F'),
    }
    assert(s@ =~= weapon_code(w));
    s
}

fn priority_code_string(p: Priority) -> (s: String)
    ensures
        s@ == priority_code(p),
{
    let mut s = String::new();
    match p {
        Priority::Left => push_char(&mut s, 'L'),
        Priority::Neither => push_char(&mut s, 'N'),
        Priority::Right => push_char(&mut s, 'R'),
    }
    assert(s@ =~= priority_code(p));
    s
}

/// The record of a fencer in the given version of the protocol; nothing
/// when the version is unknown.
pub open spec fn fencer_text(p: Protocol, f: &FencerInfo) -> Seq<char> {
    match p {
        Protocol::UNKNOWN => Seq::empty(),
        Protocol::CYRANO1_0 => bar_list(f.items_1_0()),
        Protocol::CYRANO1_1 => bar_list(f.items_1_1()),
    }
}

fn fencer_string(p: Protocol, f: &FencerInfo) -> (s: String)
    ensures
        s@ == fencer_text(p, f),
{
    match p {
        Protocol::UNKNOWN => String::new(),
        Protocol::CYRANO1_0 => f.to_1_0_string(),
        Protocol::CYRANO1_1 => f.to_1_1_string(),
    }
}

/// The general fields of an `INFO` message: the protocol, the command, the
/// fixed piste and competition data, the clock, the weapon, the priority
/// and the state, with empty time, type and referee fields.
pub open spec fn info_items(p: Protocol, info: MatchInfo) -> Seq<Seq<char>> {
    seq![
        p.name(),
        "INFO"@,
        "7"@,
        "aboba"@,
        "2"@,
        "7"@,
        "8"@,
        "2"@,
        Seq::empty(),
        decimal(info.timer as nat),
        Seq::empty(),
        weapon_code(info.weapon),
        priority_code(info.priority),
        "E"@,
        Seq::empty(),
        Seq::empty(),
        Seq::empty(),
    ]
}

/// The full `INFO` message: the general record, then `%` and the right
/// fencer's record, then `%` and the left fencer's record.
pub open spec fn info_message(p: Protocol, info: MatchInfo, right: &FencerInfo, left: &FencerInfo) -> Seq<char> {
    bar_list(info_items(p, info)) + seq!['%'] + fencer_text(p, right) + seq!['%'] + fencer_text(p, left)
}

/// Builds the full `INFO` message.
pub fn info_message_string(p: Protocol, info: &MatchInfo, right: &FencerInfo, left: &FencerInfo) -> (s: String)
    ensures
        s@ == info_message(p, *info, right, left),
{
    let items = vec![
        p.to_string(),
        String::from_str("INFO"),
        String::from_str("7"),
        String::from_str("aboba"),
        String::from_str("2"),
        String::from_str("7"),
        String::from_str("8"),
        String::from_str("2"),
        String::new(),
        decimal_string(info.timer as u64),
        String::new(),
        weapon_code_string(info.weapon),
        priority_code_string(info.priority),
        String::from_str("E"),
        String::new(),
        String::new(),
        String::new(),
    ];
    assert(items.deep_view() =~= info_items(p, *info));
    let mut s = bar_join(&items);
    push_char(&mut s, '%');
    let r = fencer_string(p, right);
    s.append(r.as_str());
    push_char(&mut s, '%');
    let l = fencer_string(p, left);
    s.append(l.as_str());
    s
}


/// The pieces of `s` between separators, as `str::split` yields them: one
/// more piece than there are separators, empty pieces included.
pub open spec fn split_on(s: Seq<u8>, sep: u8) -> Seq<Seq<u8>>
    decreases s.len(),
{
    if s.len() == 0 {
        seq![Seq::empty()]
    } else {
        let init = split_on(s.drop_last(), sep);
        if s.last() == sep {
            init.push(Seq::empty())
        } else {
            init.update(init.len() - 1, init.last().push(s.last()))
        }
    }
}

/// Splits `data` at every `sep`.
pub fn split_bytes(data: &[u8], sep: u8) -> (parts: Vec<Vec<u8>>)
    ensures
        parts.deep_view() == split_on(data@, sep),
{
    let mut done: Vec<Vec<u8>> = Vec::new();
    let mut cur: Vec<u8> = Vec::new();
    assert(data@.take(0) =~= Seq::<u8>::empty());
    assert(cur.deep_view() =~= Seq::<u8>::empty());
    assert(done.deep_view() =~= Seq::<Seq<u8>>::empty());
    assert(done.deep_view().push(cur.deep_view()) =~= split_on(data@.take(0), sep));
    let n = data.len();
    for i in 0..n
        invariant
            n == data@.len(),
            done.deep_view().push(cur.deep_view()) == split_on(data@.take(i as int), sep),
    {
        let b = data[i];
        let ghost before = done.deep_view().push(cur.deep_view());
        let ghost old_done = done.deep_view();
        let ghost old_cur = cur.deep_view();
        assert(data@.take(i + 1).drop_last() =~= data@.take(i as int));
        assert(data@.take(i + 1).last() == b);
        if b == sep {
            done.push(cur);
            cur = Vec::new();
            assert(done.deep_view() =~= old_done.push(old_cur));
            assert(cur.deep_view() =~= Seq::<u8>::empty());
            assert(done.deep_view().push(cur.deep_view()) =~= before.push(Seq::empty()));
        } else {
            cur.push(b);
            assert(cur.deep_view() =~= old_cur.push(b));
            assert(done.deep_view().push(cur.deep_view()) =~= before.update(
                before.len() - 1,
                before.last().push(b),
            ));
        }
    }
    assert(data@.take(n as int) =~= data@);
    let ghost old_done = done.deep_view();
    let ghost old_cur = cur.deep_view();
    done.push(cur);
    assert(done.deep_view() =~= old_done.push(old_cur));
    done
}

/// The separator of the fields of a message.
pub open spec fn bar() -> u8 {
    0x7c
}

/// The bytes of `EFP1`, which names version 1.0 in a request.
pub open spec fn efp1_0_tag() -> Seq<u8> {
    seq![0x45u8, 0x46, 0x50, 0x31]
}

/// The bytes of `EFP1.1`.
pub open spec fn efp1_1_tag() -> Seq<u8> {
    seq![0x45u8, 0x46, 0x50, 0x31, 0x2e, 0x31]
}

/// The bytes of `HELLO`.
pub open spec fn hello_tag() -> Seq<u8> {
    seq![0x48u8, 0x45, 0x4c, 0x4c, 0x4f]
}

/// The protocol that the second field of a request names.
pub open spec fn protocol_of(field: Seq<u8>) -> Protocol {
    if field == efp1_0_tag() {
        Protocol::CYRANO1_0
    } else if field == efp1_1_tag() {
        Protocol::CYRANO1_1
    } else {
        Protocol::UNKNOWN
    }
}

/// A request has at least three fields: the empty one before the first
/// bar, the protocol and the command.
pub open spec fn is_request(data: Seq<u8>) -> bool {
    split_on(data, bar()).len() >= 3
}

/// The protocol field of a request.
pub open spec fn request_protocol(data: Seq<u8>) -> Protocol {
    protocol_of(split_on(data, bar())[1])
}

/// Whether the command of a request is `HELLO`.
pub open spec fn request_is_hello(data: Seq<u8>) -> bool {
    split_on(data, bar())[2] == hello_tag()
}

fn parse_protocol(field: &Vec<u8>) -> (p: Protocol)
    ensures
        p == protocol_of(field@),
{
    let n = field.len();
    if n == 4 && field[0] == 0x45 && field[1] == 0x46 && field[2] == 0x50 && field[3] == 0x31 {
        assert(field@ =~= efp1_0_tag());
        Protocol::CYRANO1_0
    } else if n == 6 && field[0] == 0x45 && field[1] == 0x46 && field[2] == 0x50 && field[3] == 0x31
        && field[4] == 0x2e && field[5] == 0x31 {
        assert(field@ =~= efp1_1_tag());
        Protocol::CYRANO1_1
    } else {
        proof {
            if field@ == efp1_0_tag() {
                assert(field@[0] == 0x45 && field@[3] == 0x31);
            }
            if field@ == efp1_1_tag() {
                assert(field@[0] == 0x45 && field@[5] == 0x31);
            }
        }
        Protocol::UNKNOWN
    }
}

fn is_hello(field: &Vec<u8>) -> (b: bool)
    ensures
        b == (field@ == hello_tag()),
{
    let n = field.len();
    if n == 5 && field[0] == 0x48 && field[1] == 0x45 && field[2] == 0x4c && field[3] == 0x4c
        && field[4] == 0x4f {
        assert(field@ =~= hello_tag());
        true
    } else {
        proof {
            if field@ == hello_tag() {
                assert(field@[0] == 0x48 && field@[4] == 0x4f);
            }
        }
        false
    }
}

/// Whether `data` has the fields that a request needs.
pub fn is_cyrano_request(data: &[u8]) -> (b: bool)
    ensures
        b == is_request(data@),
{
    let parts = split_bytes(data, 0x7c);
    parts.len() >= 3
}


/// The network address of the scoring software: an IPv4 address (in the
/// low 32 bits) or an IPv6 address, and a port.
#[derive(Clone, Copy, Debug, PartialEq, Eq, Structural)]
pub struct PeerAddr {
    pub ip: u128,
    pub is_v6: bool,
    pub port: u16,
}

/// A message to send, and where to: nowhere before the software has been
/// heard from.
pub struct Datagram {
    pub payload: String,
    pub to: Option<PeerAddr>,
}

/// Whether two states of the bout agree on every field that the scoring
/// software is told of or that the display shows.
pub open spec fn same_tracked(a: MatchInfo, b: MatchInfo) -> bool {
    &&& a.weapon == b.weapon
    &&& a.left_score == b.left_score
    &&& a.right_score == b.right_score
    &&& a.timer == b.timer
    &&& a.period == b.period
    &&& a.priority == b.priority
    &&& a.passive_indicator == b.passive_indicator
    &&& a.passive_counter == b.passive_counter
    &&& a.auto_score_on == b.auto_score_on
    &&& a.auto_timer_on == b.auto_timer_on
    &&& a.left_red_led_on == b.left_red_led_on
    &&& a.left_white_led_on == b.left_white_led_on
    &&& a.right_green_led_on == b.right_green_led_on
    &&& a.right_white_led_on == b.right_white_led_on
    &&& a.left_caution == b.left_caution
    &&& a.left_penalty == b.left_penalty
    &&& a.right_caution == b.right_caution
    &&& a.right_penalty == b.right_penalty
    &&& a.left_pcard_bot == b.left_pcard_bot
    &&& a.left_pcard_top == b.left_pcard_top
    &&& a.right_pcard_bot == b.right_pcard_bot
    &&& a.right_pcard_top == b.right_pcard_top
}

/// `prev` with every tracked field taken from `cur`.
pub open spec fn take_tracked(prev: MatchInfo, cur: MatchInfo) -> MatchInfo {
    MatchInfo {
        weapon: cur.weapon,
        left_score: cur.left_score,
        right_score: cur.right_score,
        timer: cur.timer,
        period: cur.period,
        priority: cur.priority,
        passive_indicator: cur.passive_indicator,
        passive_counter: cur.passive_counter,
        auto_score_on: cur.auto_score_on,
        auto_timer_on: cur.auto_timer_on,
        left_red_led_on: cur.left_red_led_on,
        left_white_led_on: cur.left_white_led_on,
        right_green_led_on: cur.right_green_led_on,
        right_white_led_on: cur.right_white_led_on,
        left_caution: cur.left_caution,
        left_penalty: cur.left_penalty,
        right_caution: cur.right_caution,
        right_penalty: cur.right_penalty,
        left_pcard_bot: cur.left_pcard_bot,
        left_pcard_top: cur.left_pcard_top,
        right_pcard_bot: cur.right_pcard_bot,
        right_pcard_top: cur.right_pcard_top,
        ..prev
    }
}

/// Whole seconds from `then` to `now`, zero when `now` is earlier; times
/// are nanoseconds of a monotonic clock.
pub open spec fn elapsed_secs(now: u64, then: u64) -> int {
    if now >= then {
        (now - then) / 1_000_000_000
    } else {
        0
    }
}

/// How long the software may stay silent, in seconds, before it counts as
/// offline.
pub open spec fn hello_timeout_secs() -> int {
    15
}

/// The port on which the server listens when none is given.
pub open spec fn default_udp_port() -> u16 {
    50100
}

/// Whether two states of the bout agree on every tracked field.
pub fn tracked_equal(p: &MatchInfo, info: &MatchInfo) -> (b: bool)
    ensures
        b == same_tracked(*p, *info),
{
    p.weapon == info.weapon && p.left_score == info.left_score
        && p.right_score == info.right_score && p.timer == info.timer && p.period == info.period
        && p.priority == info.priority && p.passive_indicator == info.passive_indicator
        && p.passive_counter == info.passive_counter && p.auto_score_on == info.auto_score_on
        && p.auto_timer_on == info.auto_timer_on && p.left_red_led_on == info.left_red_led_on
        && p.left_white_led_on == info.left_white_led_on
        && p.right_green_led_on == info.right_green_led_on
        && p.right_white_led_on == info.right_white_led_on && p.left_caution == info.left_caution
        && p.left_penalty == info.left_penalty && p.right_caution == info.right_caution
        && p.right_penalty == info.right_penalty && p.left_pcard_bot == info.left_pcard_bot
        && p.left_pcard_top == info.left_pcard_top && p.right_pcard_bot == info.right_pcard_bot
        && p.right_pcard_top == info.right_pcard_top
}

/// Whether the software counts as online at `now`, given the time of its
/// last `HELLO` and whether it counted as online before.
pub open spec fn spec_online_status(last_hello: Option<u64>, online: bool, now: u64) -> bool {
    match last_hello {
        Some(t) => elapsed_secs(now, t) <= hello_timeout_secs(),
        None => online,
    }
}

fn online_status(last_hello: Option<u64>, online: bool, now: u64) -> (b: bool)
    ensures
        b == spec_online_status(last_hello, online, now),
{
    match last_hello {
        Some(last) => {
            let secs = if now >= last { (now - last) / 1_000_000_000 } else { 0 };
            if secs > 15 && online {
                false
            } else if secs <= 15 && !online {
                true
            } else {
                online
            }
        },
        None => online,
    }
}

/// The state of the Cyrano server between two events.
pub struct CyranoServer {
    pub udp_port: u16,
    pub protocol: Protocol,
    pub software_ip: Option<PeerAddr>,
    pub last_hello: Option<u64>,
    pub online: bool,
    pub left_fencer: FencerInfo,
    pub right_fencer: FencerInfo,
    pub prev_match_info: MatchInfo,
}

impl CyranoServer {
    /// The fencers' scores are those of the last state of the bout that
    /// the server took note of.
    pub open spec fn scores_in_step(&self) -> bool {
        &&& self.left_fencer.score == self.prev_match_info.left_score as u16
        &&& self.right_fencer.score == self.prev_match_info.right_score as u16
    }

    /// The `INFO` message about `info` that the server builds, and where it
    /// goes: nowhere before the software has been heard from.
    pub open spec fn spec_full_info(&self, info: MatchInfo) -> (Seq<char>, Option<PeerAddr>) {
        (info_message(self.protocol, info, &self.right_fencer, &self.left_fencer), self.software_ip)
    }

    pub fn new(udp_port: Option<u16>) -> (s: Self)
        ensures
            s.udp_port == (match udp_port {
                Some(p) => p,
                None => default_udp_port(),
            }),
            s.protocol == Protocol::UNKNOWN,
            s.software_ip.is_none(),
            s.last_hello.is_none(),
            !s.online,
            s.left_fencer.blank(),
            s.right_fencer.blank(),
            s.prev_match_info == MatchInfo::initial(),
            s.scores_in_step(),
    {
        let port = match udp_port {
            Some(p) => p,
            None => 50100,
        };
        CyranoServer {
            udp_port: port,
            protocol: Protocol::UNKNOWN,
            software_ip: None,
            last_hello: None,
            online: false,
            left_fencer: FencerInfo::new(),
            right_fencer: FencerInfo::new(),
            prev_match_info: MatchInfo::new(),
        }
    }

    /// The full `INFO` message about `info`, addressed to the software
    /// when it has been heard from.
    pub fn send_full_info(&self, info: &MatchInfo) -> (d: Datagram)
        ensures
            (d.payload@, d.to) == self.spec_full_info(*info),
    {
        let payload = info_message_string(self.protocol, info, &self.right_fencer, &self.left_fencer);
        Datagram { payload, to: self.software_ip }
    }

    /// Handles a request from the software at `from`, received at `now`:
    /// notes its protocol and address; on `HELLO`, notes the time and
    /// answers with the full state of the bout.
    pub fn handle_request(&mut self, data: &[u8], from: PeerAddr, now: u64, info: &MatchInfo) -> (d: Option<Datagram>)
        requires
            vstd::utf8::valid_utf8(data@),
            is_request(data@),
        ensures
            final(self).protocol == request_protocol(data@),
            final(self).software_ip == Some(from),
            final(self).last_hello == (if request_is_hello(data@) { Some(now) } else { old(self).last_hello }),
            final(self).udp_port == old(self).udp_port,
            final(self).online == old(self).online,
            final(self).prev_match_info == old(self).prev_match_info,
            final(self).left_fencer == old(self).left_fencer,
            final(self).right_fencer == old(self).right_fencer,
            match d {
                Some(d) => request_is_hello(data@) && final(self).spec_full_info(*info) == (d.payload@, d.to),
                None => !request_is_hello(data@),
            },
    {
        let parts = split_bytes(data, 0x7c);
        assert(parts[1]@ =~= parts.deep_view()[1]);
        assert(parts[2]@ =~= parts.deep_view()[2]);
        self.protocol = parse_protocol(&parts[1]);
        self.software_ip = Some(from);
        if is_hello(&parts[2]) {
            self.last_hello = Some(now);
            Some(self.send_full_info(info))
        } else {
            None
        }
    }

    fn take_note(&mut self, info: &MatchInfo)
        ensures
            final(self).prev_match_info == take_tracked(old(self).prev_match_info, *info),
            final(self).left_fencer.score == info.left_score as u16,
            final(self).right_fencer.score == info.right_score as u16,
            final(self).udp_port == old(self).udp_port,
            final(self).protocol == old(self).protocol,
            final(self).software_ip == old(self).software_ip,
            final(self).last_hello == old(self).last_hello,
            final(self).online == old(self).online,
            final(self).left_fencer == (FencerInfo { score: final(self).left_fencer.score, ..old(self).left_fencer }),
            final(self).right_fencer == (FencerInfo { score: final(self).right_fencer.score, ..old(self).right_fencer }),
    {
        self.left_fencer.score = info.left_score as u16;
        self.right_fencer.score = info.right_score as u16;
        self.prev_match_info = MatchInfo {
            weapon: info.weapon,
            left_score: info.left_score,
            right_score: info.right_score,
            timer: info.timer,
            period: info.period,
            priority: info.priority,
            passive_indicator: info.passive_indicator,
            passive_counter: info.passive_counter,
            auto_score_on: info.auto_score_on,
            auto_timer_on: info.auto_timer_on,
            left_red_led_on: info.left_red_led_on,
            left_white_led_on: info.left_white_led_on,
            right_green_led_on: info.right_green_led_on,
            right_white_led_on: info.right_white_led_on,
            left_caution: info.left_caution,
            left_penalty: info.left_penalty,
            right_caution: info.right_caution,
            right_penalty: info.right_penalty,
            left_pcard_bot: info.left_pcard_bot,
            left_pcard_top: info.left_pcard_top,
            right_pcard_bot: info.right_pcard_bot,
            right_pcard_top: info.right_pcard_top,
            ..self.prev_match_info
        };
    }

    fn update_online(&mut self, info: &mut MatchInfo, now: u64)
        ensures
            final(self).online == spec_online_status(old(self).last_hello, old(self).online, now),
            final(info).cyrano_online == (if final(self).online != old(self).online {
                final(self).online
            } else {
                old(info).cyrano_online
            }),
            *final(info) == (MatchInfo { cyrano_online: final(info).cyrano_online, ..*old(info) }),
            final(self).udp_port == old(self).udp_port,
            final(self).protocol == old(self).protocol,
            final(self).software_ip == old(self).software_ip,
            final(self).last_hello == old(self).last_hello,
            final(self).prev_match_info == old(self).prev_match_info,
            final(self).left_fencer == old(self).left_fencer,
            final(self).right_fencer == old(self).right_fencer,
    {
        let next = online_status(self.last_hello, self.online, now);
        if next != self.online {
            self.online = next;
            info.cyrano_online = next;
        }
    }

    fn note_change(&mut self, info: &MatchInfo) -> (d: Option<Datagram>)
        ensures
            ({
                let changed = !same_tracked(old(self).prev_match_info, *info);
                let expect_prev = if changed {
                    take_tracked(old(self).prev_match_info, *info)
                } else {
                    old(self).prev_match_info
                };
                &&& final(self).prev_match_info == expect_prev
                &&& same_tracked(final(self).prev_match_info, *info)
                &&& (changed ==> final(self).left_fencer.score == info.left_score as u16
                    && final(self).right_fencer.score == info.right_score as u16)
                &&& (!changed ==> final(self).left_fencer.score == old(self).left_fencer.score
                    && final(self).right_fencer.score == old(self).right_fencer.score)
                &&& final(self).left_fencer == (FencerInfo {
                    score: final(self).left_fencer.score,
                    ..old(self).left_fencer
                })
                &&& final(self).right_fencer == (FencerInfo {
                    score: final(self).right_fencer.score,
                    ..old(self).right_fencer
                })
                &&& match d {
                    Some(d) => changed && final(self).spec_full_info(*info) == (d.payload@, d.to),
                    None => !changed,
                }
            }),
            final(self).udp_port == old(self).udp_port,
            final(self).protocol == old(self).protocol,
            final(self).software_ip == old(self).software_ip,
            final(self).last_hello == old(self).last_hello,
            final(self).online == old(self).online,
    {
        let changed = !tracked_equal(&self.prev_match_info, info);
        if changed {
            self.take_note(info);
            Some(self.send_full_info(info))
        } else {
            None
        }
    }

    /// One turn of the server's loop after the network has been read: if
    /// the bout changed since the server last took note, it takes note,
    /// updates the fencers' scores and sends the full state; then it marks
    /// the software online or offline by the time since its last `HELLO`.
    pub fn poll(&mut self, info: &mut MatchInfo, now: u64) -> (d: Option<Datagram>)
        ensures
            ({
                let changed = !same_tracked(old(self).prev_match_info, *old(info));
                let expect_prev = if changed {
                    take_tracked(old(self).prev_match_info, *old(info))
                } else {
                    old(self).prev_match_info
                };
                &&& final(self).prev_match_info == expect_prev
                &&& same_tracked(final(self).prev_match_info, *old(info))
                &&& (changed ==> final(self).left_fencer.score == old(info).left_score as u16
                    && final(self).right_fencer.score == old(info).right_score as u16)
                &&& (!changed ==> final(self).left_fencer.score == old(self).left_fencer.score
                    && final(self).right_fencer.score == old(self).right_fencer.score)
                &&& final(self).left_fencer == (FencerInfo {
                    score: final(self).left_fencer.score,
                    ..old(self).left_fencer
                })
                &&& final(self).right_fencer == (FencerInfo {
                    score: final(self).right_fencer.score,
                    ..old(self).right_fencer
                })
                &&& match d {
                    Some(d) => changed && final(self).spec_full_info(*old(info)) == (d.payload@, d.to),
                    None => !changed,
                }
            }),
            final(self).online == spec_online_status(old(self).last_hello, old(self).online, now),
            final(info).cyrano_online == (if final(self).online != old(self).online {
                final(self).online
            } else {
                old(info).cyrano_online
            }),
            *final(info) == (MatchInfo { cyrano_online: final(info).cyrano_online, ..*old(info) }),
            final(self).udp_port == old(self).udp_port,
            final(self).protocol == old(self).protocol,
            final(self).software_ip == old(self).software_ip,
            final(self).last_hello == old(self).last_hello,
            old(self).scores_in_step() ==> final(self).scores_in_step(),
    {
        let out = self.note_change(info);
        self.update_online(info, now);
        out
    }
}

impl VirtuosoModule for CyranoServer {
    fn get_module_type(&self) -> (m: Modules)
        ensures
            m == Modules::CyranoServer,
    {
        Modules::CyranoServer
    }
}


/// A fencer's record in version 1.1 is the 1.0 record followed by the
/// P-card and a bar.
pub proof fn law_1_1_extends_1_0(f: &FencerInfo)
    ensures
        bar_list(f.items_1_1()) == bar_list(f.items_1_0()) + decimal(f.p_card as nat) + seq!['|'],
{
    assert(f.items_1_1().drop_last() =~= f.items_1_0());
}

/// Once the server has taken note of a state of the bout, that state no
/// longer counts as a change: the next poll with it sends nothing.
pub proof fn law_noted_state_is_unchanged(prev: MatchInfo, info: MatchInfo)
    ensures
        same_tracked(take_tracked(prev, info), info),
        same_tracked(info, info),
{
}

/// The software counts as online while its last `HELLO` is at most 15
/// seconds old, and as offline after that.
pub proof fn law_online_window(t: u64, now: u64, online: bool)
    ensures
        spec_online_status(Some(t), online, now) <==> elapsed_secs(now, t) <= 15,
        now >= t && now - t < 16_000_000_000 ==> spec_online_status(Some(t), online, now),
        now >= t && now - t >= 16_000_000_000 ==> !spec_online_status(Some(t), online, now),
{
}

/// A request naming `EFP1.1` selects version 1.1, whose name is `EFP1.1`;
/// a request naming `EFP1` selects version 1.0.
pub proof fn law_protocol_tags()
    ensures
        protocol_of(efp1_1_tag()) == Protocol::CYRANO1_1,
        efp1_1_tag() == Protocol::CYRANO1_1.name().map_values(|c: char| c as u8),
        protocol_of(efp1_0_tag()) == Protocol::CYRANO1_0,
{
    reveal_strlit("EFP1.1");
    assert(efp1_0_tag() != efp1_1_tag()) by {
        assert(efp1_0_tag().len() != efp1_1_tag().len());
    }
    assert(efp1_1_tag() =~= Protocol::CYRANO1_1.name().map_values(|c: char| c as u8));
}


/// A difference in any one of the fields that the scoring software or the
/// display is told of counts as a change of the bout.
pub proof fn law_every_tracked_field_counts(a: MatchInfo, b: MatchInfo)
    ensures
        a.weapon != b.weapon ==> !same_tracked(a, b),
        a.left_score != b.left_score ==> !same_tracked(a, b),
        a.right_score != b.right_score ==> !same_tracked(a, b),
        a.timer != b.timer ==> !same_tracked(a, b),
        a.period != b.period ==> !same_tracked(a, b),
        a.priority != b.priority ==> !same_tracked(a, b),
        a.passive_indicator != b.passive_indicator ==> !same_tracked(a, b),
        a.passive_counter != b.passive_counter ==> !same_tracked(a, b),
        a.auto_score_on != b.auto_score_on ==> !same_tracked(a, b),
        a.auto_timer_on != b.auto_timer_on ==> !same_tracked(a, b),
        a.left_red_led_on != b.left_red_led_on ==> !same_tracked(a, b),
        a.left_white_led_on != b.left_white_led_on ==> !same_tracked(a, b),
        a.right_green_led_on != b.right_green_led_on ==> !same_tracked(a, b),
        a.right_white_led_on != b.right_white_led_on ==> !same_tracked(a, b),
        a.left_caution != b.left_caution ==> !same_tracked(a, b),
        a.left_penalty != b.left_penalty ==> !same_tracked(a, b),
        a.right_caution != b.right_caution ==> !same_tracked(a, b),
        a.right_penalty != b.right_penalty ==> !same_tracked(a, b),
        a.left_pcard_bot != b.left_pcard_bot ==> !same_tracked(a, b),
        a.left_pcard_top != b.left_pcard_top ==> !same_tracked(a, b),
        a.right_pcard_bot != b.right_pcard_bot ==> !same_tracked(a, b),
        a.right_pcard_top != b.right_pcard_top ==> !same_tracked(a, b),
{
}

/// Two states that count as the same give the same `INFO` message and the
/// same display (but for the online mark, which is not the bout's), so a
/// poll that notices no change has nothing new to tell.
pub proof fn law_unnoticed_changes_are_invisible(
    p: Protocol,
    a: MatchInfo,
    b: MatchInfo,
    right: &FencerInfo,
    left: &FencerInfo,
)
    requires
        same_tracked(a, b),
    ensures
        info_message(p, a, right, left) == info_message(p, b, right, left),
        display_of(a) == display_of(MatchInfo { cyrano_online: a.cyrano_online, ..b }),
{
}

/// When the clock (or any tracked field) differs from the noted state, the
/// poll takes note of the new state: a change is never lost.
pub proof fn law_change_is_noted(prev: MatchInfo, info: MatchInfo)
    ensures
        !same_tracked(prev, info) ==> take_tracked(prev, info).timer == info.timer
            && take_tracked(prev, info).left_score == info.left_score
            && take_tracked(prev, info).right_score == info.right_score
            && take_tracked(prev, info).period == info.period
            && take_tracked(prev, info).priority == info.priority
            && take_tracked(prev, info).weapon == info.weapon,
        prev.timer != info.timer ==> !same_tracked(prev, info),
{
}

} // verus!
