//! The console: a line language to read and write the state of the bout,
//! `set <field> <value>` and `get <field>`.
use vstd::prelude::*;
use crate::chars::{
    ascii_lower, chars_of, is_ws, lemma_decimal_plain, lemma_lower_noop, lemma_parse_decimal,
    lemma_split_three, lemma_split_two, lemma_trim_noop, no_ws, parse_u32, spec_parse_u32,
    split_whitespace, split_ws, to_ascii_lower, trim, trim_chars,
};
use crate::match_info::MatchInfo;
use crate::slint_frontend::display_of;
use crate::cyrano_server::same_tracked;
use crate::modules::{Modules, VirtuosoModule};
use crate::text::{decimal, decimal_string};

verus! {

/// A field of the bout that the console reads or writes.
#[derive(Clone, Copy, Debug, PartialEq, Eq, Structural)]
pub enum Field {
    LeftScore,
    RightScore,
    Time,
    Period,
    LeftWhiteLed,
    LeftColorLed,
    RightWhiteLed,
    RightColorLed,
    Unknown,
}

impl Field {
    /// The name of the field for people.
    pub open spec fn display_name(self) -> Seq<char> {
        match self {
            Field::LeftScore => "Left Score"@,
            Field::RightScore => "Right Score"@,
            Field::Time => "Time"@,
            Field::Period => "Period"@,
            Field::LeftWhiteLed => "Left White Led"@,
            Field::LeftColorLed => "Left Color Led"@,
            Field::RightWhiteLed => "Right White Led"@,
            Field::RightColorLed => "Right Color Led"@,
            Field::Unknown => "Unknown"@,
        }
    }

    /// The word that names the field in a command; none for `Unknown`.
    pub open spec fn keyword(self) -> Seq<char> {
        match self {
            Field::LeftScore => "leftscore"@,
            Field::RightScore => "rightscore"@,
            Field::Time => "time"@,
            Field::Period => "period"@,
            Field::LeftWhiteLed => "leftwhiteled"@,
            Field::LeftColorLed => "leftcolorled"@,
            Field::RightWhiteLed => "rightwhiteled"@,
            Field::RightColorLed => "rightcolorled"@,
            Field::Unknown => Seq::empty(),
        }
    }

    /// The name of the field for people.
    pub fn to_string(&self) -> (s: String)
        ensures
            s@ == self.display_name(),
    {
        match self {
            Field::LeftScore => String::from_str("Left Score"),
            Field::RightScore => String::from_str("Right Score"),
            Field::Time => String::from_str("Time"),
            Field::Period => String::from_str("Period"),
            Field::LeftWhiteLed => String::from_str("Left White Led"),
            Field::LeftColorLed => String::from_str("Left Color Led"),
            Field::RightWhiteLed => String::from_str("Right White Led"),
            Field::RightColorLed => String::from_str("Right Color Led"),
            Field::Unknown => String::from_str("Unknown"),
        }
    }
}

/// A console command.
#[derive(Clone, Copy, Debug, PartialEq, Eq, Structural)]
pub enum Command {
    SetValue(Field, u32),
    Get(Field),
    Unknown,
}

/// The field that a word names: `Unknown` for any other word.
pub open spec fn spec_parse_field(w: Seq<char>) -> Field {
    if w == "leftscore"@ {
        Field::LeftScore
    } else if w == "rightscore"@ {
        Field::RightScore
    } else if w == "time"@ {
        Field::Time
    } else if w == "period"@ {
        Field::Period
    } else if w == "leftwhiteled"@ {
        Field::LeftWhiteLed
    } else if w == "leftcolorled"@ {
        Field::LeftColorLed
    } else if w == "rightwhiteled"@ {
        Field::RightWhiteLed
    } else if w == "rightcolorled"@ {
        Field::RightColorLed
    } else {
        Field::Unknown
    }
}

/// The command that a list of words gives: `set <field> <number>` or
/// `get <field>` with a known field, and `Unknown` for anything else.
pub open spec fn command_of_words(w: Seq<Seq<char>>) -> Command {
    if w.len() == 3 && w[0] == "set"@ {
        let f = spec_parse_field(w[1]);
        if f == Field::Unknown {
            Command::Unknown
        } else {
            match spec_parse_u32(w[2]) {
                Some(v) => Command::SetValue(f, v),
                None => Command::Unknown,
            }
        }
    } else if w.len() == 2 && w[0] == "get"@ {
        let f = spec_parse_field(w[1]);
        if f == Field::Unknown {
            Command::Unknown
        } else {
            Command::Get(f)
        }
    } else {
        Command::Unknown
    }
}

/// The command that a line of input gives: its words, after trimming.
pub open spec fn spec_parse_command(input: Seq<char>) -> Command {
    command_of_words(split_ws(trim(input)))
}

/// Whether the characters of `w` are those of `k`.
fn word_is(w: &Vec<char>, k: &str) -> (b: bool)
    ensures
        b == (w@ == k@),
{
    let n = k.unicode_len();
    if w.len() != n {
        return false;
    }
    let mut i: usize = 0;
    while i < n
        invariant
            n == k@.len(),
            n == w@.len(),
            i <= n,
            forall|j: int| 0 <= j < i ==> w@[j] == k@[j],
        decreases n - i,
    {
        if w[i] != k.get_char(i) {
            return false;
        }
        i += 1;
    }
    assert(w@ =~= k@);
    true
}

fn field_of_word(w: &Vec<char>) -> (f: Field)
    ensures
        f == spec_parse_field(w@),
{
    if word_is(w, "leftscore") {
        Field::LeftScore
    } else if word_is(w, "rightscore") {
        Field::RightScore
    } else if word_is(w, "time") {
        Field::Time
    } else if word_is(w, "period") {
        Field::Period
    } else if word_is(w, "leftwhiteled") {
        Field::LeftWhiteLed
    } else if word_is(w, "leftcolorled") {
        Field::LeftColorLed
    } else if word_is(w, "rightwhiteled") {
        Field::RightWhiteLed
    } else if word_is(w, "rightcolorled") {
        Field::RightColorLed
    } else {
        Field::Unknown
    }
}

/// The field that `input` names.
pub fn parse_field(input: &str) -> (f: Field)
    ensures
        f == spec_parse_field(input@),
{
    let w = chars_of(input);
    field_of_word(&w)
}

fn command_of(input: &Vec<char>) -> (c: Command)
    ensures
        c == spec_parse_command(input@),
{
    let t = trim_chars(input);
    let words = split_whitespace(&t);
    let ghost ws = words.deep_view();
    let n = words.len();
    if n == 3 && word_is(&words[0], "set") {
        assert(words[0]@ =~= ws[0]);
        assert(words[1]@ =~= ws[1]);
        assert(words[2]@ =~= ws[2]);
        let f = field_of_word(&words[1]);
        if f == Field::Unknown {
            Command::Unknown
        } else {
            match parse_u32(&words[2]) {
                Some(v) => Command::SetValue(f, v),
                None => Command::Unknown,
            }
        }
    } else if n == 2 && word_is(&words[0], "get") {
        assert(words[0]@ =~= ws[0]);
        assert(words[1]@ =~= ws[1]);
        let f = field_of_word(&words[1]);
        if f == Field::Unknown {
            Command::Unknown
        } else {
            Command::Get(f)
        }
    } else {
        proof {
            if n == 3 {
                assert(words[0]@ =~= ws[0]);
            }
            if n == 2 {
                assert(words[0]@ =~= ws[0]);
            }
        }
        Command::Unknown
    }
}

/// The command that a line of input gives.
pub fn parse_command(input: &str) -> (c: Command)
    ensures
        c == spec_parse_command(input@),
{
    let v = chars_of(input);
    command_of(&v)
}


/// What the console prints after a command.
#[derive(Clone, Copy, Debug, PartialEq, Eq, Structural)]
pub enum ConsoleReply {
    /// A number field's value.
    Value(u32),
    /// Whether a light is on.
    Flag(bool),
    UnknownField,
    UnknownCommand,
}

impl ConsoleReply {
    /// The line that the console prints.
    pub open spec fn text(self) -> Seq<char> {
        match self {
            ConsoleReply::Value(v) => decimal(v as nat),
            ConsoleReply::Flag(b) => if b { "true"@ } else { "false"@ },
            ConsoleReply::UnknownField => "Unknown field"@,
            ConsoleReply::UnknownCommand => "Unknown command or invalid format"@,
        }
    }

    /// The line that the console prints.
    pub fn to_string(&self) -> (s: String)
        ensures
            s@ == self.text(),
    {
        match self {
            ConsoleReply::Value(v) => decimal_string(*v as u64),
            ConsoleReply::Flag(b) => if *b { String::from_str("true") } else { String::from_str("false") },
            ConsoleReply::UnknownField => String::from_str("Unknown field"),
            ConsoleReply::UnknownCommand => String::from_str("Unknown command or invalid format"),
        }
    }
}

/// The value of a field, as `get` reports it.
pub open spec fn reply_for(info: MatchInfo, f: Field) -> ConsoleReply {
    match f {
        Field::LeftScore => ConsoleReply::Value(info.left_score),
        Field::RightScore => ConsoleReply::Value(info.right_score),
        Field::Time => ConsoleReply::Value(info.timer),
        Field::Period => ConsoleReply::Value(info.period),
        Field::LeftColorLed => ConsoleReply::Flag(info.left_red_led_on),
        Field::LeftWhiteLed => ConsoleReply::Flag(info.left_white_led_on),
        Field::RightColorLed => ConsoleReply::Flag(info.right_green_led_on),
        Field::RightWhiteLed => ConsoleReply::Flag(info.right_white_led_on),
        Field::Unknown => ConsoleReply::UnknownField,
    }
}

/// The state of the bout after `set f v`: a number field takes `v`, a
/// light is on when `v` is positive, every other field stays.
pub open spec fn set_field(info: MatchInfo, f: Field, v: u32) -> MatchInfo {
    match f {
        Field::LeftScore => MatchInfo { left_score: v, ..info },
        Field::RightScore => MatchInfo { right_score: v, ..info },
        Field::Time => MatchInfo { timer: v, ..info },
        Field::Period => MatchInfo { period: v, ..info },
        Field::LeftColorLed => MatchInfo { left_red_led_on: v > 0, ..info },
        Field::LeftWhiteLed => MatchInfo { left_white_led_on: v > 0, ..info },
        Field::RightColorLed => MatchInfo { right_green_led_on: v > 0, ..info },
        Field::RightWhiteLed => MatchInfo { right_white_led_on: v > 0, ..info },
        Field::Unknown => info,
    }
}

/// What a command does to the bout, and what the console prints.
pub open spec fn apply_command(info: MatchInfo, c: Command) -> (MatchInfo, Option<ConsoleReply>) {
    match c {
        Command::SetValue(f, v) => (
            set_field(info, f, v),
            if f == Field::Unknown { Some(ConsoleReply::UnknownField) } else { None },
        ),
        Command::Get(f) => (info, Some(reply_for(info, f))),
        Command::Unknown => (info, Some(ConsoleReply::UnknownCommand)),
    }
}

/// What a line typed at the console does: it is trimmed and put in lower
/// case; an empty line does nothing, any other is read as a command.
pub open spec fn console_step(info: MatchInfo, line: Seq<char>) -> (MatchInfo, Option<ConsoleReply>) {
    let input = ascii_lower(trim(line));
    if input.len() == 0 {
        (info, None)
    } else {
        apply_command(info, spec_parse_command(input))
    }
}

fn set_field_exec(info: &mut MatchInfo, f: Field, v: u32)
    ensures
        *final(info) == set_field(*old(info), f, v),
{
    let i = *info;
    *info = match f {
        Field::LeftScore => MatchInfo { left_score: v, ..i },
        Field::RightScore => MatchInfo { right_score: v, ..i },
        Field::Time => MatchInfo { timer: v, ..i },
        Field::Period => MatchInfo { period: v, ..i },
        Field::LeftColorLed => MatchInfo { left_red_led_on: v > 0, ..i },
        Field::LeftWhiteLed => MatchInfo { left_white_led_on: v > 0, ..i },
        Field::RightColorLed => MatchInfo { right_green_led_on: v > 0, ..i },
        Field::RightWhiteLed => MatchInfo { right_white_led_on: v > 0, ..i },
        Field::Unknown => i,
    };
}

fn get_field(info: &MatchInfo, f: Field) -> (r: ConsoleReply)
    ensures
        r == reply_for(*info, f),
{
    match f {
        Field::LeftScore => ConsoleReply::Value(info.left_score),
        Field::RightScore => ConsoleReply::Value(info.right_score),
        Field::Time => ConsoleReply::Value(info.timer),
        Field::Period => ConsoleReply::Value(info.period),
        Field::LeftColorLed => ConsoleReply::Flag(info.left_red_led_on),
        Field::LeftWhiteLed => ConsoleReply::Flag(info.left_white_led_on),
        Field::RightColorLed => ConsoleReply::Flag(info.right_green_led_on),
        Field::RightWhiteLed => ConsoleReply::Flag(info.right_white_led_on),
        Field::Unknown => ConsoleReply::UnknownField,
    }
}

/// Carries out a command on the bout.
pub fn execute_command(info: &mut MatchInfo, c: Command) -> (r: Option<ConsoleReply>)
    ensures
        (*final(info), r) == apply_command(*old(info), c),
{
    match c {
        Command::SetValue(f, v) => {
            set_field_exec(info, f, v);
            if f == Field::Unknown { Some(ConsoleReply::UnknownField) } else { None }
        },
        Command::Get(f) => Some(get_field(info, f)),
        Command::Unknown => Some(ConsoleReply::UnknownCommand),
    }
}

/// The console module: it reads lines and carries them out on the bout.
pub struct ConsoleBackend {}

impl ConsoleBackend {
    pub fn new() -> (c: Self) {
        ConsoleBackend {}
    }

    /// Carries out one line typed at the console; the result is what the
    /// console prints, if anything.
    pub fn handle_line(&self, info: &mut MatchInfo, line: &str) -> (r: Option<ConsoleReply>)
        ensures
            (*final(info), r) == console_step(*old(info), line@),
    {
        let v = chars_of(line);
        let t = trim_chars(&v);
        let input = to_ascii_lower(&t);
        if input.len() == 0 {
            return None;
        }
        let c = command_of(&input);
        execute_command(info, c)
    }
}

impl VirtuosoModule for ConsoleBackend {
    fn get_module_type(&self) -> (m: Modules)
        ensures
            m == Modules::ConsoleBackend,
    {
        Modules::ConsoleBackend
    }
}


/// What `get f` reports after `set f v`: the number for a number field,
/// whether `v` is positive for a light.
pub open spec fn stored_reply(f: Field, v: u32) -> ConsoleReply {
    match f {
        Field::LeftScore | Field::RightScore | Field::Time | Field::Period => ConsoleReply::Value(v),
        Field::Unknown => ConsoleReply::UnknownField,
        _ => ConsoleReply::Flag(v > 0),
    }
}

/// Reading a field after writing it gives back what was written.
pub proof fn law_get_after_set(info: MatchInfo, f: Field, v: u32)
    requires
        f != Field::Unknown,
    ensures
        reply_for(set_field(info, f, v), f) == stored_reply(f, v),
{
}

/// Writing a field leaves every other field as it was.
pub proof fn law_set_keeps_other_fields(info: MatchInfo, f: Field, g: Field, v: u32)
    requires
        g != f,
    ensures
        reply_for(set_field(info, f, v), g) == reply_for(info, g),
{
}

/// Whether no character of `s` is a capital letter.
pub open spec fn no_capitals(s: Seq<char>) -> bool {
    forall|i: int| 0 <= i < s.len() ==> !('A' <= #[trigger] s[i] && s[i] <= 'Z')
}

proof fn lemma_keyword(f: Field)
    requires
        f != Field::Unknown,
    ensures
        f.keyword().len() > 0,
        no_ws(f.keyword()),
        no_capitals(f.keyword()),
        spec_parse_field(f.keyword()) == f,
{
    reveal_strlit("leftscore");
    reveal_strlit("rightscore");
    reveal_strlit("time");
    reveal_strlit("period");
    reveal_strlit("leftwhiteled");
    reveal_strlit("leftcolorled");
    reveal_strlit("rightwhiteled");
    reveal_strlit("rightcolorled");
    assert("leftscore"@.len() == 9 && "rightscore"@.len() == 10 && "time"@.len() == 4
        && "period"@.len() == 6 && "leftwhiteled"@.len() == 12 && "leftcolorled"@.len() == 12
        && "rightwhiteled"@.len() == 13 && "rightcolorled"@.len() == 13);
    assert("leftwhiteled"@[4] != "leftcolorled"@[4]);
    assert("rightwhiteled"@[5] != "rightcolorled"@[5]);
    let k = f.keyword();
    assert forall|i: int| 0 <= i < k.len() implies !#[trigger] is_ws(k[i]) && !('A' <= k[i] && k[i] <= 'Z') by {
        assert('a' <= k[i] && k[i] <= 'z');
    }
}

proof fn lemma_verbs()
    ensures
        "set"@ == seq!['s', 'e', 't'],
        "get"@ == seq!['g', 'e', 't'],
{
    reveal_strlit("set");
    reveal_strlit("get");
}

/// The console line `set <keyword> <number>`.
pub open spec fn set_line(f: Field, v: u32) -> Seq<char> {
    "set"@ + seq![' '] + f.keyword() + seq![' '] + decimal(v as nat)
}

/// The console line `get <keyword>`.
pub open spec fn get_line(f: Field) -> Seq<char> {
    "get"@ + seq![' '] + f.keyword()
}

/// Typing `set <field> <value>` and then `get <field>` at the console
/// prints back the value written (for a light, whether it is positive);
/// the `set` line prints nothing.
pub proof fn law_console_get_after_set(info: MatchInfo, f: Field, v: u32)
    requires
        f != Field::Unknown,
    ensures
        console_step(info, set_line(f, v)).1.is_none(),
        console_step(info, set_line(f, v)).0 == set_field(info, f, v),
        console_step(console_step(info, set_line(f, v)).0, get_line(f)).1 == Some(stored_reply(f, v)),
{
    lemma_keyword(f);
    lemma_verbs();
    lemma_decimal_plain(v as nat);
    lemma_parse_decimal(v);
    let k = f.keyword();
    let d = decimal(v as nat);
    let verb_s = "set"@;
    let verb_g = "get"@;
    assert(no_ws(verb_s) && no_ws(verb_g)) by {
        assert(!is_ws('s') && !is_ws('e') && !is_ws('t') && !is_ws('g'));
    }
    // the set line
    let sl = set_line(f, v);
    lemma_split_three(verb_s, k, d);
    assert(sl[0] == 's');
    assert(sl.last() == d.last());
    lemma_trim_noop(sl);
    assert(no_capitals(sl)) by {
        assert forall|i: int| 0 <= i < sl.len() implies !('A' <= #[trigger] sl[i] && sl[i] <= 'Z') by {
            if i < 3 {
                assert(sl[i] == verb_s[i]);
            } else if i == 3 {
            } else if i < 4 + k.len() {
                assert(sl[i] == k[i - 4]);
            } else if i == 4 + k.len() {
            } else {
                assert(sl[i] == d[i - 5 - k.len()]);
                assert(crate::chars::is_digit(d[i - 5 - k.len()]));
            }
        }
    }
    lemma_lower_noop(sl);
    lemma_trim_noop(trim(sl));
    assert(spec_parse_command(ascii_lower(trim(sl))) == Command::SetValue(f, v));
    // the get line
    let gl = get_line(f);
    lemma_split_two(verb_g, k);
    assert(gl[0] == 'g');
    assert(gl.last() == k.last());
    lemma_trim_noop(gl);
    assert(no_capitals(gl)) by {
        assert forall|i: int| 0 <= i < gl.len() implies !('A' <= #[trigger] gl[i] && gl[i] <= 'Z') by {
            if i < 3 {
                assert(gl[i] == verb_g[i]);
            } else if i == 3 {
            } else {
                assert(gl[i] == k[i - 4]);
            }
        }
    }
    lemma_lower_noop(gl);
    assert(spec_parse_command(ascii_lower(trim(gl))) == Command::Get(f));
}


/// `s` with its spaces taken out.
pub open spec fn without_spaces(s: Seq<char>) -> Seq<char>
    decreases s.len(),
{
    if s.len() == 0 {
        s
    } else if s.last() == ' ' {
        without_spaces(s.drop_last())
    } else {
        without_spaces(s.drop_last()).push(s.last())
    }
}

/// The name of a field, in lower case and without spaces, is its keyword
/// (`unknown` for `Unknown`).
proof fn lemma_name_to_keyword(f: Field)
    ensures
        ascii_lower(without_spaces(f.display_name())) == (if f == Field::Unknown {
            seq!['u', 'n', 'k', 'n', 'o', 'w', 'n']
        } else {
            f.keyword()
        }),
{
    reveal_with_fuel(without_spaces, 16);
    match f {
        Field::LeftScore => {
            reveal_strlit("Left Score");
            reveal_strlit("leftscore");
            assert("Left Score"@ =~= seq!['L', 'e', 'f', 't', ' ', 'S', 'c', 'o', 'r', 'e']);
            assert(ascii_lower(without_spaces("Left Score"@)) =~= "leftscore"@);
        },
        Field::RightScore => {
            reveal_strlit("Right Score");
            reveal_strlit("rightscore");
            assert("Right Score"@ =~= seq!['R', 'i', 'g', 'h', 't', ' ', 'S', 'c', 'o', 'r', 'e']);
            assert(ascii_lower(without_spaces("Right Score"@)) =~= "rightscore"@);
        },
        Field::Time => {
            reveal_strlit("Time");
            reveal_strlit("time");
            assert("Time"@ =~= seq!['T', 'i', 'm', 'e']);
            assert(ascii_lower(without_spaces("Time"@)) =~= "time"@);
        },
        Field::Period => {
            reveal_strlit("Period");
            reveal_strlit("period");
            assert("Period"@ =~= seq!['P', 'e', 'r', 'i', 'o', 'd']);
            assert(ascii_lower(without_spaces("Period"@)) =~= "period"@);
        },
        Field::LeftWhiteLed => {
            reveal_strlit("Left White Led");
            reveal_strlit("leftwhiteled");
            assert("Left White Led"@ =~= seq!['L', 'e', 'f', 't', ' ', 'W', 'h', 'i', 't', 'e', ' ', 'L', 'e', 'd']);
            assert(ascii_lower(without_spaces("Left White Led"@)) =~= "leftwhiteled"@);
        },
        Field::LeftColorLed => {
            reveal_strlit("Left Color Led");
            reveal_strlit("leftcolorled");
            assert("Left Color Led"@ =~= seq!['L', 'e', 'f', 't', ' ', 'C', 'o', 'l', 'o', 'r', ' ', 'L', 'e', 'd']);
            assert(ascii_lower(without_spaces("Left Color Led"@)) =~= "leftcolorled"@);
        },
        Field::RightWhiteLed => {
            reveal_strlit("Right White Led");
            reveal_strlit("rightwhiteled");
            assert("Right White Led"@ =~= seq!['R', 'i', 'g', 'h', 't', ' ', 'W', 'h', 'i', 't', 'e', ' ', 'L', 'e', 'd']);
            assert(ascii_lower(without_spaces("Right White Led"@)) =~= "rightwhiteled"@);
        },
        Field::RightColorLed => {
            reveal_strlit("Right Color Led");
            reveal_strlit("rightcolorled");
            assert("Right Color Led"@ =~= seq!['R', 'i', 'g', 'h', 't', ' ', 'C', 'o', 'l', 'o', 'r', ' ', 'L', 'e', 'd']);
            assert(ascii_lower(without_spaces("Right Color Led"@)) =~= "rightcolorled"@);
        },
        Field::Unknown => {
            reveal_strlit("Unknown");
            assert("Unknown"@ =~= seq!['U', 'n', 'k', 'n', 'o', 'w', 'n']);
            assert(ascii_lower(without_spaces("Unknown"@)) =~= seq!['u', 'n', 'k', 'n', 'o', 'w', 'n']);
        },
    }
}

/// The name of a field, in lower case and without spaces, is read back as
/// that field; `Unknown` is read back as `Unknown`.
pub proof fn law_display_name_round_trip(f: Field)
    ensures
        spec_parse_field(ascii_lower(without_spaces(f.display_name()))) == f,
{
    lemma_name_to_keyword(f);
    if f != Field::Unknown {
        lemma_keyword(f);
    } else {
        reveal_strlit("leftscore");
        reveal_strlit("rightscore");
        reveal_strlit("time");
        reveal_strlit("period");
        reveal_strlit("leftwhiteled");
        reveal_strlit("leftcolorled");
        reveal_strlit("rightwhiteled");
        reveal_strlit("rightcolorled");
    }
}


/// `set` writes the field of the bout that its keyword names, and nothing
/// else: the scores, the clock, the period and the four lamps.
pub proof fn law_set_writes_named_field(info: MatchInfo, v: u32)
    ensures
        set_field(info, Field::LeftScore, v) == (MatchInfo { left_score: v, ..info }),
        set_field(info, Field::RightScore, v) == (MatchInfo { right_score: v, ..info }),
        set_field(info, Field::Time, v) == (MatchInfo { timer: v, ..info }),
        set_field(info, Field::Period, v) == (MatchInfo { period: v, ..info }),
        set_field(info, Field::LeftColorLed, v) == (MatchInfo { left_red_led_on: v > 0, ..info }),
        set_field(info, Field::LeftWhiteLed, v) == (MatchInfo { left_white_led_on: v > 0, ..info }),
        set_field(info, Field::RightColorLed, v) == (MatchInfo { right_green_led_on: v > 0, ..info }),
        set_field(info, Field::RightWhiteLed, v) == (MatchInfo { right_white_led_on: v > 0, ..info }),
        set_field(info, Field::Unknown, v) == info,
{
}

/// `get` reads the field of the bout that its keyword names.
pub proof fn law_get_reads_named_field(info: MatchInfo)
    ensures
        reply_for(info, Field::LeftScore) == ConsoleReply::Value(info.left_score),
        reply_for(info, Field::RightScore) == ConsoleReply::Value(info.right_score),
        reply_for(info, Field::Time) == ConsoleReply::Value(info.timer),
        reply_for(info, Field::Period) == ConsoleReply::Value(info.period),
        reply_for(info, Field::LeftColorLed) == ConsoleReply::Flag(info.left_red_led_on),
        reply_for(info, Field::LeftWhiteLed) == ConsoleReply::Flag(info.left_white_led_on),
        reply_for(info, Field::RightColorLed) == ConsoleReply::Flag(info.right_green_led_on),
        reply_for(info, Field::RightWhiteLed) == ConsoleReply::Flag(info.right_white_led_on),
{
}

/// What `set` writes is what the display then shows, and a `set` that
/// changes a value is a change that the scoring software is told of.
pub proof fn law_set_reaches_display_and_software(info: MatchInfo, v: u32)
    ensures
        display_of(set_field(info, Field::LeftScore, v)).left_score == v as i32,
        display_of(set_field(info, Field::RightScore, v)).right_score == v as i32,
        display_of(set_field(info, Field::Time, v)).timer == v as i32,
        display_of(set_field(info, Field::Period, v)).period == v as i32,
        display_of(set_field(info, Field::LeftColorLed, v)).left_color_led_on == (v > 0),
        display_of(set_field(info, Field::LeftWhiteLed, v)).left_white_led_on == (v > 0),
        display_of(set_field(info, Field::RightColorLed, v)).right_color_led_on == (v > 0),
        display_of(set_field(info, Field::RightWhiteLed, v)).right_white_led_on == (v > 0),
        v != info.left_score ==> !same_tracked(info, set_field(info, Field::LeftScore, v)),
        v != info.right_score ==> !same_tracked(info, set_field(info, Field::RightScore, v)),
        v != info.timer ==> !same_tracked(info, set_field(info, Field::Time, v)),
        v != info.period ==> !same_tracked(info, set_field(info, Field::Period, v)),
{
}

} // verus!
