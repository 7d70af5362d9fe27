//! Decoding of the RC5 infrared remote from the edges of its receiver pin.
//! A frame is 14 bits sent as 28 half-bit levels (Manchester code) at
//! 889 microseconds per half bit.
use vstd::prelude::*;

verus! {

/// A gap longer than this (in nanoseconds), five half bits of 889 µs
/// halved, starts a new frame.
pub open spec fn frame_gap_ns() -> int {
    2_222_500int
}

/// A gap longer than this (three half bits halved), and no longer than a
/// frame gap, spans two half bits.
pub open spec fn double_gap_ns() -> int {
    1_333_500int
}

/// A gap longer than this (one half bit halved), and no longer than a
/// double gap, spans one half bit; a shorter gap spans none.
pub open spec fn single_gap_ns() -> int {
    444_500int
}

/// A decoded frame: whether its toggle bit differs from the last frame's
/// (a fresh press), the 5-bit device address and the 6-bit command.
#[derive(Clone, Copy, Debug, PartialEq, Eq, Structural)]
pub struct Rc5Frame {
    pub new: bool,
    pub address: u32,
    pub command: u32,
}

/// What a completed buffer of 28 half bits gives: a frame, or a buffer
/// that is not valid Manchester code and is dropped.
#[derive(Clone, Copy, Debug, PartialEq, Eq, Structural)]
pub enum Rc5Output {
    Frame(Rc5Frame),
    BadBuffer,
}

/// The number that a sequence of bits writes, most significant first.
pub open spec fn bits_value(s: Seq<i32>) -> int
    decreases s.len(),
{
    if s.len() == 0 {
        0
    } else {
        bits_value(s.drop_last()) * 2 + s.last()
    }
}

/// Every pair of half bits holds one high and one low level.
pub open spec fn manchester_ok(buf: Seq<i32>) -> bool {
    forall|i: int| 0 <= i < 14 ==> #[trigger] buf[2 * i] + buf[2 * i + 1] == 1
}

/// The bits of a frame: the first half of each pair.
pub open spec fn frame_bits(buf: Seq<i32>) -> Seq<i32> {
    Seq::new(14, |j: int| buf[2 * j])
}

/// The frame that 28 half bits carry: bit 2 toggles, bits 3 to 7 are the
/// address and bits 8 to 13 the command.
pub open spec fn decode_frame(buf: Seq<i32>, last_toggle: i32) -> Rc5Frame {
    let bits = frame_bits(buf);
    Rc5Frame {
        new: bits[2] != last_toggle,
        address: bits_value(bits.subrange(3, 8)) as u32,
        command: bits_value(bits.subrange(8, 14)) as u32,
    }
}

/// One half bit of level `val` is received: it is stored; the 27th half
/// bit brings the 28th, its complement, with it; a full buffer is decoded
/// when it is valid Manchester code and reported as bad and dropped when
/// it is not.
pub open spec fn push_half(buf: Seq<i32>, index: int, last_toggle: i32, val: i32) -> (Seq<i32>, int, i32, Option<Rc5Output>) {
    let b1 = buf.update(index, val);
    let i1 = index + 1;
    let b2 = if i1 == 27 { b1.update(27, (1 - val) as i32) } else { b1 };
    let i2 = if i1 == 27 { 28 } else { i1 };
    if i2 == 28 {
        if manchester_ok(b2) {
            (b2, 0, frame_bits(b2)[2], Some(Rc5Output::Frame(decode_frame(b2, last_toggle))))
        } else {
            (b2, 0, last_toggle, Some(Rc5Output::BadBuffer))
        }
    } else {
        (b2, i2, last_toggle, None)
    }
}

/// The number of half bits that a gap of `dt` nanoseconds spans, when it
/// does not start a new frame.
pub open spec fn half_bits_in_gap(dt: int) -> int {
    if dt > double_gap_ns() {
        2
    } else if dt > single_gap_ns() {
        1
    } else {
        0
    }
}

/// The state of the decoder between two edges.
pub struct Rc5Decoder {
    pub last_interrupt_time: u64,
    pub buf: [i32; 28],
    pub index: usize,
    pub last_toggle_value: i32,
}

/// Whether every level in `buf` is 0 or 1.
pub open spec fn levels(buf: Seq<i32>) -> bool {
    forall|k: int| 0 <= k < buf.len() ==> #[trigger] buf[k] == 0 || buf[k] == 1
}

/// Two to the power `n`.
pub open spec fn two_to(n: nat) -> int
    decreases n,
{
    if n == 0 {
        1
    } else {
        2 * two_to((n - 1) as nat)
    }
}

proof fn lemma_two_to_small(n: nat)
    requires
        n <= 6,
    ensures
        1 <= two_to(n) <= 64,
{
    reveal_with_fuel(two_to, 7);
    if n == 0 {} else if n == 1 {} else if n == 2 {} else if n == 3 {} else if n == 4 {} else if n == 5 {} else {}
}

impl Rc5Decoder {
    /// The decoder's state is one it can be in: the next slot is inside the
    /// buffer and every stored level is 0 or 1.
    pub open spec fn wf(&self) -> bool {
        &&& self.index < 28
        &&& levels(self.buf@)
    }

    pub fn new() -> (d: Self)
        ensures
            d.wf(),
            d.index == 0,
            d.last_interrupt_time == 0,
            d.last_toggle_value == -1,
            d.buf@ == Seq::new(28, |k: int| 0i32),
    {
        let d = Rc5Decoder { last_interrupt_time: 0, buf: [0i32; 28], index: 0, last_toggle_value: -1 };
        assert(d.buf@ =~= Seq::new(28, |k: int| 0i32));
        d
    }

    fn bits_of(&self, from: usize, to: usize) -> (v: u32)
        requires
            self.wf(),
            3 <= from <= to <= 14,
            to - from <= 6,
        ensures
            v == bits_value(frame_bits(self.buf@).subrange(from as int, to as int)),
    {
        let ghost bits = frame_bits(self.buf@);
        let mut v: i32 = 0;
        let mut i = from;
        assert(bits.subrange(from as int, from as int) =~= Seq::<i32>::empty());
        while i < to
            invariant
                from <= i <= to <= 14,
                to - from <= 6,
                self.wf(),
                bits == frame_bits(self.buf@),
                v == bits_value(bits.subrange(from as int, i as int)),
                0 <= v < two_to((i - from) as nat),
            decreases to - i,
        {
            let ghost sub = bits.subrange(from as int, i + 1);
            assert(sub.drop_last() =~= bits.subrange(from as int, i as int));
            assert(sub.last() == self.buf@[2 * i]);
            let b = self.buf[2 * i];
            assert(b == 0 || b == 1);
            proof {
                lemma_two_to_small((i + 1 - from) as nat);
                assert(two_to((i + 1 - from) as nat) == 2 * two_to((i - from) as nat));
            }
            v = v * 2 + b;
            i += 1;
        }
        v as u32
    }

    fn pairs_ok(&self) -> (ok: bool)
        requires
            self.wf(),
        ensures
            ok == manchester_ok(self.buf@),
    {
        let mut i: usize = 0;
        while i < 14
            invariant
                i <= 14,
                self.wf(),
                forall|j: int| 0 <= j < i ==> #[trigger] self.buf@[2 * j] + self.buf@[2 * j + 1] == 1,
            decreases 14 - i,
        {
            assert(levels(self.buf@));
            let a = self.buf[2 * i];
            let b = self.buf[2 * i + 1];
            assert(a == 0 || a == 1);
            assert(b == 0 || b == 1);
            if a + b != 1 {
                return false;
            }
            i += 1;
        }
        true
    }

    /// Stores one half bit of level `val`, as the spec function
    /// `push_half` describes.
    pub fn push_half(&mut self, val: i32) -> (f: Option<Rc5Output>)
        requires
            old(self).wf(),
            val == 0 || val == 1,
        ensures
            (final(self).buf@, final(self).index as int, final(self).last_toggle_value, f)
                == push_half(old(self).buf@, old(self).index as int, old(self).last_toggle_value, val),
            final(self).wf(),
            final(self).last_interrupt_time == old(self).last_interrupt_time,
    {
        let ghost b1 = old(self).buf@.update(old(self).index as int, val);
        self.buf[self.index] = val;
        self.index = self.index + 1;
        assert(self.buf@ == b1);
        if self.index == 27 {
            self.buf[27] = 1 - val;
            self.index = 28;
        }
        assert(levels(self.buf@)) by {
            assert forall|k: int| 0 <= k < self.buf@.len() implies #[trigger] self.buf@[k] == 0
                || self.buf@[k] == 1 by {
                if k != old(self).index && k != 27 {
                    assert(self.buf@[k] == old(self).buf@[k]);
                }
            }
        }
        if self.index == 28 {
            self.index = 0;
            if !self.pairs_ok() {
                return Some(Rc5Output::BadBuffer);
            }
            let toggle = self.buf[4];
            let address = self.bits_of(3, 8);
            let command = self.bits_of(8, 14);
            let new = toggle != self.last_toggle_value;
            assert(toggle == frame_bits(self.buf@)[2]);
            self.last_toggle_value = toggle;
            return Some(Rc5Output::Frame(Rc5Frame { new, address, command }));
        }
        None
    }

    /// Takes one edge of the receiver pin, rising or falling, at
    /// `timestamp` nanoseconds; returns the frame that it completes, or the
    /// report of a completed buffer that is not valid Manchester code.
    pub fn on_edge(&mut self, rising: bool, timestamp: u64) -> (f: Option<Rc5Output>)
        requires
            old(self).wf(),
            timestamp >= old(self).last_interrupt_time,
        ensures
            (final(self).buf@, final(self).index as int, final(self).last_toggle_value, f)
                == rc5_edge(
                old(self).buf@,
                old(self).index as int,
                old(self).last_toggle_value,
                old(self).last_interrupt_time,
                rising,
                timestamp,
            ),
            final(self).last_interrupt_time == timestamp,
            final(self).wf(),
    {
        let val: i32 = if rising { 0 } else { 1 };
        let dt = timestamp - self.last_interrupt_time;
        let mut out: Option<Rc5Output> = None;
        if dt > 2_222_500 {
            self.buf[0] = val;
            self.index = 1;
            assert(levels(self.buf@)) by {
                assert forall|k: int| 0 <= k < self.buf@.len() implies #[trigger] self.buf@[k] == 0
                    || self.buf@[k] == 1 by {
                    if k != 0 {
                        assert(self.buf@[k] == old(self).buf@[k]);
                    }
                }
            }
        } else {
            let count: usize = if dt > 1_333_500 { 2 } else if dt > 444_500 { 1 } else { 0 };
            if count >= 1 {
                out = self.push_half(val);
                let decoded = match out {
                    Some(Rc5Output::Frame(_)) => true,
                    _ => false,
                };
                if count == 2 && !decoded {
                    let second = self.push_half(val);
                    if second.is_some() {
                        out = second;
                    }
                }
            }
        }
        self.last_interrupt_time = timestamp;
        out
    }
}

/// What one edge does to the decoder: a long gap starts a new frame with
/// this level as its first half bit; a shorter gap stores this level once
/// or twice, by its length, and stops after a decoded frame. The edge
/// reports what the last completed buffer gave.
pub open spec fn rc5_edge(
    buf: Seq<i32>,
    index: int,
    last_toggle: i32,
    last_time: u64,
    rising: bool,
    timestamp: u64,
) -> (Seq<i32>, int, i32, Option<Rc5Output>) {
    let val: i32 = if rising { 0 } else { 1 };
    let dt = timestamp - last_time;
    if dt > frame_gap_ns() {
        (buf.update(0, val), 1, last_toggle, None)
    } else {
        let n = half_bits_in_gap(dt);
        if n == 0 {
            (buf, index, last_toggle, None)
        } else {
            let first = push_half(buf, index, last_toggle, val);
            if n == 1 || first.3 matches Some(Rc5Output::Frame(_)) {
                first
            } else {
                let second = push_half(first.0, first.1, first.2, val);
                (second.0, second.1, second.2, if second.3 is Some { second.3 } else { first.3 })
            }
        }
    }
}


proof fn lemma_bits_value_bound(s: Seq<i32>)
    requires
        levels(s),
    ensures
        0 <= bits_value(s) < two_to(s.len()),
    decreases s.len(),
{
    if s.len() > 0 {
        let t = s.drop_last();
        assert(levels(t)) by {
            assert forall|k: int| 0 <= k < t.len() implies #[trigger] t[k] == 0 || t[k] == 1 by {
                assert(t[k] == s[k]);
            }
        }
        lemma_bits_value_bound(t);
        assert(s[s.len() - 1] == 0 || s[s.len() - 1] == 1);
    }
}

/// A decoded frame always has a 5-bit address and a 6-bit command, and
/// only Manchester-valid half bits are decoded.
pub proof fn law_frame_ranges(buf: Seq<i32>, index: int, last_toggle: i32, val: i32)
    requires
        buf.len() == 28,
        0 <= index < 28,
        levels(buf),
        val == 0 || val == 1,
    ensures
        push_half(buf, index, last_toggle, val).3 matches Some(Rc5Output::Frame(f)) ==> f.address < 32
            && f.command < 64 && manchester_ok(push_half(buf, index, last_toggle, val).0),
        push_half(buf, index, last_toggle, val).3 == Some(Rc5Output::BadBuffer) ==> !manchester_ok(
            push_half(buf, index, last_toggle, val).0,
        ),
{
    let b1 = buf.update(index, val);
    let b2 = if index + 1 == 27 { b1.update(27, (1 - val) as i32) } else { b1 };
    assert(levels(b2)) by {
        assert forall|k: int| 0 <= k < b2.len() implies #[trigger] b2[k] == 0 || b2[k] == 1 by {
            if k != index && k != 27 {
                assert(b2[k] == buf[k]);
            }
        }
    }
    let bits = frame_bits(b2);
    assert(levels(bits)) by {
        assert forall|k: int| 0 <= k < bits.len() implies #[trigger] bits[k] == 0 || bits[k] == 1 by {
            assert(bits[k] == b2[2 * k]);
        }
    }
    let a = bits.subrange(3, 8);
    let c = bits.subrange(8, 14);
    assert(levels(a)) by {
        assert forall|k: int| 0 <= k < a.len() implies #[trigger] a[k] == 0 || a[k] == 1 by {
            assert(a[k] == bits[k + 3]);
        }
    }
    assert(levels(c)) by {
        assert forall|k: int| 0 <= k < c.len() implies #[trigger] c[k] == 0 || c[k] == 1 by {
            assert(c[k] == bits[k + 8]);
        }
    }
    lemma_bits_value_bound(a);
    lemma_bits_value_bound(c);
    reveal_with_fuel(two_to, 7);
}

/// A dropped buffer starts a new one, so the half bit that follows it in
/// the same edge completes nothing: an edge gives at most one report.
pub proof fn law_one_report_per_edge(buf: Seq<i32>, index: int, last_toggle: i32, val: i32)
    requires
        push_half(buf, index, last_toggle, val).3 == Some(Rc5Output::BadBuffer),
    ensures
        ({
            let first = push_half(buf, index, last_toggle, val);
            push_half(first.0, first.1, first.2, val).3.is_none()
        }),
{
}

} // verus!
