use virtuoso::rc5::{Rc5Decoder, Rc5Frame, Rc5Output};

/// The edges that a receiver gives for a 14-bit frame sent at `start`:
/// each bit is two half bits of 889 µs, its value and then its complement.
fn edges(bits: [i32; 14], start: u64) -> Vec<(bool, u64)> {
    let mut levels = Vec::new();
    for b in bits {
        levels.push(b);
        levels.push(1 - b);
    }
    let mut out = Vec::new();
    for p in 1..28 {
        if levels[p] != levels[p - 1] {
            // the edge ends a run at the level before it
            out.push((levels[p - 1] == 0, start + p as u64 * 889_000));
        }
    }
    out
}

fn bits(toggle: i32, address: i32, command: i32) -> [i32; 14] {
    let mut b = [0i32; 14];
    b[0] = 1;
    b[1] = 1;
    b[2] = toggle;
    for i in 0..5 {
        b[3 + i] = (address >> (4 - i)) & 1;
    }
    for i in 0..6 {
        b[8 + i] = (command >> (5 - i)) & 1;
    }
    b
}

fn feed(d: &mut Rc5Decoder, e: &[(bool, u64)]) -> Vec<Rc5Frame> {
    let mut frames = Vec::new();
    for &(rising, t) in e {
        if let Some(Rc5Output::Frame(f)) = d.on_edge(rising, t) {
            frames.push(f);
        }
    }
    frames
}

#[test]
fn decodes_a_frame() {
    let mut d = Rc5Decoder::new();
    let frames = feed(&mut d, &edges(bits(0, 0, 13), 10_000_000));
    assert_eq!(frames, vec![Rc5Frame { new: true, address: 0, command: 13 }]);
}

#[test]
fn toggle_tells_a_new_press() {
    let mut d = Rc5Decoder::new();
    let a = feed(&mut d, &edges(bits(1, 31, 63), 10_000_000));
    assert_eq!(a, vec![Rc5Frame { new: true, address: 31, command: 63 }]);
    let b = feed(&mut d, &edges(bits(1, 31, 63), 200_000_000));
    assert_eq!(b, vec![Rc5Frame { new: false, address: 31, command: 63 }]);
    let c = feed(&mut d, &edges(bits(0, 5, 2), 400_000_000));
    assert_eq!(c, vec![Rc5Frame { new: true, address: 5, command: 2 }]);
}

#[test]
fn noise_gives_nothing() {
    let mut d = Rc5Decoder::new();
    let mut e = Vec::new();
    let mut t = 10_000_000u64;
    for k in 0..40 {
        t += 889_000 + (k % 2) * 889_000;
        e.push((true, t));
    }
    // half bits that all read low never pair up as Manchester code
    assert!(feed(&mut d, &e).is_empty());
    assert!(d.index < 28);
}

#[test]
fn bad_buffers_are_reported() {
    let mut d = Rc5Decoder::new();
    let mut t = 10_000_000u64;
    let mut outs = Vec::new();
    // a new frame, then half bits that all read low
    outs.push(d.on_edge(true, t));
    for _ in 0..26 {
        t += 889_000;
        outs.push(d.on_edge(true, t));
    }
    assert!(outs[..26].iter().all(|o| o.is_none()));
    assert_eq!(outs[26], Some(Rc5Output::BadBuffer));
    assert_eq!(d.index, 0);
    // a valid frame still decodes afterwards
    let frames = feed(&mut d, &edges(bits(0, 3, 9), 100_000_000));
    assert_eq!(frames, vec![Rc5Frame { new: true, address: 3, command: 9 }]);
}
