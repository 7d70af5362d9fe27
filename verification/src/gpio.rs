//! The board's header: which GPIO chip and line each physical pin is.
use vstd::prelude::*;

verus! {

/// A GPIO line: the chip (`/dev/gpiochipN`) and the line on it.
#[derive(Clone, Copy, Debug, PartialEq, Eq, Structural)]
pub struct PinLocation {
    pub chip: u8,
    pub line: u8,
}

/// The GPIO line of a physical header pin; none for power, ground and
/// absent pins.
pub open spec fn pin_table(pin_number: u8) -> Option<(u8, u8)> {
    if pin_number == 3 { Some((0, 12)) }
    else if pin_number == 5 { Some((0, 11)) }
    else if pin_number == 7 { Some((0, 6)) }
    else if pin_number == 8 { Some((0, 13)) }
    else if pin_number == 10 { Some((0, 14)) }
    else if pin_number == 11 { Some((0, 1)) }
    else if pin_number == 12 { Some((0, 16)) }
    else if pin_number == 13 { Some((0, 0)) }
    else if pin_number == 15 { Some((0, 3)) }
    else if pin_number == 16 { Some((0, 15)) }
    else if pin_number == 18 { Some((0, 68)) }
    else if pin_number == 19 { Some((0, 64)) }
    else if pin_number == 21 { Some((0, 65)) }
    else if pin_number == 22 { Some((0, 2)) }
    else if pin_number == 23 { Some((0, 66)) }
    else if pin_number == 24 { Some((0, 67)) }
    else if pin_number == 26 { Some((0, 71)) }
    else if pin_number == 27 { Some((0, 19)) }
    else if pin_number == 28 { Some((0, 18)) }
    else if pin_number == 29 { Some((0, 7)) }
    else if pin_number == 31 { Some((0, 8)) }
    else if pin_number == 32 { Some((1, 2)) }
    else if pin_number == 33 { Some((0, 9)) }
    else if pin_number == 36 { Some((1, 4)) }
    else if pin_number == 35 { Some((0, 10)) }
    else if pin_number == 37 { Some((0, 17)) }
    else if pin_number == 38 { Some((0, 21)) }
    else if pin_number == 40 { Some((0, 20)) }
    else { None }
}

pub fn get_pin_by_phys_number(pin_number: u8) -> (p: Option<PinLocation>)
    ensures
        match pin_table(pin_number) {
            Some((chip, line)) => p == Some(PinLocation { chip, line }),
            None => p.is_none(),
        },
{
    let (chip, line): (u8, u8) = match pin_number {
        3 => (0, 12),
        5 => (0, 11),
        7 => (0, 6),
        8 => (0, 13),
        10 => (0, 14),
        11 => (0, 1),
        12 => (0, 16),
        13 => (0, 0),
        15 => (0, 3),
        16 => (0, 15),
        18 => (0, 68),
        19 => (0, 64),
        21 => (0, 65),
        22 => (0, 2),
        23 => (0, 66),
        24 => (0, 67),
        26 => (0, 71),
        27 => (0, 19),
        28 => (0, 18),
        29 => (0, 7),
        31 => (0, 8),
        32 => (1, 2),
        33 => (0, 9),
        36 => (1, 4),
        35 => (0, 10),
        37 => (0, 17),
        38 => (0, 21),
        40 => (0, 20),
        _ => {
            return None;
        },
    };
    Some(PinLocation { chip, line })
}

} // verus!
