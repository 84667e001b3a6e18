use clawtype_chords::pattern::{b2c, chord};

#[test]
fn chord_examples() {
    // one crumb per finger, pinky to index, two bits each
    assert_eq!(chord("____"), 0b00_00_00_00);
    assert_eq!(chord("^___"), 0b10_00_00_00);
    assert_eq!(chord("v___"), 0b01_00_00_00);
    assert_eq!(chord("%___"), 0b11_00_00_00);
    assert_eq!(chord("___^"), 0b00_00_00_10);
    assert_eq!(chord("___v"), 0b00_00_00_01);
    assert_eq!(chord("___%"), 0b00_00_00_11);
    assert_eq!(chord("v^_%"), 0b01_10_00_11);
    assert_eq!(chord("%%%%"), 0b11_11_11_11);
    // '.' is an accepted alternate spelling of '_'
    assert_eq!(chord(".^.."), 0b00_10_00_00);
}

#[test]
fn b2c_shifts_crumbs_into_place() {
    assert_eq!(b2c(b'^', 6), 0b10_00_00_00);
    assert_eq!(b2c(b'v', 4), 0b00_01_00_00);
    assert_eq!(b2c(b'%', 2), 0b00_00_11_00);
    assert_eq!(b2c(b'_', 0), 0);
    assert_eq!(b2c(b'.', 2), 0);
}
