use vm6502::prelude::make_status;
use vm6502::prelude::status;
use vm6502::prelude::Status::Break;
use vm6502::prelude::Status::Carry;
use vm6502::prelude::Status::Decimal;
use vm6502::prelude::Status::Interrupt;
use vm6502::prelude::Status::Negative;
use vm6502::prelude::Status::Overflow;
use vm6502::prelude::Status::Unused;
use vm6502::prelude::Status::Zero;

#[test]
fn macros_test_test_status_macros() {
    assert_eq!(status(Negative), 0b10000000);
    assert_eq!(status(Overflow), 0b01000000);
    assert_eq!(status(Unused), 0);
    assert_eq!(status(Break), 0b00010000);
    assert_eq!(status(Decimal), 0b00001000);
    assert_eq!(status(Interrupt), 0b00000100);
    assert_eq!(status(Zero), 0b00000010);
    assert_eq!(status(Carry), 0b00000001);
}

#[test]
fn macros_test_test_make_status() {
    let mut status = make_status(&[Negative, Overflow, Break, Decimal, Interrupt, Zero, Carry]);
    assert_eq!(status, 0b11011111);

    status = make_status(&[Negative, Overflow, Break, Decimal, Interrupt, Zero]);
    assert_eq!(status, 0b11011110);

    status = make_status(&[Negative, Overflow, Break, Decimal, Interrupt]);
    assert_eq!(status, 0b11011100);

    status = make_status(&[Negative, Overflow, Break, Decimal]);
    assert_eq!(status, 0b11011000);

    status = make_status(&[Negative, Overflow, Break]);
    assert_eq!(status, 0b11010000);

    status = make_status(&[Negative, Overflow]);
    assert_eq!(status, 0b11000000);

    status = make_status(&[Negative]);
    assert_eq!(status, 0b10000000);

    status = make_status(&[]);
    assert_eq!(status, 0b00000000);
}
