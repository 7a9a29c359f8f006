//! The status register and its flags.

use crate::vm::MachineState;
use crate::vm::VirtualMachine;
use vstd::prelude::*;

verus! {

/// The flags of the status register, bit 7 first. `Break` is never part of
/// the live register: it shows only in the copy that BRK and PHP push.
#[derive(Clone, Copy, Debug, PartialEq, Eq, Structural)]
pub enum Status {
    Negative,
    Overflow,
    Unused,
    Break,
    Decimal,
    Interrupt,
    Zero,
    Carry,
}

/// The bit of the status register that holds `flag`; `Unused` has none.
pub open spec fn spec_status(flag: Status) -> u8 {
    match flag {
        Status::Negative => 0x80,
        Status::Overflow => 0x40,
        Status::Unused => 0x00,
        Status::Break => 0x10,
        Status::Decimal => 0x08,
        Status::Interrupt => 0x04,
        Status::Zero => 0x02,
        Status::Carry => 0x01,
    }
}

/// The mask of `flag` in the status register.
#[verifier::when_used_as_spec(spec_status)]
pub fn status(flag: Status) -> (mask: u8)
    ensures
        mask == spec_status(flag),
{
    match flag {
        Status::Negative => 0b1000_0000,
        Status::Overflow => 0b0100_0000,
        Status::Unused => 0,
        Status::Break => 0b0001_0000,
        Status::Decimal => 0b0000_1000,
        Status::Interrupt => 0b0000_0100,
        Status::Zero => 0b0000_0010,
        Status::Carry => 0b0000_0001,
    }
}

/// The masks of `flags[..n]` or-ed together.
pub open spec fn spec_make_status(flags: Seq<Status>, n: int) -> u8
    decreases n,
{
    if n <= 0 {
        0
    } else {
        spec_make_status(flags, n - 1) | status(flags[n - 1])
    }
}

/// A status byte with exactly the given flags set.
pub fn make_status(flags: &[Status]) -> (sr: u8)
    ensures
        sr == spec_make_status(flags@, flags@.len() as int),
{
    let mut sr: u8 = 0b0000_0000;
    let mut i: usize = 0;
    while i < flags.len()
        invariant
            i <= flags@.len(),
            sr == spec_make_status(flags@, i as int),
        decreases flags@.len() - i,
    {
        sr = sr | status(flags[i]);
        i = i + 1;
    }
    sr
}

/// `sr` with the bit of `flag` inverted.
pub open spec fn flag_flipped(sr: u8, flag: Status) -> u8 {
    sr ^ status(flag)
}

/// `sr` with the bit of `flag` made equal to `value`.
pub open spec fn flag_assigned(sr: u8, flag: Status, value: bool) -> u8 {
    if value {
        sr | status(flag)
    } else {
        sr & !status(flag)
    }
}

/// Whether the bit of `flag` is set in `sr`.
pub open spec fn flag_of(sr: u8, flag: Status) -> bool {
    sr & status(flag) != 0
}

/// `sr` with Zero and Negative describing `value`.
pub open spec fn nz_assigned(sr: u8, value: u8) -> u8 {
    flag_assigned(flag_assigned(sr, Status::Zero, value == 0), Status::Negative, value >= 0x80)
}

impl Status {
    /// The flag a small code stands for.
    pub open spec fn spec_from(value: u8) -> Status {
        if value == 64 {
            Status::Negative
        } else if value == 32 {
            Status::Overflow
        } else if value == 16 {
            Status::Unused
        } else if value == 8 {
            Status::Break
        } else if value == 4 {
            Status::Decimal
        } else if value == 2 {
            Status::Interrupt
        } else if value == 1 {
            Status::Zero
        } else {
            Status::Carry
        }
    }

    /// The flag that the code `value` stands for: 64, 32, 16, 8, 4, 2, 1 and
    /// 0 name the flags from `Negative` down to `Carry`.
    pub fn from(value: u8) -> (flag: Status)
        requires
            value == 64 || value == 32 || value == 16 || value == 8 || value == 4 || value == 2
                || value == 1 || value == 0,
        ensures
            flag == Status::spec_from(value),
    {
        match value {
            64 => Status::Negative,
            32 => Status::Overflow,
            16 => Status::Unused,
            8 => Status::Break,
            4 => Status::Decimal,
            2 => Status::Interrupt,
            1 => Status::Zero,
            _ => Status::Carry,
        }
    }

    /// The ordinal code of the flag: 0 for `Negative`, then 1, 2, 4, 8, 16,
    /// 32, and 64 for `Carry`.
    pub open spec fn spec_into(self) -> u8 {
        match self {
            Status::Negative => 0,
            Status::Overflow => 1,
            Status::Unused => 2,
            Status::Break => 4,
            Status::Decimal => 8,
            Status::Interrupt => 16,
            Status::Zero => 32,
            Status::Carry => 64,
        }
    }

    pub fn into(self) -> (code: u8)
        ensures
            code == self.spec_into(),
    {
        match self {
            Status::Negative => 0,
            Status::Overflow => 1,
            Status::Unused => 2,
            Status::Break => 4,
            Status::Decimal => 8,
            Status::Interrupt => 16,
            Status::Zero => 32,
            Status::Carry => 64,
        }
    }
}

/// Access to the status register, one flag at a time.
pub trait StatusInterface: View<V = MachineState> {
    /// Inverts `flag`.
    fn flip_status(&mut self, flag: Status)
        ensures
            final(self)@ == old(self)@.with_sr(flag_flipped(old(self)@.registers.sr, flag)),
    ;

    /// Makes `flag` equal to `value`.
    fn set_status(&mut self, flag: Status, value: bool)
        ensures
            final(self)@ == old(self)@.with_sr(flag_assigned(old(self)@.registers.sr, flag, value)),
    ;

    /// Whether `flag` is set.
    fn get_status(&self, flag: Status) -> (set: bool)
        ensures
            set == flag_of(self@.registers.sr, flag),
    ;

    /// Clears the whole register.
    fn reset_status(&mut self)
        ensures
            final(self)@ == old(self)@.with_sr(0),
    ;
}

impl StatusInterface for VirtualMachine {
    fn flip_status(&mut self, flag: Status) {
        let sr = self.registers.sr;
        self.registers.sr = sr ^ status(flag);
    }

    fn set_status(&mut self, flag: Status, value: bool) {
        let sr = self.registers.sr;
        if value {
            self.registers.sr = sr | status(flag);
        } else {
            self.registers.sr = sr & !status(flag);
        }
    }

    fn get_status(&self, flag: Status) -> (set: bool) {
        let sr = self.registers.sr;
        sr & status(flag) != 0
    }

    fn reset_status(&mut self) {
        self.registers.sr = 0x00;
    }
}

impl VirtualMachine {
    /// Sets Zero and Negative from `value`.
    pub fn set_nz(&mut self, value: u8)
        ensures
            final(self)@ == old(self)@.with_sr(nz_assigned(old(self)@.registers.sr, value)),
    {
        self.set_status(Status::Zero, value == 0);
        self.set_status(Status::Negative, value >= 0x80);
    }
}

/// Setting a flag other than `Unused` and reading it back gives what was
/// set, whatever the register held.
pub proof fn lemma_set_then_get(sr: u8, flag: Status, value: bool)
    requires
        flag != Status::Unused,
    ensures
        flag_of(flag_assigned(sr, flag, value), flag) == value,
{
    let m = status(flag);
    assert(m == 0x80 || m == 0x40 || m == 0x10 || m == 0x08 || m == 0x04 || m == 0x02 || m == 0x01);
    assert((sr | m) & m != 0 && (sr & !m) & m == 0) by (bit_vector)
        requires
            m == 0x80 || m == 0x40 || m == 0x10 || m == 0x08 || m == 0x04 || m == 0x02 || m
                == 0x01,
    ;
}

/// `Unused` has no bit: it always reads as clear and setting it changes
/// nothing.
pub proof fn lemma_unused_is_inert(sr: u8, value: bool)
    ensures
        !flag_of(sr, Status::Unused),
        flag_assigned(sr, Status::Unused, value) == sr,
        flag_flipped(sr, Status::Unused) == sr,
{
    assert(sr & 0u8 == 0 && sr | 0u8 == sr && sr & !0u8 == sr && sr ^ 0u8 == sr) by (bit_vector);
}

/// Flipping a flag twice restores the register.
pub proof fn lemma_flip_twice(sr: u8, flag: Status)
    ensures
        flag_flipped(flag_flipped(sr, flag), flag) == sr,
{
    let m = status(flag);
    assert((sr ^ m) ^ m == sr) by (bit_vector);
}

/// Flipping a flag other than `Unused` inverts what reading it gives.
pub proof fn lemma_flip_inverts(sr: u8, flag: Status)
    requires
        flag != Status::Unused,
    ensures
        flag_of(flag_flipped(sr, flag), flag) == !flag_of(sr, flag),
{
    let m = status(flag);
    assert(((sr ^ m) & m != 0) == !(sr & m != 0)) by (bit_vector)
        requires
            m == 0x80 || m == 0x40 || m == 0x10 || m == 0x08 || m == 0x04 || m == 0x02 || m
                == 0x01,
    ;
}

/// Assigning or flipping one flag leaves every other flag as it was.
pub proof fn lemma_flags_independent(sr: u8, changed: Status, value: bool, read: Status)
    requires
        changed != read,
    ensures
        flag_of(flag_assigned(sr, changed, value), read) == flag_of(sr, read),
        flag_of(flag_flipped(sr, changed), read) == flag_of(sr, read),
{
    let m = status(changed);
    let r = status(read);
    assert(m & r == 0) by (bit_vector)
        requires
            m != r || m == 0,
            m == 0x80 || m == 0x40 || m == 0x10 || m == 0x08 || m == 0x04 || m == 0x02 || m
                == 0x01 || m == 0,
            r == 0x80 || r == 0x40 || r == 0x10 || r == 0x08 || r == 0x04 || r == 0x02 || r
                == 0x01 || r == 0,
    ;
    assert((sr | m) & r == sr & r && (sr & !m) & r == sr & r && (sr ^ m) & r == sr & r)
        by (bit_vector)
        requires
            m & r == 0,
    ;
}

} // verus!
