//! The per-pin configuration register: its fields and their encodings.
use crate::gpio::Current;
use vstd::prelude::*;

verus! {

/// Mask of the I/O-mode field (bits 26:24).
pub const IOMODE_MASK: u32 = 0x0700_0000;

/// Position of the lowest bit of the I/O-mode field.
pub const IOMODE_SHIFT: u32 = 24;

/// Mask of the pull-control field (bits 14:13).
pub const PULL_CTL_MASK: u32 = 0x0000_6000;

/// Position of the lowest bit of the pull-control field.
pub const PULL_CTL_SHIFT: u32 = 13;

/// Mask of the drive-current field (bits 11:10).
pub const IOCURR_MASK: u32 = 0x0000_0C00;

/// Position of the lowest bit of the drive-current field.
pub const IOCURR_SHIFT: u32 = 10;

/// Both fields that a mode change writes.
pub const MODE_MASK: u32 = 0x0700_6000;

/// The value of the field selected by `mask`, moved down to bit 0.
pub open spec fn field(bits: u32, mask: u32, shift: u32) -> u32 {
    (bits & mask) >> shift
}

/// `bits` with the field selected by `mask` replaced by `code`.
pub open spec fn with_field(bits: u32, mask: u32, shift: u32, code: u32) -> u32 {
    (bits & !mask) | ((code << shift) & mask)
}

/// Reads one field of a register word.
pub fn read_field(bits: u32, mask: u32, shift: u32) -> (code: u32)
    requires
        shift < 32,
    ensures
        code == field(bits, mask, shift),
{
    (bits & mask) >> shift
}

/// Replaces one field of a register word and keeps every bit outside `mask`.
pub fn write_field(bits: u32, mask: u32, shift: u32, code: u32) -> (word: u32)
    requires
        shift < 32,
    ensures
        word == with_field(bits, mask, shift, code),
        word & !mask == bits & !mask,
        word & mask == (code << shift) & mask,
{
    let word: u32 = (bits & !mask) | ((code << shift) & mask);
    assert(((bits & !mask) | ((code << shift) & mask)) & !mask == bits & !mask) by (bit_vector);
    assert(((bits & !mask) | ((code << shift) & mask)) & mask == (code << shift) & mask)
        by (bit_vector);
    word
}

/// Electrical behaviour of the pin's driver, as the I/O-mode field encodes it.
#[derive(Clone, Copy, PartialEq, Eq, Structural, Debug)]
pub enum IoMode {
    /// Plain input or push-pull output.
    Normal,
    /// The pin only ever pulls the line low.
    OpenDrain,
    /// The pin only ever pulls the line high.
    OpenSource,
}

impl IoMode {
    /// The field value that selects this mode.
    pub open spec fn code(self) -> u32 {
        match self {
            IoMode::Normal => 0,
            IoMode::OpenDrain => 4,
            IoMode::OpenSource => 6,
        }
    }

    /// The field value that selects this mode.
    pub fn bits(self) -> (code: u32)
        ensures
            code == self.code(),
    {
        match self {
            IoMode::Normal => 0,
            IoMode::OpenDrain => 4,
            IoMode::OpenSource => 6,
        }
    }
}

/// The pull resistor of a pin, as the pull-control field encodes it.
#[derive(Clone, Copy, PartialEq, Eq, Structural, Debug)]
pub enum PullCtl {
    /// Pull-down resistor connected.
    Down,
    /// Pull-up resistor connected.
    Up,
    /// No pull resistor.
    Disabled,
}

impl PullCtl {
    /// The field value that selects this pull.
    pub open spec fn code(self) -> u32 {
        match self {
            PullCtl::Down => 1,
            PullCtl::Up => 2,
            PullCtl::Disabled => 3,
        }
    }

    /// The field value that selects this pull.
    pub fn bits(self) -> (code: u32)
        ensures
            code == self.code(),
    {
        match self {
            PullCtl::Down => 1,
            PullCtl::Up => 2,
            PullCtl::Disabled => 3,
        }
    }
}

/// The contents of one pin's configuration register.
#[derive(Clone, Copy, PartialEq, Eq, Structural, Debug)]
pub struct ConfigReg {
    /// The register word.
    pub bits: u32,
}

impl ConfigReg {
    /// The I/O-mode field.
    pub open spec fn iomode(self) -> u32 {
        field(self.bits, IOMODE_MASK, IOMODE_SHIFT)
    }

    /// The pull-control field.
    pub open spec fn pull_ctl(self) -> u32 {
        field(self.bits, PULL_CTL_MASK, PULL_CTL_SHIFT)
    }

    /// The drive-current field.
    pub open spec fn iocurr(self) -> u32 {
        field(self.bits, IOCURR_MASK, IOCURR_SHIFT)
    }

    /// Every bit of the word outside `mask`; the bits under `mask` read zero.
    pub open spec fn outside(self, mask: u32) -> u32 {
        self.bits & !mask
    }

    /// The register after a mode change: I/O mode and pull control replaced,
    /// every other bit kept.
    pub open spec fn with_mode(self, iomode: IoMode, pull: PullCtl) -> ConfigReg {
        ConfigReg {
            bits: with_field(
                with_field(self.bits, IOMODE_MASK, IOMODE_SHIFT, iomode.code()),
                PULL_CTL_MASK,
                PULL_CTL_SHIFT,
                pull.code(),
            ),
        }
    }

    /// The register after a change of drive current: that field replaced,
    /// every other bit kept.
    pub open spec fn with_current(self, current: Current) -> ConfigReg {
        ConfigReg { bits: with_field(self.bits, IOCURR_MASK, IOCURR_SHIFT, current.code()) }
    }

    /// Reads the I/O-mode field.
    pub fn read_iomode(&self) -> (code: u32)
        ensures
            code == self.iomode(),
    {
        read_field(self.bits, IOMODE_MASK, IOMODE_SHIFT)
    }

    /// Reads the pull-control field.
    pub fn read_pull_ctl(&self) -> (code: u32)
        ensures
            code == self.pull_ctl(),
    {
        read_field(self.bits, PULL_CTL_MASK, PULL_CTL_SHIFT)
    }

    /// Reads the drive-current field.
    pub fn read_iocurr(&self) -> (code: u32)
        ensures
            code == self.iocurr(),
    {
        read_field(self.bits, IOCURR_MASK, IOCURR_SHIFT)
    }

    /// Selects an electrical mode: one read-modify-write that sets the
    /// I/O-mode and pull-control fields and nothing else.
    pub fn set_mode(&mut self, iomode: IoMode, pull: PullCtl)
        ensures
            *final(self) == old(self).with_mode(iomode, pull),
            final(self).iomode() == iomode.code(),
            final(self).pull_ctl() == pull.code(),
            final(self).iocurr() == old(self).iocurr(),
            final(self).outside(MODE_MASK) == old(self).outside(MODE_MASK),
    {
        let io: u32 = iomode.bits();
        let pl: u32 = pull.bits();
        let word: u32 = write_field(self.bits, IOMODE_MASK, IOMODE_SHIFT, io);
        proof {
            lemma_mode_fields(self.bits, io, pl);
        }
        self.bits = write_field(word, PULL_CTL_MASK, PULL_CTL_SHIFT, pl);
    }

    /// Selects a drive current: one read-modify-write that sets the
    /// drive-current field and nothing else.
    pub fn set_current(&mut self, current: Current)
        ensures
            *final(self) == old(self).with_current(current),
            final(self).iocurr() == current.code(),
            final(self).iomode() == old(self).iomode(),
            final(self).pull_ctl() == old(self).pull_ctl(),
            final(self).outside(IOCURR_MASK) == old(self).outside(IOCURR_MASK),
    {
        let code: u32 = current.bits();
        proof {
            lemma_current_fields(self.bits, code);
        }
        self.bits = write_field(self.bits, IOCURR_MASK, IOCURR_SHIFT, code);
    }
}

/// What a mode change does to each field of the word.
pub proof fn lemma_mode_fields(bits: u32, iomode: u32, pull: u32)
    by (bit_vector)
    requires
        iomode <= 7,
        pull <= 3,
    ensures
        ({
            let word = with_field(
                with_field(bits, IOMODE_MASK, IOMODE_SHIFT, iomode),
                PULL_CTL_MASK,
                PULL_CTL_SHIFT,
                pull,
            );
            &&& field(word, IOMODE_MASK, IOMODE_SHIFT) == iomode
            &&& field(word, PULL_CTL_MASK, PULL_CTL_SHIFT) == pull
            &&& field(word, IOCURR_MASK, IOCURR_SHIFT) == field(bits, IOCURR_MASK, IOCURR_SHIFT)
            &&& word & !MODE_MASK == bits & !MODE_MASK
        }),
{
}

/// What a change of drive current does to each field of the word.
pub proof fn lemma_current_fields(bits: u32, code: u32)
    by (bit_vector)
    requires
        code <= 3,
    ensures
        ({
            let word = with_field(bits, IOCURR_MASK, IOCURR_SHIFT, code);
            &&& field(word, IOCURR_MASK, IOCURR_SHIFT) == code
            &&& field(word, IOMODE_MASK, IOMODE_SHIFT) == field(bits, IOMODE_MASK, IOMODE_SHIFT)
            &&& field(word, PULL_CTL_MASK, PULL_CTL_SHIFT) == field(
                bits,
                PULL_CTL_MASK,
                PULL_CTL_SHIFT,
            )
            &&& word & !IOCURR_MASK == bits & !IOCURR_MASK
        }),
{
}

/// Making the same mode change a second time leaves the register as the
/// first left it.
pub proof fn lemma_mode_change_idempotent(reg: ConfigReg, iomode: IoMode, pull: PullCtl)
    ensures
        reg.with_mode(iomode, pull).with_mode(iomode, pull) == reg.with_mode(iomode, pull),
{
    lemma_mode_change_overwrites(reg, iomode, pull, iomode, pull);
}

/// Of two mode changes in a row only the second is left in the register:
/// a mode change forgets the mode before it.
pub proof fn lemma_mode_change_overwrites(
    reg: ConfigReg,
    first_mode: IoMode,
    first_pull: PullCtl,
    iomode: IoMode,
    pull: PullCtl,
)
    ensures
        reg.with_mode(first_mode, first_pull).with_mode(iomode, pull) == reg.with_mode(
            iomode,
            pull,
        ),
{
    let a = first_mode.code();
    let b = first_pull.code();
    let io = iomode.code();
    let pl = pull.code();
    let bits = reg.bits;
    assert(with_field(
        with_field(
            with_field(
                with_field(bits, IOMODE_MASK, IOMODE_SHIFT, a),
                PULL_CTL_MASK,
                PULL_CTL_SHIFT,
                b,
            ),
            IOMODE_MASK,
            IOMODE_SHIFT,
            io,
        ),
        PULL_CTL_MASK,
        PULL_CTL_SHIFT,
        pl,
    ) == with_field(
        with_field(bits, IOMODE_MASK, IOMODE_SHIFT, io),
        PULL_CTL_MASK,
        PULL_CTL_SHIFT,
        pl,
    )) by (bit_vector);
}

/// Of two drive currents set in a row only the second is left in the
/// register.
pub proof fn lemma_last_current_wins(reg: ConfigReg, first: Current, second: Current)
    ensures
        reg.with_current(first).with_current(second) == reg.with_current(second),
        reg.with_current(first).with_current(second).iocurr() == second.code(),
{
    let a = first.code();
    let b = second.code();
    let bits = reg.bits;
    assert(with_field(with_field(bits, IOCURR_MASK, IOCURR_SHIFT, a), IOCURR_MASK, IOCURR_SHIFT, b)
        == with_field(bits, IOCURR_MASK, IOCURR_SHIFT, b)) by (bit_vector);
    lemma_current_fields(bits, b);
}

/// A mode change and a change of drive current do not disturb each other:
/// in either order they leave the same register.
pub proof fn lemma_mode_and_current_commute(
    reg: ConfigReg,
    iomode: IoMode,
    pull: PullCtl,
    current: Current,
)
    ensures
        reg.with_mode(iomode, pull).with_current(current) == reg.with_current(current).with_mode(
            iomode,
            pull,
        ),
{
    let io = iomode.code();
    let pl = pull.code();
    let c = current.code();
    let bits = reg.bits;
    assert(with_field(
        with_field(
            with_field(bits, IOMODE_MASK, IOMODE_SHIFT, io),
            PULL_CTL_MASK,
            PULL_CTL_SHIFT,
            pl,
        ),
        IOCURR_MASK,
        IOCURR_SHIFT,
        c,
    ) == with_field(
        with_field(
            with_field(bits, IOCURR_MASK, IOCURR_SHIFT, c),
            IOMODE_MASK,
            IOMODE_SHIFT,
            io,
        ),
        PULL_CTL_MASK,
        PULL_CTL_SHIFT,
        pl,
    )) by (bit_vector);
}

} // verus!
