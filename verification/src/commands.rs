//! The chip's register map and the byte sequences the driver puts on the
//! bus, as specification-level values. Every driver operation's contract
//! is stated in terms of these.

use vstd::prelude::*;

use crate::mapping::pixel_register;

verus! {

/// Command register: written with a bank index to select that bank.
pub const ISSI_COMMANDREGISTER: u8 = 0xFD;

/// Index of the function bank, which holds the global control registers.
pub const ISSI_BANK_FUNCTIONREG: u8 = 0x0B;

/// Within the function bank: selects the actively displayed frame.
pub const ISSI_REG_PICTUREFRAME: u8 = 0x01;

/// Within the function bank: 0 = software shutdown, 1 = normal operation.
pub const ISSI_REG_SHUTDOWN: u8 = 0x0A;

/// Within the function bank: 0 = audio-reactive mode disabled.
pub const ISSI_REG_AUDIOSYNC: u8 = 0x06;

/// Frame indices above 7 fall back to frame 0; they are never rejected.
pub open spec fn clamped_frame(frame: u8) -> u8 {
    if frame > 7 {
        0
    } else {
        frame
    }
}

/// The two bytes of a bank-select transaction.
pub open spec fn bank_select_bytes(bank: u8) -> Seq<u8> {
    seq![ISSI_COMMANDREGISTER, bank]
}

/// The two bytes of a single-register write within the selected bank.
pub open spec fn register_write_bytes(reg: u8, value: u8) -> Seq<u8> {
    seq![reg, value]
}

/// The two transactions of a bank-scoped register write: select `bank`,
/// then write `value` to `reg`, both addressed to the device at `a`.
pub open spec fn write_to_bank_seq<A>(a: A, bank: u8, reg: u8, value: u8) -> Seq<(A, Seq<u8>)> {
    seq![(a, bank_select_bytes(bank)), (a, register_write_bytes(reg, value))]
}

/// The two transactions of a full-frame clear: select the bank of
/// `frame`, then send the clear command in one write.
pub open spec fn clear_seq<A>(a: A, frame: u8) -> Seq<(A, Seq<u8>)> {
    seq![(a, bank_select_bytes(frame)), (a, clear_bytes())]
}

/// The two transactions of a full-frame fill: select the bank of
/// `frame`, then send the fill command in one write.
pub open spec fn fill_seq<A>(a: A, frame: u8, c: u8) -> Seq<(A, Seq<u8>)> {
    seq![(a, bank_select_bytes(frame)), (a, fill_bytes(c))]
}

/// The 181-byte clear command: start register 0x00, then 0xFF for the 18
/// LED-enable registers (0x00-0x11) and 0x00 for the blink registers
/// (0x12-0x23) and the whole PWM table (0x24-0xB3).
pub open spec fn clear_bytes() -> Seq<u8> {
    Seq::new(181, |i: int| if i == 0 {
        0x00u8
    } else if i <= 0x12 {
        0xFFu8
    } else {
        0x00u8
    })
}

/// The transactions of enabling the first `n` LED-enable registers of
/// frame bank `f`, one bank-scoped register write of 0xFF each.
pub open spec fn enable_regs_seq<A>(a: A, f: u8, n: int) -> Seq<(A, Seq<u8>)>
    decreases n,
{
    if n <= 0 {
        Seq::empty()
    } else {
        enable_regs_seq(a, f, n - 1) + write_to_bank_seq(a, f, (n - 1) as u8, 0xFF)
    }
}

/// The transactions of enabling all 18 LED-enable registers in each of
/// the first `n` frame banks, frame by frame.
pub open spec fn all_frames_enable_seq<A>(a: A, n: int) -> Seq<(A, Seq<u8>)>
    decreases n,
{
    if n <= 0 {
        Seq::empty()
    } else {
        all_frames_enable_seq(a, n - 1) + enable_regs_seq(a, (n - 1) as u8, 0x12)
    }
}

/// Every transaction of a successful construction, in order: software
/// shutdown asserted then released, frame 0 cleared, every LED of all
/// eight frames enabled, audio-reactive mode disabled.
pub open spec fn init_seq<A>(a: A) -> Seq<(A, Seq<u8>)> {
    write_to_bank_seq(a, ISSI_BANK_FUNCTIONREG, ISSI_REG_SHUTDOWN, 0x00) + write_to_bank_seq(
        a,
        ISSI_BANK_FUNCTIONREG,
        ISSI_REG_SHUTDOWN,
        0x01,
    ) + clear_seq(a, 0) + all_frames_enable_seq(a, 8) + write_to_bank_seq(
        a,
        ISSI_BANK_FUNCTIONREG,
        ISSI_REG_AUDIOSYNC,
        0x00,
    )
}

/// The transactions of drawing a batch of pixels `(x, y, intensity)`
/// into the frame `frame`: for each pixel in order, a bank select
/// followed by a write of its intensity to its PWM register.
pub open spec fn draw_seq<A>(a: A, frame: u8, pixels: Seq<(i16, i16, u8)>) -> Seq<(A, Seq<u8>)>
    decreases pixels.len(),
{
    if pixels.len() == 0 {
        Seq::empty()
    } else {
        draw_seq(a, frame, pixels.drop_last()) + write_to_bank_seq(
            a,
            frame,
            pixel_register(pixels.last().0 as int, pixels.last().1 as int),
            pixels.last().2,
        )
    }
}

/// The 145-byte fill command: start register 0x24 (the PWM table), then
/// one copy of `c` for each of the 144 intensity registers.
pub open spec fn fill_bytes(c: u8) -> Seq<u8> {
    Seq::new(145, |i: int| if i == 0 {
        0x24u8
    } else {
        c
    })
}

} // verus!
