//! The driver instance and its register-level operations.

use vstd::prelude::*;

use crate::bus::Bus;
use crate::bus::Delay;
use crate::commands::ISSI_BANK_FUNCTIONREG;
use crate::commands::ISSI_COMMANDREGISTER;
use crate::commands::ISSI_REG_AUDIOSYNC;
use crate::commands::ISSI_REG_PICTUREFRAME;
use crate::commands::ISSI_REG_SHUTDOWN;
use crate::commands::all_frames_enable_seq;
use crate::commands::bank_select_bytes;
use crate::commands::clamped_frame;
use crate::commands::clear_bytes;
use crate::commands::clear_seq;
use crate::commands::draw_seq;
use crate::commands::enable_regs_seq;
use crate::commands::fill_bytes;
use crate::commands::fill_seq;
use crate::commands::init_seq;
use crate::commands::register_write_bytes;
use crate::commands::write_to_bank_seq;
use crate::mapping::in_grid;
use crate::mapping::lemma_pixel_offset_in_range;
use crate::mapping::pixel_offset;
use crate::mapping::pixel_register;

verus! {

/// A driver for one IS31FL3731 chip on a two-wire bus.
///
/// `current_frame` selects which of the chip's 8 frame buffers the
/// drawing operations target; it is always in `[0, 7]`. The device-side
/// bank pointer is not tracked: every operation re-selects the bank it
/// writes to, so no operation depends on a previous call's bank choice.
pub struct IS31FL3731<A, B> where B: Bus<A> {
    /// The device's bus address, fixed at construction.
    pub a: A,
    /// The exclusively owned bus transport; all writes go through it.
    pub i2c: B,
    /// The frame that pixel, clear and fill operations address.
    pub current_frame: u8,
}

impl<A: Copy, B: Bus<A>> IS31FL3731<A, B> {
    /// The writes this driver has issued on its bus.
    pub open spec fn history(&self) -> Seq<(A, Seq<u8>)> {
        self.i2c.history()
    }

    /// `current_frame` stays in range.
    pub open spec fn wf(&self) -> bool {
        self.current_frame <= 7
    }

    /// Choose which frame buffer subsequent drawing operations address.
    /// No bus traffic: the chip learns of the choice only when the next
    /// operation selects the frame's bank. Out-of-range values fall back
    /// to frame 0.
    pub fn select_frame(&mut self, frame: u8)
        ensures
            final(self).current_frame == clamped_frame(frame),
            final(self).wf(),
            final(self).a == old(self).a,
            final(self).i2c == old(self).i2c,
    {
        if frame > 7 {
            self.current_frame = 0;
        } else {
            self.current_frame = frame;
        }
    }

    /// Write the command register so that `bank` becomes the target of
    /// subsequent register writes: one two-byte bus transaction.
    fn select_bank(&mut self, bank: u8) -> (r: Result<(), B::BusErr>)
        ensures
            final(self).a == old(self).a,
            final(self).current_frame == old(self).current_frame,
            r is Ok ==> final(self).history() == old(self).history().push(
                (old(self).a, bank_select_bytes(bank)),
            ),
            r is Err ==> final(self).history() == old(self).history(),
    {
        let bytes: [u8; 2] = [ISSI_COMMANDREGISTER, bank];
        proof {
            assert(bytes@ =~= bank_select_bytes(bank));
        }
        self.i2c.write(self.a, bytes.as_slice())
    }

    /// Select `bank`, then write `value` to register `reg` in it: two
    /// bus transactions, the first failure aborting the second.
    fn write_to_bank(&mut self, bank: u8, reg: u8, value: u8) -> (r: Result<(), B::BusErr>)
        ensures
            final(self).a == old(self).a,
            final(self).current_frame == old(self).current_frame,
            r is Ok ==> final(self).history() == old(self).history() + write_to_bank_seq(
                old(self).a,
                bank,
                reg,
                value,
            ),
            r is Err ==> final(self).history() == old(self).history() || final(self).history()
                == old(self).history().push((old(self).a, bank_select_bytes(bank))),
    {
        self.select_bank(bank)?;
        let bytes: [u8; 2] = [reg, value];
        proof {
            assert(bytes@ =~= register_write_bytes(reg, value));
        }
        let r = self.i2c.write(self.a, bytes.as_slice());
        proof {
            if r is Ok {
                assert(self.history() =~= old(self).history() + write_to_bank_seq(
                    old(self).a,
                    bank,
                    reg,
                    value,
                ));
            }
        }
        r
    }

    /// Make `frame` the chip's actively displayed frame by writing the
    /// function bank's picture-frame register. Out-of-range values fall
    /// back to frame 0. This is the only operation that changes what is
    /// physically shown; drawing operations only change buffer contents.
    pub fn display_frame(&mut self, frame: u8) -> (r: Result<(), B::BusErr>)
        ensures
            final(self).a == old(self).a,
            final(self).current_frame == old(self).current_frame,
            r is Ok ==> final(self).history() == old(self).history() + write_to_bank_seq(
                old(self).a,
                ISSI_BANK_FUNCTIONREG,
                ISSI_REG_PICTUREFRAME,
                clamped_frame(frame),
            ),
            r is Err ==> final(self).history() == old(self).history() || final(self).history()
                == old(self).history().push(
                (old(self).a, bank_select_bytes(ISSI_BANK_FUNCTIONREG)),
            ),
    {
        let f: u8 = if frame > 7 { 0 } else { frame };
        self.write_to_bank(ISSI_BANK_FUNCTIONREG, ISSI_REG_PICTUREFRAME, f)
    }

    /// Construct the driver for the device at address `a` and run the
    /// full reset handshake: assert software shutdown, wait 10 ms for
    /// the hardware to settle, release shutdown, clear frame 0, enable
    /// every LED position in all eight frames, and disable audio sync.
    /// The first bus failure aborts construction and is returned; no
    /// partial instance is handed out.
    pub fn new<D: Delay>(i2c: B, a: A, d: &mut D) -> (r: Result<Self, B::BusErr>)
        ensures
            r matches Ok(drv) ==> drv.a == a && drv.current_frame == 0 && drv.wf()
                && drv.history() == i2c.history() + init_seq(a),
    {
        let ghost h0 = i2c.history();
        let mut dev = IS31FL3731 { a, i2c, current_frame: 0 };

        // reset
        dev.write_to_bank(ISSI_BANK_FUNCTIONREG, ISSI_REG_SHUTDOWN, 0x00)?;
        d.delay_ms(10);
        dev.write_to_bank(ISSI_BANK_FUNCTIONREG, ISSI_REG_SHUTDOWN, 0x01)?;

        dev.clear()?;

        let ghost pre = h0 + write_to_bank_seq(a, ISSI_BANK_FUNCTIONREG, ISSI_REG_SHUTDOWN, 0x00)
            + write_to_bank_seq(a, ISSI_BANK_FUNCTIONREG, ISSI_REG_SHUTDOWN, 0x01) + clear_seq(
            a,
            0,
        );
        proof {
            assert(dev.history() =~= pre);
        }

        let mut f: u8 = 0;
        while f < 8
            invariant
                f <= 8,
                dev.a == a,
                dev.current_frame == 0,
                dev.history() == pre + all_frames_enable_seq(a, f as int),
                pre == h0 + write_to_bank_seq(a, ISSI_BANK_FUNCTIONREG, ISSI_REG_SHUTDOWN, 0x00)
                    + write_to_bank_seq(a, ISSI_BANK_FUNCTIONREG, ISSI_REG_SHUTDOWN, 0x01)
                    + clear_seq(a, 0),
                h0 == i2c.history(),
            decreases 8 - f,
        {
            let mut i: u8 = 0;
            while i < 0x12
                invariant
                    i <= 0x12,
                    f < 8,
                    dev.a == a,
                    dev.current_frame == 0,
                    dev.history() == pre + all_frames_enable_seq(a, f as int) + enable_regs_seq(
                        a,
                        f,
                        i as int,
                    ),
                decreases 0x12 - i,
            {
                dev.write_to_bank(f, i, 0xff)?;
                proof {
                    assert(dev.history() =~= pre + all_frames_enable_seq(a, f as int)
                        + enable_regs_seq(a, f, i as int + 1));
                }
                i += 1;
            }
            proof {
                assert(dev.history() =~= pre + all_frames_enable_seq(a, f as int + 1));
            }
            f += 1;
        }

        // disable audio sync
        dev.write_to_bank(ISSI_BANK_FUNCTIONREG, ISSI_REG_AUDIOSYNC, 0x0)?;
        proof {
            assert(dev.history() =~= h0 + init_seq(a));
        }

        Ok(dev)
    }

    /// Re-initialize the current frame: one bank select, then a single
    /// 181-byte write that enables every LED, disables every blink bit
    /// and zeroes the whole PWM table. The chip's register auto-increment
    /// lets the 180 registers be covered in one transaction.
    pub fn clear(&mut self) -> (r: Result<(), B::BusErr>)
        ensures
            final(self).a == old(self).a,
            final(self).current_frame == old(self).current_frame,
            r is Ok ==> final(self).history() == old(self).history() + clear_seq(
                old(self).a,
                old(self).current_frame,
            ),
            r is Err ==> final(self).history() == old(self).history() || final(self).history()
                == old(self).history().push(
                (old(self).a, bank_select_bytes(old(self).current_frame)),
            ),
    {
        // number of registers + 1 for the starting register address
        let mut command: [u8; 181] = [0u8; 181];

        // enable all LEDs (register addresses 0x00 - 0x11)
        let mut i: usize = 0;
        while i < 0x12
            invariant
                i <= 0x12,
                forall|j: int| 1 <= j <= i ==> command@[j] == 0xFFu8,
                forall|j: int| 0 <= j < 181 && !(1 <= j <= i) ==> command@[j] == 0x00u8,
            decreases 0x12 - i,
        {
            command[1 + i] = 0xff;
            i += 1;
        }
        proof {
            assert(command@ =~= clear_bytes());
        }

        // select the current frame, then send the command
        let cf = self.current_frame;
        self.select_bank(cf)?;
        let r = self.i2c.write(self.a, command.as_slice());
        proof {
            if r is Ok {
                assert(self.history() =~= old(self).history() + clear_seq(
                    old(self).a,
                    old(self).current_frame,
                ));
            }
        }
        r
    }

    /// Set every pixel of the current frame to intensity `c`: one bank
    /// select, then a single 145-byte write covering the PWM table. The
    /// LED-enable and blink registers are left untouched.
    pub fn fill(&mut self, c: u8) -> (r: Result<(), B::BusErr>)
        ensures
            final(self).a == old(self).a,
            final(self).current_frame == old(self).current_frame,
            r is Ok ==> final(self).history() == old(self).history() + fill_seq(
                old(self).a,
                old(self).current_frame,
                c,
            ),
            r is Err ==> final(self).history() == old(self).history() || final(self).history()
                == old(self).history().push(
                (old(self).a, bank_select_bytes(old(self).current_frame)),
            ),
    {
        let mut command: [u8; 145] = [c; 145];
        command[0] = 0x24;
        proof {
            assert(command@ =~= fill_bytes(c));
        }
        let cf = self.current_frame;
        self.select_bank(cf)?;
        let r = self.i2c.write(self.a, command.as_slice());
        proof {
            if r is Ok {
                assert(self.history() =~= old(self).history() + fill_seq(
                    old(self).a,
                    old(self).current_frame,
                    c,
                ));
            }
        }
        r
    }

    /// Write intensity `c` to the pixel at `(x, y)` of the current
    /// frame: a bank select followed by a write to the pixel's PWM
    /// register, at the offset the wiring transform assigns to `(x, y)`.
    pub fn draw_pixel(&mut self, x: i16, y: i16, c: u8) -> (r: Result<(), B::BusErr>)
        requires
            in_grid(x as int, y as int),
        ensures
            final(self).a == old(self).a,
            final(self).current_frame == old(self).current_frame,
            r is Ok ==> final(self).history() == old(self).history() + write_to_bank_seq(
                old(self).a,
                old(self).current_frame,
                pixel_register(x as int, y as int),
                c,
            ),
            r is Err ==> final(self).history() == old(self).history() || final(self).history()
                == old(self).history().push(
                (old(self).a, bank_select_bytes(old(self).current_frame)),
            ),
    {
        let mut xx = x;
        let mut yy = y;
        if xx > 7 {
            xx = 15 - xx;
            yy = yy + 8;
        } else {
            yy = 7 - yy;
        }
        let t = xx;
        xx = yy;
        yy = t;
        let pixel_num: i16 = xx + yy * 16;
        proof {
            lemma_pixel_offset_in_range(x as int, y as int);
            assert(pixel_num == pixel_offset(x as int, y as int));
        }
        let cf = self.current_frame;
        self.write_to_bank(cf, 0x24 + (pixel_num as u8), c)
    }

    /// Draw a batch of `(x, y, intensity)` pixels into the current
    /// frame, one [`Self::draw_pixel`] write pair per entry in order,
    /// stopping at and returning the first bus error.
    pub fn draw_iter(&mut self, pixels: &[(i16, i16, u8)]) -> (r: Result<(), B::BusErr>)
        requires
            forall|k: int|
                0 <= k < pixels@.len() ==> in_grid(#[trigger] pixels@[k].0 as int, pixels@[k].1 as int),
        ensures
            final(self).a == old(self).a,
            final(self).current_frame == old(self).current_frame,
            r is Ok ==> final(self).history() == old(self).history() + draw_seq(
                old(self).a,
                old(self).current_frame,
                pixels@,
            ),
            r is Err ==> exists|k: int|
                0 <= k < pixels@.len() && (final(self).history() == old(self).history() + draw_seq(
                    old(self).a,
                    old(self).current_frame,
                    #[trigger] pixels@.take(k),
                ) || final(self).history() == (old(self).history() + draw_seq(
                    old(self).a,
                    old(self).current_frame,
                    pixels@.take(k),
                )).push((old(self).a, bank_select_bytes(old(self).current_frame)))),
    {
        let ghost a0 = old(self).a;
        let ghost cf0 = old(self).current_frame;
        let ghost h0 = old(self).history();
        let mut i: usize = 0;
        while i < pixels.len()
            invariant
                i <= pixels@.len(),
                self.a == a0,
                self.current_frame == cf0,
                self.history() == h0 + draw_seq(a0, cf0, pixels@.take(i as int)),
                a0 == old(self).a,
                cf0 == old(self).current_frame,
                h0 == old(self).history(),
                forall|k: int|
                    0 <= k < pixels@.len() ==> in_grid(
                        #[trigger] pixels@[k].0 as int,
                        pixels@[k].1 as int,
                    ),
            decreases pixels@.len() - i,
        {
            let (x, y, c) = pixels[i];
            match self.draw_pixel(x, y, c) {
                Ok(()) => {},
                Err(e) => {
                    proof {
                        let k = i as int;
                        assert(0 <= k < pixels@.len() && (self.history() == h0 + draw_seq(
                            a0,
                            cf0,
                            pixels@.take(k),
                        ) || self.history() == (h0 + draw_seq(a0, cf0, pixels@.take(k))).push(
                            (a0, bank_select_bytes(cf0)),
                        )));
                    }
                    return Err(e);
                },
            }
            proof {
                assert(pixels@.take(i as int + 1).drop_last() =~= pixels@.take(i as int));
                assert(pixels@.take(i as int + 1).last() == pixels@[i as int]);
                assert(self.history() =~= h0 + draw_seq(a0, cf0, pixels@.take(i as int + 1)));
            }
            i += 1;
        }
        proof {
            assert(pixels@.take(pixels@.len() as int) =~= pixels@);
        }
        Ok(())
    }

    /// The canvas size the drawing adapter reports, as
    /// `(width, height)`. The chip addresses a 16x8 grid; the reported
    /// `(15, 7)` is one less in each direction, kept as-is for drop-in
    /// behavioural compatibility.
    pub fn size(&self) -> (r: (u32, u32))
        ensures
            r == (15u32, 7u32),
    {
        (15, 7)
    }
}

} // verus!
