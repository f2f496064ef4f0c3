//! A dot-driven core for an 8-bit handheld console of the LR35902 family:
//! cartridge and bank controller, I/O register file, memory bus, CPU
//! interpreter, picture unit, sound unit and the clock that couples them.
//!
//! Every executable function carries a contract over the spec functions
//! defined beside it, and the laws that relate several functions are
//! public proof functions.

pub mod alu;
pub mod audio;
pub mod bits;
pub mod bus;
pub mod cart;
pub mod clock;
pub mod cpu;
pub mod decode;
pub mod ioreg;
pub mod isa;
pub mod laws;
pub mod layout;
pub mod opcodes;
pub mod ops;
pub mod repl;
pub mod ring;
pub mod verify;
pub mod video;
pub mod views;

use vstd::prelude::*;

verus! {

/// Bytes in the framebuffer: 160 by 144 pixels of three bytes, R, G, B.
pub const FRAMEBUFFER_SIZE: usize = 69120;

/// The shade that the framebuffer holds before anything is drawn.
pub const BLANK_SHADE: u8 = 30;

/// The console: memory, CPU and the picture that the PPU has drawn.
pub struct GB {
    pub bus: bus::Bus,
    pub cpu: cpu::CPU,
    pub framebuffer: [u8; FRAMEBUFFER_SIZE],
}

/// The mathematical content of the console.
#[verifier::ext_equal]
pub struct GBView {
    pub bus: bus::BusView,
    pub cpu: cpu::CPU,
    pub framebuffer: Seq<u8>,
}

impl View for GB {
    type V = GBView;

    open spec fn view(&self) -> GBView {
        GBView { bus: self.bus@, cpu: self.cpu, framebuffer: self.framebuffer@ }
    }
}

impl GBView {
    /// Whether the console is as at power-on.
    pub open spec fn at_power_on(self) -> bool {
        &&& self.bus.at_power_on()
        &&& self.cpu == cpu::CPU::at_power_on()
        &&& self.framebuffer.len() == FRAMEBUFFER_SIZE
        &&& forall|i: int| 0 <= i < FRAMEBUFFER_SIZE ==> self.framebuffer[i] == BLANK_SHADE
    }
}

impl GB {
    /// The console at power-on, with an empty cartridge slot and a blank picture.
    pub fn new() -> (gb: GB)
        ensures
            gb@.at_power_on(),
    {
        GB { bus: bus::Bus::new(), cpu: cpu::CPU::new(), framebuffer: [30u8; FRAMEBUFFER_SIZE] }
    }
}

impl Default for GB {
    /// The console at power-on.
    fn default() -> (gb: GB)
        ensures
            gb@.at_power_on(),
    {
        GB::new()
    }
}

} // verus!
