//! The clock that couples the parts: one counter of dots drives the
//! picture unit and the sound unit dot by dot, and lets the CPU run
//! whenever it has fallen behind.

use vstd::prelude::*;
use crate::audio::{ticked, ApuView, APU};
use crate::bits::{bit, lemma_bits, lemma_raise, raised};
use crate::bus::BusView;
use crate::cpu::{cycle_allowed, spec_cycle, try_cycle, CPU};
use crate::ioreg::{IoReg, INT_LCD, INT_VBLANK};
use crate::video::{
    lemma_rendered_keeps, oam_scan, render_dot, rendered, scanned, sorted_by_x, sprite_height,
    Sprite,
};
use crate::{GBView, GB};

verus! {

/// Dots in one scanline.
pub const DOTS_PER_LINE: u64 = 456;

/// Scanlines in one frame, the ten of the vertical blank included.
pub const LINES_PER_FRAME: u8 = 154;

/// The scanline with which the vertical blank begins.
pub const VBLANK_LINE: u8 = 144;

/// Dots in one frame.
pub const DOTS_PER_FRAME: u64 = 70224;

/// The dot of a scanline at which the sprites of that line are chosen.
pub const SCAN_DOT: u64 = 80;

/// With the LCD off, the host is given a turn every so many dots.
pub const IDLE_TURN: u64 = 0x10000;

/// The clock stops short of the largest dot count.
pub const DOT_LIMIT: u64 = 0xFFFF_FFFF_FFFF_FF00;

/// The scanline after `ly`; the one after the last is the first.
pub open spec fn line_after(ly: u8) -> u8 {
    if ly >= LINES_PER_FRAME - 1 {
        0
    } else {
        (ly + 1) as u8
    }
}

/// Whether dot `lx` is the last of its scanline.
pub open spec fn line_ends(lx: u64) -> bool {
    lx >= DOTS_PER_LINE - 1
}

/// The position of the beam one dot after `(lx, ly)`.
pub open spec fn beam_after(lx: u64, ly: u8) -> (u64, u8) {
    if line_ends(lx) {
        (0, line_after(ly))
    } else {
        ((lx + 1) as u64, ly)
    }
}

/// Whether the LCD is switched on.
pub open spec fn lcd_on(gb: GBView) -> bool {
    bit(gb.bus.io.lcdc, 7)
}

/// Whether this dot ends a scanline and the next scanline is the one that `LYC` names.
pub open spec fn lyc_fires(io: IoReg) -> bool {
    line_ends(io.lx) && line_after(io.ly) == io.lyc
}

/// Whether this dot ends the last visible scanline.
pub open spec fn vblank_begins(io: IoReg) -> bool {
    line_ends(io.lx) && line_after(io.ly) == VBLANK_LINE
}

/// The console after the beam has moved one dot on: at the end of a
/// scanline the next one begins, a match with `LYC` raises the LCD
/// interrupt and wakes the CPU, and line 144 raises the vertical blank interrupt.
pub open spec fn beam_moved(gb: GBView) -> GBView {
    GBView {
        bus: BusView { io: beam_registers(gb.bus.io), ..gb.bus },
        cpu: CPU { halt: gb.cpu.halt && !lyc_fires(gb.bus.io), ..gb.cpu },
        ..gb
    }
}

/// The sprites of the current scanline after this dot: chosen anew at dot 80.
pub open spec fn line_sprites(gb: GBView, sprites: Seq<Sprite>) -> Seq<Sprite> {
    if gb.bus.io.lx == SCAN_DOT {
        sorted_by_x(scanned(gb.bus.oam, gb.bus.io.ly, sprite_height(gb.bus.io.lcdc), 40))
    } else {
        sprites
    }
}

/// The console after the picture unit has done one dot: nothing while
/// the LCD is off; else the dot is drawn and the beam moves on.
pub open spec fn dot_drawn(gb: GBView, sprites: Seq<Sprite>) -> GBView {
    if lcd_on(gb) {
        beam_moved(rendered(gb, gb.bus.io.lx, line_sprites(gb, sprites)))
    } else {
        gb
    }
}

/// The registers after the beam has moved one dot on.
pub open spec fn beam_registers(io: IoReg) -> IoReg {
    let next = beam_after(io.lx, io.ly);
    let first = if lyc_fires(io) {
        raised(io.interrupt, 1)
    } else {
        io.interrupt
    };
    let second = if vblank_begins(io) {
        raised(first, 0)
    } else {
        first
    };
    IoReg { lx: next.0, ly: next.1, interrupt: second, ..io }
}

/// Moves the beam one dot on. Says whether the new scanline is the one
/// that `LYC` names, and whether the vertical blank began.
fn move_beam(io: &mut IoReg) -> (r: (bool, bool))
    ensures
        *final(io) == beam_registers(*old(io)),
        r.0 == lyc_fires(*old(io)),
        r.1 == vblank_begins(*old(io)),
{
    let lx: u64 = io.lx;
    if lx < DOTS_PER_LINE - 1 {
        io.lx = lx + 1;
        return (false, false);
    }
    let ly: u8 = if io.ly >= LINES_PER_FRAME - 1 {
        0
    } else {
        io.ly + 1
    };
    io.lx = 0;
    io.ly = ly;
    let matched: bool = ly == io.lyc;
    if matched {
        proof {
            lemma_raise(io.interrupt);
        }
        io.interrupt |= INT_LCD;
    }
    if ly == VBLANK_LINE {
        proof {
            lemma_raise(io.interrupt);
        }
        io.interrupt |= INT_VBLANK;
    }
    (matched, ly == VBLANK_LINE)
}

/// Lets the picture unit do one dot, and says whether the vertical blank began with it.
pub fn ppu_dot(gb: &mut GB, sprites: &mut Vec<Sprite>) -> (frame: bool)
    ensures
        final(gb)@ == dot_drawn(old(gb)@, old(sprites)@),
        final(sprites)@ == (if lcd_on(old(gb)@) {
            line_sprites(old(gb)@, old(sprites)@)
        } else {
            old(sprites)@
        }),
        frame == (lcd_on(old(gb)@) && vblank_begins(old(gb)@.bus.io)),
{
    proof {
        lemma_bits(gb.bus.io.lcdc);
    }
    if gb.bus.io.lcdc & 0x80 == 0 {
        return false;
    }
    if gb.bus.io.lx == SCAN_DOT {
        *sprites = oam_scan(gb);
    }
    let lx: u64 = gb.bus.io.lx;
    render_dot(gb, lx, sprites);
    proof {
        lemma_rendered_keeps(old(gb)@, lx, sprites@);
    }
    let moved: (bool, bool) = move_beam(&mut gb.bus.io);
    if moved.0 {
        gb.cpu.halt = false;
    }
    moved.1
}

/// The console after the CPU has taken a step and the divider and the
/// timer have counted the M-cycles of that step; a timer interrupt
/// raised meanwhile wakes the CPU.
pub open spec fn cpu_stepped(gb: GBView) -> GBView {
    let after = spec_cycle(gb);
    GBView {
        bus: BusView { io: after.0.bus.io.advance(after.1 as nat), ..after.0.bus },
        cpu: CPU {
            halt: after.0.cpu.halt && !after.0.bus.io.advance_overflows(after.1 as nat),
            ..after.0.cpu
        },
        ..after.0
    }
}

/// What a step of the clock was.
#[derive(Clone, Copy, Debug, PartialEq, Eq, Structural)]
pub enum Event {
    /// The CPU took a step of so many M-cycles.
    Cpu(u64),
    /// One dot passed.
    Dot,
    /// One dot passed, and it is time for the host to show the picture
    /// and read the keys: the vertical blank began, or the LCD is off
    /// and `IDLE_TURN` dots have passed.
    Frame,
    /// The CPU cannot take its step: the opcode at PC does not exist, or
    /// the step would write to the mapped boot ROM. Nothing has changed.
    Refused,
    /// The dot counter is at its limit. Nothing has changed.
    Expired,
}

/// The console with its sound unit and its clock.
pub struct Scheduler {
    pub gb: GB,
    pub apu: APU,
    /// The sprites of the current scanline.
    pub sprites: Vec<Sprite>,
    /// Dots that have passed.
    pub dots: u64,
    /// Dots that the CPU has used up.
    pub dots_cpu: u64,
}

/// The mathematical content of the scheduler.
#[verifier::ext_equal]
pub struct SchedulerView {
    pub gb: GBView,
    pub apu: ApuView,
    pub sprites: Seq<Sprite>,
    pub dots: u64,
    pub dots_cpu: u64,
}

impl View for Scheduler {
    type V = SchedulerView;

    open spec fn view(&self) -> SchedulerView {
        SchedulerView {
            gb: self.gb@,
            apu: self.apu@,
            sprites: self.sprites@,
            dots: self.dots,
            dots_cpu: self.dots_cpu,
        }
    }
}

impl SchedulerView {
    /// Whether the CPU has used fewer dots than have passed, so that it runs next.
    pub open spec fn cpu_is_behind(self) -> bool {
        self.dots_cpu < self.dots
    }

    /// What the next step of the clock is.
    pub open spec fn event(self) -> Event {
        if self.dots >= DOT_LIMIT {
            Event::Expired
        } else if self.cpu_is_behind() {
            if cycle_allowed(self.gb) {
                Event::Cpu(spec_cycle(self.gb).1)
            } else {
                Event::Refused
            }
        } else if lcd_on(self.gb) {
            if vblank_begins(self.gb.bus.io) {
                Event::Frame
            } else {
                Event::Dot
            }
        } else if (self.dots + 1) % (IDLE_TURN as int) == 0 {
            Event::Frame
        } else {
            Event::Dot
        }
    }

    /// The scheduler after one dot: the picture unit does the dot, then the sound unit.
    pub open spec fn dot_passed(self) -> SchedulerView {
        let drawn = dot_drawn(self.gb, self.sprites);
        let sound = ticked(
            self.apu,
            drawn.bus.io.audio_params,
            drawn.bus.io.div,
            (self.dots + 1) as u64,
        );
        SchedulerView {
            gb: GBView {
                bus: BusView { io: IoReg { audio_params: sound.1, ..drawn.bus.io }, ..drawn.bus },
                ..drawn
            },
            apu: sound.0,
            sprites: if lcd_on(self.gb) {
                line_sprites(self.gb, self.sprites)
            } else {
                self.sprites
            },
            dots: (self.dots + 1) as u64,
            ..self
        }
    }

    /// The scheduler after its next step. While the CPU has used fewer
    /// dots than have passed, the CPU takes a step and uses four dots
    /// for each M-cycle. Otherwise one dot passes.
    pub open spec fn stepped(self) -> SchedulerView {
        match self.event() {
            Event::Expired => self,
            Event::Refused => self,
            Event::Cpu(m) => SchedulerView {
                gb: cpu_stepped(self.gb),
                dots_cpu: (self.dots_cpu + 4 * m) as u64,
                ..self
            },
            _ => self.dot_passed(),
        }
    }
}

impl Scheduler {
    /// A scheduler at dot 0 for a console, with a silent sound unit.
    pub fn new(gb: GB) -> (s: Scheduler)
        ensures
            s@ == (SchedulerView {
                gb: gb@,
                apu: ApuView::at_power_on(),
                sprites: Seq::empty(),
                dots: 0,
                dots_cpu: 0,
            }),
    {
        Scheduler { gb, apu: APU::new(), sprites: Vec::new(), dots: 0, dots_cpu: 0 }
    }

    /// Takes the next step of the clock and says what it was.
    pub fn step(&mut self) -> (event: Event)
        ensures
            event == old(self)@.event(),
            final(self)@ == old(self)@.stepped(),
    {
        if self.dots >= DOT_LIMIT {
            return Event::Expired;
        }
        if self.dots_cpu < self.dots {
            match try_cycle(&mut self.gb) {
                None => Event::Refused,
                Some(mcycles) => {
                    self.dots_cpu += mcycles * 4;
                    if self.gb.bus.io.advance_counter_div(mcycles) {
                        self.gb.cpu.halt = false;
                    }
                    Event::Cpu(mcycles)
                },
            }
        } else {
            proof {
                lemma_bits(self.gb.bus.io.lcdc);
            }
            let on: bool = self.gb.bus.io.lcdc & 0x80 != 0;
            self.dots += 1;
            let frame: bool = ppu_dot(&mut self.gb, &mut self.sprites);
            self.apu.tick(&mut self.gb, self.dots);
            if frame || (!on && self.dots % IDLE_TURN == 0) {
                Event::Frame
            } else {
                Event::Dot
            }
        }
    }
}

/// Nanoseconds in a second.
pub const NANOS_PER_SECOND: u128 = 1_000_000_000;

/// The time that `dots` dots take on the console, in nanoseconds,
/// rounded down: a second has 4194304 dots.
pub open spec fn console_nanos(dots: u64) -> int {
    (dots * NANOS_PER_SECOND) / 4194304
}

/// How long the host has to wait for the console's time to catch up
/// with its own: the time that `elapsed_dots` dots take, less the
/// `real_nanos` nanoseconds that have really passed, and nothing if more
/// have passed.
pub fn slow_down(real_nanos: u128, elapsed_dots: u64) -> (wait: u128)
    ensures
        wait == (if console_nanos(elapsed_dots) > real_nanos {
            console_nanos(elapsed_dots) - real_nanos
        } else {
            0
        }),
{
    let ingame: u128 = elapsed_dots as u128 * NANOS_PER_SECOND / 4194304;
    if ingame > real_nanos {
        ingame - real_nanos
    } else {
        0
    }
}

/// Whether a beam position lies within the frame.
pub open spec fn in_frame(lx: u64, ly: u8) -> bool {
    lx < DOTS_PER_LINE && ly < LINES_PER_FRAME
}

/// The number of the dot at a beam position, counted from the start of the frame.
pub open spec fn frame_dot(lx: u64, ly: u8) -> int {
    ly * DOTS_PER_LINE + lx
}

/// The position of the beam `n` dots after `(lx, ly)`, the LCD being on.
pub open spec fn beam_run(lx: u64, ly: u8, n: nat) -> (u64, u8)
    decreases n,
{
    if n == 0 {
        (lx, ly)
    } else {
        let before = beam_run(lx, ly, (n - 1) as nat);
        beam_after(before.0, before.1)
    }
}

/// How often, within `n` dots from `(lx, ly)`, the beam goes from the last scanline to the first.
pub open spec fn frame_wraps(lx: u64, ly: u8, n: nat) -> nat
    decreases n,
{
    if n == 0 {
        0
    } else {
        let before = beam_run(lx, ly, (n - 1) as nat);
        frame_wraps(lx, ly, (n - 1) as nat) + (if line_ends(before.0) && before.1
            >= LINES_PER_FRAME - 1 {
            1nat
        } else {
            0nat
        })
    }
}

/// How often, within `n` dots from `(lx, ly)`, a scanline begins that `lyc` names.
pub open spec fn lyc_matches(lx: u64, ly: u8, lyc: u8, n: nat) -> nat
    decreases n,
{
    if n == 0 {
        0
    } else {
        let before = beam_run(lx, ly, (n - 1) as nat);
        lyc_matches(lx, ly, lyc, (n - 1) as nat) + (if line_ends(before.0) && line_after(before.1)
            == lyc {
            1nat
        } else {
            0nat
        })
    }
}

/// The registers follow the beam: what `beam_registers` does to LX and LY
/// is one step of `beam_run`, and it raises the LCD interrupt exactly on
/// the dots that `lyc_matches` counts.
pub proof fn lemma_beam_registers(io: IoReg)
    ensures
        (beam_registers(io).lx, beam_registers(io).ly) == beam_run(io.lx, io.ly, 1),
        lyc_fires(io) == (lyc_matches(io.lx, io.ly, io.lyc, 1) == 1),
{
    reveal_with_fuel(beam_run, 2);
    reveal_with_fuel(lyc_matches, 2);
}

/// A dot of the picture unit, with the LCD on, moves the beam by one
/// step of `beam_run`; it leaves the LCD on and `LYC` as it was, and
/// touches no memory but the framebuffer.
pub proof fn lemma_dot_moves_beam(gb: GBView, sprites: Seq<Sprite>)
    requires
        lcd_on(gb),
        gb.framebuffer.len() == crate::FRAMEBUFFER_SIZE,
    ensures
        (dot_drawn(gb, sprites).bus.io.lx, dot_drawn(gb, sprites).bus.io.ly) == beam_run(
            gb.bus.io.lx,
            gb.bus.io.ly,
            1,
        ),
        lcd_on(dot_drawn(gb, sprites)),
        dot_drawn(gb, sprites).bus.io.lyc == gb.bus.io.lyc,
        dot_drawn(gb, sprites).bus == (BusView {
            io: beam_registers(gb.bus.io),
            ..gb.bus
        }),
        dot_drawn(gb, sprites).framebuffer.len() == gb.framebuffer.len(),
{
    lemma_rendered_keeps(gb, gb.bus.io.lx, line_sprites(gb, sprites));
    lemma_beam_registers(gb.bus.io);
}

/// After `n` dots the beam is `n` dots further on in the frame, which is
/// 70224 dots long.
pub proof fn lemma_beam_run(lx: u64, ly: u8, n: nat)
    requires
        in_frame(lx, ly),
    ensures
        in_frame(beam_run(lx, ly, n).0, beam_run(lx, ly, n).1),
        frame_dot(beam_run(lx, ly, n).0, beam_run(lx, ly, n).1) == (frame_dot(lx, ly) + n) % (
        DOTS_PER_FRAME as int),
    decreases n,
{
    if n > 0 {
        lemma_beam_run(lx, ly, (n - 1) as nat);
        let before = beam_run(lx, ly, (n - 1) as nat);
        let k = (frame_dot(lx, ly) + n - 1) / (DOTS_PER_FRAME as int);
        assert(frame_dot(before.0, before.1) == frame_dot(lx, ly) + n - 1 - k * DOTS_PER_FRAME);
        if frame_dot(before.0, before.1) == DOTS_PER_FRAME - 1 {
            assert(before.1 == LINES_PER_FRAME - 1 && before.0 == DOTS_PER_LINE - 1);
            assert(frame_dot(lx, ly) + n == (k + 1) * DOTS_PER_FRAME);
        } else {
            assert(frame_dot(lx, ly) + n == k * DOTS_PER_FRAME + frame_dot(before.0, before.1) + 1);
        }
    }
}

/// A frame is 154 scanlines of 456 dots: with the LCD on, the beam is
/// back where it was after 70224 dots and not before.
pub proof fn lemma_frame_length(lx: u64, ly: u8)
    requires
        in_frame(lx, ly),
    ensures
        DOTS_PER_FRAME == LINES_PER_FRAME * DOTS_PER_LINE,
        beam_run(lx, ly, DOTS_PER_FRAME as nat) == (lx, ly),
        forall|n: nat| 0 < n < DOTS_PER_FRAME ==> #[trigger] beam_run(lx, ly, n) != (lx, ly),
{
    lemma_beam_run(lx, ly, DOTS_PER_FRAME as nat);
    let after = beam_run(lx, ly, DOTS_PER_FRAME as nat);
    assert(frame_dot(after.0, after.1) == frame_dot(lx, ly));
    assert forall|n: nat| 0 < n < DOTS_PER_FRAME implies #[trigger] beam_run(lx, ly, n) != (
        lx,
        ly,
    ) by {
        lemma_beam_run(lx, ly, n);
        let p = beam_run(lx, ly, n);
        if frame_dot(lx, ly) + n < DOTS_PER_FRAME {
            assert(frame_dot(p.0, p.1) == frame_dot(lx, ly) + n);
        } else {
            assert(frame_dot(p.0, p.1) == frame_dot(lx, ly) + n - DOTS_PER_FRAME);
        }
    }
}

/// Within up to a frame from `(lx, ly)`, the beam wraps once the last
/// dot of the frame is among the dots passed, and not before.
proof fn lemma_wraps_upto(lx: u64, ly: u8, n: nat)
    requires
        in_frame(lx, ly),
        n <= DOTS_PER_FRAME,
    ensures
        frame_wraps(lx, ly, n) == (if frame_dot(lx, ly) + n >= DOTS_PER_FRAME {
            1nat
        } else {
            0nat
        }),
    decreases n,
{
    if n > 0 {
        lemma_wraps_upto(lx, ly, (n - 1) as nat);
        lemma_beam_run(lx, ly, (n - 1) as nat);
        let before = beam_run(lx, ly, (n - 1) as nat);
        if frame_dot(lx, ly) + n - 1 < DOTS_PER_FRAME {
            assert(frame_dot(before.0, before.1) == frame_dot(lx, ly) + n - 1);
        } else {
            assert(frame_dot(before.0, before.1) == frame_dot(lx, ly) + n - 1 - DOTS_PER_FRAME);
        }
    }
}

/// The dot of the frame that ends the scanline before `lyc`.
pub open spec fn dot_before_line(lyc: u8) -> int {
    if lyc == 0 {
        DOTS_PER_FRAME - 1
    } else {
        lyc * DOTS_PER_LINE - 1
    }
}

/// Within up to a frame from `(lx, ly)`, scanline `lyc` has begun once
/// the dot before it is among the dots passed, and not before.
proof fn lemma_matches_upto(lx: u64, ly: u8, lyc: u8, n: nat)
    requires
        in_frame(lx, ly),
        lyc < LINES_PER_FRAME,
        n <= DOTS_PER_FRAME,
    ensures
        lyc_matches(lx, ly, lyc, n) == (if (frame_dot(lx, ly) <= dot_before_line(lyc) < frame_dot(
            lx,
            ly,
        ) + n) || dot_before_line(lyc) + DOTS_PER_FRAME < frame_dot(lx, ly) + n {
            1nat
        } else {
            0nat
        }),
    decreases n,
{
    if n > 0 {
        lemma_matches_upto(lx, ly, lyc, (n - 1) as nat);
        lemma_beam_run(lx, ly, (n - 1) as nat);
        let before = beam_run(lx, ly, (n - 1) as nat);
        if frame_dot(lx, ly) + n - 1 < DOTS_PER_FRAME {
            assert(frame_dot(before.0, before.1) == frame_dot(lx, ly) + n - 1);
        } else {
            assert(frame_dot(before.0, before.1) == frame_dot(lx, ly) + n - 1 - DOTS_PER_FRAME);
        }
        assert((line_ends(before.0) && line_after(before.1) == lyc) == (frame_dot(
            before.0,
            before.1,
        ) == dot_before_line(lyc)));
    }
}

/// In every frame, wherever it is taken to start, LY goes from 153 to
/// 0 exactly once, and a scanline named by `LYC` begins exactly once,
/// so that the LCD interrupt of that match is raised once; a value of
/// `LYC` beyond the last scanline never matches.
pub proof fn lemma_once_per_frame(lx: u64, ly: u8, lyc: u8)
    requires
        in_frame(lx, ly),
    ensures
        frame_wraps(lx, ly, DOTS_PER_FRAME as nat) == 1,
        lyc < LINES_PER_FRAME ==> lyc_matches(lx, ly, lyc, DOTS_PER_FRAME as nat) == 1,
        lyc >= LINES_PER_FRAME ==> lyc_matches(lx, ly, lyc, DOTS_PER_FRAME as nat) == 0,
{
    lemma_wraps_upto(lx, ly, DOTS_PER_FRAME as nat);
    if lyc < LINES_PER_FRAME {
        lemma_matches_upto(lx, ly, lyc, DOTS_PER_FRAME as nat);
    } else {
        lemma_never_matches(lx, ly, lyc, DOTS_PER_FRAME as nat);
    }
}

/// A value of `LYC` beyond the last scanline never matches.
proof fn lemma_never_matches(lx: u64, ly: u8, lyc: u8, n: nat)
    requires
        lyc >= LINES_PER_FRAME,
    ensures
        lyc_matches(lx, ly, lyc, n) == 0,
    decreases n,
{
    if n > 0 {
        lemma_never_matches(lx, ly, lyc, (n - 1) as nat);
    }
}

} // verus!
