//! Sound: the register block that programs write, the channel state
//! machines that the dot clock drives, and the queue of finished samples.

use vstd::prelude::*;
use crate::bits::{
    bit, lemma_bits, lemma_high_fields, lemma_low_bits, lemma_period_shift, lemma_splice,
    lemma_word, weight,
};
use crate::bus::BusView;
use crate::ioreg::IoReg;
use crate::ring::{offered, RingBuffer};
use crate::{GBView, GB};

verus! {

/// First address of the sound register block.
pub const AUDIO_FIRST: usize = 0xFF10;

/// Last address of the sound register block, the end of wave RAM.
pub const AUDIO_LAST: usize = 0xFF3F;

/// The five raw registers NRx0..NRx4 of one channel, and its trigger latch.
#[derive(Clone, Copy)]
pub struct Channel {
    /// NRx0 (sweep), NRx1 (length and duty), NRx2 (volume and envelope),
    /// NRx3 (period low), NRx4 (period high and control).
    pub nr: [u8; 5],
    /// Raised by a write to NRx4 with bit 7 set, lowered by the sound unit.
    pub trigger: bool,
}

impl Channel {
    /// NRx4 bit 6: the length timer runs.
    pub open spec fn length_enable(self) -> bool {
        bit(self.nr[4], 6)
    }

    /// NR10 bit 3: the sweep lowers the period.
    pub open spec fn sweep_down(self) -> bool {
        bit(self.nr[0], 3)
    }

    /// NR10 bits 6..4.
    pub open spec fn sweep_pace(self) -> u8 {
        (self.nr[0] / 16) % 8
    }

    /// NR10 bits 2..0.
    pub open spec fn sweep_step(self) -> u8 {
        self.nr[0] % 8
    }

    /// NRx1 bits 5..0.
    pub open spec fn length(self) -> u8 {
        self.nr[1] % 64
    }

    /// NRx1 with its low six bits replaced by those of `n`.
    pub open spec fn with_length(self, n: u8) -> Channel {
        Channel {
            nr: vstd::array::spec_array_update(
                self.nr,
                1,
                ((self.nr[1] / 64) * 64 + n % 64) as u8,
            ),
            ..self
        }
    }

    /// The eleven-bit period: NRx3 below the low three bits of NRx4.
    pub open spec fn period(self) -> int {
        self.nr[3] + 256 * (self.nr[4] % 8)
    }

    /// The channel with the low eleven bits of `n` as its period.
    pub open spec fn with_period(self, n: int) -> Channel {
        Channel {
            nr: vstd::array::spec_array_update(
                vstd::array::spec_array_update(self.nr, 3, (n % 256) as u8),
                4,
                ((self.nr[4] / 8) * 8 + (n / 256) % 8) as u8,
            ),
            ..self
        }
    }

    /// NRx1 bits 7..6.
    pub open spec fn duty(self) -> u8 {
        self.nr[1] / 64
    }

    /// NRx2 bits 7..4.
    pub open spec fn volume(self) -> u8 {
        self.nr[2] / 16
    }

    /// NRx2 bit 3: the envelope raises the volume.
    pub open spec fn envelope_up(self) -> bool {
        bit(self.nr[2], 3)
    }

    /// NRx2 bits 1..0.
    pub open spec fn envelope_pace(self) -> u8 {
        self.nr[2] % 4
    }

    /// A channel with all registers zero and no trigger pending.
    pub fn new() -> (ch: Channel)
        ensures
            forall|i: int| 0 <= i < 5 ==> ch.nr[i] == 0,
            !ch.trigger,
    {
        Channel { nr: [0u8; 5], trigger: false }
    }

    /// Whether the length timer of the channel runs.
    pub fn get_length_enable(&self) -> (r: bool)
        ensures
            r == self.length_enable(),
    {
        proof {
            lemma_bits(self.nr[4]);
        }
        self.nr[4] & 0b_0100_0000 != 0
    }

    /// Whether the sweep of pulse 1 lowers the period.
    pub fn get_pulse1_sweep_dir(&self) -> (r: bool)
        ensures
            r == self.sweep_down(),
    {
        proof {
            lemma_bits(self.nr[0]);
        }
        self.nr[0] & 0b1000 != 0
    }

    /// The pace of the sweep of pulse 1.
    pub fn get_pulse1_sweep_pace(&self) -> (r: u8)
        ensures
            r == self.sweep_pace(),
    {
        proof {
            lemma_high_fields(self.nr[0]);
        }
        (self.nr[0] >> 4) & 7
    }

    /// By how many places the sweep of pulse 1 shifts the period.
    pub fn get_pulse1_sweep_step(&self) -> (r: u8)
        ensures
            r == self.sweep_step(),
    {
        proof {
            lemma_low_bits(self.nr[0]);
        }
        self.nr[0] & 7
    }

    /// The length counter of a pulse channel.
    pub fn get_pulse_length(&self) -> (r: u8)
        ensures
            r == self.length(),
    {
        proof {
            lemma_low_bits(self.nr[1]);
        }
        self.nr[1] & 0b_11_1111
    }

    /// Sets the length counter of a pulse channel and keeps the duty.
    pub fn set_pulse_length(&mut self, n: u8)
        ensures
            *final(self) == old(self).with_length(n),
    {
        proof {
            lemma_splice(self.nr[1], n);
        }
        self.nr[1] = (self.nr[1] & 0b_1100_0000) | (0b_0011_1111 & n);
        assert(final(self).nr =~= old(self).with_length(n).nr);
    }

    /// The length counter of the noise channel.
    pub fn get_noise_length(&self) -> (r: u8)
        ensures
            r == self.length(),
    {
        proof {
            lemma_low_bits(self.nr[1]);
        }
        self.nr[1] & 0b_11_1111
    }

    /// Sets the length counter of the noise channel.
    pub fn set_noise_length(&mut self, n: u8)
        ensures
            *final(self) == old(self).with_length(n),
    {
        self.set_pulse_length(n);
    }

    /// The length counter of the wave channel, which is all of NR31.
    pub fn get_wave_length(&self) -> (r: u8)
        ensures
            r == self.nr[1],
    {
        self.nr[1]
    }

    /// Sets the length counter of the wave channel.
    pub fn set_wave_length(&mut self, n: u8)
        ensures
            final(self).nr@ == old(self).nr@.update(1, n),
            final(self).trigger == old(self).trigger,
    {
        self.nr[1] = n;
    }

    /// The period of a pulse channel.
    pub fn get_pulse_period(&self) -> (r: usize)
        ensures
            r == self.period(),
    {
        proof {
            lemma_low_bits(self.nr[4]);
        }
        (self.nr[3] as usize) + (((self.nr[4] & 0b111) as usize) * 256)
    }

    /// Sets the period of a pulse channel and keeps the control bits.
    pub fn set_pulse_period(&mut self, n: usize)
        ensures
            *final(self) == old(self).with_period(n as int),
    {
        let low: u8 = (n % 256) as u8;
        let high: u8 = ((n / 256) % 8) as u8;
        proof {
            lemma_splice(self.nr[4], high);
        }
        self.nr[3] = low;
        self.nr[4] = (self.nr[4] & 0b_1111_1000) | (high & 7);
        assert(final(self).nr =~= old(self).with_period(n as int).nr);
    }

    /// The duty cycle of a pulse channel, 0 to 3.
    pub fn get_pulse_duty_cycle(&self) -> (r: u8)
        ensures
            r == self.duty(),
    {
        proof {
            lemma_high_fields(self.nr[1]);
        }
        self.nr[1] >> 6
    }

    /// The volume that a trigger starts a pulse channel with.
    pub fn get_pulse_volume(&self) -> (r: u8)
        ensures
            r == self.volume(),
    {
        proof {
            lemma_high_fields(self.nr[2]);
        }
        self.nr[2] >> 4
    }

    /// Whether the envelope of a pulse channel raises the volume.
    pub fn get_pulse_env_dir(&self) -> (r: bool)
        ensures
            r == self.envelope_up(),
    {
        proof {
            lemma_bits(self.nr[2]);
        }
        self.nr[2] & 0b1000 != 0
    }

    /// The pace of the envelope of a pulse channel.
    pub fn get_pulse_env_pace(&self) -> (r: u8)
        ensures
            r == self.envelope_pace(),
    {
        proof {
            lemma_low_bits(self.nr[2]);
        }
        self.nr[2] & 3
    }
}

/// The sound registers `FF10..=FF3F` as programs see them.
#[derive(Clone, Copy)]
pub struct AudioParams {
    /// Pulse 1, pulse 2, wave, noise.
    pub channels: [Channel; 4],
    /// Master volume and VIN panning.
    pub nr50: u8,
    /// Panning.
    pub nr51: u8,
    /// Power and status.
    pub nr52: u8,
    /// The wave channel's 32 four-bit samples.
    pub wave_ram: [u8; 16],
}

impl AudioParams {
    /// Whether an address belongs to the sound register block.
    pub open spec fn maps(addr: int) -> bool {
        AUDIO_FIRST <= addr <= AUDIO_LAST
    }

    /// What a read at `addr` returns: the byte last stored there, `0xFF`
    /// at the unused addresses `FF27..=FF2F` and outside the block.
    pub open spec fn spec_get(self, addr: int) -> u8 {
        if 0xFF10 <= addr <= 0xFF23 {
            self.channels[(addr - 0xFF10) / 5].nr[(addr - 0xFF10) % 5]
        } else if addr == 0xFF24 {
            self.nr50
        } else if addr == 0xFF25 {
            self.nr51
        } else if addr == 0xFF26 {
            self.nr52
        } else if 0xFF30 <= addr <= 0xFF3F {
            self.wave_ram[addr - 0xFF30]
        } else {
            0xFF
        }
    }

    /// The block after a write: the byte is stored, and a write to an NRx4
    /// with bit 7 set raises that channel's trigger latch.
    pub open spec fn spec_set(self, addr: int, data: u8) -> AudioParams {
        if 0xFF10 <= addr <= 0xFF23 {
            let c = (addr - 0xFF10) / 5;
            let i = (addr - 0xFF10) % 5;
            AudioParams {
                channels: vstd::array::spec_array_update(
                    self.channels,
                    c,
                    Channel {
                        nr: vstd::array::spec_array_update(self.channels[c].nr, i, data),
                        trigger: self.channels[c].trigger || (i == 4 && data >= 128),
                    },
                ),
                ..self
            }
        } else if addr == 0xFF24 {
            AudioParams { nr50: data, ..self }
        } else if addr == 0xFF25 {
            AudioParams { nr51: data, ..self }
        } else if addr == 0xFF26 {
            AudioParams { nr52: data, ..self }
        } else if 0xFF30 <= addr <= 0xFF3F {
            AudioParams {
                wave_ram: vstd::array::spec_array_update(self.wave_ram, addr - 0xFF30, data),
                ..self
            }
        } else {
            self
        }
    }

    /// Whether the block is as at power-on: every register zero and no trigger pending.
    pub open spec fn at_power_on(self) -> bool {
        &&& forall|c: int, i: int| 0 <= c < 4 && 0 <= i < 5 ==> self.channels[c].nr[i] == 0
        &&& forall|c: int| 0 <= c < 4 ==> !self.channels[c].trigger
        &&& self.nr50 == 0 && self.nr51 == 0 && self.nr52 == 0
        &&& forall|i: int| 0 <= i < 16 ==> self.wave_ram[i] == 0
    }

    /// The block at power-on.
    pub fn new() -> (p: AudioParams)
        ensures
            p.at_power_on(),
    {
        AudioParams {
            channels: [Channel::new(), Channel::new(), Channel::new(), Channel::new()],
            nr50: 0,
            nr51: 0,
            nr52: 0,
            wave_ram: [0u8; 16],
        }
    }

    /// Reads a sound register.
    pub fn get(&self, addr: usize) -> (data: u8)
        ensures
            data == self.spec_get(addr as int),
    {
        if 0xFF10 <= addr && addr <= 0xFF23 {
            let k: usize = addr - 0xFF10;
            self.channels[k / 5].nr[k % 5]
        } else if addr == 0xFF24 {
            self.nr50
        } else if addr == 0xFF25 {
            self.nr51
        } else if addr == 0xFF26 {
            self.nr52
        } else if 0xFF30 <= addr && addr <= 0xFF3F {
            self.wave_ram[addr - 0xFF30]
        } else {
            0xFF
        }
    }

    /// Writes a sound register.
    pub fn set(&mut self, addr: usize, data: u8)
        ensures
            *final(self) == old(self).spec_set(addr as int, data),
    {
        if 0xFF10 <= addr && addr <= 0xFF23 {
            let k: usize = addr - 0xFF10;
            let c: usize = k / 5;
            let i: usize = k % 5;
            proof {
                lemma_bits(data);
            }
            self.channels[c].nr[i] = data;
            if i == 4 && data & (1 << 7) != 0 {
                self.channels[c].trigger = true;
            }
            let ghost wanted = old(self).spec_set(addr as int, data);
            assert(final(self).channels[c as int].nr =~= wanted.channels[c as int].nr);
            assert(final(self).channels =~= wanted.channels);
        } else if addr == 0xFF24 {
            self.nr50 = data;
        } else if addr == 0xFF25 {
            self.nr51 = data;
        } else if addr == 0xFF26 {
            self.nr52 = data;
        } else if 0xFF30 <= addr && addr <= 0xFF3F {
            self.wave_ram[addr - 0xFF30] = data;
            assert(final(self).wave_ram =~= old(self).spec_set(addr as int, data).wave_ram);
        }
    }
}

/// Samples per second that the sound unit produces.
pub const AUDIO_FREQ: u64 = 48_000;

/// Dots per second.
pub const DOTS_HZ: u64 = 4194304;

/// The largest amplitude step: a channel at volume `v` swings between
/// `-v` and `v` times this.
pub const VOLUME_STEP: i32 = 2047;

/// The state machine of one pulse channel.
#[derive(Clone, Copy, Debug, PartialEq, Eq, Structural)]
pub struct Pulse {
    /// The channel sounds.
    pub enabled: bool,
    /// The period divider, which counts up to `0x800`.
    pub period_div: u16,
    /// The step within the eight-step duty cycle.
    pub current_sample: u8,
    /// Envelope steps left until the volume changes.
    pub env_counter: u8,
    /// The volume now, 0 to 15.
    pub volume: u8,
    /// The envelope pace latched at the trigger.
    pub env_pace: u8,
    /// The envelope direction latched at the trigger.
    pub env_up: bool,
}

impl Pulse {
    /// Whether the state is one that the channel can reach.
    pub open spec fn wf(self) -> bool {
        self.volume <= 15
    }

    /// The channel after a trigger: it sounds, and volume, envelope
    /// direction and envelope pace are latched from the registers.
    pub open spec fn triggered(self, ch: Channel) -> Pulse {
        Pulse {
            enabled: true,
            volume: ch.volume(),
            env_up: ch.envelope_up(),
            env_pace: ch.envelope_pace(),
            env_counter: ch.envelope_pace(),
            ..self
        }
    }

    /// The channel after one count of the period divider: at `0x800` the
    /// divider reloads from the period and the duty cycle moves one step on.
    pub open spec fn stepped(self, period: int) -> Pulse {
        if self.period_div + 1 >= 0x800 {
            Pulse {
                current_sample: ((self.current_sample + 1) % 8) as u8,
                period_div: period as u16,
                ..self
            }
        } else {
            Pulse { period_div: (self.period_div + 1) as u16, ..self }
        }
    }

    /// The channel after one step of the envelope: when the pace is not
    /// zero and the counter has run out, the counter reloads and the
    /// volume moves one step within 0 to 15; otherwise the counter counts down.
    pub open spec fn enveloped(self) -> Pulse {
        if self.env_pace != 0 && self.env_counter == 0 {
            Pulse {
                env_counter: self.env_pace,
                volume: if self.env_up {
                    if self.volume >= 15 {
                        15u8
                    } else {
                        (self.volume + 1) as u8
                    }
                } else {
                    if self.volume == 0 {
                        0u8
                    } else {
                        (self.volume - 1) as u8
                    }
                },
                ..self
            }
        } else {
            Pulse {
                env_counter: if self.env_counter == 0 {
                    0u8
                } else {
                    (self.env_counter - 1) as u8
                },
                ..self
            }
        }
    }

    /// Whether the output is low at this step of the duty cycle: for one,
    /// two, four or six steps out of eight.
    pub open spec fn is_low(self, duty: u8) -> bool {
        if duty == 0 {
            self.current_sample == 0
        } else if duty == 1 {
            self.current_sample <= 1
        } else if duty == 2 {
            self.current_sample <= 3
        } else {
            self.current_sample <= 5
        }
    }

    /// The amplitude now: silence when off, else the volume in steps of
    /// `VOLUME_STEP`, negative while the output is low.
    pub open spec fn amplitude(self, duty: u8) -> int {
        if !self.enabled {
            0
        } else if self.is_low(duty) {
            -(VOLUME_STEP * self.volume)
        } else {
            VOLUME_STEP * self.volume
        }
    }

    /// A channel that has never been triggered.
    pub open spec fn silent() -> Pulse {
        Pulse {
            enabled: false,
            period_div: 0,
            current_sample: 0,
            env_counter: 0,
            volume: 0,
            env_pace: 0,
            env_up: false,
        }
    }

    /// A silent channel.
    pub fn new() -> (p: Pulse)
        ensures
            p == Pulse::silent(),
    {
        Pulse {
            enabled: false,
            period_div: 0,
            current_sample: 0,
            env_counter: 0,
            volume: 0,
            env_pace: 0,
            env_up: false,
        }
    }

    /// Latches the registers at a trigger.
    pub fn trigger(&mut self, ch: &Channel)
        ensures
            *final(self) == old(self).triggered(*ch),
            final(self).wf(),
    {
        self.enabled = true;
        self.volume = ch.get_pulse_volume();
        self.env_up = ch.get_pulse_env_dir();
        self.env_pace = ch.get_pulse_env_pace();
        self.env_counter = self.env_pace;
    }

    /// Counts the period divider once.
    pub fn step(&mut self, period: usize)
        requires
            period < 0x800,
        ensures
            *final(self) == old(self).stepped(period as int),
            final(self).volume == old(self).volume,
    {
        if self.period_div >= 0x7FF {
            self.current_sample = (self.current_sample % 8 + 1) % 8;
            self.period_div = period as u16;
        } else {
            self.period_div += 1;
        }
    }

    /// Steps the envelope once.
    pub fn envelope(&mut self)
        requires
            old(self).wf(),
        ensures
            *final(self) == old(self).enveloped(),
            final(self).wf(),
    {
        if self.env_pace != 0 && self.env_counter == 0 {
            self.env_counter = self.env_pace;
            if self.env_up {
                if self.volume < 15 {
                    self.volume += 1;
                }
            } else {
                self.volume = self.volume.saturating_sub(1);
            }
        } else {
            self.env_counter = self.env_counter.saturating_sub(1);
        }
    }

    /// The amplitude now.
    pub fn sample(&self, duty: u8) -> (r: i32)
        requires
            self.wf(),
        ensures
            r == self.amplitude(duty),
            -(VOLUME_STEP * 15) <= r <= VOLUME_STEP * 15,
    {
        if !self.enabled {
            return 0;
        }
        let low: bool = match duty {
            0 => self.current_sample == 0,
            1 => self.current_sample <= 1,
            2 => self.current_sample <= 3,
            _ => self.current_sample <= 5,
        };
        if low {
            -(VOLUME_STEP * self.volume as i32)
        } else {
            VOLUME_STEP * self.volume as i32
        }
    }
}

/// The dot after which sample number `k` is due, capped at the largest dot count.
pub open spec fn sample_time(k: int) -> int {
    if (k * DOTS_HZ) / (AUDIO_FREQ as int) > u64::MAX {
        u64::MAX as int
    } else {
        (k * DOTS_HZ) / (AUDIO_FREQ as int)
    }
}

/// The sum of four channel amplitudes divided by four, rounded towards zero.
pub open spec fn mixed(sum: int) -> int {
    if sum >= 0 {
        sum / 4
    } else {
        -((-sum) / 4)
    }
}

/// A channel after a step of its length timer: while NRx4 bit 6 is set
/// the six-bit length counts up and wraps.
pub open spec fn length_stepped(ch: Channel) -> Channel {
    if ch.length_enable() {
        ch.with_length((ch.length() + 1) as u8)
    } else {
        ch
    }
}

/// Whether a step of the length timer silences the channel: the length is at its end.
pub open spec fn length_expires(ch: Channel) -> bool {
    ch.length_enable() && ch.length() == 63
}

/// Pulse 1 after a frequency sweep: the period moves by itself shifted
/// right `sweep_step` places, down if NR10 bit 3 is set and else up, and
/// stays within 0 to 2047.
pub open spec fn swept(ch: Channel) -> Channel {
    let change = ch.period() / weight(ch.sweep_step() as int);
    if ch.sweep_down() {
        ch.with_period(ch.period() - change)
    } else if ch.period() + change > 0x7FF {
        ch.with_period(0x7FF)
    } else {
        ch.with_period(ch.period() + change)
    }
}

/// The pace of sample production.
#[derive(Clone, Copy, Debug, PartialEq, Eq, Structural)]
pub struct SampleClock {
    /// Samples produced so far.
    pub number: u64,
    /// The dot after which the next sample is due.
    pub due: u64,
}

/// The sound unit: the two pulse channels, the taps of the divider that
/// pace them, and the queue of finished samples.
pub struct APU {
    /// How many samples were produced, and when the next one is due.
    clock: SampleClock,
    /// Finished samples, waiting for the host.
    ring: RingBuffer,
    /// Counts the falling edges of divider bit 12, at 512 Hz.
    div_apu: u8,
    /// Divider bit 12 as last seen.
    div_main_previous_bit4: bool,
    pulse1: Pulse,
    pulse2: Pulse,
    /// Sweep steps left until the period of pulse 1 changes.
    pulse1_sweep_counter: u8,
    /// The sweep pace latched at the trigger.
    pulse1_sweep_pace: u8,
}

/// The mathematical content of the sound unit.
#[verifier::ext_equal]
pub struct ApuView {
    pub next_sample: u64,
    pub sample_number: u64,
    pub ring: Seq<i16>,
    pub div_apu: u8,
    pub div_main_previous_bit4: bool,
    pub pulse1: Pulse,
    pub pulse2: Pulse,
    pub pulse1_sweep_counter: u8,
    pub pulse1_sweep_pace: u8,
}

impl View for APU {
    type V = ApuView;

    closed spec fn view(&self) -> ApuView {
        ApuView {
            next_sample: self.clock.due,
            sample_number: self.clock.number,
            ring: self.ring@,
            div_apu: self.div_apu,
            div_main_previous_bit4: self.div_main_previous_bit4,
            pulse1: self.pulse1,
            pulse2: self.pulse2,
            pulse1_sweep_counter: self.pulse1_sweep_counter,
            pulse1_sweep_pace: self.pulse1_sweep_pace,
        }
    }
}

impl ApuView {
    /// The sound unit at power-on: both channels silent, no sample
    /// produced, the queue empty.
    pub open spec fn at_power_on() -> ApuView {
        ApuView {
            next_sample: 0,
            sample_number: 0,
            ring: Seq::empty(),
            div_apu: 0,
            div_main_previous_bit4: false,
            pulse1: Pulse::silent(),
            pulse2: Pulse::silent(),
            pulse1_sweep_counter: 0,
            pulse1_sweep_pace: 0,
        }
    }

    /// Whether the state is one that the sound unit can reach.
    pub open spec fn wf(self) -> bool {
        self.pulse1.wf() && self.pulse2.wf() && self.next_sample == sample_time(
            self.sample_number as int,
        )
    }

    /// The sound unit after pending triggers are taken.
    pub open spec fn triggers_taken(self, params: AudioParams) -> ApuView {
        let first = if params.channels[0].trigger {
            ApuView {
                pulse1: self.pulse1.triggered(params.channels[0]),
                pulse1_sweep_pace: params.channels[0].sweep_pace(),
                pulse1_sweep_counter: params.channels[0].sweep_pace(),
                ..self
            }
        } else {
            self
        };
        if params.channels[1].trigger {
            ApuView { pulse2: first.pulse2.triggered(params.channels[1]), ..first }
        } else {
            first
        }
    }

    /// The sound unit after the period dividers have counted: they count every fourth dot.
    pub open spec fn periods_stepped(self, params: AudioParams, dots: u64) -> ApuView {
        if dots % 4 == 0 {
            ApuView {
                pulse1: self.pulse1.stepped(params.channels[0].period() as int),
                pulse2: self.pulse2.stepped(params.channels[1].period() as int),
                ..self
            }
        } else {
            self
        }
    }

    /// Whether the divider shows a falling edge of its bit 12.
    pub open spec fn edge(self, div: u16) -> bool {
        self.div_main_previous_bit4 && (div / 0x1000) % 2 == 0
    }

    /// The sound unit after the divider was sampled: a falling edge of
    /// bit 12 counts one tick of 512 Hz.
    pub open spec fn divider_sampled(self, div: u16) -> ApuView {
        ApuView {
            div_main_previous_bit4: (div / 0x1000) % 2 == 1,
            div_apu: if self.edge(div) {
                ((self.div_apu + 1) % 256) as u8
            } else {
                self.div_apu
            },
            ..self
        }
    }

    /// The sound unit after the envelopes of both pulse channels have stepped.
    pub open spec fn envelopes_stepped(self) -> ApuView {
        ApuView { pulse1: self.pulse1.enveloped(), pulse2: self.pulse2.enveloped(), ..self }
    }

    /// Whether this sweep step changes the period of pulse 1.
    pub open spec fn sweep_due(self) -> bool {
        self.pulse1_sweep_pace != 0 && self.pulse1_sweep_counter == 0
    }

    /// The sound unit after a sweep step.
    pub open spec fn sweep_stepped(self, params: AudioParams) -> ApuView {
        if self.sweep_due() {
            ApuView {
                pulse1_sweep_pace: params.channels[0].sweep_pace(),
                pulse1_sweep_counter: params.channels[0].sweep_pace(),
                ..self
            }
        } else {
            ApuView {
                pulse1_sweep_counter: if self.pulse1_sweep_counter == 0 {
                    0u8
                } else {
                    (self.pulse1_sweep_counter - 1) as u8
                },
                ..self
            }
        }
    }

    /// The sound unit after a step of the length timers.
    pub open spec fn lengths_stepped(self, params: AudioParams) -> ApuView {
        ApuView {
            pulse1: Pulse {
                enabled: self.pulse1.enabled && !length_expires(params.channels[0]),
                ..self.pulse1
            },
            pulse2: Pulse {
                enabled: self.pulse2.enabled && !length_expires(params.channels[1]),
                ..self.pulse2
            },
            ..self
        }
    }

    /// The sample that the channels add up to now.
    pub open spec fn mix(self, params: AudioParams) -> i16 {
        mixed(
            self.pulse1.amplitude(params.channels[0].duty()) + self.pulse2.amplitude(
                params.channels[1].duty(),
            ),
        ) as i16
    }

    /// The sound unit after a sample was produced, if one is due at `dots`.
    pub open spec fn sampled(self, params: AudioParams, dots: u64) -> ApuView {
        if dots > self.next_sample {
            ApuView {
                sample_number: (self.sample_number + 1) as u64,
                next_sample: sample_time(self.sample_number + 1) as u64,
                ring: offered(self.ring, self.mix(params)),
                ..self
            }
        } else {
            self
        }
    }
}

impl AudioParams {
    /// The registers with the trigger latch of every channel lowered.
    pub open spec fn triggers_cleared(self) -> AudioParams {
        AudioParams {
            channels: vstd::array::spec_array_update(
                vstd::array::spec_array_update(
                    vstd::array::spec_array_update(
                        vstd::array::spec_array_update(
                            self.channels,
                            0,
                            Channel { trigger: false, ..self.channels[0] },
                        ),
                        1,
                        Channel { trigger: false, ..self.channels[1] },
                    ),
                    2,
                    Channel { trigger: false, ..self.channels[2] },
                ),
                3,
                Channel { trigger: false, ..self.channels[3] },
            ),
            ..self
        }
    }

    /// The registers with one channel replaced.
    pub open spec fn with_channel(self, index: int, ch: Channel) -> AudioParams {
        AudioParams { channels: vstd::array::spec_array_update(self.channels, index, ch), ..self }
    }

    /// The registers after a step of the length timers of both pulse channels.
    pub open spec fn lengths_stepped(self) -> AudioParams {
        self.with_channel(0, length_stepped(self.channels[0])).with_channel(
            1,
            length_stepped(self.channels[1]),
        )
    }
}

/// The sound unit after the steps that the divider paces, `edge` saying
/// whether the divider showed a falling edge of bit 12: the envelopes
/// every eighth tick, the sweep every fourth, the length timers every second.
pub open spec fn paced(apu: ApuView, params: AudioParams, edge: bool) -> (ApuView, AudioParams) {
    let enveloped = if edge && apu.div_apu % 8 == 0 {
        apu.envelopes_stepped()
    } else {
        apu
    };
    let sweeps = edge && apu.div_apu % 4 == 0;
    let swept_unit = if sweeps {
        enveloped.sweep_stepped(params)
    } else {
        enveloped
    };
    let swept_registers = if sweeps && enveloped.sweep_due() {
        params.with_channel(0, swept(params.channels[0]))
    } else {
        params
    };
    let steps = edge && apu.div_apu % 2 == 0;
    if steps {
        (swept_unit.lengths_stepped(swept_registers), swept_registers.lengths_stepped())
    } else {
        (swept_unit, swept_registers)
    }
}

/// The sound unit and the sound registers after one dot. `div` is the
/// divider and `dots` the number of the dot. In this order: pending
/// triggers are taken, the period dividers count, the divider is
/// sampled, the paced steps are made, and a sample is produced if due.
pub open spec fn ticked(apu: ApuView, params: AudioParams, div: u16, dots: u64) -> (
    ApuView,
    AudioParams,
) {
    let started = apu.triggers_taken(params).periods_stepped(params.triggers_cleared(), dots);
    let after = paced(started.divider_sampled(div), params.triggers_cleared(), started.edge(div));
    (after.0.sampled(after.1, dots), after.1)
}

impl APU {
    #[verifier::type_invariant]
    spec fn inv(self) -> bool {
        self@.wf()
    }

    /// A silent sound unit with an empty queue, at dot 0.
    pub fn new() -> (apu: APU)
        ensures
            apu@ == ApuView::at_power_on(),
            apu@.wf(),
    {
        APU {
            clock: SampleClock { number: 0, due: 0 },
            ring: RingBuffer::new(),
            div_apu: 0,
            div_main_previous_bit4: false,
            pulse1: Pulse::new(),
            pulse2: Pulse::new(),
            pulse1_sweep_counter: 0,
            pulse1_sweep_pace: 0,
        }
    }

    /// Takes the pending triggers and lowers the trigger latches.
    fn take_triggers(&mut self, params: &mut AudioParams)
        ensures
            final(self)@ == old(self)@.triggers_taken(*old(params)),
            *final(params) == old(params).triggers_cleared(),
    {
        proof {
            use_type_invariant(&*self);
        }
        if params.channels[0].trigger {
            let mut pulse: Pulse = self.pulse1;
            pulse.trigger(&params.channels[0]);
            self.pulse1 = pulse;
            self.pulse1_sweep_pace = params.channels[0].get_pulse1_sweep_pace();
            self.pulse1_sweep_counter = self.pulse1_sweep_pace;
        }
        if params.channels[1].trigger {
            let mut pulse: Pulse = self.pulse2;
            pulse.trigger(&params.channels[1]);
            self.pulse2 = pulse;
        }
        params.channels[0].trigger = false;
        params.channels[1].trigger = false;
        params.channels[2].trigger = false;
        params.channels[3].trigger = false;
        assert(final(params).channels =~= old(params).triggers_cleared().channels);
    }

    /// Steps the frequency sweep of pulse 1.
    fn sweep(&mut self, params: &mut AudioParams)
        ensures
            final(self)@ == old(self)@.sweep_stepped(*old(params)),
            *final(params) == (if old(self)@.sweep_due() {
                old(params).with_channel(0, swept(old(params).channels[0]))
            } else {
                *old(params)
            }),
    {
        proof {
            use_type_invariant(&*self);
        }
        if self.pulse1_sweep_pace != 0 && self.pulse1_sweep_counter == 0 {
            self.pulse1_sweep_pace = params.channels[0].get_pulse1_sweep_pace();
            self.pulse1_sweep_counter = self.pulse1_sweep_pace;
            let period: usize = params.channels[0].get_pulse_period();
            let step: u8 = params.channels[0].get_pulse1_sweep_step();
            proof {
                lemma_period_shift(period as u16, step);
            }
            let change_by: usize = ((period as u16) >> step) as usize;
            if params.channels[0].get_pulse1_sweep_dir() {
                params.channels[0].set_pulse_period(period - change_by);
            } else if period + change_by > 0b_111_1111_1111 {
                params.channels[0].set_pulse_period(0b_111_1111_1111);
            } else {
                params.channels[0].set_pulse_period(period + change_by);
            }
            assert(final(params).channels =~= old(params).with_channel(
                0,
                swept(old(params).channels[0]),
            ).channels);
        } else {
            self.pulse1_sweep_counter = self.pulse1_sweep_counter.saturating_sub(1);
        }
    }

    /// Steps the length timers of both pulse channels.
    fn lengths(&mut self, params: &mut AudioParams)
        ensures
            final(self)@ == old(self)@.lengths_stepped(*old(params)),
            *final(params) == old(params).lengths_stepped(),
    {
        proof {
            use_type_invariant(&*self);
        }
        if params.channels[0].get_length_enable() {
            let len: u8 = params.channels[0].get_pulse_length();
            if len == 63 {
                let mut pulse: Pulse = self.pulse1;
                pulse.enabled = false;
                self.pulse1 = pulse;
            }
            params.channels[0].set_pulse_length(len + 1);
        }
        if params.channels[1].get_length_enable() {
            let len: u8 = params.channels[1].get_pulse_length();
            if len == 63 {
                let mut pulse: Pulse = self.pulse2;
                pulse.enabled = false;
                self.pulse2 = pulse;
            }
            params.channels[1].set_pulse_length(len + 1);
        }
        assert(final(params).channels =~= old(params).lengths_stepped().channels);
    }

    /// Produces one sample if one is due.
    fn produce(&mut self, params: &AudioParams, dots: u64)
        ensures
            final(self)@ == old(self)@.sampled(*params, dots),
    {
        proof {
            use_type_invariant(&*self);
        }
        if dots > self.clock.due {
            assert(self.clock.number < u64::MAX) by (nonlinear_arith)
                requires
                    self.clock.due == sample_time(self.clock.number as int),
                    self.clock.due < u64::MAX,
            ;
            let number: u64 = self.clock.number + 1;
            let due: u128 = number as u128 * DOTS_HZ as u128 / AUDIO_FREQ as u128;
            self.clock = SampleClock {
                number,
                due: if due > u64::MAX as u128 {
                    u64::MAX
                } else {
                    due as u64
                },
            };
            let c1: i32 = self.pulse1.sample(params.channels[0].get_pulse_duty_cycle());
            let c2: i32 = self.pulse2.sample(params.channels[1].get_pulse_duty_cycle());
            let sum: i32 = c1 + c2;
            let sample: i32 = if sum >= 0 {
                sum / 4
            } else {
                -((-sum) / 4)
            };
            self.ring.add(sample as i16);
        }
    }

    /// Counts the period dividers, every fourth dot.
    fn step_periods(&mut self, params: &AudioParams, dots: u64)
        ensures
            final(self)@ == old(self)@.periods_stepped(*params, dots),
    {
        proof {
            use_type_invariant(&*self);
        }
        assert(dots & 3 == dots % 4) by (bit_vector);
        if dots & 0b11 == 0 {
            let mut first: Pulse = self.pulse1;
            let mut second: Pulse = self.pulse2;
            first.step(params.channels[0].get_pulse_period());
            second.step(params.channels[1].get_pulse_period());
            self.pulse1 = first;
            self.pulse2 = second;
        }
    }

    /// Samples the divider, and says whether it showed a falling edge of bit 12.
    fn sample_divider(&mut self, div: u16) -> (edge: bool)
        ensures
            final(self)@ == old(self)@.divider_sampled(div),
            edge == old(self)@.edge(div),
    {
        proof {
            use_type_invariant(&*self);
            lemma_word(div);
        }
        let div_main_bit4_set: bool = div & 0x1000 != 0;
        let div_apu_changed: bool = self.div_main_previous_bit4 && !div_main_bit4_set;
        self.div_main_previous_bit4 = div_main_bit4_set;
        if div_apu_changed {
            self.div_apu = self.div_apu.wrapping_add(1);
        }
        div_apu_changed
    }

    /// Steps the envelopes of both pulse channels.
    fn envelopes(&mut self)
        ensures
            final(self)@ == old(self)@.envelopes_stepped(),
    {
        proof {
            use_type_invariant(&*self);
        }
        let mut first: Pulse = self.pulse1;
        let mut second: Pulse = self.pulse2;
        first.envelope();
        second.envelope();
        self.pulse1 = first;
        self.pulse2 = second;
    }

    /// Makes the steps that the divider paces.
    fn pace(&mut self, params: &mut AudioParams, edge: bool)
        ensures
            final(self)@ == paced(old(self)@, *old(params), edge).0,
            *final(params) == paced(old(self)@, *old(params), edge).1,
    {
        proof {
            lemma_low_bits(self.div_apu);
        }
        let count: u8 = self.div_apu;
        if edge && count & 7 == 0 {
            self.envelopes();
        }
        if edge && count & 3 == 0 {
            self.sweep(params);
        }
        if edge && count & 1 == 0 {
            self.lengths(params);
        }
    }

    /// Moves the sound unit one dot on, on the sound registers alone.
    fn tick_registers(&mut self, params: &mut AudioParams, div: u16, dots: u64)
        ensures
            final(self)@ == ticked(old(self)@, *old(params), div, dots).0,
            *final(params) == ticked(old(self)@, *old(params), div, dots).1,
    {
        self.take_triggers(params);
        self.step_periods(params, dots);
        let edge: bool = self.sample_divider(div);
        self.pace(params, edge);
        self.produce(params, dots);
    }

    /// Moves the sound unit one dot on. `dots` is the number of the
    /// dot. The sound registers of `gb` are read, and changed where a
    /// trigger is taken, a length counts or the sweep moves the period.
    pub fn tick(&mut self, gb: &mut GB, dots: u64)
        ensures
            final(self)@.wf(),
            final(self)@ == ticked(
                old(self)@,
                old(gb)@.bus.io.audio_params,
                old(gb)@.bus.io.div,
                dots,
            ).0,
            final(gb)@ == (GBView {
                bus: BusView {
                    io: IoReg {
                        audio_params: ticked(
                            old(self)@,
                            old(gb)@.bus.io.audio_params,
                            old(gb)@.bus.io.div,
                            dots,
                        ).1,
                        ..old(gb)@.bus.io
                    },
                    ..old(gb)@.bus
                },
                ..old(gb)@
            }),
    {
        let div: u16 = gb.bus.io.div;
        let mut params: AudioParams = gb.bus.io.audio_params;
        self.tick_registers(&mut params, div, dots);
        gb.bus.io.audio_params = params;
        proof {
            use_type_invariant(&*self);
        }
    }

    /// The number of finished samples that wait for the host.
    pub fn queued(&self) -> (n: usize)
        ensures
            n == self@.ring.len(),
    {
        self.ring.len()
    }

    /// Hands the `n` oldest finished samples to the host, oldest first,
    /// if that many wait; otherwise hands over nothing.
    pub fn take_block(&mut self, n: usize) -> (r: Option<Vec<i16>>)
        ensures
            r is Some <==> old(self)@.ring.len() >= n,
            r matches Some(block) ==> block@ == old(self)@.ring.subrange(0, n as int)
                && final(self)@ == (ApuView {
                ring: old(self)@.ring.subrange(n as int, old(self)@.ring.len() as int),
                ..old(self)@
            }),
            r is None ==> final(self)@ == old(self)@,
    {
        if self.ring.len() < n {
            return None;
        }
        let mut block: Vec<i16> = Vec::new();
        let mut i: usize = 0;
        while i < n
            invariant
                i <= n,
                n <= old(self)@.ring.len(),
                block@ == old(self)@.ring.subrange(0, i as int),
                self@ == (ApuView {
                    ring: old(self)@.ring.subrange(i as int, old(self)@.ring.len() as int),
                    ..old(self)@
                }),
            decreases n - i,
        {
            proof {
                use_type_invariant(&*self);
            }
            match self.ring.take() {
                Some(v) => {
                    block.push(v);
                    assert(block@ =~= old(self)@.ring.subrange(0, i + 1));
                    assert(self@.ring =~= old(self)@.ring.subrange(
                        i + 1,
                        old(self)@.ring.len() as int,
                    ));
                },
                None => {},
            }
            i += 1;
        }
        assert(old(self)@.ring.subrange(0, old(self)@.ring.len() as int) =~= old(self)@.ring);
        Some(block)
    }
}

} // verus!
