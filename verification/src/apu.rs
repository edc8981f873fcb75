use vstd::prelude::*;

verus! {

/// Length-counter load values, indexed by bits 3-7 of the length register.
pub open spec fn length_table(i: int) -> u8 {
    seq![
        10u8, 254, 20, 2, 40, 4, 80, 6, 160, 8, 60, 10, 14, 12, 26, 14, 12, 16, 24, 18, 48, 20, 96, 22,
        192, 24, 72, 26, 16, 28, 32, 30,
    ][i]
}

/// DMC rate table: CPU cycles between output-unit clocks, indexed by bits 0-3 of $4010.
pub open spec fn dmc_rate(i: int) -> u16 {
    seq![428u16, 380, 340, 320, 286, 254, 226, 214, 190, 160, 144, 128, 106, 96, 54, 32][i]
}

/// Pulse duty waveforms, bit `step` (LSB first) of entry `duty`.
pub open spec fn duty_sequence(i: int) -> u8 {
    seq![0x02u8, 0x06, 0x1E, 0xCF][i]
}

/// Noise timer periods in CPU cycles, indexed by bits 0-3 of $400E.
pub open spec fn noise_period(i: int) -> u16 {
    seq![4u16, 8, 16, 32, 64, 96, 128, 160, 202, 254, 380, 508, 762, 1016, 2034, 4068][i]
}

fn length_lookup(idx: u8) -> (r: u8)
    requires
        idx < 32,
    ensures
        r == length_table(idx as int),
{
    let t: [u8; 32] = [
        10, 254, 20, 2, 40, 4, 80, 6, 160, 8, 60, 10, 14, 12, 26, 14, 12, 16, 24, 18, 48, 20, 96, 22,
        192, 24, 72, 26, 16, 28, 32, 30,
    ];
    assert(t@ =~= seq![
        10u8, 254, 20, 2, 40, 4, 80, 6, 160, 8, 60, 10, 14, 12, 26, 14, 12, 16, 24, 18, 48, 20, 96, 22,
        192, 24, 72, 26, 16, 28, 32, 30,
    ]);
    t[idx as usize]
}

fn dmc_rate_lookup(idx: u8) -> (r: u16)
    requires
        idx < 16,
    ensures
        r == dmc_rate(idx as int),
{
    let t: [u16; 16] = [428, 380, 340, 320, 286, 254, 226, 214, 190, 160, 144, 128, 106, 96, 54, 32];
    assert(t@ =~= seq![428u16, 380, 340, 320, 286, 254, 226, 214, 190, 160, 144, 128, 106, 96, 54, 32]);
    t[idx as usize]
}

fn duty_lookup(idx: u8) -> (r: u8)
    requires
        idx < 4,
    ensures
        r == duty_sequence(idx as int),
{
    let t: [u8; 4] = [0x02, 0x06, 0x1E, 0xCF];
    assert(t@ =~= seq![0x02u8, 0x06, 0x1E, 0xCF]);
    t[idx as usize]
}

fn noise_period_lookup(idx: u8) -> (r: u16)
    requires
        idx < 16,
    ensures
        r == noise_period(idx as int),
{
    let t: [u16; 16] = [4, 8, 16, 32, 64, 96, 128, 160, 202, 254, 380, 508, 762, 1016, 2034, 4068];
    assert(t@ =~= seq![4u16, 8, 16, 32, 64, 96, 128, 160, 202, 254, 380, 508, 762, 1016, 2034, 4068]);
    t[idx as usize]
}

// ---------------------------------------------------------------------------
// Pulse channel
// ---------------------------------------------------------------------------
#[derive(Clone, Copy)]
pub struct Pulse {
    pub enabled: bool,
    pub duty: u8,
    pub vol: u8,
    pub timer_load: u16,
    pub timer_val: u16,
    pub duty_step: u8,
    pub env_start: bool,
    pub env_disable: bool,
    pub env_divider: u8,
    pub env_decay: u8,
    pub length_counter: u8,
    pub length_halt: bool,
    pub sweep_enabled: bool,
    pub sweep_period: u8,
    pub sweep_negate: bool,
    pub sweep_shift: u8,
    pub sweep_divider: u8,
    pub sweep_reload: bool,
    /// True for pulse 1, whose negated sweep subtracts one more (one's complement).
    pub is_pulse1: bool,
}

impl Pulse {
    /// Register-reachable ranges: an 11-bit timer, a 2-bit duty, 4-bit volume and decay,
    /// a 3-bit shift and step.
    pub open spec fn wf(&self) -> bool {
        &&& self.timer_load <= 0x7FF
        &&& self.duty < 4
        &&& self.duty_step < 8
        &&& self.vol < 16
        &&& self.env_decay < 16
        &&& self.sweep_shift < 8
    }

    /// What computing the channel's output needs: an 11-bit timer, a duty index and
    /// step inside the sequence table, and a shift count below 8.
    pub open spec fn output_wf(&self) -> bool {
        &&& self.timer_load <= 0x7FF
        &&& self.duty < 4
        &&& self.duty_step < 8
        &&& self.sweep_shift < 8
    }

    pub fn new(is_pulse1: bool) -> (r: Self)
        ensures
            r.wf(),
            r == (Pulse {
                enabled: false,
                duty: 0,
                vol: 0,
                timer_load: 0,
                timer_val: 0,
                duty_step: 0,
                env_start: false,
                env_disable: false,
                env_divider: 0,
                env_decay: 0,
                length_counter: 0,
                length_halt: false,
                sweep_enabled: false,
                sweep_period: 0,
                sweep_negate: false,
                sweep_shift: 0,
                sweep_divider: 0,
                sweep_reload: false,
                is_pulse1,
            }),
    {
        Pulse {
            enabled: false,
            duty: 0,
            vol: 0,
            timer_load: 0,
            timer_val: 0,
            duty_step: 0,
            env_start: false,
            env_disable: false,
            env_divider: 0,
            env_decay: 0,
            length_counter: 0,
            length_halt: false,
            sweep_enabled: false,
            sweep_period: 0,
            sweep_negate: false,
            sweep_shift: 0,
            sweep_divider: 0,
            sweep_reload: false,
            is_pulse1,
        }
    }

    /// Timer clock: on reaching 0 reload and move the duty sequencer one step back (mod 8).
    pub open spec fn after_step_timer(self) -> Pulse {
        if self.timer_val == 0 {
            Pulse { timer_val: self.timer_load, duty_step: ((self.duty_step + 7) % 8) as u8, ..self }
        } else {
            Pulse { timer_val: (self.timer_val - 1) as u16, ..self }
        }
    }

    fn step_timer(&mut self)
        requires
            old(self).wf(),
        ensures
            *final(self) == old(self).after_step_timer(),
            final(self).wf(),
    {
        if self.timer_val == 0 {
            self.timer_val = self.timer_load;
            let s = self.duty_step;
            let w = s.wrapping_sub(1);
            let n = w & 7;
            assert(n == ((s + 7) % 8) as u8) by (bit_vector)
                requires
                    s < 8,
                    w == (if s == 0 { 255u8 } else { (s - 1) as u8 }),
                    n == w & 7,
            ;
            self.duty_step = n;
        } else {
            self.timer_val = self.timer_val - 1;
        }
    }

    /// Envelope clock (quarter frame): a start flag restarts decay at 15; otherwise the
    /// divider counts down from the volume and each expiry lowers the decay level,
    /// which loops back to 15 when the halt (loop) flag is set.
    pub open spec fn after_envelope(self) -> Pulse {
        if self.env_start {
            Pulse { env_start: false, env_decay: 15, env_divider: self.vol, ..self }
        } else if self.env_divider == 0 {
            let decay = if self.env_decay == 0 {
                if self.length_halt { 15 } else { 0 }
            } else {
                (self.env_decay - 1) as u8
            };
            Pulse { env_divider: self.vol, env_decay: decay, ..self }
        } else {
            Pulse { env_divider: (self.env_divider - 1) as u8, ..self }
        }
    }

    fn clock_envelope(&mut self)
        requires
            old(self).wf(),
        ensures
            *final(self) == old(self).after_envelope(),
            final(self).wf(),
    {
        if self.env_start {
            self.env_start = false;
            self.env_decay = 15;
            self.env_divider = self.vol;
        } else {
            if self.env_divider == 0 {
                self.env_divider = self.vol;
                if self.env_decay == 0 {
                    if self.length_halt {
                        self.env_decay = 15;
                    }
                } else {
                    self.env_decay = self.env_decay - 1;
                }
            } else {
                self.env_divider = self.env_divider - 1;
            }
        }
    }

    /// Length clock (half frame): count down unless halted or already 0.
    pub open spec fn after_length(self) -> Pulse {
        if self.length_counter > 0 && !self.length_halt {
            Pulse { length_counter: (self.length_counter - 1) as u8, ..self }
        } else {
            self
        }
    }

    fn clock_length(&mut self)
        ensures
            *final(self) == old(self).after_length(),
    {
        if self.length_counter > 0 && !self.length_halt {
            self.length_counter = self.length_counter - 1;
        }
    }

    /// Sweep target period: the timer plus or minus the timer shifted right by the
    /// shift count; pulse 1 negates in one's complement, subtracting one more (a
    /// target below 0 reads as 0).
    pub open spec fn spec_sweep_target(&self) -> int {
        let change = self.timer_load >> self.sweep_shift;
        if self.sweep_negate {
            let sub = change + if self.is_pulse1 { 1int } else { 0int };
            if sub > self.timer_load { 0 } else { self.timer_load - sub }
        } else {
            self.timer_load + change
        }
    }

    /// The channel is silenced by the sweep unit: period below 8 or target above $7FF.
    pub open spec fn spec_sweep_muted(&self) -> bool {
        self.timer_load < 8 || self.spec_sweep_target() > 0x7FF
    }

    fn sweep_calc_target(&self) -> (r: u16)
        requires
            self.output_wf(),
        ensures
            r == self.spec_sweep_target(),
    {
        let shift = self.sweep_shift;
        let change = self.timer_load >> shift;
        let t = self.timer_load;
        assert(change <= t) by (bit_vector)
            requires
                change == t >> shift,
        ;
        if self.sweep_negate {
            let sub: u16 = if self.is_pulse1 { change + 1 } else { change };
            if sub > t { 0 } else { t - sub }
        } else {
            self.timer_load + change
        }
    }

    fn is_sweep_muted(&self) -> (r: bool)
        requires
            self.output_wf(),
        ensures
            r == self.spec_sweep_muted(),
    {
        self.timer_load < 8 || self.sweep_calc_target() > 0x7FF
    }

    /// Sweep clock (half frame): when the divider expires with the sweep enabled, a
    /// non-zero shift and no muting, the period becomes the target; the divider then
    /// reloads from the period on expiry or reload request, else counts down.
    pub open spec fn after_sweep(self) -> Pulse {
        let divider_zero = self.sweep_divider == 0;
        let timer_load = if divider_zero && self.sweep_enabled && self.sweep_shift > 0
            && !self.spec_sweep_muted() {
            self.spec_sweep_target() as u16
        } else {
            self.timer_load
        };
        if divider_zero || self.sweep_reload {
            Pulse { timer_load, sweep_divider: self.sweep_period, sweep_reload: false, ..self }
        } else {
            Pulse { timer_load, sweep_divider: (self.sweep_divider - 1) as u8, ..self }
        }
    }

    fn clock_sweep(&mut self)
        requires
            old(self).wf(),
        ensures
            *final(self) == old(self).after_sweep(),
            final(self).wf(),
    {
        let divider_zero = self.sweep_divider == 0;
        if divider_zero && self.sweep_enabled && self.sweep_shift > 0 && !self.is_sweep_muted() {
            self.timer_load = self.sweep_calc_target();
        }
        if divider_zero || self.sweep_reload {
            self.sweep_divider = self.sweep_period;
            self.sweep_reload = false;
        } else {
            self.sweep_divider = self.sweep_divider - 1;
        }
    }

    /// Output level 0-15: silent when disabled, when the length counter is 0, when the
    /// period is below 8 or the sweep mutes, or on a low step of the duty waveform;
    /// otherwise the constant volume or the envelope level.
    pub open spec fn spec_output(&self) -> u8 {
        if !self.enabled || self.length_counter == 0 || self.timer_load < 8 || self.spec_sweep_muted() {
            0
        } else if (duty_sequence(self.duty as int) >> self.duty_step) & 1 == 0 {
            0
        } else if self.env_disable {
            self.vol
        } else {
            self.env_decay
        }
    }

    pub fn volume_output(&self) -> (r: u8)
        requires
            self.output_wf(),
        ensures
            r == self.spec_output(),
            self.wf() ==> r < 16,
    {
        if !self.enabled || self.length_counter == 0 || self.timer_load < 8 || self.is_sweep_muted() {
            return 0;
        }
        let bit = (duty_lookup(self.duty) >> self.duty_step) & 1;
        if bit == 0 {
            return 0;
        }
        if self.env_disable {
            self.vol
        } else {
            self.env_decay
        }
    }
}


// ---------------------------------------------------------------------------
// Triangle channel
// ---------------------------------------------------------------------------
#[derive(Clone, Copy)]
pub struct Triangle {
    pub enabled: bool,
    pub linear_counter_reload: u8,
    pub control_flag: bool,
    pub linear_counter: u8,
    pub length_counter: u8,
    pub length_halt: bool,
    pub timer_load: u16,
    pub timer_val: u16,
    pub sequencer: u8,
    pub linear_reload: bool,
}

impl Triangle {
    pub open spec fn wf(&self) -> bool {
        self.sequencer < 32
    }

    /// Power-on state: silent, every counter and the sequencer at 0.
    pub open spec fn power_on() -> Self {
        Triangle {
            enabled: false,
            linear_counter_reload: 0,
            control_flag: false,
            linear_counter: 0,
            length_counter: 0,
            length_halt: false,
            timer_load: 0,
            timer_val: 0,
            sequencer: 0,
            linear_reload: false,
        }
    }

    pub fn new() -> (r: Self)
        ensures
            r.wf(),
            r == Self::power_on(),
    {
        Triangle {
            enabled: false,
            linear_counter_reload: 0,
            control_flag: false,
            linear_counter: 0,
            length_counter: 0,
            length_halt: false,
            timer_load: 0,
            timer_val: 0,
            sequencer: 0,
            linear_reload: false,
        }
    }

    /// Timer clock: on reaching 0 reload, and advance the 32-step sequencer while both
    /// the linear counter and the length counter are non-zero.
    pub open spec fn after_step_timer(self) -> Triangle {
        if self.timer_val == 0 {
            let seq = if self.linear_counter > 0 && self.length_counter > 0 {
                ((self.sequencer + 1) % 32) as u8
            } else {
                self.sequencer
            };
            Triangle { timer_val: self.timer_load, sequencer: seq, ..self }
        } else {
            Triangle { timer_val: (self.timer_val - 1) as u16, ..self }
        }
    }

    fn step_timer(&mut self)
        requires
            old(self).wf(),
        ensures
            *final(self) == old(self).after_step_timer(),
            final(self).wf(),
    {
        if self.timer_val == 0 {
            self.timer_val = self.timer_load;
            if self.linear_counter > 0 && self.length_counter > 0 {
                self.sequencer = (self.sequencer + 1) % 32;
            }
        } else {
            self.timer_val = self.timer_val - 1;
        }
    }

    /// Linear counter clock (quarter frame): reload when flagged, else count down; the
    /// reload flag clears unless the control flag is set.
    pub open spec fn after_linear(self) -> Triangle {
        let lc = if self.linear_reload {
            self.linear_counter_reload
        } else if self.linear_counter > 0 {
            (self.linear_counter - 1) as u8
        } else {
            self.linear_counter
        };
        Triangle { linear_counter: lc, linear_reload: self.linear_reload && self.control_flag, ..self }
    }

    fn clock_linear_counter(&mut self)
        ensures
            *final(self) == old(self).after_linear(),
    {
        if self.linear_reload {
            self.linear_counter = self.linear_counter_reload;
        } else if self.linear_counter > 0 {
            self.linear_counter = self.linear_counter - 1;
        }
        if !self.control_flag {
            self.linear_reload = false;
        }
    }

    pub open spec fn after_length(self) -> Triangle {
        if self.length_counter > 0 && !self.length_halt {
            Triangle { length_counter: (self.length_counter - 1) as u8, ..self }
        } else {
            self
        }
    }

    fn clock_length(&mut self)
        ensures
            *final(self) == old(self).after_length(),
    {
        if self.length_counter > 0 && !self.length_halt {
            self.length_counter = self.length_counter - 1;
        }
    }

    /// Output level of the triangle wave: 15 down to 0, then 0 up to 15.
    pub open spec fn spec_output(&self) -> u8 {
        if self.sequencer < 16 { (15 - self.sequencer) as u8 } else { (self.sequencer - 16) as u8 }
    }

    fn output(&self) -> (r: u8)
        requires
            self.wf(),
        ensures
            r == self.spec_output(),
            r < 16,
    {
        if self.sequencer < 16 {
            15 - self.sequencer
        } else {
            self.sequencer - 16
        }
    }
}

// ---------------------------------------------------------------------------
// Noise channel
// ---------------------------------------------------------------------------
#[derive(Clone, Copy)]
pub struct Noise {
    pub enabled: bool,
    pub vol: u8,
    pub env_disable: bool,
    pub env_start: bool,
    pub env_divider: u8,
    pub env_decay: u8,
    pub length_counter: u8,
    pub length_halt: bool,
    pub mode: bool,
    pub period_index: u8,
    pub timer_load: u16,
    pub timer_val: u16,
    pub lfsr: u16,
}

impl Noise {
    pub open spec fn wf(&self) -> bool {
        &&& self.vol < 16
        &&& self.env_decay < 16
        &&& self.lfsr < 0x8000
    }

    /// Power-on state: silent, with the shift register seeded with 1.
    pub open spec fn power_on() -> Self {
        Noise {
            enabled: false,
            vol: 0,
            env_disable: false,
            env_start: false,
            env_divider: 0,
            env_decay: 0,
            length_counter: 0,
            length_halt: false,
            mode: false,
            period_index: 0,
            timer_load: 0,
            timer_val: 0,
            lfsr: 1,
        }
    }

    pub fn new() -> (r: Self)
        ensures
            r.wf(),
            r == Self::power_on(),
    {
        Noise {
            enabled: false,
            vol: 0,
            env_disable: false,
            env_start: false,
            env_divider: 0,
            env_decay: 0,
            length_counter: 0,
            length_halt: false,
            mode: false,
            period_index: 0,
            timer_load: 0,
            timer_val: 0,
            lfsr: 1,
        }
    }

    /// One shift of the 15-bit LFSR: feedback is bit 0 xor bit 6 (short mode) or bit 1.
    pub open spec fn next_lfsr(lfsr: u16, mode: bool) -> u16 {
        let fb = (lfsr & 1) ^ ((lfsr >> (if mode { 6u16 } else { 1u16 })) & 1);
        ((lfsr >> 1u16) | (fb << 14u16)) as u16
    }

    pub open spec fn after_step_timer(self) -> Noise {
        if self.timer_val == 0 {
            Noise { timer_val: self.timer_load, lfsr: Self::next_lfsr(self.lfsr, self.mode), ..self }
        } else {
            Noise { timer_val: (self.timer_val - 1) as u16, ..self }
        }
    }

    fn step_timer(&mut self)
        requires
            old(self).wf(),
        ensures
            *final(self) == old(self).after_step_timer(),
            final(self).wf(),
    {
        if self.timer_val == 0 {
            self.timer_val = self.timer_load;
            let l = self.lfsr;
            let sh: u16 = if self.mode { 6 } else { 1 };
            let fb = (l & 1) ^ ((l >> sh) & 1);
            let n = (l >> 1) | (fb << 14);
            assert(n < 0x8000) by (bit_vector)
                requires
                    l < 0x8000,
                    fb == (l & 1) ^ ((l >> sh) & 1),
                    n == (l >> 1u16) | (fb << 14u16),
            ;
            self.lfsr = n;
        } else {
            self.timer_val = self.timer_val - 1;
        }
    }

    /// Envelope clock, as on the pulse channels.
    pub open spec fn after_envelope(self) -> Noise {
        if self.env_start {
            Noise { env_start: false, env_decay: 15, env_divider: self.vol, ..self }
        } else if self.env_divider == 0 {
            let decay = if self.env_decay == 0 {
                if self.length_halt { 15 } else { 0 }
            } else {
                (self.env_decay - 1) as u8
            };
            Noise { env_divider: self.vol, env_decay: decay, ..self }
        } else {
            Noise { env_divider: (self.env_divider - 1) as u8, ..self }
        }
    }

    fn clock_envelope(&mut self)
        requires
            old(self).wf(),
        ensures
            *final(self) == old(self).after_envelope(),
            final(self).wf(),
    {
        if self.env_start {
            self.env_start = false;
            self.env_decay = 15;
            self.env_divider = self.vol;
        } else {
            if self.env_divider == 0 {
                self.env_divider = self.vol;
                if self.env_decay == 0 {
                    if self.length_halt {
                        self.env_decay = 15;
                    }
                } else {
                    self.env_decay = self.env_decay - 1;
                }
            } else {
                self.env_divider = self.env_divider - 1;
            }
        }
    }

    pub open spec fn after_length(self) -> Noise {
        if self.length_counter > 0 && !self.length_halt {
            Noise { length_counter: (self.length_counter - 1) as u8, ..self }
        } else {
            self
        }
    }

    fn clock_length(&mut self)
        ensures
            *final(self) == old(self).after_length(),
    {
        if self.length_counter > 0 && !self.length_halt {
            self.length_counter = self.length_counter - 1;
        }
    }

    /// Output 0-15: silent when disabled, with the length counter at 0 or bit 0 of the
    /// shift register set; else the constant volume or the envelope level.
    pub open spec fn spec_output(&self) -> u8 {
        if !self.enabled || self.length_counter == 0 || self.lfsr & 1 != 0 {
            0
        } else if self.env_disable {
            self.vol
        } else {
            self.env_decay
        }
    }

    fn output(&self) -> (r: u8)
        requires
            self.wf(),
        ensures
            r == self.spec_output(),
            r < 16,
    {
        if !self.enabled || self.length_counter == 0 || self.lfsr & 1 != 0 {
            0
        } else if self.env_disable {
            self.vol
        } else {
            self.env_decay
        }
    }
}

// ---------------------------------------------------------------------------
// DMC channel
// ---------------------------------------------------------------------------
#[derive(Clone, Copy)]
pub struct Dmc {
    pub rate_index: u8,
    pub loop_flag: bool,
    pub irq_enable: bool,
    pub dac: u8,
    pub sample_addr: u16,
    pub sample_addr_load: u16,
    pub sample_len: u16,
    pub enabled: bool,
    pub sample_buffer: u8,
    pub buffer_empty: bool,
    pub bits_remaining: u8,
    pub output_level: u8,
    pub dma_needed: bool,
    pub bytes_remaining: u16,
    pub timer: u16,
    pub timer_load: u16,
    pub irq: bool,
}

impl Dmc {
    /// The output level stays a 7-bit value.
    pub open spec fn wf(&self) -> bool {
        self.output_level <= 127
    }

    /// Power-on state: buffer empty, timer at 1, reload from the first rate.
    pub open spec fn power_on() -> Self {
        Dmc {
            rate_index: 0,
            loop_flag: false,
            irq_enable: false,
            dac: 0,
            sample_addr: 0,
            sample_addr_load: 0,
            sample_len: 0,
            enabled: false,
            sample_buffer: 0,
            buffer_empty: true,
            bits_remaining: 0,
            output_level: 0,
            dma_needed: false,
            bytes_remaining: 0,
            timer: 1,
            timer_load: dmc_rate(0),
            irq: false,
        }
    }

    pub fn new() -> (r: Self)
        ensures
            r.wf(),
            r == Self::power_on(),
    {
        Dmc {
            rate_index: 0,
            loop_flag: false,
            irq_enable: false,
            dac: 0,
            sample_addr: 0,
            sample_addr_load: 0,
            sample_len: 0,
            enabled: false,
            sample_buffer: 0,
            buffer_empty: true,
            bits_remaining: 0,
            output_level: 0,
            dma_needed: false,
            bytes_remaining: 0,
            timer: 1,
            timer_load: dmc_rate_lookup(0),
            irq: false,
        }
    }

    /// Restart the sample from its configured address and length.
    pub open spec fn after_restart(self) -> Dmc {
        Dmc {
            sample_addr: self.sample_addr_load,
            bytes_remaining: self.sample_len,
            buffer_empty: true,
            bits_remaining: 0,
            ..self
        }
    }

    fn restart(&mut self)
        ensures
            *final(self) == old(self).after_restart(),
    {
        self.sample_addr = self.sample_addr_load;
        self.bytes_remaining = self.sample_len;
        self.buffer_empty = true;
        self.bits_remaining = 0;
    }

    /// The sample buffer has run out: request the next byte, restart a looping sample,
    /// or raise the IRQ when enabled.
    pub open spec fn after_buffer_end(self) -> Dmc {
        let d = Dmc { buffer_empty: true, ..self };
        if d.bytes_remaining > 0 {
            Dmc { dma_needed: true, ..d }
        } else if d.loop_flag {
            Dmc { dma_needed: true, ..d.after_restart() }
        } else if d.irq_enable {
            Dmc { irq: true, ..d }
        } else {
            d
        }
    }

    /// One CPU cycle of the output unit: the timer counts down; on expiry it reloads
    /// (at least 1), an empty buffer requests a DMA, and otherwise one bit (LSB first)
    /// moves the output level up or down by 2 within 0-127.
    pub open spec fn after_step(self) -> Dmc {
        if self.timer > 0 {
            Dmc { timer: (self.timer - 1) as u16, ..self }
        } else {
            let d = Dmc { timer: if self.timer_load == 0 { 1 } else { self.timer_load }, ..self };
            if d.buffer_empty {
                if d.bytes_remaining > 0 && !d.dma_needed { Dmc { dma_needed: true, ..d } } else { d }
            } else if d.bits_remaining == 0 {
                d.after_buffer_end()
            } else {
                let bit = d.sample_buffer & 1;
                let level = if bit == 1 {
                    if d.output_level <= 125 { (d.output_level + 2) as u8 } else { d.output_level }
                } else {
                    if d.output_level >= 2 { (d.output_level - 2) as u8 } else { d.output_level }
                };
                let e = Dmc {
                    sample_buffer: d.sample_buffer >> 1u8,
                    bits_remaining: (d.bits_remaining - 1) as u8,
                    output_level: level,
                    ..d
                };
                if e.bits_remaining == 0 { e.after_buffer_end() } else { e }
            }
        }
    }

    fn buffer_end(&mut self)
        ensures
            *final(self) == old(self).after_buffer_end(),
    {
        self.buffer_empty = true;
        if self.bytes_remaining > 0 {
            self.dma_needed = true;
        } else if self.loop_flag {
            self.restart();
            self.dma_needed = true;
        } else if self.irq_enable {
            self.irq = true;
        }
    }

    /// Returns whether this step requires a DMA read: it raised `dma_needed`.
    fn step(&mut self) -> (r: bool)
        requires
            old(self).wf(),
        ensures
            *final(self) == old(self).after_step(),
            final(self).wf(),
            r == (final(self).dma_needed && !old(self).dma_needed),
    {
        let was = self.dma_needed;
        if self.timer > 0 {
            self.timer = self.timer - 1;
            return self.dma_needed && !was;
        }
        self.timer = if self.timer_load == 0 { 1 } else { self.timer_load };
        if self.buffer_empty {
            if self.bytes_remaining > 0 && !self.dma_needed {
                self.dma_needed = true;
            }
            return self.dma_needed && !was;
        }
        if self.bits_remaining == 0 {
            self.buffer_end();
            return self.dma_needed && !was;
        }
        let bit = self.sample_buffer & 1;
        self.sample_buffer = self.sample_buffer >> 1;
        self.bits_remaining = self.bits_remaining - 1;
        if bit == 1 {
            if self.output_level <= 125 {
                self.output_level = self.output_level + 2;
            }
        } else {
            if self.output_level >= 2 {
                self.output_level = self.output_level - 2;
            }
        }
        if self.bits_remaining == 0 {
            self.buffer_end();
        }
        self.dma_needed && !was
    }

    /// A DMA byte arrives: it fills the buffer (8 bits), the request clears, one fewer
    /// byte remains, and the address advances, wrapping from $FFFF to $8000.
    pub open spec fn after_dma_read(self, val: u8) -> Dmc {
        Dmc {
            sample_buffer: val,
            bits_remaining: 8,
            buffer_empty: false,
            dma_needed: false,
            bytes_remaining: if self.bytes_remaining > 0 { (self.bytes_remaining - 1) as u16 } else { 0 },
            sample_addr: if self.sample_addr == 0xFFFF { 0x8000 } else { (self.sample_addr + 1) as u16 },
            ..self
        }
    }

    fn dma_read(&mut self, val: u8)
        ensures
            *final(self) == old(self).after_dma_read(val),
    {
        self.sample_buffer = val;
        self.bits_remaining = 8;
        self.buffer_empty = false;
        self.dma_needed = false;
        self.bytes_remaining = self.bytes_remaining.saturating_sub(1);
        self.sample_addr = if self.sample_addr == 0xFFFF {
            0x8000
        } else {
            self.sample_addr.wrapping_add(1)
        };
    }

    /// Output level: 0 while the channel is disabled.
    pub open spec fn spec_output(&self) -> u8 {
        if !self.enabled { 0 } else { self.output_level }
    }

    fn output(&self) -> (r: u8)
        ensures
            r == self.spec_output(),
    {
        if !self.enabled {
            return 0;
        }
        self.output_level
    }
}

// ---------------------------------------------------------------------------
// APU
// ---------------------------------------------------------------------------
/// CPU clock rate (cycles per second): the time base of the audio sample clock.
pub const CPU_HZ: u64 = 1_789_773;

/// Number of mixer snapshots the sample buffer holds.
pub const SAMPLE_BUFFER_LEN: usize = 4096;

/// Output levels of the five channels at one audio sample point (the mixer's inputs).
#[derive(Clone, Copy)]
pub struct ChannelLevels {
    pub pulse1: u8,
    pub pulse2: u8,
    pub triangle: u8,
    pub noise: u8,
    pub dmc: u8,
}

pub struct Apu {
    pub cycles: u64,
    /// CPU cycles since the last APU (half-rate) clock: 0 or 1.
    pub apu_phase: u64,
    pub p1: Pulse,
    pub p2: Pulse,
    pub triangle: Triangle,
    pub noise: Noise,
    pub dmc: Dmc,
    /// Mixer inputs captured at each audio sample point; the first `sample_count` are valid.
    pub audio_samples: [ChannelLevels; 4096],
    pub sample_count: usize,
    /// Audio samples per second.
    pub sample_rate: u64,
    /// Sample clock accumulator, in units of 1/`sample_rate` CPU cycles... kept below `CPU_HZ`.
    pub sample_acc: u64,
    pub frame_cycles: u32,
    pub frame_mode: bool,
    pub interrupt_inhibit: bool,
    pub frame_irq: bool,
    pub fc_delay: u8,
    pub fc_write_pending: bool,
    pub fc_pending_mode: bool,
    pub fc_pending_inhibit: bool,
}

impl Apu {
    pub open spec fn wf(&self) -> bool {
        &&& self.p1.wf()
        &&& self.p2.wf()
        &&& self.triangle.wf()
        &&& self.noise.wf()
        &&& self.dmc.wf()
        &&& self.apu_phase < 2
        &&& self.sample_count <= SAMPLE_BUFFER_LEN
        &&& self.sample_rate <= CPU_HZ
        &&& self.sample_acc < CPU_HZ
        &&& self.frame_cycles < 18641
    }

    /// The power-on state: every channel in its power-on state, the frame counter at
    /// its start in 4-step mode with nothing pending, no sample taken yet.
    pub open spec fn powered_on(&self) -> bool {
        &&& self.cycles == 0 && self.apu_phase == 0
        &&& self.p1 == Pulse::new_spec(true)
        &&& self.p2 == Pulse::new_spec(false)
        &&& self.triangle == Triangle::power_on()
        &&& self.noise == Noise::power_on()
        &&& self.dmc == Dmc::power_on()
        &&& self.sample_count == 0
        &&& self.sample_rate == 44100
        &&& self.sample_acc == 0
        &&& self.frame_cycles == 0 && !self.frame_mode && !self.interrupt_inhibit && !self.frame_irq
        &&& self.fc_delay == 0 && !self.fc_write_pending && !self.fc_pending_mode && !self.fc_pending_inhibit
    }

    pub fn new() -> (r: Self)
        ensures
            r.wf(),
            r.cycles == 0 && r.apu_phase == 0,
            r.p1 == Pulse::new_spec(true),
            r.p2 == Pulse::new_spec(false),
            r.dmc.buffer_empty && r.dmc.timer == 1 && r.dmc.timer_load == dmc_rate(0),
            r.sample_count == 0,
            r.sample_rate == 44100,
            r.sample_acc == 0,
            r.frame_cycles == 0 && !r.frame_mode && !r.interrupt_inhibit && !r.frame_irq,
            r.fc_delay == 0 && !r.fc_write_pending,
            r.powered_on(),
    {
        let z = ChannelLevels { pulse1: 0, pulse2: 0, triangle: 0, noise: 0, dmc: 0 };
        Apu {
            cycles: 0,
            apu_phase: 0,
            p1: Pulse::new(true),
            p2: Pulse::new(false),
            triangle: Triangle::new(),
            noise: Noise::new(),
            dmc: Dmc::new(),
            audio_samples: [z; 4096],
            sample_count: 0,
            sample_rate: 44100,
            sample_acc: 0,
            frame_cycles: 0,
            frame_mode: false,
            interrupt_inhibit: false,
            frame_irq: false,
            fc_delay: 0,
            fc_write_pending: false,
            fc_pending_mode: false,
            fc_pending_inhibit: false,
        }
    }

    /// Empties the sample buffer (after the front end has taken the samples).
    pub fn clear_audio(&mut self)
        requires
            old(self).wf(),
        ensures
            *final(self) == (Apu { sample_count: 0, ..*old(self) }),
            final(self).wf(),
    {
        self.sample_count = 0;
    }

    /// Sets the audio sample rate (samples per second, at most the CPU clock rate).
    pub fn set_sample_rate(&mut self, rate: u64)
        requires
            old(self).wf(),
            rate <= CPU_HZ,
        ensures
            *final(self) == (Apu { sample_rate: rate, ..*old(self) }),
            final(self).wf(),
    {
        self.sample_rate = rate;
    }

    pub fn dmc_dma_pending(&self) -> (r: bool)
        ensures
            r == self.dmc.dma_needed,
    {
        self.dmc.dma_needed
    }

    /// Whether a DMC DMA fires within `cpu_cycles` CPU cycles: already requested, or the
    /// channel is enabled with bytes left (or looping) and its timer is that low.
    pub fn dmc_dma_imminent(&self, cpu_cycles: u16) -> (r: bool)
        ensures
            r == (self.dmc.dma_needed || (self.dmc.enabled && (self.dmc.bytes_remaining > 0
                || self.dmc.loop_flag) && self.dmc.timer <= cpu_cycles)),
    {
        if self.dmc.dma_needed {
            return true;
        }
        if self.dmc.enabled {
            let will_have_bytes = self.dmc.bytes_remaining > 0 || self.dmc.loop_flag;
            if will_have_bytes && self.dmc.timer <= cpu_cycles {
                return true;
            }
        }
        false
    }

    /// Completes a DMC DMA with the byte read from the sample address.
    pub fn dmc_complete_dma(&mut self, val: u8)
        requires
            old(self).wf(),
        ensures
            *final(self) == (Apu { dmc: old(self).dmc.after_dma_read(val), ..*old(self) }),
            final(self).wf(),
    {
        self.dmc.dma_read(val);
    }

    pub fn apu_irq_pending(&self) -> (r: bool)
        ensures
            r == self.frame_irq,
    {
        self.frame_irq
    }

    pub fn dmc_sample_address(&self) -> (r: u16)
        ensures
            r == self.dmc.sample_addr,
    {
        self.dmc.sample_addr
    }

    /// Clocks only the DMC output unit by one CPU cycle.
    #[inline(always)]
    pub fn tick_dmc(&mut self)
        requires
            old(self).wf(),
        ensures
            *final(self) == (Apu { dmc: old(self).dmc.after_step(), ..*old(self) }),
            final(self).wf(),
    {
        self.dmc.step();
    }

    /// A copy of the DMC state.
    pub fn save_dmc(&self) -> (r: Dmc)
        ensures
            r == self.dmc,
    {
        self.dmc
    }

    /// Puts back a saved DMC state.
    pub fn restore_dmc(&mut self, saved: &Dmc)
        requires
            old(self).wf(),
            saved.wf(),
        ensures
            *final(self) == (Apu { dmc: *saved, ..*old(self) }),
            final(self).wf(),
    {
        self.dmc = *saved;
    }

    /// Quarter-frame clock: envelopes and the triangle's linear counter.
    pub open spec fn after_quarter(self) -> Apu {
        Apu {
            p1: self.p1.after_envelope(),
            p2: self.p2.after_envelope(),
            noise: self.noise.after_envelope(),
            triangle: self.triangle.after_linear(),
            ..self
        }
    }

    /// Half-frame clock: length counters and sweeps.
    pub open spec fn after_half(self) -> Apu {
        Apu {
            p1: self.p1.after_length().after_sweep(),
            p2: self.p2.after_length().after_sweep(),
            triangle: self.triangle.after_length(),
            noise: self.noise.after_length(),
            ..self
        }
    }

    fn clock_quarter_frame(&mut self)
        requires
            old(self).wf(),
        ensures
            *final(self) == old(self).after_quarter(),
            final(self).wf(),
    {
        self.p1.clock_envelope();
        self.p2.clock_envelope();
        self.noise.clock_envelope();
        self.triangle.clock_linear_counter();
    }

    fn clock_half_frame(&mut self)
        requires
            old(self).wf(),
        ensures
            *final(self) == old(self).after_half(),
            final(self).wf(),
    {
        self.p1.clock_length();
        self.p2.clock_length();
        self.p1.clock_sweep();
        self.p2.clock_sweep();
        self.triangle.clock_length();
        self.noise.clock_length();
    }

    /// One APU (half-rate) clock of the frame sequencer. Events fall at the end of the
    /// sequencer cycles 3728, 7456, 11185 and 14913 (4-step mode, which also raises the
    /// frame IRQ at 14913 unless inhibited) or 18640 (5-step mode); half-frame events at
    /// 7456 and at the last step. The sequence wraps after 14914 or 18641 clocks.
    pub open spec fn after_frame_counter(self) -> Apu {
        let fc = self.frame_cycles;
        let last: u32 = if self.frame_mode { 18640 } else { 14913 };
        let quarter = fc == 3728 || fc == 7456 || fc == 11185 || fc == last;
        let half = fc == 7456 || fc == last;
        let a = if quarter { self.after_quarter() } else { self };
        let b = if half { a.after_half() } else { a };
        let c = if !self.frame_mode && fc == 14913 && !self.interrupt_inhibit {
            Apu { frame_irq: true, ..b }
        } else {
            b
        };
        let next = fc + 1;
        Apu { frame_cycles: if next > last { 0 } else { next as u32 }, ..c }
    }

    fn clock_frame_counter(&mut self)
        requires
            old(self).wf(),
        ensures
            *final(self) == old(self).after_frame_counter(),
            final(self).wf(),
    {
        if self.frame_mode {
            let fc = self.frame_cycles;
            if fc == 3728 || fc == 7456 || fc == 11185 || fc == 18640 {
                self.clock_quarter_frame();
            }
            if fc == 7456 || fc == 18640 {
                self.clock_half_frame();
            }
        } else {
            let fc = self.frame_cycles;
            if fc == 3728 || fc == 7456 || fc == 11185 || fc == 14913 {
                self.clock_quarter_frame();
            }
            if fc == 7456 || fc == 14913 {
                self.clock_half_frame();
            }
            if self.frame_cycles == 14913 && !self.interrupt_inhibit {
                self.frame_irq = true;
            }
        }
        self.frame_cycles = self.frame_cycles + 1;
        if (self.frame_mode && self.frame_cycles >= 18641) || (!self.frame_mode && self.frame_cycles
            >= 14914) {
            self.frame_cycles = 0;
        }
    }

    /// The mixer inputs as the channels stand.
    pub open spec fn spec_levels(&self) -> ChannelLevels {
        ChannelLevels {
            pulse1: self.p1.spec_output(),
            pulse2: self.p2.spec_output(),
            triangle: self.triangle.spec_output(),
            noise: self.noise.spec_output(),
            dmc: self.dmc.spec_output(),
        }
    }

    fn levels(&self) -> (r: ChannelLevels)
        requires
            self.wf(),
        ensures
            r == self.spec_levels(),
    {
        ChannelLevels {
            pulse1: self.p1.volume_output(),
            pulse2: self.p2.volume_output(),
            triangle: self.triangle.output(),
            noise: self.noise.output(),
            dmc: self.dmc.output(),
        }
    }

    /// A delayed $4017 write takes effect when its countdown reaches 0: new mode and
    /// inhibit (inhibit clears the frame IRQ), sequencer restart, and in 5-step mode an
    /// immediate quarter- and half-frame clock.
    pub open spec fn after_fc_delay(self) -> Apu {
        if self.fc_delay > 0 {
            let d = Apu { fc_delay: (self.fc_delay - 1) as u8, ..self };
            if d.fc_delay == 0 && d.fc_write_pending {
                let e = Apu {
                    frame_mode: d.fc_pending_mode,
                    interrupt_inhibit: d.fc_pending_inhibit,
                    frame_irq: if d.fc_pending_inhibit { false } else { d.frame_irq },
                    frame_cycles: 0,
                    ..d
                };
                let f = if e.frame_mode { e.after_quarter().after_half() } else { e };
                Apu { fc_write_pending: false, ..f }
            } else {
                d
            }
        } else {
            self
        }
    }

    /// The audio sample clock: every `CPU_HZ / sample_rate` CPU cycles (on average) the
    /// mixer inputs are captured, while the buffer has room.
    pub open spec fn after_sample_clock(self) -> Apu {
        let acc = self.sample_acc + self.sample_rate;
        if acc >= CPU_HZ {
            let a = Apu { sample_acc: (acc - CPU_HZ) as u64, ..self };
            if a.sample_count < SAMPLE_BUFFER_LEN {
                Apu {
                    audio_samples: vstd::array::spec_array_update(
                        a.audio_samples,
                        a.sample_count as int,
                        a.spec_levels(),
                    ),
                    sample_count: (a.sample_count + 1) as usize,
                    ..a
                }
            } else {
                a
            }
        } else {
            Apu { sample_acc: acc as u64, ..self }
        }
    }

    /// One CPU cycle of the APU: the $4017 delay, the DMC unit (unless excluded), the
    /// triangle and noise timers, every second cycle the pulse timers and the frame
    /// sequencer, then the sample clock.
    pub open spec fn after_cycle(self, with_dmc: bool) -> Apu {
        let a = Apu { cycles: ((self.cycles + 1) % 0x1_0000_0000_0000_0000) as u64, ..self };
        let b = a.after_fc_delay();
        let c = if with_dmc { Apu { dmc: b.dmc.after_step(), ..b } } else { b };
        let d = Apu {
            triangle: c.triangle.after_step_timer(),
            noise: c.noise.after_step_timer(),
            ..c
        };
        let e = if d.apu_phase + 1 >= 2 {
            Apu {
                apu_phase: 0,
                p1: d.p1.after_step_timer(),
                p2: d.p2.after_step_timer(),
                ..d
            }.after_frame_counter()
        } else {
            Apu { apu_phase: (d.apu_phase + 1) as u64, ..d }
        };
        e.after_sample_clock()
    }

    /// `n` CPU cycles of the APU.
    pub open spec fn after_cycles(self, n: nat, with_dmc: bool) -> Apu
        decreases n,
    {
        if n == 0 {
            self
        } else {
            self.after_cycles((n - 1) as nat, with_dmc).after_cycle(with_dmc)
        }
    }

    fn fc_delay_step(&mut self)
        requires
            old(self).wf(),
        ensures
            *final(self) == old(self).after_fc_delay(),
            final(self).wf(),
    {
        if self.fc_delay > 0 {
            self.fc_delay = self.fc_delay - 1;
            if self.fc_delay == 0 && self.fc_write_pending {
                self.frame_mode = self.fc_pending_mode;
                self.interrupt_inhibit = self.fc_pending_inhibit;
                if self.interrupt_inhibit {
                    self.frame_irq = false;
                }
                self.frame_cycles = 0;
                if self.frame_mode {
                    self.clock_quarter_frame();
                    self.clock_half_frame();
                }
                self.fc_write_pending = false;
            }
        }
    }

    fn half_rate_step(&mut self)
        requires
            old(self).wf(),
        ensures
            *final(self) == (if old(self).apu_phase + 1 >= 2 {
                Apu {
                    apu_phase: 0,
                    p1: old(self).p1.after_step_timer(),
                    p2: old(self).p2.after_step_timer(),
                    ..*old(self)
                }.after_frame_counter()
            } else {
                Apu { apu_phase: (old(self).apu_phase + 1) as u64, ..*old(self) }
            }),
            final(self).wf(),
    {
        self.apu_phase = self.apu_phase + 1;
        if self.apu_phase >= 2 {
            self.apu_phase = self.apu_phase - 2;
            self.p1.step_timer();
            self.p2.step_timer();
            self.clock_frame_counter();
        }
    }

    fn sample_clock(&mut self)
        requires
            old(self).wf(),
        ensures
            *final(self) == old(self).after_sample_clock(),
            final(self).wf(),
    {
        self.sample_acc = self.sample_acc + self.sample_rate;
        if self.sample_acc >= CPU_HZ {
            self.sample_acc = self.sample_acc - CPU_HZ;
            if self.sample_count < SAMPLE_BUFFER_LEN {
                let lv = self.levels();
                let i = self.sample_count;
                self.audio_samples[i] = lv;
                self.sample_count = i + 1;
            }
        }
    }

    #[verifier::rlimit(60)]
    #[verifier::spinoff_prover]
    fn cycle(&mut self, with_dmc: bool)
        requires
            old(self).wf(),
        ensures
            *final(self) == old(self).after_cycle(with_dmc),
            final(self).wf(),
    {
        self.cycles = self.cycles.wrapping_add(1);
        self.fc_delay_step();
        if with_dmc {
            self.dmc.step();
        }
        self.triangle.step_timer();
        self.noise.step_timer();
        self.half_rate_step();
        self.sample_clock();
    }

    /// Runs every APU unit for `cpu_cycles` CPU cycles.
    pub fn tick(&mut self, cpu_cycles: u16)
        requires
            old(self).wf(),
        ensures
            *final(self) == old(self).after_cycles(cpu_cycles as nat, true),
            final(self).wf(),
    {
        let mut i: u16 = 0;
        while i < cpu_cycles
            invariant
                i <= cpu_cycles,
                self.wf(),
                *self == old(self).after_cycles(i as nat, true),
            decreases cpu_cycles - i,
        {
            self.cycle(true);
            i = i + 1;
        }
    }

    /// Runs every APU unit but the DMC (which the bus clocks per access) for `cpu_cycles` CPU cycles.
    pub fn tick_without_dmc(&mut self, cpu_cycles: u16)
        requires
            old(self).wf(),
        ensures
            *final(self) == old(self).after_cycles(cpu_cycles as nat, false),
            final(self).wf(),
    {
        let mut i: u16 = 0;
        while i < cpu_cycles
            invariant
                i <= cpu_cycles,
                self.wf(),
                *self == old(self).after_cycles(i as nat, false),
            decreases cpu_cycles - i,
        {
            self.cycle(false);
            i = i + 1;
        }
    }
}

impl Pulse {
    pub open spec fn new_spec(is_pulse1: bool) -> Pulse {
        Pulse {
            enabled: false,
            duty: 0,
            vol: 0,
            timer_load: 0,
            timer_val: 0,
            duty_step: 0,
            env_start: false,
            env_disable: false,
            env_divider: 0,
            env_decay: 0,
            length_counter: 0,
            length_halt: false,
            sweep_enabled: false,
            sweep_period: 0,
            sweep_negate: false,
            sweep_shift: 0,
            sweep_divider: 0,
            sweep_reload: false,
            is_pulse1,
        }
    }
}


// ---------------------------------------------------------------------------
// Register writes, per channel
// ---------------------------------------------------------------------------
impl Pulse {
    /// The channel's bit of a $4015 write: disabling clears the length counter.
    fn set_enabled(&mut self, enable: bool)
        requires
            old(self).wf(),
        ensures
            *final(self) == (Pulse {
                enabled: enable,
                length_counter: if enable { old(self).length_counter } else { 0 },
                ..*old(self)
            }),
            final(self).wf(),
    {
        self.enabled = enable;
        if !enable {
            self.length_counter = 0;
        }
    }

    /// $4000/$4004: duty (bits 6-7), length halt (bit 5), constant volume (bit 4), volume.
    pub open spec fn after_write_control(self, val: u8) -> Pulse {
        Pulse {
            duty: val >> 6,
            length_halt: val & 0x20 != 0,
            env_disable: val & 0x10 != 0,
            vol: val & 0x0F,
            ..self
        }
    }

    /// $4001/$4005: sweep enable (bit 7), divider period P + 1 (bits 4-6), negate (bit 3),
    /// shift (bits 0-2); the divider reloads on the next half frame.
    pub open spec fn after_write_sweep(self, val: u8) -> Pulse {
        Pulse {
            sweep_enabled: val & 0x80 != 0,
            sweep_period: (((val >> 4) & 7) + 1) as u8,
            sweep_negate: val & 0x08 != 0,
            sweep_shift: val & 0x07,
            sweep_reload: true,
            ..self
        }
    }

    /// $4002/$4006: the low 8 bits of the timer period.
    pub open spec fn after_write_timer_lo(self, val: u8) -> Pulse {
        Pulse { timer_load: (self.timer_load & 0xFF00) | (val as u16), ..self }
    }

    /// $4003/$4007: the high 3 bits of the period (the timer reloads at once), the
    /// sequencer and envelope restart, and while enabled the length counter loads
    /// from bits 3-7.
    pub open spec fn after_write_timer_hi(self, val: u8) -> Pulse {
        let t = ((self.timer_load & 0x00FF) | (((val as u16) & 7) << 8)) as u16;
        Pulse {
            timer_load: t,
            timer_val: t,
            duty_step: 0,
            env_start: true,
            length_counter: if self.enabled {
                length_table((val >> 3) as int)
            } else {
                self.length_counter
            },
            ..self
        }
    }

    fn write_control(&mut self, val: u8)
        requires
            old(self).wf(),
        ensures
            *final(self) == old(self).after_write_control(val),
            final(self).wf(),
    {
        proof {
            crate::bits::lemma_byte_bits(val);
        }
        self.duty = val >> 6;
        self.length_halt = val & 0x20 != 0;
        self.env_disable = val & 0x10 != 0;
        self.vol = val & 0x0F;
    }

    fn write_sweep(&mut self, val: u8)
        requires
            old(self).wf(),
        ensures
            *final(self) == old(self).after_write_sweep(val),
            final(self).wf(),
    {
        proof {
            crate::bits::lemma_byte_bits(val);
        }
        self.sweep_enabled = val & 0x80 != 0;
        self.sweep_period = ((val >> 4) & 7) + 1;
        self.sweep_negate = val & 0x08 != 0;
        self.sweep_shift = val & 0x07;
        self.sweep_reload = true;
    }

    fn write_timer_lo(&mut self, val: u8)
        requires
            old(self).wf(),
        ensures
            *final(self) == old(self).after_write_timer_lo(val),
            final(self).wf(),
    {
        let t = self.timer_load;
        proof {
            crate::bits::lemma_timer_bytes(t, val);
        }
        self.timer_load = (t & 0xFF00) | val as u16;
    }

    fn write_timer_hi(&mut self, val: u8)
        requires
            old(self).wf(),
        ensures
            *final(self) == old(self).after_write_timer_hi(val),
            final(self).wf(),
    {
        let t = self.timer_load;
        proof {
            crate::bits::lemma_timer_bytes(t, val);
            crate::bits::lemma_byte_bits(val);
        }
        self.timer_load = (t & 0x00FF) | ((val as u16 & 7) << 8);
        self.timer_val = self.timer_load;
        self.duty_step = 0;
        self.env_start = true;
        if self.enabled {
            self.length_counter = length_lookup(val >> 3);
        }
    }
}

impl Triangle {
    /// The channel's bit of a $4015 write: disabling clears the length counter.
    fn set_enabled(&mut self, enable: bool)
        requires
            old(self).wf(),
        ensures
            *final(self) == (Triangle {
                enabled: enable,
                length_counter: if enable { old(self).length_counter } else { 0 },
                ..*old(self)
            }),
            final(self).wf(),
    {
        self.enabled = enable;
        if !enable {
            self.length_counter = 0;
        }
    }

    /// $4008: bit 7 is both the linear-counter control and the length halt; bits 0-6
    /// are the linear reload value, and a reload is requested.
    pub open spec fn after_write_linear(self, val: u8) -> Triangle {
        Triangle {
            control_flag: val & 0x80 != 0,
            length_halt: val & 0x80 != 0,
            linear_counter_reload: val & 0x7F,
            linear_reload: true,
            ..self
        }
    }

    /// $400A: the low 8 bits of the timer period.
    pub open spec fn after_write_timer_lo(self, val: u8) -> Triangle {
        Triangle { timer_load: (self.timer_load & 0xFF00) | (val as u16), ..self }
    }

    /// $400B: the high 3 bits of the period (the timer reloads at once), a linear
    /// reload, and while enabled a length load from bits 3-7.
    pub open spec fn after_write_timer_hi(self, val: u8) -> Triangle {
        let t = ((self.timer_load & 0x00FF) | (((val as u16) & 7) << 8)) as u16;
        Triangle {
            timer_load: t,
            timer_val: t,
            linear_reload: true,
            length_counter: if self.enabled {
                length_table((val >> 3) as int)
            } else {
                self.length_counter
            },
            ..self
        }
    }

    fn write_linear(&mut self, val: u8)
        requires
            old(self).wf(),
        ensures
            *final(self) == old(self).after_write_linear(val),
            final(self).wf(),
    {
        let control = val & 0x80 != 0;
        self.control_flag = control;
        self.length_halt = control;
        self.linear_counter_reload = val & 0x7F;
        self.linear_reload = true;
    }

    fn write_timer_lo(&mut self, val: u8)
        requires
            old(self).wf(),
        ensures
            *final(self) == old(self).after_write_timer_lo(val),
            final(self).wf(),
    {
        self.timer_load = (self.timer_load & 0xFF00) | val as u16;
    }

    fn write_timer_hi(&mut self, val: u8)
        requires
            old(self).wf(),
        ensures
            *final(self) == old(self).after_write_timer_hi(val),
            final(self).wf(),
    {
        proof {
            crate::bits::lemma_byte_bits(val);
        }
        self.timer_load = (self.timer_load & 0x00FF) | ((val as u16 & 7) << 8);
        self.timer_val = self.timer_load;
        self.linear_reload = true;
        if self.enabled {
            self.length_counter = length_lookup(val >> 3);
        }
    }
}

impl Noise {
    /// The channel's bit of a $4015 write: disabling clears the length counter.
    fn set_enabled(&mut self, enable: bool)
        requires
            old(self).wf(),
        ensures
            *final(self) == (Noise {
                enabled: enable,
                length_counter: if enable { old(self).length_counter } else { 0 },
                ..*old(self)
            }),
            final(self).wf(),
    {
        self.enabled = enable;
        if !enable {
            self.length_counter = 0;
        }
    }

    /// $400C: length halt (bit 5), constant volume (bit 4), volume (bits 0-3).
    pub open spec fn after_write_control(self, val: u8) -> Noise {
        Noise {
            length_halt: val & 0x20 != 0,
            env_disable: val & 0x10 != 0,
            vol: val & 0x0F,
            ..self
        }
    }

    /// $400E: mode (bit 7) and period index (bits 0-3); the timer reloads from one
    /// less than the period.
    pub open spec fn after_write_period(self, val: u8) -> Noise {
        Noise {
            mode: val & 0x80 != 0,
            period_index: val & 0x0F,
            timer_load: noise_period((val & 0x0F) as int).saturating_sub(1),
            ..self
        }
    }

    /// $400F: the envelope restarts, and while enabled the length counter loads from
    /// bits 3-7.
    pub open spec fn after_write_length(self, val: u8) -> Noise {
        Noise {
            env_start: true,
            length_counter: if self.enabled {
                length_table((val >> 3) as int)
            } else {
                self.length_counter
            },
            ..self
        }
    }

    fn write_control(&mut self, val: u8)
        requires
            old(self).wf(),
        ensures
            *final(self) == old(self).after_write_control(val),
            final(self).wf(),
    {
        proof {
            crate::bits::lemma_byte_bits(val);
        }
        self.length_halt = val & 0x20 != 0;
        self.env_disable = val & 0x10 != 0;
        self.vol = val & 0x0F;
    }

    fn write_period(&mut self, val: u8)
        requires
            old(self).wf(),
        ensures
            *final(self) == old(self).after_write_period(val),
            final(self).wf(),
    {
        proof {
            crate::bits::lemma_byte_bits(val);
        }
        self.mode = val & 0x80 != 0;
        self.period_index = val & 0x0F;
        self.timer_load = noise_period_lookup(self.period_index).saturating_sub(1);
    }

    fn write_length(&mut self, val: u8)
        requires
            old(self).wf(),
        ensures
            *final(self) == old(self).after_write_length(val),
            final(self).wf(),
    {
        proof {
            crate::bits::lemma_byte_bits(val);
        }
        self.env_start = true;
        if self.enabled {
            self.length_counter = length_lookup(val >> 3);
        }
    }
}

impl Dmc {
    /// $4010: IRQ enable (bit 7; clearing it drops a pending IRQ), loop (bit 6) and
    /// rate index (bits 0-3), which selects the timer period.
    pub open spec fn after_write_control(self, val: u8) -> Dmc {
        let irq_enable = val & 0x80 != 0;
        Dmc {
            irq_enable,
            loop_flag: val & 0x40 != 0,
            rate_index: val & 0x0F,
            timer_load: dmc_rate((val & 0x0F) as int),
            irq: if irq_enable { self.irq } else { false },
            ..self
        }
    }

    /// $4011: the 7-bit DAC value, which becomes the output level at once.
    pub open spec fn after_write_dac(self, val: u8) -> Dmc {
        Dmc { dac: val & 0x7F, output_level: val & 0x7F, ..self }
    }

    /// $4012: the sample starts at $C000 + 64 * val.
    pub open spec fn after_write_address(self, val: u8) -> Dmc {
        Dmc { sample_addr_load: (0xC000 + 64 * val) as u16, ..self }
    }

    /// $4013: the sample is 16 * val + 1 bytes long.
    pub open spec fn after_write_length(self, val: u8) -> Dmc {
        Dmc { sample_len: (16 * val + 1) as u16, ..self }
    }

    /// The DMC part of a $4015 write: a rising enable restarts the sample, a clear
    /// enable stops it, and the DMC IRQ is acknowledged either way.
    pub open spec fn after_write_enable(self, enable: bool) -> Dmc {
        let d = Dmc { enabled: enable, ..self };
        let e = if enable && !self.enabled {
            d.after_restart()
        } else if !enable {
            Dmc { bytes_remaining: 0, bits_remaining: 0, buffer_empty: true, dma_needed: false, ..d }
        } else {
            d
        };
        Dmc { irq: false, ..e }
    }

    fn write_control(&mut self, val: u8)
        requires
            old(self).wf(),
        ensures
            *final(self) == old(self).after_write_control(val),
            final(self).wf(),
    {
        proof {
            crate::bits::lemma_byte_bits(val);
        }
        self.irq_enable = val & 0x80 != 0;
        self.loop_flag = val & 0x40 != 0;
        self.rate_index = val & 0x0F;
        self.timer_load = dmc_rate_lookup(self.rate_index);
        if !self.irq_enable {
            self.irq = false;
        }
    }

    fn write_dac(&mut self, val: u8)
        requires
            old(self).wf(),
        ensures
            *final(self) == old(self).after_write_dac(val),
            final(self).wf(),
    {
        proof {
            crate::bits::lemma_byte_bits(val);
        }
        self.dac = val & 0x7F;
        self.output_level = self.dac;
    }

    fn write_address(&mut self, val: u8)
        ensures
            *final(self) == old(self).after_write_address(val),
    {
        proof {
            crate::bits::lemma_byte_bits(val);
        }
        self.sample_addr_load = 0xC000 | ((val as u16) << 6);
    }

    fn write_length(&mut self, val: u8)
        ensures
            *final(self) == old(self).after_write_length(val),
    {
        self.sample_len = (val as u16) * 16 + 1;
    }

    fn write_enable(&mut self, enable: bool)
        requires
            old(self).wf(),
        ensures
            *final(self) == old(self).after_write_enable(enable),
            final(self).wf(),
    {
        let prev_enabled = self.enabled;
        self.enabled = enable;
        if self.enabled && !prev_enabled {
            self.restart();
        } else if !self.enabled {
            self.bytes_remaining = 0;
            self.bits_remaining = 0;
            self.buffer_empty = true;
            self.dma_needed = false;
        }
        self.irq = false;
    }
}

// ---------------------------------------------------------------------------
// CPU-facing registers
// ---------------------------------------------------------------------------
impl Apu {
    /// The $4015 status byte: bits 0-3 for the channels whose length counters are
    /// running, bit 4 while the DMC is enabled with bytes left, bit 6 for the frame
    /// IRQ and bit 7 for the DMC IRQ.
    pub open spec fn spec_status(&self) -> u8 {
        ((if self.p1.length_counter > 0 { 1int } else { 0 })
            + (if self.p2.length_counter > 0 { 2int } else { 0 })
            + (if self.triangle.length_counter > 0 { 4int } else { 0 })
            + (if self.noise.length_counter > 0 { 8int } else { 0 })
            + (if self.dmc.enabled && self.dmc.bytes_remaining > 0 { 0x10int } else { 0 })
            + (if self.frame_irq { 0x40int } else { 0 })
            + (if self.dmc.irq { 0x80int } else { 0 })) as u8
    }

    /// A $4015 write: bits 0-3 enable the four tone channels (a disabled channel's
    /// length counter is cleared) and bit 4 the DMC.
    pub open spec fn after_write_enables(self, val: u8) -> Apu {
        let e1 = val & 1 != 0;
        let e2 = val & 2 != 0;
        let e3 = val & 4 != 0;
        let e4 = val & 8 != 0;
        Apu {
            p1: Pulse {
                enabled: e1,
                length_counter: if e1 { self.p1.length_counter } else { 0 },
                ..self.p1
            },
            p2: Pulse {
                enabled: e2,
                length_counter: if e2 { self.p2.length_counter } else { 0 },
                ..self.p2
            },
            triangle: Triangle {
                enabled: e3,
                length_counter: if e3 { self.triangle.length_counter } else { 0 },
                ..self.triangle
            },
            noise: Noise {
                enabled: e4,
                length_counter: if e4 { self.noise.length_counter } else { 0 },
                ..self.noise
            },
            dmc: self.dmc.after_write_enable(val & 0x10 != 0),
            ..self
        }
    }

    /// What a CPU write of `val` to `addr` does to the APU; addresses outside the
    /// register set leave it unchanged.
    pub open spec fn after_write(self, addr: u16, val: u8) -> Apu {
        if addr == 0x4000 {
            Apu { p1: self.p1.after_write_control(val), ..self }
        } else if addr == 0x4001 {
            Apu { p1: self.p1.after_write_sweep(val), ..self }
        } else if addr == 0x4002 {
            Apu { p1: self.p1.after_write_timer_lo(val), ..self }
        } else if addr == 0x4003 {
            Apu { p1: self.p1.after_write_timer_hi(val), ..self }
        } else if addr == 0x4004 {
            Apu { p2: self.p2.after_write_control(val), ..self }
        } else if addr == 0x4005 {
            Apu { p2: self.p2.after_write_sweep(val), ..self }
        } else if addr == 0x4006 {
            Apu { p2: self.p2.after_write_timer_lo(val), ..self }
        } else if addr == 0x4007 {
            Apu { p2: self.p2.after_write_timer_hi(val), ..self }
        } else if addr == 0x4008 {
            Apu { triangle: self.triangle.after_write_linear(val), ..self }
        } else if addr == 0x400A {
            Apu { triangle: self.triangle.after_write_timer_lo(val), ..self }
        } else if addr == 0x400B {
            Apu { triangle: self.triangle.after_write_timer_hi(val), ..self }
        } else if addr == 0x400C {
            Apu { noise: self.noise.after_write_control(val), ..self }
        } else if addr == 0x400E {
            Apu { noise: self.noise.after_write_period(val), ..self }
        } else if addr == 0x400F {
            Apu { noise: self.noise.after_write_length(val), ..self }
        } else if addr == 0x4010 {
            Apu { dmc: self.dmc.after_write_control(val), ..self }
        } else if addr == 0x4011 {
            Apu { dmc: self.dmc.after_write_dac(val), ..self }
        } else if addr == 0x4012 {
            Apu { dmc: self.dmc.after_write_address(val), ..self }
        } else if addr == 0x4013 {
            Apu { dmc: self.dmc.after_write_length(val), ..self }
        } else if addr == 0x4015 {
            self.after_write_enables(val)
        } else if addr == 0x4017 {
            Apu {
                fc_delay: 3,
                fc_write_pending: true,
                fc_pending_mode: val & 0x80 != 0,
                fc_pending_inhibit: val & 0x40 != 0,
                ..self
            }
        } else {
            self
        }
    }

    /// A CPU read: $4015 returns the status byte and acknowledges the frame IRQ; any
    /// other address reads 0 and changes nothing.
    pub fn read(&mut self, addr: u16) -> (r: u8)
        ensures
            r == (if addr == 0x4015 { old(self).spec_status() } else { 0 }),
            *final(self) == (if addr == 0x4015 {
                Apu { frame_irq: false, ..*old(self) }
            } else {
                *old(self)
            }),
    {
        if addr == 0x4015 {
            let mut status: u8 = 0;
            if self.p1.length_counter > 0 {
                status = status + 1;
            }
            if self.p2.length_counter > 0 {
                status = status + 2;
            }
            if self.triangle.length_counter > 0 {
                status = status + 4;
            }
            if self.noise.length_counter > 0 {
                status = status + 8;
            }
            if self.dmc.enabled && self.dmc.bytes_remaining > 0 {
                status = status + 0x10;
            }
            if self.frame_irq {
                status = status + 0x40;
            }
            if self.dmc.irq {
                status = status + 0x80;
            }
            self.frame_irq = false;
            status
        } else {
            0
        }
    }

    fn write_enables(&mut self, val: u8)
        requires
            old(self).wf(),
        ensures
            *final(self) == old(self).after_write_enables(val),
            final(self).wf(),
    {
        self.p1.set_enabled(val & 1 != 0);
        self.p2.set_enabled(val & 2 != 0);
        self.triangle.set_enabled(val & 4 != 0);
        self.noise.set_enabled(val & 8 != 0);
        self.dmc.write_enable(val & 0x10 != 0);
    }

    /// A CPU write of `val` to `addr`.
    #[verifier::rlimit(40)]
    pub fn write(&mut self, addr: u16, val: u8)
        requires
            old(self).wf(),
        ensures
            *final(self) == old(self).after_write(addr, val),
            final(self).wf(),
    {
        if addr == 0x4000 {
            self.p1.write_control(val);
        } else if addr == 0x4001 {
            self.p1.write_sweep(val);
        } else if addr == 0x4002 {
            self.p1.write_timer_lo(val);
        } else if addr == 0x4003 {
            self.p1.write_timer_hi(val);
        } else if addr == 0x4004 {
            self.p2.write_control(val);
        } else if addr == 0x4005 {
            self.p2.write_sweep(val);
        } else if addr == 0x4006 {
            self.p2.write_timer_lo(val);
        } else if addr == 0x4007 {
            self.p2.write_timer_hi(val);
        } else if addr == 0x4008 {
            self.triangle.write_linear(val);
        } else if addr == 0x400A {
            self.triangle.write_timer_lo(val);
        } else if addr == 0x400B {
            self.triangle.write_timer_hi(val);
        } else if addr == 0x400C {
            self.noise.write_control(val);
        } else if addr == 0x400E {
            self.noise.write_period(val);
        } else if addr == 0x400F {
            self.noise.write_length(val);
        } else if addr == 0x4010 {
            self.dmc.write_control(val);
        } else if addr == 0x4011 {
            self.dmc.write_dac(val);
        } else if addr == 0x4012 {
            self.dmc.write_address(val);
        } else if addr == 0x4013 {
            self.dmc.write_length(val);
        } else if addr == 0x4015 {
            self.write_enables(val);
        } else if addr == 0x4017 {
            self.fc_delay = 3;
            self.fc_write_pending = true;
            self.fc_pending_mode = val & 0x80 != 0;
            self.fc_pending_inhibit = val & 0x40 != 0;
        }
    }
}

impl Default for Noise {
    /// The power-on state of `Noise::new`.
    fn default() -> (r: Self)
        ensures
            r.wf(),
            r == (Noise {
                enabled: false,
                vol: 0,
                env_disable: false,
                env_start: false,
                env_divider: 0,
                env_decay: 0,
                length_counter: 0,
                length_halt: false,
                mode: false,
                period_index: 0,
                timer_load: 0,
                timer_val: 0,
                lfsr: 1,
            }),
    {
        Noise::new()
    }
}

impl Default for Apu {
    /// The power-on state of `Apu::new`.
    fn default() -> (r: Self)
        ensures
            r.wf(),
            r.cycles == 0 && r.apu_phase == 0,
            r.p1 == Pulse::new_spec(true),
            r.p2 == Pulse::new_spec(false),
            r.dmc.buffer_empty && r.dmc.timer == 1 && r.dmc.timer_load == dmc_rate(0),
            r.sample_count == 0,
            r.sample_rate == 44100,
            r.sample_acc == 0,
            r.frame_cycles == 0 && !r.frame_mode && !r.interrupt_inhibit && !r.frame_irq,
            r.fc_delay == 0 && !r.fc_write_pending,
    {
        Apu::new()
    }
}

} // verus!
