//! Audio processing unit registers: the state that the CPU programs through
//! the memory-mapped registers at $4000-$4017.

use vstd::prelude::*;

verus! {

/// One of the two square-wave channels.
#[derive(Clone, Copy, Debug)]
pub struct Pulse {
    pub duty: u8,
    pub halt: bool,
    pub constant_volume: bool,
    pub volume: u8,

    pub sweep_en: bool,
    pub sweep_period: u8,
    pub sweep_negate: bool,
    pub sweep_shift: u8,

    pub timer: u16,
    pub length_counter_load: u8,
}

impl Pulse {
    /// The power-on state: every field zero or false.
    pub open spec fn initial() -> Pulse {
        Pulse {
            duty: 0,
            halt: false,
            constant_volume: false,
            volume: 0,
            sweep_en: false,
            sweep_period: 0,
            sweep_negate: false,
            sweep_shift: 0,
            timer: 0,
            length_counter_load: 0,
        }
    }

    pub fn new() -> (r: Pulse)
        ensures
            r == Pulse::initial(),
    {
        Pulse {
            duty: 0,
            halt: false,
            constant_volume: false,
            volume: 0,
            sweep_en: false,
            sweep_period: 0,
            sweep_negate: false,
            sweep_shift: 0,
            timer: 0,
            length_counter_load: 0,
        }
    }
}

/// The triangle-wave channel.
#[derive(Clone, Copy, Debug)]
pub struct Triangle {
    pub control: bool,
    pub counter_reload: u8,
    pub timer: u16,
    pub length_counter_load: u8,
}

impl Triangle {
    pub open spec fn initial() -> Triangle {
        Triangle { control: false, counter_reload: 0, timer: 0, length_counter_load: 0 }
    }

    pub fn new() -> (r: Triangle)
        ensures
            r == Triangle::initial(),
    {
        Triangle { control: false, counter_reload: 0, timer: 0, length_counter_load: 0 }
    }
}

/// The noise channel.
#[derive(Clone, Copy, Debug)]
pub struct Noise {
    pub halt: bool,
    pub constant_volume: bool,
    pub volume: u8,
    pub mode: bool,
    pub period: u8,
    pub length_counter_load: u8,
}

impl Noise {
    pub open spec fn initial() -> Noise {
        Noise {
            halt: false,
            constant_volume: false,
            volume: 0,
            mode: false,
            period: 0,
            length_counter_load: 0,
        }
    }

    pub fn new() -> (r: Noise)
        ensures
            r == Noise::initial(),
    {
        Noise {
            halt: false,
            constant_volume: false,
            volume: 0,
            mode: false,
            period: 0,
            length_counter_load: 0,
        }
    }
}

/// The delta-modulation channel.
#[derive(Clone, Copy, Debug)]
pub struct DMC {
    pub irq_en: bool,
    pub loop_flag: bool,
    pub rate_index: u8,
    pub direct_load: u8,
    pub sample_address: u8,
    pub sample_length: u8,
}

impl DMC {
    pub open spec fn initial() -> DMC {
        DMC {
            irq_en: false,
            loop_flag: false,
            rate_index: 0,
            direct_load: 0,
            sample_address: 0,
            sample_length: 0,
        }
    }

    pub fn new() -> (r: DMC)
        ensures
            r == DMC::initial(),
    {
        DMC {
            irq_en: false,
            loop_flag: false,
            rate_index: 0,
            direct_load: 0,
            sample_address: 0,
            sample_length: 0,
        }
    }
}

/// The whole audio unit: channel enables, frame counter and the channels.
#[derive(Clone, Copy, Debug)]
pub struct APU {
    pub dmc_en: bool,
    pub noise_en: bool,
    pub triangle_en: bool,
    pub pulse1_en: bool,
    pub pulse2_en: bool,
    pub fc_mode: bool,
    pub irq_inhibit: bool,

    pub Pulse1: Pulse,
    pub Pulse2: Pulse,
    pub Triangle: Triangle,
    pub Noise: Noise,
    pub DMC: DMC,
}

impl APU {
    pub open spec fn initial() -> APU {
        APU {
            dmc_en: false,
            noise_en: false,
            triangle_en: false,
            pulse1_en: false,
            pulse2_en: false,
            fc_mode: false,
            irq_inhibit: false,
            Pulse1: Pulse::initial(),
            Pulse2: Pulse::initial(),
            Triangle: Triangle::initial(),
            Noise: Noise::initial(),
            DMC: DMC::initial(),
        }
    }

    pub fn new() -> (r: APU)
        ensures
            r == APU::initial(),
    {
        APU {
            dmc_en: false,
            noise_en: false,
            triangle_en: false,
            pulse1_en: false,
            pulse2_en: false,
            fc_mode: false,
            irq_inhibit: false,
            Pulse1: Pulse::new(),
            Pulse2: Pulse::new(),
            Triangle: Triangle::new(),
            Noise: Noise::new(),
            DMC: DMC::new(),
        }
    }
}

} // verus!
