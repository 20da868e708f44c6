use vstd::prelude::*;

verus! {

// Bits of the ALEX front-end control words.
pub const HPF_13MHZ: u32 = 0x0000_0002;
pub const HPF_20MHZ: u32 = 0x0000_0004;
pub const PREAMP_6M: u32 = 0x0000_0008;
pub const HPF_9_5MHZ: u32 = 0x0000_0010;
pub const HPF_6_5MHZ: u32 = 0x0000_0020;
pub const HPF_1_5MHZ: u32 = 0x0000_0040;
pub const HPF_BYPASS: u32 = 0x0000_1000;
pub const LPF_30_20: u32 = 0x0010_0000;
pub const LPF_60_40: u32 = 0x0020_0000;
pub const LPF_80: u32 = 0x0040_0000;
pub const LPF_160: u32 = 0x0080_0000;
pub const LPF_BYPASS: u32 = 0x2000_0000;
pub const LPF_12_10: u32 = 0x4000_0000;
pub const LPF_17_15: u32 = 0x8000_0000;
pub const TX_ENABLE: u32 = 0x0800_0000;
pub const ALEX_ANTENNA_1: u32 = 0x0100_0000;
pub const ALEX_ANTENNA_2: u32 = 0x0200_0000;
pub const ALEX_ANTENNA_3: u32 = 0x0400_0000;
pub const ALEX_RX_ANTENNA_XVTR: u32 = 0x0000_0900;
pub const ALEX_RX_ANTENNA_EXT1: u32 = 0x0000_0A00;
pub const ALEX_RX_ANTENNA_EXT2: u32 = 0x0000_0C00;

/// An antenna connector of the front end.
#[derive(PartialEq, Eq, Structural, Clone, Copy, Debug)]
pub enum Antenna {
    ANT1,
    ANT2,
    ANT3,
    EXT1,
    EXT2,
    XVTR,
    NONE,
}

/// The high-pass (band-pass) filter bit for a frequency in Hz.
pub open spec fn hpf_bits_of(f: int) -> u32 {
    if f < 1_500_000 {
        HPF_BYPASS
    } else if f < 2_100_000 {
        HPF_1_5MHZ
    } else if f < 5_500_000 {
        HPF_6_5MHZ
    } else if f < 11_000_000 {
        HPF_9_5MHZ
    } else if f < 22_000_000 {
        HPF_13MHZ
    } else if f < 35_000_000 {
        HPF_20MHZ
    } else {
        PREAMP_6M
    }
}

/// The low-pass filter bit for a frequency in Hz.
pub open spec fn lpf_bits_of(f: int) -> u32 {
    if f > 32_000_000 {
        LPF_BYPASS
    } else if f > 22_000_000 {
        LPF_12_10
    } else if f > 15_000_000 {
        LPF_17_15
    } else if f > 8_000_000 {
        LPF_30_20
    } else if f > 4_500_000 {
        LPF_60_40
    } else if f > 2_400_000 {
        LPF_80
    } else if f > 1_500_000 {
        LPF_160
    } else {
        LPF_BYPASS
    }
}

/// The antenna bits while transmitting: the three main connectors, any other
/// choice falling back to the first.
pub open spec fn tx_antenna_bits_of(a: Antenna) -> u32 {
    match a {
        Antenna::ANT2 => ALEX_ANTENNA_2,
        Antenna::ANT3 => ALEX_ANTENNA_3,
        _ => ALEX_ANTENNA_1,
    }
}

/// The antenna bits while receiving.
pub open spec fn rx_antenna_bits_of(a: Antenna) -> u32 {
    match a {
        Antenna::ANT1 => ALEX_ANTENNA_1,
        Antenna::ANT2 => ALEX_ANTENNA_2,
        Antenna::ANT3 => ALEX_ANTENNA_3,
        Antenna::EXT1 => ALEX_RX_ANTENNA_EXT1,
        Antenna::EXT2 => ALEX_RX_ANTENNA_EXT2,
        Antenna::XVTR => ALEX_RX_ANTENNA_XVTR,
        Antenna::NONE => 0,
    }
}

/// The first filter-bank word: the T/R relay and transmit antenna while
/// transmitting, else the receive antenna; then the filters for the frequency.
pub open spec fn filter1_of(transmitting: bool, tx_antenna: Antenna, rx_antenna: Antenna, f: int) -> u32 {
    let ant = if transmitting {
        TX_ENABLE | tx_antenna_bits_of(tx_antenna)
    } else {
        rx_antenna_bits_of(rx_antenna)
    };
    ant | hpf_bits_of(f) | lpf_bits_of(f)
}

/// Selects the high-pass filter bit for a frequency in Hz.
pub fn hpf_bits(f: i64) -> (r: u32)
    ensures
        r == hpf_bits_of(f as int),
{
    if f < 1_500_000 {
        HPF_BYPASS
    } else if f < 2_100_000 {
        HPF_1_5MHZ
    } else if f < 5_500_000 {
        HPF_6_5MHZ
    } else if f < 11_000_000 {
        HPF_9_5MHZ
    } else if f < 22_000_000 {
        HPF_13MHZ
    } else if f < 35_000_000 {
        HPF_20MHZ
    } else {
        PREAMP_6M
    }
}

/// Selects the low-pass filter bit for a frequency in Hz.
pub fn lpf_bits(f: i64) -> (r: u32)
    ensures
        r == lpf_bits_of(f as int),
{
    if f > 32_000_000 {
        LPF_BYPASS
    } else if f > 22_000_000 {
        LPF_12_10
    } else if f > 15_000_000 {
        LPF_17_15
    } else if f > 8_000_000 {
        LPF_30_20
    } else if f > 4_500_000 {
        LPF_60_40
    } else if f > 2_400_000 {
        LPF_80
    } else if f > 1_500_000 {
        LPF_160
    } else {
        LPF_BYPASS
    }
}

/// Computes the first filter-bank word.
pub fn filter1(transmitting: bool, tx_antenna: Antenna, rx_antenna: Antenna, f: i64) -> (r: u32)
    ensures
        r == filter1_of(transmitting, tx_antenna, rx_antenna, f as int),
{
    let ant = if transmitting {
        let a = match tx_antenna {
            Antenna::ANT2 => ALEX_ANTENNA_2,
            Antenna::ANT3 => ALEX_ANTENNA_3,
            _ => ALEX_ANTENNA_1,
        };
        TX_ENABLE | a
    } else {
        match rx_antenna {
            Antenna::ANT1 => ALEX_ANTENNA_1,
            Antenna::ANT2 => ALEX_ANTENNA_2,
            Antenna::ANT3 => ALEX_ANTENNA_3,
            Antenna::EXT1 => ALEX_RX_ANTENNA_EXT1,
            Antenna::EXT2 => ALEX_RX_ANTENNA_EXT2,
            Antenna::XVTR => ALEX_RX_ANTENNA_XVTR,
            Antenna::NONE => 0,
        }
    };
    ant | hpf_bits(f) | lpf_bits(f)
}

/// The second filter-bank word carries the high-pass filter bit for the
/// second receiver's frequency.
pub fn filter2(f: i64) -> (r: u16)
    ensures
        r == hpf_bits_of(f as int),
{
    hpf_bits(f) as u16
}

} // verus!
