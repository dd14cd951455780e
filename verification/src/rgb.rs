use vstd::prelude::*;

verus! {

/// One pixel of the strip: three 8-bit colour channels.
#[derive(Clone, Copy, PartialEq, Eq, Structural, Debug)]
pub struct Rgb {
    pub red: u8,
    pub green: u8,
    pub blue: u8,
}

/// The fixed 3-byte serial pulse pattern that encodes one source bit on the
/// synchronous serial bus. The clocked output of these bytes approximates the
/// high/low pulse widths the strip protocol requires for a "1" or a "0" bit.
pub open spec fn spec_bit_pulse(bit: bool) -> Seq<u8> {
    if bit {
        seq![0xffu8, 0xfeu8, 0x00u8]
    } else {
        seq![0xfeu8, 0x00u8, 0x00u8]
    }
}

/// Whether bit `i` (0 = least significant) of `x` is set.
pub open spec fn spec_bit(x: u8, i: u8) -> bool {
    (x >> i) & 1 == 1
}

/// The 24-byte pulse stream of one channel byte, most-significant bit first.
pub open spec fn spec_byte_pulses(x: u8) -> Seq<u8> {
    spec_bit_pulse(spec_bit(x, 7)) + spec_bit_pulse(spec_bit(x, 6)) + spec_bit_pulse(
        spec_bit(x, 5),
    ) + spec_bit_pulse(spec_bit(x, 4)) + spec_bit_pulse(spec_bit(x, 3)) + spec_bit_pulse(
        spec_bit(x, 2),
    ) + spec_bit_pulse(spec_bit(x, 1)) + spec_bit_pulse(spec_bit(x, 0))
}

/// The 72-byte pulse stream of one pixel. The channel order on the wire is
/// green, red, blue, matching the strip's physical wiring convention.
pub open spec fn spec_pixel_pulses(c: Rgb) -> Seq<u8> {
    spec_byte_pulses(c.green) + spec_byte_pulses(c.red) + spec_byte_pulses(c.blue)
}

/// First byte of the packed encoding: carries bits 0..=2 of the source byte.
pub open spec fn spec_packed0(x: u8) -> u8 {
    let b = x & 0x07;
    if b == 0 {
        0x24u8
    } else if b == 1 {
        0x26u8
    } else if b == 2 {
        0x34u8
    } else if b == 3 {
        0x36u8
    } else if b == 4 {
        0xa4u8
    } else if b == 5 {
        0xa6u8
    } else if b == 6 {
        0xb4u8
    } else {
        0xb6u8
    }
}

/// Second byte of the packed encoding: carries bits 3..=4 of the source byte.
pub open spec fn spec_packed1(x: u8) -> u8 {
    let b = (x & 0x18) >> 3;
    if b == 0 {
        0x49u8
    } else if b == 1 {
        0x4du8
    } else if b == 2 {
        0x69u8
    } else {
        0x6du8
    }
}

/// Third byte of the packed encoding: carries bits 5..=7 of the source byte.
pub open spec fn spec_packed2(x: u8) -> u8 {
    let b = (x & 0xe0) >> 5;
    if b == 0 {
        0x92u8
    } else if b == 1 {
        0x93u8
    } else if b == 2 {
        0x9au8
    } else if b == 3 {
        0x9bu8
    } else if b == 4 {
        0xd2u8
    } else if b == 5 {
        0xd3u8
    } else if b == 6 {
        0xdau8
    } else {
        0xdbu8
    }
}

impl Rgb {
    pub fn new(red: u8, green: u8, blue: u8) -> (c: Rgb)
        ensures
            c == (Rgb { red, green, blue }),
    {
        Rgb { red, green, blue }
    }

    pub fn red() -> (c: Rgb)
        ensures
            c == (Rgb { red: 255u8, green: 0u8, blue: 0u8 }),
    {
        Rgb::new(255, 0, 0)
    }

    pub fn green() -> (c: Rgb)
        ensures
            c == (Rgb { red: 0u8, green: 255u8, blue: 0u8 }),
    {
        Rgb::new(0, 255, 0)
    }

    pub fn blue() -> (c: Rgb)
        ensures
            c == (Rgb { red: 0u8, green: 0u8, blue: 255u8 }),
    {
        Rgb::new(0, 0, 255)
    }

    /// The serial pattern of a single source bit.
    pub fn bit_to_spi(input: bool) -> (out: Vec<u8>)
        ensures
            out@ == spec_bit_pulse(input),
    {
        let mut out: Vec<u8> = Vec::new();
        if input {
            out.push(0xff);
            out.push(0xfe);
            out.push(0x00);
        } else {
            out.push(0xfe);
            out.push(0x00);
            out.push(0x00);
        }
        proof {
            assert(out@ =~= spec_bit_pulse(input));
        }
        out
    }

    /// Expand one channel byte bit by bit, most-significant bit first, into
    /// its 24-byte serial pulse stream.
    pub fn byte_to_spi(input: u8) -> (out: Vec<u8>)
        ensures
            out@ == spec_byte_pulses(input),
            out@.len() == 24,
    {
        let mut out: Vec<u8> = Vec::new();
        let mut p7 = Self::bit_to_spi((input >> 7) & 1 == 1);
        let mut p6 = Self::bit_to_spi((input >> 6) & 1 == 1);
        let mut p5 = Self::bit_to_spi((input >> 5) & 1 == 1);
        let mut p4 = Self::bit_to_spi((input >> 4) & 1 == 1);
        let mut p3 = Self::bit_to_spi((input >> 3) & 1 == 1);
        let mut p2 = Self::bit_to_spi((input >> 2) & 1 == 1);
        let mut p1 = Self::bit_to_spi((input >> 1) & 1 == 1);
        let mut p0 = Self::bit_to_spi((input >> 0) & 1 == 1);
        out.append(&mut p7);
        out.append(&mut p6);
        out.append(&mut p5);
        out.append(&mut p4);
        out.append(&mut p3);
        out.append(&mut p2);
        out.append(&mut p1);
        out.append(&mut p0);
        proof {
            assert(out@ =~= spec_byte_pulses(input));
        }
        out
    }

    /// Encode this pixel into its 72-byte serial pulse stream
    /// (3 channels, 8 bits each, 3 bytes per bit), channels in wire order
    /// green, red, blue.
    pub fn to_spi_data(&self) -> (out: Vec<u8>)
        ensures
            out@ == spec_pixel_pulses(*self),
            out@.len() == 72,
    {
        let mut out = Self::byte_to_spi(self.green);
        let mut r = Self::byte_to_spi(self.red);
        let mut b = Self::byte_to_spi(self.blue);
        out.append(&mut r);
        out.append(&mut b);
        proof {
            assert(out@ =~= spec_pixel_pulses(*self));
        }
        out
    }

    /// A denser 3-byte encoding of one channel byte, built from fixed lookup
    /// tables: three packed bus bytes carry bits 0..=2, 3..=4 and 5..=7.
    pub fn byte_to_spi_data(input: &u8) -> (out: Vec<u8>)
        ensures
            out@ == seq![spec_packed0(*input), spec_packed1(*input), spec_packed2(*input)],
    {
        let b0 = *input & 0x07;
        let b1 = (*input & 0x18) >> 3;
        let b2 = (*input & 0xe0) >> 5;

        let o0: u8 = if b0 == 0 {
            0x24
        } else if b0 == 1 {
            0x26
        } else if b0 == 2 {
            0x34
        } else if b0 == 3 {
            0x36
        } else if b0 == 4 {
            0xa4
        } else if b0 == 5 {
            0xa6
        } else if b0 == 6 {
            0xb4
        } else {
            0xb6
        };
        let o1: u8 = if b1 == 0 {
            0x49
        } else if b1 == 1 {
            0x4d
        } else if b1 == 2 {
            0x69
        } else {
            0x6d
        };
        let o2: u8 = if b2 == 0 {
            0x92
        } else if b2 == 1 {
            0x93
        } else if b2 == 2 {
            0x9a
        } else if b2 == 3 {
            0x9b
        } else if b2 == 4 {
            0xd2
        } else if b2 == 5 {
            0xd3
        } else if b2 == 6 {
            0xda
        } else {
            0xdb
        };

        let mut out: Vec<u8> = Vec::new();
        out.push(o0);
        out.push(o1);
        out.push(o2);
        proof {
            assert(out@ =~= seq![spec_packed0(*input), spec_packed1(*input), spec_packed2(*input)]);
        }
        out
    }
}

} // verus!
