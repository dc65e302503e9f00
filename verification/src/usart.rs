use vstd::prelude::*;

verus! {

/// Address of the first USART peripheral's register block.
pub const BASE_ADDRESS: usize = 0x40024000;

/// Distance between consecutive USART register blocks.
pub const SIZE: usize = 0x4000;

/// Peripheral clock frequency the baud-rate generator divides down from.
pub const CLOCK_HZ: u32 = 48000000;

/// Which of the four USART peripherals a driver instance talks to.
#[derive(Clone, Copy, Debug, PartialEq, Eq, Structural)]
pub enum Location {
    USART0,
    USART1,
    USART2,
    USART3,
}

/// Ordinal of the peripheral within the register-block array.
pub open spec fn location_index(location: Location) -> int {
    match location {
        Location::USART0 => 0,
        Location::USART1 => 1,
        Location::USART2 => 2,
        Location::USART3 => 3,
    }
}

/// Base address of the register block of the given peripheral. Only the
/// register driver dereferences it; computing it is plain arithmetic over
/// the peripheral's ordinal.
pub fn base_address(location: Location) -> (r: usize)
    ensures
        r == BASE_ADDRESS + location_index(location) * SIZE,
{
    let index: usize = match location {
        Location::USART0 => 0,
        Location::USART1 => 1,
        Location::USART2 => 2,
        Location::USART3 => 3,
    };
    BASE_ADDRESS + index * SIZE
}

/// Clock divisor the baud-rate generator register is programmed with for
/// the requested baud rate: the peripheral clock over sixteen times the
/// baud rate.
pub fn baud_rate_divisor(baud_rate: u32) -> (r: u32)
    requires
        1 <= baud_rate <= 0x0fff_ffff,
    ensures
        r == CLOCK_HZ as int / (16 * baud_rate),
{
    CLOCK_HZ / (16 * baud_rate)
}

/// The mode-register word selecting `data_bits` data bits (five to eight)
/// and the given parity code, with one stop bit: the character length
/// field holds `(data_bits - 1) mod 4` at bit six, the parity code sits at
/// bit nine.
pub open spec fn mode_word_spec(data_bits: u8, parity: u8) -> u32
    recommends
        data_bits >= 1,
{
    (((data_bits - 1) % 4) * 64 + parity * 512) as u32
}

/// Computes the mode-register word the driver writes during `init`.
pub fn mode_word(data_bits: u8, parity: u8) -> (r: u32)
    requires
        data_bits >= 1,
    ensures
        r == mode_word_spec(data_bits, parity),
{
    let shortened: u8 = data_bits - 1;
    let chrl: u32 = (shortened & 0x3) as u32;
    let par: u32 = parity as u32;
    let mode: u32 = chrl << 6u32 | par << 9u32;
    proof {
        assert(shortened & 0x3 == shortened % 4) by (bit_vector);
        assert(chrl << 6u32 | par << 9u32 == chrl * 64 + par * 512) by (bit_vector)
            requires
                chrl <= 3 && par <= 255,
        ;
    }
    mode
}

} // verus!
