use kernel_core::usart::{base_address, baud_rate_divisor, mode_word, Location};

#[test]
fn register_blocks_are_spaced_by_size() {
    assert_eq!(base_address(Location::USART0), 0x40024000);
    assert_eq!(base_address(Location::USART1), 0x40028000);
    assert_eq!(base_address(Location::USART2), 0x4002c000);
    assert_eq!(base_address(Location::USART3), 0x40030000);
}

#[test]
fn baud_rate_divisor_divides_the_peripheral_clock() {
    assert_eq!(baud_rate_divisor(115200), 26);
    assert_eq!(baud_rate_divisor(9600), 312);
    assert_eq!(baud_rate_divisor(1), 3000000);
}

#[test]
fn mode_word_places_character_length_and_parity() {
    // Eight data bits: character length code 3 at bit six.
    assert_eq!(mode_word(8, 0), 3 << 6);
    // Parity code sits at bit nine.
    assert_eq!(mode_word(8, 4), (3 << 6) | (4 << 9));
    // Five data bits: character length code 0.
    assert_eq!(mode_word(5, 1), 1 << 9);
}

#[test]
fn locations_are_plain_values() {
    let a = Location::USART2;
    let b = a;
    assert_eq!(a, b);
    assert!(Location::USART0 != Location::USART1);
}
