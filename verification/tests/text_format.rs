use drivelist::text::ansi_to_string;
use drivelist::text::message_with_code;
use drivelist::text::u64_to_string;

#[test]
fn decimal_formatting_exact_values() {
    assert_eq!(u64_to_string(0), "0");
    assert_eq!(u64_to_string(7), "7");
    assert_eq!(u64_to_string(10), "10");
    assert_eq!(u64_to_string(4096), "4096");
    assert_eq!(u64_to_string(18_446_744_073_709_551_615), "18446744073709551615");
}

#[test]
fn messages_carry_their_error_code() {
    assert_eq!(message_with_code("Couldn't get disk geometry: Error ", 5), "Couldn't get disk geometry: Error 5");
    assert_eq!(message_with_code("Error ", 0), "Error 0");
}

#[test]
fn ansi_buffer_is_nul_stripped_and_trimmed() {
    let buffer = b"  USBSTOR \0\0\0\0";
    assert_eq!(ansi_to_string(buffer), "USBSTOR");
}

#[test]
fn interior_nuls_are_dropped_before_decoding() {
    let buffer = b"US\0BST\0OR";
    assert_eq!(ansi_to_string(buffer), "USBSTOR");
}

#[test]
fn undecodable_buffer_cleans_to_nothing() {
    let buffer = [0xC3u8, 0x28u8];
    assert_eq!(ansi_to_string(&buffer), "");
}

#[test]
fn all_nul_buffer_cleans_to_nothing() {
    let buffer = [0u8; 16];
    assert_eq!(ansi_to_string(&buffer), "");
}
