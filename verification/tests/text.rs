use rmk::text::{contains, with_suffix};

#[test]
fn contains_finds_a_pattern_anywhere() {
    assert!(contains("USB_OTG_FS", "OTG"));
    assert!(contains("OTG", "OTG"));
    assert!(contains("OTG_HS", "OTG"));
    assert!(contains("USB_OTG", "OTG"));
    assert!(!contains("USB", "OTG"));
    assert!(!contains("USB_OT", "OTG"));
    assert!(!contains("OT", "OTG"));
    assert!(!contains("otg", "OTG"));
    assert!(!contains("O_T_G", "OTG"));
    assert!(contains("OOTG", "OTG"));
    assert!(contains("OTOTG", "OTG"));
}

#[test]
fn contains_takes_the_empty_pattern_everywhere() {
    assert!(contains("", ""));
    assert!(contains("USB", ""));
    assert!(!contains("", "OTG"));
}

#[test]
fn contains_counts_characters_not_bytes() {
    assert!(contains("\u{e9}\u{e9}OTG", "OTG"));
    assert!(contains("a\u{e9}b", "\u{e9}b"));
    assert!(!contains("a\u{e9}b", "eb"));
}

#[test]
fn with_suffix_appends() {
    assert_eq!(with_suffix("UART0", "_IRQ"), "UART0_IRQ");
    assert_eq!(with_suffix("", "_IRQ"), "_IRQ");
    assert_eq!(with_suffix("UART0", ""), "UART0");
}
