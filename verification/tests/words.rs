use stasis::text::{
    comes_before, contains, hyphenate, insert_name, normalize, parse_u32, push_decimal,
    push_joined, push_padded, same_text, starts_with, strip_prefix, trim,
};

#[test]
fn decimal_digits() {
    for n in [0u64, 7, 10, 99, 100, 12_345, u64::MAX] {
        let mut out = String::from(">");
        push_decimal(&mut out, n);
        assert_eq!(out, format!(">{}", n));
    }
}

#[test]
fn padding_fills_to_width() {
    let mut out = String::new();
    push_padded(&mut out, "ab", 5);
    assert_eq!(out, "ab   ");
    push_padded(&mut out, "abcdef", 5);
    assert_eq!(out, "ab   abcdef");
    push_padded(&mut out, "", 0);
    assert_eq!(out, "ab   abcdef");
    let mut wide = String::new();
    push_padded(&mut wide, "äö", 4);
    assert_eq!(wide, "äö  ");
}

#[test]
fn prefixes_and_equality() {
    assert!(starts_with("ac.dpms", "ac."));
    assert!(starts_with("ac.", "ac."));
    assert!(!starts_with("ac", "ac."));
    assert!(!starts_with("battery.x", "ac."));
    assert!(starts_with("x", ""));
    assert!(same_text("abc", "abc"));
    assert!(!same_text("abc", "abd"));
    assert!(!same_text("abc", "ab"));
    assert!(same_text("", ""));
    assert_eq!(strip_prefix("desktop.x", "desktop."), Some("x"));
    assert_eq!(strip_prefix("desktop.", "desktop."), Some(""));
    assert_eq!(strip_prefix("deskto", "desktop."), None);
}

#[test]
fn substring_search() {
    assert!(contains("org.mpris.bluez.x", "bluez"));
    assert!(contains("bluez", "bluez"));
    assert!(contains("xbluez", "bluez"));
    assert!(!contains("blue", "bluez"));
    assert!(!contains("bluex", "bluez"));
    assert!(contains("anything", ""));
    assert!(contains("", ""));
    assert!(!contains("", "a"));
}

#[test]
fn trimming() {
    assert_eq!(trim("  a b \n"), "a b");
    assert_eq!(trim("\t\u{a0}x\u{3000}"), "x");
    assert_eq!(trim("   "), "");
    assert_eq!(trim(""), "");
    assert_eq!(trim("x"), "x");
    for s in [" a ", "\u{2003}b\u{85}", "c\u{200b}", "\u{1680}d\u{2028}\u{2029}\u{202f}\u{205f}"] {
        assert_eq!(trim(s), s.trim());
    }
}

#[test]
fn numbers_are_parsed() {
    for s in ["0", "1", "+1", "0012", "4294967295", "4294967296", "99999999999999999999999", "",
        "+", "-1", "1 ", "1_0", "٣", "++1"] {
        assert_eq!(parse_u32(s), s.parse::<u32>().ok(), "{:?}", s);
    }
}

#[test]
fn names_are_normalized() {
    assert_eq!(hyphenate("lock_screen_now"), "lock-screen-now");
    assert_eq!(hyphenate("plain"), "plain");
    assert_eq!(normalize("Lock_Screen"), "lock-screen");
    assert_eq!(normalize("PRE_SUSPEND"), "pre-suspend");
    assert_eq!(normalize("ÉCRAN"), "écran");
}

#[test]
fn dictionary_order() {
    assert!(comes_before("a", "b"));
    assert!(comes_before("", "a"));
    assert!(comes_before("lock_screen", "lockscreen"));
    assert!(comes_before("ab", "abc"));
    assert!(!comes_before("abc", "ab"));
    assert!(!comes_before("a", "a"));
    assert!(!comes_before("", ""));
    for (a, b) in [("Z", "a"), ("é", "z"), ("z", "é"), ("10", "9")] {
        assert_eq!(comes_before(a, b), a < b);
    }
}

#[test]
fn names_stay_sorted_and_single() {
    let mut names: Vec<String> = Vec::new();
    for name in ["suspend", "dpms", "lockscreen", "dpms", "lock_screen", "a", "z", "suspend"] {
        insert_name(&mut names, name.to_string());
    }
    assert_eq!(names, vec!["a", "dpms", "lock_screen", "lockscreen", "suspend", "z"]);
    let mut out = String::from("[");
    push_joined(&mut out, &names, ", ");
    assert_eq!(out, "[a, dpms, lock_screen, lockscreen, suspend, z");
    let mut none = String::new();
    push_joined(&mut none, &vec![], ", ");
    assert_eq!(none, "");
}
