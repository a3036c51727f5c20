use wattkit::report::{IOReportIteratorItem, RawChannelEntry};
use wattkit::text::{is_whitespace_char, trim};

#[test]
fn whitespace_is_what_the_standard_library_takes_for_it() {
    let mut white = 0;
    for code in 0..=0x10FFFFu32 {
        if let Some(c) = char::from_u32(code) {
            assert_eq!(is_whitespace_char(c), c.is_whitespace(), "U+{:04X}", code);
            if c.is_whitespace() {
                white += 1;
            }
        }
    }
    assert_eq!(white, 25);
}

#[test]
fn trimming_takes_whitespace_off_both_ends_only() {
    assert_eq!(trim("mJ"), "mJ");
    assert_eq!(trim("  mJ \n"), "mJ");
    assert_eq!(trim("\tnJ"), "nJ");
    assert_eq!(trim("uJ\r\n"), "uJ");
    assert_eq!(trim(" a b "), "a b");
    assert_eq!(trim(""), "");
    assert_eq!(trim(" \t\n"), "");
    assert_eq!(trim("\u{3000}μJ\u{a0}"), "μJ");
    assert_eq!(trim("x"), "x");
    assert_eq!(trim(" x"), "x");
    assert_eq!(trim("x "), "x");
}

#[test]
fn trimming_agrees_with_the_standard_library() {
    let cores = ["", "mJ", "a b", "μJ", "a\u{2003}b", "\u{200b}", "x\u{feff}"];
    for code in 0..=0x3100u32 {
        let Some(c) = char::from_u32(code) else { continue };
        for core in cores {
            for text in [
                format!("{c}{core}"),
                format!("{core}{c}"),
                format!("{c} {core}\n{c}"),
                format!(" {c}{core}{c}{core} {c} "),
            ] {
                assert_eq!(trim(&text), text.trim(), "{:?}", text);
            }
        }
    }
}

#[test]
fn a_unit_label_is_trimmed_with_every_kind_of_whitespace() {
    let raw = RawChannelEntry {
        group: "Energy Model".to_string(),
        subgroup: String::new(),
        channel_name: "ANE".to_string(),
        unit: "\u{2003}\u{a0}nJ\u{85}\u{2028}".to_string(),
        raw_counter_value: 3_000_000,
    };
    let item = IOReportIteratorItem::classify(&raw);
    assert_eq!(item.unit, "nJ");
    assert_eq!(item.energy().map(|(_, energy)| energy), Some(3));
}
