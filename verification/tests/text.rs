use distill::text::{
    chars_of, decimal_string, restore_line_breaks, same_text, signed_decimal_string,
};

#[test]
fn decimal_of_small_and_large_counts() {
    assert_eq!(decimal_string(0), "0");
    assert_eq!(decimal_string(7), "7");
    assert_eq!(decimal_string(10), "10");
    assert_eq!(decimal_string(42), "42");
    assert_eq!(decimal_string(1005), "1005");
    assert_eq!(decimal_string(u64::MAX), "18446744073709551615");
}

#[test]
fn decimal_agrees_with_display() {
    let mut n: u64 = 1;
    for _ in 0..19 {
        assert_eq!(decimal_string(n), n.to_string());
        assert_eq!(decimal_string(n - 1), (n - 1).to_string());
        n *= 10;
    }
}

#[test]
fn signed_decimal_of_negative_and_extreme_values() {
    assert_eq!(signed_decimal_string(0), "0");
    assert_eq!(signed_decimal_string(-1), "-1");
    assert_eq!(signed_decimal_string(250), "250");
    assert_eq!(signed_decimal_string(i64::MIN), "-9223372036854775808");
    assert_eq!(signed_decimal_string(i64::MAX), "9223372036854775807");
}

#[test]
fn line_breaks_are_restored_from_the_left() {
    assert_eq!(restore_line_breaks("a\\nb"), "a\nb");
    assert_eq!(restore_line_breaks("\\n\\n"), "\n\n");
    assert_eq!(restore_line_breaks("no escapes"), "no escapes");
    assert_eq!(restore_line_breaks(""), "");
    assert_eq!(restore_line_breaks("\\"), "\\");
    assert_eq!(restore_line_breaks("\\\\n"), "\\\n");
    assert_eq!(restore_line_breaks("tail\\"), "tail\\");
    assert_eq!(restore_line_breaks("x\\ny\\nz"), "x\ny\nz");
    assert_eq!(restore_line_breaks("real\nbreak"), "real\nbreak");
}

#[test]
fn line_breaks_agree_with_str_replace() {
    let samples = ["", "\\n", "a\\\\nb", "\\\\\\n", "é\\nü", "n\\", "\\n\\", "\\nn\\n"];
    for sample in samples {
        assert_eq!(restore_line_breaks(sample), sample.replace("\\n", "\n"));
    }
}

#[test]
fn same_text_compares_characters() {
    assert!(same_text("Y", "Y"));
    assert!(!same_text("Y", "y"));
    assert!(!same_text("", "Y"));
    assert!(same_text("", ""));
}

#[test]
fn chars_of_yields_every_character_in_order() {
    assert_eq!(chars_of("aé🙂\n"), vec!['a', 'é', '🙂', '\n']);
    assert_eq!(chars_of(""), Vec::<char>::new());
}
