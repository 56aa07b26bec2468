//! Small units: separator search, saturating arithmetic, and prefix
//! matching.

use dbtui::saturating_types::SaturatingU16;
use dbtui::sql_utils::{find_first_separator, find_last_separator, PatternPosition};

fn chars(s: &str) -> Vec<char> {
    s.chars().collect()
}

#[test]
fn separators_are_maximal_runs() {
    // "us" follows the last separator run (a single space).
    let last = find_last_separator(&chars("SELECT * FROM us")).unwrap();
    assert_eq!(last, PatternPosition { index: 13, length: 1 });
    // The first run swallows the asterisk and both spaces around it.
    let first = find_first_separator(&chars("SELECT * FROM us")).unwrap();
    assert_eq!(first, PatternPosition { index: 6, length: 3 });
    assert!(find_last_separator(&chars("word_part9")).is_none());
    assert!(find_first_separator(&chars("")).is_none());
}

#[test]
fn saturating_u16_stops_at_bounds() {
    let x = SaturatingU16(3);
    assert_eq!(x.sub(5).value(), 0);
    assert_eq!(x.add(2).value(), 5);
    assert_eq!(SaturatingU16(u16::MAX).add(10).value(), u16::MAX);
    let mut y = SaturatingU16(1);
    y.sub_assign(4);
    assert_eq!(y.value(), 0);
    y.add_assign(7);
    assert_eq!(y.value(), 7);
    assert_eq!(SaturatingU16::from(9).value(), 9);
    assert!(SaturatingU16(3) < 4u16);
    assert!(SaturatingU16(3) == 3u16);
}

#[test]
fn word_part_matching_is_unicode_aware() {
    // The word class is the regex `\w`; accented letters count as word
    // characters, so they do not start a new word part.
    let s = chars("caf\u{e9}");
    assert!(find_last_separator(&s).is_none());
    let s = chars("a,b");
    let p = find_last_separator(&s).unwrap();
    assert_eq!(p, PatternPosition { index: 1, length: 1 });
}
