use base256emoji::{Alphabet, Base, Emoji};
use std::collections::HashSet;

#[test]
fn alphabet_has_256_distinct_codepoints() {
    let table: Alphabet = Emoji::ALPHABET;
    assert_eq!(table.len(), 256);
    let distinct: HashSet<char> = table.iter().copied().collect();
    assert_eq!(distinct.len(), 256);
    for i in 0..256 {
        for j in 0..256 {
            if i != j {
                assert_ne!(table[i], table[j]);
            }
        }
    }
}

#[test]
fn alphabet_begins_with_the_rocket_and_the_planet() {
    assert_eq!(Emoji::ALPHABET[0], '🚀');
    assert_eq!(Emoji::ALPHABET[1], '🪐');
    assert_eq!(Emoji::ALPHABET[255], '🥂');
}

#[test]
fn get_index_gives_each_entry_its_position() {
    for i in 0..256usize {
        assert_eq!(Emoji::get_index(Emoji::ALPHABET[i]), i);
    }
}

#[test]
fn resolve_gives_each_entry_its_position() {
    for i in 0..256usize {
        assert_eq!(Emoji::resolve(Emoji::ALPHABET[i]), Some(i as u8));
    }
}

#[test]
fn resolve_knows_no_foreign_codepoint() {
    assert_eq!(Emoji::resolve('a'), None);
    assert_eq!(Emoji::resolve(' '), None);
    assert_eq!(Emoji::resolve('\u{0}'), None);
    assert_eq!(Emoji::resolve('\u{10FFFF}'), None);
    assert_eq!(Emoji::resolve('🦀'), None);
    // the variation selector that often follows '☄' and '❤' in written text
    assert_eq!(Emoji::resolve('\u{FE0F}'), None);
}

#[test]
fn resolve_agrees_with_a_scan_of_the_table() {
    let mut c = 0u32;
    while c <= 0x1FFFF {
        if let Some(ch) = char::from_u32(c) {
            let scanned = Emoji::ALPHABET.iter().position(|&x| x == ch).map(|i| i as u8);
            assert_eq!(Emoji::resolve(ch), scanned);
        }
        c += 1;
    }
}

#[test]
fn emoji_is_default_and_debug() {
    let e: Emoji = Default::default();
    assert_eq!(format!("{:?}", e), "Emoji");
}
