use base256emoji::{Alphabet, Base, DecodeError, Emoji, ReverseIndex};

#[test]
fn index_of_the_emoji_alphabet_can_be_built() {
    assert!(ReverseIndex::build(&Emoji::ALPHABET).is_some());
}

#[test]
fn index_resolves_each_entry_to_its_position() {
    let index = ReverseIndex::build(&Emoji::ALPHABET).unwrap();
    for i in 0..256usize {
        assert_eq!(index.resolve(Emoji::ALPHABET[i]), Some(i as u8));
    }
}

#[test]
fn index_knows_no_foreign_codepoint() {
    let index = ReverseIndex::build(&Emoji::ALPHABET).unwrap();
    assert_eq!(index.resolve('a'), None);
    assert_eq!(index.resolve('\u{FE0F}'), None);
    assert_eq!(index.resolve('🦀'), None);
}

#[test]
fn index_agrees_with_the_compiled_lookup() {
    let index = ReverseIndex::build(&Emoji::ALPHABET).unwrap();
    let mut c = 0u32;
    while c <= 0x1FFFF {
        if let Some(ch) = char::from_u32(c) {
            assert_eq!(index.resolve(ch), Emoji::resolve(ch));
        }
        c += 1;
    }
}

#[test]
fn index_decodes_as_the_alphabet_does() {
    let index = ReverseIndex::build(&Emoji::ALPHABET).unwrap();
    let bytes: Vec<u8> = (0..=255u8).rev().collect();
    let text = Emoji::encode(&bytes);
    assert_eq!(index.decode(&text), Ok(bytes));
    assert_eq!(index.decode(""), Ok(Vec::new()));
    assert_eq!(index.decode("🚀🪐x"), Err(DecodeError { codepoint: 'x', index: 2 }));
    assert_eq!(index.decode("😴🌟😅😬🤘🤤😻👏"), Ok("hi juan!".as_bytes().to_vec()));
}

#[test]
fn table_with_a_codepoint_twice_has_no_index() {
    let mut table: Alphabet = Emoji::ALPHABET;
    table[200] = table[3];
    assert!(ReverseIndex::build(&table).is_none());
    let mut table: Alphabet = Emoji::ALPHABET;
    table[255] = table[0];
    assert!(ReverseIndex::build(&table).is_none());
    assert!(ReverseIndex::build(&['a'; 256]).is_none());
}

#[test]
fn index_of_another_alphabet() {
    let mut table: Alphabet = ['\u{0}'; 256];
    for i in 0..256u32 {
        table[i as usize] = char::from_u32(0x2800 + i).unwrap();
    }
    let index = ReverseIndex::build(&table).unwrap();
    for i in 0..256u32 {
        assert_eq!(index.resolve(char::from_u32(0x2800 + i).unwrap()), Some(i as u8));
    }
    assert_eq!(index.resolve('\u{2900}'), None);
    assert_eq!(index.decode("\u{2801}\u{28FF}\u{2800}"), Ok(vec![1, 255, 0]));
    assert_eq!(
        index.decode("\u{2801}🚀"),
        Err(DecodeError { codepoint: '🚀', index: 1 })
    );
}
