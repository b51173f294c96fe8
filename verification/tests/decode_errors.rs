use base256emoji::{Base, DecodeError, Emoji};

#[test]
fn foreign_codepoint_is_reported_with_its_position() {
    assert_eq!(Emoji::decode("🚀🪐x☄"), Err(DecodeError { codepoint: 'x', index: 2 }));
}

#[test]
fn foreign_codepoint_at_the_start() {
    assert_eq!(Emoji::decode("a🚀"), Err(DecodeError { codepoint: 'a', index: 0 }));
    assert_eq!(Emoji::decode("a"), Err(DecodeError { codepoint: 'a', index: 0 }));
}

#[test]
fn foreign_codepoint_at_the_end() {
    assert_eq!(Emoji::decode("🚀🪐☄🛰!"), Err(DecodeError { codepoint: '!', index: 4 }));
}

#[test]
fn index_counts_codepoints_not_bytes() {
    // four symbols of three and four bytes each stand before the foreign one
    let text = "☄🚀☀🪐z";
    assert_eq!(text.len(), 3 + 4 + 3 + 4 + 1);
    assert_eq!(Emoji::decode(text), Err(DecodeError { codepoint: 'z', index: 4 }));
}

#[test]
fn what_stands_before_does_not_change_the_index() {
    let prefixes = ["🚀🚀🚀", "🥂☄💻", "☕⚡⚽"];
    for p in prefixes {
        let text = format!("{}é{}", p, "🌍🌏");
        assert_eq!(Emoji::decode(&text), Err(DecodeError { codepoint: 'é', index: 3 }));
    }
}

#[test]
fn only_the_first_foreign_codepoint_is_reported() {
    assert_eq!(Emoji::decode("🚀q🪐r"), Err(DecodeError { codepoint: 'q', index: 1 }));
}

#[test]
fn variation_selector_is_foreign() {
    // "❤️" as most keyboards write it: the heart and U+FE0F
    assert_eq!(
        Emoji::decode("❤\u{FE0F}"),
        Err(DecodeError { codepoint: '\u{FE0F}', index: 1 })
    );
}

#[test]
fn error_reads_as_a_sentence() {
    let e = DecodeError { codepoint: 'x', index: 2 };
    assert_eq!(e.to_string(), "x at index 2 is not part of the alphabet");
    let e = DecodeError { codepoint: '🦀', index: 0 };
    assert_eq!(e.to_string(), "🦀 at index 0 is not part of the alphabet");
    let e = DecodeError { codepoint: 'q', index: 1234567890 };
    assert_eq!(e.to_string(), "q at index 1234567890 is not part of the alphabet");
    let e = DecodeError { codepoint: 'q', index: usize::MAX };
    assert_eq!(
        e.to_string(),
        format!("q at index {} is not part of the alphabet", usize::MAX)
    );
}

#[test]
fn error_of_a_failed_decode_reads_as_a_sentence() {
    let e = Emoji::decode("🚀🪐🌌🌑🌒🌓🌔🌕🌖🌗~").unwrap_err();
    assert_eq!(e.to_string(), "~ at index 10 is not part of the alphabet");
}

#[test]
fn error_can_be_cloned_and_compared() {
    let e = DecodeError { codepoint: 'x', index: 7 };
    assert_eq!(e.clone(), e);
    assert_ne!(e, DecodeError { codepoint: 'x', index: 8 });
    assert_ne!(e, DecodeError { codepoint: 'y', index: 7 });
    assert_eq!(format!("{:?}", e), "DecodeError { codepoint: 'x', index: 7 }");
}
