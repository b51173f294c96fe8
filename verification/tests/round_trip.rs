use base256emoji::{Base, Emoji};

#[test]
fn byte1_rt() {
    let mut org = vec![0u8; 1];
    for i in 0..255 {
        org[0] = i;
        let r = match Emoji::decode(Emoji::encode(&org).as_str()) {
            Ok(x) => x,
            Err(e) => {
                panic!("{}", e.to_string());
            }
        };
        assert_eq!(org, r)
    }
}

#[test]
fn b() {
    println!("{}", Emoji::ALPHABET.iter().collect::<String>())
}

#[test]
fn every_byte_value_round_trips() {
    for b in 0..=255u8 {
        let encoded = Emoji::encode(&vec![b]);
        assert_eq!(encoded.chars().count(), 1);
        assert_eq!(encoded.chars().next(), Some(Emoji::ALPHABET[b as usize]));
        assert_eq!(Emoji::decode(&encoded), Ok(vec![b]));
    }
}

#[test]
fn all_bytes_in_one_sequence_round_trip() {
    let bytes: Vec<u8> = (0..=255u8).collect();
    let encoded = Emoji::encode(&bytes);
    assert_eq!(encoded.chars().count(), 256);
    assert_eq!(Emoji::decode(&encoded), Ok(bytes));
}

#[test]
fn repeated_and_mixed_bytes_round_trip() {
    let bytes: Vec<u8> = vec![0, 0, 255, 1, 254, 128, 128, 7, 0, 255];
    let encoded = Emoji::encode(&bytes);
    assert_eq!(Emoji::decode(&encoded), Ok(bytes));
    let mut long: Vec<u8> = Vec::new();
    for i in 0..5000u32 {
        long.push((i * 7 % 256) as u8);
    }
    assert_eq!(Emoji::decode(&Emoji::encode(&long)), Ok(long));
}

#[test]
fn empty_input_gives_empty_output() {
    assert_eq!(Emoji::encode(&Vec::new()), "");
    assert_eq!(Emoji::decode(""), Ok(Vec::new()));
}

#[test]
fn encode_writes_symbols_in_order_without_separators() {
    let encoded = Emoji::encode(&vec![0, 1, 2, 255]);
    assert_eq!(encoded, "🚀🪐☄🥂");
    let widths: usize = [0usize, 1, 2, 255].iter().map(|&b| Emoji::ALPHABET[b].len_utf8()).sum();
    assert_eq!(encoded.len(), widths);
    assert_eq!(encoded.len(), 4 + 4 + 3 + 4);
}

#[test]
fn golden_hi_juan() {
    let bytes = "hi juan!".as_bytes().to_vec();
    let text = "😴🌟😅😬🤘🤤😻👏";
    assert_eq!(Emoji::encode(&bytes), text);
    assert_eq!(Emoji::decode(text), Ok(bytes));
}

#[test]
fn golden_yes_mani() {
    let bytes = "yes mani !".as_bytes().to_vec();
    let text = "🏃✋🌈😅🌷🤤😻🌟😅👏";
    assert_eq!(Emoji::encode(&bytes), text);
    assert_eq!(Emoji::decode(text), Ok(bytes));
}
