//! The reverse index: the alphabet keyed by codepoint, built once when the
//! program runs and then only read.

use crate::alphabet::{byte_of, is_alphabet, lemma_byte_of_position, Alphabet};
use crate::codec::{decode_by, decode_spec, outcome};
use crate::error::DecodeError;
use heapless::FnvIndexMap;
use vstd::prelude::*;

verus! {

/// `heapless::IndexMap`, the fixed-capacity hash map that holds the index.
#[verifier::external_type_specification]
#[verifier::external_body]
#[verifier::reject_recursive_types(K)]
#[verifier::reject_recursive_types(V)]
#[verifier::reject_recursive_types(S)]
pub struct ExIndexMap<K, V, S, const N: usize>(heapless::IndexMap<K, V, S, N>);

/// `hash32::BuildHasherDefault`, which `heapless::FnvIndexMap` names as the
/// map's source of hashers.
#[verifier::external_type_specification]
#[verifier::external_body]
#[verifier::reject_recursive_types(H)]
pub struct ExBuildHasherDefault<H>(hash32::BuildHasherDefault<H>);

/// `hash32::FnvHasher`, the hasher of `heapless::FnvIndexMap`.
#[verifier::external_type_specification]
#[verifier::external_body]
pub struct ExFnvHasher(hash32::FnvHasher);

/// The keys that a map holds, each with its value. The order in which the
/// map keeps them is left out.
pub uninterp spec fn entries(map: FnvIndexMap<char, usize, 256>) -> Map<char, usize>;

/// `heapless::IndexMap::new`: the new map holds no key.
#[verifier::external_body]
fn map_new() -> (map: FnvIndexMap<char, usize, 256>)
    ensures
        entries(map).dom() == Set::<char>::empty(),
{
    FnvIndexMap::new()
}

/// `heapless::IndexMap::insert`. The call fails only where the key is new
/// to a map that holds 256 keys, which is all it has room for: the pair is
/// then handed back and the map is left as it was. Everywhere else the map
/// afterwards holds the key with the new value and the other keys as before,
/// and the result is the value that the key had, if the map held it.
#[verifier::external_body]
fn map_insert(map: &mut FnvIndexMap<char, usize, 256>, key: char, value: usize) -> (r: Result<
    Option<usize>,
    (char, usize),
>)
    ensures
        r is Err <==> !entries(*old(map)).contains_key(key) && entries(*old(map)).dom().len()
            == 256,
        r matches Ok(previous) ==> {
            &&& entries(*final(map)) == entries(*old(map)).insert(key, value)
            &&& previous == entries(*old(map)).get(key)
        },
        r matches Err(pair) ==> pair == (key, value) && entries(*final(map)) == entries(
            *old(map),
        ),
{
    map.insert(key, value)
}

/// `heapless::IndexMap::get`: the value that the map holds for the key, or
/// `None` where it does not hold the key. The value is copied out of the
/// reference that the map hands out.
#[verifier::external_body]
fn map_get(map: &FnvIndexMap<char, usize, 256>, key: char) -> (r: Option<usize>)
    ensures
        r == entries(*map).get(key),
{
    map.get(&key).copied()
}

/// An alphabet keyed by codepoint.
pub struct ReverseIndex {
    map: FnvIndexMap<char, usize, 256>,
    table: Ghost<Seq<char>>,
}

impl ReverseIndex {
    /// The index holds each codepoint of its alphabet with the position at
    /// which it stands there, and nothing else.
    #[verifier::type_invariant]
    spec fn well_formed(self) -> bool {
        &&& is_alphabet(self.table@)
        &&& forall|c: char| #[trigger]
            entries(self.map).contains_key(c) <==> self.table@.contains(c)
        &&& forall|i: int|
            0 <= i < 256 ==> entries(self.map)[#[trigger] self.table@[i]] == i
    }

    /// The alphabet that the index was built from.
    pub closed spec fn alphabet(self) -> Seq<char> {
        self.table@
    }

    /// Builds the index of `alphabet`, one entry per byte value, or finds
    /// that a codepoint occurs twice in it.
    pub fn build(alphabet: &Alphabet) -> (r: Option<ReverseIndex>)
        ensures
            r is Some <==> is_alphabet(alphabet@),
            r matches Some(index) ==> index.alphabet() == alphabet@,
    {
        let mut map = map_new();
        let mut i: usize = 0;
        while i < 256
            invariant
                i <= 256,
                entries(map).dom().finite(),
                entries(map).dom().len() == i,
                forall|j: int, k: int| 0 <= j < k < i ==> alphabet@[j] != alphabet@[k],
                forall|c: char| #[trigger]
                    entries(map).contains_key(c) <==> exists|j: int|
                        0 <= j < i && alphabet@[j] == c,
                forall|j: int| 0 <= j < i ==> entries(map)[#[trigger] alphabet@[j]] == j,
            decreases 256 - i,
        {
            let c = alphabet[i];
            let ghost before = entries(map);
            match map_insert(&mut map, c, i) {
                Ok(None) => {
                    assert(!before.contains_key(c));
                    assert(entries(map).dom() == before.dom().insert(c));
                },
                Ok(Some(_)) => {
                    assert(before.contains_key(c));
                    let ghost j = choose|j: int| 0 <= j < i && alphabet@[j] == c;
                    assert(alphabet@[j] == alphabet@[i as int]);
                    return None;
                },
                Err(_) => {
                    assert(false);
                    return None;
                },
            }
            i += 1;
        }
        assert forall|c: char| #[trigger]
            entries(map).contains_key(c) <==> alphabet@.contains(c) by {
            if alphabet@.contains(c) {
                let j = alphabet@.index_of(c);
                assert(0 <= j < 256 && alphabet@[j] == c);
            }
        }
        Some(ReverseIndex { map, table: Ghost(alphabet@) })
    }

    /// The byte value of `c`, or `None` where `c` is not part of the
    /// alphabet.
    pub fn resolve(&self, c: char) -> (r: Option<u8>)
        ensures
            r == byte_of(self.alphabet(), c),
    {
        proof {
            use_type_invariant(self);
        }
        match map_get(&self.map, c) {
            Some(i) => {
                proof {
                    let j = self.table@.index_of(c);
                    assert(0 <= j < 256 && self.table@[j] == c);
                    lemma_byte_of_position(self.table@, c, j);
                }
                Some(i as u8)
            },
            None => None,
        }
    }

    /// Decodes `input` over the alphabet of this index: the byte value of
    /// every codepoint, or the first codepoint that has none.
    pub fn decode(&self, input: &str) -> (r: Result<Vec<u8>, DecodeError>)
        ensures
            outcome(r) == decode_spec(self.alphabet(), input@),
    {
        let resolve = |c: char| -> (b: Option<u8>)
            ensures
                b == byte_of(self.alphabet(), c),
            { self.resolve(c) };
        decode_by(input, resolve, Ghost(self.alphabet()))
    }
}

} // verus!
