//! The substitution table that turns the site's obfuscated glyphs back into
//! readable characters.
use vstd::prelude::*;
use vstd::std_specs::hash::obeys_key_model;

use std::collections::HashMap;

verus! {

#[verifier::external_type_specification]
#[verifier::external_body]
pub struct ExJsonError(serde_json::Error);

/// The (key, value) pairs of a JSON object whose keys and values are single
/// characters, in ascending key order; `None` when `json` is not such an
/// object.
pub uninterp spec fn json_char_pairs(json: Seq<char>) -> Option<Seq<(char, char)>>;

/// The elements of a JSON array of single characters; `None` when `json` is
/// not such an array.
pub uninterp spec fn json_char_list(json: Seq<char>) -> Option<Seq<char>>;

/// Relies on `serde_json::from_str` into a `BTreeMap<char, char>`, whose
/// entries are then listed in the map's (ascending) key order.
#[verifier::external_body]
fn parse_char_pairs(json: &str) -> (r: Result<Vec<(char, char)>, serde_json::Error>)
    ensures
        match r {
            Ok(v) => json_char_pairs(json@) == Some(v@),
            Err(_) => json_char_pairs(json@) is None,
        },
{
    serde_json::from_str::<std::collections::BTreeMap<char, char>>(json).map(|m| m.into_iter().collect())
}

/// Relies on `serde_json::from_str` into a `Vec<char>`.
#[verifier::external_body]
fn parse_char_list(json: &str) -> (r: Result<Vec<char>, serde_json::Error>)
    ensures
        match r {
            Ok(v) => json_char_list(json@) == Some(v@),
            Err(_) => json_char_list(json@) is None,
        },
{
    serde_json::from_str::<Vec<char>>(json)
}

/// The table keys a character by its Unicode scalar value.
pub open spec fn code(c: char) -> u32 {
    c as u32
}

/// The table that results from entering `pairs` in order into `m`, a later
/// pair for the same character replacing an earlier one.
pub open spec fn enter_pairs(m: Map<u32, char>, pairs: Seq<(char, char)>) -> Map<u32, char>
    decreases pairs.len(),
{
    if pairs.len() == 0 {
        m
    } else {
        enter_pairs(m, pairs.drop_last()).insert(code(pairs.last().0), pairs.last().1)
    }
}

/// The table that maps each character of `chars` to a space.
pub open spec fn blank_table(chars: Seq<char>) -> Map<u32, char> {
    Map::new(|k: u32| exists|i: int| 0 <= i < chars.len() && code(#[trigger] chars[i]) == k, |k: u32| ' ')
}

/// Replacement characters, keyed by the code of the character they replace.
pub struct SecretMap(HashMap<u32, char>);

impl View for SecretMap {
    type V = Map<u32, char>;

    closed spec fn view(&self) -> Map<u32, char> {
        self.0@
    }
}

impl SecretMap {
    /// An empty table.
    pub fn new() -> (r: Self)
        ensures
            r@ == Map::<u32, char>::empty(),
    {
        SecretMap(HashMap::new())
    }

    /// Makes `to` the replacement of `from`.
    pub fn insert(&mut self, from: char, to: char)
        ensures
            final(self)@ == old(self)@.insert(code(from), to),
    {
        proof {
            broadcast use vstd::std_specs::hash::group_hash_axioms;
        }
        self.0.insert(from as u32, to);
    }

    /// The replacement of `key`, if the table has one.
    pub fn try_get(&self, key: char) -> (r: Option<char>)
        ensures
            r == (if self@.contains_key(code(key)) {
                Some(self@[code(key)])
            } else {
                None
            }),
    {
        proof {
            broadcast use vstd::std_specs::hash::group_hash_axioms;
        }
        match self.0.get(&(key as u32)) {
            Some(c) => Some(*c),
            None => None,
        }
    }

    /// Reads a table from a JSON object mapping each obfuscated character to
    /// its replacement.
    pub fn try_from_json(json_str: &str) -> (r: Result<Self, serde_json::Error>)
        ensures
            r is Ok <==> json_char_pairs(json_str@) is Some,
            r is Ok ==> r->Ok_0@ == enter_pairs(Map::empty(), json_char_pairs(json_str@)->0),
    {
        let pairs = parse_char_pairs(json_str)?;
        let mut table = SecretMap::new();
        let mut i: usize = 0;
        while i < pairs.len()
            invariant
                0 <= i <= pairs@.len(),
                table@ == enter_pairs(Map::empty(), pairs@.take(i as int)),
            decreases pairs@.len() - i,
        {
            let (from, to) = pairs[i];
            assert(pairs@.take(i as int + 1).drop_last() =~= pairs@.take(i as int));
            table.insert(from, to);
            i = i + 1;
        }
        assert(pairs@.take(pairs@.len() as int) =~= pairs@);
        Ok(table)
    }

    /// Reads a JSON array of characters that the site renders as blanks,
    /// and maps each of them to a space.
    pub fn parse_blank_json(json_str: &str) -> (r: Result<Self, serde_json::Error>)
        ensures
            r is Ok <==> json_char_list(json_str@) is Some,
            r is Ok ==> r->Ok_0@ == blank_table(json_char_list(json_str@)->0),
    {
        let chars = parse_char_list(json_str)?;
        let mut table = SecretMap::new();
        let mut i: usize = 0;
        while i < chars.len()
            invariant
                0 <= i <= chars@.len(),
                table@ == blank_table(chars@.take(i as int)),
            decreases chars@.len() - i,
        {
            let c = chars[i];
            table.insert(c, ' ');
            i = i + 1;
            assert(table@ =~= blank_table(chars@.take(i as int))) by {
                let s = chars@.take(i as int);
                assert(s[i - 1] == c);
                assert forall|k: u32| #[trigger] table@.contains_key(k) implies blank_table(
                    s,
                ).contains_key(k) by {
                    if k != code(c) {
                        let j = choose|j: int|
                            0 <= j < i - 1 && code(#[trigger] chars@.take(i - 1)[j]) == k;
                        assert(s[j] == chars@.take(i - 1)[j]);
                    }
                }
                assert forall|k: u32| #[trigger] blank_table(s).contains_key(k) implies table@.contains_key(k) by {
                    let j = choose|j: int| 0 <= j < s.len() && code(#[trigger] s[j]) == k;
                    if j < i - 1 {
                        assert(chars@.take(i - 1)[j] == s[j]);
                    }
                }
            }
        }
        assert(chars@.take(chars@.len() as int) =~= chars@);
        Ok(table)
    }

    /// Every entry of `a` and of `b`; where both have one for a character,
    /// `b`'s wins.
    pub fn combine(a: Self, b: Self) -> (r: Self)
        ensures
            r@ == a@.union_prefer_right(b@),
    {
        proof {
            broadcast use vstd::std_specs::hash::group_hash_axioms;
        }
        let mut map = a.0;
        let ghost bm = b@;
        for entry in it: b.0.iter()
            invariant
                bm == b@,
                forall|k: u32|
                    #[trigger] map@.contains_key(k) <==> (a@.contains_key(k) || exists|j: int|
                        0 <= j < it.index() && *it.seq()[j].0 == k),
                forall|k: u32|
                    #[trigger] map@.contains_key(k) ==> map@[k] == if bm.contains_key(k) && (exists|j: int|
                        0 <= j < it.index() && *it.seq()[j].0 == k) {
                        bm[k]
                    } else {
                        a@[k]
                    },
        {
            let (k, v) = entry;
            map.insert(*k, *v);
        }
        SecretMap(map)
    }
}

impl SecretMap {
    /// The site's table: the font substitutions, with every blank character
    /// mapped to a space over them.
    pub fn from_font_and_blank(font_json: &str, blank_json: &str) -> (r: Result<Self, serde_json::Error>)
        ensures
            r is Ok <==> (json_char_pairs(font_json@) is Some && json_char_list(blank_json@) is Some),
            r is Ok ==> r->Ok_0@ == enter_pairs(Map::empty(), json_char_pairs(font_json@)->0).union_prefer_right(
                blank_table(json_char_list(blank_json@)->0),
            ),
    {
        let font = SecretMap::try_from_json(font_json)?;
        let blank = SecretMap::parse_blank_json(blank_json)?;
        Ok(SecretMap::combine(font, blank))
    }
}

} // verus!
