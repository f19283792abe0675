//! The host's keyboard as the pad of the machine.

use crate::window::error::WindowError;
use std::collections::HashMap;
use vstd::prelude::*;

verus! {

/// The scancode of the key `A`; the letters follow one another up to `Z`.
pub const SCANCODE_A: i32 = 4;

/// The scancode of the key `1`; the digits follow one another up to `9`.
pub const SCANCODE_1: i32 = 30;

/// The scancode of the key `0`, which comes after `9`.
pub const SCANCODE_0: i32 = 39;

/// The keys of the pad as the host's keyboard sees them: which scancode stands
/// for which key of the pad, and which keys of the pad are down.
///
/// A scancode is the number that USB gives a key of the keyboard by its place,
/// whatever is printed on it.
#[derive(Debug)]
pub struct KeyboardEngine {
    map: HashMap<i32, usize>,
    buffer: Vec<bool>,
}

/// What a keyboard holds, as plain values.
#[verifier::ext_equal]
pub struct KeyboardState {
    /// The number of the pad key for which each scancode stands.
    pub map: Map<i32, usize>,
    /// Which keys of the pad are down.
    pub buffer: Seq<bool>,
}

/// The lower-case letter for an upper-case one of the first 128 characters;
/// any other character is itself.
pub open spec fn spec_lowercase(c: char) -> char {
    if 'A' <= c <= 'Z' {
        ((c as u8) + 32) as char
    } else {
        c
    }
}

/// The scancode of the key that carries the label `c`, which is a digit or a
/// letter of either case; no other label has a key.
pub open spec fn spec_scancode(c: char) -> Option<i32> {
    let lower = spec_lowercase(c);
    if '1' <= lower <= '9' {
        Some((SCANCODE_1 + (lower as u8 - '1' as u8)) as i32)
    } else if lower == '0' {
        Some(SCANCODE_0)
    } else if 'a' <= lower <= 'z' {
        Some((SCANCODE_A + (lower as u8 - 'a' as u8)) as i32)
    } else {
        None
    }
}

/// The scancodes of the first `k` labels of `keys`, each with the place of its
/// label; of two labels with one scancode the later counts.
pub open spec fn spec_mapped(keys: Seq<char>, k: int) -> Map<i32, usize>
    decreases k,
{
    if k <= 0 {
        Map::empty()
    } else {
        match spec_scancode(keys[k - 1]) {
            Some(code) => spec_mapped(keys, k - 1).insert(code, (k - 1) as usize),
            None => spec_mapped(keys, k - 1),
        }
    }
}

/// The place of the first label of `keys` at or after `from` that has no
/// scancode, if there is one.
pub open spec fn spec_unknown_from(keys: Seq<char>, from: int) -> Option<int>
    decreases keys.len() - from,
{
    if from >= keys.len() {
        None
    } else if spec_scancode(keys[from]) is None {
        Some(from)
    } else {
        spec_unknown_from(keys, from + 1)
    }
}

impl View for KeyboardEngine {
    type V = KeyboardState;

    closed spec fn view(&self) -> KeyboardState {
        KeyboardState { map: self.map@, buffer: self.buffer@ }
    }
}

impl KeyboardState {
    /// Whether every scancode stands for a key that the pad has.
    pub open spec fn wf(self) -> bool {
        forall|code: i32| #[trigger] self.map.contains_key(code) ==> self.map[code] < self.buffer.len()
    }

    /// The keyboard after the key with the scancode `code` went down
    /// (`down`) or up (`!down`): the key of the pad that it stands for follows,
    /// and a scancode that stands for none changes nothing.
    pub open spec fn spec_key(self, code: i32, down: bool) -> KeyboardState {
        if self.map.contains_key(code) {
            KeyboardState { buffer: self.buffer.update(self.map[code] as int, down), ..self }
        } else {
            self
        }
    }
}

impl KeyboardEngine {
    #[verifier::type_invariant]
    spec fn inv(self) -> bool {
        self@.wf()
    }

    /// A keyboard for a pad whose keys carry the labels `keys`, all of them
    /// up. A label that no key of the keyboard carries is refused with
    /// `UnknownMapping`, the first such label.
    pub fn new(keys: &[char]) -> (r: Result<KeyboardEngine, WindowError>)
        ensures
            match spec_unknown_from(keys@, 0) {
                Some(place) => r == Err::<KeyboardEngine, WindowError>(
                    WindowError::UnknownMapping(keys@[place]),
                ),
                None => r matches Ok(keyboard) && keyboard@ == (KeyboardState {
                    map: spec_mapped(keys@, keys@.len() as int),
                    buffer: Seq::new(keys@.len(), |k: int| false),
                }),
            },
    {
        broadcast use vstd::std_specs::hash::group_hash_axioms;

        let mut map: HashMap<i32, usize> = HashMap::new();
        let mut buffer: Vec<bool> = Vec::new();
        let mut k: usize = 0;
        while k < keys.len()
            invariant
                k <= keys@.len(),
                spec_unknown_from(keys@, 0) == spec_unknown_from(keys@, k as int),
                map@ == spec_mapped(keys@, k as int),
                buffer@ == Seq::new(k as nat, |j: int| false),
                forall|code: i32| #[trigger] map@.contains_key(code) ==> map@[code] < k,
            decreases keys@.len() - k,
        {
            match KeyboardEngine::get_scancode(keys[k]) {
                Ok(code) => {
                    map.insert(code, k);
                },
                Err(error) => {
                    return Err(error);
                },
            }
            buffer.push(false);
            k += 1;
        }
        Ok(KeyboardEngine { map, buffer })
    }

    /// The key with the scancode `key` went down.
    pub fn key_down(&mut self, key: i32)
        ensures
            final(self)@ == old(self)@.spec_key(key, true),
    {
        broadcast use vstd::std_specs::hash::group_hash_axioms;

        proof {
            use_type_invariant(&*self);
        }

        match self.map.get(&key) {
            Some(idx) => {
                let idx: usize = *idx;
                assert(self@.map.contains_key(key) && self@.map[key] == idx);
                self.buffer[idx] = true;
            },
            None => {},
        }
    }

    /// The key with the scancode `key` went up.
    pub fn key_up(&mut self, key: i32)
        ensures
            final(self)@ == old(self)@.spec_key(key, false),
    {
        broadcast use vstd::std_specs::hash::group_hash_axioms;

        proof {
            use_type_invariant(&*self);
        }

        match self.map.get(&key) {
            Some(idx) => {
                let idx: usize = *idx;
                assert(self@.map.contains_key(key) && self@.map[key] == idx);
                self.buffer[idx] = false;
            },
            None => {},
        }
    }

    /// Which keys of the pad are down.
    pub fn get_memory(&self) -> (pad: &[bool])
        ensures
            pad@ == self@.buffer,
    {
        self.buffer.as_slice()
    }

    /// The scancode of the key that carries the label `c`, or `UnknownMapping`
    /// with the label where no key carries it.
    pub fn get_scancode(c: char) -> (r: Result<i32, WindowError>)
        ensures
            r == (match spec_scancode(c) {
                Some(code) => Ok::<i32, WindowError>(code),
                None => Err(WindowError::UnknownMapping(c)),
            }),
    {
        let lower: char = if 'A' <= c && c <= 'Z' {
            ((c as u8) + 32) as char
        } else {
            c
        };
        if '1' <= lower && lower <= '9' {
            Ok(SCANCODE_1 + ((lower as u8) - ('1' as u8)) as i32)
        } else if lower == '0' {
            Ok(SCANCODE_0)
        } else if 'a' <= lower && lower <= 'z' {
            Ok(SCANCODE_A + ((lower as u8) - ('a' as u8)) as i32)
        } else {
            Err(WindowError::UnknownMapping(c))
        }
    }
}

} // verus!
