//! A parsed YAML document as a plain tree, and lookups in it.

use vstd::prelude::*;
use crate::text::same_text;

verus! {

/// A YAML value. Mapping keys are kept as text, in document order; numbers
/// are kept in their written form.
#[derive(Debug)]
pub enum Yaml {
    Null,
    Bool(bool),
    Number(String),
    Str(String),
    List(Vec<Yaml>),
    /// A mapping, as its keys and the values under them, position by position.
    Mapping(Vec<String>, Vec<Yaml>),
}

/// The value of the first entry whose key is `key`.
pub open spec fn find_entry(keys: Seq<String>, values: Seq<Yaml>, key: Seq<char>) -> Option<Yaml>
    decreases keys.len(),
{
    if keys.len() == 0 || values.len() == 0 {
        None
    } else if keys[0]@ == key {
        Some(values[0])
    } else {
        find_entry(keys.drop_first(), values.drop_first(), key)
    }
}

/// The value under `key` when `y` is a mapping that has that key.
pub open spec fn field(y: Yaml, key: Seq<char>) -> Option<Yaml> {
    match y {
        Yaml::Mapping(keys, values) => find_entry(keys@, values@, key),
        _ => None,
    }
}

/// `field` of the value in `o`, if there is one.
pub open spec fn field_of(o: Option<Yaml>, key: Seq<char>) -> Option<Yaml> {
    match o {
        Some(y) => field(y, key),
        None => None,
    }
}

/// The text under `key`, when there is a text there.
pub open spec fn text_field(y: Yaml, key: Seq<char>) -> Option<String> {
    match field(y, key) {
        Some(Yaml::Str(s)) => Some(s),
        _ => None,
    }
}

/// An optional flag: absent reads as `false`; anything but a boolean is malformed.
pub open spec fn flag_field(y: Yaml, key: Seq<char>) -> Option<bool> {
    match field(y, key) {
        None => Some(false),
        Some(Yaml::Bool(b)) => Some(b),
        _ => None,
    }
}

/// The value under `key` in `y`, if `y` is a mapping that has that key.
pub fn get_field<'a>(y: &'a Yaml, key: &str) -> (r: Option<&'a Yaml>)
    ensures
        match r {
            Some(v) => field(*y, key@) == Some(*v),
            None => field(*y, key@) is None,
        },
{
    match y {
        Yaml::Mapping(keys, values) => {
            let mut k: usize = 0;
            assert(keys@.subrange(0, keys.len() as int) =~= keys@);
            assert(values@.subrange(0, values.len() as int) =~= values@);
            while k < keys.len() && k < values.len()
                invariant
                    field(*y, key@) == find_entry(
                        keys@.subrange(k as int, keys.len() as int),
                        values@.subrange(k as int, values.len() as int),
                        key@,
                    ),
                    k <= keys.len(),
                    k <= values.len(),
                decreases keys.len() - k,
            {
                assert(keys@.subrange(k as int, keys.len() as int).drop_first() =~= keys@.subrange(
                    k + 1,
                    keys.len() as int,
                ));
                assert(values@.subrange(k as int, values.len() as int).drop_first()
                    =~= values@.subrange(k + 1, values.len() as int));
                assert(keys@.subrange(k as int, keys.len() as int)[0] == keys@[k as int]);
                assert(values@.subrange(k as int, values.len() as int)[0] == values@[k as int]);
                if same_text(keys[k].as_str(), key) {
                    assert(find_entry(
                        keys@.subrange(k as int, keys.len() as int),
                        values@.subrange(k as int, values.len() as int),
                        key@,
                    ) == Some(values@[k as int]));
                    return Some(&values[k]);
                }
                k = k + 1;
            }
            None
        },
        _ => None,
    }
}

/// The text under `key` in `y`, if there is one.
pub fn get_text<'a>(y: &'a Yaml, key: &str) -> (r: Option<&'a String>)
    ensures
        match r {
            Some(s) => text_field(*y, key@) == Some(*s),
            None => text_field(*y, key@) is None,
        },
{
    match get_field(y, key) {
        Some(Yaml::Str(s)) => Some(s),
        _ => None,
    }
}

/// The optional flag under `key` in `y`; `None` when it is not a boolean.
pub fn get_flag(y: &Yaml, key: &str) -> (r: Option<bool>)
    ensures
        r == flag_field(*y, key@),
{
    match get_field(y, key) {
        None => Some(false),
        Some(Yaml::Bool(b)) => Some(*b),
        _ => None,
    }
}

} // verus!
