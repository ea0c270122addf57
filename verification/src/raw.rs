//! The raw structured data handed to the schema parser: a tree of plain
//! values mirroring the shape of the bridge's JSON resource listing.
//! Transport code turns the wire bytes into this tree; everything from here
//! on is pure, verified computation.

use vstd::prelude::*;

verus! {

/// A numeric literal from the bridge.
///
/// Integral values are kept exactly. Any other number is carried opaquely as
/// the bit pattern of a 64-bit IEEE 754 value; the core never does arithmetic
/// on such a value, it only stores and hands it back.
#[derive(Clone, Copy, Debug, PartialEq, Eq, Structural)]
pub enum RawNumber {
    Uint(u64),
    Float(u64),
}

/// One key/value pair of a raw object.
#[derive(Debug)]
pub struct RawField {
    pub key: String,
    pub value: RawValue,
}

/// A raw structured value: the input to the resource-schema parser.
#[derive(Debug)]
pub enum RawValue {
    Null,
    Bool(bool),
    Num(RawNumber),
    Str(String),
    Arr(Vec<RawValue>),
    Obj(Vec<RawField>),
}

/// The value of the first field named `key`, if any. The bridge's objects
/// carry each key at most once, so first match and last match coincide.
pub open spec fn lookup_field(fields: Seq<RawField>, key: Seq<char>) -> Option<RawValue>
    decreases fields.len(),
{
    if fields.len() == 0 {
        None
    } else if fields[0].key@ == key {
        Some(fields[0].value)
    } else {
        lookup_field(fields.subrange(1, fields.len() as int), key)
    }
}

/// Relies on `str`'s `PartialEq`: two string slices are equal exactly when
/// their character sequences are equal.
#[verifier::external_body]
pub fn str_eq(a: &str, b: &str) -> (r: bool)
    ensures
        r == (a@ == b@),
{
    a == b
}

/// Looks a key up in a raw object's field list.
pub fn obj_get<'a>(fields: &'a Vec<RawField>, key: &str) -> (r: Option<&'a RawValue>)
    ensures
        match r {
            Some(v) => lookup_field(fields@, key@) == Some(*v),
            None => lookup_field(fields@, key@) is None,
        },
{
    proof {
        assert(fields@.subrange(0, fields@.len() as int) =~= fields@);
    }
    let mut i: usize = 0;
    while i < fields.len()
        invariant
            i <= fields.len(),
            lookup_field(fields@, key@) == lookup_field(
                fields@.subrange(i as int, fields@.len() as int),
                key@,
            ),
        decreases fields.len() - i,
    {
        if str_eq(fields[i].key.as_str(), key) {
            proof {
                assert(fields@.subrange(i as int, fields@.len() as int)[0] == fields@[i as int]);
            }
            return Some(&fields[i].value);
        }
        proof {
            let tail = fields@.subrange(i as int, fields@.len() as int);
            assert(tail[0] == fields@[i as int]);
            assert(tail.subrange(1, tail.len() as int) =~= fields@.subrange(
                i + 1,
                fields@.len() as int,
            ));
        }
        i = i + 1;
    }
    None
}

} // verus!
