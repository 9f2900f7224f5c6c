//! A plain JSON document tree, owned by the library, with a verified
//! renderer to UTF-8 bytes.
//!
//! Values of this type stand for the JSON documents the client composes:
//! request bodies, tool schemas, and the frames the socket bridge emits.
//! Numbers are either unsigned integers or fixed-point thousandths
//! (`Milli(700)` renders as `0.700`), which covers every number the
//! composed documents carry without a floating-point type.

use vstd::prelude::*;
use vstd::string::StringSliceAdditionalSpecFns;
use vstd::utf8::encode_utf8;

verus! {

#[derive(Debug)]
pub enum JsonValue {
    Null,
    Bool(bool),
    UInt(u64),
    /// A non-negative decimal number in thousandths: `Milli(700)` is 0.700.
    Milli(u64),
    Str(String),
    Arr(Vec<JsonValue>),
    Obj(Vec<(String, JsonValue)>),
}

/// Equality of two documents up to string views: the same shape, with
/// every text compared character for character.
pub open spec fn jv_eq(a: JsonValue, b: JsonValue) -> bool
    decreases a,
{
    match (a, b) {
        (JsonValue::Null, JsonValue::Null) => true,
        (JsonValue::Bool(x), JsonValue::Bool(y)) => x == y,
        (JsonValue::UInt(x), JsonValue::UInt(y)) => x == y,
        (JsonValue::Milli(x), JsonValue::Milli(y)) => x == y,
        (JsonValue::Str(x), JsonValue::Str(y)) => x@ == y@,
        (JsonValue::Arr(x), JsonValue::Arr(y)) => {
            &&& x@.len() == y@.len()
            &&& forall|i: int| 0 <= i < x@.len() ==> jv_eq(#[trigger] x@[i], y@[i])
        },
        (JsonValue::Obj(x), JsonValue::Obj(y)) => {
            &&& x@.len() == y@.len()
            &&& forall|i: int|
                0 <= i < x@.len() ==> (#[trigger] x@[i]).0@ == y@[i].0@ && jv_eq(x@[i].1, y@[i].1)
        },
        _ => false,
    }
}

impl Clone for JsonValue {
    /// A deep copy, equal to the original up to string views.
    #[verifier::loop_isolation(false)]
    fn clone(&self) -> (r: Self)
        ensures
            jv_eq(r, *self),
        decreases *self,
    {
        match self {
            JsonValue::Null => JsonValue::Null,
            JsonValue::Bool(b) => JsonValue::Bool(*b),
            JsonValue::UInt(n) => JsonValue::UInt(*n),
            JsonValue::Milli(n) => JsonValue::Milli(*n),
            JsonValue::Str(s) => JsonValue::Str(s.clone()),
            JsonValue::Arr(items) => {
                let mut out: Vec<JsonValue> = Vec::new();
                let mut i: usize = 0;
                while i < items.len()
                    invariant
                        i <= items@.len(),
                        out@.len() == i,
                        forall|j: int| 0 <= j < i ==> jv_eq(#[trigger] out@[j], items@[j]),
                    decreases items@.len() - i,
                {
                    proof {
                        assert(decreases_to!(*self => items@));
                        assert(decreases_to!(items@ => items@[i as int]));
                    }
                    out.push(items[i].clone());
                    i = i + 1;
                }
                JsonValue::Arr(out)
            },
            JsonValue::Obj(fields) => {
                let mut out: Vec<(String, JsonValue)> = Vec::new();
                let mut i: usize = 0;
                while i < fields.len()
                    invariant
                        i <= fields@.len(),
                        out@.len() == i,
                        forall|j: int|
                            0 <= j < i ==> (#[trigger] out@[j]).0@ == fields@[j].0@ && jv_eq(
                                out@[j].1,
                                fields@[j].1,
                            ),
                    decreases fields@.len() - i,
                {
                    proof {
                        assert(decreases_to!(*self => fields@));
                        assert(decreases_to!(fields@ => fields@[i as int]));
                        assert(decreases_to!(fields@[i as int] => fields@[i as int].1));
                    }
                    out.push((fields[i].0.clone(), fields[i].1.clone()));
                    i = i + 1;
                }
                JsonValue::Obj(out)
            },
        }
    }
}

impl JsonValue {
    /// The value under `key` in an object, taking the first binding;
    /// `None` for a missing key or a non-object.
    pub open spec fn spec_get(&self, key: Seq<char>) -> Option<JsonValue> {
        match self {
            JsonValue::Obj(fields) => Self::spec_get_in(fields@, key),
            _ => None,
        }
    }

    pub open spec fn spec_get_in(fields: Seq<(String, JsonValue)>, key: Seq<char>) -> Option<
        JsonValue,
    >
        decreases fields.len(),
    {
        if fields.len() == 0 {
            None
        } else if fields[0].0@ == key {
            Some(fields[0].1)
        } else {
            Self::spec_get_in(fields.drop_first(), key)
        }
    }

    #[verifier::loop_isolation(false)]
    pub fn get(&self, key: &str) -> (r: Option<&JsonValue>)
        ensures
            match r {
                Some(v) => self.spec_get(key@) == Some(*v),
                None => self.spec_get(key@) is None,
            },
    {
        match self {
            JsonValue::Obj(fields) => {
                proof {
                    assert(fields@.subrange(0, fields@.len() as int) =~= fields@);
                }
                let mut i: usize = 0;
                while i < fields.len()
                    invariant
                        i <= fields@.len(),
                        Self::spec_get_in(fields@, key@) == Self::spec_get_in(
                            fields@.subrange(i as int, fields@.len() as int),
                            key@,
                        ),
                    decreases fields@.len() - i,
                {
                    proof {
                        assert(fields@.subrange(i as int, fields@.len() as int).drop_first()
                            =~= fields@.subrange(i + 1, fields@.len() as int));
                        assert(fields@.subrange(i as int, fields@.len() as int)[0]
                            == fields@[i as int]);
                    }
                    if crate::client::error::str_eq(fields[i].0.as_str(), key) {
                        return Some(&fields[i].1);
                    }
                    i = i + 1;
                }
                None
            },
            _ => None,
        }
    }
}

/// The decimal digits of a non-negative number, most significant first.
pub open spec fn spec_u64_digits(n: int) -> Seq<u8>
    decreases n,
{
    if n < 10 {
        seq![(48 + n) as u8]
    } else {
        spec_u64_digits(n / 10) + seq![(48 + n % 10) as u8]
    }
}

/// The rendering of a thousandths value as a decimal fraction:
/// the integer part, a dot, then exactly three fractional digits.
pub open spec fn spec_milli_digits(n: int) -> Seq<u8> {
    spec_u64_digits(n / 1000) + seq![
        46u8,
        (48 + (n / 100) % 10) as u8,
        (48 + (n / 10) % 10) as u8,
        (48 + n % 10) as u8,
    ]
}

/// The lower-case hex digit of a value below 16.
pub open spec fn spec_hex_digit(n: u8) -> u8 {
    if n < 10 {
        (48 + n) as u8
    } else {
        (87 + n) as u8
    }
}

/// How one byte of UTF-8 text appears inside a JSON string literal.
/// Quote and backslash take an escape; control bytes take a short or
/// numeric escape; everything else, multi-byte UTF-8 included, passes
/// through.
pub open spec fn spec_escape_byte(b: u8) -> Seq<u8> {
    if b == 34 {
        seq![92u8, 34u8]
    } else if b == 92 {
        seq![92u8, 92u8]
    } else if b == 10 {
        seq![92u8, 110u8]
    } else if b == 13 {
        seq![92u8, 114u8]
    } else if b == 9 {
        seq![92u8, 116u8]
    } else if b < 32 {
        seq![92u8, 117u8, 48u8, 48u8, spec_hex_digit(b / 16), spec_hex_digit(b % 16)]
    } else {
        seq![b]
    }
}

pub open spec fn spec_escape(s: Seq<u8>) -> Seq<u8>
    decreases s.len(),
{
    if s.len() == 0 {
        Seq::<u8>::empty()
    } else {
        spec_escape(s.drop_last()) + spec_escape_byte(s.last())
    }
}

/// The UTF-8 bytes a document renders to: canonical JSON with no
/// interstitial whitespace.
pub open spec fn spec_render(v: JsonValue) -> Seq<u8>
    decreases v,
{
    match v {
        JsonValue::Null => seq![110u8, 117u8, 108u8, 108u8],
        JsonValue::Bool(b) => if b {
            seq![116u8, 114u8, 117u8, 101u8]
        } else {
            seq![102u8, 97u8, 108u8, 115u8, 101u8]
        },
        JsonValue::UInt(n) => spec_u64_digits(n as int),
        JsonValue::Milli(n) => spec_milli_digits(n as int),
        JsonValue::Str(s) => seq![34u8] + spec_escape(encode_utf8(s@)) + seq![34u8],
        JsonValue::Arr(items) => seq![91u8] + spec_render_list(items@) + seq![93u8],
        JsonValue::Obj(fields) => seq![123u8] + spec_render_fields(fields@) + seq![125u8],
    }
}

pub open spec fn spec_render_list(items: Seq<JsonValue>) -> Seq<u8>
    decreases items,
{
    if items.len() == 0 {
        Seq::<u8>::empty()
    } else if items.len() == 1 {
        spec_render(items.last())
    } else {
        spec_render_list(items.drop_last()) + seq![44u8] + spec_render(items.last())
    }
}

pub open spec fn spec_render_field(f: (String, JsonValue)) -> Seq<u8>
    decreases f,
{
    seq![34u8] + spec_escape(encode_utf8(f.0@)) + seq![34u8, 58u8] + spec_render(f.1)
}

pub open spec fn spec_render_fields(fields: Seq<(String, JsonValue)>) -> Seq<u8>
    decreases fields,
{
    if fields.len() == 0 {
        Seq::<u8>::empty()
    } else if fields.len() == 1 {
        spec_render_field(fields.last())
    } else {
        spec_render_fields(fields.drop_last()) + seq![44u8] + spec_render_field(fields.last())
    }
}

/// Appends the bytes of `s` to `out`.
fn push_bytes(out: &mut Vec<u8>, s: &[u8])
    ensures
        final(out)@ == old(out)@ + s@,
{
    let mut i: usize = 0;
    while i < s.len()
        invariant
            i <= s@.len(),
            out@ == old(out)@ + s@.subrange(0, i as int),
        decreases s@.len() - i,
    {
        out.push(s[i]);
        proof {
            assert(s@.subrange(0, i + 1).drop_last() =~= s@.subrange(0, i as int));
            assert(out@ =~= old(out)@ + s@.subrange(0, i + 1));
        }
        i = i + 1;
    }
    proof {
        assert(s@.subrange(0, s@.len() as int) =~= s@);
    }
}

/// Appends the decimal digits of `n`.
fn push_u64(out: &mut Vec<u8>, n: u64)
    ensures
        final(out)@ == old(out)@ + spec_u64_digits(n as int),
    decreases n,
{
    if n < 10 {
        out.push(48 + (n as u8));
    } else {
        push_u64(out, n / 10);
        out.push(48 + ((n % 10) as u8));
        proof {
            assert(out@ =~= old(out)@ + spec_u64_digits(n as int));
        }
    }
}

fn hex_digit(n: u8) -> (r: u8)
    requires
        n < 16,
    ensures
        r == spec_hex_digit(n),
{
    if n < 10 {
        48 + n
    } else {
        87 + n
    }
}

/// Appends `s` as it appears inside a JSON string literal.
fn push_escaped(out: &mut Vec<u8>, s: &[u8])
    ensures
        final(out)@ == old(out)@ + spec_escape(s@),
{
    let mut i: usize = 0;
    while i < s.len()
        invariant
            i <= s@.len(),
            out@ == old(out)@ + spec_escape(s@.subrange(0, i as int)),
        decreases s@.len() - i,
    {
        let b = s[i];
        if b == 34 {
            out.push(92);
            out.push(34);
        } else if b == 92 {
            out.push(92);
            out.push(92);
        } else if b == 10 {
            out.push(92);
            out.push(110);
        } else if b == 13 {
            out.push(92);
            out.push(114);
        } else if b == 9 {
            out.push(92);
            out.push(116);
        } else if b < 32 {
            out.push(92);
            out.push(117);
            out.push(48);
            out.push(48);
            let hi = hex_digit(b / 16);
            let lo = hex_digit(b % 16);
            out.push(hi);
            out.push(lo);
        } else {
            out.push(b);
        }
        proof {
            assert(s@.subrange(0, i + 1).drop_last() =~= s@.subrange(0, i as int));
            assert(s@.subrange(0, i + 1).last() == s@[i as int]);
            assert(out@ =~= old(out)@ + spec_escape(s@.subrange(0, i + 1)));
        }
        i = i + 1;
    }
    proof {
        assert(s@.subrange(0, s@.len() as int) =~= s@);
    }
}

/// Appends the rendering of `v`.
#[verifier::rlimit(40)]
#[verifier::loop_isolation(false)]
fn render_into(v: &JsonValue, out: &mut Vec<u8>)
    ensures
        final(out)@ == old(out)@ + spec_render(*v),
    decreases *v,
{
    match v {
        JsonValue::Null => {
            out.push(110);
            out.push(117);
            out.push(108);
            out.push(108);
            proof {
                assert(out@ =~= old(out)@ + spec_render(*v));
            }
        },
        JsonValue::Bool(b) => {
            if *b {
                out.push(116);
                out.push(114);
                out.push(117);
                out.push(101);
            } else {
                out.push(102);
                out.push(97);
                out.push(108);
                out.push(115);
                out.push(101);
            }
            proof {
                assert(out@ =~= old(out)@ + spec_render(*v));
            }
        },
        JsonValue::UInt(n) => {
            push_u64(out, *n);
        },
        JsonValue::Milli(n) => {
            push_u64(out, *n / 1000);
            out.push(46);
            out.push(48 + (((*n / 100) % 10) as u8));
            out.push(48 + (((*n / 10) % 10) as u8));
            out.push(48 + ((*n % 10) as u8));
            proof {
                assert(out@ =~= old(out)@ + spec_render(*v));
            }
        },
        JsonValue::Str(s) => {
            out.push(34);
            push_escaped(out, s.as_str().as_bytes());
            out.push(34);
            proof {
                assert(out@ =~= old(out)@ + spec_render(*v));
            }
        },
        JsonValue::Arr(items) => {
            out.push(91);
            let mut i: usize = 0;
            while i < items.len()
                invariant
                    i <= items@.len(),
                    out@ == old(out)@ + seq![91u8] + spec_render_list(
                        items@.subrange(0, i as int),
                    ),
                decreases items@.len() - i,
            {
                if i > 0 {
                    out.push(44);
                }
                proof {
                    assert(decreases_to!(*v => items@));
                    assert(decreases_to!(items@ => items@[i as int]));
                }
                render_into(&items[i], out);
                proof {
                    assert(items@.subrange(0, i + 1).drop_last() =~= items@.subrange(
                        0,
                        i as int,
                    ));
                    assert(items@.subrange(0, i + 1).last() == items@[i as int]);
                    assert(out@ =~= old(out)@ + seq![91u8] + spec_render_list(
                        items@.subrange(0, i + 1),
                    ));
                }
                i = i + 1;
            }
            out.push(93);
            proof {
                assert(items@.subrange(0, items@.len() as int) =~= items@);
                assert(out@ =~= old(out)@ + spec_render(*v));
            }
        },
        JsonValue::Obj(fields) => {
            out.push(123);
            let mut i: usize = 0;
            while i < fields.len()
                invariant
                    i <= fields@.len(),
                    out@ == old(out)@ + seq![123u8] + spec_render_fields(
                        fields@.subrange(0, i as int),
                    ),
                decreases fields@.len() - i,
            {
                if i > 0 {
                    out.push(44);
                }
                out.push(34);
                push_escaped(out, fields[i].0.as_str().as_bytes());
                out.push(34);
                out.push(58);
                proof {
                    assert(decreases_to!(*v => fields@));
                    assert(decreases_to!(fields@ => fields@[i as int]));
                    assert(decreases_to!(fields@[i as int] => fields@[i as int].1));
                }
                render_into(&fields[i].1, out);
                proof {
                    assert(fields@.subrange(0, i + 1).drop_last() =~= fields@.subrange(
                        0,
                        i as int,
                    ));
                    assert(fields@.subrange(0, i + 1).last() == fields@[i as int]);
                    assert(spec_render_field(fields@[i as int]) == seq![34u8] + spec_escape(
                        encode_utf8(fields@[i as int].0@),
                    ) + seq![34u8, 58u8] + spec_render(fields@[i as int].1));
                    if i == 0 {
                        assert(spec_render_fields(fields@.subrange(0, 1)) == spec_render_field(
                            fields@[0],
                        ));
                    } else {
                        assert(spec_render_fields(fields@.subrange(0, i + 1))
                            == spec_render_fields(fields@.subrange(0, i as int)) + seq![44u8]
                            + spec_render_field(fields@[i as int]));
                    }
                    assert(out@ =~= old(out)@ + seq![123u8] + spec_render_fields(
                        fields@.subrange(0, i + 1),
                    ));
                }
                i = i + 1;
            }
            out.push(125);
            proof {
                assert(fields@.subrange(0, fields@.len() as int) =~= fields@);
                assert(out@ =~= old(out)@ + spec_render(*v));
            }
        },
    }
}

/// Renders a document to canonical JSON bytes.
pub fn render_json(v: &JsonValue) -> (out: Vec<u8>)
    ensures
        out@ == spec_render(*v),
{
    let mut out: Vec<u8> = Vec::new();
    render_into(v, &mut out);
    out
}

} // verus!
