use vstd::prelude::*;
use vstd::utf8::encode_utf8;
use crate::text::{chars_to_string, push_dec_digits, push_int_digits, spec_int_digits};
use crate::value::{aview, oview, vview, Object, SpecEntries, SpecValue, Value};

verus! {

broadcast use {vstd::std_specs::vec::group_vec_axioms, vstd::seq::group_seq_axioms};

/// The byte length of a string's UTF-8 form, as the machine sees it.
pub open spec fn byte_len(s: Seq<char>) -> int {
    encode_utf8(s).len() as usize as int
}

/// The lower-case hexadecimal digit for `d` (0 to 15).
pub open spec fn spec_hex_char(d: int) -> char {
    if d == 0 {
        '0'
    } else if d == 1 {
        '1'
    } else if d == 2 {
        '2'
    } else if d == 3 {
        '3'
    } else if d == 4 {
        '4'
    } else if d == 5 {
        '5'
    } else if d == 6 {
        '6'
    } else if d == 7 {
        '7'
    } else if d == 8 {
        '8'
    } else if d == 9 {
        '9'
    } else if d == 10 {
        'a'
    } else if d == 11 {
        'b'
    } else if d == 12 {
        'c'
    } else if d == 13 {
        'd'
    } else if d == 14 {
        'e'
    } else {
        'f'
    }
}

/// How one character appears inside a serialized string: quote and
/// backslash are escaped, control characters become a `\u00..` escape,
/// everything else stands for itself.
pub open spec fn spec_escape_char(c: char) -> Seq<char> {
    if c == '"' {
        seq!['\\', '"']
    } else if c == '\\' {
        seq!['\\', '\\']
    } else if (c as u32) < 32 {
        seq!['\\', 'u', '0', '0', spec_hex_char(c as u32 as int / 16), spec_hex_char(
            c as u32 as int % 16,
        )]
    } else {
        seq![c]
    }
}

/// The escaped body of a serialized string.
pub open spec fn spec_escape(s: Seq<char>) -> Seq<char>
    decreases s.len(),
{
    if s.len() == 0 {
        Seq::empty()
    } else {
        spec_escape_char(s[0]) + spec_escape(s.drop_first())
    }
}

/// The wire form of one value: canonical JSON text without whitespace.
pub open spec fn spec_ser(v: SpecValue) -> Seq<char>
    decreases v,
{
    match v {
        SpecValue::Null => seq!['n', 'u', 'l', 'l'],
        SpecValue::Bool(b) => {
            if b {
                seq!['t', 'r', 'u', 'e']
            } else {
                seq!['f', 'a', 'l', 's', 'e']
            }
        },
        SpecValue::Int(i) => spec_int_digits(i),
        SpecValue::Float(t) => t,
        SpecValue::Str(s) => seq!['"'] + spec_escape(s) + seq!['"'],
        SpecValue::Arr(a) => seq!['['] + spec_ser_items(a) + seq![']'],
        SpecValue::Obj(o) => seq!['{'] + spec_ser_entries(o) + seq!['}'],
    }
}

/// The comma-joined elements of a serialized array.
pub open spec fn spec_ser_items(a: Seq<SpecValue>) -> Seq<char>
    decreases a,
{
    if a.len() == 0 {
        Seq::empty()
    } else if a.len() == 1 {
        spec_ser(a[0])
    } else {
        spec_ser(a[0]) + seq![','] + spec_ser_items(a.drop_first())
    }
}

/// The comma-joined members of a serialized object.
pub open spec fn spec_ser_entries(o: SpecEntries) -> Seq<char>
    decreases o,
{
    if o.len() == 0 {
        Seq::empty()
    } else if o.len() == 1 {
        spec_ser_entry(o[0])
    } else {
        spec_ser_entry(o[0]) + seq![','] + spec_ser_entries(o.drop_first())
    }
}

/// One serialized object member: quoted key, colon, value.
pub open spec fn spec_ser_entry(e: (Seq<char>, SpecValue)) -> Seq<char>
    decreases e,
{
    seq!['"'] + spec_escape(e.0) + seq!['"', ':'] + spec_ser(e.1)
}

/// Extending the input by one character appends its escape.
proof fn lemma_escape_snoc(s: Seq<char>, c: char)
    ensures
        spec_escape(s.push(c)) == spec_escape(s) + spec_escape_char(c),
    decreases s.len(),
{
    if s.len() == 0 {
        assert(s.push(c)[0] == c);
        assert(s.push(c).drop_first() =~= Seq::<char>::empty());
        assert(s.push(c).len() == 1);
        assert(spec_escape(s.push(c)) == spec_escape_char(c) + spec_escape(Seq::<char>::empty()));
        assert(spec_escape_char(c) + spec_escape(Seq::<char>::empty()) =~= spec_escape_char(c));
        assert(spec_escape(s) + spec_escape_char(c) =~= spec_escape_char(c));
    } else {
        assert(s.push(c)[0] == s[0]);
        assert(s.push(c).drop_first() =~= s.drop_first().push(c));
        lemma_escape_snoc(s.drop_first(), c);
        assert(spec_escape(s.push(c)) =~= spec_escape(s) + spec_escape_char(c));
    }
}

/// Extending an array by one element appends a comma (when needed) and
/// the element's wire form.
proof fn lemma_items_snoc(a: Seq<SpecValue>, x: SpecValue)
    ensures
        spec_ser_items(a.push(x)) == (if a.len() == 0 {
            spec_ser(x)
        } else {
            spec_ser_items(a) + seq![','] + spec_ser(x)
        }),
    decreases a.len(),
{
    if a.len() == 0 {
        assert(a.push(x)[0] == x);
        assert(spec_ser_items(a.push(x)) == spec_ser(x));
    } else {
        assert(a.push(x)[0] == a[0]);
        assert(a.push(x).drop_first() =~= a.drop_first().push(x));
        lemma_items_snoc(a.drop_first(), x);
        if a.len() == 1 {
            assert(spec_ser_items(a.push(x)) =~= spec_ser_items(a) + seq![','] + spec_ser(x));
        } else {
            assert(spec_ser_items(a.push(x)) =~= spec_ser_items(a) + seq![','] + spec_ser(x));
        }
    }
}

/// Extending an object by one member appends a comma (when needed) and
/// the member's wire form.
proof fn lemma_entries_snoc(o: SpecEntries, x: (Seq<char>, SpecValue))
    ensures
        spec_ser_entries(o.push(x)) == (if o.len() == 0 {
            spec_ser_entry(x)
        } else {
            spec_ser_entries(o) + seq![','] + spec_ser_entry(x)
        }),
    decreases o.len(),
{
    if o.len() == 0 {
        assert(o.push(x)[0] == x);
        assert(spec_ser_entries(o.push(x)) == spec_ser_entry(x));
    } else {
        assert(o.push(x)[0] == o[0]);
        assert(o.push(x).drop_first() =~= o.drop_first().push(x));
        lemma_entries_snoc(o.drop_first(), x);
        assert(spec_ser_entries(o.push(x)) =~= spec_ser_entries(o) + seq![','] + spec_ser_entry(
            x,
        ));
    }
}

fn push_hex_low(d: u32, out: &mut Vec<char>)
    requires
        d < 16,
    ensures
        final(out)@ == old(out)@ + seq![spec_hex_char(d as int)],
{
    if d == 0 {
        out.push('0');
    } else if d == 1 {
        out.push('1');
    } else if d == 2 {
        out.push('2');
    } else if d == 3 {
        out.push('3');
    } else if d == 4 {
        out.push('4');
    } else if d == 5 {
        out.push('5');
    } else if d == 6 {
        out.push('6');
    } else if d == 7 {
        out.push('7');
    } else if d == 8 {
        out.push('8');
    } else if d == 9 {
        out.push('9');
    } else if d == 10 {
        out.push('a');
    } else if d == 11 {
        out.push('b');
    } else if d == 12 {
        out.push('c');
    } else if d == 13 {
        out.push('d');
    } else if d == 14 {
        out.push('e');
    } else {
        out.push('f');
    }
}

/// Appends the escaped body of `s` to `out`.
fn push_escaped(s: &str, out: &mut Vec<char>)
    ensures
        final(out)@ == old(out)@ + spec_escape(s@),
{
    let n = s.unicode_len();
    let mut i: usize = 0;
    while i < n
        invariant
            0 <= i <= n,
            n == s@.len(),
            out@ == old(out)@ + spec_escape(s@.take(i as int)),
        decreases n - i,
    {
        let c = s.get_char(i);
        let u = c as u32;
        if c == '"' {
            out.push('\\');
            out.push('"');
        } else if c == '\\' {
            out.push('\\');
            out.push('\\');
        } else if u < 32 {
            out.push('\\');
            out.push('u');
            out.push('0');
            out.push('0');
            push_hex_low(u / 16, out);
            push_hex_low(u % 16, out);
        } else {
            out.push(c);
        }
        proof {
            assert(s@.take(i + 1) =~= s@.take(i as int).push(s@[i as int]));
            lemma_escape_snoc(s@.take(i as int), s@[i as int]);
            assert(out@ =~= old(out)@ + spec_escape(s@.take(i + 1)));
        }
        i = i + 1;
    }
    proof {
        assert(s@.take(n as int) =~= s@);
    }
}

/// Appends the wire form of `v` to `out`.
pub fn append_json(v: &Value, out: &mut Vec<char>)
    ensures
        final(out)@ == old(out)@ + spec_ser(v@),
    decreases v,
{
    match v {
        Value::Null => {
            out.push('n');
            out.push('u');
            out.push('l');
            out.push('l');
            proof {
                assert(out@ =~= old(out)@ + spec_ser(v@));
            }
        },
        Value::Bool(b) => {
            if *b {
                out.push('t');
                out.push('r');
                out.push('u');
                out.push('e');
            } else {
                out.push('f');
                out.push('a');
                out.push('l');
                out.push('s');
                out.push('e');
            }
            proof {
                assert(out@ =~= old(out)@ + spec_ser(v@));
            }
        },
        Value::Int(i) => {
            push_int_digits(*i, out);
        },
        Value::Uint(u) => {
            push_dec_digits(*u, out);
        },
        Value::Float(t) => {
            let n = t.as_str().unicode_len();
            let mut i: usize = 0;
            while i < n
                invariant
                    0 <= i <= n,
                    n == t@.len(),
                    out@ == old(out)@ + t@.take(i as int),
                decreases n - i,
            {
                out.push(t.as_str().get_char(i));
                proof {
                    assert(out@ =~= old(out)@ + t@.take(i + 1));
                }
                i = i + 1;
            }
            proof {
                assert(t@.take(n as int) =~= t@);
            }
        },
        Value::Str(s) => {
            out.push('"');
            push_escaped(s.as_str(), out);
            out.push('"');
            proof {
                assert(out@ =~= old(out)@ + spec_ser(v@));
            }
        },
        Value::Arr(a) => {
            out.push('[');
            append_json_items(a, out);
            out.push(']');
            proof {
                assert(out@ =~= old(out)@ + spec_ser(v@));
            }
        },
        Value::Obj(o) => {
            out.push('{');
            append_json_entries(&o.entries, out);
            out.push('}');
            proof {
                assert(out@ =~= old(out)@ + spec_ser(v@));
            }
        },
    }
}

/// Appends the comma-joined wire forms of the array elements to `out`.
fn append_json_items(a: &Vec<Value>, out: &mut Vec<char>)
    ensures
        final(out)@ == old(out)@ + spec_ser_items(aview(a@)),
    decreases a,
{
    let n = a.len();
    let mut i: usize = 0;
    while i < n
        invariant
            0 <= i <= n,
            n == a@.len(),
            out@ == old(out)@ + spec_ser_items(aview(a@).take(i as int)),
        decreases n - i,
    {
        if i > 0 {
            out.push(',');
        }
        append_json(&a[i], out);
        proof {
            assert(aview(a@).take(i + 1) =~= aview(a@).take(i as int).push(aview(a@)[i as int]));
            lemma_items_snoc(aview(a@).take(i as int), aview(a@)[i as int]);
            assert(aview(a@)[i as int] == a@[i as int]@);
            assert(out@ =~= old(out)@ + spec_ser_items(aview(a@).take(i + 1)));
        }
        i = i + 1;
    }
    proof {
        assert(aview(a@).take(n as int) =~= aview(a@));
    }
}

/// Appends the comma-joined wire forms of the object members to `out`.
fn append_json_entries(entries: &Vec<(String, Value)>, out: &mut Vec<char>)
    ensures
        final(out)@ == old(out)@ + spec_ser_entries(oview(entries@)),
    decreases entries,
{
    let n = entries.len();
    let mut i: usize = 0;
    while i < n
        invariant
            0 <= i <= n,
            n == entries@.len(),
            out@ == old(out)@ + spec_ser_entries(oview(entries@).take(i as int)),
        decreases n - i,
    {
        if i > 0 {
            out.push(',');
        }
        out.push('"');
        push_escaped(entries[i].0.as_str(), out);
        out.push('"');
        out.push(':');
        append_json(&entries[i].1, out);
        proof {
            assert(oview(entries@).take(i + 1) =~= oview(entries@).take(i as int).push(
                oview(entries@)[i as int],
            ));
            lemma_entries_snoc(oview(entries@).take(i as int), oview(entries@)[i as int]);
            assert(oview(entries@)[i as int] == (
                entries@[i as int].0@,
                vview(entries@[i as int].1),
            ));
            assert(out@ =~= old(out)@ + spec_ser_entries(oview(entries@).take(i + 1)));
        }
        i = i + 1;
    }
    proof {
        assert(oview(entries@).take(n as int) =~= oview(entries@));
    }
}

/// The wire form of one object document, as a string.
pub fn to_json_object(o: &Object) -> (r: String)
    ensures
        r@ == spec_ser(SpecValue::Obj(o@)),
{
    let mut out: Vec<char> = Vec::new();
    out.push('{');
    append_json_entries(&o.entries, &mut out);
    out.push('}');
    proof {
        assert(out@ =~= spec_ser(SpecValue::Obj(o@)));
    }
    chars_to_string(&out)
}

/// The wire form of a batch of object documents: a JSON array.
pub fn to_json_array(items: &Vec<Object>) -> (r: String)
    ensures
        r@ == spec_ser(
            SpecValue::Arr(Seq::new(items@.len(), |i: int| SpecValue::Obj(items@[i]@))),
        ),
{
    let ghost views = Seq::new(items@.len(), |i: int| SpecValue::Obj(items@[i]@));
    let mut out: Vec<char> = Vec::new();
    out.push('[');
    let n = items.len();
    let mut i: usize = 0;
    while i < n
        invariant
            0 <= i <= n,
            n == items@.len(),
            views == Seq::new(items@.len(), |k: int| SpecValue::Obj(items@[k]@)),
            out@ == seq!['['] + spec_ser_items(views.take(i as int)),
        decreases n - i,
    {
        if i > 0 {
            out.push(',');
        }
        out.push('{');
        append_json_entries(&items[i].entries, &mut out);
        out.push('}');
        proof {
            assert(views.take(i + 1) =~= views.take(i as int).push(views[i as int]));
            lemma_items_snoc(views.take(i as int), views[i as int]);
            assert(views[i as int] == SpecValue::Obj(items@[i as int]@));
            assert(out@ =~= seq!['['] + spec_ser_items(views.take(i + 1)));
        }
        i = i + 1;
    }
    out.push(']');
    proof {
        assert(views.take(n as int) =~= views);
        assert(out@ =~= spec_ser(SpecValue::Arr(views)));
    }
    chars_to_string(&out)
}

/// The wire form of one value, as a string.
pub fn to_json(v: &Value) -> (r: String)
    ensures
        r@ == spec_ser(v@),
{
    let mut out: Vec<char> = Vec::new();
    append_json(v, &mut out);
    chars_to_string(&out)
}

/// The escape classes are told apart by their first characters, so one
/// escaped block determines the character it encodes.
proof fn lemma_escape_char_prefix(c1: char, c2: char, r1: Seq<char>, r2: Seq<char>)
    requires
        spec_escape_char(c1) + r1 == spec_escape_char(c2) + r2,
    ensures
        c1 == c2,
        r1 == r2,
{
    let a = spec_escape_char(c1) + r1;
    let b = spec_escape_char(c2) + r2;
    assert('"' as u32 == 34);
    assert('\\' as u32 == 92);
    assert('u' as u32 == 117);
    let k1 = class_of(c1);
    let k2 = class_of(c2);
    assert(a[0] == b[0]);
    if k1 == 3 && k2 == 3 {
        assert(c1 == c2);
        assert(r1 =~= r2) by {
            assert(forall|i: int| 0 <= i < r1.len() ==> r1[i] == a[i + 1] && a[i + 1] == b[i + 1]);
            assert(a.len() == b.len());
        }
    } else if k1 == 3 || k2 == 3 {
        assert(false);
    } else {
        assert(a[1] == b[1]);
        if k1 != k2 {
            assert(false);
        } else if k1 == 0 || k1 == 1 {
            assert(c1 == c2);
            assert(r1 =~= r2) by {
                assert(forall|i: int|
                    0 <= i < r1.len() ==> r1[i] == a[i + 2] && a[i + 2] == b[i + 2]);
                assert(a.len() == b.len());
            }
        } else {
            assert(a[4] == b[4] && a[5] == b[5]);
            lemma_hex_char_injective(c1 as u32 as int / 16, c2 as u32 as int / 16);
            lemma_hex_char_injective(c1 as u32 as int % 16, c2 as u32 as int % 16);
            assert(c1 as u32 == c2 as u32);
            assert(c1 == c2) by {
                assert(c1 as u32 == c2 as u32);
            }
            assert(r1 =~= r2) by {
                assert(forall|i: int|
                    0 <= i < r1.len() ==> r1[i] == a[i + 6] && a[i + 6] == b[i + 6]);
                assert(a.len() == b.len());
            }
        }
    }
}

/// Which escape form a character takes: quote, backslash, control, or
/// itself.
spec fn class_of(c: char) -> int {
    if c == '"' {
        0
    } else if c == '\\' {
        1
    } else if (c as u32) < 32 {
        2
    } else {
        3
    }
}

/// Distinct hexadecimal digits render as distinct characters.
proof fn lemma_hex_char_injective(d1: int, d2: int)
    requires
        0 <= d1 < 16,
        0 <= d2 < 16,
        spec_hex_char(d1) == spec_hex_char(d2),
    ensures
        d1 == d2,
{
    assert('0' as u32 == 48);
    assert('1' as u32 == 49);
    assert('2' as u32 == 50);
    assert('3' as u32 == 51);
    assert('4' as u32 == 52);
    assert('5' as u32 == 53);
    assert('6' as u32 == 54);
    assert('7' as u32 == 55);
    assert('8' as u32 == 56);
    assert('9' as u32 == 57);
    assert('a' as u32 == 97);
    assert('b' as u32 == 98);
    assert('c' as u32 == 99);
    assert('d' as u32 == 100);
    assert('e' as u32 == 101);
    assert('f' as u32 == 102);
}

/// Law: escaping is injective - two different strings never share one
/// escaped body, so the string leg of the wire format is lossless.
pub proof fn lemma_escape_injective(s1: Seq<char>, s2: Seq<char>)
    requires
        spec_escape(s1) == spec_escape(s2),
    ensures
        s1 == s2,
    decreases s1.len(),
{
    if s1.len() == 0 && s2.len() == 0 {
        assert(s1 =~= s2);
    } else if s1.len() == 0 {
        assert(spec_escape_char(s2[0]).len() >= 1);
        assert(spec_escape(s2).len() >= spec_escape_char(s2[0]).len());
        assert(false);
    } else if s2.len() == 0 {
        assert(spec_escape_char(s1[0]).len() >= 1);
        assert(spec_escape(s1).len() >= spec_escape_char(s1[0]).len());
        assert(false);
    } else {
        lemma_escape_char_prefix(
            s1[0],
            s2[0],
            spec_escape(s1.drop_first()),
            spec_escape(s2.drop_first()),
        );
        lemma_escape_injective(s1.drop_first(), s2.drop_first());
        assert(s1 =~= s2) by {
            assert(forall|i: int|
                1 <= i < s1.len() ==> s1[i] == s1.drop_first()[i - 1] && s2[i]
                    == s2.drop_first()[i - 1]);
        }
    }
}

} // verus!
