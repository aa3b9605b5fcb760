use vstd::prelude::*;

verus! {

/// True for ASCII letters.
pub open spec fn spec_is_alpha(c: char) -> bool {
    (('a' as u32) <= c as u32 && c as u32 <= ('z' as u32)) || (('A' as u32) <= c as u32 && c as u32
        <= ('Z' as u32))
}

/// True for ASCII decimal digits.
pub open spec fn spec_is_digit(c: char) -> bool {
    ('0' as u32) <= c as u32 && c as u32 <= ('9' as u32)
}

/// Characters allowed after the first one in an identifier:
/// letters, digits and underscore.
pub open spec fn spec_is_name_char(c: char) -> bool {
    spec_is_alpha(c) || spec_is_digit(c) || c == '_'
}

/// The identifier pattern for event and property names: the first character
/// is a letter or the reserved sigil `#`, followed by up to 63 letters,
/// digits or underscores.
pub open spec fn spec_valid_name(s: Seq<char>) -> bool {
    &&& 1 <= s.len() <= 64
    &&& (spec_is_alpha(s[0]) || s[0] == '#')
    &&& forall|i: int| 1 <= i < s.len() ==> spec_is_name_char(#[trigger] s[i])
}

pub fn is_alpha(c: char) -> (r: bool)
    ensures
        r == spec_is_alpha(c),
{
    let u = c as u32;
    (('a' as u32) <= u && u <= ('z' as u32)) || (('A' as u32) <= u && u <= ('Z' as u32))
}

pub fn is_digit(c: char) -> (r: bool)
    ensures
        r == spec_is_digit(c),
{
    let u = c as u32;
    ('0' as u32) <= u && u <= ('9' as u32)
}

pub fn is_name_char(c: char) -> (r: bool)
    ensures
        r == spec_is_name_char(c),
{
    is_alpha(c) || is_digit(c) || c == '_'
}

/// Whether `s` matches the identifier pattern for names.
pub fn check_name(s: &str) -> (r: bool)
    ensures
        r == spec_valid_name(s@),
{
    let n = s.unicode_len();
    if n < 1 || n > 64 {
        return false;
    }
    let c0 = s.get_char(0);
    if !(is_alpha(c0) || c0 == '#') {
        return false;
    }
    let mut i: usize = 1;
    while i < n
        invariant
            1 <= i <= n,
            n == s@.len(),
            forall|j: int| 1 <= j < i ==> spec_is_name_char(#[trigger] s@[j]),
        decreases n - i,
    {
        if !is_name_char(s.get_char(i)) {
            return false;
        }
        i = i + 1;
    }
    true
}

/// Character-wise string equality.
pub fn str_eq(a: &str, b: &str) -> (r: bool)
    ensures
        r == (a@ == b@),
{
    let la = a.unicode_len();
    let lb = b.unicode_len();
    if la != lb {
        return false;
    }
    let mut i: usize = 0;
    while i < la
        invariant
            0 <= i <= la,
            la == a@.len(),
            la == b@.len(),
            forall|j: int| 0 <= j < i ==> a@[j] == b@[j],
        decreases la - i,
    {
        if a.get_char(i) != b.get_char(i) {
            return false;
        }
        i = i + 1;
    }
    proof {
        assert(a@ =~= b@);
    }
    true
}

/// A character's code with an ASCII capital folded to its small form.
pub open spec fn spec_lower_code(c: char) -> int {
    if ('A' as u32) <= c as u32 && c as u32 <= ('Z' as u32) {
        c as u32 + 32
    } else {
        c as u32 as int
    }
}

/// Character-wise equality up to ASCII case.
pub open spec fn spec_eq_ignore_ascii_case(a: Seq<char>, b: Seq<char>) -> bool {
    a.len() == b.len() && forall|i: int|
        0 <= i < a.len() ==> spec_lower_code(a[i]) == spec_lower_code(#[trigger] b[i])
}

/// Compares two strings up to ASCII case.
pub fn str_eq_ignore_ascii_case(a: &str, b: &str) -> (r: bool)
    ensures
        r == spec_eq_ignore_ascii_case(a@, b@),
{
    let la = a.unicode_len();
    let lb = b.unicode_len();
    if la != lb {
        return false;
    }
    let mut i: usize = 0;
    while i < la
        invariant
            0 <= i <= la,
            la == a@.len(),
            la == b@.len(),
            forall|j: int| 0 <= j < i ==> spec_lower_code(a@[j]) == spec_lower_code(#[trigger] b@[j]),
        decreases la - i,
    {
        let ca = a.get_char(i) as u32;
        let cb = b.get_char(i) as u32;
        let fa = if ('A' as u32) <= ca && ca <= ('Z' as u32) {
            ca + 32
        } else {
            ca
        };
        let fb = if ('A' as u32) <= cb && cb <= ('Z' as u32) {
            cb + 32
        } else {
            cb
        };
        if fa != fb {
            return false;
        }
        i = i + 1;
    }
    true
}

/// The decimal digit character for `d` (0 to 9).
pub open spec fn spec_digit_char(d: int) -> char {
    if d == 0 {
        '0'
    } else if d == 1 {
        '1'
    } else if d == 2 {
        '2'
    } else if d == 3 {
        '3'
    } else if d == 4 {
        '4'
    } else if d == 5 {
        '5'
    } else if d == 6 {
        '6'
    } else if d == 7 {
        '7'
    } else if d == 8 {
        '8'
    } else {
        '9'
    }
}

/// The decimal representation of `n`, most significant digit first.
pub open spec fn spec_dec_digits(n: nat) -> Seq<char>
    decreases n,
{
    if n < 10 {
        seq![spec_digit_char(n as int)]
    } else {
        spec_dec_digits(n / 10) + seq![spec_digit_char((n % 10) as int)]
    }
}

fn digit_char(d: u64) -> (c: char)
    requires
        d < 10,
    ensures
        c == spec_digit_char(d as int),
{
    if d == 0 {
        '0'
    } else if d == 1 {
        '1'
    } else if d == 2 {
        '2'
    } else if d == 3 {
        '3'
    } else if d == 4 {
        '4'
    } else if d == 5 {
        '5'
    } else if d == 6 {
        '6'
    } else if d == 7 {
        '7'
    } else if d == 8 {
        '8'
    } else {
        '9'
    }
}

/// Appends the decimal representation of `n` to `out`.
pub fn push_dec_digits(n: u64, out: &mut Vec<char>)
    ensures
        final(out)@ == old(out)@ + spec_dec_digits(n as nat),
    decreases n,
{
    if n < 10 {
        out.push(digit_char(n));
    } else {
        push_dec_digits(n / 10, out);
        out.push(digit_char(n % 10));
    }
}

/// The decimal representation of a signed integer: a minus sign for
/// negative values, then the digits of the magnitude.
pub open spec fn spec_int_digits(n: int) -> Seq<char> {
    if n < 0 {
        seq!['-'] + spec_dec_digits((-n) as nat)
    } else {
        spec_dec_digits(n as nat)
    }
}

/// Appends the decimal representation of the signed `n` to `out`.
pub fn push_int_digits(n: i64, out: &mut Vec<char>)
    ensures
        final(out)@ == old(out)@ + spec_int_digits(n as int),
{
    if n < 0 {
        out.push('-');
        if n == i64::MIN {
            push_dec_digits(9223372036854775808u64, out);
        } else {
            push_dec_digits((-n) as u64, out);
        }
    } else {
        push_dec_digits(n as u64, out);
    }
}

/// The numeric value of a sequence of decimal digit characters.
pub open spec fn spec_dec_val(s: Seq<char>) -> int
    decreases s.len(),
{
    if s.len() == 0 {
        0
    } else {
        spec_dec_val(s.drop_last()) * 10 + (s.last() as u32 - '0' as u32)
    }
}

/// True when every character of `s` is a decimal digit.
pub open spec fn spec_all_digits(s: Seq<char>) -> bool {
    forall|i: int| 0 <= i < s.len() ==> spec_is_digit(#[trigger] s[i])
}

/// Parses `s` as an unsigned decimal number; `None` when `s` is empty,
/// holds a non-digit, or the value does not fit in `u64`.
pub fn parse_dec(s: &str) -> (r: Option<u64>)
    ensures
        match r {
            Some(v) => s@.len() > 0 && spec_all_digits(s@) && v == spec_dec_val(s@) && spec_dec_val(
                s@,
            ) <= u64::MAX,
            None => s@.len() == 0 || !spec_all_digits(s@) || spec_dec_val(s@) > u64::MAX,
        },
{
    let n = s.unicode_len();
    if n == 0 {
        return None;
    }
    let mut acc: u64 = 0;
    let mut i: usize = 0;
    while i < n
        invariant
            0 <= i <= n,
            n == s@.len(),
            spec_all_digits(s@.take(i as int)),
            acc == spec_dec_val(s@.take(i as int)),
        decreases n - i,
    {
        let c = s.get_char(i);
        if !is_digit(c) {
            proof {
                assert(!spec_all_digits(s@));
            }
            return None;
        }
        let d: u64 = (c as u32 - '0' as u32) as u64;
        if acc > (u64::MAX - d) / 10 {
            proof {
                if spec_all_digits(s@) {
                    assert(s@.take(i + 1).drop_last() =~= s@.take(i as int));
                    assert(s@.take(i + 1).last() == s@[i as int]);
                    assert(spec_dec_val(s@.take(i + 1)) == acc * 10 + d);
                    lemma_dec_val_prefix_grows(s@, i + 1);
                    assert(acc * 10 + d > u64::MAX) by (nonlinear_arith)
                        requires
                            acc > (u64::MAX - d) / 10,
                            0 <= d < 10,
                            acc <= u64::MAX,
                    ;
                }
            }
            return None;
        }
        acc = acc * 10 + d;
        proof {
            assert(s@.take(i + 1).drop_last() =~= s@.take(i as int));
            assert(s@.take(i + 1).last() == s@[i as int]);
        }
        i = i + 1;
    }
    proof {
        assert(s@.take(n as int) =~= s@);
    }
    Some(acc)
}

/// The value of a digit string is nonnegative.
proof fn lemma_dec_val_nonneg(s: Seq<char>)
    requires
        spec_all_digits(s),
    ensures
        spec_dec_val(s) >= 0,
    decreases s.len(),
{
    if s.len() > 0 {
        assert(spec_all_digits(s.drop_last()));
        lemma_dec_val_nonneg(s.drop_last());
        assert(spec_is_digit(s.last()));
    }
}

/// The value of a digit string only grows as more digits are appended.
proof fn lemma_dec_val_prefix_grows(s: Seq<char>, i: int)
    requires
        0 <= i <= s.len(),
        spec_all_digits(s),
    ensures
        spec_dec_val(s.take(i)) <= spec_dec_val(s),
    decreases s.len() - i,
{
    if i < s.len() {
        assert(s.take(i + 1).drop_last() =~= s.take(i));
        assert(s.take(i + 1).last() == s[i]);
        assert(spec_is_digit(s[i]));
        assert(spec_all_digits(s.take(i))) by {
            assert(forall|j: int| 0 <= j < i ==> s.take(i)[j] == s[j]);
        }
        lemma_dec_val_nonneg(s.take(i));
        lemma_dec_val_prefix_grows(s, i + 1);
    } else {
        assert(s.take(i) =~= s);
    }
}


/// The decimal form of a number is made of digits, at least one.
pub proof fn lemma_dec_digits_shape(n: nat)
    ensures
        spec_dec_digits(n).len() >= 1,
        spec_all_digits(spec_dec_digits(n)),
    decreases n,
{
    if n < 10 {
        assert(spec_is_digit(spec_digit_char(n as int)));
        assert(forall|i: int|
            0 <= i < spec_dec_digits(n).len() ==> spec_is_digit(#[trigger] spec_dec_digits(n)[i]));
    } else {
        lemma_dec_digits_shape(n / 10);
        assert(spec_is_digit(spec_digit_char((n % 10) as int)));
        assert forall|i: int| 0 <= i < spec_dec_digits(n).len() implies spec_is_digit(
            #[trigger] spec_dec_digits(n)[i],
        ) by {
            if i < spec_dec_digits(n / 10).len() {
                assert(spec_dec_digits(n)[i] == spec_dec_digits(n / 10)[i]);
            }
        }
    }
}

/// The digit characters carry exactly their digit values.
proof fn lemma_digit_char_code(d: int)
    requires
        0 <= d < 10,
    ensures
        spec_digit_char(d) as u32 - '0' as u32 == d,
{
    assert('0' as u32 == 48);
    assert('1' as u32 == 49);
    assert('2' as u32 == 50);
    assert('3' as u32 == 51);
    assert('4' as u32 == 52);
    assert('5' as u32 == 53);
    assert('6' as u32 == 54);
    assert('7' as u32 == 55);
    assert('8' as u32 == 56);
    assert('9' as u32 == 57);
}

/// Law: the decimal wire form of a number reads back to that number -
/// the numeric leg of the wire format is lossless.
pub proof fn lemma_dec_digits_roundtrip(n: nat)
    ensures
        spec_dec_val(spec_dec_digits(n)) == n,
    decreases n,
{
    if n < 10 {
        lemma_digit_char_code(n as int);
        assert(spec_dec_digits(n) == seq![spec_digit_char(n as int)]);
        assert(spec_dec_digits(n).drop_last() =~= Seq::<char>::empty());
        assert(spec_dec_digits(n).last() == spec_digit_char(n as int));
        assert(spec_dec_val(Seq::<char>::empty()) == 0);
        assert(spec_dec_val(spec_dec_digits(n).drop_last()) == 0);
        assert(spec_dec_digits(n).last() as u32 - '0' as u32 == n);
        assert(spec_dec_val(spec_dec_digits(n)) == spec_dec_val(
            spec_dec_digits(n).drop_last(),
        ) * 10 + (spec_dec_digits(n).last() as u32 - '0' as u32));
    } else {
        lemma_dec_digits_roundtrip(n / 10);
        lemma_digit_char_code((n % 10) as int);
        let head = spec_dec_digits(n / 10);
        let tail = seq![spec_digit_char((n % 10) as int)];
        assert((head + tail).drop_last() =~= head);
        assert((head + tail).last() == spec_digit_char((n % 10) as int));
    }
}

/// Relies on `String`'s `FromIterator<char>`: collecting characters
/// yields the string of exactly those characters, in order.
#[verifier::external_body]
pub fn chars_to_string(v: &Vec<char>) -> (r: String)
    ensures
        r@ == v@,
{
    v.iter().collect()
}

} // verus!
