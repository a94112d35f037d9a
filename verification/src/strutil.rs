use vstd::prelude::*;
use vstd::string::StringExecFns;

verus! {

/// The characters of a string slice, as a vector.
pub fn chars_of(s: &str) -> (v: Vec<char>)
    ensures
        v@ == s@,
{
    let mut v: Vec<char> = Vec::new();
    for c in it: s.chars()
        invariant
            it.seq() == s@,
            v@ =~= it.seq().subrange(0, it.index() as int),
    {
        v.push(c);
    }
    proof {
        assert(v@ =~= s@);
    }
    v
}

/// Whether two string slices hold the same characters.
pub fn str_eq(a: &str, b: &str) -> (r: bool)
    ensures
        r <==> a@ == b@,
{
    let av = chars_of(a);
    let bv = chars_of(b);
    if av.len() != bv.len() {
        proof {
            assert(a@.len() != b@.len());
        }
        return false;
    }
    let mut i: usize = 0;
    while i < av.len()
        invariant
            i <= av@.len(),
            av@.len() == bv@.len(),
            av@ == a@ && bv@ == b@,
            forall|j: int| 0 <= j < i ==> a@[j] == b@[j],
        decreases av@.len() - i,
    {
        if av[i] != bv[i] {
            proof {
                assert(a@[i as int] != b@[i as int]);
            }
            return false;
        }
        i = i + 1;
    }
    proof {
        assert(a@ =~= b@);
    }
    true
}

/// Lowering applied by location normalization: ASCII letters `A`-`Z` move
/// down by 32, and the Kelvin sign folds to `k` — the one other code point
/// whose lower case is a plain ASCII letter.  Everything else stays.
pub open spec fn lower_ascii_u32(c: u32) -> u32 {
    if 65 <= c <= 90 {
        (c + 32) as u32
    } else if c == 0x212A {
        107u32
    } else {
        c
    }
}

/// Code points dropped by location normalization: the Unicode White_Space
/// set (what `char::is_whitespace` tests) and the separators `-`, `_`, `.`.
pub open spec fn is_location_separator(c: u32) -> bool {
    ||| c == 32
    ||| 9 <= c <= 13
    ||| c == 0x85
    ||| c == 0xA0
    ||| c == 0x1680
    ||| 0x2000 <= c <= 0x200A
    ||| c == 0x2028
    ||| c == 0x2029
    ||| c == 0x202F
    ||| c == 0x205F
    ||| c == 0x3000
    ||| c == 45
    ||| c == 95
    ||| c == 46
}

/// Normalized tail of a character sequence from position `i` on: code
/// points lowered to ASCII lowercase, separators dropped.
pub open spec fn normalized_from(s: Seq<char>, i: int) -> Seq<u32>
    decreases s.len() - i when 0 <= i <= s.len()
{
    if i >= s.len() {
        Seq::empty()
    } else {
        let c = lower_ascii_u32(s[i] as u32);
        if is_location_separator(c) {
            normalized_from(s, i + 1)
        } else {
            seq![c] + normalized_from(s, i + 1)
        }
    }
}

/// The normalized form of a whole character sequence.
pub open spec fn normalized_of(s: Seq<char>) -> Seq<u32> {
    normalized_from(s, 0)
}

/// Normalize a location name: letters lowered (ASCII, with the Kelvin
/// sign folding to `k`), Unicode whitespace and the separators `-`, `_`,
/// `.` dropped; all other characters (Korean names among them) kept as
/// they are.
pub fn normalize_location(input: &str) -> (v: Vec<u32>)
    ensures
        v@ == normalized_of(input@),
{
    let cs = chars_of(input);
    let mut v: Vec<u32> = Vec::new();
    let mut i: usize = 0;
    while i < cs.len()
        invariant
            i <= cs@.len(),
            cs@ == input@,
            normalized_of(input@) =~= v@ + normalized_from(input@, i as int),
        decreases cs@.len() - i,
    {
        let c0: u32 = cs[i] as u32;
        let c: u32 = if 65 <= c0 && c0 <= 90 {
            c0 + 32
        } else if c0 == 0x212A {
            107
        } else {
            c0
        };
        let sep: bool = c == 32 || (9 <= c && c <= 13) || c == 0x85 || c == 0xA0 || c == 0x1680
            || (0x2000 <= c && c <= 0x200A) || c == 0x2028 || c == 0x2029 || c == 0x202F || c
            == 0x205F || c == 0x3000 || c == 45 || c == 95 || c == 46;
        if !sep {
            v.push(c);
        }
        i = i + 1;
    }
    v
}

/// Whether two code-point vectors are equal.
pub fn u32_seq_eq(a: &Vec<u32>, b: &Vec<u32>) -> (r: bool)
    ensures
        r <==> a@ == b@,
{
    if a.len() != b.len() {
        return false;
    }
    let mut i: usize = 0;
    while i < a.len()
        invariant
            i <= a@.len(),
            a@.len() == b@.len(),
            forall|j: int| 0 <= j < i ==> a@[j] == b@[j],
        decreases a@.len() - i,
    {
        if a[i] != b[i] {
            return false;
        }
        i = i + 1;
    }
    proof {
        assert(a@ =~= b@);
    }
    true
}

/// The decimal digits of a non-negative number, most significant first.
pub open spec fn decimal_digits_of(n: int) -> Seq<char>
    decreases n when n >= 0
{
    let d = digit_char_of(n % 10);
    if n < 10 {
        seq![d]
    } else {
        decimal_digits_of(n / 10).push(d)
    }
}

/// The character of one decimal digit.
pub open spec fn digit_char_of(d: int) -> char {
    if d == 0 {
        '0'
    } else if d == 1 {
        '1'
    } else if d == 2 {
        '2'
    } else if d == 3 {
        '3'
    } else if d == 4 {
        '4'
    } else if d == 5 {
        '5'
    } else if d == 6 {
        '6'
    } else if d == 7 {
        '7'
    } else if d == 8 {
        '8'
    } else {
        '9'
    }
}

/// The decimal form of an integer: a minus sign for negative numbers,
/// then the digits.
pub open spec fn decimal_of(n: int) -> Seq<char> {
    if n < 0 {
        seq!['-'] + decimal_digits_of(-n)
    } else {
        decimal_digits_of(n)
    }
}

/// One decimal digit as a character.
fn digit_char(d: u64) -> (c: char)
    requires
        d < 10,
    ensures
        c == digit_char_of(d as int),
{
    match d {
        0 => '0',
        1 => '1',
        2 => '2',
        3 => '3',
        4 => '4',
        5 => '5',
        6 => '6',
        7 => '7',
        8 => '8',
        _ => '9',
    }
}

/// The decimal digit characters of a non-negative number.
fn digits_u64(n: u64) -> (v: Vec<char>)
    ensures
        v@ == decimal_digits_of(n as int),
    decreases n,
{
    let d = digit_char(n % 10);
    if n < 10 {
        let mut v: Vec<char> = Vec::new();
        v.push(d);
        proof {
            assert(v@ =~= decimal_digits_of(n as int));
        }
        v
    } else {
        let mut v = digits_u64(n / 10);
        v.push(d);
        proof {
            assert(v@ =~= decimal_digits_of(n as int));
        }
        v
    }
}

/// Relies on std's `String::push`: appends the given character to the end
/// of the string.
#[verifier::external_body]
fn push_char(s: &mut String, c: char)
    ensures
        final(s)@ == old(s)@.push(c),
{
    s.push(c);
}

/// The decimal form of an integer, as a string.
pub fn decimal_string(n: i64) -> (s: String)
    ensures
        s@ == decimal_of(n as int),
{
    let mut out = String::new();
    if n < 0 {
        let m: u64 = if n == i64::MIN {
            9_223_372_036_854_775_808u64
        } else {
            (-n) as u64
        };
        let digits = digits_u64(m);
        proof {
            reveal_strlit("-");
        }
        out.append("-");
        let mut i: usize = 0;
        while i < digits.len()
            invariant
                i <= digits@.len(),
                digits@ == decimal_digits_of(-(n as int)),
                out@ =~= seq!['-'] + digits@.subrange(0, i as int),
            decreases digits@.len() - i,
        {
            push_char(&mut out, digits[i]);
            i = i + 1;
        }
        proof {
            assert(out@ =~= decimal_of(n as int));
        }
        out
    } else {
        let digits = digits_u64(n as u64);
        let mut i: usize = 0;
        while i < digits.len()
            invariant
                i <= digits@.len(),
                digits@ == decimal_digits_of(n as int),
                out@ =~= digits@.subrange(0, i as int),
            decreases digits@.len() - i,
        {
            push_char(&mut out, digits[i]);
            i = i + 1;
        }
        proof {
            assert(out@ =~= decimal_of(n as int));
        }
        out
    }
}

} // verus!
