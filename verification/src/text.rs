//! Verified text building blocks: decimal rendering of counters and
//! identifiers, zero padding, and JSON string escaping.

use vstd::prelude::*;
use vstd::string::*;

verus! {

/// The decimal digit character for a value below ten.
pub open spec fn spec_digit_char(d: nat) -> char {
    if d == 0 {
        '0'
    } else if d == 1 {
        '1'
    } else if d == 2 {
        '2'
    } else if d == 3 {
        '3'
    } else if d == 4 {
        '4'
    } else if d == 5 {
        '5'
    } else if d == 6 {
        '6'
    } else if d == 7 {
        '7'
    } else if d == 8 {
        '8'
    } else {
        '9'
    }
}

/// The decimal digits of `n`, most significant first.
pub open spec fn spec_decimal(n: nat) -> Seq<char>
    decreases n,
{
    if n < 10 {
        seq![spec_digit_char(n)]
    } else {
        spec_decimal(n / 10).push(spec_digit_char(n % 10))
    }
}

fn digit_char(d: u64) -> (c: char)
    requires
        d < 10,
    ensures
        c == spec_digit_char(d as nat),
{
    if d == 0 {
        '0'
    } else if d == 1 {
        '1'
    } else if d == 2 {
        '2'
    } else if d == 3 {
        '3'
    } else if d == 4 {
        '4'
    } else if d == 5 {
        '5'
    } else if d == 6 {
        '6'
    } else if d == 7 {
        '7'
    } else if d == 8 {
        '8'
    } else {
        '9'
    }
}

/// Relies on str::chars: the characters of the text in order — the view of a
/// `&str` is exactly this character sequence.
#[verifier::external_body]
pub fn chars_of(s: &str) -> (v: Vec<char>)
    ensures
        v@ == s@,
{
    s.chars().collect()
}

/// Relies on String's FromIterator over char: collecting characters yields the
/// string whose character sequence they are.
#[verifier::external_body]
pub fn string_from_chars(v: &Vec<char>) -> (s: String)
    ensures
        s@ == v@,
{
    v.iter().collect()
}

/// The decimal digits of `n` as characters, most significant first.
pub fn decimal_chars(n: u64) -> (digits: Vec<char>)
    ensures
        digits@ == spec_decimal(n as nat),
    decreases n,
{
    if n < 10 {
        let mut digits: Vec<char> = Vec::new();
        digits.push(digit_char(n));
        proof {
            assert(digits@ =~= spec_decimal(n as nat));
        }
        digits
    } else {
        let mut digits = decimal_chars(n / 10);
        digits.push(digit_char(n % 10));
        proof {
            assert(digits@ =~= spec_decimal(n as nat));
        }
        digits
    }
}

/// `s` left-padded with `'0'` to width `w`.
pub open spec fn spec_zero_pad(s: Seq<char>, w: nat) -> Seq<char> {
    if s.len() >= w {
        s
    } else {
        Seq::new((w - s.len()) as nat, |i: int| '0') + s
    }
}

/// The decimal digits of `n`, zero-padded on the left to `width`.
pub fn zero_padded_decimal(n: u64, width: usize) -> (out: Vec<char>)
    ensures
        out@ == spec_zero_pad(spec_decimal(n as nat), width as nat),
{
    let mut digits = decimal_chars(n);
    if digits.len() >= width {
        digits
    } else {
        let pad: usize = width - digits.len();
        let mut out: Vec<char> = Vec::new();
        let mut k: usize = 0;
        while k < pad
            invariant
                k <= pad,
                out@ =~= Seq::new(k as nat, |i: int| '0'),
            decreases pad - k,
        {
            out.push('0');
            k = k + 1;
            proof {
                assert(out@ =~= Seq::new(k as nat, |i: int| '0'));
            }
        }
        out.append(&mut digits);
        proof {
            assert(out@ =~= spec_zero_pad(spec_decimal(n as nat), width as nat));
        }
        out
    }
}

/// An identifier: a tag followed by six zero-padded decimal digits.
pub open spec fn spec_tagged_id(tag: Seq<char>, n: nat) -> Seq<char> {
    tag + spec_zero_pad(spec_decimal(n), 6)
}

/// Build the identifier carrying the given tag and serial number.
pub fn tagged_id(tag: &str, n: u64) -> (id: String)
    ensures
        id@ == spec_tagged_id(tag@, n as nat),
{
    let mut id = tag.to_owned();
    let digits = string_from_chars(&zero_padded_decimal(n, 6));
    id.append(digits.as_str());
    id
}

/// The hexadecimal digit character for a value below sixteen.
pub open spec fn spec_hex_char(d: nat) -> char {
    if d < 10 {
        spec_digit_char(d)
    } else if d == 10 {
        'a'
    } else if d == 11 {
        'b'
    } else if d == 12 {
        'c'
    } else if d == 13 {
        'd'
    } else if d == 14 {
        'e'
    } else {
        'f'
    }
}

fn hex_char(d: u32) -> (c: char)
    requires
        d < 16,
    ensures
        c == spec_hex_char(d as nat),
{
    if d < 10 {
        digit_char(d as u64)
    } else if d == 10 {
        'a'
    } else if d == 11 {
        'b'
    } else if d == 12 {
        'c'
    } else if d == 13 {
        'd'
    } else if d == 14 {
        'e'
    } else {
        'f'
    }
}

/// How one character is written inside a JSON string literal: quotes and
/// backslashes take a backslash, control characters take a `\u00..` escape,
/// everything else stands as itself.
pub open spec fn spec_escape_char(c: char) -> Seq<char> {
    if c == '"' {
        seq!['\\', '"']
    } else if c == '\\' {
        seq!['\\', '\\']
    } else if (c as u32) < 32 {
        seq!['\\', 'u', '0', '0', spec_hex_char(((c as u32) / 16) as nat), spec_hex_char(
            ((c as u32) % 16) as nat,
        )]
    } else {
        seq![c]
    }
}

/// The JSON escaping of a whole text.
pub open spec fn spec_json_escape(s: Seq<char>) -> Seq<char>
    decreases s.len(),
{
    if s.len() == 0 {
        Seq::empty()
    } else {
        spec_escape_char(s[0]) + spec_json_escape(s.drop_first())
    }
}

/// A JSON string literal: the escaped text between quotes.
pub open spec fn spec_json_string(s: Seq<char>) -> Seq<char> {
    "\""@ + spec_json_escape(s) + "\""@
}

/// Escaping distributes over appending one character at the end.
proof fn lemma_json_escape_push(s: Seq<char>, c: char)
    ensures
        spec_json_escape(s.push(c)) == spec_json_escape(s) + spec_escape_char(c),
    decreases s.len(),
{
    if s.len() == 0 {
        assert(s.push(c)[0] == c);
        assert(s.push(c).drop_first() =~= Seq::<char>::empty());
        assert(spec_json_escape(Seq::<char>::empty()) == Seq::<char>::empty());
        assert(spec_json_escape(s.push(c)) == spec_escape_char(c) + spec_json_escape(
            s.push(c).drop_first(),
        ));
        assert(spec_json_escape(s.push(c)) =~= spec_json_escape(s) + spec_escape_char(c));
    } else {
        lemma_json_escape_push(s.drop_first(), c);
        assert(s.push(c)[0] == s[0]);
        assert(s.push(c).drop_first() =~= s.drop_first().push(c));
        assert(spec_json_escape(s.push(c)) == spec_escape_char(s[0]) + spec_json_escape(
            s.drop_first().push(c),
        ));
        assert(spec_escape_char(s[0]) + (spec_json_escape(s.drop_first()) + spec_escape_char(c))
            =~= (spec_escape_char(s[0]) + spec_json_escape(s.drop_first())) + spec_escape_char(c));
        assert(spec_json_escape(s.push(c)) =~= spec_json_escape(s) + spec_escape_char(c));
    }
}

/// Escape a text for embedding inside a JSON string literal.
pub fn json_escape_chars(v: &Vec<char>) -> (out: Vec<char>)
    ensures
        out@ == spec_json_escape(v@),
{
    let mut out: Vec<char> = Vec::new();
    let mut i: usize = 0;
    proof {
        assert(v@.subrange(0, 0) =~= Seq::<char>::empty());
    }
    while i < v.len()
        invariant
            i <= v@.len(),
            out@ == spec_json_escape(v@.subrange(0, i as int)),
        decreases v@.len() - i,
    {
        let c = v[i];
        if c == '"' {
            out.push('\\');
            out.push('"');
        } else if c == '\\' {
            out.push('\\');
            out.push('\\');
        } else if (c as u32) < 32 {
            let x = c as u32;
            out.push('\\');
            out.push('u');
            out.push('0');
            out.push('0');
            out.push(hex_char(x / 16));
            out.push(hex_char(x % 16));
        } else {
            out.push(c);
        }
        proof {
            lemma_json_escape_push(v@.subrange(0, i as int), v@[i as int]);
            assert(v@.subrange(0, i as int + 1) =~= v@.subrange(0, i as int).push(v@[i as int]));
            assert(out@ =~= spec_json_escape(v@.subrange(0, i as int)) + spec_escape_char(
                v@[i as int],
            ));
        }
        i = i + 1;
    }
    proof {
        assert(v@.subrange(0, v@.len() as int) =~= v@);
    }
    out
}

} // verus!
