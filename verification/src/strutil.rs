//! Small verified string utilities: decimal parsing and formatting,
//! splitting on a separator character, and whitespace trimming. The
//! parsers here back the GPU inventory readers.

use vstd::prelude::*;

verus! {

/// A decimal digit.
pub open spec fn is_digit(c: char) -> bool {
    '0' <= c && c <= '9'
}

/// The numeric value of a digit, and zero for any other character.
pub open spec fn digit_val(c: char) -> nat {
    if is_digit(c) {
        (c as nat - '0' as nat) as nat
    } else {
        0
    }
}

/// The numeric value of a digit sequence, most significant first.
pub open spec fn dec_val(s: Seq<char>) -> nat
    decreases s.len(),
{
    if s.len() == 0 {
        0
    } else {
        dec_val(s.drop_last()) * 10 + digit_val(s.last())
    }
}

/// A non-empty, all-digit sequence whose value fits in `u64`.
pub open spec fn is_dec_u64(s: Seq<char>) -> bool {
    &&& s.len() > 0
    &&& forall|i: int| 0 <= i < s.len() ==> is_digit(s[i])
    &&& dec_val(s) <= u64::MAX
}

/// What `parse_u64_dec` returns: the value of a plain decimal numeral,
/// or nothing when the text is not one (or does not fit in `u64`).
pub open spec fn parse_u64_spec(s: Seq<char>) -> Option<u64> {
    if is_dec_u64(s) {
        Some(dec_val(s) as u64)
    } else {
        None
    }
}

proof fn lemma_dec_val_step(s: Seq<char>, i: int)
    requires
        0 <= i < s.len(),
    ensures
        dec_val(s.take(i + 1)) == dec_val(s.take(i)) * 10 + digit_val(s[i]),
{
    assert(s.take(i + 1).drop_last() =~= s.take(i));
    assert(s.take(i + 1).last() == s[i]);
}

/// The value of a digit string only grows as digits are appended.
proof fn lemma_dec_val_prefix_le(s: Seq<char>, i: int)
    requires
        0 <= i <= s.len(),
    ensures
        dec_val(s.take(i)) <= dec_val(s),
    decreases s.len() - i,
{
    if i < s.len() {
        lemma_dec_val_step(s, i);
        lemma_dec_val_prefix_le(s, i + 1);
    } else {
        assert(s.take(i) =~= s);
    }
}

/// Parse a plain decimal numeral: every character a digit, at least one
/// digit, value within `u64`. Anything else is `None`.
pub fn parse_u64_dec(s: &str) -> (r: Option<u64>)
    ensures
        r == parse_u64_spec(s@),
{
    let n = s.unicode_len();
    if n == 0 {
        return None;
    }
    let mut acc: u64 = 0;
    let mut i: usize = 0;
    while i < n
        invariant
            0 <= i <= n,
            n == s@.len(),
            forall|j: int| 0 <= j < i ==> is_digit(s@[j]),
            acc as nat == dec_val(s@.take(i as int)),
        decreases n - i,
    {
        let c = s.get_char(i);
        if !('0' <= c && c <= '9') {
            return None;
        }
        let d: u64 = (c as u32 as u64) - ('0' as u32 as u64);
        proof {
            lemma_dec_val_step(s@, i as int);
        }
        if acc > (u64::MAX - d) / 10 {
            proof {
                lemma_dec_val_prefix_le(s@, i as int + 1);
                assert(dec_val(s@.take(i as int + 1)) > u64::MAX) by {
                    assert(acc * 10 + d > u64::MAX) by (nonlinear_arith)
                        requires
                            acc > (u64::MAX - d) / 10,
                            d <= 9,
                    ;
                };
            }
            return None;
        }
        acc = acc * 10 + d;
        i = i + 1;
    }
    proof {
        assert(s@.take(n as int) =~= s@);
    }
    Some(acc)
}

/// The character for a digit value, `'0'` for anything out of range.
pub open spec fn digit_char(d: nat) -> char {
    if d == 0 {
        '0'
    } else if d == 1 {
        '1'
    } else if d == 2 {
        '2'
    } else if d == 3 {
        '3'
    } else if d == 4 {
        '4'
    } else if d == 5 {
        '5'
    } else if d == 6 {
        '6'
    } else if d == 7 {
        '7'
    } else if d == 8 {
        '8'
    } else if d == 9 {
        '9'
    } else {
        '0'
    }
}

/// The decimal numeral of a number, without sign or padding.
pub open spec fn dec_str(n: nat) -> Seq<char>
    decreases n,
{
    if n < 10 {
        seq![digit_char(n)]
    } else {
        dec_str(n / 10).push(digit_char(n % 10))
    }
}

fn digit_str(d: u64) -> (r: &'static str)
    requires
        d < 10,
    ensures
        r@ =~= seq![digit_char(d as nat)],
{
    proof {
        reveal_strlit("0");
        reveal_strlit("1");
        reveal_strlit("2");
        reveal_strlit("3");
        reveal_strlit("4");
        reveal_strlit("5");
        reveal_strlit("6");
        reveal_strlit("7");
        reveal_strlit("8");
        reveal_strlit("9");
    }
    if d == 0 {
        "0"
    } else if d == 1 {
        "1"
    } else if d == 2 {
        "2"
    } else if d == 3 {
        "3"
    } else if d == 4 {
        "4"
    } else if d == 5 {
        "5"
    } else if d == 6 {
        "6"
    } else if d == 7 {
        "7"
    } else if d == 8 {
        "8"
    } else {
        "9"
    }
}

/// Render a number as its decimal numeral.
pub fn u64_to_dec_string(n: u64) -> (s: String)
    ensures
        s@ == dec_str(n as nat),
    decreases n,
{
    if n < 10 {
        String::from_str(digit_str(n))
    } else {
        let mut s = u64_to_dec_string(n / 10);
        s.append(digit_str(n % 10));
        proof {
            assert(s@ =~= dec_str((n / 10) as nat).push(digit_char((n % 10) as nat)));
        }
        s
    }
}

/// Splitting a sequence on a separator, with `cur` the piece gathered
/// so far: every separator ends one piece, and the tail past the last
/// separator is a piece of its own (possibly empty).
pub open spec fn split_rec(s: Seq<char>, sep: char, cur: Seq<char>) -> Seq<Seq<char>>
    decreases s.len(),
{
    if s.len() == 0 {
        seq![cur]
    } else if s[0] == sep {
        seq![cur] + split_rec(s.skip(1), sep, Seq::empty())
    } else {
        split_rec(s.skip(1), sep, cur.push(s[0]))
    }
}

/// The pieces of a sequence between occurrences of a separator.
pub open spec fn split_on(s: Seq<char>, sep: char) -> Seq<Seq<char>> {
    split_rec(s, sep, Seq::empty())
}

proof fn lemma_split_rec_len(s: Seq<char>, sep: char, cur: Seq<char>)
    ensures
        split_rec(s, sep, cur).len() >= 1,
    decreases s.len(),
{
    if s.len() > 0 {
        if s[0] == sep {
            lemma_split_rec_len(s.skip(1), sep, Seq::empty());
        } else {
            lemma_split_rec_len(s.skip(1), sep, cur.push(s[0]));
        }
    }
}

/// Splitting always yields at least one piece.
pub proof fn lemma_split_len(s: Seq<char>, sep: char)
    ensures
        split_on(s, sep).len() >= 1,
{
    lemma_split_rec_len(s, sep, Seq::empty());
}

/// Split a string on a separator character. The result always has one
/// more element than the text has separators; pieces may be empty.
pub fn split_char(s: &str, sep: char) -> (parts: Vec<String>)
    ensures
        parts.deep_view() == split_on(s@, sep),
{
    let n = s.unicode_len();
    let mut parts: Vec<String> = Vec::new();
    let mut start: usize = 0;
    let mut i: usize = 0;
    proof {
        assert(s@.skip(0) =~= s@);
        assert(s@.subrange(0, 0) =~= Seq::<char>::empty());
        assert(parts.deep_view() =~= Seq::<Seq<char>>::empty());
    }
    while i < n
        invariant
            0 <= start <= i <= n,
            n == s@.len(),
            split_on(s@, sep) =~= parts.deep_view() + split_rec(
                s@.skip(i as int),
                sep,
                s@.subrange(start as int, i as int),
            ),
        decreases n - i,
    {
        let c = s.get_char(i);
        if c == sep {
            let piece = s.substring_char(start, i);
            parts.push(piece.to_owned());
            proof {
                assert(s@.skip(i as int)[0] == sep);
                assert(s@.skip(i as int).skip(1) =~= s@.skip(i as int + 1));
                assert(s@.subrange(i as int + 1, i as int + 1) =~= Seq::<char>::empty());
            }
            start = i + 1;
        } else {
            proof {
                assert(s@.skip(i as int)[0] == s@[i as int]);
                assert(s@.skip(i as int).skip(1) =~= s@.skip(i as int + 1));
                assert(s@.subrange(start as int, i as int).push(s@[i as int]) =~= s@.subrange(
                    start as int,
                    i as int + 1,
                ));
            }
        }
        i = i + 1;
    }
    let piece = s.substring_char(start, n);
    parts.push(piece.to_owned());
    proof {
        assert(s@.skip(n as int) =~= Seq::<char>::empty());
        assert(split_rec(s@.skip(n as int), sep, s@.subrange(start as int, n as int)) =~= seq![
            s@.subrange(start as int, n as int),
        ]);
    }
    parts
}

/// Whitespace for trimming purposes: the blank characters that the GPU
/// inventory tools emit around fields.
pub open spec fn is_space(c: char) -> bool {
    c == ' ' || c == '\t' || c == '\r' || c == '\n'
}

/// A sequence with its leading whitespace dropped.
pub open spec fn trim_front(s: Seq<char>) -> Seq<char>
    decreases s.len(),
{
    if s.len() > 0 && is_space(s[0]) {
        trim_front(s.skip(1))
    } else {
        s
    }
}

/// A sequence with its trailing whitespace dropped.
pub open spec fn trim_back(s: Seq<char>) -> Seq<char>
    decreases s.len(),
{
    if s.len() > 0 && is_space(s.last()) {
        trim_back(s.drop_last())
    } else {
        s
    }
}

/// A sequence with whitespace dropped from both ends.
pub open spec fn trim_spec(s: Seq<char>) -> Seq<char> {
    trim_back(trim_front(s))
}

fn space_at(s: &str, i: usize) -> (r: bool)
    requires
        i < s@.len(),
    ensures
        r == is_space(s@[i as int]),
{
    let c = s.get_char(i);
    c == ' ' || c == '\t' || c == '\r' || c == '\n'
}

/// Drop leading and trailing whitespace.
pub fn trim(s: &str) -> (r: String)
    ensures
        r@ == trim_spec(s@),
{
    let n = s.unicode_len();
    let mut a: usize = 0;
    proof {
        assert(s@.skip(0) =~= s@);
    }
    while a < n && space_at(s, a)
        invariant
            0 <= a <= n,
            n == s@.len(),
            trim_front(s@) == trim_front(s@.skip(a as int)),
        decreases n - a,
    {
        proof {
            assert(s@.skip(a as int)[0] == s@[a as int]);
            assert(s@.skip(a as int).skip(1) =~= s@.skip(a as int + 1));
        }
        a = a + 1;
    }
    proof {
        if a < n {
            assert(s@.skip(a as int)[0] == s@[a as int]);
        }
        assert(trim_front(s@) =~= s@.skip(a as int));
    }
    let mut b: usize = n;
    while b > a && space_at(s, b - 1)
        invariant
            a <= b <= n,
            n == s@.len(),
            trim_front(s@) =~= s@.skip(a as int),
            trim_back(s@.skip(a as int)) == trim_back(s@.subrange(a as int, b as int)),
        decreases b,
    {
        proof {
            let piece = s@.subrange(a as int, b as int);
            assert(piece.last() == s@[b as int - 1]);
            assert(piece.drop_last() =~= s@.subrange(a as int, b as int - 1));
        }
        b = b - 1;
    }
    proof {
        let piece = s@.subrange(a as int, b as int);
        if b > a {
            assert(piece.last() == s@[b as int - 1]);
        }
        assert(trim_back(piece) =~= piece);
    }
    let r = s.substring_char(a, b);
    r.to_owned()
}

} // verus!
