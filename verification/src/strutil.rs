//! Verified helpers for working with strings as sequences of characters:
//! equality, ASCII case folding, character search and decimal parsing.

use vstd::prelude::*;

verus! {

/// Compare two string slices character by character.
pub fn str_eq(a: &str, b: &str) -> (r: bool)
    ensures
        r == (a@ == b@),
{
    let a_len = a.unicode_len();
    let b_len = b.unicode_len();
    if a_len != b_len {
        assert(a@ != b@);
        return false;
    }
    let mut i: usize = 0;
    while i < a_len
        invariant
            i <= a_len,
            a_len == a@.len(),
            b_len == b@.len(),
            a_len == b_len,
            forall|j: int| 0 <= j < i ==> a@[j] == b@[j],
        decreases a_len - i,
    {
        if a.get_char(i) != b.get_char(i) {
            assert(a@ != b@);
            return false;
        }
        i += 1;
    }
    assert(a@ =~= b@);
    true
}

/// Copy an optional string.
pub fn clone_opt_string(o: &Option<String>) -> (r: Option<String>)
    ensures
        r == *o,
{
    match o {
        Some(s) => Some(s.clone()),
        None => None,
    }
}

/// Two character sequences that disagree at some index are different.
pub proof fn lemma_seq_neq_at(a: Seq<char>, b: Seq<char>, k: int)
    requires
        0 <= k < a.len(),
        0 <= k < b.len(),
        a[k] != b[k],
    ensures
        a != b,
{
    if a == b {
        assert(a[k] == b[k]);
    }
}

/// The ASCII lower-case image of a character: letters `A` through `Z` map to
/// their lower-case forms, everything else is unchanged.
pub open spec fn lower_char(c: char) -> char {
    match c {
        'A' => 'a',
        'B' => 'b',
        'C' => 'c',
        'D' => 'd',
        'E' => 'e',
        'F' => 'f',
        'G' => 'g',
        'H' => 'h',
        'I' => 'i',
        'J' => 'j',
        'K' => 'k',
        'L' => 'l',
        'M' => 'm',
        'N' => 'n',
        'O' => 'o',
        'P' => 'p',
        'Q' => 'q',
        'R' => 'r',
        'S' => 's',
        'T' => 't',
        'U' => 'u',
        'V' => 'v',
        'W' => 'w',
        'X' => 'x',
        'Y' => 'y',
        'Z' => 'z',
        _ => c,
    }
}

/// The ASCII lower-case image of a character sequence.
pub open spec fn lower_chars(s: Seq<char>) -> Seq<char> {
    s.map_values(|c: char| lower_char(c))
}

/// A one-character string holding the lower-case image of the character at
/// position `i` of `s`.
fn lower_piece<'a>(s: &'a str, i: usize) -> (r: &'a str)
    requires
        i < s@.len(),
        i < usize::MAX,
    ensures
        r@ =~= seq![lower_char(s@[i as int])],
{
    let c = s.get_char(i);
    match c {
        'A' => {
            proof {
                reveal_strlit("a");
            }
            "a"
        },
        'B' => {
            proof {
                reveal_strlit("b");
            }
            "b"
        },
        'C' => {
            proof {
                reveal_strlit("c");
            }
            "c"
        },
        'D' => {
            proof {
                reveal_strlit("d");
            }
            "d"
        },
        'E' => {
            proof {
                reveal_strlit("e");
            }
            "e"
        },
        'F' => {
            proof {
                reveal_strlit("f");
            }
            "f"
        },
        'G' => {
            proof {
                reveal_strlit("g");
            }
            "g"
        },
        'H' => {
            proof {
                reveal_strlit("h");
            }
            "h"
        },
        'I' => {
            proof {
                reveal_strlit("i");
            }
            "i"
        },
        'J' => {
            proof {
                reveal_strlit("j");
            }
            "j"
        },
        'K' => {
            proof {
                reveal_strlit("k");
            }
            "k"
        },
        'L' => {
            proof {
                reveal_strlit("l");
            }
            "l"
        },
        'M' => {
            proof {
                reveal_strlit("m");
            }
            "m"
        },
        'N' => {
            proof {
                reveal_strlit("n");
            }
            "n"
        },
        'O' => {
            proof {
                reveal_strlit("o");
            }
            "o"
        },
        'P' => {
            proof {
                reveal_strlit("p");
            }
            "p"
        },
        'Q' => {
            proof {
                reveal_strlit("q");
            }
            "q"
        },
        'R' => {
            proof {
                reveal_strlit("r");
            }
            "r"
        },
        'S' => {
            proof {
                reveal_strlit("s");
            }
            "s"
        },
        'T' => {
            proof {
                reveal_strlit("t");
            }
            "t"
        },
        'U' => {
            proof {
                reveal_strlit("u");
            }
            "u"
        },
        'V' => {
            proof {
                reveal_strlit("v");
            }
            "v"
        },
        'W' => {
            proof {
                reveal_strlit("w");
            }
            "w"
        },
        'X' => {
            proof {
                reveal_strlit("x");
            }
            "x"
        },
        'Y' => {
            proof {
                reveal_strlit("y");
            }
            "y"
        },
        'Z' => {
            proof {
                reveal_strlit("z");
            }
            "z"
        },
        _ => s.substring_char(i, i + 1),
    }
}

/// Fold the ASCII letters of a string to lower case, leaving all other
/// characters unchanged.
pub fn ascii_lower(s: &str) -> (r: String)
    ensures
        r@ == lower_chars(s@),
{
    let n = s.unicode_len();
    let mut out = String::new();
    let mut i: usize = 0;
    while i < n
        invariant
            i <= n,
            n == s@.len(),
            out@ =~= lower_chars(s@).take(i as int),
        decreases n - i,
    {
        let piece = lower_piece(s, i);
        out.append(piece);
        i += 1;
    }
    assert(out@ =~= lower_chars(s@));
    out
}

/// The index of the first occurrence of `c` in `s`, or `-1` if `c` does not
/// occur.
pub open spec fn index_of_char(s: Seq<char>, c: char) -> int
    decreases s.len(),
{
    if s.len() == 0 {
        -1
    } else if s[0] == c {
        0
    } else {
        let r = index_of_char(s.drop_first(), c);
        if r == -1 {
            -1
        } else {
            r + 1
        }
    }
}

/// `index_of_char` names the first occurrence: the character there is `c` and
/// no earlier character is, and `-1` means `c` does not occur at all.
pub proof fn lemma_index_of_char(s: Seq<char>, c: char)
    ensures
        -1 <= index_of_char(s, c) < s.len(),
        index_of_char(s, c) == -1 ==> forall|j: int| 0 <= j < s.len() ==> s[j] != c,
        index_of_char(s, c) >= 0 ==> s[index_of_char(s, c)] == c,
        index_of_char(s, c) >= 0 ==> forall|j: int| 0 <= j < index_of_char(s, c) ==> s[j] != c,
    decreases s.len(),
{
    if s.len() > 0 && s[0] != c {
        lemma_index_of_char(s.drop_first(), c);
        assert forall|j: int| 1 <= j < s.len() implies s[j] == s.drop_first()[j - 1] by {}
    }
}

/// Whether `c` occurs anywhere in `s`.
pub open spec fn has_char(s: Seq<char>, c: char) -> bool {
    index_of_char(s, c) >= 0
}

/// Find the first occurrence of `c` in `s`.
pub fn find_char(s: &str, c: char) -> (r: Option<usize>)
    ensures
        match r {
            Some(i) => i == index_of_char(s@, c) && i < s@.len() && s@[i as int] == c
                && forall|j: int| 0 <= j < i ==> s@[j] != c,
            None => index_of_char(s@, c) == -1 && forall|j: int| 0 <= j < s@.len() ==> s@[j] != c,
        },
{
    proof {
        lemma_index_of_char(s@, c);
    }
    let n = s.unicode_len();
    let mut i: usize = 0;
    while i < n
        invariant
            i <= n,
            n == s@.len(),
            forall|j: int| 0 <= j < i ==> s@[j] != c,
            -1 <= index_of_char(s@, c) < s@.len(),
            index_of_char(s@, c) >= 0 ==> s@[index_of_char(s@, c)] == c,
            index_of_char(s@, c) >= 0 ==> forall|j: int| 0 <= j < index_of_char(s@, c)
                ==> s@[j] != c,
            index_of_char(s@, c) == -1 ==> forall|j: int| 0 <= j < s@.len() ==> s@[j] != c,
        decreases n - i,
    {
        if s.get_char(i) == c {
            assert(index_of_char(s@, c) == i) by {
                if index_of_char(s@, c) < i {
                    assert(s@[index_of_char(s@, c)] == c);
                }
            }
            return Some(i);
        }
        i += 1;
    }
    assert(index_of_char(s@, c) == -1) by {
        if index_of_char(s@, c) >= 0 {
            assert(s@[index_of_char(s@, c)] == c);
        }
    }
    None
}

/// The index of the last occurrence of `c` strictly before position `end` in
/// `s`, or `-1` if there is none.
pub open spec fn rindex_of_char_before(s: Seq<char>, c: char, end: int) -> int
    decreases end,
{
    if end <= 0 || end > s.len() {
        -1
    } else if s[end - 1] == c {
        end - 1
    } else {
        rindex_of_char_before(s, c, end - 1)
    }
}

/// `rindex_of_char_before` names the last occurrence before `end`: the
/// character there is `c` and no later character before `end` is, and `-1`
/// means `c` does not occur before `end` at all.
pub proof fn lemma_rindex_of_char_before(s: Seq<char>, c: char, end: int)
    requires
        0 <= end <= s.len(),
    ensures
        -1 <= rindex_of_char_before(s, c, end) < end,
        rindex_of_char_before(s, c, end) == -1 ==> forall|j: int| 0 <= j < end ==> s[j] != c,
        rindex_of_char_before(s, c, end) >= 0 ==> s[rindex_of_char_before(s, c, end)] == c,
        rindex_of_char_before(s, c, end) >= 0 ==> forall|j: int|
            rindex_of_char_before(s, c, end) < j < end ==> s[j] != c,
    decreases end,
{
    if end > 0 && s[end - 1] != c {
        lemma_rindex_of_char_before(s, c, end - 1);
    }
}

/// Find the last occurrence of `c` strictly before position `end`.
pub fn rfind_char_before(s: &str, c: char, end: usize) -> (r: Option<usize>)
    requires
        end <= s@.len(),
    ensures
        match r {
            Some(i) => i == rindex_of_char_before(s@, c, end as int) && i < end && s@[i as int]
                == c && forall|j: int| i < j < end ==> s@[j] != c,
            None => rindex_of_char_before(s@, c, end as int) == -1 && forall|j: int|
                0 <= j < end ==> s@[j] != c,
        },
{
    proof {
        lemma_rindex_of_char_before(s@, c, end as int);
    }
    let mut i: usize = end;
    while i > 0
        invariant
            i <= end,
            end <= s@.len(),
            rindex_of_char_before(s@, c, end as int) == rindex_of_char_before(s@, c, i as int),
        decreases i,
    {
        i -= 1;
        if s.get_char(i) == c {
            proof {
                assert(rindex_of_char_before(s@, c, i + 1) == i);
                lemma_rindex_of_char_before(s@, c, end as int);
                assert forall|j: int| i < j < end implies s@[j] != c by {
                    assert(rindex_of_char_before(s@, c, end as int) < j < end);
                }
            }
            return Some(i);
        }
        assert(rindex_of_char_before(s@, c, i + 1) == rindex_of_char_before(s@, c, i as int));
    }
    None
}

/// The part of `s` before its first `/`, or all of `s` if it has none.
pub open spec fn first_segment(s: Seq<char>) -> Seq<char> {
    let i = index_of_char(s, '/');
    if i == -1 {
        s
    } else {
        s.take(i)
    }
}

/// The part of `s` between its first `/` and its second `/` (or its end),
/// or nothing if `s` has no `/` at all.
pub open spec fn second_segment(s: Seq<char>) -> Option<Seq<char>> {
    let i = index_of_char(s, '/');
    if i == -1 {
        None
    } else {
        let rest = s.subrange(i + 1, s.len() as int);
        let j = index_of_char(rest, '/');
        if j == -1 {
            Some(rest)
        } else {
            Some(rest.take(j))
        }
    }
}

/// The part of the string before its first `/`, or the whole string if it
/// has none.
pub fn segment_before_slash<'a>(s: &'a str) -> (r: &'a str)
    ensures
        r@ == first_segment(s@),
{
    let n = s.unicode_len();
    match find_char(s, '/') {
        Some(i) => {
            let seg = s.substring_char(0, i);
            assert(seg@ =~= first_segment(s@));
            seg
        },
        None => s,
    }
}

/// The part of the string between its first `/` and its second `/` or its
/// end, when the string contains a `/` at all.
pub fn segment_after_slash<'a>(s: &'a str) -> (r: Option<&'a str>)
    ensures
        match r {
            Some(seg) => second_segment(s@) == Some(seg@),
            None => second_segment(s@) is None,
        },
{
    let n = s.unicode_len();
    match find_char(s, '/') {
        Some(i) => {
            let rest = s.substring_char(i + 1, n);
            assert(rest@ =~= s@.subrange(i + 1, s@.len() as int));
            match find_char(rest, '/') {
                Some(j) => {
                    let seg = rest.substring_char(0, j);
                    assert(seg@ =~= rest@.take(j as int));
                    Some(seg)
                },
                None => Some(rest),
            }
        },
        None => None,
    }
}

/// Whether `c` is a decimal digit.
pub open spec fn is_dec_digit(c: char) -> bool {
    c == '0' || c == '1' || c == '2' || c == '3' || c == '4' || c == '5' || c == '6' || c == '7'
        || c == '8' || c == '9'
}

/// The numeric value of a decimal digit.
pub open spec fn dec_digit_val(c: char) -> nat {
    match c {
        '0' => 0,
        '1' => 1,
        '2' => 2,
        '3' => 3,
        '4' => 4,
        '5' => 5,
        '6' => 6,
        '7' => 7,
        '8' => 8,
        '9' => 9,
        _ => 0,
    }
}

/// Whether every character of `s` is a decimal digit.
pub open spec fn all_dec_digits(s: Seq<char>) -> bool {
    forall|j: int| 0 <= j < s.len() ==> is_dec_digit(#[trigger] s[j])
}

/// The value of `s` read as a decimal number.
pub open spec fn dec_val(s: Seq<char>) -> nat
    decreases s.len(),
{
    if s.len() == 0 {
        0
    } else {
        dec_val(s.drop_last()) * 10 + dec_digit_val(s.last())
    }
}

/// The decimal digit character for a value below ten.
pub open spec fn dec_digit_char(n: nat) -> char {
    if n == 0 {
        '0'
    } else if n == 1 {
        '1'
    } else if n == 2 {
        '2'
    } else if n == 3 {
        '3'
    } else if n == 4 {
        '4'
    } else if n == 5 {
        '5'
    } else if n == 6 {
        '6'
    } else if n == 7 {
        '7'
    } else if n == 8 {
        '8'
    } else if n == 9 {
        '9'
    } else {
        '0'
    }
}

/// The decimal rendering of a natural number, most significant digit first.
pub open spec fn dec_str(n: nat) -> Seq<char>
    decreases n,
{
    if n < 10 {
        seq![dec_digit_char(n)]
    } else {
        dec_str(n / 10) + seq![dec_digit_char(n % 10)]
    }
}

/// The decimal rendering of an integer: a minus sign in front of the
/// magnitude when negative.
pub open spec fn int_dec_str(i: int) -> Seq<char> {
    if i < 0 {
        seq!['-'] + dec_str((-i) as nat)
    } else {
        dec_str(i as nat)
    }
}

/// A one-character string holding the decimal digit `d`.
fn dec_digit_piece(d: u64) -> (r: &'static str)
    requires
        d < 10,
    ensures
        r@ =~= seq![dec_digit_char(d as nat)],
{
    match d {
        0u64 => {
            proof {
                reveal_strlit("0");
            }
            "0"
        },
        1u64 => {
            proof {
                reveal_strlit("1");
            }
            "1"
        },
        2u64 => {
            proof {
                reveal_strlit("2");
            }
            "2"
        },
        3u64 => {
            proof {
                reveal_strlit("3");
            }
            "3"
        },
        4u64 => {
            proof {
                reveal_strlit("4");
            }
            "4"
        },
        5u64 => {
            proof {
                reveal_strlit("5");
            }
            "5"
        },
        6u64 => {
            proof {
                reveal_strlit("6");
            }
            "6"
        },
        7u64 => {
            proof {
                reveal_strlit("7");
            }
            "7"
        },
        8u64 => {
            proof {
                reveal_strlit("8");
            }
            "8"
        },
        _ => {
            proof {
                reveal_strlit("9");
            }
            "9"
        },
    }
}

/// Render a `u64` in decimal.
pub fn u64_to_string(n: u64) -> (r: String)
    ensures
        r@ == dec_str(n as nat),
    decreases n,
{
    let mut s = if n >= 10 {
        u64_to_string(n / 10)
    } else {
        String::new()
    };
    let piece = dec_digit_piece(n % 10);
    s.append(piece);
    proof {
        if n < 10 {
            assert(s@ =~= dec_str(n as nat));
        } else {
            assert(s@ =~= dec_str(n as nat));
        }
    }
    s
}

/// Render an `i64` in decimal, with a leading minus sign when negative.
pub fn i64_to_string(i: i64) -> (r: String)
    ensures
        r@ == int_dec_str(i as int),
{
    if i < 0 {
        proof {
            reveal_strlit("-");
        }
        let mut s = String::new();
        s.append("-");
        let mag: u64 = if i == i64::MIN {
            9223372036854775808u64
        } else {
            (-i) as u64
        };
        let rest = u64_to_string(mag);
        let out = s.concat(rest.as_str());
        assert(out@ =~= int_dec_str(i as int));
        out
    } else {
        u64_to_string(i as u64)
    }
}

/// A decimal prefix never exceeds the value of the whole string.
proof fn lemma_dec_val_prefix(s: Seq<char>, i: int)
    requires
        0 <= i <= s.len(),
    ensures
        dec_val(s.take(i)) <= dec_val(s),
    decreases s.len() - i,
{
    if i < s.len() {
        lemma_dec_val_prefix(s, i + 1);
        assert(s.take(i + 1).drop_last() =~= s.take(i));
        assert(dec_val(s.take(i + 1)) == dec_val(s.take(i)) * 10 + dec_digit_val(s.take(i + 1).last()));
    } else {
        assert(s.take(i) =~= s);
    }
}

/// The `u64` a string parses to: defined exactly when the string is
/// non-empty, all digits, and its value fits.
pub open spec fn parsed_u64(s: Seq<char>) -> Option<u64> {
    if s.len() > 0 && all_dec_digits(s) && dec_val(s) <= u64::MAX {
        Some(dec_val(s) as u64)
    } else {
        None
    }
}

/// Parse a non-empty, all-digit string as a decimal `u64`, rejecting any
/// other input and any value that does not fit.
pub fn parse_u64(s: &str) -> (r: Option<u64>)
    ensures
        r == parsed_u64(s@),
{
    let n = s.unicode_len();
    if n == 0 {
        return None;
    }
    let mut acc: u64 = 0;
    let mut i: usize = 0;
    while i < n
        invariant
            i <= n,
            n == s@.len(),
            all_dec_digits(s@.take(i as int)),
            acc == dec_val(s@.take(i as int)),
        decreases n - i,
    {
        let c = s.get_char(i);
        let d: u64 = match c {
            '0' => 0,
            '1' => 1,
            '2' => 2,
            '3' => 3,
            '4' => 4,
            '5' => 5,
            '6' => 6,
            '7' => 7,
            '8' => 8,
            '9' => 9,
            _ => {
                assert(!is_dec_digit(s@[i as int]));
                return None;
            },
        };
        assert(is_dec_digit(s@[i as int]) && d == dec_digit_val(s@[i as int]));
        let shifted = match acc.checked_mul(10) {
            Some(x) => x,
            None => {
                proof {
                    assert(s@.take(i as int + 1).drop_last() =~= s@.take(i as int));
                    assert(dec_val(s@.take(i as int + 1)) > u64::MAX);
                    lemma_dec_val_prefix(s@, i as int + 1);
                }
                return None;
            },
        };
        let next = match shifted.checked_add(d) {
            Some(x) => x,
            None => {
                proof {
                    assert(s@.take(i as int + 1).drop_last() =~= s@.take(i as int));
                    assert(dec_val(s@.take(i as int + 1)) > u64::MAX);
                    lemma_dec_val_prefix(s@, i as int + 1);
                }
                return None;
            },
        };
        proof {
            assert(s@.take(i as int + 1).drop_last() =~= s@.take(i as int));
        }
        acc = next;
        i += 1;
    }
    proof {
        assert(s@.take(n as int) =~= s@);
    }
    Some(acc)
}

} // verus!
