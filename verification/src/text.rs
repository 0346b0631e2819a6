use vstd::prelude::*;
use vstd::string::StrSliceExecFns;
use vstd::string::StringExecFns;

verus! {

/// The needle occurs in the haystack starting at character position `i`.
pub open spec fn matches_at(needle: Seq<char>, hay: Seq<char>, i: int) -> bool {
    0 <= i && i + needle.len() <= hay.len() && hay.subrange(i, i + needle.len() as int)
        == needle
}

/// One sequence of characters is a prefix of another.
pub open spec fn is_prefix_of(p: Seq<char>, s: Seq<char>) -> bool {
    p.len() <= s.len() && s.subrange(0, p.len() as int) == p
}

/// The needle occurs somewhere in the haystack.
pub open spec fn contains_seq(needle: Seq<char>, hay: Seq<char>) -> bool {
    exists|i: int| matches_at(needle, hay, i)
}

/// Exact character-for-character equality of two string slices.
pub fn str_eq(a: &str, b: &str) -> (r: bool)
    ensures
        r == (a@ == b@),
{
    let alen = a.unicode_len();
    let blen = b.unicode_len();
    if alen != blen {
        return false;
    }
    let mut i: usize = 0;
    while i < alen
        invariant
            alen == a@.len(),
            blen == b@.len(),
            alen == blen,
            i <= alen,
            forall|j: int| 0 <= j < i ==> a@[j] == b@[j],
        decreases alen - i,
    {
        if a.get_char(i) != b.get_char(i) {
            return false;
        }
        i += 1;
    }
    proof {
        assert(a@ =~= b@);
    }
    true
}

/// The needle matches the haystack at character position `i`.
fn match_at(hay: &str, needle: &str, i: usize) -> (r: bool)
    requires
        i + needle@.len() <= hay@.len(),
        hay@.len() <= usize::MAX,
    ensures
        r == matches_at(needle@, hay@, i as int),
{
    let nlen = needle.unicode_len();
    let mut j: usize = 0;
    while j < nlen
        invariant
            nlen == needle@.len(),
            i + nlen <= hay@.len(),
            hay@.len() <= usize::MAX,
            j <= nlen,
            forall|k: int| 0 <= k < j ==> hay@[i + k] == needle@[k],
        decreases nlen - j,
    {
        if hay.get_char(i + j) != needle.get_char(j) {
            proof {
                assert(hay@.subrange(i as int, i + nlen as int)[j as int] == hay@[i + j]);
            }
            return false;
        }
        j += 1;
    }
    proof {
        assert(hay@.subrange(i as int, i + nlen as int) =~= needle@);
    }
    true
}

/// Whether the string `s` starts with the prefix `p`.
pub fn starts_with_str(s: &str, p: &str) -> (r: bool)
    ensures
        r == is_prefix_of(p@, s@),
{
    let slen = s.unicode_len();
    let plen = p.unicode_len();
    if plen > slen {
        return false;
    }
    match_at(s, p, 0)
}

/// Whether the string `s` contains the substring `needle`.
pub fn contains_str(s: &str, needle: &str) -> (r: bool)
    ensures
        r == contains_seq(needle@, s@),
{
    let slen = s.unicode_len();
    let nlen = needle.unicode_len();
    if nlen > slen {
        proof {
            assert forall|i: int| !matches_at(needle@, s@, i) by {}
        }
        return false;
    }
    if nlen == 0 {
        proof {
            assert(s@.subrange(0, 0) =~= needle@);
            assert(matches_at(needle@, s@, 0));
        }
        return true;
    }
    let mut i: usize = 0;
    while i <= slen - nlen
        invariant
            slen == s@.len(),
            nlen == needle@.len(),
            0 < nlen <= slen,
            i <= slen - nlen + 1,
            forall|k: int| 0 <= k < i ==> !matches_at(needle@, s@, k),
        decreases slen - nlen + 1 - i,
    {
        if match_at(s, needle, i) {
            return true;
        }
        i += 1;
    }
    proof {
        assert forall|k: int| !matches_at(needle@, s@, k) by {
            if k >= i {
                assert(k + nlen > slen);
            }
        }
    }
    false
}

/// The character for a single decimal digit.
pub open spec fn digit_char(d: nat) -> char {
    if d == 0 {
        '0'
    } else if d == 1 {
        '1'
    } else if d == 2 {
        '2'
    } else if d == 3 {
        '3'
    } else if d == 4 {
        '4'
    } else if d == 5 {
        '5'
    } else if d == 6 {
        '6'
    } else if d == 7 {
        '7'
    } else if d == 8 {
        '8'
    } else {
        '9'
    }
}

/// The usual decimal rendering of a natural number, without leading zeros.
pub open spec fn dec_str(n: nat) -> Seq<char>
    decreases n,
{
    if n < 10 {
        seq![digit_char(n)]
    } else {
        dec_str(n / 10).push(digit_char(n % 10))
    }
}

/// A decimal rendering always has at least one digit.
pub proof fn lemma_dec_str_nonempty(n: nat)
    ensures
        dec_str(n).len() >= 1,
{
}

/// The character is one of the ten decimal digits.
pub open spec fn is_dec_digit(c: char) -> bool {
    ('0' as u32) <= c as u32 <= ('9' as u32)
}

/// A decimal rendering consists of decimal digits alone.
pub proof fn lemma_dec_str_digits(n: nat)
    ensures
        forall|i: int| 0 <= i < dec_str(n).len() ==> is_dec_digit(#[trigger] dec_str(n)[i]),
    decreases n,
{
    if n < 10 {
        assert(dec_str(n)[0] == digit_char(n));
        assert(is_dec_digit(digit_char(n)));
    } else {
        lemma_dec_str_digits(n / 10);
        assert(is_dec_digit(digit_char(n % 10)));
        assert(forall|i: int|
            0 <= i < dec_str(n / 10).len() ==> #[trigger] dec_str(n)[i] == dec_str(n / 10)[i]);
    }
}

/// A two-character, zero-padded decimal rendering.
pub open spec fn two_digit(n: nat) -> Seq<char> {
    seq![digit_char(n / 10), digit_char(n % 10)]
}

/// A four-character, zero-padded decimal rendering.
pub open spec fn four_digit(n: nat) -> Seq<char> {
    seq![
        digit_char(n / 1000 % 10),
        digit_char(n / 100 % 10),
        digit_char(n / 10 % 10),
        digit_char(n % 10),
    ]
}

/// The rendering of a year: zero-padded to four characters, with a leading
/// minus sign for years before year zero.
pub open spec fn year_str(y: int) -> Seq<char> {
    if y >= 10000 {
        dec_str(y as nat)
    } else if y >= 0 {
        four_digit(y as nat)
    } else if y > -10000 {
        seq!['-'] + four_digit((-y) as nat)
    } else {
        seq!['-'] + dec_str((-y) as nat)
    }
}

/// A one-character string slice holding a single decimal digit.
pub fn digit_str(d: u8) -> (r: &'static str)
    requires
        d < 10,
    ensures
        r@ == seq![digit_char(d as nat)],
{
    if d == 0 {
        proof {
            reveal_strlit("0");
        }
        assert("0"@ =~= seq![digit_char(0)]);
        "0"
    } else if d == 1 {
        proof {
            reveal_strlit("1");
        }
        assert("1"@ =~= seq![digit_char(1)]);
        "1"
    } else if d == 2 {
        proof {
            reveal_strlit("2");
        }
        assert("2"@ =~= seq![digit_char(2)]);
        "2"
    } else if d == 3 {
        proof {
            reveal_strlit("3");
        }
        assert("3"@ =~= seq![digit_char(3)]);
        "3"
    } else if d == 4 {
        proof {
            reveal_strlit("4");
        }
        assert("4"@ =~= seq![digit_char(4)]);
        "4"
    } else if d == 5 {
        proof {
            reveal_strlit("5");
        }
        assert("5"@ =~= seq![digit_char(5)]);
        "5"
    } else if d == 6 {
        proof {
            reveal_strlit("6");
        }
        assert("6"@ =~= seq![digit_char(6)]);
        "6"
    } else if d == 7 {
        proof {
            reveal_strlit("7");
        }
        assert("7"@ =~= seq![digit_char(7)]);
        "7"
    } else if d == 8 {
        proof {
            reveal_strlit("8");
        }
        assert("8"@ =~= seq![digit_char(8)]);
        "8"
    } else {
        proof {
            reveal_strlit("9");
        }
        assert("9"@ =~= seq![digit_char(9)]);
        "9"
    }
}

/// Renders a number in decimal.
pub fn u128_string(n: u128) -> (r: String)
    ensures
        r@ == dec_str(n as nat),
    decreases n,
{
    if n < 10 {
        let mut s = String::new();
        s.append(digit_str(n as u8));
        proof {
            assert(s@ =~= dec_str(n as nat));
        }
        s
    } else {
        let mut s = u128_string(n / 10);
        s.append(digit_str((n % 10) as u8));
        proof {
            assert(s@ =~= dec_str(n as nat));
        }
        s
    }
}

/// Renders a number in decimal.
pub fn u64_string(n: u64) -> (r: String)
    ensures
        r@ == dec_str(n as nat),
{
    u128_string(n as u128)
}

/// Renders a number as exactly two decimal digits, zero-padded.
pub fn two_digit_string(n: u8) -> (r: String)
    requires
        n < 100,
    ensures
        r@ == two_digit(n as nat),
{
    let mut s = String::new();
    s.append(digit_str(n / 10));
    s.append(digit_str(n % 10));
    proof {
        assert(s@ =~= two_digit(n as nat));
    }
    s
}

/// Renders a number as exactly four decimal digits, zero-padded.
fn four_digit_string(n: u32) -> (r: String)
    requires
        n < 10000,
    ensures
        r@ == four_digit(n as nat),
{
    let mut s = String::new();
    s.append(digit_str((n / 1000 % 10) as u8));
    s.append(digit_str((n / 100 % 10) as u8));
    s.append(digit_str((n / 10 % 10) as u8));
    s.append(digit_str((n % 10) as u8));
    proof {
        assert(s@ =~= four_digit(n as nat));
    }
    s
}

/// Renders a year, zero-padded to four characters and signed when negative.
pub fn year_string(y: i32) -> (r: String)
    ensures
        r@ == year_str(y as int),
{
    if y >= 10000 {
        u128_string(y as u128)
    } else if y >= 0 {
        four_digit_string(y as u32)
    } else {
        let mag: u64 = ((-(y as i64)) as u64);
        let mut s = String::new();
        proof {
            reveal_strlit("-");
        }
        s.append("-");
        if mag < 10000 {
            let rest = four_digit_string(mag as u32);
            s.append(rest.as_str());
            proof {
                assert(s@ =~= year_str(y as int));
            }
            s
        } else {
            let rest = u128_string(mag as u128);
            s.append(rest.as_str());
            proof {
                assert(s@ =~= year_str(y as int));
            }
            s
        }
    }
}

/// The parts joined with the separator between consecutive parts.
pub open spec fn joined_with(parts: Seq<Seq<char>>, sep: Seq<char>) -> Seq<char>
    decreases parts.len(),
{
    if parts.len() == 0 {
        Seq::empty()
    } else if parts.len() == 1 {
        parts[0]
    } else {
        parts[0] + sep + joined_with(parts.drop_first(), sep)
    }
}

/// Appending one more part to a non-empty list extends the joined rendering
/// by the separator and that part.
proof fn lemma_joined_push(parts: Seq<Seq<char>>, sep: Seq<char>, x: Seq<char>)
    requires
        parts.len() >= 1,
    ensures
        joined_with(parts.push(x), sep) == joined_with(parts, sep) + sep + x,
    decreases parts.len(),
{
    if parts.len() == 1 {
        assert(parts.push(x).drop_first() =~= seq![x]);
        assert(parts.push(x)[0] == parts[0]);
        assert(joined_with(seq![x], sep) == seq![x][0]);
        assert(joined_with(parts.push(x), sep) == parts[0] + sep + x);
        assert(joined_with(parts, sep) + sep + x =~= parts[0] + sep + x);
    } else {
        lemma_joined_push(parts.drop_first(), sep, x);
        assert(parts.push(x).drop_first() =~= parts.drop_first().push(x));
        assert(joined_with(parts, sep) + sep + x =~= parts[0] + sep + (joined_with(
            parts.drop_first(),
            sep,
        ) + sep + x));
    }
}

/// Joins the strings with `", "` between consecutive entries.
pub fn join_comma(parts: &Vec<String>) -> (r: String)
    ensures
        r@ == joined_with(parts.deep_view(), ", "@),
{
    let mut s = String::new();
    if parts.len() == 0 {
        proof {
            assert(parts.deep_view() =~= Seq::<Seq<char>>::empty());
        }
        return s;
    }
    s.append(parts[0].as_str());
    let mut i: usize = 1;
    proof {
        assert(parts.deep_view().subrange(0, 1) =~= seq![parts.deep_view()[0]]);
    }
    while i < parts.len()
        invariant
            1 <= i <= parts.len(),
            s@ == joined_with(parts.deep_view().subrange(0, i as int), ", "@),
        decreases parts.len() - i,
    {
        s.append(", ");
        s.append(parts[i].as_str());
        proof {
            lemma_joined_push(parts.deep_view().subrange(0, i as int), ", "@,
                parts.deep_view()[i as int]);
            assert(parts.deep_view().subrange(0, i as int).push(parts.deep_view()[i as int])
                =~= parts.deep_view().subrange(0, i + 1));
        }
        i += 1;
    }
    proof {
        assert(parts.deep_view().subrange(0, parts.deep_view().len() as int)
            =~= parts.deep_view());
    }
    s
}

} // verus!
