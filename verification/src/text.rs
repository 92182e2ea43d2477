//! Character-level string helpers with exact specifications.

use vstd::prelude::*;

verus! {

/// The characters of a string slice, in order: `str::chars`, collected
/// into a vector. Claimed: they are the characters of the slice's view.
#[verifier::external_body]
pub(crate) fn str_chars(s: &str) -> (r: Vec<char>)
    ensures
        r@ == s@,
{
    s.chars().collect()
}

/// A string made of the given characters, in order: the characters
/// collected into a `String` (`FromIterator<&char>`). Claimed: its view is
/// the characters.
#[verifier::external_body]
pub(crate) fn string_from_chars(cs: &[char]) -> (r: String)
    ensures
        r@ == cs@,
{
    cs.iter().collect()
}

/// An owned copy of a string slice.
pub fn owned(s: &str) -> (r: String)
    ensures
        r@ == s@,
{
    s.to_owned()
}

/// Appends the characters of `b` to `out`.
pub fn push_all(out: &mut Vec<char>, b: &Vec<char>)
    ensures
        final(out)@ == old(out)@ + b@,
{
    let mut i: usize = 0;
    while i < b.len()
        invariant
            i <= b.len(),
            out@ == old(out)@ + b@.subrange(0, i as int),
        decreases b.len() - i,
    {
        out.push(b[i]);
        i = i + 1;
        assert(b@.subrange(0, i as int) =~= b@.subrange(0, (i - 1) as int).push(b@[i - 1]));
    }
    assert(b@.subrange(0, b@.len() as int) =~= b@);
}

/// Concatenation of two strings.
pub fn concat(a: &str, b: &str) -> (r: String)
    ensures
        r@ == a@ + b@,
{
    let mut out = str_chars(a);
    let cb = str_chars(b);
    push_all(&mut out, &cb);
    string_from_chars(out.as_slice())
}

/// Concatenation of three strings.
pub fn concat3(a: &str, b: &str, c: &str) -> (r: String)
    ensures
        r@ == a@ + b@ + c@,
{
    let ab = concat(a, b);
    concat(ab.as_str(), c)
}

/// Concatenation of five strings.
pub fn concat5(a: &str, b: &str, c: &str, d: &str, e: &str) -> (r: String)
    ensures
        r@ == a@ + b@ + c@ + d@ + e@,
{
    let abc = concat3(a, b, c);
    let de = concat(d, e);
    let r = concat(abc.as_str(), de.as_str());
    assert(r@ =~= a@ + b@ + c@ + d@ + e@);
    r
}

/// Equality of two strings, character by character.
pub fn str_eq(a: &str, b: &str) -> (r: bool)
    ensures
        r == (a@ == b@),
{
    let ca = str_chars(a);
    let cb = str_chars(b);
    if ca.len() != cb.len() {
        return false;
    }
    let mut i: usize = 0;
    while i < ca.len()
        invariant
            ca@ == a@,
            cb@ == b@,
            ca.len() == cb.len(),
            i <= ca.len(),
            forall|j: int| 0 <= j < i ==> ca@[j] == cb@[j],
        decreases ca.len() - i,
    {
        if ca[i] != cb[i] {
            return false;
        }
        i = i + 1;
    }
    assert(a@ =~= b@);
    true
}

/// Whether `s` begins with `prefix`.
pub fn starts_with(s: &str, prefix: &str) -> (r: bool)
    ensures
        r == (prefix@.len() <= s@.len() && s@.subrange(0, prefix@.len() as int) == prefix@),
{
    let cs = str_chars(s);
    let cp = str_chars(prefix);
    if cp.len() > cs.len() {
        return false;
    }
    let mut i: usize = 0;
    while i < cp.len()
        invariant
            cs@ == s@,
            cp@ == prefix@,
            cp.len() <= cs.len(),
            i <= cp.len(),
            forall|j: int| 0 <= j < i ==> cs@[j] == cp@[j],
        decreases cp.len() - i,
    {
        if cs[i] != cp[i] {
            assert(s@.subrange(0, prefix@.len() as int)[i as int] != prefix@[i as int]);
            return false;
        }
        i = i + 1;
    }
    assert(s@.subrange(0, prefix@.len() as int) =~= prefix@);
    true
}

/// Whether `s` ends with `suffix`.
pub fn ends_with(s: &str, suffix: &str) -> (r: bool)
    ensures
        r == (suffix@.len() <= s@.len() && s@.subrange(s@.len() - suffix@.len(), s@.len() as int)
            == suffix@),
{
    let cs = str_chars(s);
    let cp = str_chars(suffix);
    if cp.len() > cs.len() {
        return false;
    }
    let off = cs.len() - cp.len();
    let mut i: usize = 0;
    while i < cp.len()
        invariant
            cs@ == s@,
            cp@ == suffix@,
            off + cp.len() == cs.len(),
            i <= cp.len(),
            forall|j: int| 0 <= j < i ==> cs@[off + j] == cp@[j],
        decreases cp.len() - i,
    {
        if cs[off + i] != cp[i] {
            assert(s@.subrange(off as int, s@.len() as int)[i as int] != suffix@[i as int]);
            return false;
        }
        i = i + 1;
    }
    assert(s@.subrange(off as int, s@.len() as int) =~= suffix@);
    true
}

/// Whether `s` holds the character `c`.
pub fn contains_char(s: &str, c: char) -> (r: bool)
    ensures
        r == s@.contains(c),
{
    let cs = str_chars(s);
    let mut i: usize = 0;
    while i < cs.len()
        invariant
            cs@ == s@,
            i <= cs.len(),
            forall|j: int| 0 <= j < i ==> cs@[j] != c,
        decreases cs.len() - i,
    {
        if cs[i] == c {
            assert(s@[i as int] == c);
            return true;
        }
        i = i + 1;
    }
    false
}

/// The pieces of `s` before and after the first occurrence of `c`.
pub open spec fn split_once_spec(s: Seq<char>, c: char) -> Option<(Seq<char>, Seq<char>)> {
    if s.contains(c) {
        let i = choose|i: int| 0 <= i < s.len() && s[i] == c && forall|j: int| 0 <= j < i ==> s[j] != c;
        Some((s.subrange(0, i), s.subrange(i + 1, s.len() as int)))
    } else {
        None
    }
}

/// Any split of `s` at a first occurrence of `c` is the one `split_once_spec` gives.
pub proof fn lemma_split_once_unique(s: Seq<char>, c: char, a: Seq<char>, b: Seq<char>)
    requires
        s == a + seq![c] + b,
        !a.contains(c),
    ensures
        split_once_spec(s, c) == Some((a, b)),
{
    assert(s[a.len() as int] == c);
    assert(s.contains(c));
    let i = choose|i: int| 0 <= i < s.len() && s[i] == c && forall|j: int| 0 <= j < i ==> s[j] != c;
    assert(forall|j: int| 0 <= j < a.len() ==> s[j] == a[j]);
    if i < a.len() {
        assert(a[i] == c);
        assert(a.contains(c));
    }
    if i > a.len() {
        assert(s[a.len() as int] != c);
    }
    assert(i == a.len());
    assert(s.subrange(0, i) =~= a);
    assert(s.subrange(i + 1, s.len() as int) =~= b);
}

/// Splits `s` at the first occurrence of `c`, as `str::split_once` does.
pub fn split_once(s: &str, c: char) -> (r: Option<(String, String)>)
    ensures
        r matches Some((a, b)) ==> Some((a@, b@)) == split_once_spec(s@, c) && s@ == a@ + seq![c]
            + b@ && !a@.contains(c),
        r is None ==> split_once_spec(s@, c) is None && !s@.contains(c),
{
    let cs = str_chars(s);
    let mut i: usize = 0;
    while i < cs.len()
        invariant
            cs@ == s@,
            i <= cs.len(),
            forall|j: int| 0 <= j < i ==> cs@[j] != c,
        decreases cs.len() - i,
    {
        if cs[i] == c {
            let mut a: Vec<char> = Vec::new();
            let mut k: usize = 0;
            while k < i
                invariant
                    cs@ == s@,
                    k <= i < cs.len(),
                    a@ == s@.subrange(0, k as int),
                decreases i - k,
            {
                a.push(cs[k]);
                k = k + 1;
                assert(a@ =~= s@.subrange(0, k as int));
            }
            let mut b: Vec<char> = Vec::new();
            let mut k: usize = i + 1;
            while k < cs.len()
                invariant
                    cs@ == s@,
                    i < cs.len(),
                    i + 1 <= k <= cs.len(),
                    b@ == s@.subrange(i + 1, k as int),
                decreases cs.len() - k,
            {
                b.push(cs[k]);
                k = k + 1;
                assert(b@ =~= s@.subrange(i + 1, k as int));
            }
            let sa = string_from_chars(a.as_slice());
            let sb = string_from_chars(b.as_slice());
            proof {
                assert(s@ =~= sa@ + seq![c] + sb@);
                assert forall|j: int| 0 <= j < sa@.len() implies sa@[j] != c by {
                    assert(sa@[j] == s@[j]);
                }
                lemma_split_once_unique(s@, c, sa@, sb@);
            }
            return Some((sa, sb));
        }
        i = i + 1;
    }
    None
}

/// Joins pieces with the separator `c`.
pub open spec fn join_with(pieces: Seq<Seq<char>>, c: char) -> Seq<char>
    decreases pieces.len(),
{
    if pieces.len() == 0 {
        seq![]
    } else if pieces.len() == 1 {
        pieces[0]
    } else {
        join_with(pieces.drop_last(), c) + seq![c] + pieces.last()
    }
}

/// The pieces of `s` between occurrences of `c`, as `str::split` gives them:
/// none holds `c`, there is at least one, and joined with `c` they give `s`.
pub open spec fn is_split_of(pieces: Seq<Seq<char>>, s: Seq<char>, c: char) -> bool {
    &&& pieces.len() >= 1
    &&& forall|i: int| 0 <= i < pieces.len() ==> !(#[trigger] pieces[i]).contains(c)
    &&& join_with(pieces, c) == s
}

/// The views of a vector of strings.
pub open spec fn views(v: Seq<String>) -> Seq<Seq<char>> {
    v.map_values(|x: String| x@)
}

/// Splits `s` at every occurrence of `c`, as `str::split` with a character does.
pub fn split_on(s: &str, c: char) -> (r: Vec<String>)
    ensures
        is_split_of(views(r@), s@, c),
{
    let cs = str_chars(s);
    let mut out: Vec<String> = Vec::new();
    let mut cur: Vec<char> = Vec::new();
    let mut start: usize = 0;
    let mut i: usize = 0;
    while i < cs.len()
        invariant
            cs@ == s@,
            start <= i <= cs.len(),
            cur@ == s@.subrange(start as int, i as int),
            !cur@.contains(c),
            forall|j: int| 0 <= j < out@.len() ==> !(#[trigger] views(out@)[j]).contains(c),
            out@.len() == 0 ==> start == 0,
            out@.len() > 0 ==> join_with(views(out@), c) + seq![c] == s@.subrange(0, start as int),
        decreases cs.len() - i,
    {
        if cs[i] == c {
            let piece = string_from_chars(cur.as_slice());
            let ghost old_out = views(out@);
            out.push(piece);
            proof {
                assert(views(out@) =~= old_out.push(piece@));
                assert(views(out@).drop_last() =~= old_out);
                if old_out.len() == 0 {
                    assert(join_with(views(out@), c) == piece@);
                } else {
                    assert(join_with(views(out@), c) == join_with(old_out, c) + seq![c] + piece@);
                }
                assert(join_with(views(out@), c) + seq![c] =~= s@.subrange(0, i as int + 1));
                assert forall|j: int| 0 <= j < out@.len() implies !(#[trigger] views(out@)[j]).contains(c) by {
                    if j < old_out.len() {
                        assert(views(out@)[j] == old_out[j]);
                    }
                }
            }
            cur = Vec::new();
            start = i + 1;
            assert(cur@ =~= s@.subrange(start as int, start as int));
        } else {
            let ghost old_cur = cur@;
            cur.push(cs[i]);
            proof {
                assert(cur@ =~= s@.subrange(start as int, i as int + 1));
                assert forall|j: int| 0 <= j < cur@.len() implies cur@[j] != c by {
                    if j < cur@.len() - 1 {
                        assert(cur@[j] == old_cur[j]);
                    }
                }
            }
        }
        i = i + 1;
    }
    let piece = string_from_chars(cur.as_slice());
    let ghost old_out = views(out@);
    out.push(piece);
    proof {
        assert(views(out@) =~= old_out.push(piece@));
        assert(views(out@).drop_last() =~= old_out);
        if old_out.len() == 0 {
            assert(s@.subrange(start as int, i as int) =~= s@);
        } else {
            assert(join_with(views(out@), c) == join_with(old_out, c) + seq![c] + piece@);
            assert(join_with(views(out@), c) =~= s@);
        }
        assert forall|j: int| 0 <= j < views(out@).len() implies !(#[trigger] views(out@)[j]).contains(c) by {
            if j < old_out.len() {
                assert(views(out@)[j] == old_out[j]);
            }
        }
    }
    out
}

/// Whether a character is an ASCII decimal digit.
pub open spec fn is_digit(c: char) -> bool {
    '0' <= c && c <= '9'
}

/// The value of an ASCII decimal digit.
pub open spec fn digit_value(c: char) -> int {
    c as int - '0' as int
}

/// The value of a string of decimal digits.
pub open spec fn digits_value(s: Seq<char>) -> int
    decreases s.len(),
{
    if s.len() == 0 {
        0
    } else {
        digits_value(s.drop_last()) * 10 + digit_value(s.last())
    }
}

/// Whether every character of `s` is a decimal digit.
pub open spec fn all_digits(s: Seq<char>) -> bool {
    forall|i: int| 0 <= i < s.len() ==> is_digit(#[trigger] s[i])
}

/// The digits part of a decimal integer: what follows an optional sign.
pub open spec fn signed_body(s: Seq<char>) -> Seq<char> {
    if s.len() > 0 && (s[0] == '-' || s[0] == '+') {
        s.drop_first()
    } else {
        s
    }
}

/// The value `str::parse::<i32>` gives: an optional sign, then at least one
/// digit and nothing else, within the range of `i32`.
pub open spec fn parse_i32_spec(s: Seq<char>) -> Option<int> {
    let body = signed_body(s);
    if body.len() == 0 || !all_digits(body) {
        None
    } else {
        let v = if s[0] == '-' { -digits_value(body) } else { digits_value(body) };
        if i32::MIN <= v && v <= i32::MAX {
            Some(v)
        } else {
            None
        }
    }
}

proof fn lemma_digits_value_nonneg(s: Seq<char>)
    requires
        all_digits(s),
    ensures
        digits_value(s) >= 0,
    decreases s.len(),
{
    if s.len() > 0 {
        assert(all_digits(s.drop_last()));
        lemma_digits_value_nonneg(s.drop_last());
        assert(is_digit(s[s.len() - 1]));
    }
}

proof fn lemma_digits_value_mono(s: Seq<char>, k: int)
    requires
        all_digits(s),
        0 <= k <= s.len(),
    ensures
        digits_value(s.subrange(0, k)) <= digits_value(s),
    decreases s.len(),
{
    if k < s.len() {
        assert(all_digits(s.drop_last()));
        lemma_digits_value_mono(s.drop_last(), k);
        assert(s.drop_last().subrange(0, k) =~= s.subrange(0, k));
        lemma_digits_value_nonneg(s.drop_last());
        assert(is_digit(s[s.len() - 1]));
    } else {
        assert(s.subrange(0, k) =~= s);
    }
}

/// Parses a decimal `i32` as `str::parse::<i32>` does.
pub fn parse_i32(s: &str) -> (r: Option<i32>)
    ensures
        match r {
            Some(v) => parse_i32_spec(s@) == Some(v as int),
            None => parse_i32_spec(s@) is None,
        },
{
    let cs = str_chars(s);
    let ghost sv = s@;
    if cs.len() == 0 {
        return None;
    }
    let neg = cs[0] == '-';
    let signed = cs[0] == '-' || cs[0] == '+';
    let start: usize = if signed { 1 } else { 0 };
    let ghost body = signed_body(sv);
    if start >= cs.len() {
        assert(body.len() == 0);
        return None;
    }
    let mut acc: i64 = 0;
    let mut i: usize = start;
    while i < cs.len()
        invariant
            cs@ == sv,
            sv == s@,
            sv.len() > 0,
            start == (if signed { 1usize } else { 0usize }),
            signed == (sv[0] == '-' || sv[0] == '+'),
            body == signed_body(sv),
            start <= i <= cs.len(),
            all_digits(body.subrange(0, i - start)),
            acc == digits_value(body.subrange(0, i - start)),
            0 <= acc <= 2147483648,
        decreases cs.len() - i,
    {
        let ch = cs[i];
        assert(body[i - start] == ch);
        if !('0' <= ch && ch <= '9') {
            assert(body.len() > 0);
            assert(!is_digit(body[i - start]));
            assert(!all_digits(body));
            return None;
        }
        let d = (ch as u32 - '0' as u32) as i64;
        proof {
            let pre = body.subrange(0, i - start);
            let post = body.subrange(0, i - start + 1);
            assert(post.drop_last() =~= pre);
            assert(post.last() == ch);
            assert(all_digits(post));
            assert(digits_value(post) == digits_value(pre) * 10 + digit_value(ch));
        }
        acc = acc * 10 + d;
        i = i + 1;
        if acc > 2147483648 {
            proof {
                if all_digits(body) {
                    lemma_digits_value_mono(body, i - start);
                    assert(digits_value(body) > 2147483648);
                }
                assert(body.len() > 0);
            }
            return None;
        }
    }
    assert(body.subrange(0, i - start) =~= body);
    if neg {
        Some((-acc) as i32)
    } else if acc > 2147483647 {
        None
    } else {
        Some(acc as i32)
    }
}

/// Parses `true` or `false` as `str::parse::<bool>` does.
pub fn parse_bool(s: &str) -> (r: Option<bool>)
    ensures
        r == (if s@ == seq!['t', 'r', 'u', 'e'] {
            Some(true)
        } else if s@ == seq!['f', 'a', 'l', 's', 'e'] {
            Some(false)
        } else {
            None
        }),
{
    let t = "true";
    let f = "false";
    proof {
        reveal_strlit("true");
        reveal_strlit("false");
        assert(t@ =~= seq!['t', 'r', 'u', 'e']);
        assert(f@ =~= seq!['f', 'a', 'l', 's', 'e']);
    }
    if str_eq(s, t) {
        Some(true)
    } else if str_eq(s, f) {
        Some(false)
    } else {
        None
    }
}

/// ASCII lower case of a character; other characters are unchanged.
pub open spec fn ascii_lower(c: char) -> char {
    if 'A' <= c && c <= 'Z' {
        ((c as u32) + 32) as char
    } else {
        c
    }
}

/// ASCII lower case of a string.
pub open spec fn ascii_lower_seq(s: Seq<char>) -> Seq<char> {
    s.map_values(|c: char| ascii_lower(c))
}

/// Lower-cases the ASCII letters of `s`.
pub fn to_ascii_lower(s: &str) -> (r: String)
    ensures
        r@ == ascii_lower_seq(s@),
{
    let cs = str_chars(s);
    let mut out: Vec<char> = Vec::new();
    let mut i: usize = 0;
    while i < cs.len()
        invariant
            cs@ == s@,
            i <= cs.len(),
            out@ == ascii_lower_seq(s@.subrange(0, i as int)),
        decreases cs.len() - i,
    {
        let ch = cs[i];
        let lc = if 'A' <= ch && ch <= 'Z' {
            char_plus_32(ch)
        } else {
            ch
        };
        out.push(lc);
        i = i + 1;
        assert(out@ =~= ascii_lower_seq(s@.subrange(0, i as int)));
    }
    assert(s@.subrange(0, s@.len() as int) =~= s@);
    string_from_chars(out.as_slice())
}

/// The lower-case letter of an upper-case ASCII letter: the character 32
/// code points further on.
fn char_plus_32(c: char) -> (r: char)
    requires
        'A' <= c && c <= 'Z',
    ensures
        r == ((c as u32) + 32) as char,
{
    let b = (c as u8) + 32;
    b as char
}

/// The characters of `s` from position `n` on.
pub fn substring_from(s: &str, n: usize) -> (r: String)
    requires
        n <= s@.len(),
    ensures
        r@ == s@.subrange(n as int, s@.len() as int),
{
    let cs = str_chars(s);
    let mut out: Vec<char> = Vec::new();
    let mut k: usize = n;
    while k < cs.len()
        invariant
            cs@ == s@,
            n <= k <= cs.len(),
            out@ == s@.subrange(n as int, k as int),
        decreases cs.len() - k,
    {
        out.push(cs[k]);
        k = k + 1;
        assert(out@ =~= s@.subrange(n as int, k as int));
    }
    string_from_chars(out.as_slice())
}

/// The character of a decimal digit.
pub open spec fn digit_char(d: nat) -> char {
    ((48 + d) as u8) as char
}

/// The decimal digits of a natural number, without leading zeros.
pub open spec fn nat_digits(n: nat) -> Seq<char>
    decreases n,
{
    if n < 10 {
        seq![digit_char(n)]
    } else {
        nat_digits(n / 10).push(digit_char(n % 10))
    }
}

/// The decimal text of an integer, with a leading `-` when it is negative.
pub open spec fn decimal_text(v: int) -> Seq<char> {
    if v < 0 {
        seq!['-'] + nat_digits((-v) as nat)
    } else {
        nat_digits(v as nat)
    }
}

fn digits_of(n: u64) -> (r: Vec<char>)
    ensures
        r@ == nat_digits(n as nat),
    decreases n,
{
    if n < 10 {
        let c = (48u8 + (n as u8)) as char;
        let mut v: Vec<char> = Vec::new();
        v.push(c);
        v
    } else {
        let mut v = digits_of(n / 10);
        let c = (48u8 + ((n % 10) as u8)) as char;
        v.push(c);
        v
    }
}

/// The pieces joined with the separator `c`, as `join` does it.
pub fn join_on(pieces: &Vec<String>, c: char) -> (r: String)
    ensures
        r@ == join_with(views(pieces@), c),
{
    let mut out: Vec<char> = Vec::new();
    let mut i: usize = 0;
    while i < pieces.len()
        invariant
            i <= pieces@.len(),
            out@ == join_with(views(pieces@).subrange(0, i as int), c),
        decreases pieces@.len() - i,
    {
        let part = str_chars(pieces[i].as_str());
        if i > 0 {
            out.push(c);
        }
        let ghost before = out@;
        push_all(&mut out, &part);
        proof {
            let v = views(pieces@).subrange(0, i + 1);
            assert(v.drop_last() =~= views(pieces@).subrange(0, i as int));
            assert(v.last() == pieces@[i as int]@);
            if i == 0 {
                assert(v.len() == 1);
                assert(out@ =~= v[0]);
            }
        }
        i = i + 1;
    }
    assert(views(pieces@).subrange(0, i as int) =~= views(pieces@));
    string_from_chars(out.as_slice())
}

/// The decimal text of an `i32`, as its `Display` writes it.
pub fn i32_to_decimal(v: i32) -> (r: String)
    ensures
        r@ == decimal_text(v as int),
{
    if v < 0 {
        let m: i64 = -(v as i64);
        let d = digits_of(m as u64);
        let mut out: Vec<char> = Vec::new();
        out.push('-');
        push_all(&mut out, &d);
        assert(out@ =~= seq!['-'] + nat_digits((-(v as int)) as nat));
        string_from_chars(out.as_slice())
    } else {
        let d = digits_of(v as u64);
        string_from_chars(d.as_slice())
    }
}

proof fn lemma_digit_char(d: nat)
    requires
        d < 10,
    ensures
        is_digit(digit_char(d)),
        digit_value(digit_char(d)) == d,
{
    let b = (48 + d) as u8;
    assert(b as char as int == b as int);
}

/// The digits of a natural number are digits, read back to the number.
pub proof fn lemma_nat_digits(n: nat)
    ensures
        nat_digits(n).len() >= 1,
        all_digits(nat_digits(n)),
        digits_value(nat_digits(n)) == n,
        is_digit(nat_digits(n)[0]),
    decreases n,
{
    if n < 10 {
        lemma_digit_char(n);
        assert(digits_value(nat_digits(n)) == digits_value(seq![digit_char(n)]));
        assert(seq![digit_char(n)].drop_last() =~= Seq::<char>::empty());
        assert(digits_value(Seq::<char>::empty()) == 0);
        assert(seq![digit_char(n)].last() == digit_char(n));
    } else {
        lemma_nat_digits(n / 10);
        lemma_digit_char(n % 10);
        assert(n == (n / 10) * 10 + n % 10);
        let s = nat_digits(n);
        assert(s.drop_last() =~= nat_digits(n / 10));
        assert(s.last() == digit_char(n % 10));
        assert(digits_value(s) == digits_value(s.drop_last()) * 10 + digit_value(s.last()));
        assert forall|i: int| 0 <= i < s.len() implies is_digit(#[trigger] s[i]) by {
            if i < s.len() - 1 {
                assert(s[i] == nat_digits(n / 10)[i]);
            }
        }
        assert(s[0] == nat_digits(n / 10)[0]);
    }
}

/// Reading back the decimal text of an `i32` gives the same number.
pub proof fn law_decimal_round_trip(v: i32)
    ensures
        parse_i32_spec(decimal_text(v as int)) == Some(v as int),
{
    let t = decimal_text(v as int);
    if v < 0 {
        let n = (-(v as int)) as nat;
        lemma_nat_digits(n);
        assert(t[0] == '-');
        assert(signed_body(t) =~= nat_digits(n));
    } else {
        lemma_nat_digits(v as nat);
        assert(t[0] != '-' && t[0] != '+');
        assert(signed_body(t) == t);
    }
}

} // verus!
