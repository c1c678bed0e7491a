//! Character-level string operations with their mathematical models.
use vstd::prelude::*;

verus! {

/// `p` is a prefix of `s`.
pub open spec fn has_prefix(s: Seq<char>, p: Seq<char>) -> bool {
    p.len() <= s.len() && s.subrange(0, p.len() as int) == p
}

/// Exact string equality, character by character.
pub fn str_eq(a: &str, b: &str) -> (r: bool)
    ensures
        r == (a@ == b@),
{
    let n = a.unicode_len();
    let m = b.unicode_len();
    if n != m {
        return false;
    }
    let mut i: usize = 0;
    while i < n
        invariant
            n == a@.len(),
            m == b@.len(),
            n == m,
            i <= n,
            forall|j: int| 0 <= j < i ==> a@[j] == b@[j],
        decreases n - i,
    {
        if a.get_char(i) != b.get_char(i) {
            return false;
        }
        i = i + 1;
    }
    assert(a@ =~= b@);
    true
}

/// Whether `s` begins with `p`.
pub fn starts_with(s: &str, p: &str) -> (r: bool)
    ensures
        r == has_prefix(s@, p@),
{
    let n = s.unicode_len();
    let m = p.unicode_len();
    if m > n {
        return false;
    }
    let mut i: usize = 0;
    while i < m
        invariant
            n == s@.len(),
            m == p@.len(),
            m <= n,
            i <= m,
            forall|j: int| 0 <= j < i ==> s@[j] == p@[j],
        decreases m - i,
    {
        if s.get_char(i) != p.get_char(i) {
            assert(s@.subrange(0, m as int)[i as int] != p@[i as int]);
            return false;
        }
        i = i + 1;
    }
    assert(s@.subrange(0, m as int) =~= p@);
    true
}

/// The rest of `s` after the prefix `p`, when `s` begins with `p`.
pub fn strip_prefix<'a>(s: &'a str, p: &str) -> (r: Option<&'a str>)
    ensures
        r is Some <==> has_prefix(s@, p@),
        r matches Some(rest) ==> rest@ == s@.subrange(p@.len() as int, s@.len() as int),
{
    if starts_with(s, p) {
        let n = s.unicode_len();
        let m = p.unicode_len();
        Some(s.substring_char(m, n))
    } else {
        None
    }
}


/// Unicode `White_Space`, the set that `char::is_whitespace` and `str::trim` use.
pub open spec fn is_white_space(c: char) -> bool {
    let u = c as u32;
    ||| 9 <= u <= 13
    ||| u == 32
    ||| u == 0x85
    ||| u == 0xA0
    ||| u == 0x1680
    ||| 0x2000 <= u <= 0x200A
    ||| u == 0x2028
    ||| u == 0x2029
    ||| u == 0x202F
    ||| u == 0x205F
    ||| u == 0x3000
}

/// Whether `c` is Unicode white space.
pub fn is_white_space_char(c: char) -> (r: bool)
    ensures
        r == is_white_space(c),
{
    let u = c as u32;
    (9 <= u && u <= 13) || u == 32 || u == 0x85 || u == 0xA0 || u == 0x1680 || (0x2000 <= u && u
        <= 0x200A) || u == 0x2028 || u == 0x2029 || u == 0x202F || u == 0x205F || u == 0x3000
}

/// Number of leading characters of `s` that satisfy `p`.
pub open spec fn lead_len(s: Seq<char>, p: spec_fn(char) -> bool) -> nat
    decreases s.len(),
{
    if s.len() == 0 {
        0
    } else if p(s[0]) {
        1 + lead_len(s.drop_first(), p)
    } else {
        0
    }
}

/// Number of trailing characters of `s` that satisfy `p`.
pub open spec fn trail_len(s: Seq<char>, p: spec_fn(char) -> bool) -> nat
    decreases s.len(),
{
    if s.len() == 0 {
        0
    } else if p(s.last()) {
        1 + trail_len(s.drop_last(), p)
    } else {
        0
    }
}

/// `s` without its leading characters that satisfy `p`.
pub open spec fn trim_start_by(s: Seq<char>, p: spec_fn(char) -> bool) -> Seq<char> {
    s.subrange(lead_len(s, p) as int, s.len() as int)
}

/// `s` without its trailing characters that satisfy `p`.
pub open spec fn trim_end_by(s: Seq<char>, p: spec_fn(char) -> bool) -> Seq<char> {
    s.subrange(0, s.len() - trail_len(s, p))
}

/// The predicate "is the character `c`".
pub open spec fn is_char(c: char) -> spec_fn(char) -> bool {
    |x: char| x == c
}

pub proof fn lemma_lead_len_bound(s: Seq<char>, p: spec_fn(char) -> bool)
    ensures
        lead_len(s, p) <= s.len(),
        forall|j: int| 0 <= j < lead_len(s, p) ==> p(#[trigger] s[j]),
        lead_len(s, p) < s.len() ==> !p(s[lead_len(s, p) as int]),
    decreases s.len(),
{
    if s.len() > 0 && p(s[0]) {
        lemma_lead_len_bound(s.drop_first(), p);
        assert forall|j: int| 0 <= j < lead_len(s, p) implies p(#[trigger] s[j]) by {
            if j > 0 {
                assert(s[j] == s.drop_first()[j - 1]);
            }
        }
    }
}

pub proof fn lemma_trail_len_bound(s: Seq<char>, p: spec_fn(char) -> bool)
    ensures
        trail_len(s, p) <= s.len(),
        forall|j: int| s.len() - trail_len(s, p) <= j < s.len() ==> p(#[trigger] s[j]),
        trail_len(s, p) < s.len() ==> !p(s[s.len() - trail_len(s, p) - 1]),
    decreases s.len(),
{
    if s.len() > 0 && p(s.last()) {
        lemma_trail_len_bound(s.drop_last(), p);
        assert forall|j: int| s.len() - trail_len(s, p) <= j < s.len() implies p(#[trigger] s[j]) by {
            if j < s.len() - 1 {
                assert(s[j] == s.drop_last()[j]);
            }
        }
    }
}

/// One step of counting the leading run: at a position inside the run,
/// the run of the rest is one shorter or stops here.
proof fn lemma_lead_len_step(s: Seq<char>, i: int, p: spec_fn(char) -> bool)
    requires
        0 <= i < s.len(),
    ensures
        lead_len(s.subrange(i, s.len() as int), p) == if p(s[i]) {
            1 + lead_len(s.subrange(i + 1, s.len() as int), p)
        } else {
            0
        },
{
    let t = s.subrange(i, s.len() as int);
    assert(t.drop_first() =~= s.subrange(i + 1, s.len() as int));
    assert(t[0] == s[i]);
}

proof fn lemma_trail_len_step(s: Seq<char>, i: int, p: spec_fn(char) -> bool)
    requires
        0 < i <= s.len(),
    ensures
        trail_len(s.subrange(0, i), p) == if p(s[i - 1]) {
            1 + trail_len(s.subrange(0, i - 1), p)
        } else {
            0
        },
{
    let t = s.subrange(0, i);
    assert(t.drop_last() =~= s.subrange(0, i - 1));
    assert(t.last() == s[i - 1]);
}

/// `s` without leading and trailing characters that satisfy `p` (as
/// `str::trim_matches`).
pub open spec fn trim_by(s: Seq<char>, p: spec_fn(char) -> bool) -> Seq<char> {
    trim_end_by(trim_start_by(s, p), p)
}

/// A leading character that satisfies `p` is trimmed away.
pub proof fn lemma_trim_start_absorbs_leading(c: char, s: Seq<char>, p: spec_fn(char) -> bool)
    requires
        p(c),
    ensures
        trim_start_by(seq![c] + s, p) == trim_start_by(s, p),
{
    let t = seq![c] + s;
    assert(t.drop_first() =~= s);
    lemma_lead_len_bound(s, p);
    assert(t.subrange(lead_len(t, p) as int, t.len() as int) =~= s.subrange(
        lead_len(s, p) as int,
        s.len() as int,
    ));
}

/// A trailing character that satisfies `p` is trimmed away.
pub proof fn lemma_trim_end_absorbs_trailing(s: Seq<char>, c: char, p: spec_fn(char) -> bool)
    requires
        p(c),
    ensures
        trim_end_by(s + seq![c], p) == trim_end_by(s, p),
{
    let t = s + seq![c];
    assert(t.drop_last() =~= s);
    lemma_trail_len_bound(s, p);
    assert(t.subrange(0, t.len() - trail_len(t, p)) =~= s.subrange(0, s.len() - trail_len(s, p)));
}

/// The leading run of `s + q` is that of `s` when it stops inside `s`.
pub proof fn lemma_lead_len_append(s: Seq<char>, q: Seq<char>, p: spec_fn(char) -> bool)
    requires
        lead_len(s, p) < s.len(),
    ensures
        lead_len(s + q, p) == lead_len(s, p),
    decreases s.len(),
{
    let t = s + q;
    if p(s[0]) {
        assert(t.drop_first() =~= s.drop_first() + q);
        lemma_lead_len_append(s.drop_first(), q, p);
    }
}

/// The leading run of `s + q` covers all of `s` when `s` is one run.
pub proof fn lemma_lead_len_append_all(s: Seq<char>, q: Seq<char>, p: spec_fn(char) -> bool)
    requires
        lead_len(s, p) == s.len(),
    ensures
        lead_len(s + q, p) == s.len() + lead_len(q, p),
    decreases s.len(),
{
    let t = s + q;
    if s.len() == 0 {
        assert(t =~= q);
    } else {
        assert(t.drop_first() =~= s.drop_first() + q);
        lemma_lead_len_append_all(s.drop_first(), q, p);
    }
}

/// Characters that satisfy `p` at either end do not change the trimmed
/// text.
pub proof fn lemma_trim_by_absorbs_ends(c: char, s: Seq<char>, p: spec_fn(char) -> bool)
    requires
        p(c),
    ensures
        trim_by(seq![c] + s, p) == trim_by(s, p),
        trim_by(s + seq![c], p) == trim_by(s, p),
{
    lemma_trim_start_absorbs_leading(c, s, p);
    let t = s + seq![c];
    lemma_lead_len_bound(s, p);
    let k = lead_len(s, p);
    if k < s.len() {
        lemma_lead_len_append(s, seq![c], p);
        assert(trim_start_by(t, p) =~= trim_start_by(s, p) + seq![c]);
        lemma_trim_end_absorbs_trailing(trim_start_by(s, p), c, p);
    } else {
        lemma_lead_len_append_all(s, seq![c], p);
        let one = seq![c];
        assert(one.drop_first() =~= Seq::<char>::empty());
        assert(lead_len(one.drop_first(), p) == 0);
        assert(one[0] == c);
        assert(lead_len(one, p) == 1);
        assert(trim_start_by(t, p) =~= Seq::<char>::empty());
        assert(trim_start_by(s, p) =~= Seq::<char>::empty());
    }
}

/// `s` without leading and trailing copies of `c` (as `str::trim_matches`
/// with a `char`).
pub fn trim_char(s: &str, c: char) -> (r: &str)
    ensures
        r@ == trim_by(s@, is_char(c)),
{
    trim_end_char(trim_start_char(s, c), c)
}

/// The predicate "is Unicode white space".
pub open spec fn white_space() -> spec_fn(char) -> bool {
    |c: char| is_white_space(c)
}

/// `s` without leading white space (as `str::trim_start`).
pub fn trim_start_white_space(s: &str) -> (r: &str)
    ensures
        r@ == trim_start_by(s@, white_space()),
{
    let ghost p = white_space();
    let n = s.unicode_len();
    let mut i: usize = 0;
    proof {
        assert(s@.subrange(0, n as int) =~= s@);
    }
    while i < n && is_white_space_char(s.get_char(i))
        invariant
            n == s@.len(),
            i <= n,
            p == white_space(),
            lead_len(s@, p) == i + lead_len(s@.subrange(i as int, n as int), p),
        decreases n - i,
    {
        proof {
            lemma_lead_len_step(s@, i as int, p);
        }
        i = i + 1;
    }
    proof {
        if i < n {
            lemma_lead_len_step(s@, i as int, p);
        }
        assert(s@.subrange(n as int, n as int).len() == 0);
    }
    s.substring_char(i, n)
}

/// Whether some character of `s` is not white space (`s.trim()` is not
/// empty).
pub fn has_non_white_space(s: &str) -> (r: bool)
    ensures
        r == exists|i: int| 0 <= i < s@.len() && !is_white_space(#[trigger] s@[i]),
{
    let n = s.unicode_len();
    let mut i: usize = 0;
    while i < n && is_white_space_char(s.get_char(i))
        invariant
            n == s@.len(),
            i <= n,
            forall|j: int| 0 <= j < i ==> is_white_space(#[trigger] s@[j]),
        decreases n - i,
    {
        i = i + 1;
    }
    i < n
}

/// `s` without leading copies of `c` (as `str::trim_start_matches` with a `char`).
pub fn trim_start_char(s: &str, c: char) -> (r: &str)
    ensures
        r@ == trim_start_by(s@, is_char(c)),
{
    let ghost p = is_char(c);
    let n = s.unicode_len();
    let mut i: usize = 0;
    proof {
        assert(s@.subrange(0, n as int) =~= s@);
    }
    while i < n && s.get_char(i) == c
        invariant
            n == s@.len(),
            i <= n,
            p == is_char(c),
            lead_len(s@, p) == i + lead_len(s@.subrange(i as int, n as int), p),
        decreases n - i,
    {
        proof {
            lemma_lead_len_step(s@, i as int, p);
        }
        i = i + 1;
    }
    proof {
        if i < n {
            lemma_lead_len_step(s@, i as int, p);
        }
        assert(s@.subrange(n as int, n as int).len() == 0);
    }
    s.substring_char(i, n)
}

/// `s` without trailing copies of `c` (as `str::trim_end_matches` with a `char`).
pub fn trim_end_char(s: &str, c: char) -> (r: &str)
    ensures
        r@ == trim_end_by(s@, is_char(c)),
{
    let ghost p = is_char(c);
    let n = s.unicode_len();
    let mut i: usize = n;
    proof {
        assert(s@.subrange(0, n as int) =~= s@);
    }
    while i > 0 && s.get_char(i - 1) == c
        invariant
            n == s@.len(),
            i <= n,
            p == is_char(c),
            trail_len(s@, p) == (n - i) + trail_len(s@.subrange(0, i as int), p),
        decreases i,
    {
        proof {
            lemma_trail_len_step(s@, i as int, p);
        }
        i = i - 1;
    }
    proof {
        if i > 0 {
            lemma_trail_len_step(s@, i as int, p);
        }
        assert(s@.subrange(0, 0).len() == 0);
    }
    s.substring_char(0, i)
}


/// The digit character for `d < 10`.
pub open spec fn digit_char(d: nat) -> char {
    if d == 0 {
        '0'
    } else if d == 1 {
        '1'
    } else if d == 2 {
        '2'
    } else if d == 3 {
        '3'
    } else if d == 4 {
        '4'
    } else if d == 5 {
        '5'
    } else if d == 6 {
        '6'
    } else if d == 7 {
        '7'
    } else if d == 8 {
        '8'
    } else {
        '9'
    }
}

/// The decimal digits of `n`, most significant first, without leading zeros.
pub open spec fn nat_digits(n: nat) -> Seq<char>
    decreases n,
{
    if n < 10 {
        seq![digit_char(n)]
    } else {
        nat_digits(n / 10).push(digit_char(n % 10))
    }
}

/// The decimal text of `n`, with a leading `-` when negative (as the
/// `Display` of Rust's integers).
pub open spec fn decimal(n: int) -> Seq<char> {
    if n < 0 {
        seq!['-'] + nat_digits((-n) as nat)
    } else {
        nat_digits(n as nat)
    }
}

fn digit_str(d: u64) -> (r: &'static str)
    requires
        d < 10,
    ensures
        r@ == seq![digit_char(d as nat)],
{
    proof {
        reveal_strlit("0");
        reveal_strlit("1");
        reveal_strlit("2");
        reveal_strlit("3");
        reveal_strlit("4");
        reveal_strlit("5");
        reveal_strlit("6");
        reveal_strlit("7");
        reveal_strlit("8");
        reveal_strlit("9");
    }
    if d == 0 {
        "0"
    } else if d == 1 {
        "1"
    } else if d == 2 {
        "2"
    } else if d == 3 {
        "3"
    } else if d == 4 {
        "4"
    } else if d == 5 {
        "5"
    } else if d == 6 {
        "6"
    } else if d == 7 {
        "7"
    } else if d == 8 {
        "8"
    } else {
        "9"
    }
}

fn push_digits(out: &mut String, n: u64)
    ensures
        final(out)@ == old(out)@ + nat_digits(n as nat),
    decreases n,
{
    if n >= 10 {
        push_digits(out, n / 10);
    }
    out.append(digit_str(n % 10));
}

/// The decimal text of `n`.
pub fn decimal_string(n: i64) -> (r: String)
    ensures
        r@ == decimal(n as int),
{
    let mut out = String::new();
    if n < 0 {
        proof {
            reveal_strlit("-");
        }
        out.append("-");
        let m: u64 = if n == i64::MIN {
            9223372036854775808u64
        } else {
            (0 - n) as u64
        };
        push_digits(&mut out, m);
    } else {
        push_digits(&mut out, n as u64);
    }
    out
}

/// `a` followed by `b`.
pub fn concat2(a: &str, b: &str) -> (r: String)
    ensures
        r@ == a@ + b@,
{
    let mut r = a.to_owned();
    r.append(b);
    r
}

/// The ASCII lower case of `c`: `A`..=`Z` become `a`..=`z`, every other
/// character stays.
pub open spec fn ascii_lower(c: char) -> char {
    if 'A' <= c <= 'Z' {
        ((c as u32) + 32) as char
    } else {
        c
    }
}

/// Every character of `s` in ASCII lower case.
pub open spec fn lower_all(s: Seq<char>) -> Seq<char> {
    s.map_values(|c: char| ascii_lower(c))
}

/// `str::to_ascii_lowercase`: a copy of `s` with each character mapped to
/// its ASCII lower case; its documentation states that `A`..=`Z` become
/// `a`..=`z` and that every other character is unchanged.
#[verifier::external_body]
pub(crate) fn to_ascii_lowercase(s: &str) -> (r: String)
    ensures
        r@ == lower_all(s@),
{
    s.to_ascii_lowercase()
}

} // verus!
