//! Searching and cutting text, over sequences of characters.
//!
//! Positions count characters, not bytes.
use vstd::prelude::*;

verus! {

/// Whether `part` stands in `s` at position `at`.
pub open spec fn occurs_at(s: Seq<char>, part: Seq<char>, at: int) -> bool {
    0 <= at && at + part.len() <= s.len() && s.subrange(at, at + part.len()) == part
}

/// Whether `s` begins with `part`.
pub open spec fn starts_with(s: Seq<char>, part: Seq<char>) -> bool {
    occurs_at(s, part, 0)
}

/// Whether `s` ends with `part`.
pub open spec fn ends_with(s: Seq<char>, part: Seq<char>) -> bool {
    occurs_at(s, part, s.len() - part.len())
}

/// The first position at or after `from` at which `part` stands in `s`.
pub open spec fn find_from(s: Seq<char>, part: Seq<char>, from: int) -> Option<int>
    decreases s.len() - from + 1,
{
    if from < 0 || from + part.len() > s.len() {
        None
    } else if occurs_at(s, part, from) {
        Some(from)
    } else {
        find_from(s, part, from + 1)
    }
}

/// The first position at which `part` stands in `s`.
pub open spec fn find(s: Seq<char>, part: Seq<char>) -> Option<int> {
    find_from(s, part, 0)
}

/// Whether `c` is white space: one of the characters that Unicode marks as
/// `White_Space`.
pub open spec fn is_space(c: char) -> bool {
    let n = c as u32;
    (0x09 <= n <= 0x0D) || n == 0x20 || n == 0x85 || n == 0xA0 || n == 0x1680 || (0x2000 <= n
        <= 0x200A) || n == 0x2028 || n == 0x2029 || n == 0x202F || n == 0x205F || n == 0x3000
}

/// How many characters of white space `s` begins with.
pub open spec fn leading_spaces(s: Seq<char>) -> nat
    decreases s.len(),
{
    if s.len() > 0 && is_space(s[0]) {
        1 + leading_spaces(s.drop_first())
    } else {
        0
    }
}

/// How many characters of white space `s` ends with.
pub open spec fn trailing_spaces(s: Seq<char>) -> nat
    decreases s.len(),
{
    if s.len() > 0 && is_space(s.last()) {
        1 + trailing_spaces(s.drop_last())
    } else {
        0
    }
}

/// `s` without the white space that it begins and ends with.
pub open spec fn trim(s: Seq<char>) -> Seq<char> {
    let tail = s.skip(leading_spaces(s) as int);
    tail.take(tail.len() - trailing_spaces(tail))
}

/// The decimal digit `d`, for `d` below ten.
pub open spec fn digit_char(d: nat) -> char {
    if d == 0 {
        '0'
    } else if d == 1 {
        '1'
    } else if d == 2 {
        '2'
    } else if d == 3 {
        '3'
    } else if d == 4 {
        '4'
    } else if d == 5 {
        '5'
    } else if d == 6 {
        '6'
    } else if d == 7 {
        '7'
    } else if d == 8 {
        '8'
    } else {
        '9'
    }
}

/// `n` in decimal, without leading zeros.
pub open spec fn decimal(n: nat) -> Seq<char>
    decreases n,
{
    if n < 10 {
        seq![digit_char(n)]
    } else {
        decimal(n / 10).push(digit_char(n % 10))
    }
}

/// A position found by `find_from` is the first at which `part` stands, and
/// where nothing is found `part` stands nowhere from `from` on.
pub proof fn lemma_find_from_is_first(s: Seq<char>, part: Seq<char>, from: int)
    requires
        0 <= from,
    ensures
        match find_from(s, part, from) {
            Some(at) => from <= at && occurs_at(s, part, at) && forall|j: int|
                from <= j < at ==> !occurs_at(s, part, j),
            None => forall|j: int| from <= j ==> !occurs_at(s, part, j),
        },
    decreases s.len() - from + 1,
{
    if from + part.len() <= s.len() && !occurs_at(s, part, from) {
        lemma_find_from_is_first(s, part, from + 1);
    }
}

/// Where all of the first `k` characters are white space and the next one,
/// if there is one, is not, `s` begins with exactly `k` of them.
pub proof fn lemma_leading_spaces(s: Seq<char>, k: int)
    requires
        0 <= k <= s.len(),
        forall|i: int| 0 <= i < k ==> is_space(#[trigger] s[i]),
        k < s.len() ==> !is_space(s[k]),
    ensures
        leading_spaces(s) == k,
    decreases k,
{
    if k > 0 {
        let rest = s.drop_first();
        assert forall|i: int| 0 <= i < k - 1 implies is_space(#[trigger] rest[i]) by {
            assert(rest[i] == s[i + 1]);
        }
        if k < s.len() {
            assert(rest[k - 1] == s[k]);
        }
        lemma_leading_spaces(rest, k - 1);
    }
}

/// Where all of the last `k` characters are white space and the one before
/// them, if there is one, is not, `s` ends with exactly `k` of them.
pub proof fn lemma_trailing_spaces(s: Seq<char>, k: int)
    requires
        0 <= k <= s.len(),
        forall|i: int| s.len() - k <= i < s.len() ==> is_space(#[trigger] s[i]),
        k < s.len() ==> !is_space(s[s.len() - k - 1]),
    ensures
        trailing_spaces(s) == k,
    decreases k,
{
    if k > 0 {
        let rest = s.drop_last();
        assert forall|i: int| rest.len() - (k - 1) <= i < rest.len() implies is_space(
            #[trigger] rest[i],
        ) by {
            assert(rest[i] == s[i]);
        }
        if k < s.len() {
            assert(rest[rest.len() - (k - 1) - 1] == s[s.len() - k - 1]);
        }
        lemma_trailing_spaces(rest, k - 1);
    }
}

/// The characters of `s`, in order.
pub fn chars_of(s: &str) -> (v: Vec<char>)
    ensures
        v@ == s@,
{
    let mut v: Vec<char> = Vec::new();
    for c in it: s.chars()
        invariant
            v@ == it.seq().take(it.index() as int),
            it.seq() == s@,
    {
        v.push(c);
    }
    v
}

/// Whether `part` stands in `s` at position `at`.
pub fn matches_at(s: &Vec<char>, part: &Vec<char>, at: usize) -> (r: bool)
    ensures
        r == occurs_at(s@, part@, at as int),
{
    if part.len() > s.len() || at > s.len() - part.len() {
        return false;
    }
    let mut k: usize = 0;
    while k < part.len()
        invariant
            k <= part.len(),
            at + part.len() <= s.len(),
            forall|j: int| 0 <= j < k ==> s@[at + j] == part@[j],
        decreases part.len() - k,
    {
        if s[at + k] != part[k] {
            proof {
                let cut = s@.subrange(at as int, at + part.len());
                assert(cut[k as int] == s@[at + k]);
            }
            return false;
        }
        k = k + 1;
    }
    proof {
        assert(s@.subrange(at as int, at + part.len()) =~= part@);
    }
    true
}

/// Whether `s` begins with `part`.
pub fn has_prefix(s: &Vec<char>, part: &str) -> (r: bool)
    ensures
        r == starts_with(s@, part@),
{
    let part = chars_of(part);
    matches_at(s, &part, 0)
}

/// Whether `s` ends with `part`.
pub fn has_suffix(s: &Vec<char>, part: &str) -> (r: bool)
    ensures
        r == ends_with(s@, part@),
{
    let part = chars_of(part);
    if part.len() > s.len() {
        return false;
    }
    matches_at(s, &part, s.len() - part.len())
}

/// Whether `s` and `other` are the same text.
pub fn same_text(s: &Vec<char>, other: &str) -> (r: bool)
    ensures
        r == (s@ == other@),
{
    let other = chars_of(other);
    if s.len() != other.len() {
        return false;
    }
    let r = matches_at(s, &other, 0);
    proof {
        assert(s@.subrange(0, s@.len() as int) =~= s@);
    }
    r
}

/// The first position at or after `from` at which `part` stands in `s`:
/// `part` stands there and nowhere between `from` and there, and `None` says
/// that it stands nowhere from `from` on.
pub fn find_in(s: &Vec<char>, part: &str, from: usize) -> (r: Option<usize>)
    ensures
        r is Some <==> find_from(s@, part@, from as int) is Some,
        r matches Some(at) ==> find_from(s@, part@, from as int) == Some(at as int) && from <= at
            && at + part@.len() <= s@.len(),
        r matches Some(at) ==> occurs_at(s@, part@, at as int) && forall|j: int|
            from <= j < at ==> !occurs_at(s@, part@, j),
        r is None ==> forall|j: int| from <= j ==> !occurs_at(s@, part@, j),
{
    proof {
        lemma_find_from_is_first(s@, part@, from as int);
    }
    let wanted = chars_of(part);
    if wanted.len() > s.len() || from > s.len() - wanted.len() {
        return None;
    }
    let last: usize = s.len() - wanted.len();
    let mut at: usize = from;
    loop
        invariant
            from <= at <= last,
            wanted@ == part@,
            last == s@.len() - wanted@.len(),
            find_from(s@, part@, from as int) == find_from(s@, part@, at as int),
        decreases last - at,
    {
        if matches_at(s, &wanted, at) {
            proof {
                lemma_find_from_is_first(s@, part@, from as int);
            }
            return Some(at);
        }
        if at == last {
            proof {
                assert(find_from(s@, part@, at + 1) is None);
                lemma_find_from_is_first(s@, part@, from as int);
            }
            return None;
        }
        at = at + 1;
    }
}

/// Whether `c` is white space.
pub fn is_whitespace(c: char) -> (r: bool)
    ensures
        r == is_space(c),
{
    let n: u32 = c as u32;
    (0x09 <= n && n <= 0x0D) || n == 0x20 || n == 0x85 || n == 0xA0 || n == 0x1680 || (0x2000 <= n
        && n <= 0x200A) || n == 0x2028 || n == 0x2029 || n == 0x202F || n == 0x205F || n
        == 0x3000
}

/// The bounds of what `trim` leaves of the part of `s` from `from` up to
/// `to`.
pub fn trim_bounds(s: &Vec<char>, from: usize, to: usize) -> (r: (usize, usize))
    requires
        from <= to <= s.len(),
    ensures
        from <= r.0 <= r.1 <= to,
        s@.subrange(r.0 as int, r.1 as int) == trim(s@.subrange(from as int, to as int)),
{
    let ghost part = s@.subrange(from as int, to as int);
    let mut lo: usize = from;
    while lo < to && is_whitespace(s[lo])
        invariant
            from <= lo <= to <= s.len(),
            forall|i: int| from <= i < lo ==> is_space(#[trigger] s@[i]),
        decreases to - lo,
    {
        lo = lo + 1;
    }
    let mut hi: usize = to;
    while lo < hi && is_whitespace(s[hi - 1])
        invariant
            lo <= hi <= to <= s.len(),
            forall|i: int| hi <= i < to ==> is_space(#[trigger] s@[i]),
        decreases hi - lo,
    {
        hi = hi - 1;
    }
    proof {
        assert forall|i: int| 0 <= i < lo - from implies is_space(#[trigger] part[i]) by {
            assert(part[i] == s@[from + i]);
        }
        lemma_leading_spaces(part, lo - from);
        let tail = part.skip(lo - from);
        assert forall|i: int| tail.len() - (to - hi) <= i < tail.len() implies is_space(
            #[trigger] tail[i],
        ) by {
            assert(tail[i] == s@[lo + i]);
        }
        if to - hi < tail.len() {
            assert(tail[tail.len() - (to - hi) - 1] == s@[hi - 1]);
        }
        lemma_trailing_spaces(tail, to - hi);
        assert(s@.subrange(lo as int, hi as int) =~= tail.take(tail.len() - (to - hi)));
    }
    (lo, hi)
}

/// The text of the characters of `line` from position `from` up to `to`.
pub fn cut(line: &str, from: usize, to: usize) -> (r: String)
    requires
        from <= to <= line@.len(),
    ensures
        r@ == line@.subrange(from as int, to as int),
{
    line.substring_char(from, to).to_owned()
}

/// The decimal digit `d` as text.
fn digit_text(d: u32) -> (r: &'static str)
    requires
        d < 10,
    ensures
        r@ == seq![digit_char(d as nat)],
{
    proof {
        reveal_strlit("0");
        reveal_strlit("1");
        reveal_strlit("2");
        reveal_strlit("3");
        reveal_strlit("4");
        reveal_strlit("5");
        reveal_strlit("6");
        reveal_strlit("7");
        reveal_strlit("8");
        reveal_strlit("9");
    }
    let r = if d == 0 {
        "0"
    } else if d == 1 {
        "1"
    } else if d == 2 {
        "2"
    } else if d == 3 {
        "3"
    } else if d == 4 {
        "4"
    } else if d == 5 {
        "5"
    } else if d == 6 {
        "6"
    } else if d == 7 {
        "7"
    } else if d == 8 {
        "8"
    } else {
        "9"
    };
    assert(r@ =~= seq![digit_char(d as nat)]);
    r
}

/// `n` in decimal, without leading zeros.
pub fn decimal_text(n: u32) -> (r: String)
    ensures
        r@ == decimal(n as nat),
    decreases n,
{
    if n < 10 {
        digit_text(n).to_owned()
    } else {
        let mut r = decimal_text(n / 10);
        let d = digit_text(n % 10);
        r.append(d);
        assert(r@ =~= decimal(n as nat));
        r
    }
}

} // verus!
