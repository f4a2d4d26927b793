//! Verified character and string helpers: trimming, searching, splitting
//! and ASCII case folding over `Seq<char>` views.
use vstd::prelude::*;
use vstd::string::StrSliceExecFns;

verus! {

/// A Unicode white-space character, the set `str::trim` removes.
pub open spec fn is_space(c: char) -> bool {
    let u = c as int;
    u == 0x09 || u == 0x0A || u == 0x0B || u == 0x0C || u == 0x0D || u == 0x20 || u == 0x85
        || u == 0xA0 || u == 0x1680 || (0x2000 <= u && u <= 0x200A) || u == 0x2028 || u == 0x2029
        || u == 0x202F || u == 0x205F || u == 0x3000
}

/// Characters stripped from an auth-mechanism token: quotes and spaces.
pub open spec fn is_token_padding(c: char) -> bool {
    c == '"' || c == '\'' || c == ' '
}

/// The white-space predicate as a value, so trimming lemmas apply to it.
pub open spec fn space_pred() -> spec_fn(char) -> bool {
    |c: char| is_space(c)
}

/// The token-padding predicate as a value.
pub open spec fn token_padding_pred() -> spec_fn(char) -> bool {
    |c: char| is_token_padding(c)
}

/// Drops the longest prefix whose characters all satisfy `p`.
pub open spec fn drop_while_first(s: Seq<char>, p: spec_fn(char) -> bool) -> Seq<char>
    decreases s.len(),
{
    if s.len() > 0 && p(s[0]) {
        drop_while_first(s.drop_first(), p)
    } else {
        s
    }
}

/// Drops the longest suffix whose characters all satisfy `p`.
pub open spec fn drop_while_last(s: Seq<char>, p: spec_fn(char) -> bool) -> Seq<char>
    decreases s.len(),
{
    if s.len() > 0 && p(s.last()) {
        drop_while_last(s.drop_last(), p)
    } else {
        s
    }
}

/// Removes the characters satisfying `p` from both ends.
pub open spec fn seq_trim(s: Seq<char>, p: spec_fn(char) -> bool) -> Seq<char> {
    drop_while_last(drop_while_first(s, p), p)
}

/// What `str::trim` leaves: the input without surrounding white space.
pub open spec fn trim_ws(s: Seq<char>) -> Seq<char> {
    seq_trim(s, space_pred())
}

/// An auth-mechanism token without surrounding quotes and spaces.
pub open spec fn trim_token(s: Seq<char>) -> Seq<char> {
    seq_trim(s, token_padding_pred())
}

pub proof fn lemma_drop_while_first_is_skip(s: Seq<char>, p: spec_fn(char) -> bool, k: int)
    requires
        0 <= k <= s.len(),
        forall|j: int| 0 <= j < k ==> p(s[j]),
        k == s.len() || !p(s[k]),
    ensures
        drop_while_first(s, p) == s.skip(k),
    decreases k,
{
    if k == 0 {
        assert(s.skip(0) =~= s);
    } else {
        lemma_drop_while_first_is_skip(s.drop_first(), p, k - 1);
        assert(s.drop_first().skip(k - 1) =~= s.skip(k));
    }
}

pub proof fn lemma_drop_while_last_is_take(s: Seq<char>, p: spec_fn(char) -> bool, k: int)
    requires
        0 <= k <= s.len(),
        forall|j: int| k <= j < s.len() ==> p(s[j]),
        k == 0 || !p(s[k - 1]),
    ensures
        drop_while_last(s, p) == s.take(k),
    decreases s.len() - k,
{
    if k == s.len() {
        assert(s.take(k) =~= s);
    } else {
        lemma_drop_while_last_is_take(s.drop_last(), p, k);
        assert(s.drop_last().take(k) =~= s.take(k));
    }
}

/// Whether `c` is a white-space character.
pub fn is_space_char(c: char) -> (r: bool)
    ensures
        r == is_space(c),
{
    let u = c as u32;
    u == 0x09 || u == 0x0A || u == 0x0B || u == 0x0C || u == 0x0D || u == 0x20 || u == 0x85
        || u == 0xA0 || u == 0x1680 || (0x2000 <= u && u <= 0x200A) || u == 0x2028 || u == 0x2029
        || u == 0x202F || u == 0x205F || u == 0x3000
}

/// Whether `c` is padding around an auth-mechanism token.
pub fn is_token_padding_char(c: char) -> (r: bool)
    ensures
        r == is_token_padding(c),
{
    c == '"' || c == '\'' || c == ' '
}

/// The input without leading or trailing white space.
pub fn str_trim_ws<'a>(s: &'a str) -> (r: &'a str)
    ensures
        r@ == trim_ws(s@),
{
    let n = s.unicode_len();
    let mut a: usize = 0;
    while a < n
        invariant
            a <= n,
            n == s@.len(),
            forall|j: int| 0 <= j < a ==> is_space(s@[j]),
        ensures
            a <= n,
            n == s@.len(),
            forall|j: int| 0 <= j < a ==> is_space(s@[j]),
            a == n || !is_space(s@[a as int]),
        decreases n - a,
    {
        if !is_space_char(s.get_char(a)) {
            break ;
        }
        a += 1;
    }
    let mut b: usize = n;
    while b > a
        invariant
            a <= b <= n,
            n == s@.len(),
            forall|j: int| b <= j < n ==> is_space(s@[j]),
        ensures
            a <= b <= n,
            n == s@.len(),
            forall|j: int| b <= j < n ==> is_space(s@[j]),
            b == a || !is_space(s@[b - 1]),
        decreases b,
    {
        if !is_space_char(s.get_char(b - 1)) {
            break ;
        }
        b -= 1;
    }
    let r = s.substring_char(a, b);
    proof {
        let p = space_pred();
        assert(forall|c: char| #[trigger] p(c) == is_space(c));
        lemma_drop_while_first_is_skip(s@, p, a as int);
        assert(forall|j: int| (b - a) <= j < (n - a) ==> p(s@.skip(a as int)[j]));
        if b > a {
            assert(s@.skip(a as int)[b - a - 1] == s@[b - 1]);
        }
        lemma_drop_while_last_is_take(s@.skip(a as int), p, b - a);
        assert(s@.skip(a as int).take(b - a) =~= s@.subrange(a as int, b as int));
    }
    r
}

/// The input without leading or trailing quote or space characters.
pub fn str_trim_token<'a>(s: &'a str) -> (r: &'a str)
    ensures
        r@ == trim_token(s@),
{
    let n = s.unicode_len();
    let mut a: usize = 0;
    while a < n
        invariant
            a <= n,
            n == s@.len(),
            forall|j: int| 0 <= j < a ==> is_token_padding(s@[j]),
        ensures
            a <= n,
            n == s@.len(),
            forall|j: int| 0 <= j < a ==> is_token_padding(s@[j]),
            a == n || !is_token_padding(s@[a as int]),
        decreases n - a,
    {
        if !is_token_padding_char(s.get_char(a)) {
            break ;
        }
        a += 1;
    }
    let mut b: usize = n;
    while b > a
        invariant
            a <= b <= n,
            n == s@.len(),
            forall|j: int| b <= j < n ==> is_token_padding(s@[j]),
        ensures
            a <= b <= n,
            n == s@.len(),
            forall|j: int| b <= j < n ==> is_token_padding(s@[j]),
            b == a || !is_token_padding(s@[b - 1]),
        decreases b,
    {
        if !is_token_padding_char(s.get_char(b - 1)) {
            break ;
        }
        b -= 1;
    }
    let r = s.substring_char(a, b);
    proof {
        let p = token_padding_pred();
        assert(forall|c: char| #[trigger] p(c) == is_token_padding(c));
        lemma_drop_while_first_is_skip(s@, p, a as int);
        assert(forall|j: int| (b - a) <= j < (n - a) ==> p(s@.skip(a as int)[j]));
        if b > a {
            assert(s@.skip(a as int)[b - a - 1] == s@[b - 1]);
        }
        lemma_drop_while_last_is_take(s@.skip(a as int), p, b - a);
        assert(s@.skip(a as int).take(b - a) =~= s@.subrange(a as int, b as int));
    }
    r
}

/// ASCII lower-casing of one character; other characters are unchanged.
pub open spec fn ascii_lower_char(c: char) -> char {
    if 65 <= c as int && c as int <= 90 {
        ((c as int + 32) as char)
    } else {
        c
    }
}

/// ASCII lower-casing of a character sequence.
pub open spec fn lower(s: Seq<char>) -> Seq<char> {
    s.map_values(|c: char| ascii_lower_char(c))
}

/// The ASCII lower-case form of one character.
pub fn ascii_lower_exec(c: char) -> (r: char)
    ensures
        r == ascii_lower_char(c),
{
    let u = c as u32;
    if 65 <= u && u <= 90 {
        ((u + 32) as u8) as char
    } else {
        c
    }
}

/// Whether the two strings agree up to ASCII case.
pub fn eq_ignore_ascii_case(a: &str, b: &str) -> (r: bool)
    ensures
        r == (lower(a@) == lower(b@)),
{
    let na = a.unicode_len();
    let nb = b.unicode_len();
    if na != nb {
        proof {
            assert(lower(a@).len() == a@.len());
            assert(lower(b@).len() == b@.len());
        }
        return false;
    }
    let mut i: usize = 0;
    while i < na
        invariant
            i <= na,
            na == a@.len(),
            na == b@.len(),
            forall|j: int| 0 <= j < i ==> ascii_lower_char(a@[j]) == ascii_lower_char(b@[j]),
        decreases na - i,
    {
        if ascii_lower_exec(a.get_char(i)) != ascii_lower_exec(b.get_char(i)) {
            assert(lower(a@)[i as int] != lower(b@)[i as int]);
            return false;
        }
        i += 1;
    }
    proof {
        assert(lower(a@) =~= lower(b@));
    }
    true
}

/// The first position at or after `from` holding `c`, or the length if none does.
pub open spec fn first_index_from(s: Seq<char>, c: char, from: int) -> int
    decreases s.len() - from,
{
    if from >= s.len() || from < 0 {
        s.len() as int
    } else if s[from] == c {
        from
    } else {
        first_index_from(s, c, from + 1)
    }
}

pub proof fn lemma_first_index_bounds(s: Seq<char>, c: char, from: int)
    requires
        0 <= from <= s.len(),
    ensures
        from <= first_index_from(s, c, from) <= s.len(),
        first_index_from(s, c, from) < s.len() ==> s[first_index_from(s, c, from)] == c,
        forall|j: int| from <= j < first_index_from(s, c, from) ==> s[j] != c,
    decreases s.len() - from,
{
    if from < s.len() && s[from] != c {
        lemma_first_index_bounds(s, c, from + 1);
    }
}

pub proof fn lemma_first_index_at(s: Seq<char>, c: char, from: int, k: int)
    requires
        0 <= from <= k <= s.len(),
        forall|j: int| from <= j < k ==> s[j] != c,
        k == s.len() || s[k] == c,
    ensures
        first_index_from(s, c, from) == k,
    decreases k - from,
{
    if from < k {
        lemma_first_index_at(s, c, from + 1, k);
    }
}

/// The pieces of `s` between occurrences of `c`, in order; `s` itself when
/// `c` never occurs.
pub open spec fn split_char(s: Seq<char>, c: char) -> Seq<Seq<char>>
    decreases s.len(),
        via split_char_decreases
{
    let i = first_index_from(s, c, 0);
    if i == s.len() {
        seq![s]
    } else {
        seq![s.take(i)] + split_char(s.skip(i + 1), c)
    }
}

#[via_fn]
proof fn split_char_decreases(s: Seq<char>, c: char) {
    lemma_first_index_bounds(s, c, 0);
}

/// The pieces of `s` between commas, as slices of `s`.
pub fn split_commas<'a>(s: &'a str) -> (r: Vec<&'a str>)
    ensures
        r.deep_view() == split_char(s@, ','),
{
    let n = s.unicode_len();
    let mut out: Vec<&'a str> = Vec::new();
    let mut start: usize = 0;
    let mut i: usize = 0;
    proof {
        assert(s@.skip(0) =~= s@);
        assert(out.deep_view() + split_char(s@, ',') =~= split_char(s@, ','));
    }
    while i < n
        invariant
            start <= i <= n,
            n == s@.len(),
            forall|j: int| start <= j < i ==> s@[j] != ',',
            split_char(s@, ',') == out.deep_view() + split_char(s@.skip(start as int), ','),
        decreases n - i,
    {
        if s.get_char(i) == ',' {
            let tok = s.substring_char(start, i);
            proof {
                let rest = s@.skip(start as int);
                assert(forall|j: int| 0 <= j < i - start ==> rest[j] == s@[start + j] && rest[j]
                    != ',');
                assert(rest[i - start] == s@[i as int]);
                lemma_first_index_at(rest, ',', 0, i - start);
                assert(rest.take(i - start) =~= s@.subrange(start as int, i as int));
                assert(rest.skip(i - start + 1) =~= s@.skip(i + 1));
            }
            out.push(tok);
            proof {
                assert(out.deep_view() =~= out.deep_view().take(out.deep_view().len() - 1).push(
                    tok@,
                ));
                assert(split_char(s@, ',') =~= out.deep_view() + split_char(s@.skip(i + 1), ','));
            }
            start = i + 1;
        }
        i += 1;
    }
    let tok = s.substring_char(start, n);
    proof {
        let rest = s@.skip(start as int);
        assert(forall|j: int| 0 <= j < rest.len() ==> rest[j] == s@[start + j] && rest[j] != ',');
        lemma_first_index_at(rest, ',', 0, rest.len() as int);
        assert(rest =~= s@.subrange(start as int, n as int));
    }
    out.push(tok);
    proof {
        assert(out.deep_view() =~= split_char(s@, ','));
    }
    out
}

/// Whether `m` occurs in `s` starting at position `i`.
pub open spec fn matches_at(s: Seq<char>, m: Seq<char>, i: int) -> bool {
    0 <= i && i + m.len() <= s.len() && s.subrange(i, i + m.len() as int) == m
}

/// The first position at or after `from` where `m` occurs in `s`.
pub open spec fn find_from(s: Seq<char>, m: Seq<char>, from: int) -> Option<int>
    decreases s.len() - from,
        via find_from_decreases
{
    if from < 0 || from + m.len() > s.len() {
        Option::None
    } else if matches_at(s, m, from) {
        Option::Some(from)
    } else {
        find_from(s, m, from + 1)
    }
}

#[via_fn]
proof fn find_from_decreases(s: Seq<char>, m: Seq<char>, from: int) {
    if !(from < 0 || from + m.len() > s.len()) && !matches_at(s, m, from) && m.len() == 0 {
        assert(s.subrange(from, from + m.len() as int) =~= m);
    }
}

/// The first occurrence of `m` in `s`, if any.
pub open spec fn find_first(s: Seq<char>, m: Seq<char>) -> Option<int> {
    find_from(s, m, 0)
}

/// The position of the first occurrence of `m` in `s`, if any.
pub fn str_find(s: &str, m: &str) -> (r: Option<usize>)
    ensures
        match r {
            Some(i) => find_first(s@, m@) == Option::Some(i as int) && i + m@.len() <= s@.len(),
            None => find_first(s@, m@) == Option::<int>::None,
        },
{
    let n = s.unicode_len();
    let k = m.unicode_len();
    if k > n {
        return None;
    }
    let lim = n - k;
    let mut i: usize = 0;
    while i <= lim
        invariant
            i <= lim + 1,
            lim == n - k,
            k <= n,
            n == s@.len(),
            k == m@.len(),
            find_from(s@, m@, 0) == find_from(s@, m@, i as int),
        decreases lim + 1 - i,
    {
        let mut j: usize = 0;
        while j < k
            invariant
                j <= k,
                i <= lim,
                lim == n - k,
                k <= n,
                n == s@.len(),
                k == m@.len(),
                forall|t: int| 0 <= t < j ==> s@[i + t] == m@[t],
            ensures
                j <= k,
                forall|t: int| 0 <= t < j ==> s@[i + t] == m@[t],
                j == k || s@[i + j] != m@[j as int],
            decreases k - j,
        {
            if s.get_char(i + j) != m.get_char(j) {
                break ;
            }
            j += 1;
        }
        if j == k {
            proof {
                assert(s@.subrange(i as int, i + k as int) =~= m@);
            }
            return Some(i);
        }
        proof {
            assert(!matches_at(s@, m@, i as int)) by {
                if matches_at(s@, m@, i as int) {
                    assert(s@.subrange(i as int, i + k as int)[j as int] == m@[j as int]);
                }
            }
        }
        i += 1;
    }
    None
}

/// The right-most position of `c` in `s`, if any.
pub open spec fn rfind_char(s: Seq<char>, c: char) -> Option<int>
    decreases s.len(),
{
    if s.len() == 0 {
        Option::None
    } else if s.last() == c {
        Option::Some(s.len() - 1)
    } else {
        rfind_char(s.drop_last(), c)
    }
}

pub proof fn lemma_rfind_at(s: Seq<char>, c: char, k: int)
    requires
        0 <= k < s.len(),
        s[k] == c,
        forall|j: int| k < j < s.len() ==> s[j] != c,
    ensures
        rfind_char(s, c) == Option::Some(k),
    decreases s.len(),
{
    if k < s.len() - 1 {
        assert(s.drop_last()[k] == c);
        lemma_rfind_at(s.drop_last(), c, k);
    }
}

pub proof fn lemma_rfind_none(s: Seq<char>, c: char)
    requires
        forall|j: int| 0 <= j < s.len() ==> s[j] != c,
    ensures
        rfind_char(s, c) == Option::<int>::None,
    decreases s.len(),
{
    if s.len() > 0 {
        lemma_rfind_none(s.drop_last(), c);
    }
}

/// The right-most position of `c` in `s`, if any.
pub fn str_rfind(s: &str, c: char) -> (r: Option<usize>)
    ensures
        match r {
            Some(i) => rfind_char(s@, c) == Option::Some(i as int) && i < s@.len() && s@[i as int]
                == c,
            None => rfind_char(s@, c) == Option::<int>::None,
        },
{
    let n = s.unicode_len();
    let mut b: usize = n;
    while b > 0
        invariant
            b <= n,
            n == s@.len(),
            forall|j: int| b <= j < n ==> s@[j] != c,
        decreases b,
    {
        if s.get_char(b - 1) == c {
            proof {
                lemma_rfind_at(s@, c, b - 1);
            }
            return Some(b - 1);
        }
        b -= 1;
    }
    proof {
        lemma_rfind_none(s@, c);
    }
    None
}

} // verus!
