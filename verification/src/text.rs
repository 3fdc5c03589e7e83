//! Small text utilities on `str`/`String`, each stated over `Seq<char>`.
use vstd::prelude::*;

verus! {

/// The character of a decimal digit.
pub open spec fn digit_char(d: nat) -> char {
    if d == 0 {
        '0'
    } else if d == 1 {
        '1'
    } else if d == 2 {
        '2'
    } else if d == 3 {
        '3'
    } else if d == 4 {
        '4'
    } else if d == 5 {
        '5'
    } else if d == 6 {
        '6'
    } else if d == 7 {
        '7'
    } else if d == 8 {
        '8'
    } else {
        '9'
    }
}

/// The decimal rendering of a natural number, most significant digit first,
/// without leading zeros (zero renders as "0").
pub open spec fn decimal(n: nat) -> Seq<char>
    decreases n,
{
    if n < 10 {
        seq![digit_char(n)]
    } else {
        decimal(n / 10) + seq![digit_char(n % 10)]
    }
}

fn digit_str(d: u64) -> (s: &'static str)
    requires
        d < 10,
    ensures
        s@ == seq![digit_char(d as nat)],
{
    proof {
        reveal_strlit("0");
        reveal_strlit("1");
        reveal_strlit("2");
        reveal_strlit("3");
        reveal_strlit("4");
        reveal_strlit("5");
        reveal_strlit("6");
        reveal_strlit("7");
        reveal_strlit("8");
        reveal_strlit("9");
    }
    if d == 0 {
        "0"
    } else if d == 1 {
        "1"
    } else if d == 2 {
        "2"
    } else if d == 3 {
        "3"
    } else if d == 4 {
        "4"
    } else if d == 5 {
        "5"
    } else if d == 6 {
        "6"
    } else if d == 7 {
        "7"
    } else if d == 8 {
        "8"
    } else {
        "9"
    }
}

/// Renders `n` in decimal, as `{}` formatting does.
pub fn u64_to_decimal(n: u64) -> (s: String)
    ensures
        s@ == decimal(n as nat),
    decreases n,
{
    if n < 10 {
        String::from_str(digit_str(n))
    } else {
        let mut s = u64_to_decimal(n / 10);
        s.append(digit_str(n % 10));
        s
    }
}

/// Whether two strings hold the same characters.
pub fn text_eq(a: &str, b: &str) -> (r: bool)
    ensures
        r == (a@ == b@),
{
    let x = String::from_str(a);
    let y = String::from_str(b);
    x == y
}

/// The characters of a string, one by one.
pub fn chars_of(s: &str) -> (v: Vec<char>)
    ensures
        v@ == s@,
{
    let n = s.unicode_len();
    let mut v: Vec<char> = Vec::new();
    let mut i: usize = 0;
    while i < n
        invariant
            n == s@.len(),
            i <= n,
            v@ == s@.subrange(0, i as int),
        decreases n - i,
    {
        let c = s.get_char(i);
        v.push(c);
        i = i + 1;
        assert(v@ =~= s@.subrange(0, i as int));
    }
    assert(v@ =~= s@);
    v
}

/// `s` with every trailing `':'` removed, as `str::trim_end_matches(':')` gives it.
pub open spec fn trim_trailing_colons(s: Seq<char>) -> Seq<char>
    decreases s.len(),
{
    if s.len() > 0 && s.last() == ':' {
        trim_trailing_colons(s.drop_last())
    } else {
        s
    }
}

/// A trimmed text does not end in `':'`, and trimming it again changes nothing.
pub proof fn lemma_trimmed_has_no_trailing_colon(s: Seq<char>)
    ensures
        trim_trailing_colons(s).len() == 0 || trim_trailing_colons(s).last() != ':',
        trim_trailing_colons(trim_trailing_colons(s)) == trim_trailing_colons(s),
    decreases s.len(),
{
    if s.len() > 0 && s.last() == ':' {
        lemma_trimmed_has_no_trailing_colon(s.drop_last());
    }
}

/// Trimming takes off colons and nothing else: the trimmed text is a prefix of
/// `s`, every character of `s` after it is `':'`, and it does not itself end in
/// `':'`. So a name followed by colons trims back to the name.
pub proof fn lemma_trim_removes_only_colons(s: Seq<char>)
    ensures
        trim_trailing_colons(s).len() <= s.len(),
        s.subrange(0, trim_trailing_colons(s).len() as int) == trim_trailing_colons(s),
        forall|i: int| trim_trailing_colons(s).len() <= i < s.len() ==> s[i] == ':',
        trim_trailing_colons(s).len() == 0 || trim_trailing_colons(s).last() != ':',
    decreases s.len(),
{
    if s.len() > 0 && s.last() == ':' {
        let t = s.drop_last();
        lemma_trim_removes_only_colons(t);
        assert(s.subrange(0, trim_trailing_colons(t).len() as int) =~= t.subrange(0, trim_trailing_colons(t).len() as int));
        assert forall|i: int| trim_trailing_colons(s).len() <= i < s.len() implies s[i] == ':' by {
            if i < s.len() - 1 {
                assert(s[i] == t[i]);
            }
        }
    } else {
        assert(s.subrange(0, s.len() as int) =~= s);
    }
}

/// A name that does not end in `':'`, followed by any number of colons,
/// trims back to the name.
pub proof fn lemma_trim_name_with_colons(name: Seq<char>, n: nat)
    requires
        name.len() == 0 || name.last() != ':',
    ensures
        trim_trailing_colons(name + Seq::new(n, |i: int| ':')) == name,
    decreases n,
{
    let s = name + Seq::new(n, |i: int| ':');
    if n == 0 {
        assert(s =~= name);
    } else {
        assert(s.drop_last() =~= name + Seq::new((n - 1) as nat, |i: int| ':'));
        lemma_trim_name_with_colons(name, (n - 1) as nat);
    }
}

/// Removes every trailing `':'` from `s`.
pub fn trim_colons(s: &str) -> (r: String)
    ensures
        r@ == trim_trailing_colons(s@),
{
    let n = s.unicode_len();
    let mut end: usize = n;
    assert(s@.subrange(0, n as int) =~= s@);
    while end > 0 && s.get_char(end - 1) == ':'
        invariant
            n == s@.len(),
            end <= n,
            trim_trailing_colons(s@) == trim_trailing_colons(s@.subrange(0, end as int)),
        decreases end,
    {
        assert(s@.subrange(0, end as int).drop_last() =~= s@.subrange(0, end - 1));
        end = end - 1;
    }
    String::from_str(s.substring_char(0, end))
}

/// `s` without `prefix` in front, where `s` starts with it.
pub open spec fn without_prefix(s: Seq<char>, prefix: Seq<char>) -> Option<Seq<char>> {
    if prefix.len() <= s.len() && s.subrange(0, prefix.len() as int) == prefix {
        Some(s.subrange(prefix.len() as int, s.len() as int))
    } else {
        None
    }
}

/// Strips `prefix` from the front of `s`, as `str::strip_prefix` does.
pub fn strip_prefix(s: &str, prefix: &str) -> (r: Option<String>)
    ensures
        match r {
            Some(rest) => without_prefix(s@, prefix@) == Some(rest@),
            None => without_prefix(s@, prefix@) is None,
        },
{
    let n = s.unicode_len();
    let m = prefix.unicode_len();
    if m > n {
        return None;
    }
    let mut i: usize = 0;
    while i < m
        invariant
            n == s@.len(),
            m == prefix@.len(),
            m <= n,
            i <= m,
            forall|k: int| 0 <= k < i ==> s@[k] == prefix@[k],
        decreases m - i,
    {
        if s.get_char(i) != prefix.get_char(i) {
            assert(s@.subrange(0, m as int)[i as int] != prefix@[i as int]);
            return None;
        }
        i = i + 1;
    }
    assert(s@.subrange(0, m as int) =~= prefix@);
    Some(String::from_str(s.substring_char(m, n)))
}

/// The first line of `s`, as `s.lines().next()` gives it: the text before the
/// first `'\n'` (without a `'\r'` just before that `'\n'`), the whole of `s` when it
/// holds no `'\n'`, and `None` for the empty string.
pub open spec fn first_line(s: Seq<char>) -> Option<Seq<char>> {
    if s.len() == 0 {
        None
    } else if exists|i: int| 0 <= i < s.len() && s[i] == '\n' {
        let i = choose|i: int|
            0 <= i < s.len() && s[i] == '\n' && forall|j: int| 0 <= j < i ==> s[j] != '\n';
        if i > 0 && s[i - 1] == '\r' {
            Some(s.subrange(0, i - 1))
        } else {
            Some(s.subrange(0, i))
        }
    } else {
        Some(s)
    }
}

/// Returns the first line of `s` (see `first_line`).
pub fn first_line_of(s: &str) -> (r: Option<String>)
    ensures
        match r {
            Some(line) => first_line(s@) == Some(line@),
            None => first_line(s@) is None,
        },
{
    let n = s.unicode_len();
    if n == 0 {
        return None;
    }
    let mut i: usize = 0;
    while i < n
        invariant
            n == s@.len(),
            i <= n,
            forall|j: int| 0 <= j < i ==> s@[j] != '\n',
        decreases n - i,
    {
        if s.get_char(i) == '\n' {
            assert(0 <= i < s@.len() && s@[i as int] == '\n' && forall|j: int|
                0 <= j < i ==> s@[j] != '\n');
            let ghost k = choose|k: int|
                0 <= k < s@.len() && s@[k] == '\n' && forall|j: int| 0 <= j < k ==> s@[j] != '\n';
            assert(k == i as int) by {
                if k < i {
                    assert(s@[k] != '\n');
                } else if k > i {
                    assert(s@[i as int] != '\n');
                }
            }
            if i > 0 && s.get_char(i - 1) == '\r' {
                return Some(String::from_str(s.substring_char(0, i - 1)));
            } else {
                return Some(String::from_str(s.substring_char(0, i)));
            }
        }
        i = i + 1;
    }
    Some(String::from_str(s))
}

/// The lexicographic order of two texts by character code, which for
/// Rust strings is the order of `str`'s `Ord` (UTF-8 byte order agrees with
/// code point order).
pub open spec fn text_less(a: Seq<char>, b: Seq<char>) -> bool
    decreases a.len(),
{
    if a.len() == 0 {
        b.len() > 0
    } else if b.len() == 0 {
        false
    } else if a[0] != b[0] {
        (a[0] as int) < (b[0] as int)
    } else {
        text_less(a.drop_first(), b.drop_first())
    }
}

/// `text_less` is irreflexive.
pub proof fn lemma_text_less_irreflexive(a: Seq<char>)
    ensures
        !text_less(a, a),
    decreases a.len(),
{
    if a.len() > 0 {
        lemma_text_less_irreflexive(a.drop_first());
    }
}

/// `text_less` is transitive.
pub proof fn lemma_text_less_transitive(a: Seq<char>, b: Seq<char>, c: Seq<char>)
    requires
        text_less(a, b),
        text_less(b, c),
    ensures
        text_less(a, c),
    decreases a.len(),
{
    if a.len() > 0 && b.len() > 0 && c.len() > 0 && a[0] == b[0] && b[0] == c[0] {
        lemma_text_less_transitive(a.drop_first(), b.drop_first(), c.drop_first());
    }
}

/// Any two different texts are ordered one way or the other.
pub proof fn lemma_text_less_total(a: Seq<char>, b: Seq<char>)
    requires
        a != b,
    ensures
        text_less(a, b) || text_less(b, a),
    decreases a.len(),
{
    if a.len() > 0 && b.len() > 0 && a[0] == b[0] {
        if a.drop_first() == b.drop_first() {
            assert(a =~= seq![a[0]] + a.drop_first());
            assert(b =~= seq![b[0]] + b.drop_first());
        }
        lemma_text_less_total(a.drop_first(), b.drop_first());
    } else if a.len() > 0 && b.len() > 0 {
        let x = a[0] as int;
        let y = b[0] as int;
        assert(x != y);
    } else if a.len() == 0 && b.len() == 0 {
        assert(a =~= b);
    }
}

/// `text_less` is the lexicographic order: at the first position where two
/// texts differ, the smaller character makes the smaller text; and a proper
/// prefix comes before the texts it begins.
pub proof fn lemma_text_less_lexicographic(a: Seq<char>, b: Seq<char>, k: int)
    requires
        0 <= k,
        k <= a.len(),
        k <= b.len(),
        a.subrange(0, k) == b.subrange(0, k),
        (k < a.len() && k < b.len() && (a[k] as int) < (b[k] as int)) || (k == a.len() && k < b.len()),
    ensures
        text_less(a, b),
    decreases k,
{
    if k > 0 {
        assert(a[0] == a.subrange(0, k)[0]);
        assert(b[0] == b.subrange(0, k)[0]);
        assert(a.drop_first().subrange(0, k - 1) =~= a.subrange(0, k).drop_first());
        assert(b.drop_first().subrange(0, k - 1) =~= b.subrange(0, k).drop_first());
        lemma_text_less_lexicographic(a.drop_first(), b.drop_first(), k - 1);
    }
}

/// Compares two texts in `text_less` order.
pub fn text_lt(a: &str, b: &str) -> (r: bool)
    ensures
        r == text_less(a@, b@),
{
    let x = chars_of(a);
    let y = chars_of(b);
    let mut i: usize = 0;
    assert(a@.subrange(0, a@.len() as int) =~= a@);
    assert(b@.subrange(0, b@.len() as int) =~= b@);
    while i < x.len() && i < y.len() && x[i] == y[i]
        invariant
            x@ == a@,
            y@ == b@,
            i <= x.len(),
            i <= y.len(),
            text_less(a@, b@) == text_less(a@.subrange(i as int, a@.len() as int), b@.subrange(i as int, b@.len() as int)),
        decreases x.len() - i,
    {
        assert(a@.subrange(i as int, a@.len() as int).drop_first() =~= a@.subrange(i + 1, a@.len() as int));
        assert(b@.subrange(i as int, b@.len() as int).drop_first() =~= b@.subrange(i + 1, b@.len() as int));
        i = i + 1;
    }
    if i == x.len() {
        i < y.len()
    } else if i == y.len() {
        false
    } else {
        x[i] < y[i]
    }
}

} // verus!
