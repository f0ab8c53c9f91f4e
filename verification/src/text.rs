//! Character and token utilities shared by the hotkey grammar and the
//! option parsers: whitespace trimming, ASCII case folding, and splitting
//! on a separator character.

use vstd::prelude::*;

verus! {

/// Whitespace, following Unicode's White_Space list (the characters that
/// `str::trim` removes).
pub open spec fn spec_is_space(c: char) -> bool {
    c == ' ' || c == '\t' || c == '\n' || c == '\u{0b}' || c == '\u{0c}' || c == '\r'
        || c == '\u{85}' || c == '\u{a0}' || c == '\u{1680}'
        || ('\u{2000}' <= c && c <= '\u{200a}')
        || c == '\u{2028}' || c == '\u{2029}' || c == '\u{202f}' || c == '\u{205f}'
        || c == '\u{3000}'
}

pub fn is_space(c: char) -> (r: bool)
    ensures
        r == spec_is_space(c),
{
    c == ' ' || c == '\t' || c == '\n' || c == '\u{0b}' || c == '\u{0c}' || c == '\r'
        || c == '\u{85}' || c == '\u{a0}' || c == '\u{1680}'
        || ('\u{2000}' <= c && c <= '\u{200a}')
        || c == '\u{2028}' || c == '\u{2029}' || c == '\u{202f}' || c == '\u{205f}'
        || c == '\u{3000}'
}

/// ASCII upper-casing of one character; everything outside `a..=z` is kept.
pub open spec fn spec_upper_char(c: char) -> char {
    match c {
        'a' => 'A',
        'b' => 'B',
        'c' => 'C',
        'd' => 'D',
        'e' => 'E',
        'f' => 'F',
        'g' => 'G',
        'h' => 'H',
        'i' => 'I',
        'j' => 'J',
        'k' => 'K',
        'l' => 'L',
        'm' => 'M',
        'n' => 'N',
        'o' => 'O',
        'p' => 'P',
        'q' => 'Q',
        'r' => 'R',
        's' => 'S',
        't' => 'T',
        'u' => 'U',
        'v' => 'V',
        'w' => 'W',
        'x' => 'X',
        'y' => 'Y',
        'z' => 'Z',
        _ => c,
    }
}

pub fn upper_char(c: char) -> (r: char)
    ensures
        r == spec_upper_char(c),
{
    match c {
        'a' => 'A',
        'b' => 'B',
        'c' => 'C',
        'd' => 'D',
        'e' => 'E',
        'f' => 'F',
        'g' => 'G',
        'h' => 'H',
        'i' => 'I',
        'j' => 'J',
        'k' => 'K',
        'l' => 'L',
        'm' => 'M',
        'n' => 'N',
        'o' => 'O',
        'p' => 'P',
        'q' => 'Q',
        'r' => 'R',
        's' => 'S',
        't' => 'T',
        'u' => 'U',
        'v' => 'V',
        'w' => 'W',
        'x' => 'X',
        'y' => 'Y',
        'z' => 'Z',
        _ => c,
    }
}

/// ASCII upper-casing of a whole token.
pub open spec fn spec_upper(s: Seq<char>) -> Seq<char> {
    s.map_values(|c: char| spec_upper_char(c))
}

pub fn to_upper(v: &Vec<char>) -> (r: Vec<char>)
    ensures
        r@ == spec_upper(v@),
{
    let mut r: Vec<char> = Vec::new();
    let mut i: usize = 0;
    while i < v.len()
        invariant
            i <= v.len(),
            r@ =~= spec_upper(v@.take(i as int)),
        decreases v.len() - i,
    {
        r.push(upper_char(v[i]));
        proof {
            assert(v@.take(i + 1) =~= v@.take(i as int).push(v@[i as int]));
            assert(spec_upper(v@.take(i + 1)) =~= spec_upper(v@.take(i as int)).push(
                spec_upper_char(v@[i as int]),
            ));
        }
        i += 1;
    }
    proof {
        assert(v@.take(v@.len() as int) =~= v@);
    }
    r
}

/// The characters of a string, in order.
pub fn chars_vec(s: &str) -> (r: Vec<char>)
    ensures
        r@ == s@,
{
    let n = s.unicode_len();
    let mut r: Vec<char> = Vec::new();
    let mut i: usize = 0;
    while i < n
        invariant
            i <= n,
            n == s@.len(),
            r@ =~= s@.take(i as int),
        decreases n - i,
    {
        r.push(s.get_char(i));
        proof {
            assert(s@.take(i + 1) =~= s@.take(i as int).push(s@[i as int]));
        }
        i += 1;
    }
    proof {
        assert(s@.take(n as int) =~= s@);
    }
    r
}

/// Relies on String::push: appends one character at the end.
#[verifier::external_body]
pub fn push_char(s: &mut String, c: char)
    ensures
        final(s)@ == old(s)@.push(c),
{
    s.push(c);
}

/// A freshly allocated string holding exactly the given characters.
pub fn string_of(v: &Vec<char>) -> (r: String)
    ensures
        r@ == v@,
{
    let mut r = String::new();
    let mut i: usize = 0;
    while i < v.len()
        invariant
            i <= v.len(),
            r@ =~= v@.take(i as int),
        decreases v.len() - i,
    {
        push_char(&mut r, v[i]);
        proof {
            assert(v@.take(i + 1) =~= v@.take(i as int).push(v@[i as int]));
        }
        i += 1;
    }
    proof {
        assert(v@.take(v@.len() as int) =~= v@);
    }
    r
}

/// Whether the token equals the given string, character for character.
pub fn chars_eq_str(v: &Vec<char>, s: &str) -> (r: bool)
    ensures
        r == (v@ == s@),
{
    let n = s.unicode_len();
    if v.len() != n {
        proof {
            assert(v@ != s@) by {
                assert(v@.len() != s@.len());
            }
        }
        return false;
    }
    let mut i: usize = 0;
    while i < n
        invariant
            i <= n,
            n == s@.len(),
            n == v@.len(),
            forall|j: int| 0 <= j < i ==> v@[j] == s@[j],
        decreases n - i,
    {
        if v[i] != s.get_char(i) {
            proof {
                assert(v@ != s@) by {
                    assert(v@[i as int] != s@[i as int]);
                }
            }
            return false;
        }
        i += 1;
    }
    proof {
        assert(v@ =~= s@);
    }
    true
}

/// Whether two strings are equal, character for character.
pub fn str_eq(a: &str, b: &str) -> (r: bool)
    ensures
        r == (a@ == b@),
{
    let av = chars_vec(a);
    chars_eq_str(&av, b)
}

/// The token without its leading whitespace.
pub open spec fn spec_trim_start(s: Seq<char>) -> Seq<char>
    decreases s.len(),
{
    if s.len() > 0 && spec_is_space(s[0]) {
        spec_trim_start(s.drop_first())
    } else {
        s
    }
}

/// The token without its trailing whitespace.
pub open spec fn spec_trim_end(s: Seq<char>) -> Seq<char>
    decreases s.len(),
{
    if s.len() > 0 && spec_is_space(s[s.len() - 1]) {
        spec_trim_end(s.drop_last())
    } else {
        s
    }
}

/// The token without leading and trailing whitespace, as `str::trim` gives it.
pub open spec fn spec_trim(s: Seq<char>) -> Seq<char> {
    spec_trim_end(spec_trim_start(s))
}

proof fn lemma_trim_start_skip(s: Seq<char>, i: int)
    requires
        0 <= i <= s.len(),
        forall|j: int| 0 <= j < i ==> spec_is_space(s[j]),
    ensures
        spec_trim_start(s) == spec_trim_start(s.skip(i)),
    decreases i,
{
    if i > 0 {
        assert(spec_trim_start(s) == spec_trim_start(s.drop_first()));
        assert(s.drop_first().skip(i - 1) =~= s.skip(i));
        lemma_trim_start_skip(s.drop_first(), i - 1);
    } else {
        assert(s.skip(0) =~= s);
    }
}

proof fn lemma_trim_end_take(s: Seq<char>, i: int)
    requires
        0 <= i <= s.len(),
        forall|j: int| i <= j < s.len() ==> spec_is_space(s[j]),
    ensures
        spec_trim_end(s) == spec_trim_end(s.take(i)),
    decreases s.len() - i,
{
    if i < s.len() {
        assert(spec_is_space(s[s.len() - 1]));
        assert(spec_trim_end(s) == spec_trim_end(s.drop_last()));
        assert(s.drop_last() =~= s.take(s.len() - 1));
        lemma_trim_end_take(s.take(s.len() - 1), i);
        assert(s.take(s.len() - 1).take(i) =~= s.take(i));
    } else {
        assert(s.take(i) =~= s);
    }
}

/// The token with surrounding whitespace removed.
pub fn trim(v: &Vec<char>) -> (r: Vec<char>)
    ensures
        r@ == spec_trim(v@),
{
    let n = v.len();
    let mut a: usize = 0;
    while a < n && is_space(v[a])
        invariant
            a <= n,
            n == v@.len(),
            forall|j: int| 0 <= j < a ==> spec_is_space(v@[j]),
        decreases n - a,
    {
        a += 1;
    }
    proof {
        lemma_trim_start_skip(v@, a as int);
        if a < n {
            assert(!spec_is_space(v@.skip(a as int)[0]));
        }
        assert(spec_trim_start(v@.skip(a as int)) == v@.skip(a as int));
    }
    // v@.skip(a) is the start-trimmed token; now drop its trailing spaces.
    let mut b: usize = n;
    while b > a && is_space(v[b - 1])
        invariant
            a <= b <= n,
            n == v@.len(),
            forall|j: int| b <= j < n ==> spec_is_space(v@[j]),
        decreases b,
    {
        b -= 1;
    }
    proof {
        let st = v@.skip(a as int);
        lemma_trim_end_take(st, b - a);
        if b > a {
            assert(st.take(b - a)[b - a - 1] == v@[b as int - 1]);
            assert(!spec_is_space(st.take(b - a)[b - a - 1]));
        }
        assert(spec_trim_end(st.take(b - a)) == st.take(b - a));
        assert(spec_trim(v@) == st.take(b - a));
    }
    let mut r: Vec<char> = Vec::new();
    let mut i: usize = a;
    while i < b
        invariant
            a <= i <= b <= n,
            n == v@.len(),
            r@ =~= v@.subrange(a as int, i as int),
        decreases b - i,
    {
        r.push(v[i]);
        proof {
            assert(v@.subrange(a as int, i + 1) =~= v@.subrange(a as int, i as int).push(
                v@[i as int],
            ));
        }
        i += 1;
    }
    proof {
        assert(v@.subrange(a as int, b as int) =~= v@.skip(a as int).take(b - a));
    }
    r
}

/// The segments between occurrences of `sep`, as `str::split(sep)` yields
/// them: `n` separators give `n + 1` tokens, empty ones included.
pub open spec fn spec_split_sep(s: Seq<char>, sep: char) -> Seq<Seq<char>>
    decreases s.len(),
{
    if s.len() == 0 {
        seq![Seq::<char>::empty()]
    } else if s[0] == sep {
        seq![Seq::<char>::empty()] + spec_split_sep(s.drop_first(), sep)
    } else {
        let rest = spec_split_sep(s.drop_first(), sep);
        seq![seq![s[0]] + rest[0]] + rest.drop_first()
    }
}

pub proof fn lemma_split_sep_len(s: Seq<char>, sep: char)
    ensures
        spec_split_sep(s, sep).len() >= 1,
    decreases s.len(),
{
    if s.len() > 0 {
        lemma_split_sep_len(s.drop_first(), sep);
    }
}

/// Appending one character extends the last token, or opens a fresh one.
proof fn lemma_split_sep_push(s: Seq<char>, c: char, sep: char)
    ensures
        spec_split_sep(s.push(c), sep).len() >= 1,
        c == sep ==> spec_split_sep(s.push(c), sep) == spec_split_sep(s, sep).push(
            Seq::<char>::empty(),
        ),
        c != sep ==> {
            let sp = spec_split_sep(s, sep);
            spec_split_sep(s.push(c), sep) == sp.update(sp.len() - 1, sp.last().push(c))
        },
    decreases s.len(),
{
    reveal_with_fuel(spec_split_sep, 2);
    lemma_split_sep_len(s.push(c), sep);
    lemma_split_sep_len(s, sep);
    if s.len() == 0 {
        assert(s.push(c).drop_first() =~= Seq::<char>::empty());
        if c == sep {
            assert(spec_split_sep(s.push(c), sep) =~~= spec_split_sep(s, sep).push(
                Seq::<char>::empty(),
            ));
        } else {
            let sp = spec_split_sep(s, sep);
            assert(spec_split_sep(s.push(c), sep) =~~= sp.update(sp.len() - 1, sp.last().push(c)));
        }
    } else {
        lemma_split_sep_push(s.drop_first(), c, sep);
        lemma_split_sep_len(s.drop_first(), sep);
        assert(s.push(c).drop_first() =~= s.drop_first().push(c));
        let sp = spec_split_sep(s, sep);
        let spd = spec_split_sep(s.drop_first(), sep);
        let spx = spec_split_sep(s.push(c), sep);
        assert(s.push(c)[0] == s[0]);
        if c == sep {
            let x = spd.push(Seq::<char>::empty());
            assert(spec_split_sep(s.push(c).drop_first(), sep) == x);
            if s[0] == sep {
                assert(spx == seq![Seq::<char>::empty()] + x);
                assert(sp == seq![Seq::<char>::empty()] + spd);
                assert(spx =~~= sp.push(Seq::<char>::empty()));
            } else {
                assert(spx == seq![seq![s[0]] + x[0]] + x.drop_first());
                assert(x[0] == spd[0]);
                assert(spx =~~= sp.push(Seq::<char>::empty()));
            }
        } else {
            let x = spd.update(spd.len() - 1, spd.last().push(c));
            assert(spec_split_sep(s.push(c).drop_first(), sep) == x);
            assert(x.len() == spd.len());
            if s[0] == sep {
                assert(spx == seq![Seq::<char>::empty()] + x);
                assert(sp == seq![Seq::<char>::empty()] + spd);
                assert(sp.last() == spd.last());
                assert(spx =~~= sp.update(sp.len() - 1, sp.last().push(c)));
            } else {
                assert(spx == seq![seq![s[0]] + x[0]] + x.drop_first());
                assert(sp == seq![seq![s[0]] + spd[0]] + spd.drop_first());
                if spd.len() == 1 {
                    assert(x[0] == spd[0].push(c));
                    assert(sp.len() == 1);
                    assert(sp.last() == seq![s[0]] + spd[0]);
                    assert(seq![s[0]] + spd[0].push(c) =~= (seq![s[0]] + spd[0]).push(c));
                    assert(spx =~~= sp.update(sp.len() - 1, sp.last().push(c)));
                } else {
                    assert(x[0] == spd[0]);
                    assert(sp.last() == spd.last());
                    assert(spx =~~= sp.update(sp.len() - 1, sp.last().push(c)));
                }
            }
        }
    }
}

/// The `sep`-separated tokens of the input, in order.
pub fn split_sep(v: &Vec<char>, sep: char) -> (r: Vec<Vec<char>>)
    ensures
        r.deep_view() == spec_split_sep(v@, sep),
        r.len() >= 1,
{
    let mut r: Vec<Vec<char>> = Vec::new();
    let mut cur: Vec<char> = Vec::new();
    let mut i: usize = 0;
    while i < v.len()
        invariant
            i <= v.len(),
            r.deep_view().push(cur@) == spec_split_sep(v@.take(i as int), sep),
        decreases v.len() - i,
    {
        proof {
            lemma_split_sep_push(v@.take(i as int), v@[i as int], sep);
            assert(v@.take(i + 1) =~= v@.take(i as int).push(v@[i as int]));
            lemma_split_sep_len(v@.take(i as int), sep);
        }
        let c = v[i];
        if c == sep {
            r.push(cur);
            cur = Vec::new();
            proof {
                assert(r.deep_view().push(cur@) =~~= spec_split_sep(v@.take(i + 1), sep));
            }
        } else {
            cur.push(c);
            proof {
                let sp = spec_split_sep(v@.take(i as int), sep);
                assert(r.deep_view().push(cur@) =~~= sp.update(sp.len() - 1, sp.last().push(c)));
            }
        }
        i += 1;
    }
    proof {
        assert(v@.take(v@.len() as int) =~= v@);
    }
    let ghost prev = r.deep_view();
    let ghost prev_cur = cur@;
    r.push(cur);
    proof {
        assert(r.deep_view() =~~= prev.push(prev_cur));
        lemma_split_sep_len(v@, sep);
    }
    r
}

/// Splitting on `'+'`, as the hotkey grammar does.
pub open spec fn spec_split_plus(s: Seq<char>) -> Seq<Seq<char>> {
    spec_split_sep(s, '+')
}

pub proof fn lemma_split_plus_len(s: Seq<char>)
    ensures
        spec_split_plus(s).len() >= 1,
{
    lemma_split_sep_len(s, '+');
}

pub fn split_plus(v: &Vec<char>) -> (r: Vec<Vec<char>>)
    ensures
        r.deep_view() == spec_split_plus(v@),
        r.len() >= 1,
{
    split_sep(v, '+')
}

/// A token without `'+'` or whitespace in it, and not empty: splitting
/// leaves it whole and trimming leaves it unchanged.
pub open spec fn plain_token(t: Seq<char>) -> bool {
    t.len() > 0 && forall|i: int|
        0 <= i < t.len() ==> t[i] != '+' && !spec_is_space(t[i])
}

/// Trimming a token without surrounding whitespace changes nothing.
pub proof fn lemma_trim_plain(t: Seq<char>)
    requires
        forall|i: int| 0 <= i < t.len() ==> !spec_is_space(t[i]),
    ensures
        spec_trim(t) == t,
{
    assert(spec_trim_start(t) == t);
    assert(spec_trim_end(t) == t);
}

/// A string without the separator splits into itself alone.
pub proof fn lemma_split_sep_none(s: Seq<char>, sep: char)
    requires
        forall|i: int| 0 <= i < s.len() ==> s[i] != sep,
    ensures
        spec_split_sep(s, sep) == seq![s],
    decreases s.len(),
{
    if s.len() == 0 {
        assert(spec_split_sep(s, sep) =~~= seq![s]);
    } else {
        lemma_split_sep_none(s.drop_first(), sep);
        assert(seq![s[0]] + s.drop_first() =~= s);
        assert(spec_split_sep(s, sep) =~~= seq![s]);
    }
}

/// A string without `'+'` splits into itself alone.
pub proof fn lemma_split_no_plus(s: Seq<char>)
    requires
        forall|i: int| 0 <= i < s.len() ==> s[i] != '+',
    ensures
        spec_split_plus(s) == seq![s],
{
    lemma_split_sep_none(s, '+');
}

/// Splitting `a + '+' + b` where `a` holds no `'+'` yields `a` followed by
/// the split of `b`.
pub proof fn lemma_split_prefix(a: Seq<char>, b: Seq<char>)
    requires
        forall|i: int| 0 <= i < a.len() ==> a[i] != '+',
    ensures
        spec_split_plus(a + seq!['+'] + b) == seq![a] + spec_split_plus(b),
    decreases a.len(),
{
    lemma_split_plus_len(b);
    let s = a + seq!['+'] + b;
    if a.len() == 0 {
        assert(s[0] == '+');
        assert(s.drop_first() =~= b);
        assert(spec_split_plus(s) =~~= seq![a] + spec_split_plus(b));
    } else {
        assert(s[0] == a[0]);
        assert(s.drop_first() =~= a.drop_first() + seq!['+'] + b);
        lemma_split_prefix(a.drop_first(), b);
        let rest = spec_split_plus(s.drop_first());
        assert(rest == seq![a.drop_first()] + spec_split_plus(b));
        assert(rest[0] == a.drop_first());
        assert(seq![a[0]] + a.drop_first() =~= a);
        assert(rest.drop_first() =~= spec_split_plus(b));
        assert(spec_split_plus(s) =~~= seq![a] + spec_split_plus(b));
    }
}

} // verus!
