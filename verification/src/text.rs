//! Character-level helpers shared by the parsers and the stylesheet builders:
//! whitespace trimming and splitting, prefix tests, joining and decimal
//! rendering. Every text is modelled as its sequence of characters.

use vstd::prelude::*;

verus! {

/// Whether `c` carries the Unicode property `White_Space`.
pub open spec fn is_space(c: char) -> bool {
    let n = c as u32;
    ||| 0x09 <= n <= 0x0D
    ||| n == 0x20
    ||| n == 0x85
    ||| n == 0xA0
    ||| n == 0x1680
    ||| 0x2000 <= n <= 0x200A
    ||| n == 0x2028
    ||| n == 0x2029
    ||| n == 0x202F
    ||| n == 0x205F
    ||| n == 0x3000
}

/// Index of the first character at or after `i` that is not whitespace, or
/// the length of `s` when there is none.
pub open spec fn trim_start(s: Seq<char>, i: int) -> int
    decreases s.len() - i,
{
    if 0 <= i < s.len() && is_space(s[i]) {
        trim_start(s, i + 1)
    } else {
        i
    }
}

/// End of the text that remains when the whitespace directly before index
/// `j` is cut off.
pub open spec fn trim_end(s: Seq<char>, j: int) -> int
    decreases j,
{
    if 0 < j <= s.len() && is_space(s[j - 1]) {
        trim_end(s, j - 1)
    } else {
        j
    }
}

/// `s` without its leading and trailing whitespace.
pub open spec fn trimmed(s: Seq<char>) -> Seq<char> {
    let a = trim_start(s, 0);
    let b = trim_end(s, s.len() as int);
    if a < b {
        s.subrange(a, b)
    } else {
        Seq::empty()
    }
}

/// Number of consecutive characters from index `i` on that are not
/// whitespace.
pub open spec fn word_len(s: Seq<char>, i: int) -> nat
    decreases s.len() - i,
{
    if 0 <= i < s.len() && !is_space(s[i]) {
        1 + word_len(s, i + 1)
    } else {
        0
    }
}

/// The maximal whitespace-free runs of `s` that start at or after index `i`,
/// in order.
pub open spec fn words_from(s: Seq<char>, i: int) -> Seq<Seq<char>>
    decreases s.len() - i,
    via words_from_decreases
{
    if i < 0 || i >= s.len() {
        Seq::empty()
    } else if is_space(s[i]) {
        words_from(s, i + 1)
    } else {
        let n = 1 + word_len(s, i + 1);
        seq![s.subrange(i, i + n)] + words_from(s, i + n)
    }
}

#[via_fn]
proof fn words_from_decreases(s: Seq<char>, i: int) {
    if 0 <= i < s.len() && !is_space(s[i]) {
        lemma_word_len_stops(s, i + 1);
    }
}

/// The whitespace-separated words of `s`, in order; none of them is empty.
pub open spec fn words(s: Seq<char>) -> Seq<Seq<char>> {
    words_from(s, 0)
}

/// The texts held by a sequence of strings.
pub open spec fn views(v: Seq<String>) -> Seq<Seq<char>> {
    Seq::new(v.len(), |i: int| v[i]@)
}

/// The members of `parts` in order, with `sep` between neighbours.
pub open spec fn joined(parts: Seq<Seq<char>>, sep: Seq<char>) -> Seq<char>
    decreases parts.len(),
{
    if parts.len() == 0 {
        Seq::empty()
    } else if parts.len() == 1 {
        parts[0]
    } else {
        joined(parts.drop_last(), sep) + sep + parts.last()
    }
}

/// The character that writes the decimal digit `d`.
pub open spec fn digit_char(d: int) -> char {
    if d == 0 {
        '0'
    } else if d == 1 {
        '1'
    } else if d == 2 {
        '2'
    } else if d == 3 {
        '3'
    } else if d == 4 {
        '4'
    } else if d == 5 {
        '5'
    } else if d == 6 {
        '6'
    } else if d == 7 {
        '7'
    } else if d == 8 {
        '8'
    } else {
        '9'
    }
}

/// `n` written in base ten without leading zeros.
pub open spec fn decimal(n: nat) -> Seq<char>
    decreases n,
{
    if n < 10 {
        seq![digit_char(n as int)]
    } else {
        decimal(n / 10) + seq![digit_char((n % 10) as int)]
    }
}

/// `trim_start` stops at the first character from `i` on that is not
/// whitespace, and at the end of the text where there is none.
pub proof fn lemma_trim_start_stops(s: Seq<char>, i: int)
    requires
        0 <= i <= s.len(),
    ensures
        i <= trim_start(s, i) <= s.len(),
        forall|k: int| i <= k < trim_start(s, i) ==> is_space(s[k]),
        trim_start(s, i) < s.len() ==> !is_space(s[trim_start(s, i)]),
    decreases s.len() - i,
{
    if i < s.len() && is_space(s[i]) {
        lemma_trim_start_stops(s, i + 1);
    }
}

/// `trim_end` stops behind the last character before `j` that is not
/// whitespace, and at the start of the text where there is none.
pub proof fn lemma_trim_end_stops(s: Seq<char>, j: int)
    requires
        0 <= j <= s.len(),
    ensures
        0 <= trim_end(s, j) <= j,
        forall|k: int| trim_end(s, j) <= k < j ==> is_space(s[k]),
        trim_end(s, j) > 0 ==> !is_space(s[trim_end(s, j) - 1]),
    decreases j,
{
    if 0 < j && is_space(s[j - 1]) {
        lemma_trim_end_stops(s, j - 1);
    }
}

/// A trimmed text neither begins nor ends with whitespace, and trimming it
/// again changes nothing.
pub proof fn lemma_trimmed_is_tight(s: Seq<char>)
    ensures
        trimmed(s).len() > 0 ==> !is_space(trimmed(s).first()) && !is_space(trimmed(s).last()),
        trimmed(trimmed(s)) == trimmed(s),
{
    lemma_trim_start_stops(s, 0);
    lemma_trim_end_stops(s, s.len() as int);
    let t = trimmed(s);
    if t.len() > 0 {
        assert(t.first() == s[trim_start(s, 0)]);
        assert(t.last() == s[trim_end(s, s.len() as int) - 1]);
        assert(trim_start(t, 0) == 0);
        assert(trim_end(t, t.len() as int) == t.len());
        assert(t.subrange(0, t.len() as int) =~= t);
    } else {
        assert(trim_start(t, 0) == 0);
    }
}

/// A word ends at whitespace or at the end of the text, and holds no
/// whitespace.
pub proof fn lemma_word_len_stops(s: Seq<char>, i: int)
    requires
        0 <= i <= s.len(),
    ensures
        i + word_len(s, i) <= s.len(),
        forall|k: int| i <= k < i + word_len(s, i) ==> !is_space(s[k]),
        i + word_len(s, i) < s.len() ==> is_space(s[i + word_len(s, i)]),
    decreases s.len() - i,
{
    if i < s.len() && !is_space(s[i]) {
        lemma_word_len_stops(s, i + 1);
    }
}

/// Whether `w` is a word: not empty and free of whitespace.
pub open spec fn is_word(w: Seq<char>) -> bool {
    w.len() > 0 && forall|k: int| 0 <= k < w.len() ==> !is_space(#[trigger] w[k])
}

/// Splitting yields words only: none is empty and none holds whitespace.
pub proof fn lemma_words_hold_no_space(s: Seq<char>, i: int)
    requires
        0 <= i <= s.len(),
    ensures
        forall|j: int| 0 <= j < words_from(s, i).len() ==> is_word(#[trigger] words_from(s, i)[j]),
    decreases s.len() - i,
{
    if i < s.len() {
        if is_space(s[i]) {
            lemma_words_hold_no_space(s, i + 1);
            assert(words_from(s, i) == words_from(s, i + 1));
        } else {
            let n = 1 + word_len(s, i + 1);
            lemma_word_len_stops(s, i + 1);
            lemma_words_hold_no_space(s, i + n);
            let first = s.subrange(i, i + n);
            let rest = words_from(s, i + n);
            assert(words_from(s, i) == seq![first] + rest);
            assert(is_word(first)) by {
                assert forall|k: int| 0 <= k < first.len() implies !is_space(
                    #[trigger] first[k],
                ) by {
                    assert(first[k] == s[i + k]);
                }
            }
            assert forall|j: int| 0 <= j < words_from(s, i).len() implies is_word(
                #[trigger] words_from(s, i)[j],
            ) by {
                if j == 0 {
                    assert(words_from(s, i)[0] == first);
                } else {
                    assert(words_from(s, i)[j] == rest[j - 1]);
                }
            }
        }
    }
}

/// Tests a character for the Unicode property `White_Space`.
pub fn char_is_space(c: char) -> (b: bool)
    ensures
        b == is_space(c),
{
    let n: u32 = c as u32;
    (0x09 <= n && n <= 0x0D) || n == 0x20 || n == 0x85 || n == 0xA0 || n == 0x1680 || (0x2000 <= n
        && n <= 0x200A) || n == 0x2028 || n == 0x2029 || n == 0x202F || n == 0x205F || n == 0x3000
}

/// Returns `s` without its leading and trailing whitespace.
pub fn trim(s: &str) -> (t: &str)
    ensures
        t@ == trimmed(s@),
{
    let n: usize = s.unicode_len();
    let mut a: usize = 0;
    while a < n && char_is_space(s.get_char(a))
        invariant
            a <= n,
            n == s@.len(),
            trim_start(s@, 0) == trim_start(s@, a as int),
        decreases n - a,
    {
        a += 1;
    }
    let mut b: usize = n;
    while b > a && char_is_space(s.get_char(b - 1))
        invariant
            a <= b <= n,
            n == s@.len(),
            trim_end(s@, n as int) == trim_end(s@, b as int),
        decreases b,
    {
        b -= 1;
    }
    proof {
        lemma_trim_end_stops(s@, b as int);
        assert(s@.subrange(a as int, a as int) =~= Seq::<char>::empty());
    }
    s.substring_char(a, b)
}

/// Splits `s` at whitespace into its words.
pub fn split_whitespace(s: &str) -> (tokens: Vec<String>)
    ensures
        views(tokens@) == words(s@),
{
    let n: usize = s.unicode_len();
    let mut tokens: Vec<String> = Vec::new();
    let mut i: usize = 0;
    proof {
        assert(views(tokens@) + words_from(s@, 0) =~= words(s@));
    }
    while i < n
        invariant
            i <= n,
            n == s@.len(),
            views(tokens@) + words_from(s@, i as int) == words(s@),
        decreases n - i,
    {
        if char_is_space(s.get_char(i)) {
            i += 1;
        } else {
            let mut e: usize = i + 1;
            while e < n && !char_is_space(s.get_char(e))
                invariant
                    i < e <= n,
                    n == s@.len(),
                    word_len(s@, i + 1) == (e - i - 1) + word_len(s@, e as int),
                decreases n - e,
            {
                e += 1;
            }
            let word = String::from_str(s.substring_char(i, e));
            proof {
                assert(views(tokens@.push(word)) =~= views(tokens@) + seq![word@]);
                assert(views(tokens@) + (seq![word@] + words_from(s@, e as int)) =~= views(
                    tokens@,
                ) + seq![word@] + words_from(s@, e as int));
            }
            tokens.push(word);
            i = e;
        }
    }
    proof {
        assert(views(tokens@) + Seq::<Seq<char>>::empty() =~= views(tokens@));
    }
    tokens
}

/// Tests whether `s` begins with `prefix`.
pub fn starts_with(s: &str, prefix: &str) -> (b: bool)
    ensures
        b == prefix@.is_prefix_of(s@),
{
    let n: usize = s.unicode_len();
    let m: usize = prefix.unicode_len();
    if m > n {
        return false;
    }
    let mut i: usize = 0;
    while i < m
        invariant
            i <= m <= n,
            n == s@.len(),
            m == prefix@.len(),
            forall|k: int| 0 <= k < i ==> s@[k] == prefix@[k],
        decreases m - i,
    {
        if s.get_char(i) != prefix.get_char(i) {
            proof {
                assert(s@.subrange(0, m as int)[i as int] != prefix@[i as int]);
            }
            return false;
        }
        i += 1;
    }
    true
}

/// Tests whether two texts hold the same characters.
pub fn same_text(a: &str, b: &str) -> (eq: bool)
    ensures
        eq == (a@ == b@),
{
    if a.unicode_len() != b.unicode_len() {
        return false;
    }
    let eq = starts_with(a, b);
    proof {
        assert(a@.subrange(0, a@.len() as int) =~= a@);
    }
    eq
}

/// Concatenates the members of `parts` from index `from` up to, but not
/// including, index `to`, putting `sep` between neighbours.
pub fn join_range(parts: &Vec<String>, from: usize, to: usize, sep: &str) -> (out: String)
    requires
        from <= to <= parts.len(),
    ensures
        out@ == joined(views(parts@).subrange(from as int, to as int), sep@),
{
    let mut out = String::new();
    let mut k: usize = from;
    while k < to
        invariant
            from <= k <= to <= parts.len(),
            out@ == joined(views(parts@).subrange(from as int, k as int), sep@),
        decreases to - k,
    {
        proof {
            let next = views(parts@).subrange(from as int, k + 1);
            assert(next.drop_last() =~= views(parts@).subrange(from as int, k as int));
            assert(next.last() == parts@[k as int]@);
            assert(Seq::<char>::empty() + parts@[k as int]@ =~= parts@[k as int]@);
        }
        if k > from {
            out.append(sep);
        }
        out.append(parts[k].as_str());
        k += 1;
    }
    out
}

/// Concatenates `parts`, putting `sep` between neighbours.
pub fn join(parts: &Vec<String>, sep: &str) -> (out: String)
    ensures
        out@ == joined(views(parts@), sep@),
{
    proof {
        assert(views(parts@).subrange(0, parts.len() as int) =~= views(parts@));
    }
    join_range(parts, 0, parts.len(), sep)
}

/// The one-character text of a decimal digit.
fn digit_str(d: u32) -> (s: &'static str)
    requires
        d < 10,
    ensures
        s@ == seq![digit_char(d as int)],
{
    proof {
        reveal_strlit("0");
        reveal_strlit("1");
        reveal_strlit("2");
        reveal_strlit("3");
        reveal_strlit("4");
        reveal_strlit("5");
        reveal_strlit("6");
        reveal_strlit("7");
        reveal_strlit("8");
        reveal_strlit("9");
    }
    let s = if d == 0 {
        "0"
    } else if d == 1 {
        "1"
    } else if d == 2 {
        "2"
    } else if d == 3 {
        "3"
    } else if d == 4 {
        "4"
    } else if d == 5 {
        "5"
    } else if d == 6 {
        "6"
    } else if d == 7 {
        "7"
    } else if d == 8 {
        "8"
    } else {
        "9"
    };
    assert(s@ =~= seq![digit_char(d as int)]);
    s
}

/// Writes `n` in base ten without leading zeros.
pub fn decimal_string(n: u32) -> (s: String)
    ensures
        s@ == decimal(n as nat),
    decreases n,
{
    if n < 10 {
        String::from_str(digit_str(n))
    } else {
        let mut s = decimal_string(n / 10);
        s.append(digit_str(n % 10));
        s
    }
}

} // verus!
