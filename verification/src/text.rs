use vstd::prelude::*;

verus! {

/// Unicode `White_Space` characters, the set that `char::is_whitespace` tests.
pub open spec fn is_whitespace_spec(c: char) -> bool {
    let n = c as u32;
    ||| 0x9 <= n <= 0xd
    ||| n == 0x20
    ||| n == 0x85
    ||| n == 0xa0
    ||| n == 0x1680
    ||| 0x2000 <= n <= 0x200a
    ||| n == 0x2028
    ||| n == 0x2029
    ||| n == 0x202f
    ||| n == 0x205f
    ||| n == 0x3000
}

/// Tests a character against the Unicode `White_Space` set.
pub fn is_whitespace(c: char) -> (r: bool)
    ensures
        r == is_whitespace_spec(c),
{
    let n = c as u32;
    (0x9 <= n && n <= 0xd) || n == 0x20 || n == 0x85 || n == 0xa0 || n == 0x1680 || (0x2000 <= n
        && n <= 0x200a) || n == 0x2028 || n == 0x2029 || n == 0x202f || n == 0x205f || n == 0x3000
}

/// Whether `c` is an ASCII decimal digit.
pub open spec fn is_digit_spec(c: char) -> bool {
    '0' <= c <= '9'
}

pub fn is_digit(c: char) -> (r: bool)
    ensures
        r == is_digit_spec(c),
{
    let n = c as u32;
    0x30 <= n && n <= 0x39
}

/// The views of a sequence of string slices.
pub open spec fn str_views<'a>(v: Seq<&'a str>) -> Seq<Seq<char>> {
    v.map_values(|t: &'a str| t@)
}

/// The whitespace-separated words of `s`, in order: its maximal runs of
/// characters that are not whitespace. Defined by the last character: a
/// whitespace character ends nothing new, a non-whitespace character after a
/// non-whitespace one extends the last word, and any other starts a new word.
pub open spec fn words(s: Seq<char>) -> Seq<Seq<char>>
    decreases s.len(),
{
    if s.len() == 0 {
        seq![]
    } else {
        let w = words(s.drop_last());
        let c = s.last();
        if is_whitespace_spec(c) {
            w
        } else if s.len() >= 2 && !is_whitespace_spec(s[s.len() - 2]) {
            w.update(w.len() - 1, w.last().push(c))
        } else {
            w.push(seq![c])
        }
    }
}

proof fn lemma_str_views_push<'a>(v: Seq<&'a str>, t: &'a str)
    ensures
        str_views(v.push(t)) == str_views(v).push(t@),
{
    assert(str_views(v.push(t)) =~= str_views(v).push(t@));
}

/// A string has no words exactly when every character of it is whitespace.
pub proof fn lemma_words_empty_iff_all_whitespace(s: Seq<char>)
    ensures
        words(s).len() == 0 <==> forall|i: int| 0 <= i < s.len() ==> is_whitespace_spec(#[trigger] s[i]),
    decreases s.len(),
{
    if s.len() > 0 {
        let t = s.drop_last();
        lemma_words_empty_iff_all_whitespace(t);
        lemma_words_nonempty_after_word_char(s);
        if forall|i: int| 0 <= i < s.len() ==> is_whitespace_spec(#[trigger] s[i]) {
            assert forall|i: int| 0 <= i < t.len() implies is_whitespace_spec(#[trigger] t[i]) by {
                assert(t[i] == s[i]);
            }
        } else {
            let i = choose|i: int| 0 <= i < s.len() && !is_whitespace_spec(#[trigger] s[i]);
            if i < s.len() - 1 {
                assert(t[i] == s[i]);
            }
        }
    }
}

/// Every word is non-empty and holds no whitespace.
pub proof fn lemma_words_nonempty_entries(s: Seq<char>, i: int)
    requires
        0 <= i < words(s).len(),
    ensures
        words(s)[i].len() > 0,
        forall|k: int| 0 <= k < words(s)[i].len() ==> !is_whitespace_spec(#[trigger] words(s)[i][k]),
    decreases s.len(),
{
    let t = s.drop_last();
    let w = words(t);
    let c = s.last();
    if is_whitespace_spec(c) {
        lemma_words_nonempty_entries(t, i);
    } else if s.len() >= 2 && !is_whitespace_spec(s[s.len() - 2]) {
        lemma_words_nonempty_after_word_char(s);
        assert(t.last() == s[s.len() - 2]);
        lemma_words_nonempty_after_word_char(t);
        lemma_words_nonempty_entries(t, i);
        if i == w.len() - 1 {
            let old_word = w.last();
            let new_word = old_word.push(c);
            assert(words(s)[i] == new_word);
            assert forall|k: int| 0 <= k < new_word.len() implies !is_whitespace_spec(#[trigger] new_word[k]) by {
                if k < old_word.len() {
                    assert(new_word[k] == w[i][k]);
                }
            }
        }
    } else {
        if i < w.len() {
            lemma_words_nonempty_entries(t, i);
        }
    }
}

/// A string whose last character is not whitespace has at least one word.
proof fn lemma_words_nonempty_after_word_char(s: Seq<char>)
    requires
        s.len() > 0,
    ensures
        !is_whitespace_spec(s.last()) ==> words(s).len() > 0,
        words(s).len() >= words(s.drop_last()).len(),
    decreases s.len(),
{
    if s.len() >= 2 {
        let t = s.drop_last();
        lemma_words_nonempty_after_word_char(t);
        assert(t.last() == s[s.len() - 2]);
    }
}

/// Splits `s` into its whitespace-separated words, in order, as `str::split_whitespace`
/// does.
pub fn split_whitespace<'a>(s: &'a str) -> (r: Vec<&'a str>)
    ensures
        str_views(r@) == words(s@),
{
    let n = s.unicode_len();
    let mut out: Vec<&'a str> = Vec::new();
    let mut start: usize = 0;
    let mut in_word = false;
    let mut i: usize = 0;
    assert(s@.take(0) =~= Seq::<char>::empty());
    while i < n
        invariant
            n == s@.len(),
            start <= i <= n,
            in_word ==> start < i && !is_whitespace_spec(s@[i - 1]) && words(s@.take(i as int))
                == str_views(out@).push(s@.subrange(start as int, i as int)),
            !in_word ==> words(s@.take(i as int)) == str_views(out@) && (i > 0
                ==> is_whitespace_spec(s@[i - 1])),
        decreases n - i,
    {
        let c = s.get_char(i);
        let ghost pre = s@.take(i as int);
        let ghost post = s@.take(i + 1);
        assert(post.drop_last() =~= pre);
        assert(post.last() == c);
        if i > 0 {
            assert(post[post.len() - 2] == s@[i - 1]);
        }
        if is_whitespace(c) {
            if in_word {
                let t = s.substring_char(start, i);
                proof {
                    lemma_str_views_push(out@, t);
                }
                out.push(t);
                in_word = false;
            }
        } else {
            if in_word {
                assert(s@.subrange(start as int, i as int).push(c) =~= s@.subrange(
                    start as int,
                    i + 1,
                ));
            } else {
                start = i;
                assert(s@.subrange(start as int, i + 1) =~= seq![c]);
                in_word = true;
            }
        }
        i = i + 1;
    }
    assert(s@.take(n as int) =~= s@);
    if in_word {
        let t = s.substring_char(start, n);
        proof {
            lemma_str_views_push(out@, t);
        }
        out.push(t);
    }
    out
}

} // verus!

verus! {

/// Whether two strings hold the same characters.
pub fn str_eq(a: &str, b: &str) -> (r: bool)
    ensures
        r == (a@ == b@),
{
    let n = a.unicode_len();
    if n != b.unicode_len() {
        return false;
    }
    let mut i: usize = 0;
    while i < n
        invariant
            n == a@.len(),
            n == b@.len(),
            i <= n,
            forall|k: int| 0 <= k < i ==> a@[k] == b@[k],
        decreases n - i,
    {
        if a.get_char(i) != b.get_char(i) {
            return false;
        }
        i = i + 1;
    }
    assert(a@ =~= b@);
    true
}

} // verus!

verus! {

/// `needle` occurs in `hay` at some position.
pub open spec fn contains_seq(hay: Seq<char>, needle: Seq<char>) -> bool {
    exists|i: int|
        0 <= i && i + needle.len() <= hay.len() && #[trigger] hay.subrange(i, i + needle.len()) == needle
}

/// Whether `needle` occurs in `hay`, as `str::contains` finds it.
pub fn str_contains(hay: &str, needle: &str) -> (r: bool)
    ensures
        r == contains_seq(hay@, needle@),
{
    let h = hay.unicode_len();
    let n = needle.unicode_len();
    if n > h {
        assert forall|i: int| 0 <= i && i + needle@.len() <= hay@.len() implies #[trigger] hay@.subrange(
            i,
            i + needle@.len(),
        ) != needle@ by {}
        return false;
    }
    let mut i: usize = 0;
    while i <= h - n
        invariant
            h == hay@.len(),
            n == needle@.len(),
            n <= h,
            i <= h - n + 1,
            forall|p: int| 0 <= p < i ==> #[trigger] hay@.subrange(p, p + n) != needle@,
        decreases h - n + 1 - i,
    {
        let mut k: usize = 0;
        let mut same = true;
        while k < n
            invariant
                h == hay@.len(),
                n == needle@.len(),
                i + n <= h,
                k <= n,
                same == forall|q: int| 0 <= q < k ==> hay@[i + q] == needle@[q],
            decreases n - k,
        {
            if hay.get_char(i + k) != needle.get_char(k) {
                same = false;
            }
            k = k + 1;
        }
        if same {
            assert(hay@.subrange(i as int, i + n) =~= needle@);
            return true;
        }
        assert(hay@.subrange(i as int, i + n) != needle@) by {
            let q = choose|q: int| 0 <= q < n && hay@[i + q] != needle@[q];
            assert(hay@.subrange(i as int, i + n)[q] == hay@[i + q]);
        }
        i = i + 1;
    }
    false
}

} // verus!

verus! {

/// A string contains whatever stands anywhere inside it.
pub proof fn lemma_contains_inside(a: Seq<char>, n: Seq<char>, b: Seq<char>)
    ensures
        contains_seq(a + n + b, n),
{
    let h = a + n + b;
    assert(h.subrange(a.len() as int, (a.len() + n.len()) as int) =~= n);
}

} // verus!
