//! Character-level text helpers: whitespace trimming, line cleanup and
//! decimal rendering, all specified over sequences of characters.

use vstd::prelude::*;
use vstd::string::StrSliceExecFns;

verus! {

/// The White_Space property: the characters that the standard library's
/// whitespace test accepts, as its documentation lists them.
pub open spec fn is_wspace(c: char) -> bool {
    let n = c as u32;
    ||| n == 0x20
    ||| (0x09 <= n && n <= 0x0D)
    ||| n == 0x85
    ||| n == 0xA0
    ||| n == 0x1680
    ||| (0x2000 <= n && n <= 0x200A)
    ||| n == 0x2028
    ||| n == 0x2029
    ||| n == 0x202F
    ||| n == 0x205F
    ||| n == 0x3000
}

pub fn is_whitespace_char(c: char) -> (r: bool)
    ensures
        r == is_wspace(c),
{
    let n = c as u32;
    n == 0x20 || (0x09 <= n && n <= 0x0D) || n == 0x85 || n == 0xA0 || n == 0x1680 || (0x2000 <= n
        && n <= 0x200A) || n == 0x2028 || n == 0x2029 || n == 0x202F || n == 0x205F || n == 0x3000
}

/// The sequence with its leading whitespace removed.
pub open spec fn trim_start_spec(s: Seq<char>) -> Seq<char>
    decreases s.len(),
{
    if s.len() == 0 {
        s
    } else if is_wspace(s[0]) {
        trim_start_spec(s.drop_first())
    } else {
        s
    }
}

/// The sequence with its trailing whitespace removed.
pub open spec fn trim_end_spec(s: Seq<char>) -> Seq<char>
    decreases s.len(),
{
    if s.len() == 0 {
        s
    } else if is_wspace(s[s.len() - 1]) {
        trim_end_spec(s.drop_last())
    } else {
        s
    }
}

/// The sequence with whitespace removed from both ends.
pub open spec fn trim_spec(s: Seq<char>) -> Seq<char> {
    trim_end_spec(trim_start_spec(s))
}

proof fn lemma_trim_start_at(s: Seq<char>, k: int)
    requires
        0 <= k <= s.len(),
        forall|j: int| 0 <= j < k ==> is_wspace(s[j]),
        k < s.len() ==> !is_wspace(s[k]),
    ensures
        trim_start_spec(s) == s.subrange(k, s.len() as int),
    decreases k,
{
    if k == 0 {
        if s.len() == 0 {
            assert(s.subrange(0, 0) =~= s);
        } else {
            assert(s.subrange(0, s.len() as int) =~= s);
        }
    } else {
        assert(is_wspace(s[0]));
        let t = s.drop_first();
        assert(forall|j: int| 0 <= j < k - 1 ==> is_wspace(t[j]));
        lemma_trim_start_at(t, k - 1);
        assert(t.subrange(k - 1, t.len() as int) =~= s.subrange(k, s.len() as int));
    }
}

proof fn lemma_trim_end_at(s: Seq<char>, k: int)
    requires
        0 <= k <= s.len(),
        forall|j: int| k <= j < s.len() ==> is_wspace(s[j]),
        k > 0 ==> !is_wspace(s[k - 1]),
    ensures
        trim_end_spec(s) == s.subrange(0, k),
    decreases s.len() - k,
{
    if k == s.len() {
        if s.len() == 0 {
            assert(s.subrange(0, 0) =~= s);
        } else {
            assert(s.subrange(0, s.len() as int) =~= s);
        }
    } else {
        assert(is_wspace(s[s.len() - 1]));
        let t = s.drop_last();
        lemma_trim_end_at(t, k);
        assert(t.subrange(0, k) =~= s.subrange(0, k));
    }
}

/// A copy of `v[from..to]` with whitespace removed from both ends.
pub fn trimmed_subrange(v: &Vec<char>, from: usize, to: usize) -> (r: Vec<char>)
    requires
        from <= to <= v@.len(),
    ensures
        r@ == trim_spec(v@.subrange(from as int, to as int)),
{
    let ghost s = v@.subrange(from as int, to as int);
    let mut lo = from;
    while lo < to && is_whitespace_char(v[lo])
        invariant
            from <= lo <= to <= v@.len(),
            forall|j: int| from <= j < lo ==> is_wspace(v@[j]),
        decreases to - lo,
    {
        lo = lo + 1;
    }
    let mut hi = to;
    while hi > lo && is_whitespace_char(v[hi - 1])
        invariant
            from <= lo <= hi <= to <= v@.len(),
            forall|j: int| from <= j < lo ==> is_wspace(v@[j]),
            forall|j: int| hi <= j < to ==> is_wspace(v@[j]),
        decreases hi - lo,
    {
        hi = hi - 1;
    }
    proof {
        lemma_trim_start_at(s, lo - from);
        let t = s.subrange(lo - from, s.len() as int);
        lemma_trim_end_at(t, hi - lo);
        assert(t.subrange(0, hi - lo) =~= v@.subrange(lo as int, hi as int));
    }
    let mut r: Vec<char> = Vec::new();
    let mut i = lo;
    while i < hi
        invariant
            lo <= i <= hi <= v@.len(),
            r@ == v@.subrange(lo as int, i as int),
        decreases hi - i,
    {
        r.push(v[i]);
        proof {
            assert(v@.subrange(lo as int, i + 1 as int) =~= v@.subrange(lo as int, i as int).push(
                v@[i as int],
            ));
        }
        i = i + 1;
    }
    r
}

/// Index of the first newline at or after `i`, or the length if none.
pub open spec fn find_nl(s: Seq<char>, i: int) -> int
    decreases s.len() - i,
{
    if i < 0 || i >= s.len() {
        s.len() as int
    } else if s[i] == '\n' {
        i
    } else {
        find_nl(s, i + 1)
    }
}

/// The lines of `s`: the segments between newline separators.
pub open spec fn lines_spec(s: Seq<char>) -> Seq<Seq<char>>
    decreases s.len(),
{
    let k = find_nl(s, 0);
    if 0 <= k < s.len() {
        seq![s.subrange(0, k)] + lines_spec(s.subrange(k + 1, s.len() as int))
    } else {
        seq![s]
    }
}

/// Each line trimmed, with the lines that trim to nothing dropped.
pub open spec fn cleaned_words(ls: Seq<Seq<char>>) -> Seq<Seq<char>>
    decreases ls.len(),
{
    if ls.len() == 0 {
        Seq::empty()
    } else {
        let t = trim_spec(ls[0]);
        let rest = cleaned_words(ls.drop_first());
        if t.len() == 0 {
            rest
        } else {
            seq![t] + rest
        }
    }
}

/// The words joined by single spaces.
pub open spec fn join_sp(ws: Seq<Seq<char>>) -> Seq<char>
    decreases ws.len(),
{
    if ws.len() == 0 {
        Seq::empty()
    } else if ws.len() == 1 {
        ws[0]
    } else {
        ws[0] + seq![' '] + join_sp(ws.drop_first())
    }
}

/// Text cleanup: split into lines, trim each, drop empty lines, and join
/// the remainder with single spaces.
pub open spec fn cleanup_spec(s: Seq<char>) -> Seq<char> {
    join_sp(cleaned_words(lines_spec(s)))
}

/// The views of a sequence of character vectors.
pub open spec fn word_views(ws: Seq<Vec<char>>) -> Seq<Seq<char>> {
    Seq::new(ws.len(), |i: int| ws[i]@)
}

proof fn lemma_find_nl_from(s: Seq<char>, a: int, k: int)
    requires
        0 <= a <= k <= s.len(),
        forall|m: int| a <= m < k ==> s[m] != '\n',
        k < s.len() ==> s[k] == '\n',
    ensures
        find_nl(s, a) == k,
    decreases k - a,
{
    if a == k {
        if k < s.len() {
            assert(find_nl(s, a) == a);
        }
    } else {
        assert(s[a] != '\n');
        lemma_find_nl_from(s, a + 1, k);
    }
}

/// The characters of a string slice, in order.
pub fn str_to_chars(s: &str) -> (v: Vec<char>)
    ensures
        v@ == s@,
{
    let n = s.unicode_len();
    let mut v: Vec<char> = Vec::new();
    let mut i: usize = 0;
    while i < n
        invariant
            i <= n,
            n == s@.len(),
            v@ == s@.subrange(0, i as int),
        decreases n - i,
    {
        v.push(s.get_char(i));
        proof {
            assert(s@.subrange(0, (i + 1) as int) =~= s@.subrange(0, i as int).push(s@[i as int]));
        }
        i = i + 1;
    }
    proof {
        assert(s@.subrange(0, s@.len() as int) =~= s@);
    }
    v
}

/// Relies on String::push: appends exactly one character to the string.
#[verifier::external_body]
fn push_char(s: &mut String, c: char)
    ensures
        final(s)@ == old(s)@.push(c),
{
    s.push(c);
}

/// A string holding exactly the given characters.
pub fn chars_to_string(v: &Vec<char>) -> (s: String)
    ensures
        s@ == v@,
{
    let mut s = String::new();
    let mut i: usize = 0;
    while i < v.len()
        invariant
            i <= v@.len(),
            s@ == v@.subrange(0, i as int),
        decreases v@.len() - i,
    {
        push_char(&mut s, v[i]);
        proof {
            assert(v@.subrange(0, (i + 1) as int) =~= v@.subrange(0, i as int).push(v@[i as int]));
        }
        i = i + 1;
    }
    proof {
        assert(v@.subrange(0, v@.len() as int) =~= v@);
    }
    s
}

fn append_chars(out: &mut Vec<char>, w: &Vec<char>)
    ensures
        final(out)@ == old(out)@ + w@,
{
    let mut i: usize = 0;
    while i < w.len()
        invariant
            i <= w@.len(),
            out@ == old(out)@ + w@.subrange(0, i as int),
        decreases w@.len() - i,
    {
        out.push(w[i]);
        proof {
            assert(old(out)@ + w@.subrange(0, (i + 1) as int) =~= (old(out)@ + w@.subrange(
                0,
                i as int,
            )).push(w@[i as int]));
        }
        i = i + 1;
    }
    proof {
        assert(old(out)@ + w@.subrange(0, w@.len() as int) =~= old(out)@ + w@);
    }
}

fn collect_words(v: &Vec<char>, i: usize, words: &mut Vec<Vec<char>>)
    requires
        i <= v@.len(),
    ensures
        word_views(final(words)@) == word_views(old(words)@) + cleaned_words(
            lines_spec(v@.skip(i as int)),
        ),
    decreases v@.len() - i,
{
    let ghost s = v@.skip(i as int);
    let mut j = i;
    while j < v.len() && v[j] != '\n'
        invariant
            i <= j <= v@.len(),
            forall|m: int| i <= m < j ==> v@[m] != '\n',
        decreases v@.len() - j,
    {
        j = j + 1;
    }
    proof {
        assert(forall|m: int| 0 <= m < j - i ==> s[m] == v@[m + i] && s[m] != '\n');
        lemma_find_nl_from(s, 0, j - i);
        assert(s.subrange(0, j - i) =~= v@.subrange(i as int, j as int));
    }
    let line = trimmed_subrange(v, i, j);
    let ghost lv = line@;
    if line.len() > 0 {
        words.push(line);
        proof {
            assert(word_views(words@) =~~= word_views(old(words)@) + seq![lv]);
        }
    }
    if j < v.len() {
        collect_words(v, j + 1, words);
        proof {
            let rest = v@.skip((j + 1) as int);
            assert(s.subrange(j - i + 1, s.len() as int) =~= rest);
            let ls = lines_spec(s);
            assert(ls == seq![s.subrange(0, j - i)] + lines_spec(rest));
            assert(ls[0] == s.subrange(0, j - i));
            assert(ls.drop_first() =~~= lines_spec(rest));
            assert(trim_spec(ls[0]) == lv);
            if lv.len() > 0 {
                assert(cleaned_words(ls) == seq![lv] + cleaned_words(lines_spec(rest)));
                assert(word_views(words@) =~~= word_views(old(words)@) + cleaned_words(ls));
            } else {
                assert(cleaned_words(ls) == cleaned_words(lines_spec(rest)));
                assert(word_views(words@) =~~= word_views(old(words)@) + cleaned_words(ls));
            }
        }
    } else {
        proof {
            let ls = lines_spec(s);
            assert(find_nl(s, 0) == s.len());
            assert(ls == seq![s]);
            assert(s.subrange(0, j - i) =~= s);
            assert(ls[0] == s);
            assert(ls.drop_first() =~~= Seq::<Seq<char>>::empty());
            assert(cleaned_words(Seq::<Seq<char>>::empty()) == Seq::<Seq<char>>::empty());
            assert(trim_spec(ls[0]) == lv);
            if lv.len() > 0 {
                assert(cleaned_words(ls) =~~= seq![lv]);
                assert(word_views(words@) =~~= word_views(old(words)@) + cleaned_words(ls));
            } else {
                assert(cleaned_words(ls) =~~= Seq::<Seq<char>>::empty());
                assert(word_views(words@) =~~= word_views(old(words)@) + cleaned_words(ls));
            }
        }
    }
}

fn join_into(out: &mut Vec<char>, words: &Vec<Vec<char>>, j: usize)
    requires
        j <= words@.len(),
    ensures
        final(out)@ == old(out)@ + join_sp(word_views(words@).skip(j as int)),
    decreases words@.len() - j,
{
    let ghost ws = word_views(words@).skip(j as int);
    if j < words.len() {
        append_chars(out, &words[j]);
        proof {
            assert(ws[0] == words@[j as int]@);
        }
        if j + 1 < words.len() {
            out.push(' ');
            join_into(out, words, j + 1);
            proof {
                assert(ws.drop_first() =~= word_views(words@).skip((j + 1) as int));
                assert(old(out)@ + join_sp(ws) =~= ((old(out)@ + ws[0]).push(' ')) + join_sp(
                    ws.drop_first(),
                ));
            }
        } else {
            proof {
                assert(ws.len() == 1);
                assert(old(out)@ + join_sp(ws) =~= old(out)@ + ws[0]);
            }
        }
    } else {
        proof {
            assert(ws.len() == 0);
            assert(old(out)@ + join_sp(ws) =~= old(out)@);
        }
    }
}

/// The character for one decimal digit.
pub open spec fn digit_char(d: u64) -> char {
    if d == 0 {
        '0'
    } else if d == 1 {
        '1'
    } else if d == 2 {
        '2'
    } else if d == 3 {
        '3'
    } else if d == 4 {
        '4'
    } else if d == 5 {
        '5'
    } else if d == 6 {
        '6'
    } else if d == 7 {
        '7'
    } else if d == 8 {
        '8'
    } else {
        '9'
    }
}

/// The decimal rendering of `n`, most significant digit first, with no
/// leading zeros except for zero itself.
pub open spec fn dec_spec(n: u64) -> Seq<char>
    decreases n,
{
    if n < 10 {
        seq![digit_char(n)]
    } else {
        dec_spec(n / 10).push(digit_char(n % 10))
    }
}

fn digit_char_exec(d: u64) -> (c: char)
    requires
        d < 10,
    ensures
        c == digit_char(d),
{
    if d == 0 {
        '0'
    } else if d == 1 {
        '1'
    } else if d == 2 {
        '2'
    } else if d == 3 {
        '3'
    } else if d == 4 {
        '4'
    } else if d == 5 {
        '5'
    } else if d == 6 {
        '6'
    } else if d == 7 {
        '7'
    } else if d == 8 {
        '8'
    } else {
        '9'
    }
}

fn push_dec(out: &mut Vec<char>, n: u64)
    ensures
        final(out)@ == old(out)@ + dec_spec(n),
    decreases n,
{
    if n < 10 {
        out.push(digit_char_exec(n));
        proof {
            assert(old(out)@ + dec_spec(n) =~= old(out)@.push(digit_char(n)));
        }
    } else {
        push_dec(out, n / 10);
        out.push(digit_char_exec(n % 10));
        proof {
            assert(old(out)@ + dec_spec(n) =~= (old(out)@ + dec_spec(n / 10)).push(
                digit_char(n % 10),
            ));
        }
    }
}

/// The decimal rendering of `n` as a string.
pub fn u64_to_string(n: u64) -> (s: String)
    ensures
        s@ == dec_spec(n),
{
    let mut out: Vec<char> = Vec::new();
    push_dec(&mut out, n);
    proof {
        assert(Seq::<char>::empty() + dec_spec(n) =~= dec_spec(n));
    }
    chars_to_string(&out)
}

/// Normalizes recognized text: every line trimmed, blank lines removed,
/// and the remaining lines joined with single spaces.
pub fn cleanup_text(input: String) -> (r: String)
    ensures
        r@ == cleanup_spec(input@),
{
    let v = str_to_chars(input.as_str());
    let mut words: Vec<Vec<char>> = Vec::new();
    collect_words(&v, 0, &mut words);
    proof {
        assert(v@.skip(0) =~= v@);
        assert(word_views(Seq::<Vec<char>>::empty()) =~= Seq::<Seq<char>>::empty());
        assert(Seq::<Seq<char>>::empty() + cleaned_words(lines_spec(v@)) =~= cleaned_words(
            lines_spec(v@),
        ));
    }
    let mut out: Vec<char> = Vec::new();
    join_into(&mut out, &words, 0);
    proof {
        assert(word_views(words@).skip(0) =~= word_views(words@));
        assert(Seq::<char>::empty() + join_sp(word_views(words@)) =~= join_sp(word_views(words@)));
    }
    chars_to_string(&out)
}

} // verus!
