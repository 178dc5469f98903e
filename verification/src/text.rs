//! Small verified helpers on token text.

use vstd::prelude::*;

verus! {

/// Joins `parts`, putting `sep` between each two neighbours.
pub open spec fn join(parts: Seq<Seq<char>>, sep: Seq<char>) -> Seq<char>
    decreases parts.len(),
{
    if parts.len() == 0 {
        Seq::empty()
    } else if parts.len() == 1 {
        parts[0]
    } else {
        join(parts.drop_last(), sep) + sep + parts.last()
    }
}

/// Concatenates `parts`, putting `sep` after each of them.
pub open spec fn terminated(parts: Seq<Seq<char>>, sep: Seq<char>) -> Seq<char>
    decreases parts.len(),
{
    if parts.len() == 0 {
        Seq::empty()
    } else {
        terminated(parts.drop_last(), sep) + parts.last() + sep
    }
}

/// Whether two texts hold the same characters.
pub fn text_eq(a: &str, b: &str) -> (r: bool)
    ensures
        r == (a@ == b@),
{
    let n = a.unicode_len();
    if n != b.unicode_len() {
        return false;
    }
    let mut i: usize = 0;
    while i < n
        invariant
            n == a@.len(),
            n == b@.len(),
            i <= n,
            forall|j: int| 0 <= j < i ==> a@[j] == b@[j],
        decreases n - i,
    {
        if a.get_char(i) != b.get_char(i) {
            return false;
        }
        i = i + 1;
    }
    assert(a@ =~= b@);
    true
}

/// Joins the texts of `parts`, putting `sep` between each two neighbours.
pub fn join_texts(parts: &Vec<String>, sep: &str) -> (r: String)
    ensures
        r@ == join(parts.deep_view(), sep@),
{
    let ghost whole = parts.deep_view();
    let mut r = String::new();
    let mut i: usize = 0;
    while i < parts.len()
        invariant
            i <= parts.len(),
            whole == parts.deep_view(),
            whole.len() == parts.len(),
            r@ == join(whole.take(i as int), sep@),
        decreases parts.len() - i,
    {
        assert(whole.take(i + 1).drop_last() =~= whole.take(i as int));
        if i > 0 {
            r.append(sep);
        }
        r.append(parts[i].as_str());
        i = i + 1;
    }
    assert(whole.take(parts.len() as int) =~= whole);
    r
}

/// Concatenates the texts of `parts`, putting `sep` after each of them.
pub fn terminated_texts(parts: &Vec<String>, sep: &str) -> (r: String)
    ensures
        r@ == terminated(parts.deep_view(), sep@),
{
    let ghost whole = parts.deep_view();
    let mut r = String::new();
    let mut i: usize = 0;
    while i < parts.len()
        invariant
            i <= parts.len(),
            whole == parts.deep_view(),
            whole.len() == parts.len(),
            r@ == terminated(whole.take(i as int), sep@),
        decreases parts.len() - i,
    {
        assert(whole.take(i + 1).drop_last() =~= whole.take(i as int));
        r.append(parts[i].as_str());
        r.append(sep);
        i = i + 1;
    }
    assert(whole.take(parts.len() as int) =~= whole);
    r
}

/// Whether a character has the Unicode `White_Space` property, which is what
/// trimming removes.
pub open spec fn is_white_space(c: char) -> bool {
    ||| '\u{9}' <= c <= '\u{d}'
    ||| c == ' '
    ||| c == '\u{85}'
    ||| c == '\u{a0}'
    ||| c == '\u{1680}'
    ||| '\u{2000}' <= c <= '\u{200a}'
    ||| c == '\u{2028}'
    ||| c == '\u{2029}'
    ||| c == '\u{202f}'
    ||| c == '\u{205f}'
    ||| c == '\u{3000}'
}

/// The text without its leading white space.
pub open spec fn trim_start(s: Seq<char>) -> Seq<char>
    decreases s.len(),
{
    if s.len() > 0 && is_white_space(s[0]) {
        trim_start(s.drop_first())
    } else {
        s
    }
}

/// The text without its trailing white space.
pub open spec fn trim_end(s: Seq<char>) -> Seq<char>
    decreases s.len(),
{
    if s.len() > 0 && is_white_space(s.last()) {
        trim_end(s.drop_last())
    } else {
        s
    }
}

/// The text without its leading and trailing white space.
pub open spec fn trim(s: Seq<char>) -> Seq<char> {
    trim_end(trim_start(s))
}

/// The pieces of a text between its commas, in order: one more than there
/// are commas.
pub open spec fn split_commas(s: Seq<char>) -> Seq<Seq<char>>
    decreases s.len(),
{
    if s.len() == 0 {
        seq![Seq::empty()]
    } else {
        let pieces = split_commas(s.drop_last());
        if s.last() == ',' {
            pieces.push(Seq::empty())
        } else {
            pieces.update(pieces.len() - 1, pieces.last().push(s.last()))
        }
    }
}

/// Joining the pieces of a list whose last piece grew by `t` gives the join
/// of the old pieces, grown by `t`.
proof fn lemma_join_grow_last(parts: Seq<Seq<char>>, sep: Seq<char>, t: Seq<char>)
    requires
        parts.len() >= 1,
    ensures
        join(parts.update(parts.len() - 1, parts.last() + t), sep) == join(parts, sep) + t,
{
    let q = parts.update(parts.len() - 1, parts.last() + t);
    if parts.len() >= 2 {
        assert(q.drop_last() =~= parts.drop_last());
        assert(join(q, sep) =~= join(parts, sep) + t);
    }
}

/// Splitting a text at its commas gives one more piece than it has commas,
/// no piece holds a comma, and joining the pieces with commas gives the text
/// back.
pub proof fn lemma_split_commas_join(s: Seq<char>)
    ensures
        split_commas(s).len() >= 1,
        split_commas(s).len() == s.filter(|c: char| c == ',').len() + 1,
        forall|i: int, j: int| 0 <= i < split_commas(s).len() && 0 <= j < split_commas(s)[i].len()
            ==> #[trigger] split_commas(s)[i][j] != ',',
        join(split_commas(s), ","@) == s,
    decreases s.len(),
{
    reveal_strlit(",");
    reveal(Seq::filter);
    if s.len() == 0 {
        assert(s.filter(|c: char| c == ',') =~= Seq::<char>::empty());
        assert(join(split_commas(s), ","@) =~= s);
    } else {
        let init = s.drop_last();
        let c = s.last();
        lemma_split_commas_join(init);
        let p = split_commas(init);
        if c == ',' {
            assert(split_commas(s) == p.push(Seq::<char>::empty()));
            assert(p.push(Seq::<char>::empty()).drop_last() =~= p);
            assert(join(split_commas(s), ","@) =~= s);
            assert forall|i: int, j: int| 0 <= i < split_commas(s).len() && 0 <= j < split_commas(s)[i].len()
                implies #[trigger] split_commas(s)[i][j] != ',' by {
                assert(split_commas(s)[i] == p[i]);
            }
        } else {
            assert(p.last() + seq![c] =~= p.last().push(c));
            lemma_join_grow_last(p, ","@, seq![c]);
            assert(join(split_commas(s), ","@) =~= s);
            assert forall|i: int, j: int| 0 <= i < split_commas(s).len() && 0 <= j < split_commas(s)[i].len()
                implies #[trigger] split_commas(s)[i][j] != ',' by {
                if i < p.len() - 1 {
                    assert(split_commas(s)[i] == p[i]);
                } else if j < p.last().len() {
                    assert(split_commas(s)[i][j] == p[i][j]);
                }
            }
        }
    }
}

/// Trimming drops white space from the two ends and nothing else: the
/// trimmed text is a part of the text, what lies around it is white space,
/// and it neither starts nor ends with white space.
pub proof fn lemma_trim(s: Seq<char>)
    ensures
        exists|i: int, j: int| {
            &&& 0 <= i <= j <= s.len()
            &&& trim(s) == s.subrange(i, j)
            &&& forall|k: int| 0 <= k < i ==> is_white_space(#[trigger] s[k])
            &&& forall|k: int| j <= k < s.len() ==> is_white_space(#[trigger] s[k])
        },
        trim(s).len() > 0 ==> !is_white_space(trim(s)[0]) && !is_white_space(trim(s).last()),
{
    lemma_trim_start_shape(s);
    let i = choose|i: int| 0 <= i <= s.len() && trim_start(s) == s.subrange(i, s.len() as int)
        && (forall|k: int| 0 <= k < i ==> is_white_space(#[trigger] s[k]))
        && (trim_start(s).len() > 0 ==> !is_white_space(trim_start(s)[0]));
    let t = trim_start(s);
    lemma_trim_end_shape(t);
    let j = choose|j: int| 0 <= j <= t.len() && trim_end(t) == t.subrange(0, j)
        && (forall|k: int| j <= k < t.len() ==> is_white_space(#[trigger] t[k]))
        && (trim_end(t).len() > 0 ==> !is_white_space(trim_end(t).last()));
    assert(trim(s) =~= s.subrange(i, i + j));
    assert forall|k: int| i + j <= k < s.len() implies is_white_space(#[trigger] s[k]) by {
        assert(s[k] == t[k - i]);
    }
    if trim(s).len() > 0 {
        assert(trim(s)[0] == t[0]);
    }
}

proof fn lemma_trim_start_shape(s: Seq<char>)
    ensures
        exists|i: int| 0 <= i <= s.len() && trim_start(s) == s.subrange(i, s.len() as int)
            && (forall|k: int| 0 <= k < i ==> is_white_space(#[trigger] s[k]))
            && (trim_start(s).len() > 0 ==> !is_white_space(trim_start(s)[0])),
    decreases s.len(),
{
    if s.len() > 0 && is_white_space(s[0]) {
        let t = s.drop_first();
        lemma_trim_start_shape(t);
        let i = choose|i: int| 0 <= i <= t.len() && trim_start(t) == t.subrange(i, t.len() as int)
            && (forall|k: int| 0 <= k < i ==> is_white_space(#[trigger] t[k]))
            && (trim_start(t).len() > 0 ==> !is_white_space(trim_start(t)[0]));
        assert(trim_start(s) =~= s.subrange(i + 1, s.len() as int));
        assert forall|k: int| 0 <= k < i + 1 implies is_white_space(#[trigger] s[k]) by {
            if k > 0 {
                assert(s[k] == t[k - 1]);
            }
        }
    } else {
        assert(trim_start(s) =~= s.subrange(0, s.len() as int));
    }
}

proof fn lemma_trim_end_shape(s: Seq<char>)
    ensures
        exists|j: int| 0 <= j <= s.len() && trim_end(s) == s.subrange(0, j)
            && (forall|k: int| j <= k < s.len() ==> is_white_space(#[trigger] s[k]))
            && (trim_end(s).len() > 0 ==> !is_white_space(trim_end(s).last())),
    decreases s.len(),
{
    if s.len() > 0 && is_white_space(s.last()) {
        let t = s.drop_last();
        lemma_trim_end_shape(t);
        let j = choose|j: int| 0 <= j <= t.len() && trim_end(t) == t.subrange(0, j)
            && (forall|k: int| j <= k < t.len() ==> is_white_space(#[trigger] t[k]))
            && (trim_end(t).len() > 0 ==> !is_white_space(trim_end(t).last()));
        assert(trim_end(s) =~= s.subrange(0, j));
        assert forall|k: int| j <= k < s.len() implies is_white_space(#[trigger] s[k]) by {
            if k < s.len() - 1 {
                assert(s[k] == t[k]);
            }
        }
    } else {
        assert(trim_end(s) =~= s.subrange(0, s.len() as int));
    }
}

/// Whether a character has the Unicode `White_Space` property.
pub fn is_whitespace(c: char) -> (r: bool)
    ensures
        r == is_white_space(c),
{
    ('\u{9}' <= c && c <= '\u{d}') || c == ' ' || c == '\u{85}' || c == '\u{a0}' || c == '\u{1680}'
        || ('\u{2000}' <= c && c <= '\u{200a}') || c == '\u{2028}' || c == '\u{2029}' || c == '\u{202f}'
        || c == '\u{205f}' || c == '\u{3000}'
}

/// Dropping leading white space from the part before `k` does not change the
/// trimmed start.
proof fn lemma_trim_start_skip(s: Seq<char>, k: int)
    requires
        0 <= k <= s.len(),
        forall|j: int| 0 <= j < k ==> is_white_space(#[trigger] s[j]),
    ensures
        trim_start(s) == trim_start(s.subrange(k, s.len() as int)),
    decreases k,
{
    if k > 0 {
        let t = s.drop_first();
        assert forall|j: int| 0 <= j < k - 1 implies is_white_space(#[trigger] t[j]) by {
            assert(t[j] == s[j + 1]);
        }
        lemma_trim_start_skip(t, k - 1);
        assert(t.subrange(k - 1, t.len() as int) =~= s.subrange(k, s.len() as int));
    } else {
        assert(s.subrange(0, s.len() as int) =~= s);
    }
}

/// Dropping trailing white space after `k` does not change the trimmed end.
proof fn lemma_trim_end_take(s: Seq<char>, k: int)
    requires
        0 <= k <= s.len(),
        forall|j: int| k <= j < s.len() ==> is_white_space(#[trigger] s[j]),
    ensures
        trim_end(s) == trim_end(s.subrange(0, k)),
    decreases s.len() - k,
{
    if k < s.len() {
        let t = s.drop_last();
        assert forall|j: int| k <= j < t.len() implies is_white_space(#[trigger] t[j]) by {
            assert(t[j] == s[j]);
        }
        lemma_trim_end_take(t, k);
        assert(t.subrange(0, k) =~= s.subrange(0, k));
    } else {
        assert(s.subrange(0, k) =~= s);
    }
}

/// The text without its leading and trailing white space.
pub fn trim_text(s: &str) -> (r: String)
    ensures
        r@ == trim(s@),
{
    let n = s.unicode_len();
    let mut i: usize = 0;
    while i < n && is_whitespace(s.get_char(i))
        invariant
            n == s@.len(),
            i <= n,
            forall|j: int| 0 <= j < i ==> is_white_space(#[trigger] s@[j]),
        decreases n - i,
    {
        i = i + 1;
    }
    let mut k: usize = n;
    while k > i && is_whitespace(s.get_char(k - 1))
        invariant
            n == s@.len(),
            i <= k <= n,
            forall|j: int| k <= j < n ==> is_white_space(#[trigger] s@[j]),
        decreases k,
    {
        k = k - 1;
    }
    proof {
        lemma_trim_start_skip(s@, i as int);
        let t = s@.subrange(i as int, n as int);
        if i < n {
            assert(t[0] == s@[i as int]);
        }
        assert(trim_start(t) == t);
        assert forall|j: int| k - i <= j < t.len() implies is_white_space(#[trigger] t[j]) by {
            assert(t[j] == s@[j + i]);
        }
        lemma_trim_end_take(t, k - i);
        let u = t.subrange(0, k - i);
        assert(u =~= s@.subrange(i as int, k as int));
        if k > i {
            assert(u.last() == s@[k - 1]);
        }
        assert(trim_end(u) == u);
    }
    String::from_str(s.substring_char(i, k))
}

/// The pieces of a text between its commas, in order.
pub fn split_text(s: &str) -> (r: Vec<String>)
    ensures
        r.deep_view() == split_commas(s@),
{
    let n = s.unicode_len();
    let mut pieces: Vec<String> = Vec::new();
    let mut start: usize = 0;
    let mut i: usize = 0;
    assert(s@.take(0) =~= Seq::<char>::empty());
    assert(pieces.deep_view().push(s@.subrange(0, 0)) =~= seq![Seq::<char>::empty()]);
    while i < n
        invariant
            n == s@.len(),
            start <= i <= n,
            split_commas(s@.take(i as int)) == pieces.deep_view().push(s@.subrange(start as int, i as int)),
        decreases n - i,
    {
        let ghost before = pieces.deep_view();
        assert(s@.take(i + 1).drop_last() =~= s@.take(i as int));
        assert(s@.take(i + 1).last() == s@[i as int]);
        if s.get_char(i) == ',' {
            pieces.push(String::from_str(s.substring_char(start, i)));
            assert(pieces.deep_view() =~= before.push(s@.subrange(start as int, i as int)));
            start = i + 1;
            assert(s@.subrange(start as int, i + 1) =~= Seq::<char>::empty());
        } else {
            assert(s@.subrange(start as int, i + 1) =~= s@.subrange(start as int, i as int).push(s@[i as int]));
        }
        i = i + 1;
    }
    assert(s@.take(n as int) =~= s@);
    pieces.push(String::from_str(s.substring_char(start, n)));
    pieces
}

} // verus!
