//! Character-level text utilities used to build scripts and read their output.

use vstd::prelude::*;

verus! {

broadcast use vstd::string::group_string_axioms;

/// Appends one character to a string; std's `String::push`.
#[verifier::external_body]
fn push_char(s: &mut String, c: char)
    ensures
        final(s)@ == old(s)@.push(c),
{
    s.push(c);
}

/// The string whose characters are `chars`.
pub fn string_of(chars: &[char]) -> (s: String)
    ensures
        s@ == chars@,
{
    let mut s = String::new();
    let mut i: usize = 0;
    while i < chars.len()
        invariant
            i <= chars.len(),
            s@ == chars@.take(i as int),
        decreases chars.len() - i,
    {
        push_char(&mut s, chars[i]);
        i += 1;
    }
    s
}

/// The characters of `s`, in order.
pub fn chars_of(s: &str) -> (v: Vec<char>)
    ensures
        v@ == s@,
{
    let mut v: Vec<char> = Vec::new();
    for c in it: s.chars()
        invariant
            v@ == it.seq().take(it.index() as int),
    {
        v.push(c);
    }
    v
}


/// Appends the characters of `s` to `v`.
pub fn push_str(v: &mut Vec<char>, s: &str)
    ensures
        final(v)@ == old(v)@ + s@,
{
    for c in it: s.chars()
        invariant
            v@ == old(v)@ + it.seq().take(it.index() as int),
    {
        v.push(c);
    }
}

/// Appends `w` to `v`.
pub fn push_chars(v: &mut Vec<char>, w: &[char])
    ensures
        final(v)@ == old(v)@ + w@,
{
    let mut i: usize = 0;
    while i < w.len()
        invariant
            i <= w.len(),
            v@ == old(v)@ + w@.take(i as int),
        decreases w.len() - i,
    {
        v.push(w[i]);
        i += 1;
        assert(w@.take(i as int) == w@.take(i - 1).push(w@[i - 1]));
    }
    assert(w@.take(w.len() as int) == w@);
}

/// `s` with every occurrence of `c` replaced by `r`.
pub open spec fn replace_char(s: Seq<char>, c: char, r: Seq<char>) -> Seq<char>
    decreases s.len(),
{
    if s.len() == 0 {
        Seq::empty()
    } else {
        replace_char(s.drop_last(), c, r) + (if s.last() == c {
            r
        } else {
            seq![s.last()]
        })
    }
}

/// Replaces every occurrence of `c` in `s` by `r`.
pub fn replace_char_with(s: &[char], c: char, r: &str) -> (out: Vec<char>)
    ensures
        out@ == replace_char(s@, c, r@),
{
    let mut out: Vec<char> = Vec::new();
    let mut i: usize = 0;
    while i < s.len()
        invariant
            i <= s.len(),
            out@ == replace_char(s@.take(i as int), c, r@),
        decreases s.len() - i,
    {
        assert(s@.take(i + 1).drop_last() == s@.take(i as int));
        if s[i] == c {
            push_str(&mut out, r);
        } else {
            out.push(s[i]);
        }
        i += 1;
    }
    assert(s@.take(s.len() as int) == s@);
    out
}


/// The characters of Unicode's `White_Space` property, which std's
/// `char::is_whitespace` and `str::trim` go by.
pub open spec fn is_white_space(c: char) -> bool {
    let u = c as u32;
    ||| 0x9 <= u <= 0xD
    ||| u == 0x20
    ||| u == 0x85
    ||| u == 0xA0
    ||| u == 0x1680
    ||| 0x2000 <= u <= 0x200A
    ||| u == 0x2028
    ||| u == 0x2029
    ||| u == 0x202F
    ||| u == 0x205F
    ||| u == 0x3000
}

/// Whether `c` is white space.
pub fn white_space(c: char) -> (b: bool)
    ensures
        b == is_white_space(c),
{
    let u = c as u32;
    (0x9 <= u && u <= 0xD) || u == 0x20 || u == 0x85 || u == 0xA0 || u == 0x1680 || (0x2000 <= u
        && u <= 0x200A) || u == 0x2028 || u == 0x2029 || u == 0x202F || u == 0x205F || u == 0x3000
}

/// `s` without its leading white space.
pub open spec fn trim_start(s: Seq<char>) -> Seq<char>
    decreases s.len(),
{
    if s.len() > 0 && is_white_space(s[0]) {
        trim_start(s.drop_first())
    } else {
        s
    }
}

/// `s` without its trailing white space.
pub open spec fn trim_end(s: Seq<char>) -> Seq<char>
    decreases s.len(),
{
    if s.len() > 0 && is_white_space(s.last()) {
        trim_end(s.drop_last())
    } else {
        s
    }
}

/// `s` without leading and trailing white space (std's `str::trim`).
pub open spec fn trimmed(s: Seq<char>) -> Seq<char> {
    trim_end(trim_start(s))
}

/// `s` with its leading and trailing white space removed.
pub fn trim_chars(s: &[char]) -> (t: Vec<char>)
    ensures
        t@ == trimmed(s@),
{
    let n = s.len();
    let mut i: usize = 0;
    assert(s@.skip(0) == s@);
    while i < n && white_space(s[i])
        invariant
            i <= n == s@.len(),
            trim_start(s@) == trim_start(s@.skip(i as int)),
        decreases n - i,
    {
        assert(s@.skip(i as int).drop_first() == s@.skip(i + 1));
        i += 1;
    }
    assert(trim_start(s@) == s@.subrange(i as int, n as int)) by {
        assert(s@.skip(i as int) == s@.subrange(i as int, n as int));
    }
    let mut j: usize = n;
    while j > i && white_space(s[j - 1])
        invariant
            i <= j <= n == s@.len(),
            trimmed(s@) == trim_end(s@.subrange(i as int, j as int)),
        decreases j,
    {
        assert(s@.subrange(i as int, j as int).drop_last() == s@.subrange(i as int, j - 1));
        j -= 1;
    }
    let mut t: Vec<char> = Vec::new();
    let mut k: usize = i;
    while k < j
        invariant
            i <= k <= j <= n == s@.len(),
            t@ == s@.subrange(i as int, k as int),
        decreases j - k,
    {
        t.push(s[k]);
        k += 1;
    }
    t
}

/// The trimmed string is a contiguous piece of the untrimmed one.
pub proof fn lemma_trimmed_is_subrange(s: Seq<char>)
    ensures
        exists|a: int, b: int| 0 <= a <= b <= s.len() && trimmed(s) == s.subrange(a, b),
        trimmed(s).len() > 0 ==> !is_white_space(trimmed(s)[0]) && !is_white_space(
            trimmed(s).last(),
        ),
{
    lemma_trim_start_suffix(s);
    let a = s.len() - trim_start(s).len();
    lemma_trim_end_prefix(trim_start(s));
    let b = a + trimmed(s).len();
    assert(trimmed(s) == s.subrange(a, b));
    lemma_trim_end_keeps_first(trim_start(s));
}

proof fn lemma_trim_start_suffix(s: Seq<char>)
    ensures
        trim_start(s).len() <= s.len(),
        trim_start(s) == s.skip(s.len() - trim_start(s).len()),
        trim_start(s).len() > 0 ==> !is_white_space(trim_start(s)[0]),
    decreases s.len(),
{
    if s.len() > 0 && is_white_space(s[0]) {
        lemma_trim_start_suffix(s.drop_first());
        assert(s.drop_first().skip(s.drop_first().len() - trim_start(s).len()) == s.skip(
            s.len() - trim_start(s).len(),
        ));
    }
}

proof fn lemma_trim_end_prefix(s: Seq<char>)
    ensures
        trim_end(s).len() <= s.len(),
        trim_end(s) == s.take(trim_end(s).len() as int),
        trim_end(s).len() > 0 ==> !is_white_space(trim_end(s).last()),
    decreases s.len(),
{
    if s.len() > 0 && is_white_space(s.last()) {
        lemma_trim_end_prefix(s.drop_last());
        assert(s.drop_last().take(trim_end(s).len() as int) == s.take(trim_end(s).len() as int));
    }
}

proof fn lemma_trim_end_keeps_first(s: Seq<char>)
    requires
        s.len() > 0 ==> !is_white_space(s[0]),
    ensures
        trim_end(s).len() > 0 ==> !is_white_space(trim_end(s)[0]),
    decreases s.len(),
{
    lemma_trim_end_prefix(s);
    if s.len() > 0 && is_white_space(s.last()) {
        lemma_trim_end_keeps_first(s.drop_last());
    }
}

/// Trimming twice gives what trimming once gives.
pub proof fn lemma_trimmed_idempotent(s: Seq<char>)
    ensures
        trimmed(trimmed(s)) == trimmed(s),
{
    lemma_trimmed_is_subrange(s);
    let t = trimmed(s);
    if t.len() > 0 {
        assert(trim_start(t) == t);
        lemma_trim_end_prefix(t);
        assert(trim_end(t) == t);
    } else {
        assert(trim_start(t) == t);
    }
}


/// Whether `s` begins with `prefix`.
pub fn starts_with(s: &[char], prefix: &str) -> (b: bool)
    ensures
        b == prefix@.is_prefix_of(s@),
{
    let p = chars_of(prefix);
    if p.len() > s.len() {
        return false;
    }
    let mut i: usize = 0;
    while i < p.len()
        invariant
            i <= p.len() <= s.len(),
            p@ == prefix@,
            forall|k: int| 0 <= k < i ==> s@[k] == p@[k],
        decreases p.len() - i,
    {
        if s[i] != p[i] {
            return false;
        }
        i += 1;
    }
    assert(p@ =~= s@.subrange(0, p@.len() as int));
    true
}

/// Whether `p` occurs in `s` as a contiguous piece.
pub open spec fn contains_seq(s: Seq<char>, p: Seq<char>) -> bool {
    exists|i: int| 0 <= i && i + p.len() <= s.len() && #[trigger] s.subrange(i, i + p.len()) == p
}

/// Whether `p` occurs in `s` at position `i`.
fn occurs_at(s: &[char], p: &[char], i: usize) -> (b: bool)
    requires
        i + p@.len() <= s@.len(),
    ensures
        b == (s@.subrange(i as int, i + p@.len()) == p@),
{
    let n = s.len();
    let mut k: usize = 0;
    while k < p.len()
        invariant
            k <= p.len(),
            n == s@.len(),
            i + p@.len() <= n,
            forall|m: int| 0 <= m < k ==> s@[i + m] == p@[m],
        decreases p.len() - k,
    {
        if s[i + k] != p[k] {
            assert(s@.subrange(i as int, i + p@.len())[k as int] != p@[k as int]);
            return false;
        }
        k += 1;
    }
    assert(s@.subrange(i as int, i + p@.len()) =~= p@);
    true
}

/// Whether `pattern` occurs in `s`.
pub fn contains(s: &[char], pattern: &str) -> (b: bool)
    ensures
        b == contains_seq(s@, pattern@),
{
    let p = chars_of(pattern);
    if p.len() > s.len() {
        return false;
    }
    let last = s.len() - p.len();
    let mut i: usize = 0;
    loop
        invariant
            p@ == pattern@,
            last + p@.len() == s@.len(),
            i <= last,
            forall|j: int| 0 <= j < i ==> #[trigger] s@.subrange(j, j + p@.len()) != p@,
        decreases last - i,
    {
        if occurs_at(s, &p, i) {
            return true;
        }
        if i == last {
            return false;
        }
        i += 1;
    }
}

/// The pieces of `s` between the occurrences of `c`, in order (std's `str::split`
/// with a character pattern): one more piece than there are occurrences.
pub open spec fn split_on(s: Seq<char>, c: char) -> Seq<Seq<char>>
    decreases s.len(),
{
    if s.len() == 0 {
        seq![Seq::empty()]
    } else {
        let parts = split_on(s.drop_last(), c);
        if s.last() == c {
            parts.push(Seq::empty())
        } else {
            parts.update(parts.len() - 1, parts.last().push(s.last()))
        }
    }
}

/// The pieces joined back together with `c` between them.
pub open spec fn join_with(parts: Seq<Seq<char>>, c: char) -> Seq<char>
    decreases parts.len(),
{
    if parts.len() <= 1 {
        if parts.len() == 1 {
            parts[0]
        } else {
            Seq::empty()
        }
    } else {
        join_with(parts.drop_last(), c) + seq![c] + parts.last()
    }
}

/// Splitting never yields an empty list of pieces.
pub proof fn lemma_split_nonempty(s: Seq<char>, c: char)
    ensures
        split_on(s, c).len() >= 1,
    decreases s.len(),
{
    if s.len() > 0 {
        lemma_split_nonempty(s.drop_last(), c);
    }
}

/// A string without `c` splits into itself alone.
pub proof fn lemma_split_without_separator(s: Seq<char>, c: char)
    requires
        forall|k: int| 0 <= k < s.len() ==> s[k] != c,
    ensures
        split_on(s, c) == seq![s],
    decreases s.len(),
{
    if s.len() > 0 {
        assert(s[s.len() - 1] != c);
        assert forall|k: int| 0 <= k < s.drop_last().len() implies s.drop_last()[k] != c by {
            assert(s.drop_last()[k] == s[k]);
        }
        lemma_split_without_separator(s.drop_last(), c);
        assert(s.drop_last().push(s.last()) == s);
        assert(seq![s.drop_last()].update(0, s) == seq![s]);
    } else {
        assert(s == Seq::<char>::empty());
    }
}

/// The first piece is what stands before the first `c`.
pub proof fn lemma_split_first_piece(s: Seq<char>, c: char, i: int)
    requires
        0 <= i < s.len(),
        s[i] == c,
        forall|k: int| 0 <= k < i ==> s[k] != c,
    ensures
        split_on(s, c).len() >= 2,
        split_on(s, c)[0] == s.take(i),
    decreases s.len(),
{
    lemma_split_nonempty(s.drop_last(), c);
    if i == s.len() - 1 {
        lemma_split_without_separator(s.drop_last(), c);
        assert(s.drop_last() == s.take(i));
    } else {
        lemma_split_first_piece(s.drop_last(), c, i);
        assert(s.drop_last().take(i) == s.take(i));
    }
}

/// No piece contains the separator.
pub proof fn lemma_split_pieces_lack_separator(s: Seq<char>, c: char)
    ensures
        forall|j: int, k: int|
            0 <= j < split_on(s, c).len() && 0 <= k < split_on(s, c)[j].len() ==> #[trigger] split_on(
                s,
                c,
            )[j][k] != c,
    decreases s.len(),
{
    if s.len() > 0 {
        lemma_split_nonempty(s.drop_last(), c);
        lemma_split_pieces_lack_separator(s.drop_last(), c);
        let parts = split_on(s.drop_last(), c);
        if s.last() != c {
            let n = parts.len() - 1;
            assert forall|j: int, k: int|
                0 <= j < split_on(s, c).len() && 0 <= k < split_on(s, c)[j].len() implies #[trigger] split_on(
                s,
                c,
            )[j][k] != c by {
                if j == n && k < parts[n].len() {
                    assert(split_on(s, c)[j][k] == parts[n][k]);
                }
            }
        }
    }
}

/// Joining the pieces with the separator gives back the text that was split.
pub proof fn lemma_split_join(s: Seq<char>, c: char)
    ensures
        join_with(split_on(s, c), c) == s,
    decreases s.len(),
{
    if s.len() > 0 {
        let t = s.drop_last();
        lemma_split_join(t, c);
        lemma_split_nonempty(t, c);
        let parts = split_on(t, c);
        if s.last() == c {
            let np = parts.push(Seq::<char>::empty());
            assert(np.drop_last() == parts);
            assert(join_with(np, c) == t + seq![c] + Seq::<char>::empty());
            assert(t + seq![c] + Seq::<char>::empty() == s);
        } else {
            let n = parts.len() - 1;
            let np = parts.update(n, parts.last().push(s.last()));
            if parts.len() == 1 {
                assert(join_with(parts, c) == parts[0]);
                assert(np[0] == t.push(s.last()));
                assert(t.push(s.last()) == s);
            } else {
                assert(np.drop_last() == parts.drop_last());
                assert(join_with(parts, c) == join_with(parts.drop_last(), c) + seq![c]
                    + parts.last());
                assert(join_with(np, c) == join_with(parts.drop_last(), c) + seq![c]
                    + parts.last().push(s.last()));
                assert(s == t.push(s.last()));
            }
        }
    }
}

/// `names` are the trimmed `pieces`, one for one.
pub open spec fn trimmed_pieces(names: Seq<String>, pieces: Seq<Seq<char>>) -> bool {
    &&& names.len() == pieces.len()
    &&& forall|k: int| 0 <= k < names.len() ==> #[trigger] names[k]@ == trimmed(pieces[k])
}

/// Splits `s` at every `c` and trims each piece.
pub fn split_trimmed(s: &[char], c: char) -> (r: Vec<String>)
    ensures
        trimmed_pieces(r@, split_on(s@, c)),
{
    let mut r: Vec<String> = Vec::new();
    let mut cur: Vec<char> = Vec::new();
    let mut i: usize = 0;
    while i < s.len()
        invariant
            i <= s.len(),
            split_on(s@.take(i as int), c).len() >= 1,
            trimmed_pieces(r@, split_on(s@.take(i as int), c).drop_last()),
            cur@ == split_on(s@.take(i as int), c).last(),
        decreases s.len() - i,
    {
        proof {
            lemma_split_nonempty(s@.take(i as int), c);
        }
        assert(s@.take(i + 1).drop_last() == s@.take(i as int));
        let ghost before = split_on(s@.take(i as int), c);
        if s[i] == c {
            let piece = trim_chars(&cur);
            r.push(string_of(&piece));
            cur = Vec::new();
            assert(split_on(s@.take(i + 1), c).drop_last() == before);
            assert(before.drop_last().push(before.last()) == before);
        } else {
            cur.push(s[i]);
            assert(split_on(s@.take(i + 1), c).drop_last() == before.drop_last());
        }
        i += 1;
    }
    assert(s@.take(s.len() as int) == s@);
    let piece = trim_chars(&cur);
    r.push(string_of(&piece));
    proof {
        let parts = split_on(s@, c);
        assert(parts.drop_last().push(parts.last()) == parts);
    }
    r
}

/// A message id as Mail's scripts take it: the text before the first `:`,
/// trimmed.
pub open spec fn clean_id(id: Seq<char>) -> Seq<char> {
    trimmed(split_on(id, ':')[0])
}

/// The text before the first `:` of `id` (all of `id` if it has none), trimmed.
pub fn clean_message_id(id: &str) -> (r: Vec<char>)
    ensures
        r@ == clean_id(id@),
{
    let s = chars_of(id);
    let mut i: usize = 0;
    while i < s.len() && s[i] != ':'
        invariant
            i <= s.len(),
            s@ == id@,
            forall|k: int| 0 <= k < i ==> s@[k] != ':',
        decreases s.len() - i,
    {
        i += 1;
    }
    proof {
        if i < s.len() {
            lemma_split_first_piece(s@, ':', i as int);
        } else {
            lemma_split_without_separator(s@, ':');
            assert(s@.take(i as int) == s@);
        }
    }
    let head = vstd::slice::slice_subrange(s.as_slice(), 0, i);
    trim_chars(head)
}


/// A cleaned message id holds no `:`.
pub proof fn lemma_clean_id_has_no_colon(id: Seq<char>)
    ensures
        forall|k: int| 0 <= k < clean_id(id).len() ==> clean_id(id)[k] != ':',
{
    lemma_split_nonempty(id, ':');
    lemma_split_pieces_lack_separator(id, ':');
    let x = split_on(id, ':')[0];
    assert(forall|k: int| 0 <= k < x.len() ==> x[k] != ':') by {
        assert forall|k: int| 0 <= k < x.len() implies x[k] != ':' by {
            assert(split_on(id, ':')[0][k] != ':');
        }
    }
    lemma_trimmed_is_subrange(x);
    let (a, b) = choose|a: int, b: int| 0 <= a <= b <= x.len() && trimmed(x) == x.subrange(a, b);
    assert forall|k: int| 0 <= k < clean_id(id).len() implies clean_id(id)[k] != ':' by {
        assert(clean_id(id)[k] == x[a + k]);
    }
}

/// Cleaning a message id a second time changes nothing.
pub proof fn lemma_clean_id_idempotent(id: Seq<char>)
    ensures
        clean_id(clean_id(id)) == clean_id(id),
{
    lemma_clean_id_has_no_colon(id);
    let t = clean_id(id);
    lemma_split_without_separator(t, ':');
    lemma_trimmed_idempotent(split_on(id, ':')[0]);
}

/// Whatever follows the first `:` of an id does not change the cleaned id.
pub proof fn lemma_clean_id_ignores_suffix(id: Seq<char>, rest: Seq<char>)
    requires
        forall|k: int| 0 <= k < id.len() ==> id[k] != ':',
    ensures
        clean_id(id + seq![':'] + rest) == clean_id(id),
{
    let s = id + seq![':'] + rest;
    assert forall|k: int| 0 <= k < id.len() implies s[k] != ':' by {
        assert(s[k] == id[k]);
    }
    lemma_split_first_piece(s, ':', id.len() as int);
    assert(s.take(id.len() as int) == id);
    lemma_split_without_separator(id, ':');
}

proof fn lemma_trim_push_white(x: Seq<char>, c: char)
    requires
        is_white_space(c),
    ensures
        trimmed(x.push(c)) == trimmed(x),
    decreases x.len(),
{
    if x.len() == 0 {
        assert(x.push(c).drop_first() == Seq::<char>::empty());
        assert(x == Seq::<char>::empty());
    } else if is_white_space(x[0]) {
        assert(x.push(c)[0] == x[0]);
        assert(x.push(c).drop_first() == x.drop_first().push(c));
        lemma_trim_push_white(x.drop_first(), c);
    } else {
        assert(x.push(c)[0] == x[0]);
        assert(x.push(c).drop_last() == x);
    }
}

/// Spaces around an id do not change the cleaned id.
pub proof fn lemma_clean_id_ignores_surrounding_spaces(id: Seq<char>)
    requires
        forall|k: int| 0 <= k < id.len() ==> id[k] != ':',
    ensures
        clean_id(seq![' '] + id + seq![' ']) == clean_id(id),
{
    let s = seq![' '] + id + seq![' '];
    assert forall|k: int| 0 <= k < s.len() implies s[k] != ':' by {
        if 1 <= k < s.len() - 1 {
            assert(s[k] == id[k - 1]);
        }
    }
    lemma_split_without_separator(s, ':');
    lemma_split_without_separator(id, ':');
    assert(is_white_space(' '));
    assert(s.drop_first() == id.push(' '));
    assert(trim_start(s) == trim_start(id.push(' ')));
    lemma_trim_push_white(id, ' ');
}

} // verus!
