//! Splitting and joining of `:`-delimited command text.

use vstd::prelude::*;

verus! {

/// The one reserved delimiter of the command grammar.
pub const DELIMITER_CHAR: char = ':';

/// The delimiter as text.
pub const DELIMITER: &'static str = ":";

/// The fields of `s` between delimiters, as `str::split(':')` yields them:
/// the empty text has one empty field, and a delimiter at either end
/// yields an empty field there.
pub open spec fn split_fields(s: Seq<char>) -> Seq<Seq<char>>
    decreases s.len(),
{
    if s.len() == 0 {
        seq![Seq::<char>::empty()]
    } else {
        let init = split_fields(s.drop_last());
        if s.last() == DELIMITER_CHAR {
            init.push(Seq::<char>::empty())
        } else {
            init.update(init.len() - 1, init.last().push(s.last()))
        }
    }
}

/// The fields `f` written one after another with a delimiter between each two.
pub open spec fn join_fields(f: Seq<Seq<char>>) -> Seq<char>
    decreases f.len(),
{
    if f.len() == 0 {
        Seq::<char>::empty()
    } else if f.len() == 1 {
        f[0]
    } else {
        join_fields(f.drop_last()) + seq![DELIMITER_CHAR] + f.last()
    }
}

/// The texts held by a sequence of strings.
pub open spec fn texts(v: Seq<String>) -> Seq<Seq<char>> {
    v.map_values(|t: String| t@)
}

/// `s` holds no delimiter.
pub open spec fn is_field(s: Seq<char>) -> bool {
    forall|k: int| 0 <= k < s.len() ==> s[k] != DELIMITER_CHAR
}

/// Every text has at least one field.
pub proof fn lemma_split_nonempty(s: Seq<char>)
    ensures
        split_fields(s).len() >= 1,
    decreases s.len(),
{
    if s.len() > 0 {
        lemma_split_nonempty(s.drop_last());
    }
}

/// Joining the fields of a text gives the text back.
pub proof fn lemma_join_split(s: Seq<char>)
    ensures
        join_fields(split_fields(s)) == s,
    decreases s.len(),
{
    if s.len() > 0 {
        let init = s.drop_last();
        lemma_join_split(init);
        lemma_split_nonempty(init);
        let f = split_fields(init);
        if s.last() == DELIMITER_CHAR {
            assert(split_fields(s).drop_last() == f);
            assert(join_fields(split_fields(s)) == init + seq![DELIMITER_CHAR] + Seq::<char>::empty());
            assert(init + seq![DELIMITER_CHAR] + Seq::<char>::empty() =~= s);
        } else {
            let g = split_fields(s);
            assert(g == f.update(f.len() - 1, f.last().push(s.last())));
            if f.len() == 1 {
                assert(join_fields(g) == f[0].push(s.last()));
                assert(f[0].push(s.last()) =~= s);
            } else {
                assert(g.drop_last() =~= f.drop_last());
                assert(join_fields(g) == join_fields(f.drop_last()) + seq![DELIMITER_CHAR] + f.last().push(
                    s.last(),
                ));
                assert(join_fields(f) == join_fields(f.drop_last()) + seq![DELIMITER_CHAR] + f.last());
                assert(join_fields(f.drop_last()) + seq![DELIMITER_CHAR] + f.last().push(s.last())
                    =~= (join_fields(f.drop_last()) + seq![DELIMITER_CHAR] + f.last()).push(s.last()));
                assert(init.push(s.last()) =~= s);
            }
        }
    }
}

/// A text without delimiters is a single field.
pub proof fn lemma_split_field(x: Seq<char>)
    requires
        is_field(x),
    ensures
        split_fields(x) == seq![x],
    decreases x.len(),
{
    if x.len() > 0 {
        let init = x.drop_last();
        assert(is_field(init));
        lemma_split_field(init);
        assert(init.push(x.last()) =~= x);
        assert(seq![init].update(0, init.push(x.last())) =~= seq![x]);
    } else {
        assert(x =~= Seq::<char>::empty());
    }
}

/// Splitting `a`, a delimiter, then a field `x` gives the fields of `a` and then `x`.
pub proof fn lemma_split_append_field(a: Seq<char>, x: Seq<char>)
    requires
        is_field(x),
    ensures
        split_fields(a + seq![DELIMITER_CHAR] + x) == split_fields(a).push(x),
    decreases x.len(),
{
    let s = a + seq![DELIMITER_CHAR] + x;
    if x.len() == 0 {
        assert(s.drop_last() =~= a);
        assert(s.last() == DELIMITER_CHAR);
        assert(x =~= Seq::<char>::empty());
    } else {
        let init = x.drop_last();
        assert(is_field(init));
        lemma_split_append_field(a, init);
        assert(s.drop_last() =~= a + seq![DELIMITER_CHAR] + init);
        assert(s.last() == x.last());
        let g = split_fields(a).push(init);
        assert(init.push(x.last()) =~= x);
        assert(g.update(g.len() - 1, g.last().push(x.last())) =~= split_fields(a).push(x));
    }
}

/// Splitting the join of one or more fields gives the fields back.
pub proof fn lemma_split_join(f: Seq<Seq<char>>)
    requires
        f.len() >= 1,
        forall|k: int| 0 <= k < f.len() ==> is_field(#[trigger] f[k]),
    ensures
        split_fields(join_fields(f)) == f,
    decreases f.len(),
{
    if f.len() == 1 {
        lemma_split_field(f[0]);
        assert(seq![f[0]] =~= f);
    } else {
        let init = f.drop_last();
        assert forall|k: int| 0 <= k < init.len() implies is_field(#[trigger] init[k]) by {
            assert(init[k] == f[k]);
        }
        lemma_split_join(init);
        assert(is_field(f[f.len() - 1]));
        lemma_split_append_field(join_fields(init), f.last());
        assert(init.push(f.last()) =~= f);
    }
}

/// Whether two texts hold the same characters.
pub fn text_eq(a: &str, b: &str) -> (r: bool)
    ensures
        r == (a@ == b@),
{
    let n = a.unicode_len();
    let m = b.unicode_len();
    if n != m {
        return false;
    }
    let mut i: usize = 0;
    while i < n
        invariant
            n == a@.len(),
            m == b@.len(),
            n == m,
            i <= n,
            a@.subrange(0, i as int) == b@.subrange(0, i as int),
        decreases n - i,
    {
        if a.get_char(i) != b.get_char(i) {
            assert(a@[i as int] != b@[i as int]);
            return false;
        }
        assert(a@.subrange(0, i + 1) =~= a@.subrange(0, i as int).push(a@[i as int]));
        assert(b@.subrange(0, i + 1) =~= b@.subrange(0, i as int).push(b@[i as int]));
        i = i + 1;
    }
    assert(a@ =~= a@.subrange(0, n as int));
    assert(b@ =~= b@.subrange(0, n as int));
    true
}

/// Splits `s` at every delimiter, as `str::split(':')` does.
pub fn split_delimited(s: &str) -> (r: Vec<String>)
    ensures
        texts(r@) == split_fields(s@),
{
    let n = s.unicode_len();
    let mut fields: Vec<String> = Vec::new();
    let mut start: usize = 0;
    let mut i: usize = 0;
    assert(s@.subrange(0, 0) =~= Seq::<char>::empty());
    assert(fields@.map_values(|t: String| t@).push(s@.subrange(0, 0)) =~= seq![Seq::<char>::empty()]);
    while i < n
        invariant
            n == s@.len(),
            start <= i <= n,
            fields@.map_values(|t: String| t@).push(s@.subrange(start as int, i as int))
                == split_fields(s@.subrange(0, i as int)),
        decreases n - i,
    {
        let c = s.get_char(i);
        let ghost prev = s@.subrange(0, i as int);
        let ghost next = s@.subrange(0, i + 1);
        assert(next.drop_last() =~= prev);
        assert(next.last() == c);
        if c == DELIMITER_CHAR {
            let ghost before = fields@.map_values(|t: String| t@);
            let field = s.substring_char(start, i).to_owned();
            assert(field@ == s@.subrange(start as int, i as int));
            fields.push(field);
            assert(fields@.map_values(|t: String| t@) =~= before.push(field@));
            start = i + 1;
            assert(s@.subrange(start as int, i + 1) =~= Seq::<char>::empty());
            assert(fields@.map_values(|t: String| t@).push(s@.subrange(start as int, i + 1))
                =~= split_fields(prev).push(Seq::<char>::empty()));
        } else {
            let ghost f = split_fields(prev);
            assert(s@.subrange(start as int, i + 1) =~= s@.subrange(start as int, i as int).push(c));
            assert(fields@.map_values(|t: String| t@).push(s@.subrange(start as int, i + 1))
                =~= f.update(f.len() - 1, f.last().push(c)));
        }
        i = i + 1;
    }
    let last = s.substring_char(start, n).to_owned();
    fields.push(last);
    assert(s@.subrange(0, n as int) =~= s@);
    assert(fields@.map_values(|t: String| t@) =~= split_fields(s@));
    fields
}

/// Writes `fields` one after another with a delimiter between each two.
pub fn join_delimited(fields: &Vec<String>) -> (r: String)
    ensures
        r@ == join_fields(texts(fields@)),
{
    let n = fields.len();
    if n == 0 {
        return String::new();
    }
    let mut out = fields[0].clone();
    let mut k: usize = 1;
    assert(texts(fields@).subrange(0, 1) =~= seq![fields@[0]@]);
    while k < n
        invariant
            n == fields@.len(),
            1 <= k <= n,
            out@ == join_fields(texts(fields@).subrange(0, k as int)),
        decreases n - k,
    {
        let ghost prefix = texts(fields@).subrange(0, k as int);
        let ghost longer = texts(fields@).subrange(0, k + 1);
        assert(longer.drop_last() =~= prefix);
        assert(longer.last() == fields@[k as int]@);
        out.append(DELIMITER);
        proof {
            reveal_strlit(":");
        }
        out.append(fields[k].as_str());
        assert(out@ =~= join_fields(prefix) + seq![DELIMITER_CHAR] + fields@[k as int]@);
        k = k + 1;
    }
    assert(texts(fields@).subrange(0, n as int) =~= texts(fields@));
    out
}

} // verus!
