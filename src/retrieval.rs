//! What a data retrieval depends on besides the ticket: the row limit of
//! its request metadata, and the minimum row count a frame must reach
//! before it may be retrieved.

use vstd::prelude::*;
use crate::delimited::text_eq;

verus! {

/// Whether `c` is an ASCII decimal digit.
pub open spec fn is_digit(c: char) -> bool {
    '0' <= c <= '9'
}

/// The value of the decimal digits `d`, most significant first.
pub open spec fn digits_value(d: Seq<char>) -> int
    decreases d.len(),
{
    if d.len() == 0 {
        0
    } else {
        digits_value(d.drop_last()) * 10 + (d.last() as int - '0' as int)
    }
}

/// The digits of `s` after an optional leading `+`.
pub open spec fn unsigned_digits(s: Seq<char>) -> Seq<char> {
    if s.len() > 0 && s[0] == '+' {
        s.drop_first()
    } else {
        s
    }
}

/// The row limit that `s` states: an optional `+` followed by one or more
/// decimal digits whose value fits in a `u32`; `None` for any other text.
pub open spec fn row_limit_of(s: Seq<char>) -> Option<u32> {
    let d = unsigned_digits(s);
    if d.len() > 0 && (forall|k: int| 0 <= k < d.len() ==> is_digit(#[trigger] d[k]))
        && digits_value(d) <= u32::MAX {
        Some(digits_value(d) as u32)
    } else {
        None
    }
}

proof fn lemma_digits_value_grows(d: Seq<char>, k: int)
    requires
        0 <= k <= d.len(),
        forall|j: int| 0 <= j < d.len() ==> is_digit(#[trigger] d[j]),
    ensures
        digits_value(d.take(k)) <= digits_value(d),
        digits_value(d) >= 0,
    decreases d.len() - k,
{
    if k < d.len() {
        lemma_digits_value_grows(d, k + 1);
        assert(d.take(k + 1).drop_last() =~= d.take(k));
        assert(is_digit(d[k]));
        lemma_digits_value_nonneg(d.take(k));
    } else {
        assert(d.take(k) =~= d);
        lemma_digits_value_nonneg(d);
    }
}

proof fn lemma_digits_value_nonneg(d: Seq<char>)
    requires
        forall|j: int| 0 <= j < d.len() ==> is_digit(#[trigger] d[j]),
    ensures
        digits_value(d) >= 0,
    decreases d.len(),
{
    if d.len() > 0 {
        let init = d.drop_last();
        assert forall|j: int| 0 <= j < init.len() implies is_digit(#[trigger] init[j]) by {
            assert(init[j] == d[j]);
        }
        lemma_digits_value_nonneg(init);
        assert(is_digit(d[d.len() - 1]));
    }
}

/// Parses the `n-rows` metadata of a retrieval as `str::parse::<u32>` does:
/// an optional `+`, then decimal digits whose value fits in a `u32`.
pub fn parse_row_limit(s: &str) -> (r: Option<u32>)
    ensures
        r == row_limit_of(s@),
{
    let n = s.unicode_len();
    let mut start: usize = 0;
    if n > 0 && s.get_char(0) == '+' {
        start = 1;
    }
    let ghost d = unsigned_digits(s@);
    assert(d =~= s@.subrange(start as int, n as int));
    if start == n {
        return None;
    }
    let mut acc: u64 = 0;
    let mut k: usize = start;
    while k < n
        invariant
            n == s@.len(),
            start < n,
            start <= k <= n,
            d == s@.subrange(start as int, n as int),
            d == unsigned_digits(s@),
            forall|j: int| 0 <= j < k - start ==> is_digit(#[trigger] d[j]),
            acc as int == digits_value(d.take(k - start)),
            acc <= u32::MAX,
        decreases n - k,
    {
        let c = s.get_char(k);
        assert(c == d[k - start]);
        if c < '0' || c > '9' {
            assert(!is_digit(d[k - start]));
            return None;
        }
        let digit = (c as u32 - '0' as u32) as u64;
        assert(d.take(k - start + 1).drop_last() =~= d.take(k - start));
        assert(d.take(k - start + 1).last() == c);
        acc = acc * 10 + digit;
        assert(acc as int == digits_value(d.take(k - start + 1)));
        if acc > u32::MAX as u64 {
            proof {
                if forall|i: int| 0 <= i < d.len() ==> is_digit(#[trigger] d[i]) {
                    lemma_digits_value_grows(d, k - start + 1);
                }
            }
            return None;
        }
        k = k + 1;
    }
    assert(d.take(n - start) =~= d);
    Some(acc as u32)
}

/// The minimum of trading system `k` among `entries`: the last entry for
/// `k` decides; `None` if there is none.
pub open spec fn minimum_of(entries: Seq<(Seq<char>, u32)>, k: Seq<char>) -> Option<u32>
    decreases entries.len(),
{
    if entries.len() == 0 {
        None
    } else if entries.last().0 == k {
        Some(entries.last().1)
    } else {
        minimum_of(entries.drop_last(), k)
    }
}

proof fn lemma_minimum_of_update(entries: Seq<(Seq<char>, u32)>, j: int, n: u32, k2: Seq<char>)
    requires
        0 <= j < entries.len(),
        forall|i: int| j < i < entries.len() ==> entries[i].0 != entries[j].0,
    ensures
        minimum_of(entries.update(j, (entries[j].0, n)), k2) == if k2 == entries[j].0 {
            Some(n)
        } else {
            minimum_of(entries, k2)
        },
    decreases entries.len(),
{
    let k = entries[j].0;
    let u = entries.update(j, (k, n));
    if j < entries.len() - 1 {
        assert(u.drop_last() =~= entries.drop_last().update(j, (k, n)));
        assert(u.last() == entries.last());
        lemma_minimum_of_update(entries.drop_last(), j, n, k2);
    } else {
        assert(u.drop_last() =~= entries.drop_last());
    }
}

/// The minimum number of rows that the frames of each trading system must
/// hold before they may be retrieved.
pub struct RowMinimums {
    entries: Vec<(String, u32)>,
}

impl View for RowMinimums {
    type V = Seq<(Seq<char>, u32)>;

    closed spec fn view(&self) -> Seq<(Seq<char>, u32)> {
        self.entries@.map_values(|e: (String, u32)| (e.0@, e.1))
    }
}

impl RowMinimums {
    /// The minimum for trading system `k`, if one was set.
    pub open spec fn minimum(&self, k: Seq<char>) -> Option<u32> {
        minimum_of(self@, k)
    }

    /// No minimum for any trading system.
    pub fn new() -> (r: RowMinimums)
        ensures
            forall|k: Seq<char>| r.minimum(k) is None,
    {
        let r = RowMinimums { entries: Vec::new() };
        assert(r@ =~= Seq::<(Seq<char>, u32)>::empty());
        r
    }

    /// Sets the minimum of one trading system; the others keep theirs.
    pub fn set(&mut self, trading_system_id: &str, minimum_rows: u32)
        ensures
            final(self).minimum(trading_system_id@) == Some(minimum_rows),
            forall|k: Seq<char>| k != trading_system_id@ ==> final(self).minimum(k) == old(self).minimum(k),
    {
        let n = self.entries.len();
        let mut j: usize = n;
        while j > 0
            invariant
                j <= n == self.entries@.len(),
                self@ == old(self)@,
                forall|i: int| j <= i < n ==> #[trigger] self@[i].0 != trading_system_id@,
            decreases j,
        {
            if text_eq(self.entries[j - 1].0.as_str(), trading_system_id) {
                let ghost before = self@;
                assert(before[j - 1].0 == trading_system_id@);
                self.entries.set(j - 1, (trading_system_id.to_owned(), minimum_rows));
                assert(self@ =~= before.update(j - 1, (before[j - 1].0, minimum_rows)));
                proof {
                    assert forall|k: Seq<char>| #[trigger] minimum_of(self@, k) == if k == before[j - 1].0 {
                        Some(minimum_rows)
                    } else {
                        minimum_of(before, k)
                    } by {
                        lemma_minimum_of_update(before, j - 1, minimum_rows, k);
                    }
                }
                return;
            }
            j = j - 1;
        }
        let ghost before = self@;
        self.entries.push((trading_system_id.to_owned(), minimum_rows));
        assert(self@ =~= before.push((trading_system_id@, minimum_rows)));
        assert(self@.drop_last() =~= before);
    }

    /// The minimum of one trading system, if one was set.
    pub fn get(&self, trading_system_id: &str) -> (r: Option<u32>)
        ensures
            r == self.minimum(trading_system_id@),
    {
        let n = self.entries.len();
        let mut j: usize = n;
        assert(self@.subrange(0, n as int) =~= self@);
        while j > 0
            invariant
                j <= n == self.entries@.len(),
                minimum_of(self@, trading_system_id@) == minimum_of(self@.subrange(0, j as int), trading_system_id@),
            decreases j,
        {
            let ghost prefix = self@.subrange(0, j as int);
            assert(prefix.last() == self@[j - 1]);
            assert(prefix.drop_last() =~= self@.subrange(0, j - 1));
            if text_eq(self.entries[j - 1].0.as_str(), trading_system_id) {
                return Some(self.entries[j - 1].1);
            }
            j = j - 1;
        }
        assert(self@.subrange(0, 0) =~= Seq::<(Seq<char>, u32)>::empty());
        None
    }
}

/// Whether a frame of `height` rows may be retrieved under `minimum_rows`:
/// always when no minimum is set, otherwise once it holds that many rows.
pub fn projection_ready(height: usize, minimum_rows: Option<u32>) -> (r: bool)
    ensures
        r == match minimum_rows {
            None => true,
            Some(m) => height as int >= m as int,
        },
{
    match minimum_rows {
        None => true,
        Some(m) => height as u64 >= m as u64,
    }
}

} // verus!
