//! Enumeration string tables: a flat run of bytes in which each entry ends
//! with a zero byte and an empty entry ends the table, so that the first two
//! adjacent zero bytes close it.

use vstd::prelude::*;
use crate::error::AltoError;

verus! {

/// Whether the bytes at `i` and `i + 1` are both zero.
pub open spec fn terminated_at(table: Seq<u8>, i: int) -> bool {
    0 <= i && i + 1 < table.len() && table[i] == 0 && table[i + 1] == 0
}

/// Whether `end` is where the table closes: the first place at which two
/// zero bytes stand side by side.
pub open spec fn is_table_end(table: Seq<u8>, end: int) -> bool {
    terminated_at(table, end) && forall|j: int| 0 <= j < end ==> !terminated_at(table, j)
}

/// Whether the bytes hold a terminator at all.
pub open spec fn has_terminator(table: Seq<u8>) -> bool {
    exists|i: int| terminated_at(table, i)
}

/// Where the table closes.
pub open spec fn spec_table_end(table: Seq<u8>) -> int {
    choose|end: int| is_table_end(table, end)
}

/// The entries that the zero bytes of `body` separate, in their order. A
/// body of n zero bytes has n + 1 entries; the empty body has one, which is
/// empty.
pub open spec fn spec_split(body: Seq<u8>) -> Seq<Seq<u8>>
    decreases body.len(),
{
    if body.len() == 0 {
        seq![Seq::<u8>::empty()]
    } else {
        let before = spec_split(body.drop_last());
        if body.last() == 0 {
            before.push(Seq::<u8>::empty())
        } else {
            before.drop_last().push(before.last().push(body.last()))
        }
    }
}

/// The entries written one after the other with a zero byte between each
/// two: the inverse of `spec_split`.
pub open spec fn spec_join(entries: Seq<Seq<u8>>) -> Seq<u8>
    decreases entries.len(),
{
    if entries.len() == 0 {
        Seq::<u8>::empty()
    } else if entries.len() == 1 {
        entries[0]
    } else {
        spec_join(entries.drop_last()) + seq![0u8] + entries.last()
    }
}

/// The entries of a table: none where the table opens with its terminator,
/// else those that the zero bytes before the terminator separate.
pub open spec fn spec_parse(table: Seq<u8>) -> Seq<Seq<u8>> {
    let end = spec_table_end(table);
    if end == 0 {
        Seq::<Seq<u8>>::empty()
    } else {
        spec_split(table.subrange(0, end))
    }
}

/// The entries of a parsed table as sequences of bytes.
pub open spec fn entries_view(entries: Vec<Vec<u8>>) -> Seq<Seq<u8>> {
    Seq::new(entries@.len(), |i: int| entries@[i]@)
}

/// A table closes at one place only.
pub proof fn lemma_table_end_unique(table: Seq<u8>, a: int, b: int)
    requires
        is_table_end(table, a),
        is_table_end(table, b),
    ensures
        a == b,
{
    if a < b {
        assert(!terminated_at(table, a));
    } else if b < a {
        assert(!terminated_at(table, b));
    }
}

/// Where a table closes is what `spec_table_end` names.
pub proof fn lemma_table_end_is(table: Seq<u8>, end: int)
    requires
        is_table_end(table, end),
    ensures
        spec_table_end(table) == end,
        has_terminator(table),
{
    lemma_table_end_unique(table, end, spec_table_end(table));
}

/// Splitting never yields nothing, and no entry holds a zero byte.
pub proof fn lemma_split_entries(body: Seq<u8>)
    ensures
        spec_split(body).len() >= 1,
        forall|i: int, j: int|
            0 <= i < spec_split(body).len() && 0 <= j < spec_split(body)[i].len()
                ==> #[trigger] spec_split(body)[i][j] != 0,
    decreases body.len(),
{
    if body.len() > 0 {
        lemma_split_entries(body.drop_last());
    }
}

/// Joining what was split gives the body back: splitting loses no byte and
/// keeps the order of the entries.
pub proof fn lemma_join_split(body: Seq<u8>)
    ensures
        spec_join(spec_split(body)) == body,
    decreases body.len(),
{
    if body.len() == 0 {
        assert(spec_join(spec_split(body)) =~= body);
    } else {
        let init = body.drop_last();
        let before = spec_split(init);
        lemma_split_entries(init);
        lemma_join_split(init);
        if body.last() == 0 {
            let after = before.push(Seq::<u8>::empty());
            assert(after.drop_last() =~= before);
            assert(spec_join(after) =~= spec_join(before) + seq![0u8] + Seq::<u8>::empty());
            assert(spec_join(after) =~= body);
        } else {
            let grown = before.last().push(body.last());
            let after = before.drop_last().push(grown);
            if before.len() == 1 {
                assert(spec_join(before) == before[0]);
                assert(after.len() == 1);
                assert(spec_join(after) == grown);
                assert(grown =~= body);
            } else {
                assert(after.drop_last() =~= before.drop_last());
                assert(spec_join(after) =~= spec_join(before.drop_last()) + seq![0u8] + grown);
                assert(spec_join(before) =~= spec_join(before.drop_last()) + seq![0u8]
                    + before.last());
                assert(body =~= init.push(body.last()));
                assert(spec_join(before.drop_last()) + seq![0u8] + grown =~= (spec_join(
                    before.drop_last(),
                ) + seq![0u8] + before.last()).push(body.last()));
                assert(spec_join(after) =~= body);
            }
        }
    }
}

/// Whether no entry holds a zero byte.
pub open spec fn zero_free(entries: Seq<Seq<u8>>) -> bool {
    forall|i: int, j: int|
        0 <= i < entries.len() && 0 <= j < entries[i].len() ==> #[trigger] entries[i][j] != 0
}

/// Bytes without a zero that follow a body lengthen its last entry.
proof fn lemma_split_append(body: Seq<u8>, more: Seq<u8>)
    requires
        forall|j: int| 0 <= j < more.len() ==> more[j] != 0,
    ensures
        spec_split(body + more) == spec_split(body).drop_last().push(
            spec_split(body).last() + more,
        ),
    decreases more.len(),
{
    lemma_split_entries(body);
    let before = spec_split(body);
    if more.len() == 0 {
        assert(body + more =~= body);
        assert(before.last() + more =~= before.last());
        assert(before.drop_last().push(before.last()) =~= before);
    } else {
        let init = more.drop_last();
        lemma_split_append(body, init);
        assert((body + more).drop_last() =~= body + init);
        assert((body + more).last() == more.last());
        let mid = spec_split(body + init);
        assert(mid.last() == before.last() + init);
        assert(mid.drop_last() =~= before.drop_last());
        assert((before.last() + init).push(more.last()) =~= before.last() + more);
    }
}

/// Splitting what was joined gives the entries back, for entries that hold
/// no zero byte. With `lemma_join_split` this makes splitting the one way
/// to read a body as entries without zero bytes.
pub proof fn lemma_split_join(entries: Seq<Seq<u8>>)
    requires
        entries.len() >= 1,
        zero_free(entries),
    ensures
        spec_split(spec_join(entries)) == entries,
    decreases entries.len(),
{
    let last = entries.last();
    assert forall|j: int| 0 <= j < last.len() implies last[j] != 0 by {
        assert(entries[entries.len() - 1][j] != 0);
    }
    if entries.len() == 1 {
        lemma_split_append(Seq::<u8>::empty(), last);
        assert(Seq::<u8>::empty() + last =~= last);
        assert(spec_split(Seq::<u8>::empty()) =~= seq![Seq::<u8>::empty()]);
        assert(spec_split(last) =~= entries);
    } else {
        let init = entries.drop_last();
        assert(zero_free(init)) by {
            assert forall|i: int, j: int|
                0 <= i < init.len() && 0 <= j < init[i].len() implies #[trigger] init[i][j]
                != 0 by {
                assert(entries[i][j] != 0);
            }
        }
        lemma_split_join(init);
        let head = spec_join(init) + seq![0u8];
        assert(head.drop_last() =~= spec_join(init));
        assert(spec_split(head) == init.push(Seq::<u8>::empty()));
        lemma_split_append(head, last);
        assert(init.push(Seq::<u8>::empty()).drop_last() =~= init);
        assert(Seq::<u8>::empty() + last =~= last);
        assert(init.push(last) =~= entries);
    }
}

/// A table that opens with two zero bytes has no entries.
pub proof fn lemma_parse_empty_table(table: Seq<u8>)
    requires
        table.len() >= 2,
        table[0] == 0,
        table[1] == 0,
    ensures
        spec_parse(table) == Seq::<Seq<u8>>::empty(),
{
    assert(is_table_end(table, 0));
    lemma_table_end_is(table, 0);
}

/// Nothing after the terminator matters: a table has the entries of its
/// own beginning up to and with the two closing zero bytes.
pub proof fn lemma_parse_ignores_rest(table: Seq<u8>)
    requires
        has_terminator(table),
    ensures
        spec_parse(table) == spec_parse(table.subrange(0, spec_table_end(table) + 2)),
{
    lemma_first_terminator(table, table.len() as int - 1);
    let end = spec_table_end(table);
    let cut = table.subrange(0, end + 2);
    assert(terminated_at(cut, end));
    assert forall|j: int| 0 <= j < end implies !terminated_at(cut, j) by {
        assert(!terminated_at(table, j));
    }
    lemma_table_end_is(cut, end);
    assert(cut.subrange(0, end) =~= table.subrange(0, end));
}

/// A table with a terminator below `bound` closes somewhere.
proof fn lemma_first_terminator(table: Seq<u8>, bound: int)
    requires
        exists|i: int| i < bound && terminated_at(table, i),
    ensures
        is_table_end(table, spec_table_end(table)),
    decreases bound,
{
    let i = choose|i: int| i < bound && terminated_at(table, i);
    if exists|j: int| j < i && terminated_at(table, j) {
        lemma_first_terminator(table, i);
    } else {
        assert(is_table_end(table, i));
    }
}

/// Finds where the table closes, reading no byte after the terminator.
pub fn table_end(table: &[u8]) -> (r: Option<usize>)
    ensures
        r is Some <==> has_terminator(table@),
        r is Some ==> is_table_end(table@, r->0 as int) && r->0 == spec_table_end(table@),
{
    let n: usize = table.len();
    let mut i: usize = 0;
    while i < n && n - i >= 2
        invariant
            n == table@.len(),
            i <= n,
            forall|j: int| 0 <= j < i ==> !terminated_at(table@, j),
        decreases n - i,
    {
        if table[i] == 0 && table[i + 1] == 0 {
            proof {
                lemma_table_end_is(table@, i as int);
            }
            return Some(i);
        }
        i = i + 1;
    }
    assert(!has_terminator(table@)) by {
        if has_terminator(table@) {
            let k = choose|k: int| terminated_at(table@, k);
            assert(k < i);
        }
    }
    None
}

/// Whether the bytes read so far end with the terminator, so that the
/// table is closed and no further byte may be read.
pub fn closes_table(read: &[u8]) -> (closed: bool)
    ensures
        closed == terminated_at(read@, read@.len() - 2),
{
    let n: usize = read.len();
    n >= 2 && read[n - 2] == 0 && read[n - 1] == 0
}

/// Reading byte by byte until the bytes read close the table reads the
/// table and not one byte more: the table then ends with the bytes read.
pub proof fn lemma_closing_read(read: Seq<u8>)
    requires
        terminated_at(read, read.len() - 2),
        !has_terminator(read.drop_last()),
    ensures
        is_table_end(read, read.len() - 2),
        spec_table_end(read) + 2 == read.len(),
{
    assert forall|j: int| 0 <= j < read.len() - 2 implies !terminated_at(read, j) by {
        if terminated_at(read, j) {
            assert(terminated_at(read.drop_last(), j));
        }
    }
    lemma_table_end_is(read, read.len() - 2);
}

/// Splits `body` at its zero bytes.
pub fn split_entries(body: &[u8]) -> (entries: Vec<Vec<u8>>)
    ensures
        entries_view(entries) == spec_split(body@),
{
    let mut entries: Vec<Vec<u8>> = Vec::new();
    let mut current: Vec<u8> = Vec::new();
    let mut k: usize = 0;
    assert(body@.subrange(0, 0) =~= Seq::<u8>::empty());
    assert(entries_view(entries).push(current@) =~= seq![Seq::<u8>::empty()]);
    while k < body.len()
        invariant
            k <= body@.len(),
            entries_view(entries).push(current@) == spec_split(body@.subrange(0, k as int)),
        decreases body@.len() - k,
    {
        let b: u8 = body[k];
        let ghost before = entries_view(entries).push(current@);
        proof {
            let next = body@.subrange(0, k as int + 1);
            assert(next.drop_last() =~= body@.subrange(0, k as int));
            assert(next.last() == b);
        }
        if b == 0 {
            entries.push(current);
            current = Vec::new();
            assert(entries_view(entries).push(current@) =~= before.push(Seq::<u8>::empty()));
        } else {
            current.push(b);
            assert(entries_view(entries).push(current@) =~= before.drop_last().push(
                before.last().push(b),
            ));
        }
        k = k + 1;
    }
    assert(body@.subrange(0, k as int) =~= body@);
    let ghost before = entries_view(entries).push(current@);
    entries.push(current);
    assert(entries_view(entries) =~= before);
    entries
}

/// Parses an enumeration table into its entries, in the order in which the
/// table holds them. Bytes that hold no terminator are no table: they are
/// refused with an invalid-value error.
pub fn parse_enum_spec(table: &[u8]) -> (r: Result<Vec<Vec<u8>>, AltoError>)
    ensures
        has_terminator(table@) ==> r is Ok && entries_view(r->Ok_0) == spec_parse(table@),
        !has_terminator(table@) ==> r == Err::<Vec<Vec<u8>>, AltoError>(
            AltoError::AlcInvalidValue,
        ),
{
    match table_end(table) {
        None => Err(AltoError::AlcInvalidValue),
        Some(end) => {
            if end == 0 {
                let entries: Vec<Vec<u8>> = Vec::new();
                assert(entries_view(entries) =~= Seq::<Seq<u8>>::empty());
                Ok(entries)
            } else {
                let body = vstd::slice::slice_subrange(table, 0, end);
                Ok(split_entries(body))
            }
        },
    }
}

} // verus!
