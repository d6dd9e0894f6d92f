//! Ordering rows by when they were made, and by id where that is the same.

use vstd::prelude::*;

verus! {

/// `a` comes before `b` in the order of their characters.
pub open spec fn text_before(a: Seq<char>, b: Seq<char>) -> bool
    decreases a.len(),
{
    if b.len() == 0 {
        false
    } else if a.len() == 0 {
        true
    } else if a[0] == b[0] {
        text_before(a.drop_first(), b.drop_first())
    } else {
        a[0] < b[0]
    }
}

/// Two texts compare as what follows their common beginning.
proof fn lemma_text_before_from(a: Seq<char>, b: Seq<char>, i: int)
    requires
        0 <= i <= a.len(),
        i <= b.len(),
        forall|j: int| 0 <= j < i ==> a[j] == b[j],
    ensures
        text_before(a, b) == text_before(
            a.subrange(i, a.len() as int),
            b.subrange(i, b.len() as int),
        ),
    decreases i,
{
    if i == 0 {
        assert(a.subrange(0, a.len() as int) =~= a);
        assert(b.subrange(0, b.len() as int) =~= b);
    } else {
        let x = a.drop_first();
        let y = b.drop_first();
        assert(a[0] == b[0]);
        assert forall|j: int| 0 <= j < i - 1 implies x[j] == y[j] by {
            assert(a[j + 1] == b[j + 1]);
        }
        lemma_text_before_from(x, y, i - 1);
        assert(x.subrange(i - 1, x.len() as int) =~= a.subrange(i, a.len() as int));
        assert(y.subrange(i - 1, y.len() as int) =~= b.subrange(i, b.len() as int));
    }
}

/// Whether `a` comes before `b` in the order of their characters.
pub fn is_text_before(a: &str, b: &str) -> (r: bool)
    ensures
        r == text_before(a@, b@),
{
    let n: usize = a.unicode_len();
    let m: usize = b.unicode_len();
    let mut i: usize = 0;
    while i < n && i < m
        invariant
            i <= n,
            i <= m,
            n == a@.len(),
            m == b@.len(),
            forall|j: int| 0 <= j < i ==> a@[j] == b@[j],
        decreases n - i,
    {
        let x = a.get_char(i);
        let y = b.get_char(i);
        if x != y {
            proof {
                lemma_text_before_from(a@, b@, i as int);
                assert(a@.subrange(i as int, n as int)[0] == x);
                assert(b@.subrange(i as int, m as int)[0] == y);
            }
            return x < y;
        }
        i = i + 1;
    }
    proof {
        lemma_text_before_from(a@, b@, i as int);
    }
    n < m
}

/// The order is strict and total: of two different texts exactly one comes first.
pub proof fn law_text_order_is_total(a: Seq<char>, b: Seq<char>)
    ensures
        text_before(a, b) ==> !text_before(b, a),
        a != b ==> text_before(a, b) || text_before(b, a),
        a == b ==> !text_before(a, b),
    decreases a.len(),
{
    if a.len() > 0 && b.len() > 0 && a[0] == b[0] {
        law_text_order_is_total(a.drop_first(), b.drop_first());
        if a.drop_first() == b.drop_first() {
            assert(a =~= b) by {
                assert forall|i: int| 0 <= i < a.len() implies a[i] == b[i] by {
                    if i > 0 {
                        assert(a[i] == a.drop_first()[i - 1]);
                        assert(b[i] == b.drop_first()[i - 1]);
                    }
                }
            }
        }
    } else if a.len() == 0 && b.len() == 0 {
        assert(a =~= b);
    }
}

/// The order carries over a middle text.
pub proof fn law_text_order_is_transitive(a: Seq<char>, b: Seq<char>, c: Seq<char>)
    requires
        text_before(a, b),
        text_before(b, c),
    ensures
        text_before(a, c),
    decreases a.len(),
{
    if a.len() > 0 && a[0] == b[0] && b[0] == c[0] {
        law_text_order_is_transitive(a.drop_first(), b.drop_first(), c.drop_first());
    }
}

/// A row that has a place in time and an id.
pub trait Dated: Sized {
    /// When the row was made.
    spec fn made(self) -> i64;

    /// The id of the row.
    spec fn id(self) -> Seq<char>;

    /// When the row was made.
    fn made_at(&self) -> (r: i64)
        ensures
            r == self.made(),
    ;

    /// The id of the row.
    fn row_id(&self) -> (r: &str)
        ensures
            r@ == self.id(),
    ;
}

/// `a` comes before `b`: it was made earlier, or at the same time with an earlier id.
pub open spec fn before<T: Dated>(a: T, b: T) -> bool {
    a.made() < b.made() || (a.made() == b.made() && text_before(a.id(), b.id()))
}

/// Whether `a` comes before `b`.
fn is_before<T: Dated>(a: &T, b: &T) -> (r: bool)
    ensures
        r == before(*a, *b),
{
    let x: i64 = a.made_at();
    let y: i64 = b.made_at();
    x < y || (x == y && is_text_before(a.row_id(), b.row_id()))
}

/// Rows in order with one more put in its place, behind those that are not after it.
pub open spec fn placed<T: Dated>(rows: Seq<T>, row: T) -> Seq<T>
    decreases rows.len(),
{
    if rows.len() == 0 || !before(row, rows.last()) {
        rows.push(row)
    } else {
        placed(rows.drop_last(), row).push(rows.last())
    }
}

/// Rows in order. Rows that compare equal stay as they were.
pub open spec fn ordered<T: Dated>(rows: Seq<T>) -> Seq<T>
    decreases rows.len(),
{
    if rows.len() == 0 {
        Seq::empty()
    } else {
        placed(ordered(rows.drop_last()), rows.last())
    }
}

proof fn lemma_placed_at<T: Dated>(rows: Seq<T>, row: T, at: int)
    requires
        0 <= at <= rows.len(),
        at > 0 ==> !before(row, rows[at - 1]),
        forall|j: int| at <= j < rows.len() ==> before(row, #[trigger] rows[j]),
    ensures
        placed(rows, row) == rows.insert(at, row),
    decreases rows.len(),
{
    if at == rows.len() {
        assert(rows.insert(at, row) =~= rows.push(row));
    } else {
        assert(before(row, rows[rows.len() - 1]));
        lemma_placed_at(rows.drop_last(), row, at);
        assert(rows.insert(at, row) =~= rows.drop_last().insert(at, row).push(rows.last()));
    }
}

fn place<T: Dated>(rows: &mut Vec<T>, row: T)
    ensures
        final(rows)@ == placed(old(rows)@, row),
{
    let mut at: usize = rows.len();
    while at > 0 && is_before(&row, &rows[at - 1])
        invariant
            at <= rows.len(),
            rows@ == old(rows)@,
            forall|j: int| at <= j < rows.len() ==> before(row, #[trigger] rows@[j]),
        decreases at,
    {
        at = at - 1;
    }
    proof {
        lemma_placed_at(rows@, row, at as int);
    }
    rows.insert(at, row);
}

/// Puts rows in order.
pub fn sort_rows<T: Dated>(rows: Vec<T>) -> (r: Vec<T>)
    ensures
        r@ == ordered(rows@),
{
    let ghost all = rows@;
    let mut sorted: Vec<T> = Vec::new();
    proof {
        assert(all.take(0) =~= Seq::empty());
    }
    for row in it: rows
        invariant
            it.seq() == all,
            sorted@ == ordered(all.take(it.index() as int)),
    {
        proof {
            let next = all.take(it.index() as int + 1);
            assert(next.drop_last() =~= all.take(it.index() as int));
            assert(next.last() == row);
        }
        place(&mut sorted, row);
    }
    proof {
        assert(all.take(all.len() as int) =~= all);
    }
    sorted
}

/// No row of `rows` comes before one that stands ahead of it.
pub open spec fn in_order<T: Dated>(rows: Seq<T>) -> bool {
    forall|i: int, j: int|
        0 <= i < j < rows.len() ==> !before(#[trigger] rows[j], #[trigger] rows[i])
}

proof fn lemma_not_before_is_transitive<T: Dated>(a: T, b: T, c: T)
    requires
        !before(b, a),
        !before(c, b),
    ensures
        !before(c, a),
{
    law_text_order_is_total(a.id(), b.id());
    law_text_order_is_total(b.id(), c.id());
    law_text_order_is_total(c.id(), a.id());
    if before(c, a) && c.made() == a.made() {
        if b.id() != a.id() && b.id() != c.id() {
            law_text_order_is_transitive(a.id(), b.id(), c.id());
        }
    }
}

proof fn lemma_placed<T: Dated>(rows: Seq<T>, row: T)
    requires
        in_order(rows),
    ensures
        in_order(placed(rows, row)),
        placed(rows, row).to_multiset() == rows.to_multiset().insert(row),
        placed(rows, row).len() == rows.len() + 1,
        forall|x: T|
            #![trigger placed(rows, row).contains(x)]
            placed(rows, row).contains(x) ==> x == row || rows.contains(x),
    decreases rows.len(),
{
    broadcast use vstd::seq_lib::group_to_multiset_ensures;

    if rows.len() == 0 || !before(row, rows.last()) {
        let all = rows.push(row);
        assert forall|i: int, j: int| 0 <= i < j < all.len() implies !before(
            #[trigger] all[j],
            #[trigger] all[i],
        ) by {
            if j == rows.len() {
                if i < rows.len() - 1 {
                    assert(!before(rows[rows.len() - 1], rows[i]));
                    lemma_not_before_is_transitive(rows[i], rows.last(), row);
                }
            } else {
                assert(!before(rows[j], rows[i]));
            }
        }
        assert forall|x: T| #![trigger all.contains(x)] all.contains(x) implies x == row
            || rows.contains(x) by {
            let k = choose|k: int| 0 <= k < all.len() && all[k] == x;
            if k < rows.len() {
                assert(rows[k] == x);
            }
        }
    } else {
        let head = rows.drop_last();
        let last = rows.last();
        assert(in_order(head)) by {
            assert forall|i: int, j: int| 0 <= i < j < head.len() implies !before(
                #[trigger] head[j],
                #[trigger] head[i],
            ) by {
                assert(!before(rows[j], rows[i]));
            }
        }
        lemma_placed(head, row);
        let mid = placed(head, row);
        let all = mid.push(last);
        assert(rows =~= head.push(last));
        assert forall|i: int, j: int| 0 <= i < j < all.len() implies !before(
            #[trigger] all[j],
            #[trigger] all[i],
        ) by {
            if j == mid.len() {
                assert(mid.contains(mid[i]));
                if mid[i] != row {
                    let k = choose|k: int| 0 <= k < head.len() && head[k] == mid[i];
                    assert(!before(rows[rows.len() - 1], rows[k]));
                } else {
                    law_text_order_is_total(row.id(), last.id());
                }
            } else {
                assert(!before(mid[j], mid[i]));
            }
        }
        assert forall|x: T| #![trigger all.contains(x)] all.contains(x) implies x == row
            || rows.contains(x) by {
            let k = choose|k: int| 0 <= k < all.len() && all[k] == x;
            if k < mid.len() {
                assert(mid.contains(x));
                if x != row {
                    let h = choose|h: int| 0 <= h < head.len() && head[h] == x;
                    assert(rows[h] == x);
                }
            } else {
                assert(rows[rows.len() - 1] == x);
            }
        }
        assert(all.to_multiset() =~= rows.to_multiset().insert(row));
    }
}

/// Ordering loses no row, adds none, and leaves none behind a later one.
pub proof fn law_ordering_rearranges<T: Dated>(rows: Seq<T>)
    ensures
        in_order(ordered(rows)),
        ordered(rows).to_multiset() == rows.to_multiset(),
        ordered(rows).len() == rows.len(),
    decreases rows.len(),
{
    broadcast use vstd::seq_lib::group_to_multiset_ensures;

    if rows.len() > 0 {
        law_ordering_rearranges(rows.drop_last());
        lemma_placed(ordered(rows.drop_last()), rows.last());
        assert(rows =~= rows.drop_last().push(rows.last()));
    } else {
        assert(ordered(rows) =~= rows);
    }
}

/// Two texts are ordered by the first character in which they differ, and where one is the
/// beginning of the other the shorter one comes first.
pub proof fn law_the_first_difference_orders(a: Seq<char>, b: Seq<char>, i: int)
    requires
        0 <= i <= a.len(),
        i <= b.len(),
        forall|j: int| 0 <= j < i ==> a[j] == b[j],
    ensures
        i < a.len() && i < b.len() && a[i] < b[i] ==> text_before(a, b) && !text_before(b, a),
        i == a.len() && i < b.len() ==> text_before(a, b) && !text_before(b, a),
        i == a.len() && i == b.len() ==> !text_before(a, b),
{
    lemma_text_before_from(a, b, i);
    lemma_text_before_from(b, a, i);
    let x = a.subrange(i, a.len() as int);
    let y = b.subrange(i, b.len() as int);
    if i < a.len() {
        assert(x[0] == a[i]);
    }
    if i < b.len() {
        assert(y[0] == b[i]);
    }
}

/// Of ordered rows none was made after one that stands behind it, and of two that were made at
/// the same time the one with the earlier id stands ahead.
pub proof fn law_ordered_rows_go_by_time<T: Dated>(rows: Seq<T>, i: int, j: int)
    requires
        0 <= i < j < ordered(rows).len(),
    ensures
        ordered(rows)[i].made() <= ordered(rows)[j].made(),
        ordered(rows)[i].made() == ordered(rows)[j].made() ==> ordered(rows)[i].id() == ordered(
            rows,
        )[j].id() || text_before(ordered(rows)[i].id(), ordered(rows)[j].id()),
{
    law_ordering_rearranges(rows);
    let a = ordered(rows)[i];
    let b = ordered(rows)[j];
    assert(!before(b, a));
    law_text_order_is_total(a.id(), b.id());
}

} // verus!
