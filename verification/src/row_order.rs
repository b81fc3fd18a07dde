//! The orders in which the process table sorts its rows.

use vstd::prelude::*;
use std::cmp::Ordering;
use crate::float_bits::{f32_is_nan, f32_rank};
use crate::parser::f32_less_bits;
use crate::process::{Process, ProcessModel};
use crate::sort::RowSort;

verus! {

/// The process id as an integer.
pub open spec fn pid_key(p: ProcessModel) -> int {
    p.pid as int
}

/// The memory usage as an integer.
pub open spec fn mem_key(p: ProcessModel) -> int {
    p.mem as int
}

/// A 64-bit number as an integer.
pub open spec fn u64_key(x: u64) -> int {
    x as int
}

/// The characters of `s` from index `i` on.
pub open spec fn chars_from(s: Seq<char>, i: usize) -> Seq<char> {
    s.skip(i as int)
}

/// The order of two integers.
pub open spec fn int_order(a: int, b: int) -> Ordering {
    if a < b {
        Ordering::Less
    } else if a > b {
        Ordering::Greater
    } else {
        Ordering::Equal
    }
}

/// `partial_cmp` on two `f32` given by their bits, with an unordered pair
/// (a NaN) taken as equal.
pub open spec fn f32_order(a: u32, b: u32) -> Ordering {
    if f32_is_nan(a) || f32_is_nan(b) {
        Ordering::Equal
    } else {
        int_order(f32_rank(a), f32_rank(b))
    }
}

/// The lexicographic order of two strings by code point, which is the order
/// of their UTF-8 bytes, the order of `String`.
pub open spec fn text_order(a: Seq<char>, b: Seq<char>) -> Ordering
    decreases a.len(),
{
    if a.len() == 0 {
        if b.len() == 0 {
            Ordering::Equal
        } else {
            Ordering::Less
        }
    } else if b.len() == 0 {
        Ordering::Greater
    } else if a[0] < b[0] {
        Ordering::Less
    } else if a[0] > b[0] {
        Ordering::Greater
    } else {
        text_order(a.drop_first(), b.drop_first())
    }
}

/// Names order as `String` does, lexicographically by character: equal
/// names are equal; a proper prefix comes first; otherwise the first
/// character in which they differ decides.
pub proof fn law_text_order_lexicographic(a: Seq<char>, b: Seq<char>, s: Seq<char>, i: int)
    ensures
        (text_order(a, b) == Ordering::Equal) <==> a == b,
        s.len() > 0 ==> text_order(a, a + s) == Ordering::Less,
        s.len() > 0 ==> text_order(a + s, a) == Ordering::Greater,
        (0 <= i < a.len() && i < b.len() && a.take(i) == b.take(i) && a[i] != b[i]) ==> text_order(a, b)
            == (if a[i] < b[i] {
            Ordering::Less
        } else {
            Ordering::Greater
        }),
    decreases a.len(),
{
    if a.len() > 0 && b.len() > 0 {
        law_text_order_lexicographic(a.drop_first(), b.drop_first(), s, i - 1);
        if a[0] == b[0] && a.drop_first() == b.drop_first() {
            assert forall|j: int| 0 <= j < a.len() implies a[j] == b[j] by {
                if j > 0 {
                    assert(a[j] == a.drop_first()[j - 1]);
                    assert(b[j] == b.drop_first()[j - 1]);
                }
            }
            assert(a =~= b);
        }
        if a == b {
            assert(a.drop_first() =~= b.drop_first());
        }
        if 0 < i < a.len() && i < b.len() && a.take(i) == b.take(i) {
            assert(a[0] == a.take(i)[0] && b[0] == b.take(i)[0]);
            assert(a.drop_first().take(i - 1) =~= a.take(i).drop_first());
            assert(b.drop_first().take(i - 1) =~= b.take(i).drop_first());
        }
    }
    if a.len() > 0 && s.len() > 0 {
        law_text_order_lexicographic(a.drop_first(), b, s, i);
        assert((a + s).drop_first() =~= a.drop_first() + s);
        assert((a + s)[0] == a[0]);
    }
    if a.len() == 0 && s.len() > 0 {
        assert(a + s =~= s);
    }
    if a.len() == 0 && b.len() == 0 {
        assert(a =~= b);
    }
}

/// The order of two processes in the given row sort.
pub open spec fn row_order(sort: RowSort, a: ProcessModel, b: ProcessModel) -> Ordering {
    match sort {
        RowSort::PidDec => int_order(pid_key(b), pid_key(a)),
        RowSort::PidInc => int_order(pid_key(a), pid_key(b)),
        RowSort::CpuDec => f32_order(b.cpu_total, a.cpu_total),
        RowSort::CpuInc => f32_order(a.cpu_total, b.cpu_total),
        RowSort::MemDec => int_order(mem_key(b), mem_key(a)),
        RowSort::MemInc => int_order(mem_key(a), mem_key(b)),
        RowSort::NameDec => text_order(b.name, a.name),
        RowSort::NameInc => text_order(a.name, b.name),
    }
}

/// Sorted by name, a process whose name is a proper prefix of another's
/// comes first going up and last going down.
pub proof fn law_name_sort_prefix_first(x: ProcessModel, y: ProcessModel, s: Seq<char>)
    requires
        s.len() > 0,
        y.name == x.name + s,
    ensures
        row_order(RowSort::NameInc, x, y) == Ordering::Less,
        row_order(RowSort::NameInc, y, x) == Ordering::Greater,
        row_order(RowSort::NameDec, x, y) == Ordering::Greater,
        row_order(RowSort::NameDec, y, x) == Ordering::Less,
{
    law_text_order_lexicographic(x.name, y.name, s, 0);
}


/// `a` may come before `b`: it does not order after it.
pub open spec fn row_le(sort: RowSort, a: ProcessModel, b: ProcessModel) -> bool {
    row_order(sort, a, b) != Ordering::Greater
}

/// The sort is a total preorder on these processes: every order but the
/// CPU orders is, and those are while no CPU usage is NaN.
pub open spec fn sort_consistent(sort: RowSort, ps: Seq<ProcessModel>) -> bool {
    (sort is CpuDec || sort is CpuInc) ==> forall|i: int|
        0 <= i < ps.len() ==> !f32_is_nan(#[trigger] ps[i].cpu_total)
}

pub proof fn lemma_text_order_antisymmetric(a: Seq<char>, b: Seq<char>)
    ensures
        text_order(a, b) == Ordering::Greater <==> text_order(b, a) == Ordering::Less,
        text_order(a, b) == Ordering::Equal <==> text_order(b, a) == Ordering::Equal,
    decreases a.len(),
{
    if a.len() > 0 && b.len() > 0 && a[0] == b[0] {
        lemma_text_order_antisymmetric(a.drop_first(), b.drop_first());
    }
}

pub proof fn lemma_text_order_transitive(a: Seq<char>, b: Seq<char>, c: Seq<char>)
    requires
        text_order(a, b) != Ordering::Greater,
        text_order(b, c) != Ordering::Greater,
    ensures
        text_order(a, c) != Ordering::Greater,
    decreases a.len(),
{
    if a.len() > 0 && b.len() > 0 && c.len() > 0 && a[0] == b[0] && b[0] == c[0] {
        lemma_text_order_transitive(a.drop_first(), b.drop_first(), c.drop_first());
    }
}

/// On processes where the sort is consistent, `row_le` is a total preorder
/// and `Greater` is the converse of `Less`.
pub proof fn lemma_row_order_laws(sort: RowSort, a: ProcessModel, b: ProcessModel, c: ProcessModel)
    requires
        (sort is CpuDec || sort is CpuInc) ==> !f32_is_nan(a.cpu_total) && !f32_is_nan(b.cpu_total)
            && !f32_is_nan(c.cpu_total),
    ensures
        row_order(sort, a, b) == Ordering::Greater <==> row_order(sort, b, a) == Ordering::Less,
        row_le(sort, a, b) || row_le(sort, b, a),
        row_le(sort, a, b) && row_le(sort, b, c) ==> row_le(sort, a, c),
{
    match sort {
        RowSort::NameDec => {
            lemma_text_order_antisymmetric(b.name, a.name);
            if row_le(sort, a, b) && row_le(sort, b, c) {
                lemma_text_order_transitive(c.name, b.name, a.name);
            }
        },
        RowSort::NameInc => {
            lemma_text_order_antisymmetric(a.name, b.name);
            if row_le(sort, a, b) && row_le(sort, b, c) {
                lemma_text_order_transitive(a.name, b.name, c.name);
            }
        },
        _ => {},
    }
}

/// On processes where the sort is consistent, `row_le` is total and
/// transitive.
pub proof fn lemma_row_le_preorder(sort: RowSort, a: ProcessModel, b: ProcessModel, c: ProcessModel)
    requires
        (sort is CpuDec || sort is CpuInc) ==> !f32_is_nan(a.cpu_total) && !f32_is_nan(b.cpu_total)
            && !f32_is_nan(c.cpu_total),
    ensures
        row_le(sort, a, b) || row_le(sort, b, a),
        row_le(sort, a, b) && row_le(sort, b, c) ==> row_le(sort, a, c),
{
    lemma_row_order_laws(sort, a, b, c);
}

proof fn lemma_chars_from_zero(s: Seq<char>)
    ensures
        chars_from(s, 0) =~= s,
{
}

proof fn lemma_chars_from_step(s: Seq<char>, i: usize)
    requires
        i < s.len(),
        i + 1 <= usize::MAX,
    ensures
        chars_from(s, i)[0] == s[i as int],
        chars_from(s, i).len() > 0,
        chars_from(s, i).drop_first() =~= chars_from(s, (i + 1) as usize),
{
}

/// The order of two integers.
fn order_u64(a: u64, b: u64) -> (r: Ordering)
    ensures
        r == int_order(u64_key(a), u64_key(b)),
{
    if a < b {
        Ordering::Less
    } else if a > b {
        Ordering::Greater
    } else {
        Ordering::Equal
    }
}

/// `partial_cmp` of two `f32` given by their bits, unordered taken as equal.
pub fn f32_partial_order(a: u32, b: u32) -> (r: Ordering)
    ensures
        r == f32_order(a, b),
{
    if f32_less_bits(a, b) {
        Ordering::Less
    } else if f32_less_bits(b, a) {
        Ordering::Greater
    } else {
        Ordering::Equal
    }
}

/// The lexicographic order of two strings.
pub fn str_order(a: &str, b: &str) -> (r: Ordering)
    ensures
        r == text_order(a@, b@),
{
    let n = a.unicode_len();
    let m = b.unicode_len();
    let mut i: usize = 0;
    proof {
        lemma_chars_from_zero(a@);
        lemma_chars_from_zero(b@);
    }
    while i < n && i < m
        invariant
            n == a@.len(),
            m == b@.len(),
            i <= n,
            i <= m,
            text_order(a@, b@) == text_order(chars_from(a@, i), chars_from(b@, i)),
        decreases n - i,
    {
        let x = a.get_char(i);
        let y = b.get_char(i);
        proof {
            lemma_chars_from_step(a@, i);
            lemma_chars_from_step(b@, i);
        }
        if x < y {
            return Ordering::Less;
        }
        if x > y {
            return Ordering::Greater;
        }
        i = i + 1;
    }
    if i == n {
        if i == m {
            Ordering::Equal
        } else {
            Ordering::Less
        }
    } else {
        Ordering::Greater
    }
}

/// The order of two processes in the given row sort.
pub fn process_order(a: &Process, b: &Process, sort: &RowSort) -> (r: Ordering)
    ensures
        r == row_order(*sort, a@, b@),
{
    match sort {
        RowSort::PidDec => order_u64(b.pid().as_u64(), a.pid().as_u64()),
        RowSort::PidInc => order_u64(a.pid().as_u64(), b.pid().as_u64()),
        RowSort::CpuDec => f32_partial_order(b.cpu_total().to_bits(), a.cpu_total().to_bits()),
        RowSort::CpuInc => f32_partial_order(a.cpu_total().to_bits(), b.cpu_total().to_bits()),
        RowSort::MemDec => order_u64(b.mem().as_u64(), a.mem().as_u64()),
        RowSort::MemInc => order_u64(a.mem().as_u64(), b.mem().as_u64()),
        RowSort::NameDec => str_order(b.name().as_str(), a.name().as_str()),
        RowSort::NameInc => str_order(a.name().as_str(), b.name().as_str()),
    }
}

/// Whether `a` orders after `b` in the given row sort.
pub fn orders_after(a: &Process, b: &Process, sort: &RowSort) -> (r: bool)
    ensures
        r == !row_le(*sort, a@, b@),
{
    match process_order(a, b, sort) {
        Ordering::Greater => true,
        _ => false,
    }
}

} // verus!
