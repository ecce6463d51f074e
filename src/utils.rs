use vstd::prelude::*;
use crate::errors::{operation_fail, Result};
use crate::prelude::{point_valid, ScanPoint};

verus! {

broadcast use {
    vstd::seq_lib::to_multiset_update,
    vstd::seq_lib::to_multiset_contains,
    vstd::multiset::group_multiset_properties,
    vstd::multiset::group_multiset_axioms,
};

/// A full circle in q14 quarter-turns.
pub const FULL_CIRCLE_Q14: u32 = 65536;

/// `i` is the index of the first valid point of `s`.
pub open spec fn is_first_valid(s: Seq<ScanPoint>, i: int) -> bool {
    &&& 0 <= i < s.len()
    &&& point_valid(s[i])
    &&& forall|j: int| 0 <= j < i ==> !point_valid(#[trigger] s[j])
}

/// `i` is the index of the last valid point of `s`.
pub open spec fn is_last_valid(s: Seq<ScanPoint>, i: int) -> bool {
    &&& 0 <= i < s.len()
    &&& point_valid(s[i])
    &&& forall|j: int| i < j < s.len() ==> !point_valid(#[trigger] s[j])
}

pub open spec fn has_valid(s: Seq<ScanPoint>) -> bool {
    exists|i: int| 0 <= i < s.len() && point_valid(#[trigger] s[i])
}

pub open spec fn first_valid(s: Seq<ScanPoint>) -> int {
    choose|i: int| is_first_valid(s, i)
}

pub open spec fn last_valid(s: Seq<ScanPoint>) -> int {
    choose|i: int| is_last_valid(s, i)
}

/// The angle between neighbouring points when `n` points share a circle.
pub open spec fn angle_step(n: nat) -> int {
    65536int / (n as int)
}

/// An angle brought back below a full circle after one step forward.
pub open spec fn wrap_circle(a: int) -> int {
    if a >= 65536 {
        a - 65536
    } else {
        a
    }
}

/// The angle `k` steps before `base`, each step clamped at 0.
pub open spec fn steps_back(base: int, step: int, k: nat) -> int
    decreases k,
{
    if k == 0 {
        base
    } else {
        let a = steps_back(base, step, (k - 1) as nat) - step;
        if a < 0 {
            0
        } else {
            a
        }
    }
}

/// The angle `k` steps after `base`, each step wrapped at a full circle.
pub open spec fn steps_forward(base: int, step: int, k: nat) -> int
    decreases k,
{
    if k == 0 {
        base
    } else {
        wrap_circle(steps_forward(base, step, (k - 1) as nat) + step)
    }
}

/// The angle point `i` of the revolution `s` gets once placed: the points
/// before the first valid one step back from it, those after the last valid
/// one step forward from it, and invalid points between them are placed
/// from the (placed) first point by their index.
pub open spec fn tuned_angle(s: Seq<ScanPoint>, i: int) -> int {
    let step = angle_step(s.len());
    let f = first_valid(s);
    let l = last_valid(s);
    if i < f {
        steps_back(s[f].angle_z_q14 as int, step, (f - i) as nat)
    } else if i > l {
        steps_forward(s[l].angle_z_q14 as int, step, (i - l) as nat)
    } else if point_valid(s[i]) {
        s[i].angle_z_q14 as int
    } else {
        wrap_circle(steps_back(s[f].angle_z_q14 as int, step, f as nat) + i * step)
    }
}

/// The revolution `s` with every angle placed.
pub open spec fn tuned(s: Seq<ScanPoint>) -> Seq<ScanPoint> {
    Seq::new(s.len(), |i: int| ScanPoint { angle_z_q14: tuned_angle(s, i) as u16, ..s[i] })
}

pub open spec fn sorted_by_angle(s: Seq<ScanPoint>) -> bool {
    forall|i: int, j: int| 0 <= i <= j < s.len() ==> s[i].angle_z_q14 <= s[j].angle_z_q14
}

/// The points of `s` at angle `a`, in their order in `s`.
pub open spec fn angle_class(s: Seq<ScanPoint>, a: u16) -> Seq<ScanPoint> {
    s.filter(|p: ScanPoint| p.angle_z_q14 == a)
}

/// Swapping two neighbours with different angles keeps the order of the
/// points at every angle.
proof fn lemma_swap_keeps_classes(s: Seq<ScanPoint>, j: int, a: u16)
    requires
        1 <= j < s.len(),
        s[j - 1].angle_z_q14 != s[j].angle_z_q14,
    ensures
        angle_class(s.update(j - 1, s[j]).update(j, s[j - 1]), a) == angle_class(s, a),
{
    let pred = |p: ScanPoint| p.angle_z_q14 == a;
    let x = s[j - 1];
    let y = s[j];
    let front = s.take(j - 1);
    let back = s.skip(j + 1);
    let t = s.update(j - 1, y).update(j, x);
    assert(s =~= (front + seq![x, y]) + back);
    assert(t =~= (front + seq![y, x]) + back);
    Seq::filter_distributes_over_add(front + seq![x, y], back, pred);
    Seq::filter_distributes_over_add(front, seq![x, y], pred);
    Seq::filter_distributes_over_add(front + seq![y, x], back, pred);
    Seq::filter_distributes_over_add(front, seq![y, x], pred);
    let e = Seq::<ScanPoint>::empty();
    assert(seq![x, y] =~= e.push(x).push(y));
    assert(seq![y, x] =~= e.push(y).push(x));
    e.lemma_filter_push(x, pred);
    e.lemma_filter_push(y, pred);
    e.push(x).lemma_filter_push(y, pred);
    e.push(y).lemma_filter_push(x, pred);
    assert(e.filter(pred) =~= e) by {
        reveal(Seq::filter);
    }
    assert(seq![x, y].filter(pred) == seq![y, x].filter(pred));
}

/// `p` is `q` with another angle.
pub open spec fn same_but_angle(p: ScanPoint, q: ScanPoint) -> bool {
    p.dist_mm_q2 == q.dist_mm_q2 && p.quality == q.quality && p.flag == q.flag
}

proof fn lemma_first_valid(s: Seq<ScanPoint>, i: int)
    requires
        is_first_valid(s, i),
    ensures
        first_valid(s) == i,
{
    let f = first_valid(s);
    assert(is_first_valid(s, f));
    if f < i {
        assert(!point_valid(s[f]));
    } else if f > i {
        assert(!point_valid(s[i]));
    }
}

proof fn lemma_last_valid(s: Seq<ScanPoint>, i: int)
    requires
        is_last_valid(s, i),
    ensures
        last_valid(s) == i,
{
    let l = last_valid(s);
    assert(is_last_valid(s, l));
    if l < i {
        assert(!point_valid(s[l]));
    } else if l > i {
        assert(!point_valid(s[i]));
    }
}

proof fn lemma_steps_back_range(base: int, step: int, k: nat)
    requires
        0 <= base <= 65535,
        step >= 0,
    ensures
        0 <= steps_back(base, step, k) <= base,
    decreases k,
{
    if k > 0 {
        lemma_steps_back_range(base, step, (k - 1) as nat);
    }
}

proof fn lemma_steps_forward_range(base: int, step: int, k: nat)
    requires
        0 <= base <= 65535,
        0 <= step <= 65536,
    ensures
        0 <= steps_forward(base, step, k) <= 65535,
    decreases k,
{
    if k > 0 {
        lemma_steps_forward_range(base, step, (k - 1) as nat);
    }
}

fn find_first_valid_index(scan: &[ScanPoint]) -> (r: Option<usize>)
    ensures
        r is Some ==> is_first_valid(scan@, r->Some_0 as int),
        r is None ==> !has_valid(scan@),
{
    let mut i: usize = 0;
    while i < scan.len()
        invariant
            i <= scan@.len(),
            forall|j: int| 0 <= j < i ==> !point_valid(#[trigger] scan@[j]),
        decreases scan@.len() - i,
    {
        if scan[i].is_valid() {
            return Some(i);
        }
        i = i + 1;
    }
    None
}

fn find_last_valid_index(scan: &[ScanPoint]) -> (r: Option<usize>)
    ensures
        r is Some ==> is_last_valid(scan@, r->Some_0 as int),
        r is None ==> !has_valid(scan@),
{
    let mut i: usize = 0;
    while i < scan.len()
        invariant
            i <= scan@.len(),
            forall|j: int| scan@.len() - i <= j < scan@.len() ==> !point_valid(#[trigger] scan@[j]),
        decreases scan@.len() - i,
    {
        let id = scan.len() - i - 1;
        if scan[id].is_valid() {
            return Some(id);
        }
        i = i + 1;
    }
    None
}

/// Places the points before the first valid one, stepping back from it.
fn tune_head(scan: &mut Vec<ScanPoint>, inc_origin_angle: u32) -> (r: Result<usize>)
    requires
        inc_origin_angle <= 65536,
    ensures
        r is Ok ==> is_first_valid(old(scan)@, r->Ok_0 as int) && r->Ok_0 == first_valid(
            old(scan)@,
        ),
        !has_valid(old(scan)@) ==> r is Err && r->Err_0 is OperationFail && final(scan)@ == old(
            scan,
        )@,
        has_valid(old(scan)@) ==> r is Ok,
        final(scan)@.len() == old(scan)@.len(),
        forall|i: int|
            0 <= i < old(scan)@.len() ==> same_but_angle(#[trigger] final(scan)@[i], old(scan)@[i]),
        has_valid(old(scan)@) ==> forall|i: int|
            0 <= i < old(scan)@.len() ==> (#[trigger] final(scan)@[i]).angle_z_q14 as int == if i
                < first_valid(old(scan)@) {
                steps_back(
                    old(scan)@[first_valid(old(scan)@)].angle_z_q14 as int,
                    inc_origin_angle as int,
                    (first_valid(old(scan)@) - i) as nat,
                )
            } else {
                old(scan)@[i].angle_z_q14 as int
            },
{
    if let Some(head_index) = find_first_valid_index(scan.as_slice()) {
        proof {
            lemma_first_valid(old(scan)@, head_index as int);
        }
        let ghost base = old(scan)@[head_index as int].angle_z_q14 as int;
        let mut i = head_index;
        while i != 0
            invariant
                i <= head_index < scan@.len(),
                scan@.len() == old(scan)@.len(),
                head_index == first_valid(old(scan)@),
                base == old(scan)@[head_index as int].angle_z_q14 as int,
                forall|j: int|
                    0 <= j < scan@.len() ==> same_but_angle(#[trigger] scan@[j], old(scan)@[j]),
                forall|j: int|
                    0 <= j < scan@.len() ==> (#[trigger] scan@[j]).angle_z_q14 as int == if i <= j
                        < head_index {
                        steps_back(base, inc_origin_angle as int, (head_index - j) as nat)
                    } else {
                        old(scan)@[j].angle_z_q14 as int
                    },
            decreases i,
        {
            i = i - 1;
            let next_angle = scan[i + 1].angle_z_q14 as u32;
            proof {
                lemma_steps_back_range(base, inc_origin_angle as int, (head_index - i) as nat);
                assert(next_angle == steps_back(
                    base,
                    inc_origin_angle as int,
                    (head_index - (i + 1)) as nat,
                ));
            }
            let expect_angle = if next_angle >= inc_origin_angle {
                next_angle - inc_origin_angle
            } else {
                0
            };
            let mut point = scan[i];
            point.angle_z_q14 = expect_angle as u16;
            scan.set(i, point);
        }
        Ok(head_index)
    } else {
        Err(operation_fail("operation failed"))
    }
}

/// Places the points after the last valid one, stepping forward from it.
fn tune_tail(scan: &mut Vec<ScanPoint>, inc_origin_angle: u32) -> (r: Result<usize>)
    requires
        inc_origin_angle <= 65536,
    ensures
        r is Ok ==> is_last_valid(old(scan)@, r->Ok_0 as int) && r->Ok_0 == last_valid(
            old(scan)@,
        ),
        !has_valid(old(scan)@) ==> r is Err && r->Err_0 is OperationFail && final(scan)@ == old(
            scan,
        )@,
        has_valid(old(scan)@) ==> r is Ok,
        final(scan)@.len() == old(scan)@.len(),
        forall|i: int|
            0 <= i < old(scan)@.len() ==> same_but_angle(#[trigger] final(scan)@[i], old(scan)@[i]),
        has_valid(old(scan)@) ==> forall|i: int|
            0 <= i < old(scan)@.len() ==> (#[trigger] final(scan)@[i]).angle_z_q14 as int == if i
                > last_valid(old(scan)@) {
                steps_forward(
                    old(scan)@[last_valid(old(scan)@)].angle_z_q14 as int,
                    inc_origin_angle as int,
                    (i - last_valid(old(scan)@)) as nat,
                )
            } else {
                old(scan)@[i].angle_z_q14 as int
            },
{
    if let Some(tail_index) = find_last_valid_index(scan.as_slice()) {
        proof {
            lemma_last_valid(old(scan)@, tail_index as int);
        }
        let ghost base = old(scan)@[tail_index as int].angle_z_q14 as int;
        let len = scan.len();
        assert(tail_index < len);
        let mut i = tail_index + 1;
        while i < scan.len()
            invariant
                tail_index < i <= scan@.len(),
                scan@.len() == old(scan)@.len(),
                inc_origin_angle <= 65536,
                tail_index == last_valid(old(scan)@),
                base == old(scan)@[tail_index as int].angle_z_q14 as int,
                forall|j: int|
                    0 <= j < scan@.len() ==> same_but_angle(#[trigger] scan@[j], old(scan)@[j]),
                forall|j: int|
                    0 <= j < scan@.len() ==> (#[trigger] scan@[j]).angle_z_q14 as int == if tail_index
                        < j < i {
                        steps_forward(base, inc_origin_angle as int, (j - tail_index) as nat)
                    } else {
                        old(scan)@[j].angle_z_q14 as int
                    },
            decreases scan@.len() - i,
        {
            let prev_angle = scan[i - 1].angle_z_q14 as u32;
            proof {
                lemma_steps_forward_range(base, inc_origin_angle as int, (i - tail_index) as nat);
                assert(prev_angle == steps_forward(
                    base,
                    inc_origin_angle as int,
                    (i - 1 - tail_index) as nat,
                ));
            }
            let mut expect_angle = prev_angle + inc_origin_angle;
            if expect_angle >= FULL_CIRCLE_Q14 {
                expect_angle = expect_angle - FULL_CIRCLE_Q14;
            }
            let mut point = scan[i];
            point.angle_z_q14 = expect_angle as u16;
            scan.set(i, point);
            i = i + 1;
        }
        Ok(tail_index)
    } else {
        Err(operation_fail("operation failed"))
    }
}

/// Sorts the points by angle, keeping the order of points with equal angles.
fn insertion_sort(scan: &mut Vec<ScanPoint>)
    ensures
        sorted_by_angle(final(scan)@),
        final(scan)@.to_multiset() == old(scan)@.to_multiset(),
        forall|a: u16| #[trigger] angle_class(final(scan)@, a) == angle_class(old(scan)@, a),
        sorted_by_angle(old(scan)@) ==> final(scan)@ == old(scan)@,
{
    let n = scan.len();
    let mut i: usize = 1;
    if n == 0 {
        return;
    }
    while i < n
        invariant
            1 <= i <= n,
            n == scan@.len(),
            forall|a: int, b: int|
                0 <= a <= b < i ==> scan@[a].angle_z_q14 <= scan@[b].angle_z_q14,
            scan@.to_multiset() == old(scan)@.to_multiset(),
            forall|a: u16| #[trigger] angle_class(scan@, a) == angle_class(old(scan)@, a),
            sorted_by_angle(old(scan)@) ==> scan@ == old(scan)@,
        decreases n - i,
    {
        let mut j = i;
        while j > 0 && scan[j - 1].angle_z_q14 > scan[j].angle_z_q14
            invariant
                0 <= j <= i < n,
                n == scan@.len(),
                forall|a: int, b: int|
                    0 <= a <= b <= i && a != j && b != j ==> scan@[a].angle_z_q14
                        <= scan@[b].angle_z_q14,
                forall|b: int| j < b <= i ==> scan@[j as int].angle_z_q14 <= scan@[b].angle_z_q14,
                scan@.to_multiset() == old(scan)@.to_multiset(),
                forall|a: u16| #[trigger] angle_class(scan@, a) == angle_class(old(scan)@, a),
                sorted_by_angle(old(scan)@) ==> scan@ == old(scan)@,
            decreases j,
        {
            let a = scan[j - 1];
            let b = scan[j];
            let ghost before = scan@;
            scan.set(j - 1, b);
            scan.set(j, a);
            proof {
                let m = before.to_multiset();
                assert(m.contains(a)) by {
                    assert(before.contains(a));
                }
                assert(before.update(j - 1, b).to_multiset() == m.insert(b).remove(a));
                assert(scan@.to_multiset() == before.update(j - 1, b).to_multiset().insert(a).remove(b));
                assert(m.insert(b).remove(a).insert(a) =~= m.insert(b));
                assert(m.insert(b).remove(b) =~= m);
                assert forall|k: u16| #[trigger] angle_class(scan@, k) == angle_class(before, k) by {
                    lemma_swap_keeps_classes(before, j as int, k);
                    assert(scan@ == before.update(j - 1, before[j as int]).update(
                        j as int,
                        before[j - 1],
                    ));
                }
            }
            j = j - 1;
        }
        i = i + 1;
    }
}

/// Places the points of one revolution on the circle and sorts them by
/// angle. Points without a measurement get their angle from their valid
/// neighbours; a revolution without any valid point is an error.
pub fn sort_scan(scan: &mut Vec<ScanPoint>) -> (r: Result<()>)
    ensures
        old(scan)@.len() == 0 ==> r is Ok && final(scan)@ == old(scan)@,
        old(scan)@.len() > 0 && !has_valid(old(scan)@) ==> r is Err && r->Err_0 is OperationFail
            && final(scan)@ == old(scan)@,
        old(scan)@.len() > 0 && has_valid(old(scan)@) ==> {
            &&& r is Ok
            &&& sorted_by_angle(final(scan)@)
            &&& final(scan)@.to_multiset() == tuned(old(scan)@).to_multiset()
            &&& forall|a: u16| #[trigger] angle_class(final(scan)@, a) == angle_class(
                tuned(old(scan)@),
                a,
            )
            &&& sorted_by_angle(tuned(old(scan)@)) ==> final(scan)@ == tuned(old(scan)@)
        },
        (forall|i: int| 0 <= i < old(scan)@.len() ==> point_valid(#[trigger] old(scan)@[i]))
            && sorted_by_angle(old(scan)@) ==> r is Ok && final(scan)@ == old(scan)@,
{
    if scan.len() == 0 {
        return Ok(());
    }
    let ghost s = scan@;
    let n = scan.len();
    let inc_origin_angle = (65536usize / n) as u32;
    assert(inc_origin_angle as int == angle_step(s.len()));
    proof {
        if forall|j: int| 0 <= j < s.len() ==> point_valid(#[trigger] s[j]) {
            assert(point_valid(s[0]));
        }
    }
    let f = tune_head(scan, inc_origin_angle)?;
    let ghost s1 = scan@;
    let ghost w = choose|j: int| 0 <= j < s.len() && point_valid(#[trigger] s[j]);
    proof {
        assert(same_but_angle(s1[w], s[w]));
        assert(point_valid(s1[w]));
    }
    let l = tune_tail(scan, inc_origin_angle)?;
    let ghost s2 = scan@;
    proof {
        assert forall|j: int| 0 <= j < n implies same_but_angle(#[trigger] s2[j], s[j]) by {
            assert(same_but_angle(s2[j], s1[j]));
            assert(same_but_angle(s1[j], s[j]));
        }
    }
    proof {
        assert forall|j: int| 0 <= j < n implies point_valid(#[trigger] s[j]) == point_valid(s2[j])
            && point_valid(s1[j]) == point_valid(s2[j]) by {
            assert(same_but_angle(s2[j], s[j]));
            assert(same_but_angle(s2[j], s1[j]));
        }
        assert(is_first_valid(s1, f as int));
        assert(is_last_valid(s, l as int));
        lemma_first_valid(s1, f as int);
        lemma_last_valid(s, l as int);
    }
    let front_angle = scan[0].angle_z_q14 as u64;
    proof {
        assert(s2[0].angle_z_q14 == s1[0].angle_z_q14);
        assert(s1[0].angle_z_q14 as int == steps_back(
            s[f as int].angle_z_q14 as int,
            inc_origin_angle as int,
            f as nat,
        ));
        lemma_steps_back_range(s[f as int].angle_z_q14 as int, inc_origin_angle as int, f as nat);
    }
    let mut i = f + 1;
    while i < l
        invariant
            f < i <= l || (i == f + 1 && l <= f),
            l < n,
            n > 0,
            n == scan@.len(),
            s.len() == n,
            front_angle as int == steps_back(
                s[f as int].angle_z_q14 as int,
                inc_origin_angle as int,
                f as nat,
            ),
            front_angle <= 65535,
            inc_origin_angle as int == angle_step(s.len()),
            f == first_valid(s),
            l == last_valid(s),
            front_angle == s2[0].angle_z_q14,
            forall|j: int| 0 <= j < n ==> same_but_angle(#[trigger] scan@[j], s[j]),
            forall|j: int|
                0 <= j < n ==> (#[trigger] scan@[j]).angle_z_q14 == if f < j < i && !point_valid(
                    s[j],
                ) {
                    tuned_angle(s, j) as u16
                } else {
                    s2[j].angle_z_q14
                },
        decreases l - i,
    {
        if !scan[i].is_valid() {
            assert((i as int) * (65536int / (n as int)) < 65536) by (nonlinear_arith)
                requires
                    i < n,
            ;
            let mut expect_angle = front_angle + (i as u64) * (inc_origin_angle as u64);
            if expect_angle >= FULL_CIRCLE_Q14 as u64 {
                expect_angle = expect_angle - FULL_CIRCLE_Q14 as u64;
            }
            assert(same_but_angle(scan@[i as int], s[i as int]));
            assert(expect_angle as int == tuned_angle(s, i as int));
            let mut point = scan[i];
            point.angle_z_q14 = expect_angle as u16;
            scan.set(i, point);
        }
        i = i + 1;
    }
    assert(scan@ =~= tuned(s)) by {
        assert forall|j: int| 0 <= j < n implies scan@[j] == tuned(s)[j] by {
            if j < f {
                lemma_steps_back_range(s[f as int].angle_z_q14 as int, inc_origin_angle as int, (f - j) as nat);
            } else if j > l {
                lemma_steps_forward_range(s[l as int].angle_z_q14 as int, inc_origin_angle as int, (j - l) as nat);
            }
        }
    }
    insertion_sort(scan);
    proof {
        if forall|j: int| 0 <= j < s.len() ==> point_valid(#[trigger] s[j]) {
            assert(is_first_valid(s, 0));
            lemma_first_valid(s, 0);
            assert(is_last_valid(s, s.len() - 1));
            lemma_last_valid(s, s.len() - 1);
            assert(tuned(s) =~= s);
        }
    }
    Ok(())
}

} // verus!
