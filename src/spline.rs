use vstd::prelude::*;

verus! {

/// Marks a spline as parsed but not yet bound to compiled drivers.
#[derive(Clone, Copy, Debug, PartialEq, Eq, Structural)]
pub struct Blueprint;

/// Marks a spline whose drivers are compiled.
#[derive(Clone, Copy, Debug, PartialEq, Eq, Structural)]
pub struct Built;

/// Why the points of a spline were rejected.
#[derive(Clone, Copy, Debug, PartialEq, Eq, Structural)]
pub enum SplineError {
    /// A multipoint spline needs at least one point.
    EmptyPoints,
    /// The locations are not in strictly ascending order.
    Unsorted,
}

/// The key under which `f32::total_cmp` orders the float with bit pattern `bits`:
/// for a negative sign, the other 31 bits are flipped; then the pattern is read as
/// a signed integer.
pub open spec fn order_key_of(bits: u32) -> i32 {
    if bits >= 0x8000_0000 {
        (bits ^ 0x7FFF_FFFFu32) as i32
    } else {
        bits as i32
    }
}

pub fn order_key(bits: u32) -> (r: i32)
    ensures
        r == order_key_of(bits),
{
    if bits >= 0x8000_0000 {
        (bits ^ 0x7FFF_FFFFu32) as i32
    } else {
        bits as i32
    }
}

pub open spec fn strictly_sorted(keys: Seq<i32>) -> bool {
    forall|i: int, j: int| 0 <= i < j < keys.len() ==> keys[i] < keys[j]
}

/// `r` is the segment of `x`: every key up to index `r` is at most `x`, every key
/// after it is above `x`. `-1` is before the first key, `len - 1` from the last
/// key on.
pub open spec fn is_segment(keys: Seq<i32>, x: i32, r: int) -> bool {
    &&& -1 <= r < keys.len()
    &&& forall|i: int| 0 <= i <= r ==> keys[i] <= x
    &&& forall|i: int| r < i < keys.len() ==> keys[i] > x
}

/// A driver exactly at the location of point `k` falls in the segment that starts
/// at point `k`: the blend there starts from that point's value (`t == 0`), or,
/// for the last point, its linear extension adds nothing.
pub proof fn segment_at_location(keys: Seq<i32>, k: int)
    requires
        strictly_sorted(keys),
        0 <= k < keys.len(),
    ensures
        is_segment(keys, keys[k], k),
        forall|r: int| is_segment(keys, keys[k], r) ==> r == k,
{
    assert forall|r: int| is_segment(keys, keys[k], r) implies r == k by {
        if r < k {
            assert(keys[k] > keys[k]);
        } else if r > k {
            assert(keys[k + 1] <= keys[k]);
        }
    }
}

/// Accepts the point locations of a multipoint spline, given as order keys, iff
/// there is at least one and they ascend strictly.
pub fn validate_locations(keys: &Vec<i32>) -> (r: Result<(), SplineError>)
    ensures
        keys@.len() == 0 ==> r == Err::<(), SplineError>(SplineError::EmptyPoints),
        keys@.len() > 0 && !strictly_sorted(keys@) ==> r == Err::<(), SplineError>(
            SplineError::Unsorted,
        ),
        keys@.len() > 0 && strictly_sorted(keys@) ==> r is Ok,
{
    if keys.len() == 0 {
        return Err(SplineError::EmptyPoints);
    }
    let mut i: usize = 1;
    while i < keys.len()
        invariant
            1 <= i <= keys@.len(),
            strictly_sorted(keys@.subrange(0, i as int)),
        decreases keys@.len() - i,
    {
        if keys[i - 1] >= keys[i] {
            assert(!strictly_sorted(keys@)) by {
                assert(keys@[i - 1] >= keys@[i as int]);
            }
            return Err(SplineError::Unsorted);
        }
        assert forall|a: int, b: int| 0 <= a < b < i + 1 implies keys@[a] < keys@[b] by {
            if b < i {
                assert(keys@.subrange(0, i as int)[a] == keys@[a]);
                assert(keys@.subrange(0, i as int)[b] == keys@[b]);
            } else if a < i - 1 {
                assert(keys@.subrange(0, i as int)[a] == keys@[a]);
                assert(keys@.subrange(0, i as int)[i - 1] == keys@[i - 1]);
            }
        }
        i = i + 1;
    }
    assert(keys@.subrange(0, i as int) =~= keys@);
    Ok(())
}

/// The segment in which `x` falls among strictly ascending keys, by binary search.
pub fn segment_index(keys: &Vec<i32>, x: i32) -> (r: i64)
    requires
        strictly_sorted(keys@),
        keys@.len() <= i64::MAX,
    ensures
        is_segment(keys@, x, r as int),
{
    let mut lo: usize = 0;
    let mut hi: usize = keys.len();
    while lo < hi
        invariant
            0 <= lo <= hi <= keys@.len(),
            keys@.len() <= i64::MAX,
            strictly_sorted(keys@),
            forall|i: int| 0 <= i < lo ==> keys@[i] <= x,
            forall|i: int| hi <= i < keys@.len() ==> keys@[i] > x,
        decreases hi - lo,
    {
        let mid = lo + (hi - lo) / 2;
        if keys[mid] <= x {
            lo = mid + 1;
        } else {
            hi = mid;
        }
    }
    lo as i64 - 1
}

} // verus!
