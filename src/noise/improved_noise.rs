use vstd::prelude::*;

use crate::random::{bounded_of, f64_numerator_of, RandomSource, SourceState};

verus! {

/// Number of entries of the permutation table.
pub const SIZE: usize = 256;

/// The identity table `0, 1, ..., 255`.
pub open spec fn identity_table() -> Seq<u8> {
    Seq::new(256, |i: int| i as u8)
}

pub open spec fn swapped(p: Seq<u8>, i: int, j: int) -> Seq<u8> {
    p.update(i, p[j]).update(j, p[i])
}

/// The table after the first `n` steps of the shuffle that starts from source state
/// `s`, and the source state after them: step `i` swaps entry `i` with entry
/// `i + next_i32_bound(256 - i)`.
pub open spec fn shuffled(s: SourceState, n: nat) -> (Seq<u8>, SourceState)
    decreases n,
{
    if n == 0 {
        (identity_table(), s)
    } else {
        let prev = shuffled(s, (n - 1) as nat);
        let d = bounded_of(prev.1, (256 - (n - 1)) as i32);
        (swapped(prev.0, n - 1, n - 1 + d.0), d.1)
    }
}

/// The table and the three origin draws that a new noise takes from source state
/// `s`, and the source state after them. Each origin coordinate is its draw
/// times 2^-53 times 256.
pub open spec fn improved_noise_of(s: SourceState) -> ((Seq<u8>, (i64, i64, i64)), SourceState) {
    let a = f64_numerator_of(s);
    let b = f64_numerator_of(a.1);
    let c = f64_numerator_of(b.1);
    let t = shuffled(c.1, 256);
    ((t.0, (a.0, b.0, c.0)), t.1)
}

/// No value occurs twice in the table.
pub open spec fn distinct(p: Seq<u8>) -> bool {
    forall|i: int, j: int| 0 <= i < p.len() && 0 <= j < p.len() && i != j ==> p[i] != p[j]
}

/// Entry `idx mod 256` of the table.
pub open spec fn lookup(p: Seq<u8>, idx: int) -> int {
    p[idx % 256] as int
}

/// The eight hashed gradient indices of the lattice cell with corner `(i, j, k)`,
/// in the order `(0,0,0), (1,0,0), (0,1,0), (1,1,0), (0,0,1), (1,0,1), (0,1,1),
/// (1,1,1)`.
pub open spec fn corner_hashes_of(p: Seq<u8>, i: int, j: int, k: int) -> Seq<int> {
    let a = lookup(p, i);
    let b = lookup(p, i + 1);
    let aa = lookup(p, a + j);
    let ab = lookup(p, a + j + 1);
    let ba = lookup(p, b + j);
    let bb = lookup(p, b + j + 1);
    seq![
        lookup(p, aa + k),
        lookup(p, ba + k),
        lookup(p, ab + k),
        lookup(p, bb + k),
        lookup(p, aa + k + 1),
        lookup(p, ba + k + 1),
        lookup(p, ab + k + 1),
        lookup(p, bb + k + 1),
    ]
}

/// The gradient vectors; an index is taken modulo 16.
pub open spec fn gradient_of(n: int) -> (int, int, int) {
    let m = n % 16;
    if m == 0 {
        (1, 1, 0)
    } else if m == 1 {
        (-1, 1, 0)
    } else if m == 2 {
        (1, -1, 0)
    } else if m == 3 {
        (-1, -1, 0)
    } else if m == 4 {
        (1, 0, 1)
    } else if m == 5 {
        (-1, 0, 1)
    } else if m == 6 {
        (1, 0, -1)
    } else if m == 7 {
        (-1, 0, -1)
    } else if m == 8 {
        (0, 1, 1)
    } else if m == 9 {
        (0, -1, 1)
    } else if m == 10 {
        (0, 1, -1)
    } else if m == 11 {
        (0, -1, -1)
    } else if m == 12 {
        (1, 1, 0)
    } else if m == 13 {
        (0, -1, 1)
    } else if m == 14 {
        (-1, 1, 0)
    } else {
        (0, -1, -1)
    }
}

/// The gradient vector for a hashed index.
pub fn gradient(index: i32) -> (r: (i32, i32, i32))
    requires
        index >= 0,
    ensures
        (r.0 as int, r.1 as int, r.2 as int) == gradient_of(index as int),
{
    let m = index % 16;
    if m == 0 {
        (1, 1, 0)
    } else if m == 1 {
        (-1, 1, 0)
    } else if m == 2 {
        (1, -1, 0)
    } else if m == 3 {
        (-1, -1, 0)
    } else if m == 4 {
        (1, 0, 1)
    } else if m == 5 {
        (-1, 0, 1)
    } else if m == 6 {
        (1, 0, -1)
    } else if m == 7 {
        (-1, 0, -1)
    } else if m == 8 {
        (0, 1, 1)
    } else if m == 9 {
        (0, -1, 1)
    } else if m == 10 {
        (0, 1, -1)
    } else if m == 11 {
        (0, -1, -1)
    } else if m == 12 {
        (1, 1, 0)
    } else if m == 13 {
        (0, -1, 1)
    } else if m == 14 {
        (-1, 1, 0)
    } else {
        (0, -1, -1)
    }
}

proof fn lemma_low_byte(idx: i64)
    ensures
        0 <= idx & 255 < 256,
        (idx & 255) as int == idx as int % 256,
{
    assert(0 <= idx & 255 < 256) by (bit_vector);
    assert((idx & 255) == idx % 256) by (bit_vector);
}

/// One octave of gradient noise: a shuffled table of `0..256` and an origin.
pub struct ImprovedNoise {
    points: Vec<u8>,
    origin: (i64, i64, i64),
}

impl View for ImprovedNoise {
    type V = (Seq<u8>, (i64, i64, i64));

    closed spec fn view(&self) -> (Seq<u8>, (i64, i64, i64)) {
        (self.points@, self.origin)
    }
}

impl ImprovedNoise {
    /// The table has 256 entries, each value once.
    pub open spec fn wf(&self) -> bool {
        self@.0.len() == 256 && distinct(self@.0)
    }

    pub fn new(r: &mut RandomSource) -> (n: ImprovedNoise)
        ensures
            n@ == improved_noise_of(old(r)@).0,
            final(r)@ == improved_noise_of(old(r)@).1,
            n.wf(),
    {
        let a = r.next_f64_numerator();
        let b = r.next_f64_numerator();
        let c = r.next_f64_numerator();
        let ghost start = r@;
        let mut points: Vec<u8> = Vec::new();
        let mut v: usize = 0;
        while v < SIZE
            invariant
                v <= SIZE,
                points@ =~= identity_table().subrange(0, v as int),
            decreases SIZE - v,
        {
            points.push(v as u8);
            v = v + 1;
        }
        assert(distinct(points@)) by {
            assert forall|x: int, y: int|
                0 <= x < points@.len() && 0 <= y < points@.len() && x != y implies points@[x]
                != points@[y] by {
                assert(points@[x] == x as u8);
                assert(points@[y] == y as u8);
            }
        }
        let mut i: usize = 0;
        while i < SIZE
            invariant
                i <= SIZE,
                (points@, r@) == shuffled(start, i as nat),
                points@.len() == 256,
                distinct(points@),
            decreases SIZE - i,
        {
            let d = r.next_i32_bound((SIZE - i) as i32);
            let j = i + d as usize;
            let pi = points[i];
            let pj = points[j];
            points.set(i, pj);
            points.set(j, pi);
            assert(distinct(points@)) by {
                assert forall|x: int, y: int|
                    0 <= x < points@.len() && 0 <= y < points@.len() && x != y implies points@[x]
                    != points@[y] by {}
            }
            i = i + 1;
        }
        ImprovedNoise { points, origin: (a, b, c) }
    }

    /// Entry `idx mod 256` of the table.
    pub fn p(&self, idx: i64) -> (r: i32)
        requires
            self.wf(),
        ensures
            r == lookup(self@.0, idx as int),
            0 <= r < 256,
    {
        proof {
            lemma_low_byte(idx);
        }
        self.points[(idx & 255) as usize] as i32
    }

    /// The eight hashed gradient indices of the lattice cell with lowest corner
    /// `(i, j, k)`.
    pub fn corner_hashes(&self, i: i32, j: i32, k: i32) -> (r: Vec<i32>)
        requires
            self.wf(),
        ensures
            r@.len() == 8,
            forall|n: int| 0 <= n < 8 ==> r@[n] == corner_hashes_of(self@.0, i as int, j as int, k as int)[n],
            forall|n: int| 0 <= n < 8 ==> 0 <= #[trigger] r@[n] < 256,
    {
        let a = self.p(i as i64) as i64;
        let b = self.p(i as i64 + 1) as i64;
        let aa = self.p(a + j as i64) as i64;
        let ab = self.p(a + j as i64 + 1) as i64;
        let ba = self.p(b + j as i64) as i64;
        let bb = self.p(b + j as i64 + 1) as i64;
        let k = k as i64;
        let mut r: Vec<i32> = Vec::new();
        r.push(self.p(aa + k));
        r.push(self.p(ba + k));
        r.push(self.p(ab + k));
        r.push(self.p(bb + k));
        r.push(self.p(aa + k + 1));
        r.push(self.p(ba + k + 1));
        r.push(self.p(ab + k + 1));
        r.push(self.p(bb + k + 1));
        r
    }

    /// The three origin draws; each origin coordinate is its draw times 2^-53 times
    /// 256.
    pub fn origin_numerators(&self) -> (r: (i64, i64, i64))
        ensures
            r == self@.1,
    {
        self.origin
    }
}

} // verus!
