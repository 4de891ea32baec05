//! The grid of samples of one refinement level, and its weights.
//!
//! A grid divides the interval into a power of two of equal parts and holds
//! the function's value at each of their ends. Refining a grid keeps every
//! sample and puts a new one between each two neighbours.
use vstd::arithmetic::power2::is_pow2;
use vstd::prelude::*;

verus! {

/// The coefficient of a sample in the extended Simpson sum: one half for the
/// two ends of the interval, one for a point kept from the level before,
/// two for a point that the current level has put in.
#[derive(Clone, Copy, Debug, PartialEq, Eq, Structural)]
pub enum Weight {
    Half,
    One,
    Two,
}

impl Weight {
    /// Twice the coefficient, which is a whole number: 1, 2 or 4.
    pub open spec fn doubled(self) -> nat {
        match self {
            Weight::Half => 1,
            Weight::One => 2,
            Weight::Two => 4,
        }
    }

    /// Twice the coefficient.
    pub fn twice(&self) -> (n: u8)
        ensures
            n == self.doubled(),
    {
        match self {
            Weight::Half => 1,
            Weight::One => 2,
            Weight::Two => 4,
        }
    }
}

/// One evaluated point of a grid: the position, the function's value there,
/// and the weight the point has at the grid's level.
#[derive(Debug, PartialEq)]
pub struct Sample<T> {
    pub x: T,
    pub f: T,
    pub weight: Weight,
}

/// The weight of the point at `index` in a grid of `subdivisions` equal parts.
pub open spec fn weight_at(subdivisions: nat, index: int) -> Weight {
    if index == 0 || index == subdivisions {
        Weight::Half
    } else if index % 2 == 1 {
        Weight::Two
    } else {
        Weight::One
    }
}

/// The next level of `samples`: every sample stays, in order, with a new one
/// between each two neighbours. `midpoints[k]` holds position and value of the
/// one that comes behind `samples[k]`.
pub open spec fn refined<T>(samples: Seq<Sample<T>>, midpoints: Seq<(T, T)>) -> Seq<Sample<T>> {
    Seq::new(
        (2 * samples.len() - 1) as nat,
        |i: int|
            if i % 2 == 0 {
                Sample {
                    x: samples[i / 2].x,
                    f: samples[i / 2].f,
                    weight: weight_at((2 * samples.len() - 2) as nat, i),
                }
            } else {
                Sample { x: midpoints[i / 2].0, f: midpoints[i / 2].1, weight: Weight::Two }
            },
    )
}

/// The sum of the doubled weights of `samples`.
pub open spec fn doubled_total<T>(samples: Seq<Sample<T>>) -> nat
    decreases samples.len(),
{
    if samples.len() == 0 {
        0
    } else {
        doubled_total(samples.drop_last()) + samples.last().weight.doubled()
    }
}

/// The doubled weights of the first `count` points of a refined grid add up to
/// `3 * count - 2` for an odd count and to `3 * count - 1` for an even one.
proof fn lemma_leading_weights<T>(samples: Seq<Sample<T>>, parts: nat, count: nat)
    requires
        parts % 2 == 0,
        samples.len() == parts + 1,
        forall|i: int| 0 <= i < samples.len() ==> (#[trigger] samples[i]).weight == weight_at(parts, i),
        1 <= count <= parts,
    ensures
        count % 2 == 1 ==> doubled_total(samples.take(count as int)) == 3 * count - 2,
        count % 2 == 0 ==> doubled_total(samples.take(count as int)) == 3 * count - 1,
    decreases count,
{
    let head = samples.take(count as int);
    assert(head.last() == samples[count - 1]);
    if count == 1 {
        assert(head.drop_last() =~= Seq::<Sample<T>>::empty());
        assert(doubled_total(head.drop_last()) == 0);
    } else {
        assert(head.drop_last() =~= samples.take(count - 1));
        lemma_leading_weights(samples, parts, (count - 1) as nat);
    }
}

/// On every grid that has been refined the weights add up to one and a half
/// times the subdivisions: their doubles add up to three times that number.
pub proof fn lemma_weights_total<T>(grid: Grid<T>)
    requires
        grid.well_formed(),
        grid.parts() >= 2,
    ensures
        doubled_total(grid@) == 3 * grid.parts(),
{
    let parts = grid.parts();
    assert(parts % 2 == 0) by {
        reveal(is_pow2);
    }
    lemma_leading_weights(grid@, parts, parts);
    assert(grid@.drop_last() =~= grid@.take(parts as int));
}

/// The weights of a grid read the same from either end.
pub proof fn lemma_weights_mirror<T>(grid: Grid<T>, index: int)
    requires
        grid.well_formed(),
        0 <= index <= grid.parts(),
    ensures
        grid@[index].weight == grid@[grid.parts() - index].weight,
{
    let parts = grid.parts();
    if parts >= 2 {
        assert(parts % 2 == 0) by {
            reveal(is_pow2);
        }
    } else {
        assert(parts == 1) by {
            reveal(is_pow2);
        }
    }
}

/// Refining the mirror image of a grid, with the midpoints in the opposite
/// order, gives the mirror image of the refined grid.
pub proof fn lemma_refined_mirror<T>(samples: Seq<Sample<T>>, midpoints: Seq<(T, T)>)
    requires
        samples.len() >= 1,
        midpoints.len() == samples.len() - 1,
    ensures
        refined(samples.reverse(), midpoints.reverse()) == refined(samples, midpoints).reverse(),
{
    let n = samples.len() as int;
    let left = refined(samples.reverse(), midpoints.reverse());
    let right = refined(samples, midpoints).reverse();
    assert(left.len() == right.len());
    assert forall|i: int| 0 <= i < left.len() implies left[i] == right[i] by {
        let j = 2 * n - 2 - i;
        assert(right[i] == refined(samples, midpoints)[j]);
        if i % 2 == 0 {
            assert(j % 2 == 0);
            assert(j / 2 == n - 1 - i / 2);
        } else {
            assert(j % 2 == 1);
            assert(j / 2 == n - 2 - i / 2);
        }
    }
    assert(left =~= right);
}

/// The items of `items` in the opposite order.
fn reversed<U>(items: Vec<U>) -> (back: Vec<U>)
    ensures
        back@ == items@.reverse(),
{
    let ghost all = items@;
    let mut items = items;
    let mut back: Vec<U> = Vec::new();
    assert(all.take(all.len() as int) =~= all);
    assert(all.skip(all.len() as int).reverse() =~= Seq::<U>::empty());
    while items.len() > 0
        invariant
            items@.len() <= all.len(),
            items@ == all.take(items@.len() as int),
            back@ == all.skip(items@.len() as int).reverse(),
        decreases items.len(),
    {
        let item = items.pop().unwrap();
        back.push(item);
        assert(items@ =~= all.take(items@.len() as int));
        assert(back@ =~= all.skip(items@.len() as int).reverse());
    }
    assert(all.skip(0) =~= all);
    back
}

/// The samples of one refinement level, from one end of the interval to the
/// other.
pub struct Grid<T> {
    samples: Vec<Sample<T>>,
    subdivisions: usize,
}

impl<T> View for Grid<T> {
    type V = Seq<Sample<T>>;

    closed spec fn view(&self) -> Seq<Sample<T>> {
        self.samples@
    }
}

impl<T> Grid<T> {
    /// The number of equal parts into which the grid divides the interval.
    pub closed spec fn parts(&self) -> nat {
        self.subdivisions as nat
    }

    /// What holds of every grid: there is one point more than subdivisions,
    /// the subdivisions are a power of two, and every point has the weight of
    /// its place.
    pub open spec fn well_formed(&self) -> bool {
        &&& self@.len() == self.parts() + 1
        &&& is_pow2(self.parts() as int)
        &&& forall|i: int| 0 <= i < self@.len() ==> (#[trigger] self@[i]).weight == weight_at(self.parts(), i)
    }

    /// The grid of the whole interval: its two ends, and one subdivision.
    pub fn between(xi: T, f_xi: T, xf: T, f_xf: T) -> (grid: Grid<T>)
        ensures
            grid.well_formed(),
            grid.parts() == 1,
            grid@ == seq![
                (Sample { x: xi, f: f_xi, weight: Weight::Half }),
                (Sample { x: xf, f: f_xf, weight: Weight::Half }),
            ],
    {
        let mut samples: Vec<Sample<T>> = Vec::new();
        samples.push(Sample { x: xi, f: f_xi, weight: Weight::Half });
        samples.push(Sample { x: xf, f: f_xf, weight: Weight::Half });
        assert(is_pow2(1)) by {
            reveal(is_pow2);
        }
        Grid { samples, subdivisions: 1 }
    }

    /// The number of subdivisions.
    pub fn subdivisions(&self) -> (n: usize)
        ensures
            n == self.parts(),
    {
        self.subdivisions
    }

    /// Builds the next level from the function's values at the midpoints:
    /// `midpoints[k]` gives position and value of the point halfway between
    /// sample `k` and its right neighbour. The subdivisions double.
    ///
    /// Nothing is built when the midpoints are not one for each subdivision.
    pub fn refine(self, midpoints: Vec<(T, T)>) -> (next: Option<Grid<T>>)
        requires
            self.well_formed(),
        ensures
            midpoints@.len() != self.parts() ==> next is None,
            midpoints@.len() == self.parts() ==> next is Some,
            next is Some ==> next->Some_0.well_formed(),
            next is Some ==> next->Some_0.parts() == 2 * self.parts(),
            next is Some ==> next->Some_0@ == refined(self@, midpoints@),
    {
        let parts: usize = self.subdivisions;
        if midpoints.len() != parts {
            return None;
        }
        let ghost old_samples = self.samples@;
        let ghost new_points = midpoints@;
        let ghost target = refined(old_samples, new_points);
        let mut kept = reversed(self.samples);
        let mut fresh = reversed(midpoints);
        let mut samples: Vec<Sample<T>> = Vec::new();
        let mut k: usize = 0;
        while k < parts
            invariant
                k <= parts,
                old_samples.len() == parts + 1,
                new_points.len() == parts,
                target == refined(old_samples, new_points),
                kept@ == old_samples.skip(k as int).reverse(),
                fresh@ == new_points.skip(k as int).reverse(),
                samples@ == target.take(2 * k),
            decreases parts - k,
        {
            let sample = kept.pop().unwrap();
            let point = fresh.pop().unwrap();
            let weight = if k == 0 {
                Weight::Half
            } else {
                Weight::One
            };
            samples.push(Sample { x: sample.x, f: sample.f, weight });
            samples.push(Sample { x: point.0, f: point.1, weight: Weight::Two });
            assert(kept@ =~= old_samples.skip(k + 1).reverse());
            assert(fresh@ =~= new_points.skip(k + 1).reverse());
            assert(samples@ =~= target.take(2 * (k + 1)));
            k += 1;
        }
        let last = kept.pop().unwrap();
        samples.push(Sample { x: last.x, f: last.f, weight: Weight::Half });
        assert(samples@ =~= target);
        assert(is_pow2(2 * parts)) by {
            reveal(is_pow2);
        }
        let subdivisions: usize = samples.len() - 1;
        Some(Grid { samples, subdivisions })
    }

    /// Gives up the grid for the positions of its two ends.
    pub fn into_endpoints(self) -> (ends: (T, T))
        requires
            self.well_formed(),
        ensures
            ends.0 == self@[0].x,
            ends.1 == self@[self.parts() as int].x,
    {
        assert(self.parts() >= 1) by {
            reveal(is_pow2);
        }
        let mut samples = self.samples;
        let last = samples.pop().unwrap();
        let first = samples.swap_remove(0);
        (first.x, last.x)
    }

    /// The samples, in order.
    pub fn samples(&self) -> (samples: &Vec<Sample<T>>)
        ensures
            samples@ == self@,
    {
        &self.samples
    }
}

} // verus!
