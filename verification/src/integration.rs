//! The course of an adaptive integration.
//!
//! An integration goes from level to level. It begins on the grid of the two
//! endpoints. For each level the caller hands in the function's values at the
//! midpoints, which refines the grid, and then the level's raw and accelerated
//! estimates with their comparison against the level before. The integration
//! is over when two accelerated estimates in a row are finite and no further
//! apart than the tolerance; until then it asks for one more level. A failure
//! of the parser or of the evaluator ends it at once, with the message.
//!
//! The numbers are of any type `T`: nothing here computes with them.
use crate::grid::{refined, Grid, Sample, Weight};
use vstd::arithmetic::power2::is_pow2;
use vstd::prelude::*;

verus! {

/// Why an integration came to nothing.
#[derive(Debug, PartialEq, Eq)]
pub enum Failure {
    /// An endpoint could not be read as a number; the parser's message.
    Parse(String),
    /// The function could not be evaluated at a point; the evaluator's message.
    Eval(String),
    /// The midpoints handed in were not one for each subdivision of the grid.
    Midpoints,
}

impl Failure {
    /// The text that tells of the failure: the parser's or the evaluator's own
    /// message, or a sentence on the midpoints.
    pub open spec fn text(self) -> Seq<char> {
        match self {
            Failure::Parse(message) => message@,
            Failure::Eval(message) => message@,
            Failure::Midpoints => "there must be one midpoint for each subdivision"@,
        }
    }

    /// The text that tells of the failure.
    pub fn message(&self) -> (out: String)
        ensures
            out@ == self.text(),
    {
        match self {
            Failure::Parse(message) => message.clone(),
            Failure::Eval(message) => message.clone(),
            Failure::Midpoints => String::from_str(
                "there must be one midpoint for each subdivision",
            ),
        }
    }
}

/// What an integration hands back: the accelerated estimate of the integral,
/// the two endpoints that were used, the tolerance, and the number of
/// subdivisions of the last grid.
#[derive(Debug, PartialEq)]
pub struct IntegralResult<T> {
    pub integral: T,
    pub xi: T,
    pub xf: T,
    pub epsilon: T,
    pub subdivisions: usize,
}

/// What is carried from one level to the next: the raw estimate of the level
/// before, and the two latest accelerated estimates. `None` stands for an
/// estimate that has not been made yet; it counts as not finite.
#[derive(Debug, PartialEq)]
pub struct Convergence<T> {
    pub previous_raw: Option<T>,
    pub previous_accelerated: Option<T>,
    pub current_accelerated: Option<T>,
}

/// How a level's accelerated estimate compares with the one of the level
/// before.
#[derive(Clone, Copy, Debug, PartialEq, Eq, Structural)]
pub struct Comparison {
    /// The accelerated estimate of the level before is a finite number.
    pub previous_finite: bool,
    /// The accelerated estimate of this level is a finite number.
    pub current_finite: bool,
    /// The two differ by more than the tolerance.
    pub apart: bool,
}

/// Whether an integration is over after a level: there is an accelerated
/// estimate of the level before, it and the new one are finite, and they
/// differ by no more than the tolerance.
pub open spec fn settled<T>(carried: Convergence<T>, comparison: Comparison) -> bool {
    &&& carried.current_accelerated is Some
    &&& comparison.previous_finite
    &&& comparison.current_finite
    &&& !comparison.apart
}

/// Whether `points` are what `place` gave, one after the other, for the
/// positions of the first samples of `samples`.
pub open spec fn placed<T, F: Fn(&T) -> Result<(T, T), String>>(
    place: F,
    samples: Seq<Sample<T>>,
    points: Seq<(T, T)>,
) -> bool {
    &&& points.len() < samples.len()
    &&& forall|k: int|
        0 <= k < points.len() ==> call_ensures(
            place,
            (&samples[k].x,),
            Ok::<(T, T), String>(#[trigger] points[k]),
        )
}

/// The two endpoints of the interval, from what the parser made of their
/// texts. The first text that did not parse decides the failure.
pub fn endpoints<T>(xi: Result<T, String>, xf: Result<T, String>) -> (ends: Result<(T, T), Failure>)
    ensures
        ends == (match (xi, xf) {
            (Err(message), _) => Err::<(T, T), Failure>(Failure::Parse(message)),
            (Ok(_), Err(message)) => Err(Failure::Parse(message)),
            (Ok(start), Ok(end)) => Ok((start, end)),
        }),
{
    match xi {
        Err(message) => Err(Failure::Parse(message)),
        Ok(start) => match xf {
            Err(message) => Err(Failure::Parse(message)),
            Ok(end) => Ok((start, end)),
        },
    }
}

/// An integration between two levels: the grid of the level that was
/// estimated last, and what is carried on from it.
pub struct Integration<T> {
    grid: Grid<T>,
    epsilon: T,
    tracking: Convergence<T>,
}

/// An integration within a level: the grid has been refined, and the level's
/// estimate is still to come.
pub struct Level<T> {
    grid: Grid<T>,
    epsilon: T,
    tracking: Convergence<T>,
}

/// How an integration goes on after a level's estimate.
pub enum Step<T> {
    /// The estimates have not settled: the grid is to be refined once more.
    Refine(Integration<T>),
    /// The two latest estimates agree: this is the result.
    Done(IntegralResult<T>),
}

impl<T> Integration<T> {
    /// The grid of the level that was estimated last.
    pub closed spec fn grid_of(&self) -> Grid<T> {
        self.grid
    }

    /// The tolerance the integration was begun with.
    pub closed spec fn tolerance(&self) -> T {
        self.epsilon
    }

    /// The estimates carried on from the levels so far.
    pub closed spec fn carried(&self) -> Convergence<T> {
        self.tracking
    }

    /// What holds between levels: the grid is well formed, a raw and an
    /// accelerated estimate are carried once the grid has been refined, and a
    /// second accelerated estimate once it has been refined twice.
    pub open spec fn well_formed(&self) -> bool {
        &&& self.grid_of().well_formed()
        &&& self.carried().previous_raw is Some <==> self.grid_of().parts() >= 2
        &&& self.carried().current_accelerated is Some <==> self.grid_of().parts() >= 2
        &&& self.carried().previous_accelerated is Some <==> self.grid_of().parts() >= 4
    }

    /// Begins an integration from `xi` to `xf` with the function's values at
    /// both. The first value that could not be had decides the failure.
    /// Nothing is carried yet.
    pub fn begin(xi: T, xf: T, f_xi: Result<T, String>, f_xf: Result<T, String>, epsilon: T) -> (run:
        Result<Integration<T>, Failure>)
        ensures
            f_xi is Err ==> run == Err::<Integration<T>, Failure>(Failure::Eval(f_xi->Err_0)),
            f_xi is Ok && f_xf is Err ==> run == Err::<Integration<T>, Failure>(
                Failure::Eval(f_xf->Err_0),
            ),
            f_xi is Ok && f_xf is Ok ==> run is Ok,
            run is Ok ==> run->Ok_0.well_formed(),
            run is Ok ==> run->Ok_0.grid_of().parts() == 1,
            run is Ok ==> run->Ok_0.grid_of()@ == seq![
                (Sample { x: xi, f: f_xi->Ok_0, weight: Weight::Half }),
                (Sample { x: xf, f: f_xf->Ok_0, weight: Weight::Half }),
            ],
            run is Ok ==> run->Ok_0.tolerance() == epsilon,
            run is Ok ==> run->Ok_0.carried() == (Convergence::<T> {
                previous_raw: None,
                previous_accelerated: None,
                current_accelerated: None,
            }),
    {
        match f_xi {
            Err(message) => Err(Failure::Eval(message)),
            Ok(value_xi) => match f_xf {
                Err(message) => Err(Failure::Eval(message)),
                Ok(value_xf) => Ok(
                    Integration {
                        grid: Grid::between(xi, value_xi, xf, value_xf),
                        epsilon,
                        tracking: Convergence {
                            previous_raw: None,
                            previous_accelerated: None,
                            current_accelerated: None,
                        },
                    },
                ),
            },
        }
    }

    /// The grid of the level that was estimated last.
    pub fn grid(&self) -> (grid: &Grid<T>)
        ensures
            *grid == self.grid_of(),
    {
        &self.grid
    }

    /// The estimates carried on from the levels so far.
    pub fn tracking(&self) -> (tracking: &Convergence<T>)
        ensures
            *tracking == self.carried(),
    {
        &self.tracking
    }

    /// Enters the next level with what the evaluator gave at the midpoints of
    /// the grid. A failure of the evaluator ends the integration with its
    /// message; so do midpoints that are not one for each subdivision. What
    /// is carried stays as it is.
    pub fn refine(self, midpoints: Result<Vec<(T, T)>, String>) -> (level: Result<Level<T>, Failure>)
        requires
            self.well_formed(),
        ensures
            midpoints is Err ==> level == Err::<Level<T>, Failure>(Failure::Eval(midpoints->Err_0)),
            midpoints is Ok && midpoints->Ok_0@.len() != self.grid_of().parts() ==> level == Err::<
                Level<T>,
                Failure,
            >(Failure::Midpoints),
            midpoints is Ok && midpoints->Ok_0@.len() == self.grid_of().parts() ==> level is Ok,
            level is Ok ==> level->Ok_0.well_formed(),
            level is Ok ==> level->Ok_0.grid_of().parts() == 2 * self.grid_of().parts(),
            level is Ok ==> level->Ok_0.grid_of()@ == refined(
                self.grid_of()@,
                midpoints->Ok_0@,
            ),
            level is Ok ==> level->Ok_0.tolerance() == self.tolerance(),
            level is Ok ==> level->Ok_0.carried() == self.carried(),
    {
        assert(self.grid.parts() >= 1) by {
            reveal(is_pow2);
        }
        match midpoints {
            Err(message) => Err(Failure::Eval(message)),
            Ok(points) => match self.grid.refine(points) {
                None => Err(Failure::Midpoints),
                Some(grid) => Ok(Level { grid, epsilon: self.epsilon, tracking: self.tracking }),
            },
        }
    }

    /// Enters the next level by asking `place` for each midpoint: handed the
    /// position of a sample, it gives the position halfway to the right
    /// neighbour and the function's value there. The samples are taken from
    /// left to right, the last one left out. The first failure ends the
    /// integration with its message, and `place` is not asked again.
    pub fn refine_with<F: Fn(&T) -> Result<(T, T), String>>(self, place: F) -> (level: Result<
        Level<T>,
        Failure,
    >)
        requires
            self.well_formed(),
            forall|x: &T| call_requires(place, (x,)),
        ensures
            level is Ok ==> level->Ok_0.well_formed(),
            level is Ok ==> level->Ok_0.grid_of().parts() == 2 * self.grid_of().parts(),
            level is Ok ==> level->Ok_0.tolerance() == self.tolerance(),
            level is Ok ==> level->Ok_0.carried() == self.carried(),
            level is Ok ==> exists|points: Seq<(T, T)>|
                (points.len() == self.grid_of().parts() && placed(place, self.grid_of()@, points)
                    && level->Ok_0.grid_of()@ == refined(self.grid_of()@, points)),
            level is Err ==> exists|points: Seq<(T, T)>, message: String|
                (points.len() < self.grid_of().parts() && placed(place, self.grid_of()@, points)
                    && call_ensures(
                    place,
                    (&self.grid_of()@[points.len() as int].x,),
                    Err::<(T, T), String>(message),
                ) && level == Err::<Level<T>, Failure>(Failure::Eval(message))),
    {
        let parts: usize = self.grid.subdivisions();
        let mut points: Vec<(T, T)> = Vec::new();
        let mut k: usize = 0;
        while k < parts
            invariant
                k <= parts,
                parts == self.grid.parts(),
                self.grid@.len() == parts + 1,
                points@.len() == k,
                placed(place, self.grid@, points@),
                forall|x: &T| call_requires(place, (x,)),
            decreases parts - k,
        {
            match place(&self.grid.samples()[k].x) {
                Ok(point) => {
                    points.push(point);
                },
                Err(message) => {
                    let ghost so_far = points@;
                    let ghost told = message;
                    let failure = Err(Failure::Eval(message));
                    assert(placed(place, self.grid_of()@, so_far) && call_ensures(
                        place,
                        (&self.grid_of()@[so_far.len() as int].x,),
                        Err::<(T, T), String>(told),
                    ) && failure == Err::<Level<T>, Failure>(Failure::Eval(told)));
                    return failure;
                },
            }
            k += 1;
        }
        self.refine(Ok(points))
    }
}

impl<T> Level<T> {
    /// The refined grid.
    pub closed spec fn grid_of(&self) -> Grid<T> {
        self.grid
    }

    /// The tolerance the integration was begun with.
    pub closed spec fn tolerance(&self) -> T {
        self.epsilon
    }

    /// The estimates carried on from the levels before this one.
    pub closed spec fn carried(&self) -> Convergence<T> {
        self.tracking
    }

    /// What holds within a level: the grid is well formed and has been
    /// refined, and the estimates carried are those of the levels before.
    pub open spec fn well_formed(&self) -> bool {
        &&& self.grid_of().well_formed()
        &&& self.grid_of().parts() >= 2
        &&& self.carried().previous_raw is Some <==> self.grid_of().parts() >= 4
        &&& self.carried().current_accelerated is Some <==> self.grid_of().parts() >= 4
        &&& self.carried().previous_accelerated is Some <==> self.grid_of().parts() >= 8
    }

    /// The refined grid.
    pub fn grid(&self) -> (grid: &Grid<T>)
        ensures
            *grid == self.grid_of(),
    {
        &self.grid
    }

    /// The estimates carried on from the levels before this one.
    pub fn tracking(&self) -> (tracking: &Convergence<T>)
        ensures
            *tracking == self.carried(),
    {
        &self.tracking
    }

    /// Takes in the level's estimates: `raw`, the extended Simpson sum over
    /// the grid, and `accelerated`, the estimate that is compared, with its
    /// comparison against the accelerated estimate of the level before.
    ///
    /// The integration is done when the estimates have settled; on the first
    /// level there is nothing to compare with, and the comparison is not
    /// looked at. The result then holds `accelerated`, the ends of the grid,
    /// the tolerance, and the subdivisions of the grid, which are four or
    /// more. Otherwise the accelerated estimate carried so far becomes the
    /// previous one, and `raw` and `accelerated` are carried on.
    pub fn record(self, raw: T, accelerated: T, comparison: Comparison) -> (step: Step<T>)
        requires
            self.well_formed(),
        ensures
            settled(self.carried(), comparison) ==> step == Step::Done(
                (IntegralResult {
                    integral: accelerated,
                    xi: self.grid_of()@[0].x,
                    xf: self.grid_of()@[self.grid_of().parts() as int].x,
                    epsilon: self.tolerance(),
                    subdivisions: self.grid_of().parts() as usize,
                }),
            ),
            settled(self.carried(), comparison) ==> self.grid_of().parts() >= 4,
            !settled(self.carried(), comparison) ==> step is Refine,
            step is Refine ==> step->Refine_0.well_formed(),
            step is Refine ==> step->Refine_0.grid_of() == self.grid_of(),
            step is Refine ==> step->Refine_0.tolerance() == self.tolerance(),
            step is Refine ==> step->Refine_0.carried() == (Convergence {
                previous_raw: Some(raw),
                previous_accelerated: self.carried().current_accelerated,
                current_accelerated: Some(accelerated),
            }),
    {
        if self.tracking.current_accelerated.is_some() && comparison.previous_finite
            && comparison.current_finite && !comparison.apart {
            let subdivisions: usize = self.grid.subdivisions();
            let (xi, xf) = self.grid.into_endpoints();
            Step::Done(
                IntegralResult { integral: accelerated, xi, xf, epsilon: self.epsilon, subdivisions },
            )
        } else {
            Step::Refine(
                Integration {
                    grid: self.grid,
                    epsilon: self.epsilon,
                    tracking: Convergence {
                        previous_raw: Some(raw),
                        previous_accelerated: self.tracking.current_accelerated,
                        current_accelerated: Some(accelerated),
                    },
                },
            )
        }
    }
}

} // verus!
