use calc_service::grid::{Grid, Sample, Weight};
use calc_service::integration::{
    endpoints, Comparison, Convergence, Failure, IntegralResult, Integration, Step,
};
use calc_service::page::{self, Pages};
use std::cell::RefCell;

const EPSILON: f64 = 1e-12;

const SETTLED: Comparison = Comparison { previous_finite: true, current_finite: true, apart: false };

const APART: Comparison = Comparison { previous_finite: true, current_finite: true, apart: true };

fn number(text: &str) -> Result<f64, String> {
    text.parse::<f64>().map_err(|_| format!("cannot read {} as a number", text))
}

fn evaluate(x: f64, expression: &str) -> Result<f64, String> {
    match expression {
        "5" => Ok(5.0),
        "1" => Ok(1.0),
        "x" => Ok(x),
        "x^2" => Ok(x * x),
        "x^3" => Ok(x * x * x),
        "sin(x)" => Ok(x.sin()),
        "exp(x)" => Ok(x.exp()),
        "1/x" if x == 0.0 => Err("division by zero".to_string()),
        "1/x" => Ok(1.0 / x),
        "1/(x-0.5)" if x == 0.5 => Err("division by zero".to_string()),
        "1/(x-0.5)" => Ok(1.0 / (x - 0.5)),
        other => Err(format!("unknown variable in {}", other)),
    }
}

fn midpoint(x: f64, dx: f64, expression: &str) -> Result<(f64, f64), String> {
    let middle = x + dx;
    Ok((middle, evaluate(middle, expression)?))
}

fn simpson(grid: &Grid<f64>, dx: f64) -> f64 {
    let sum: f64 =
        grid.samples().iter().map(|sample| sample.f * f64::from(sample.weight.twice()) / 2.0).sum();
    sum * 4.0 * dx / 3.0
}

fn compare(carried: &Convergence<f64>, accelerated: f64) -> Comparison {
    match carried.current_accelerated {
        Some(previous) => Comparison {
            previous_finite: previous.is_finite(),
            current_finite: accelerated.is_finite(),
            apart: (accelerated - previous).abs() > EPSILON,
        },
        None => Comparison { previous_finite: false, current_finite: accelerated.is_finite(), apart: true },
    }
}

fn integrate(xi: &str, xf: &str, expression: &str) -> Result<IntegralResult<f64>, Failure> {
    let (xi, xf) = endpoints(number(xi), number(xf))?;
    let mut run =
        Integration::begin(xi, xf, evaluate(xi, expression), evaluate(xf, expression), EPSILON)?;
    let mut dx = xf - xi;
    loop {
        dx /= 2.0;
        let level = run.refine_with(|x| midpoint(*x, dx, expression))?;
        let raw = simpson(level.grid(), dx);
        let accelerated = match level.tracking().previous_raw {
            Some(previous_raw) => raw + (raw - previous_raw) / 15.0,
            None => raw,
        };
        let comparison = compare(level.tracking(), accelerated);
        match level.record(raw, accelerated, comparison) {
            Step::Refine(next) => run = next,
            Step::Done(result) => return Ok(result),
        }
    }
}

fn begun() -> Integration<f64> {
    Integration::begin(0.0, 1.0, Ok(0.0), Ok(1.0), EPSILON).unwrap()
}

fn refined(step: Step<f64>) -> Integration<f64> {
    match step {
        Step::Refine(run) => run,
        Step::Done(result) => panic!("done too early: {:?}", result),
    }
}

fn done(step: Step<f64>) -> IntegralResult<f64> {
    match step {
        Step::Done(result) => result,
        Step::Refine(_) => panic!("not done"),
    }
}

#[test]
fn endpoints_are_both_numbers_when_both_texts_parse() {
    assert_eq!(endpoints(Ok(0.0), Ok(1.0)), Ok((0.0, 1.0)));
    assert_eq!(endpoints(number("-1"), number("2.5")), Ok((-1.0, 2.5)));
}

#[test]
fn endpoints_fail_with_the_message_of_the_first_text_that_does_not_parse() {
    let first: Result<f64, String> = Err("bad start".to_string());
    let second: Result<f64, String> = Err("bad end".to_string());
    assert_eq!(endpoints(first.clone(), Ok(1.0)), Err(Failure::Parse("bad start".to_string())));
    assert_eq!(endpoints(Ok(0.0), second.clone()), Err(Failure::Parse("bad end".to_string())));
    assert_eq!(endpoints(first, second), Err(Failure::Parse("bad start".to_string())));
}

#[test]
fn failure_message_is_the_message_it_was_made_from() {
    assert_eq!(Failure::Parse("bad start".to_string()).message(), "bad start");
    assert_eq!(Failure::Eval("unknown variable y".to_string()).message(), "unknown variable y");
    assert_eq!(Failure::Midpoints.message(), "there must be one midpoint for each subdivision");
}

#[test]
fn integration_begins_with_the_two_ends_and_nothing_carried() {
    let run = begun();
    assert_eq!(run.grid().subdivisions(), 1);
    assert_eq!(
        run.grid().samples(),
        &vec![
            Sample { x: 0.0, f: 0.0, weight: Weight::Half },
            Sample { x: 1.0, f: 1.0, weight: Weight::Half },
        ]
    );
    assert_eq!(
        run.tracking(),
        &Convergence { previous_raw: None, previous_accelerated: None, current_accelerated: None }
    );
}

#[test]
fn integration_does_not_begin_without_the_values_at_both_ends() {
    let missing: Result<f64, String> = Err("unknown variable y".to_string());
    let other: Result<f64, String> = Err("division by zero".to_string());
    let run = Integration::begin(0.0, 1.0, missing.clone(), Ok(1.0), EPSILON);
    assert_eq!(run.err(), Some(Failure::Eval("unknown variable y".to_string())));
    let run = Integration::begin(0.0, 1.0, Ok(0.0), other.clone(), EPSILON);
    assert_eq!(run.err(), Some(Failure::Eval("division by zero".to_string())));
    let run = Integration::begin(0.0, 1.0, missing, other, EPSILON);
    assert_eq!(run.err(), Some(Failure::Eval("unknown variable y".to_string())));
}

#[test]
fn refining_keeps_what_is_carried() {
    let level = begun().refine(Ok(vec![(0.5, 0.25)])).unwrap();
    assert_eq!(level.grid().subdivisions(), 2);
    assert_eq!(
        level.tracking(),
        &Convergence { previous_raw: None, previous_accelerated: None, current_accelerated: None }
    );
    let run = refined(level.record(0.5, 0.5, APART));
    let level = run.refine(Ok(vec![(0.25, 0.0625), (0.75, 0.5625)])).unwrap();
    assert_eq!(level.grid().subdivisions(), 4);
    assert_eq!(
        level.tracking(),
        &Convergence {
            previous_raw: Some(0.5),
            previous_accelerated: None,
            current_accelerated: Some(0.5),
        }
    );
}

#[test]
fn evaluator_failure_at_a_midpoint_ends_the_integration() {
    let level = begun().refine(Err("division by zero".to_string()));
    assert_eq!(level.err(), Some(Failure::Eval("division by zero".to_string())));
}

#[test]
fn wrong_number_of_midpoints_ends_the_integration() {
    let level = begun().refine(Ok(vec![]));
    assert_eq!(level.err(), Some(Failure::Midpoints));
    let level = begun().refine(Ok(vec![(0.25, 0.0), (0.75, 0.0)]));
    assert_eq!(level.err(), Some(Failure::Midpoints));
}

#[test]
fn refining_asks_for_the_midpoint_behind_every_sample_but_the_last() {
    let asked = RefCell::new(Vec::new());
    let level = begun()
        .refine_with(|x| {
            asked.borrow_mut().push(*x);
            Ok((*x + 0.5, 7.0))
        })
        .unwrap();
    assert_eq!(asked.borrow().clone(), vec![0.0]);
    assert_eq!(
        level.grid().samples(),
        &vec![
            Sample { x: 0.0, f: 0.0, weight: Weight::Half },
            Sample { x: 0.5, f: 7.0, weight: Weight::Two },
            Sample { x: 1.0, f: 1.0, weight: Weight::Half },
        ]
    );
    asked.borrow_mut().clear();
    let level = refined(level.record(0.0, 0.0, APART))
        .refine_with(|x| {
            asked.borrow_mut().push(*x);
            Ok((*x + 0.25, 9.0))
        })
        .unwrap();
    assert_eq!(asked.borrow().clone(), vec![0.0, 0.5]);
    let xs: Vec<f64> = level.grid().samples().iter().map(|sample| sample.x).collect();
    assert_eq!(xs, vec![0.0, 0.25, 0.5, 0.75, 1.0]);
    let fs: Vec<f64> = level.grid().samples().iter().map(|sample| sample.f).collect();
    assert_eq!(fs, vec![0.0, 9.0, 7.0, 9.0, 1.0]);
}

#[test]
fn refining_stops_asking_at_the_first_failure() {
    let level = begun().refine_with(|x| Ok((*x + 0.5, 0.25))).unwrap();
    let run = refined(level.record(0.0, 0.0, APART));
    let level = run.refine_with(|x| Ok((*x + 0.25, 0.0))).unwrap();
    let run = refined(level.record(0.0, 0.0, APART));
    let asked = RefCell::new(Vec::new());
    let level = run.refine_with(|x| {
        asked.borrow_mut().push(*x);
        if *x == 0.25 {
            Err("division by zero".to_string())
        } else if *x > 0.25 {
            Err("asked again".to_string())
        } else {
            Ok((*x + 0.125, 0.0))
        }
    });
    assert_eq!(level.err(), Some(Failure::Eval("division by zero".to_string())));
    assert_eq!(asked.borrow().clone(), vec![0.0, 0.25]);
}

#[test]
fn first_level_never_ends_the_integration() {
    let level = begun().refine(Ok(vec![(0.5, 0.25)])).unwrap();
    let run = refined(level.record(0.5, 0.5, SETTLED));
    assert_eq!(run.grid().subdivisions(), 2);
    assert_eq!(
        run.tracking(),
        &Convergence {
            previous_raw: Some(0.5),
            previous_accelerated: None,
            current_accelerated: Some(0.5),
        }
    );
}

#[test]
fn estimates_shift_from_level_to_level() {
    let level = begun().refine(Ok(vec![(0.5, 0.25)])).unwrap();
    let run = refined(level.record(10.0, 11.0, APART));
    let level = run.refine(Ok(vec![(0.25, 0.0), (0.75, 0.0)])).unwrap();
    let run = refined(level.record(20.0, 21.0, APART));
    assert_eq!(
        run.tracking(),
        &Convergence {
            previous_raw: Some(20.0),
            previous_accelerated: Some(11.0),
            current_accelerated: Some(21.0),
        }
    );
    let level = run.refine(Ok(vec![(0.0, 0.0); 4])).unwrap();
    let run = refined(level.record(30.0, 31.0, APART));
    assert_eq!(
        run.tracking(),
        &Convergence {
            previous_raw: Some(30.0),
            previous_accelerated: Some(21.0),
            current_accelerated: Some(31.0),
        }
    );
    assert_eq!(run.grid().subdivisions(), 8);
}

#[test]
fn second_level_ends_the_integration_when_the_estimates_have_settled() {
    let level = begun().refine(Ok(vec![(0.5, 0.25)])).unwrap();
    let run = refined(level.record(0.5, 0.5, APART));
    let level = run.refine(Ok(vec![(0.25, 0.0625), (0.75, 0.5625)])).unwrap();
    let result = done(level.record(0.375, 0.25, SETTLED));
    assert_eq!(
        result,
        IntegralResult { integral: 0.25, xi: 0.0, xf: 1.0, epsilon: EPSILON, subdivisions: 4 }
    );
}

#[test]
fn integration_goes_on_while_an_estimate_is_not_finite_or_the_two_are_apart() {
    let comparisons = [
        Comparison { previous_finite: false, current_finite: true, apart: false },
        Comparison { previous_finite: true, current_finite: false, apart: false },
        Comparison { previous_finite: true, current_finite: true, apart: true },
        Comparison { previous_finite: false, current_finite: false, apart: true },
    ];
    for comparison in comparisons {
        let level = begun().refine(Ok(vec![(0.5, 0.25)])).unwrap();
        let run = refined(level.record(0.5, 0.5, APART));
        let level = run.refine(Ok(vec![(0.25, 0.0625), (0.75, 0.5625)])).unwrap();
        let run = refined(level.record(0.375, 0.25, comparison));
        assert_eq!(run.grid().subdivisions(), 4);
    }
}

#[test]
fn constant_function_settles_at_the_first_comparison() {
    let result = integrate("0", "3", "5").unwrap();
    assert_eq!(result.subdivisions, 4);
    let unit = integrate("0", "3", "1").unwrap();
    assert_eq!(unit.subdivisions, 4);
    assert!((result.integral - 5.0 * unit.integral).abs() < 1e-9);
}

#[test]
fn constant_function_has_the_same_raw_estimate_at_every_level() {
    let mut run =
        Integration::begin(0.0, 3.0, evaluate(0.0, "5"), evaluate(3.0, "5"), EPSILON).unwrap();
    let mut dx: f64 = 3.0;
    let mut estimates = Vec::new();
    for _ in 0..6 {
        dx /= 2.0;
        let level = run.refine_with(|x| midpoint(*x, dx, "5")).unwrap();
        let raw = simpson(level.grid(), dx);
        estimates.push(raw);
        run = refined(level.record(raw, raw, APART));
    }
    for raw in &estimates {
        assert!((raw - estimates[0]).abs() < 1e-12, "{:?}", estimates);
    }
}

#[test]
fn square_over_unit_interval_is_a_third_of_the_unit_function() {
    let square = integrate("0", "1", "x^2").unwrap();
    let unit = integrate("0", "1", "1").unwrap();
    assert!((square.integral / unit.integral - 0.33333333333).abs() < 1e-9);
    assert_eq!(square.xi, 0.0);
    assert_eq!(square.xf, 1.0);
    assert_eq!(square.epsilon, 1e-12);
}

#[test]
fn cube_over_symmetric_interval_is_zero() {
    let result = integrate("-1", "1", "x^3").unwrap();
    assert!(result.integral.abs() < 1e-9);
    assert_eq!(result.xi, -1.0);
    assert_eq!(result.xf, 1.0);
}

#[test]
fn same_inputs_give_the_same_result_bit_for_bit() {
    for (xi, xf, expression) in [("0", "1", "x^2"), ("0", "2", "sin(x)"), ("-1", "1", "exp(x)")] {
        let first = integrate(xi, xf, expression).unwrap();
        let second = integrate(xi, xf, expression).unwrap();
        assert_eq!(first.integral.to_bits(), second.integral.to_bits());
        assert_eq!(first.subdivisions, second.subdivisions);
        assert_eq!(first, second);
    }
}

#[test]
fn reversed_interval_gives_the_opposite_sign() {
    for (xi, xf, expression) in [("0", "1", "x^2"), ("0", "2", "sin(x)"), ("1", "2", "1/x")] {
        let forward = integrate(xi, xf, expression).unwrap();
        let backward = integrate(xf, xi, expression).unwrap();
        assert!((forward.integral + backward.integral).abs() < 1e-9);
        assert_eq!(backward.xi, forward.xf);
        assert_eq!(backward.xf, forward.xi);
    }
}

#[test]
fn degenerate_interval_gives_zero() {
    for (a, expression) in [("2", "x^2"), ("0", "sin(x)"), ("-1.5", "exp(x)")] {
        let result = integrate(a, a, expression).unwrap();
        assert_eq!(result.integral, 0.0);
        assert_eq!(result.xi, result.xf);
        assert_eq!(result.subdivisions, 4);
    }
}

#[test]
fn result_never_has_fewer_than_four_subdivisions() {
    for (xi, xf, expression) in [("0", "1", "5"), ("0", "1", "x"), ("0", "1", "x^3"), ("3", "3", "x")] {
        let result = integrate(xi, xf, expression).unwrap();
        assert!(result.subdivisions >= 4);
        assert!(result.subdivisions.is_power_of_two());
    }
}

#[test]
fn undefined_variable_surfaces_as_an_evaluation_failure() {
    let result = integrate("0", "1", "y^2");
    assert_eq!(result, Err(Failure::Eval("unknown variable in y^2".to_string())));
}

#[test]
fn endpoint_that_does_not_parse_surfaces_as_a_parse_failure() {
    assert_eq!(
        integrate("zero", "1", "x"),
        Err(Failure::Parse("cannot read zero as a number".to_string()))
    );
    assert_eq!(
        integrate("0", "one", "x"),
        Err(Failure::Parse("cannot read one as a number".to_string()))
    );
}

#[test]
fn failure_at_a_midpoint_surfaces_without_a_result() {
    assert_eq!(integrate("0", "1", "1/(x-0.5)"), Err(Failure::Eval("division by zero".to_string())));
}

#[test]
fn failure_at_an_endpoint_surfaces_before_any_refinement() {
    assert_eq!(integrate("0", "1", "1/x"), Err(Failure::Eval("division by zero".to_string())));
}

fn answer(xi: &str, xf: &str, input: &str, expression: &str) -> String {
    let pages = Pages {
        differentiation: "<h1>differentiation</h1>".to_string(),
        integration: "<h1>integration</h1>".to_string(),
        root_finding: "<h1>root finding</h1>".to_string(),
        ode: "<h1>ode</h1>".to_string(),
    };
    let outcome = integrate(xi, xf, expression)
        .map(|result| IntegralResult {
            integral: result.integral.to_string(),
            xi: result.xi.to_string(),
            xf: result.xf.to_string(),
            epsilon: result.epsilon.to_string(),
            subdivisions: result.subdivisions,
        })
        .map_err(|failure| failure.message());
    page::integrate(&pages, xi, xf, input, &outcome)
}

#[test]
fn integration_is_answered_with_its_result() {
    assert_eq!(
        answer("-1", "1", "X%5E3", "x^3"),
        "<h1>integration</h1><br><br><b>result</b>: 0 equals the definite integral from x = -1 \
         to x = 1 of the function f(x) = x^3.<br>Convergence to an absolute accuracy of \
         0.000000000001 required 4 subdivisions."
    );
}

#[test]
fn integration_is_answered_with_the_message_of_its_failure() {
    assert_eq!(
        answer("0", "1", "y%5E2", "y^2"),
        "<h1>differentiation</h1><br><br><b>result</b> for the integral from x = 0 to x = 1 of \
         the function f(x) = y%5E2:<br>unknown variable in y^2"
    );
    assert_eq!(
        answer("0", "one", "x", "x"),
        "<h1>differentiation</h1><br><br><b>result</b> for the integral from x = 0 to x = one of \
         the function f(x) = x:<br>cannot read one as a number"
    );
}
