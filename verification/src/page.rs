//! The answers of the service, as text.
//!
//! Every route answers with the results of a computation or with the message
//! of its failure. Numbers come in already formatted; counts are written
//! here.
use crate::expression::{decode_expression, decoded, lower_variable, with_lower_variable};
use crate::integration::IntegralResult;
use crate::numeral::{decimal, to_decimal};
use crate::text::{listed, views_of, write_list};
use vstd::prelude::*;

verus! {

/// The fixed pages of the service above which an answer is shown.
pub struct Pages {
    pub differentiation: String,
    pub integration: String,
    pub root_finding: String,
    pub ode: String,
}

/// A function's value and first three derivatives at a point, as text.
pub struct DerivativeFigures {
    pub x: String,
    pub derivs: [String; 4],
    pub nonsingular: bool,
}

/// A root of a function as text, with the point the search started from, the
/// tolerance, and the steps that bracketing and convergence took.
pub struct RootFigures {
    pub x: String,
    pub xi: String,
    pub epsilon: String,
    pub bracket_steps: u64,
    pub root_steps: u64,
}

/// The solution of a first-order equation as text: the initial value and the
/// values that follow it.
pub struct SolutionFigures {
    pub xi: String,
    pub xs: Vec<String>,
}

/// The solution of a second-order equation as text: positions and velocities.
pub struct MotionFigures {
    pub xs: Vec<String>,
    pub vs: Vec<String>,
}

/// The reply of the JSON routes to a failed request: the message in an object
/// with the one key `message`. The message is put in as it is.
pub open spec fn json_failure(message: Seq<char>) -> Seq<char> {
    "{\"message\": "@ + message + "}"@
}

/// The reply of a JSON route: the serialized results, or the failure's message
/// in an object of its own.
pub open spec fn json_answer(outcome: Result<String, String>) -> Seq<char> {
    match outcome {
        Ok(body) => body@,
        Err(message) => json_failure(message@),
    }
}

/// Replies on a JSON route: with the serialized results as they are, or with
/// the failure's message in an object of its own.
pub fn json_reply(outcome: Result<String, String>) -> (out: String)
    ensures
        out@ == json_answer(outcome),
{
    match outcome {
        Ok(body) => body,
        Err(message) => {
            let mut out = String::new();
            out.append("{\"message\": ");
            out.append(message.as_str());
            out.append("}");
            assert(Seq::<char>::empty() + "{\"message\": "@ =~= "{\"message\": "@);
            out
        },
    }
}

/// The note shown with derivatives that are limits only.
pub open spec fn limits_note(nonsingular: bool) -> Seq<char> {
    if nonsingular {
        Seq::empty()
    } else {
        "<br>(The function does not exist at that point, but these are the limits.)"@
    }
}

/// The page that answers a differentiation request.
pub open spec fn differentiation_answer(
    pages: Pages,
    input: Seq<char>,
    outcome: Result<DerivativeFigures, String>,
) -> Seq<char> {
    match outcome {
        Ok(figures) => pages.differentiation@ + "<br><br><b>results</b> at x = "@ + figures.x@
            + " for the function f(x) = "@ + decoded(input) + ":"@ + limits_note(
            figures.nonsingular,
        ) + "<ul><li>f = "@ + figures.derivs[0]@ + "</li><li>f' = "@ + figures.derivs[1]@
            + "</li><li>f'' = "@ + figures.derivs[2]@ + "</li><li>f''' = "@ + figures.derivs[3]@
            + "</li></ul>"@,
        Err(message) => pages.differentiation@ + "<br><br><b>result</b> for the function f(x) = "@
            + input + ":<br>"@ + message@,
    }
}

/// Answers a differentiation request: the derivatives at the point with the
/// decoded expression, or the failure's message with the expression as it came.
pub fn differentiate(pages: &Pages, input: &str, outcome: &Result<DerivativeFigures, String>) -> (out:
    String)
    ensures
        out@ == differentiation_answer(*pages, input@, *outcome),
{
    let mut out = String::new();
    out.append(pages.differentiation.as_str());
    assert(out@ =~= pages.differentiation@);
    match outcome {
        Ok(figures) => {
            let expression = decode_expression(input);
            out.append("<br><br><b>results</b> at x = ");
            out.append(figures.x.as_str());
            out.append(" for the function f(x) = ");
            out.append(expression.as_str());
            out.append(":");
            if !figures.nonsingular {
                out.append(
                    "<br>(The function does not exist at that point, but these are the limits.)",
                );
            } else {
                assert(out@ + Seq::<char>::empty() =~= out@);
            }
            out.append("<ul><li>f = ");
            out.append(figures.derivs[0].as_str());
            out.append("</li><li>f' = ");
            out.append(figures.derivs[1].as_str());
            out.append("</li><li>f'' = ");
            out.append(figures.derivs[2].as_str());
            out.append("</li><li>f''' = ");
            out.append(figures.derivs[3].as_str());
            out.append("</li></ul>");
        },
        Err(message) => {
            out.append("<br><br><b>result</b> for the function f(x) = ");
            out.append(input);
            out.append(":<br>");
            out.append(message.as_str());
        },
    }
    out
}

/// The page that answers an integration request. A failure is shown under the
/// differentiation page.
pub open spec fn integration_answer(
    pages: Pages,
    xi: Seq<char>,
    xf: Seq<char>,
    input: Seq<char>,
    outcome: Result<IntegralResult<String>, String>,
) -> Seq<char> {
    match outcome {
        Ok(result) => pages.integration@ + "<br><br><b>result</b>: "@ + result.integral@
            + " equals the definite integral from x = "@ + result.xi@ + " to x = "@ + result.xf@
            + " of the function f(x) = "@ + with_lower_variable(decoded(input))
            + ".<br>Convergence to an absolute accuracy of "@ + result.epsilon@ + " required "@
            + decimal(result.subdivisions as nat) + " subdivisions."@,
        Err(message) => pages.differentiation@
            + "<br><br><b>result</b> for the integral from x = "@ + xi + " to x = "@ + xf
            + " of the function f(x) = "@ + input + ":<br>"@ + message@,
    }
}

/// Answers an integration request: the integral with the endpoints that were
/// used, the decoded expression with its variable in lower case, the tolerance
/// and the subdivisions; or the failure's message with the endpoints and the
/// expression as they came.
pub fn integrate(
    pages: &Pages,
    xi: &str,
    xf: &str,
    input: &str,
    outcome: &Result<IntegralResult<String>, String>,
) -> (out: String)
    ensures
        out@ == integration_answer(*pages, xi@, xf@, input@, *outcome),
{
    let mut out = String::new();
    match outcome {
        Ok(result) => {
            let decoded = decode_expression(input);
            let expression = lower_variable(decoded.as_str());
            let subdivisions = to_decimal(result.subdivisions as u64);
            out.append(pages.integration.as_str());
            assert(out@ =~= pages.integration@);
            out.append("<br><br><b>result</b>: ");
            out.append(result.integral.as_str());
            out.append(" equals the definite integral from x = ");
            out.append(result.xi.as_str());
            out.append(" to x = ");
            out.append(result.xf.as_str());
            out.append(" of the function f(x) = ");
            out.append(expression.as_str());
            out.append(".<br>Convergence to an absolute accuracy of ");
            out.append(result.epsilon.as_str());
            out.append(" required ");
            out.append(subdivisions.as_str());
            out.append(" subdivisions.");
        },
        Err(message) => {
            out.append(pages.differentiation.as_str());
            assert(out@ =~= pages.differentiation@);
            out.append("<br><br><b>result</b> for the integral from x = ");
            out.append(xi);
            out.append(" to x = ");
            out.append(xf);
            out.append(" of the function f(x) = ");
            out.append(input);
            out.append(":<br>");
            out.append(message.as_str());
        },
    }
    out
}

/// The page that answers a root-finding request.
pub open spec fn root_answer(
    pages: Pages,
    xi: Seq<char>,
    input: Seq<char>,
    outcome: Result<RootFigures, String>,
) -> Seq<char> {
    match outcome {
        Ok(figures) => pages.root_finding@ + "<br><br><b>result</b>: "@ + figures.x@
            + " is the root of the function f(x) = "@ + with_lower_variable(decoded(input))
            + " which is found after starting from x = "@ + figures.xi@
            + ".<br>Bracketing the root required "@ + decimal(figures.bracket_steps as nat)
            + " steps, and convergence to an absolute accuracy of "@ + figures.epsilon@
            + " required "@ + decimal(figures.root_steps as nat) + " more steps."@,
        Err(message) => pages.root_finding@
            + "<br><br><b>result</b> for finding a root of the function f(x) = "@ + input
            + " after starting at x = "@ + xi + ":<br>"@ + message@,
    }
}

/// Answers a root-finding request: the root with the decoded expression, the
/// starting point that was used and both step counts; or the failure's message
/// with the expression and the starting point as they came.
pub fn find_root(pages: &Pages, xi: &str, input: &str, outcome: &Result<RootFigures, String>) -> (out:
    String)
    ensures
        out@ == root_answer(*pages, xi@, input@, *outcome),
{
    let mut out = String::new();
    out.append(pages.root_finding.as_str());
    assert(out@ =~= pages.root_finding@);
    match outcome {
        Ok(figures) => {
            let decoded = decode_expression(input);
            let expression = lower_variable(decoded.as_str());
            let bracket_steps = to_decimal(figures.bracket_steps);
            let root_steps = to_decimal(figures.root_steps);
            out.append("<br><br><b>result</b>: ");
            out.append(figures.x.as_str());
            out.append(" is the root of the function f(x) = ");
            out.append(expression.as_str());
            out.append(" which is found after starting from x = ");
            out.append(figures.xi.as_str());
            out.append(".<br>Bracketing the root required ");
            out.append(bracket_steps.as_str());
            out.append(" steps, and convergence to an absolute accuracy of ");
            out.append(figures.epsilon.as_str());
            out.append(" required ");
            out.append(root_steps.as_str());
            out.append(" more steps.");
        },
        Err(message) => {
            out.append("<br><br><b>result</b> for finding a root of the function f(x) = ");
            out.append(input);
            out.append(" after starting at x = ");
            out.append(xi);
            out.append(":<br>");
            out.append(message.as_str());
        },
    }
    out
}

/// The page that answers a first-order equation. The solution is shown under
/// the root-finding page, a failure under the page of these equations.
pub open spec fn solution_answer(
    pages: Pages,
    xi: Seq<char>,
    input: Seq<char>,
    outcome: Result<SolutionFigures, String>,
) -> Seq<char> {
    match outcome {
        Ok(figures) => pages.root_finding@
            + "<br><br><b>result</b>: Below are the values of the solution of the ODE dx/dt = "@
            + with_lower_variable(decoded(input)) + " if x(0) = "@ + figures.xi@ + ".<br>x = "@
            + listed(views_of(figures.xs@)),
        Err(message) => pages.ode@ + "<br><br><b>result</b> for ODE that dx/dt = "@ + input
            + " if x(0) = "@ + xi + ":<br>"@ + message@,
    }
}

/// Answers a first-order equation: the values of the solution as a list, with
/// the decoded right-hand side and the initial value that was used; or the
/// failure's message with both as they came.
pub fn find_soln(pages: &Pages, xi: &str, input: &str, outcome: &Result<SolutionFigures, String>) -> (out:
    String)
    ensures
        out@ == solution_answer(*pages, xi@, input@, *outcome),
{
    let mut out = String::new();
    match outcome {
        Ok(figures) => {
            let decoded = decode_expression(input);
            let expression = lower_variable(decoded.as_str());
            let values = write_list(&figures.xs);
            out.append(pages.root_finding.as_str());
            assert(out@ =~= pages.root_finding@);
            out.append(
                "<br><br><b>result</b>: Below are the values of the solution of the ODE dx/dt = ",
            );
            out.append(expression.as_str());
            out.append(" if x(0) = ");
            out.append(figures.xi.as_str());
            out.append(".<br>x = ");
            out.append(values.as_str());
        },
        Err(message) => {
            out.append(pages.ode.as_str());
            assert(out@ =~= pages.ode@);
            out.append("<br><br><b>result</b> for ODE that dx/dt = ");
            out.append(input);
            out.append(" if x(0) = ");
            out.append(xi);
            out.append(":<br>");
            out.append(message.as_str());
        },
    }
    out
}

/// The answer to a second-order equation: both lists, or the bare message.
pub open spec fn motion_answer(outcome: Result<MotionFigures, String>) -> Seq<char> {
    match outcome {
        Ok(figures) => "x: "@ + listed(views_of(figures.xs@)) + "<br/>v: "@ + listed(
            views_of(figures.vs@),
        ),
        Err(message) => message@,
    }
}

/// Answers a second-order equation: positions and velocities as two lists, or
/// the failure's message and nothing else.
pub fn find_soln2(outcome: &Result<MotionFigures, String>) -> (out: String)
    ensures
        out@ == motion_answer(*outcome),
{
    let mut out = String::new();
    match outcome {
        Ok(figures) => {
            let positions = write_list(&figures.xs);
            let velocities = write_list(&figures.vs);
            out.append("x: ");
            assert(out@ =~= "x: "@);
            out.append(positions.as_str());
            out.append("<br/>v: ");
            out.append(velocities.as_str());
        },
        Err(message) => {
            out.append(message.as_str());
            assert(out@ =~= message@);
        },
    }
    out
}

} // verus!
