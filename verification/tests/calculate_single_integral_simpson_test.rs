use mexprp::{Answer, Context, Expression};
use sequential_integration::calculate_single_integral_simpson;
use sequential_integration::errors::Error;

const TICKS: f64 = 1e6;
const UNITS: f64 = 1e9;

fn ticks(value: f64) -> i128 {
    (value * TICKS).round() as i128
}

#[test]
fn calculate_single_integral_simpson_test() {
    let equation = "max(sqrt(1 - x^2))";
    let first_integral_begin = -1.;
    let first_integral_end = 1.;
    let first_integral_step = 0.05;

    let expression: Expression<f64> = Expression::parse(equation).unwrap();
    let evaluate = |x: i128| -> Result<i128, Error> {
        let mut context = Context::new();
        context.set_var("x", x as f64 / TICKS);
        match expression.eval_ctx(&context) {
            Ok(Answer::Single(value)) => Ok((value * UNITS).round() as i128),
            Ok(_) => Err(Error::EquationWithMultipleResult),
            Err(_) => Err(Error::EquationWithoutResult),
        }
    };

    let result = calculate_single_integral_simpson(
        evaluate,
        ticks(first_integral_begin),
        ticks(first_integral_end),
        ticks(first_integral_step),
    )
    .unwrap() as f64
        / (TICKS * UNITS);

    println!(
        "result: {}, expected: {}, diff: {}",
        result,
        std::f64::consts::FRAC_PI_2,
        result - std::f64::consts::FRAC_PI_2
    );

    assert!((result - std::f64::consts::FRAC_PI_2).abs() < 1e-2);
}

#[test]
fn expression_with_two_values_fails_the_integral() {
    let expression: Expression<f64> = Expression::parse("sqrt(4 + x)").unwrap();
    let evaluate = |x: i128| -> Result<i128, Error> {
        let mut context = Context::new();
        context.set_var("x", x as f64 / TICKS);
        match expression.eval_ctx(&context) {
            Ok(Answer::Single(value)) => Ok((value * UNITS).round() as i128),
            Ok(_) => Err(Error::EquationWithMultipleResult),
            Err(_) => Err(Error::EquationWithoutResult),
        }
    };

    let result = calculate_single_integral_simpson(evaluate, ticks(0.), ticks(1.), ticks(0.1));
    assert_eq!(result, Err(Error::EquationWithMultipleResult));
}

#[test]
fn expression_without_value_fails_the_integral() {
    let expression: Expression<f64> = Expression::parse("x + y").unwrap();
    let evaluate = |x: i128| -> Result<i128, Error> {
        let mut context = Context::new();
        context.set_var("x", x as f64 / TICKS);
        match expression.eval_ctx(&context) {
            Ok(Answer::Single(value)) => Ok((value * UNITS).round() as i128),
            Ok(_) => Err(Error::EquationWithMultipleResult),
            Err(_) => Err(Error::EquationWithoutResult),
        }
    };

    let result = calculate_single_integral_simpson(evaluate, ticks(0.), ticks(1.), ticks(0.1));
    assert_eq!(result, Err(Error::EquationWithoutResult));
}
