use sequential_integration::calculate_double_integral_simpson;
use sequential_integration::errors::Error;

const TICKS: f64 = 1e6;
const UNITS: f64 = 1e9;

fn double_ticks(value: f64) -> i128 {
    (value * TICKS).round() as i128
}

fn double_units(value: f64) -> i128 {
    (value * UNITS).round() as i128
}

fn double_real(tick: i128) -> f64 {
    tick as f64 / TICKS
}

#[test]
fn calculate_double_integral_simpson_circel() {
    let equation = |_x: i128, _y: i128| -> Result<i128, Error> { Ok(double_units(1.)) };
    let first_integral_begin = -1.;
    let first_integral_end = 1.;
    let first_integral_step = 0.005;

    let second_integral_begin = |_x: i128| -> Result<i128, Error> { Ok(double_ticks(-0.)) };
    let second_integral_end = |x: i128| -> Result<i128, Error> {
        Ok(double_ticks((1. - double_real(x).powf(2.)).sqrt()))
    };
    let second_integral_step = 0.005;

    let result = calculate_double_integral_simpson(
        equation,
        double_ticks(first_integral_begin),
        double_ticks(first_integral_end),
        double_ticks(first_integral_step),
        second_integral_begin,
        second_integral_end,
        double_ticks(second_integral_step),
    )
    .unwrap() as f64
        / (TICKS * TICKS * UNITS);

    println!(
        "result: {}, expected: {}, diff: {}",
        result,
        std::f64::consts::FRAC_PI_2,
        result - std::f64::consts::FRAC_PI_2
    );

    assert!((result - std::f64::consts::FRAC_PI_2).abs() < 1e-2);
}

#[test]
fn calculate_double_integral_simpson_not_const_equation() {
    let equation = |x: i128, y: i128| -> Result<i128, Error> {
        Ok(double_units(double_real(x).powf(2.) / double_real(y).powf(2.)))
    };
    let first_integral_begin = 1.;
    let first_integral_end = 2.;
    let first_integral_step = 0.001;

    let second_integral_begin =
        |x: i128| -> Result<i128, Error> { Ok(double_ticks(1. / double_real(x))) };
    let second_integral_end = |x: i128| -> Result<i128, Error> { Ok(x) };
    let second_integral_step = 0.001;

    let result = calculate_double_integral_simpson(
        equation,
        double_ticks(first_integral_begin),
        double_ticks(first_integral_end),
        double_ticks(first_integral_step),
        second_integral_begin,
        second_integral_end,
        double_ticks(second_integral_step),
    )
    .unwrap() as f64
        / (TICKS * TICKS * UNITS);

    println!(
        "result: {}, expected: {}, diff: {}",
        result,
        2.25,
        result - 2.25
    );

    assert!((result - 2.25).abs() < 1e-2);
}

#[test]
fn double_integral_of_one_over_a_rectangle_is_its_area() {
    let result = calculate_double_integral_simpson(
        |_x: i128, _y: i128| -> Result<i128, Error> { Ok(1) },
        0,
        12,
        2,
        |_x: i128| -> Result<i128, Error> { Ok(0) },
        |_x: i128| -> Result<i128, Error> { Ok(8) },
        1,
    );
    assert_eq!(result, Ok(96));
}

#[test]
fn double_integral_with_reversed_inner_limits_is_negated() {
    let forward = calculate_double_integral_simpson(
        |x: i128, y: i128| -> Result<i128, Error> { Ok(x * y) },
        0,
        12,
        2,
        |_x: i128| -> Result<i128, Error> { Ok(0) },
        |x: i128| -> Result<i128, Error> { Ok(x) },
        1,
    )
    .unwrap();
    let backward = calculate_double_integral_simpson(
        |x: i128, y: i128| -> Result<i128, Error> { Ok(x * y) },
        0,
        12,
        2,
        |x: i128| -> Result<i128, Error> { Ok(x) },
        |_x: i128| -> Result<i128, Error> { Ok(0) },
        1,
    )
    .unwrap();
    assert_eq!(forward, 1472);
    assert_eq!(backward, -1472);
}

#[test]
fn double_integral_with_reversed_outer_limits_is_negated() {
    let forward = calculate_double_integral_simpson(
        |x: i128, y: i128| -> Result<i128, Error> { Ok(x + y) },
        -3,
        9,
        2,
        |_x: i128| -> Result<i128, Error> { Ok(0) },
        |_x: i128| -> Result<i128, Error> { Ok(6) },
        1,
    )
    .unwrap();
    let backward = calculate_double_integral_simpson(
        |x: i128, y: i128| -> Result<i128, Error> { Ok(x + y) },
        9,
        -3,
        2,
        |_x: i128| -> Result<i128, Error> { Ok(0) },
        |_x: i128| -> Result<i128, Error> { Ok(6) },
        1,
    )
    .unwrap();
    assert_eq!(forward, 432);
    assert_eq!(backward, -forward);
}

#[test]
fn double_integral_between_equal_outer_limits_is_zero() {
    let result = calculate_double_integral_simpson(
        |_x: i128, _y: i128| -> Result<i128, Error> { Err(Error::EquationWithoutResult) },
        7,
        7,
        2,
        |_x: i128| -> Result<i128, Error> { Err(Error::EquationWithoutResult) },
        |_x: i128| -> Result<i128, Error> { Err(Error::EquationWithoutResult) },
        1,
    );
    assert_eq!(result, Ok(0));
}

#[test]
fn double_integral_between_equal_inner_limits_is_zero() {
    let result = calculate_double_integral_simpson(
        |_x: i128, _y: i128| -> Result<i128, Error> { Ok(5) },
        0,
        12,
        2,
        |x: i128| -> Result<i128, Error> { Ok(x) },
        |x: i128| -> Result<i128, Error> { Ok(x) },
        1,
    );
    assert_eq!(result, Ok(0));
}

#[test]
fn failing_inner_limit_fails_the_double_integral() {
    let result = calculate_double_integral_simpson(
        |_x: i128, _y: i128| -> Result<i128, Error> { Ok(5) },
        0,
        12,
        2,
        |_x: i128| -> Result<i128, Error> { Ok(0) },
        |x: i128| -> Result<i128, Error> {
            if x == 4 {
                Err(Error::EquationWithMultipleResult)
            } else {
                Ok(3)
            }
        },
        1,
    );
    assert_eq!(result, Err(Error::EquationWithMultipleResult));
}
