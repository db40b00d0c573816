use sequential_integration::errors::Error;
use sequential_integration::{
    calculate_double_integral_simpson, calculate_single_integral_simpson,
    calculate_triple_integral_simpson,
};

#[test]
fn single_integrals_with_odd_last_panels() {
    let parabola = |x: i128| -> Result<i128, Error> { Ok(7 * x * x - 3 * x + 2) };
    assert_eq!(calculate_single_integral_simpson(parabola, -11, 10, 4), Ok(4993));
    let line = |x: i128| -> Result<i128, Error> { Ok(-x) };
    assert_eq!(calculate_single_integral_simpson(line, 0, 1, 1), Ok(0));
    let cubic = |x: i128| -> Result<i128, Error> { Ok(-x * x * x) };
    assert_eq!(calculate_single_integral_simpson(cubic, 0, 9, 2), Ok(-1024));
}

#[test]
fn double_integral_with_limits_that_cross() {
    let equation = |x: i128, y: i128| -> Result<i128, Error> { Ok(x * x + 3 * y) };
    let lower = |x: i128| -> Result<i128, Error> { Ok(x - 3) };
    let upper = |x: i128| -> Result<i128, Error> { Ok(2 * x + 1) };
    assert_eq!(
        calculate_double_integral_simpson(equation, -4, 7, 2, lower, upper, 3),
        Ok(717)
    );
    // Both the outer and the inner limits exchanged: negated twice.
    assert_eq!(
        calculate_double_integral_simpson(equation, 7, -4, 2, upper, lower, 3),
        Ok(717)
    );
    assert_eq!(
        calculate_double_integral_simpson(equation, 7, -4, 2, lower, upper, 3),
        Ok(-717)
    );
    assert_eq!(
        calculate_double_integral_simpson(equation, -4, 7, 2, upper, lower, 3),
        Ok(-717)
    );
}

#[test]
fn triple_integral_with_limits_that_cross() {
    let equation = |x: i128, y: i128, z: i128| -> Result<i128, Error> { Ok(x * y - z * z + 5) };
    let second_begin = |x: i128| -> Result<i128, Error> { Ok(x) };
    let second_end = |x: i128| -> Result<i128, Error> { Ok(4 - x) };
    let third_begin = |x: i128, y: i128| -> Result<i128, Error> { Ok(y - x) };
    let third_end = |x: i128, _y: i128| -> Result<i128, Error> { Ok(x + 7) };
    assert_eq!(
        calculate_triple_integral_simpson(
            equation,
            -3,
            6,
            2,
            second_begin,
            second_end,
            1,
            third_begin,
            third_end,
            2
        ),
        Ok(938)
    );
    // The limits of all three variables exchanged: negated three times.
    assert_eq!(
        calculate_triple_integral_simpson(
            equation,
            6,
            -3,
            2,
            second_end,
            second_begin,
            1,
            third_end,
            third_begin,
            2
        ),
        Ok(-938)
    );
    // The limits of the second variable exchanged alone.
    assert_eq!(
        calculate_triple_integral_simpson(
            equation,
            -3,
            6,
            2,
            second_end,
            second_begin,
            1,
            third_begin,
            third_end,
            2
        ),
        Ok(-938)
    );
    // The limits of the third variable exchanged alone.
    assert_eq!(
        calculate_triple_integral_simpson(
            equation,
            -3,
            6,
            2,
            second_begin,
            second_end,
            1,
            third_end,
            third_begin,
            2
        ),
        Ok(-938)
    );
}
