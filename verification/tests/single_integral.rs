use sequential_integration::calculate_single_integral_simpson;
use sequential_integration::errors::Error;

fn one(_x: i128) -> Result<i128, Error> {
    Ok(1)
}

fn square(x: i128) -> Result<i128, Error> {
    Ok(x * x)
}

fn cubic(x: i128) -> Result<i128, Error> {
    Ok(x * x * x - x)
}

#[test]
fn constant_one_over_an_even_range() {
    assert_eq!(calculate_single_integral_simpson(one, 0, 100, 5), Ok(100));
}

#[test]
fn constant_one_over_a_range_with_an_odd_last_panel() {
    // The last panel starts at 4 and is 3 ticks wide: its half-step is 1.
    assert_eq!(calculate_single_integral_simpson(one, 0, 7, 2), Ok(6));
}

#[test]
fn constant_one_stays_within_one_tick_of_the_width() {
    for a in -6..7 {
        for b in a..12 {
            for h in 1..5 {
                let value = calculate_single_integral_simpson(one, a, b, h).unwrap();
                assert!(b - a - 1 <= value && value <= b - a);
            }
        }
    }
}

#[test]
fn square_over_three_panels() {
    // Panels [0, 4] and [4, 8] sum to 32 + 224 in the common channel,
    // 2 * 256 / 3 = 170; the last panel [8, 12] gives 2 * 608 / 3 = 405.
    assert_eq!(calculate_single_integral_simpson(square, 0, 12, 2), Ok(575));
}

#[test]
fn reversed_limits_negate_the_value() {
    assert_eq!(calculate_single_integral_simpson(square, 12, 0, 2), Ok(-575));
    assert_eq!(calculate_single_integral_simpson(cubic, -5, 9, 3), Ok(1456));
    assert_eq!(calculate_single_integral_simpson(cubic, 9, -5, 3), Ok(-1456));
}

#[test]
fn reversed_limits_negate_every_value() {
    for a in -5..6 {
        for b in -5..6 {
            for h in 1..4 {
                let forward = calculate_single_integral_simpson(cubic, a, b, h).unwrap();
                let backward = calculate_single_integral_simpson(cubic, b, a, h).unwrap();
                assert_eq!(backward, -forward);
            }
        }
    }
}

#[test]
fn equal_limits_give_zero_without_evaluating() {
    let failing = |_x: i128| -> Result<i128, Error> { Err(Error::EquationWithoutResult) };
    assert_eq!(calculate_single_integral_simpson(failing, 3, 3, 1), Ok(0));
    assert_eq!(calculate_single_integral_simpson(square, -8, -8, 1000), Ok(0));
    assert_eq!(
        calculate_single_integral_simpson(one, i128::MIN, i128::MIN, i128::MAX),
        Ok(0)
    );
}

#[test]
fn same_inputs_give_the_same_result() {
    let first = calculate_single_integral_simpson(cubic, -17, 23, 3);
    let second = calculate_single_integral_simpson(cubic, -17, 23, 3);
    assert_eq!(first, second);
}

#[test]
fn failing_integrand_fails_the_integral_with_its_error() {
    let fails_at_six = |x: i128| -> Result<i128, Error> {
        if x == 6 {
            Err(Error::EquationWithMultipleResult)
        } else {
            Ok(x)
        }
    };
    assert_eq!(
        calculate_single_integral_simpson(fails_at_six, 0, 12, 2),
        Err(Error::EquationWithMultipleResult)
    );
    // The only panel is [0, 5] with its midpoint at 2: 6 is never sampled.
    assert_eq!(calculate_single_integral_simpson(fails_at_six, 0, 5, 3), Ok(8));
}

#[test]
fn first_failure_in_sampling_order_wins() {
    let fails = |x: i128| -> Result<i128, Error> {
        if x == 2 {
            Err(Error::EquationWithoutResult)
        } else if x == 4 {
            Err(Error::EquationWithMultipleResult)
        } else {
            Ok(1)
        }
    };
    assert_eq!(
        calculate_single_integral_simpson(fails, 0, 12, 2),
        Err(Error::EquationWithoutResult)
    );
    assert_eq!(
        calculate_single_integral_simpson(fails, 12, 3, 1),
        Err(Error::EquationWithMultipleResult)
    );
}

#[test]
fn value_out_of_range_is_an_overflow() {
    let huge = |_x: i128| -> Result<i128, Error> { Ok(i128::MAX / 4) };
    assert_eq!(
        calculate_single_integral_simpson(huge, 0, 12, 2),
        Err(Error::Overflow)
    );
    assert_eq!(
        calculate_single_integral_simpson(one, -i128::MAX, i128::MAX, i128::MAX),
        Err(Error::Overflow)
    );
}

#[test]
fn wide_range_in_one_panel() {
    let limit = i128::MAX / 3;
    assert_eq!(limit % 2, 0);
    assert_eq!(
        calculate_single_integral_simpson(one, 0, limit, i128::MAX),
        Ok(limit)
    );
}
