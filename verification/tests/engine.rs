use sequential_integration::engine::arithmetic::{
    checked_difference, checked_product, checked_quotient, checked_sum,
};
use sequential_integration::engine::helper_equation_traits::{
    EquationOfOneVariable, EquationOfThreeVariable, EquationOfTwoVariable,
};
use sequential_integration::engine::integrators::utils::{accumulate, BoundsConfigurator};
use sequential_integration::engine::integrators::{
    FirstIntegrator, SecondIntegrator, ThirdIntegrator,
};
use sequential_integration::engine::quadrature::simpson::utils::{
    checked_cube_sum, checked_line_sum, checked_plane_sum, checked_row_sum, SimpsonPoints,
};
use sequential_integration::engine::quadrature::simpson::{
    SimpsonQuadratureDoubleIntegral, SimpsonQuadratureSingleIntegral,
    SimpsonQuadratureTripleIntegral, SimpsonRangeGenerator,
};
use sequential_integration::engine::quadrature::{
    FinalizeCalculation, GetQuadratureRange, GetStepSizeDoubleIntegral,
    GetStepSizeSingleIntegral, GetStepSizeTripleIntegral,
};
use sequential_integration::engine::range_generator::RangeGenerator;
use sequential_integration::engine::{
    calculate_double_integral, calculate_single_integral, calculate_triple_integral, Bounds,
    CalculationResult, CalculationStep,
};
use sequential_integration::errors::Error;

type One = fn(i128) -> Result<i128, Error>;
type Two = fn(i128, i128) -> Result<i128, Error>;
type Three = fn(i128, i128, i128) -> Result<i128, Error>;

fn identity(x: i128) -> Result<i128, Error> {
    Ok(x)
}

fn sum_of_two(x: i128, y: i128) -> Result<i128, Error> {
    Ok(10 * x + y)
}

fn sum_of_three(x: i128, y: i128, z: i128) -> Result<i128, Error> {
    Ok(100 * x + 10 * y + z)
}

fn zero(_x: i128) -> Result<i128, Error> {
    Ok(0)
}

fn six(_x: i128) -> Result<i128, Error> {
    Ok(6)
}

fn zero_of_two(_x: i128, _y: i128) -> Result<i128, Error> {
    Ok(0)
}

fn four_of_two(_x: i128, _y: i128) -> Result<i128, Error> {
    Ok(4)
}

fn all_steps(bounds: Bounds, h: i128) -> Vec<CalculationStep> {
    let mut steps = Vec::new();
    if let Some(mut range) = SimpsonRangeGenerator::new(bounds, h).unwrap() {
        loop {
            let step = range.next().unwrap();
            steps.push(step);
            if step.is_last() {
                break;
            }
        }
        assert!(matches!(
            range.next(),
            Err(Error::RangeGeneratorOutOfBounds { .. })
        ));
    }
    steps
}

#[test]
fn checked_arithmetic_keeps_the_symmetric_range() {
    assert_eq!(checked_sum(2, -5), Ok(-3));
    assert_eq!(checked_sum(i128::MAX, 1), Err(Error::Overflow));
    assert_eq!(checked_sum(-i128::MAX, -1), Err(Error::Overflow));
    assert_eq!(checked_sum(i128::MIN, 0), Err(Error::Overflow));
    assert_eq!(checked_sum(i128::MIN, 1), Ok(-i128::MAX));
    assert_eq!(checked_difference(2, 5), Ok(-3));
    assert_eq!(checked_difference(-i128::MAX, 1), Err(Error::Overflow));
    assert_eq!(checked_difference(0, i128::MIN), Err(Error::Overflow));
    assert_eq!(checked_product(-7, 6), Ok(-42));
    assert_eq!(checked_product(i128::MAX, 2), Err(Error::Overflow));
    assert_eq!(checked_product(i128::MIN, 1), Err(Error::Overflow));
    assert_eq!(checked_product(i128::MAX, -1), Ok(-i128::MAX));
}

#[test]
fn quotient_rounds_toward_zero() {
    assert_eq!(checked_quotient(7, 2), Ok(3));
    assert_eq!(checked_quotient(-7, 2), Ok(-3));
    assert_eq!(checked_quotient(-1, 3), Ok(0));
    assert_eq!(checked_quotient(26, 27), Ok(0));
    assert_eq!(checked_quotient(-54, 27), Ok(-2));
    assert_eq!(checked_quotient(i128::MIN, 1), Err(Error::Overflow));
    assert_eq!(checked_quotient(i128::MIN, 2), Ok(i128::MIN / 2));
}

#[test]
fn bounds_in_order_are_accepted() {
    let bounds = Bounds::new(-2, 5).unwrap();
    assert_eq!((bounds.begin, bounds.end), (-2, 5));
    let point = Bounds::new(4, 4).unwrap();
    assert_eq!((point.begin, point.end), (4, 4));
}

#[test]
fn bounds_out_of_order_are_refused() {
    assert!(matches!(
        Bounds::new(5, -2),
        Err(Error::BeginBoundGreaterThanEndBound { begin: 5, end: -2 })
    ));
}

#[test]
fn configurator_orders_limits_and_keeps_the_direction() {
    let forward = BoundsConfigurator::configurate(-2, 5).unwrap();
    assert_eq!((forward.bounds.begin, forward.bounds.end), (-2, 5));
    assert_eq!(forward.direction_coeff, 1);

    let backward = BoundsConfigurator::configurate(5, -2).unwrap();
    assert_eq!((backward.bounds.begin, backward.bounds.end), (-2, 5));
    assert_eq!(backward.direction_coeff, -1);

    let point = BoundsConfigurator::configurate(3, 3).unwrap();
    assert_eq!((point.bounds.begin, point.bounds.end), (3, 3));
    assert_eq!(point.direction_coeff, 1);
}

#[test]
fn step_knows_its_kind_and_coordinate() {
    assert!(CalculationStep::Last(7).is_last());
    assert!(!CalculationStep::Common(7).is_last());
    assert_eq!(*CalculationStep::Last(-7).deref(), -7);
    assert_eq!(*CalculationStep::Common(9).deref(), 9);
}

#[test]
fn accumulator_starts_empty_and_adds_by_channel() {
    let mut result = CalculationResult::new();
    assert_eq!(result, CalculationResult { common: 0, last: 0 });
    assert_eq!(result.add_common(5), Ok(()));
    assert_eq!(result.add_last(-3), Ok(()));
    assert_eq!(result, CalculationResult { common: 5, last: -3 });
    assert_eq!(
        result.add_assign(CalculationResult { common: 10, last: 20 }),
        Ok(())
    );
    assert_eq!(result, CalculationResult { common: 15, last: 17 });
    assert_eq!(
        result.mul(-1),
        Ok(CalculationResult { common: -15, last: -17 })
    );
    assert_eq!(result.mul(3), Ok(CalculationResult { common: 45, last: 51 }));
}

#[test]
fn accumulator_is_unchanged_by_a_failed_addition() {
    let mut result = CalculationResult { common: i128::MAX, last: 4 };
    assert_eq!(result.add_common(1), Err(Error::Overflow));
    assert_eq!(result, CalculationResult { common: i128::MAX, last: 4 });
    assert_eq!(
        result.add_assign(CalculationResult { common: 0, last: i128::MAX }),
        Err(Error::Overflow)
    );
    assert_eq!(result, CalculationResult { common: i128::MAX, last: 4 });
    let mut other = CalculationResult { common: 1, last: -i128::MAX };
    assert_eq!(other.add_last(-1), Err(Error::Overflow));
    assert_eq!(other, CalculationResult { common: 1, last: -i128::MAX });
    assert_eq!(other.mul(2), Err(Error::Overflow));
}

#[test]
fn range_over_nothing_has_no_generator() {
    assert!(SimpsonRangeGenerator::new(Bounds { begin: 3, end: 3 }, 1)
        .unwrap()
        .is_none());
    assert!(all_steps(Bounds { begin: 3, end: 3 }, 1).is_empty());
}

#[test]
fn range_steps_by_two_half_steps_and_ends_in_one_last() {
    assert_eq!(
        all_steps(Bounds { begin: 0, end: 10 }, 2),
        vec![
            CalculationStep::Common(0),
            CalculationStep::Common(4),
            CalculationStep::Last(8)
        ]
    );
    // Exactly two half-steps remain from 8: that panel is the last.
    assert_eq!(
        all_steps(Bounds { begin: 0, end: 12 }, 2),
        vec![
            CalculationStep::Common(0),
            CalculationStep::Common(4),
            CalculationStep::Last(8)
        ]
    );
    assert_eq!(
        all_steps(Bounds { begin: -3, end: 4 }, 1),
        vec![
            CalculationStep::Common(-3),
            CalculationStep::Common(-1),
            CalculationStep::Common(1),
            CalculationStep::Last(3)
        ]
    );
    assert_eq!(
        all_steps(Bounds { begin: 0, end: 1 }, 50),
        vec![CalculationStep::Last(0)]
    );
}

#[test]
fn every_range_has_exactly_one_last_step_at_its_end() {
    for begin in -7..8 {
        for end in (begin + 1)..12 {
            for h in 1..6 {
                let steps = all_steps(Bounds { begin, end }, h);
                let lasts = steps.iter().filter(|step| step.is_last()).count();
                assert_eq!(lasts, 1);
                assert!(steps[steps.len() - 1].is_last());
                for (i, step) in steps.iter().enumerate() {
                    assert_eq!(*step.deref(), begin + 2 * h * i as i128);
                    assert!(*step.deref() < end);
                }
                assert!(*steps[steps.len() - 1].deref() + 2 * h >= end);
            }
        }
    }
}

#[test]
fn exhausted_range_reports_where_it_stands() {
    let mut range = SimpsonRangeGenerator::new(Bounds { begin: 0, end: 10 }, 2)
        .unwrap()
        .unwrap();
    assert_eq!(range.next(), Ok(CalculationStep::Common(0)));
    assert_eq!(range.next(), Ok(CalculationStep::Common(4)));
    assert_eq!(range.next(), Ok(CalculationStep::Last(8)));
    assert_eq!(
        range.next(),
        Err(Error::RangeGeneratorOutOfBounds { step: 12, end: 10 })
    );
    assert_eq!(
        range.next(),
        Err(Error::RangeGeneratorOutOfBounds { step: 12, end: 10 })
    );
}

#[test]
fn range_near_the_largest_number_still_ends() {
    let bounds = Bounds { begin: i128::MAX - 5, end: i128::MAX };
    assert_eq!(
        all_steps(bounds, 2),
        vec![
            CalculationStep::Common(i128::MAX - 5),
            CalculationStep::Last(i128::MAX - 1)
        ]
    );
    let mut range = SimpsonRangeGenerator::new(bounds, i128::MAX).unwrap().unwrap();
    assert_eq!(range.next(), Ok(CalculationStep::Last(i128::MAX - 5)));
    assert_eq!(
        range.next(),
        Err(Error::RangeGeneratorOutOfBounds { step: i128::MAX, end: i128::MAX })
    );
}

#[test]
fn range_over_reversed_bounds_is_exhausted_at_once() {
    let mut range = SimpsonRangeGenerator::new(Bounds { begin: 5, end: 2 }, 1)
        .unwrap()
        .unwrap();
    assert_eq!(
        range.next(),
        Err(Error::RangeGeneratorOutOfBounds { step: 5, end: 2 })
    );
}

#[test]
fn points_of_an_ordinary_panel() {
    let mut is_last = false;
    let points =
        SimpsonPoints::generate(CalculationStep::Common(-7), Bounds { begin: -10, end: 10 }, 2, &mut is_last);
    assert_eq!(points, Ok(SimpsonPoints { v0: -7, v1: -5, v2: -3, h: 2 }));
    assert!(!is_last);
}

#[test]
fn points_of_a_last_panel_reach_the_end() {
    let mut is_last = false;
    let points =
        SimpsonPoints::generate(CalculationStep::Last(7), Bounds { begin: 0, end: 10 }, 2, &mut is_last);
    // The midpoint is the start plus half of what remains, not half the sum.
    assert_eq!(points, Ok(SimpsonPoints { v0: 7, v1: 8, v2: 10, h: 1 }));
    assert!(is_last);

    let even = SimpsonPoints::generate(CalculationStep::Last(100), Bounds { begin: 0, end: 106 }, 50, &mut is_last);
    assert_eq!(even, Ok(SimpsonPoints { v0: 100, v1: 103, v2: 106, h: 3 }));
}

#[test]
fn last_flag_once_raised_stays_raised() {
    let mut is_last = false;
    let bounds = Bounds { begin: 0, end: 10 };
    SimpsonPoints::generate(CalculationStep::Last(8), bounds, 2, &mut is_last).unwrap();
    SimpsonPoints::generate(CalculationStep::Common(0), bounds, 2, &mut is_last).unwrap();
    assert!(is_last);
}

#[test]
fn points_out_of_range_are_an_overflow() {
    let mut is_last = false;
    assert_eq!(
        SimpsonPoints::generate(
            CalculationStep::Common(i128::MAX - 3),
            Bounds { begin: 0, end: i128::MAX },
            2,
            &mut is_last
        ),
        Err(Error::Overflow)
    );
    assert_eq!(
        SimpsonPoints::generate(
            CalculationStep::Last(-i128::MAX),
            Bounds { begin: -i128::MAX, end: i128::MAX },
            2,
            &mut is_last
        ),
        Err(Error::Overflow)
    );
}

#[test]
fn stencil_of_one_variable_weighs_one_four_one() {
    assert_eq!(checked_line_sum(1, 10, 100), Ok(141));
    assert_eq!(checked_row_sum(&vec![0, 1, 10, 100, 0], 1), Ok(141));
    let quadrature = SimpsonQuadratureSingleIntegral::new(identity as One, 2).unwrap();
    assert_eq!(quadrature.calculate_simpson([1, 10, 100]), Ok(141));
}

#[test]
fn stencil_of_two_variables_weighs_the_product() {
    // Corners 1, edge midpoints 4, the centre 16.
    let mut values = vec![0; 9];
    values[4] = 1;
    assert_eq!(checked_plane_sum(&values, 0), Ok(16));
    assert_eq!(
        checked_plane_sum(&vec![1, 10, 100, 2, 20, 200, 3, 30, 300], 0),
        Ok(141 + 4 * 282 + 423)
    );
    let quadrature = SimpsonQuadratureDoubleIntegral::new(sum_of_two as Two, 2, 3).unwrap();
    // f(x, y) = 10 x + y on x in {1, 2, 3}, y in {4, 5, 6}: the weights sum to 36.
    assert_eq!(
        quadrature.calculate_simpson([1, 2, 3], [4, 5, 6]),
        Ok(36 * 25)
    );
}

#[test]
fn stencil_of_three_variables_weighs_the_product() {
    // Corners 1, edge midpoints 4, face centres 16, the centre 64.
    for (place, weight) in [(0, 1), (1, 4), (4, 16), (13, 64), (26, 1), (22, 16), (25, 4)] {
        let mut values = vec![0; 27];
        values[place] = 1;
        assert_eq!(checked_cube_sum(&values), Ok(weight));
    }
    let quadrature = SimpsonQuadratureTripleIntegral::new(sum_of_three as Three, 1, 1, 1).unwrap();
    // f is linear, the weights sum to 216, the centre is (2, 5, 8).
    assert_eq!(
        quadrature.calculate_simpson([1, 2, 3], [4, 5, 6], [7, 8, 9]),
        Ok(216 * 258)
    );
}

#[test]
fn simpson_constants() {
    assert_eq!(
        SimpsonQuadratureSingleIntegral::<One>::multiple_with_simpson_constant(7, 2),
        Ok(4)
    );
    assert_eq!(
        SimpsonQuadratureSingleIntegral::<One>::multiple_with_simpson_constant(-7, 2),
        Ok(-4)
    );
    assert_eq!(
        SimpsonQuadratureDoubleIntegral::<Two>::multiple_with_simpson_constant(10, 2, 3),
        Ok(6)
    );
    assert_eq!(
        SimpsonQuadratureTripleIntegral::<Three>::multiple_with_simpson_constant(-10, 2, 3, 5),
        Ok(-11)
    );
    assert_eq!(
        SimpsonQuadratureTripleIntegral::<Three>::multiple_with_simpson_constant(1, i128::MAX, 2, 1),
        Err(Error::Overflow)
    );
}

#[test]
fn contribution_of_an_ordinary_panel_goes_to_the_common_channel() {
    let quadrature = SimpsonQuadratureSingleIntegral::new(identity as One, 2).unwrap();
    let bounds = Bounds { begin: 0, end: 10 };
    assert_eq!(
        quadrature.calculate(CalculationStep::Common(4), bounds),
        Ok(CalculationResult { common: 4 + 4 * 6 + 8, last: 0 })
    );
}

#[test]
fn contribution_of_a_last_panel_goes_to_the_last_channel() {
    let quadrature = SimpsonQuadratureSingleIntegral::new(identity as One, 2).unwrap();
    let bounds = Bounds { begin: 0, end: 11 };
    // Points 8, 9, 11 with half-step 1: (8 + 36 + 11) * 1 / 3.
    assert_eq!(
        quadrature.calculate(CalculationStep::Last(8), bounds),
        Ok(CalculationResult { common: 0, last: 18 })
    );
}

#[test]
fn cell_with_a_last_panel_on_either_axis_goes_to_the_last_channel() {
    let quadrature = SimpsonQuadratureDoubleIntegral::new(sum_of_two as Two, 1, 1).unwrap();
    let bounds = Bounds { begin: 0, end: 10 };
    let common = quadrature
        .calculate(CalculationStep::Common(0), bounds, CalculationStep::Common(0), bounds)
        .unwrap();
    assert_eq!(common, CalculationResult { common: 36 * 11, last: 0 });
    let x_last = quadrature
        .calculate(CalculationStep::Last(8), bounds, CalculationStep::Common(0), bounds)
        .unwrap();
    assert_eq!(x_last, CalculationResult { common: 0, last: 36 * 91 / 9 });
    let y_last = quadrature
        .calculate(CalculationStep::Common(0), bounds, CalculationStep::Last(8), bounds)
        .unwrap();
    assert_eq!(y_last, CalculationResult { common: 0, last: 36 * 19 / 9 });
}

#[test]
fn cell_of_three_variables() {
    let quadrature = SimpsonQuadratureTripleIntegral::new(sum_of_three as Three, 1, 2, 3).unwrap();
    let bounds = Bounds { begin: 0, end: 20 };
    let common = quadrature
        .calculate(
            CalculationStep::Common(0),
            bounds,
            CalculationStep::Common(0),
            bounds,
            CalculationStep::Common(0),
            bounds,
        )
        .unwrap();
    assert_eq!(common, CalculationResult { common: 216 * 123, last: 0 });
    let last = quadrature
        .calculate(
            CalculationStep::Common(0),
            bounds,
            CalculationStep::Common(0),
            bounds,
            CalculationStep::Last(18),
            bounds,
        )
        .unwrap();
    // Half-steps 1, 2 and (20 - 18) / 2 = 1, centre (1, 2, 19).
    assert_eq!(last, CalculationResult { common: 0, last: 2 * 216 * 139 / 27 });
}

#[test]
fn finalize_applies_the_constant_to_the_common_channel_only() {
    let single = SimpsonQuadratureSingleIntegral::new(identity as One, 2).unwrap();
    assert_eq!(single.finalize(CalculationResult { common: 256, last: 405 }), Ok(575));
    let double = SimpsonQuadratureDoubleIntegral::new(sum_of_two as Two, 2, 3).unwrap();
    assert_eq!(double.finalize(CalculationResult { common: 90, last: 7 }), Ok(67));
    let triple = SimpsonQuadratureTripleIntegral::new(sum_of_three as Three, 2, 3, 5).unwrap();
    assert_eq!(triple.finalize(CalculationResult { common: -90, last: 7 }), Ok(-93));
}

#[test]
fn step_sizes_are_handed_back() {
    assert_eq!(
        SimpsonQuadratureSingleIntegral::new(identity as One, 2).unwrap().get_step_size(),
        2
    );
    assert_eq!(
        SimpsonQuadratureDoubleIntegral::new(sum_of_two as Two, 2, 3).unwrap().get_step_size(),
        (2, 3)
    );
    assert_eq!(
        SimpsonQuadratureTripleIntegral::new(sum_of_three as Three, 2, 3, 5)
            .unwrap()
            .get_step_size(),
        (2, 3, 5)
    );
}

#[test]
fn quadrature_hands_out_the_simpson_range() {
    let mut range =
        <SimpsonQuadratureSingleIntegral<One> as GetQuadratureRange>::get_range_generator(
            Bounds { begin: 0, end: 5 },
            1,
        )
        .unwrap()
        .unwrap();
    assert_eq!(range.next(), Ok(CalculationStep::Common(0)));
    assert_eq!(range.next(), Ok(CalculationStep::Common(2)));
    assert_eq!(range.next(), Ok(CalculationStep::Last(4)));
    assert!(
        <SimpsonQuadratureDoubleIntegral<Two> as GetQuadratureRange>::get_range_generator(
            Bounds { begin: 5, end: 5 },
            1,
        )
        .unwrap()
        .is_none()
    );
}

#[test]
fn accumulate_sums_directed_contributions() {
    let quadrature = SimpsonQuadratureSingleIntegral::new(identity as One, 2).unwrap();
    let bounds = Bounds { begin: 0, end: 12 };
    let range = SimpsonRangeGenerator::new(bounds, 2).unwrap().unwrap();
    // Panels [0, 4] and [4, 8]: 12 + 36; last panel [8, 12]: 60 * 2 / 3.
    assert_eq!(
        accumulate(&quadrature, range, bounds, 1),
        Ok(CalculationResult { common: 48, last: 40 })
    );
    let range = SimpsonRangeGenerator::new(bounds, 2).unwrap().unwrap();
    assert_eq!(
        accumulate(&quadrature, range, bounds, -1),
        Ok(CalculationResult { common: -48, last: -40 })
    );
}

#[test]
fn first_integrator_finalizes_once() {
    let quadrature = SimpsonQuadratureSingleIntegral::new(identity as One, 2).unwrap();
    assert_eq!(
        FirstIntegrator::integrate(0, 12, 2, &quadrature, &quadrature),
        Ok(72)
    );
    assert_eq!(
        FirstIntegrator::integrate(12, 0, 2, &quadrature, &quadrature),
        Ok(-72)
    );
    assert_eq!(
        FirstIntegrator::integrate(5, 5, 2, &quadrature, &quadrature),
        Ok(0)
    );
}

#[test]
fn second_integrator_does_not_finalize() {
    let quadrature = SimpsonQuadratureDoubleIntegral::new(four_of_two as Two, 1, 1).unwrap();
    let integrator = SecondIntegrator::<SimpsonQuadratureDoubleIntegral<Two>, _, _, _>::new(
        zero as One,
        six as One,
        1,
        &quadrature,
    )
    .unwrap();
    let bounds = Bounds { begin: 0, end: 10 };
    // Two ordinary cells of 36 * 4 and one last cell of 36 * 4 / 9.
    assert_eq!(
        integrator.calculate(CalculationStep::Common(0), bounds),
        Ok(CalculationResult { common: 288, last: 16 })
    );
    // On a last outer panel every cell goes to the last channel.
    assert_eq!(
        integrator.calculate(CalculationStep::Last(8), bounds),
        Ok(CalculationResult { common: 0, last: 48 })
    );
    let reversed = SecondIntegrator::<SimpsonQuadratureDoubleIntegral<Two>, _, _, _>::new(
        six as One,
        zero as One,
        1,
        &quadrature,
    )
    .unwrap();
    assert_eq!(
        reversed.calculate(CalculationStep::Common(0), bounds),
        Ok(CalculationResult { common: -288, last: -16 })
    );
    let empty = SecondIntegrator::<SimpsonQuadratureDoubleIntegral<Two>, _, _, _>::new(
        six as One,
        six as One,
        1,
        &quadrature,
    )
    .unwrap();
    assert_eq!(
        empty.calculate(CalculationStep::Common(0), bounds),
        Ok(CalculationResult { common: 0, last: 0 })
    );
}

#[test]
fn third_integrator_does_not_finalize() {
    fn one(_x: i128, _y: i128, _z: i128) -> Result<i128, Error> {
        Ok(1)
    }
    let quadrature = SimpsonQuadratureTripleIntegral::new(one as Three, 1, 1, 1).unwrap();
    let integrator = ThirdIntegrator::<SimpsonQuadratureTripleIntegral<Three>, _, _, _>::new(
        zero_of_two as Two,
        four_of_two as Two,
        1,
        &quadrature,
    )
    .unwrap();
    let bounds = Bounds { begin: 0, end: 10 };
    // One ordinary cell of 216 and one last cell of 216 / 27.
    assert_eq!(
        integrator.calculate(
            CalculationStep::Common(0),
            bounds,
            CalculationStep::Common(0),
            bounds
        ),
        Ok(CalculationResult { common: 216, last: 8 })
    );
}

#[test]
fn engine_compositions_agree_with_the_entry_points() {
    let single = SimpsonQuadratureSingleIntegral::new(identity as One, 2).unwrap();
    assert_eq!(calculate_single_integral(single, 0, 12), Ok(72));

    let double = SimpsonQuadratureDoubleIntegral::new(four_of_two as Two, 1, 1).unwrap();
    assert_eq!(
        calculate_double_integral(double, 0, 4, zero as One, six as One),
        Ok(96)
    );

    fn one(_x: i128, _y: i128, _z: i128) -> Result<i128, Error> {
        Ok(1)
    }
    let triple = SimpsonQuadratureTripleIntegral::new(one as Three, 1, 1, 1).unwrap();
    assert_eq!(
        calculate_triple_integral(
            triple,
            0,
            4,
            zero as One,
            six as One,
            zero_of_two as Two,
            four_of_two as Two
        ),
        Ok(96)
    );
}
