use gcf_calc::{calculate_gcf, GcfError};

#[test]
fn common_factor_of_twelve_and_eighteen() {
    assert_eq!(calculate_gcf(12, 18), Ok(6));
}

#[test]
fn coprime_pair_has_factor_one() {
    assert_eq!(calculate_gcf(17, 5), Ok(1));
}

#[test]
fn zero_first_operand_gives_second() {
    assert_eq!(calculate_gcf(0, 7), Ok(7));
}

#[test]
fn hundred_and_seventy_five() {
    assert_eq!(calculate_gcf(100, 75), Ok(25));
}

#[test]
fn both_zero_gives_zero() {
    assert_eq!(calculate_gcf(0, 0), Ok(0));
}

#[test]
fn operand_order_does_not_matter() {
    let pairs: [(isize, isize); 6] = [(12, 18), (17, 5), (0, 7), (100, 75), (270, 192), (1, 0)];
    for (a, b) in pairs {
        assert_eq!(calculate_gcf(a, b), calculate_gcf(b, a));
    }
}

#[test]
fn result_divides_both_operands() {
    let pairs: [(isize, isize); 5] = [(12, 18), (17, 5), (0, 7), (100, 75), (270, 192)];
    for (a, b) in pairs {
        let g = calculate_gcf(a, b).unwrap();
        assert!(g > 0);
        assert_eq!(a % g, 0);
        assert_eq!(b % g, 0);
    }
}

#[test]
fn zero_is_neutral_on_either_side() {
    for a in [0isize, 1, 9, 1024, isize::MAX] {
        assert_eq!(calculate_gcf(a, 0), Ok(a));
        assert_eq!(calculate_gcf(0, a), Ok(a));
    }
}

#[test]
fn equal_operands_give_the_operand() {
    for a in [1isize, 6, 97, isize::MAX] {
        assert_eq!(calculate_gcf(a, a), Ok(a));
    }
}

#[test]
fn largest_operands() {
    assert_eq!(calculate_gcf(isize::MAX, isize::MAX - 1), Ok(1));
    assert_eq!(calculate_gcf(isize::MAX, 7), Ok(7));
}

#[test]
fn consecutive_fibonacci_numbers_are_coprime() {
    assert_eq!(calculate_gcf(832040, 514229), Ok(1));
}

#[test]
fn negative_first_operand_is_refused() {
    assert_eq!(calculate_gcf(-4, 6), Err(GcfError::NegativeOperand));
}

#[test]
fn negative_second_operand_is_refused() {
    assert_eq!(calculate_gcf(4, -6), Err(GcfError::NegativeOperand));
    assert_eq!(calculate_gcf(0, isize::MIN), Err(GcfError::NegativeOperand));
}
