//! End-to-end tests for the kernels, driven through ordinary `f64` values
//! converted to and from the bit patterns the library works on.

use matrix_kernel::add_matrix;
use matrix_kernel::add_scalar;
use matrix_kernel::argmax;
use matrix_kernel::dot_matrix;
use matrix_kernel::dot_scalar;
use matrix_kernel::multiply;
use matrix_kernel::subtract_matrix;
use matrix_kernel::subtract_scalar;
use matrix_kernel::sum;
use matrix_kernel::transpose;

fn bits(v: &[f64]) -> Vec<u64> {
    v.iter().map(|x| x.to_bits()).collect()
}

fn floats(v: &[u64]) -> Vec<f64> {
    v.iter().map(|x| f64::from_bits(*x)).collect()
}

#[test]
fn add_matrix_elementwise() {
    let r = add_matrix(bits(&[1.5, 2.0, -3.0]), bits(&[0.5, 1.0, 4.0]));
    assert_eq!(floats(&r), vec![2.0, 3.0, 1.0]);
}

#[test]
fn subtract_matrix_elementwise() {
    let r = subtract_matrix(bits(&[5.0, 7.0]), bits(&[2.0, 3.5]));
    assert_eq!(floats(&r), vec![3.0, 3.5]);
}

#[test]
fn dot_matrix_elementwise() {
    let r = dot_matrix(bits(&[2.0, 3.0]), bits(&[4.0, 5.0]));
    assert_eq!(floats(&r), vec![8.0, 15.0]);
}

#[test]
fn matrix_ops_stop_at_shorter_operand() {
    let r = add_matrix(bits(&[1.0, 2.0, 3.0]), bits(&[10.0, 20.0]));
    assert_eq!(floats(&r), vec![11.0, 22.0]);
    let r = subtract_matrix(bits(&[10.0]), bits(&[4.0, 5.0, 6.0]));
    assert_eq!(floats(&r), vec![6.0]);
}

#[test]
fn matrix_ops_on_empty_buffers() {
    assert!(add_matrix(vec![], vec![]).is_empty());
    assert!(dot_matrix(bits(&[1.0]), vec![]).is_empty());
}

#[test]
fn subtract_then_add_restores_exactly() {
    let a = [5.0, 6.5, -1.25];
    let b = [2.0, 0.5, 3.0];
    let r = add_matrix(subtract_matrix(bits(&a), bits(&b)), bits(&b));
    assert_eq!(floats(&r), a.to_vec());
}

#[test]
fn add_scalar_shifts_every_element() {
    let r = add_scalar(bits(&[1.0, -2.0, 0.5]), 2.0f64.to_bits());
    assert_eq!(floats(&r), vec![3.0, 0.0, 2.5]);
}

#[test]
fn subtract_scalar_shifts_every_element() {
    let r = subtract_scalar(bits(&[5.0, 2.0]), 2.0f64.to_bits());
    assert_eq!(floats(&r), vec![3.0, 0.0]);
}

#[test]
fn dot_scalar_doubles() {
    let r = dot_scalar(bits(&[1.0, 2.0, 3.0]), 2.0f64.to_bits());
    assert_eq!(floats(&r), vec![2.0, 4.0, 6.0]);
}

#[test]
fn scalar_ops_on_empty_buffer() {
    assert!(add_scalar(vec![], 1.0f64.to_bits()).is_empty());
    assert!(dot_scalar(vec![], 7.0f64.to_bits()).is_empty());
}

#[test]
fn multiply_two_by_two() {
    let r = multiply(bits(&[1.0, 2.0, 3.0, 4.0]), bits(&[5.0, 6.0, 7.0, 8.0]), 2, 2, 2);
    assert_eq!(floats(&r), vec![19.0, 22.0, 43.0, 50.0]);
}

#[test]
fn multiply_by_identity_returns_original() {
    let a = [1.0, 2.0, 3.0, 4.0];
    let identity = [1.0, 0.0, 0.0, 1.0];
    let r = multiply(bits(&a), bits(&identity), 2, 2, 2);
    assert_eq!(floats(&r), a.to_vec());
    let l = multiply(bits(&identity), bits(&a), 2, 2, 2);
    assert_eq!(floats(&l), a.to_vec());
}

#[test]
fn multiply_result_has_rows_times_m_elements() {
    let a = [1.0, 2.0, 3.0, 4.0, 5.0, 6.0];
    let b = [0.0; 12];
    let r = multiply(bits(&a), bits(&b), 2, 4, 3);
    assert_eq!(r.len(), 8);
}

#[test]
fn multiply_rectangular() {
    // (1x3) times (3x1): a single inner product, accumulated left to right.
    let r = multiply(bits(&[1.0, 2.0, 3.0]), bits(&[4.0, 5.0, 6.0]), 1, 1, 3);
    assert_eq!(floats(&r), vec![32.0]);
}

#[test]
fn multiply_with_empty_shapes() {
    let r = multiply(vec![], vec![], 0, 0, 0);
    assert!(r.is_empty());
    // A 2x0 times 0x3 product is a 2x3 matrix of empty sums, all zero.
    let r = multiply(vec![], vec![], 2, 3, 0);
    assert_eq!(floats(&r), vec![0.0; 6]);
}

#[test]
fn transpose_two_by_three() {
    let r = transpose(bits(&[1.0, 2.0, 3.0, 4.0, 5.0, 6.0]), 2, 3);
    assert_eq!(floats(&r), vec![1.0, 4.0, 2.0, 5.0, 3.0, 6.0]);
}

#[test]
fn transpose_twice_restores() {
    let a = [1.0, 2.0, 3.0, 4.0, 5.0, 6.0];
    let r = transpose(transpose(bits(&a), 2, 3), 3, 2);
    assert_eq!(floats(&r), a.to_vec());
}

#[test]
fn transpose_empty() {
    assert!(transpose(vec![], 0, 5).is_empty());
}

#[test]
fn sum_of_empty_is_zero() {
    assert_eq!(f64::from_bits(sum(vec![])), 0.0);
}

#[test]
fn sum_of_small_buffer() {
    assert_eq!(f64::from_bits(sum(bits(&[1.0, 2.0, 3.0]))), 6.0);
}

#[test]
fn sum_accumulates_left_to_right() {
    // (0.1 + 0.2) + 0.3 and 0.1 + (0.2 + 0.3) differ in the last bit, so
    // this pins the accumulation order down to the rounding.
    let r = sum(bits(&[0.1, 0.2, 0.3]));
    assert_eq!(f64::from_bits(r), (0.1f64 + 0.2f64) + 0.3f64);
}

#[test]
fn sum_propagates_infinity() {
    let r = sum(bits(&[f64::INFINITY, 1.0]));
    assert_eq!(f64::from_bits(r), f64::INFINITY);
}

#[test]
fn sum_propagates_nan() {
    let r = sum(bits(&[1.0, f64::NAN]));
    assert!(f64::from_bits(r).is_nan());
}

#[test]
fn argmax_takes_first_of_equal_maxima() {
    assert_eq!(argmax(bits(&[3.0, 1.0, 3.0])), Some(0));
}

#[test]
fn argmax_of_empty_is_none() {
    assert_eq!(argmax(vec![]), None);
}

#[test]
fn argmax_plain() {
    assert_eq!(argmax(bits(&[-5.0, -2.0, -7.0])), Some(1));
    assert_eq!(argmax(bits(&[1.0, 9.0, 2.0])), Some(1));
}

#[test]
fn argmax_orders_nan_above_numbers() {
    assert_eq!(argmax(bits(&[1.0, f64::NAN, 2.0])), Some(1));
    assert_eq!(argmax(bits(&[f64::NAN, f64::INFINITY])), Some(0));
}

#[test]
fn argmax_orders_negative_zero_below_positive_zero() {
    assert_eq!(argmax(bits(&[-0.0, 0.0])), Some(1));
    assert_eq!(argmax(bits(&[0.0, -0.0])), Some(0));
}
