use lunar_lander_rl::debug::{DebugArray, NdDebug};

#[test]
fn dbg_vec_lists_the_elements_in_order() {
    let a = DebugArray { inner: ndarray::Array1::from_vec(vec![3i32, 1, 2]) };
    assert_eq!(a.dbg_vec(), vec![3i32, 1, 2]);
}

#[test]
fn dbg_vec_of_an_empty_array_is_empty() {
    let a = DebugArray { inner: ndarray::Array1::from_vec(Vec::<i32>::new()) };
    assert_eq!(a.dbg_vec(), Vec::<i32>::new());
}

#[test]
fn dbg_vec_goes_by_the_indices_and_not_by_the_memory() {
    let mut inner = ndarray::Array1::from_vec(vec![3i32, 1, 2, i32::MIN, i32::MAX]);
    inner.invert_axis(ndarray::Axis(0));
    assert_eq!(inner[0], i32::MAX);
    let a = DebugArray { inner };
    assert_eq!(a.dbg_vec(), vec![i32::MAX, i32::MIN, 2, 1, 3]);
}

#[test]
fn dbg_vec_leaves_the_array_as_it_is() {
    let a = DebugArray { inner: ndarray::Array1::from_vec(vec![7i32, -7]) };
    let first = a.dbg_vec();
    let second = a.dbg_vec();
    assert_eq!(first, second);
    assert_eq!(a.inner.len(), 2);
    assert_eq!(a.inner[1], -7);
}
