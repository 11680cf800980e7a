use pessimal_core::{
    default_strides, element_count, shape_fits, BoxStorage, Storage, Tensor,
};

#[test]
fn zeros_two_by_three_has_six_zero_elements() {
    let tensor: Tensor<i32, 2, BoxStorage<i32>> = Tensor::zeros([2, 3]);
    assert_eq!(tensor.storage().len(), 6);
    assert_eq!(tensor.storage().as_slice(), &[0, 0, 0, 0, 0, 0]);
    assert_eq!(tensor.shape(), &[2, 3]);
    assert_eq!(tensor.strides(), &[1, 2]);
}

#[test]
fn zeros_two_by_three_reads_back_what_was_written() {
    let mut tensor: Tensor<i32, 2, BoxStorage<i32>> = Tensor::zeros([2, 3]);
    assert_eq!(tensor.storage().len(), 6);
    assert_eq!(tensor.strides(), &[1, 2]);
    tensor.storage_mut().as_mut_slice()[0] = 7;
    tensor.storage_mut().as_mut_slice()[5] = 42;
    assert_eq!(tensor.storage().as_slice(), &[7, 0, 0, 0, 0, 42]);
    assert_eq!(tensor.shape(), &[2, 3]);
    assert_eq!(tensor.strides(), &[1, 2]);
}

#[test]
fn zeros_for_other_scalars() {
    let bytes: Tensor<u8, 1, BoxStorage<u8>> = Tensor::zeros([3]);
    assert_eq!(bytes.storage().as_slice(), &[0u8, 0, 0]);
    let wide: Tensor<i128, 2, BoxStorage<i128>> = Tensor::zeros([2, 2]);
    assert_eq!(wide.storage().as_slice(), &[0i128, 0, 0, 0]);
    let sizes: Tensor<usize, 3, BoxStorage<usize>> = Tensor::zeros([1, 2, 1]);
    assert_eq!(sizes.storage().as_slice(), &[0usize, 0]);
    assert_eq!(sizes.strides(), &[1, 1, 2]);
}

#[test]
fn zeros_of_rank_zero_has_one_element() {
    let tensor: Tensor<i32, 0, BoxStorage<i32>> = Tensor::zeros([]);
    assert_eq!(tensor.storage().len(), 1);
    assert_eq!(tensor.storage().as_slice(), &[0]);
    assert_eq!(tensor.shape().len(), 0);
    assert_eq!(tensor.strides().len(), 0);
}

#[test]
fn zeros_with_a_zero_axis_has_no_element() {
    let tensor: Tensor<i32, 2, BoxStorage<i32>> = Tensor::zeros([0, 5]);
    assert_eq!(tensor.storage().len(), 0);
    assert_eq!(tensor.shape(), &[0, 5]);
    assert_eq!(tensor.strides(), &[1, 0]);
}

#[test]
fn zeros_with_a_zero_axis_in_the_middle() {
    let tensor: Tensor<u32, 4, BoxStorage<u32>> = Tensor::zeros([3, 4, 0, 7]);
    assert_eq!(tensor.storage().len(), 0);
    assert_eq!(tensor.strides(), &[1, 3, 12, 0]);
    let last: Tensor<u32, 2, BoxStorage<u32>> = Tensor::zeros([5, 0]);
    assert_eq!(last.storage().len(), 0);
    assert_eq!(last.strides(), &[1, 5]);
}

#[test]
fn uninitialized_reports_the_length_of_its_shape() {
    let tensor: Tensor<i32, 1, BoxStorage<i32>> = Tensor::uninitialized([4]);
    assert_eq!(tensor.storage().len(), 4);
    assert_eq!(tensor.shape(), &[4]);
    assert_eq!(tensor.strides(), &[1]);
}

#[test]
fn uninitialized_over_box_storage_is_zero_filled() {
    let tensor: Tensor<i32, 1, BoxStorage<i32>> = Tensor::uninitialized([4]);
    assert_eq!(tensor.storage().as_slice(), &[0, 0, 0, 0]);
    let plane: Tensor<u64, 2, BoxStorage<u64>> = Tensor::uninitialized([3, 2]);
    assert_eq!(plane.storage().len(), 6);
    assert_eq!(plane.strides(), &[1, 3]);
    let scalar: Tensor<u64, 0, BoxStorage<u64>> = Tensor::uninitialized([]);
    assert_eq!(scalar.storage().len(), 1);
}

#[test]
fn new_keeps_storage_shape_and_strides() {
    let mut storage: BoxStorage<i32> = BoxStorage::zeros(6);
    storage.as_mut_slice()[4] = 99;
    let tensor: Tensor<i32, 2, BoxStorage<i32>> = Tensor::new(storage, [3, 2], [2, 1]);
    assert_eq!(tensor.shape(), &[3, 2]);
    assert_eq!(tensor.strides(), &[2, 1]);
    assert_eq!(tensor.storage().len(), 6);
    assert_eq!(tensor.storage().as_slice(), &[0, 0, 0, 0, 99, 0]);
}

#[test]
fn new_with_the_default_strides_equals_zeros() {
    let shape = [2usize, 3, 4];
    let count = element_count(&shape);
    let built: Tensor<i64, 3, BoxStorage<i64>> =
        Tensor::new(BoxStorage::zeros(count), shape, default_strides(shape));
    let zeros: Tensor<i64, 3, BoxStorage<i64>> = Tensor::zeros(shape);
    assert_eq!(built.shape(), zeros.shape());
    assert_eq!(built.strides(), zeros.strides());
    assert_eq!(built.storage().as_slice(), zeros.storage().as_slice());
    assert_eq!(built.storage().len(), 24);
}

#[test]
fn storage_mut_write_is_seen_by_storage() {
    let mut tensor: Tensor<u8, 1, BoxStorage<u8>> = Tensor::zeros([3]);
    tensor.storage_mut().as_mut_slice()[2] = 255;
    assert_eq!(tensor.storage().as_slice(), &[0, 0, 255]);
    tensor.storage_mut().as_mut_slice()[2] = 1;
    tensor.storage_mut().as_mut_slice()[0] = 2;
    assert_eq!(tensor.storage().as_slice(), &[2, 0, 1]);
}

#[test]
fn storage_mut_can_replace_the_storage() {
    let mut tensor: Tensor<u8, 1, BoxStorage<u8>> = Tensor::zeros([2]);
    let mut other: BoxStorage<u8> = BoxStorage::zeros(2);
    other.as_mut_slice()[1] = 6;
    *tensor.storage_mut() = other;
    assert_eq!(tensor.storage().as_slice(), &[0, 6]);
    assert_eq!(tensor.shape(), &[2]);
    assert_eq!(tensor.strides(), &[1]);
}

#[test]
fn clone_has_equal_contents_shape_and_strides() {
    let mut tensor: Tensor<i32, 2, BoxStorage<i32>> = Tensor::zeros([2, 2]);
    tensor.storage_mut().as_mut_slice()[3] = 5;
    let copy = tensor.clone();
    assert_eq!(copy.shape(), &[2, 2]);
    assert_eq!(copy.strides(), &[1, 2]);
    assert_eq!(copy.storage().as_slice(), &[0, 0, 0, 5]);
    assert_eq!(copy.storage().as_slice(), tensor.storage().as_slice());
}

#[test]
fn clone_keeps_strides_given_by_hand() {
    let tensor: Tensor<i32, 2, BoxStorage<i32>> =
        Tensor::new(BoxStorage::zeros(6), [2, 3], [3, 1]);
    let copy = tensor.clone();
    assert_eq!(copy.shape(), &[2, 3]);
    assert_eq!(copy.strides(), &[3, 1]);
    assert_eq!(copy.storage().len(), 6);
}

#[test]
fn writing_to_a_clone_leaves_the_source() {
    let mut source: Tensor<i32, 1, BoxStorage<i32>> = Tensor::zeros([3]);
    source.storage_mut().as_mut_slice()[0] = 1;
    let mut copy = source.clone();
    copy.storage_mut().as_mut_slice()[1] = 2;
    assert_eq!(source.storage().as_slice(), &[1, 0, 0]);
    assert_eq!(copy.storage().as_slice(), &[1, 2, 0]);
    source.storage_mut().as_mut_slice()[2] = 3;
    assert_eq!(source.storage().as_slice(), &[1, 0, 3]);
    assert_eq!(copy.storage().as_slice(), &[1, 2, 0]);
    assert_ne!(
        source.storage().as_slice().as_ptr(),
        copy.storage().as_slice().as_ptr()
    );
}

#[test]
fn debug_shows_the_fields() {
    let tensor: Tensor<u8, 1, BoxStorage<u8>> = Tensor::zeros([2]);
    let text = format!("{:?}", tensor);
    assert!(text.contains("Tensor"));
    assert!(text.contains("shape: [2]"));
    assert!(text.contains("strides: [1]"));
}

#[test]
fn default_strides_are_the_products_of_the_axes_before() {
    assert_eq!(default_strides([2, 3]), [1, 2]);
    assert_eq!(default_strides([2, 3, 4]), [1, 2, 6]);
    assert_eq!(default_strides([4, 1, 5, 2]), [1, 4, 4, 20]);
    assert_eq!(default_strides([7]), [1]);
}

#[test]
fn default_strides_follow_the_recurrence() {
    let shape = [3usize, 5, 2, 7, 1];
    let strides = default_strides(shape);
    assert_eq!(strides[0], 1);
    for axis in 1..shape.len() {
        assert_eq!(strides[axis], strides[axis - 1] * shape[axis - 1]);
    }
    assert_eq!(strides, [1, 3, 15, 30, 210]);
}

#[test]
fn default_strides_of_rank_zero_are_empty() {
    let strides: [usize; 0] = default_strides([]);
    assert_eq!(strides.len(), 0);
}

#[test]
fn default_strides_behind_a_zero_axis_are_zero() {
    assert_eq!(default_strides([0, 5]), [1, 0]);
    assert_eq!(default_strides([2, 0, 3, 4]), [1, 2, 0, 0]);
    assert_eq!(default_strides([0]), [1]);
}

#[test]
fn default_strides_do_not_need_the_whole_product() {
    let big = usize::MAX;
    assert_eq!(default_strides([big]), [1]);
    assert_eq!(default_strides([big, big]), [1, big]);
    assert_eq!(default_strides([2, big / 2, 9]), [1, 2, big - 1]);
}

#[test]
fn element_count_is_the_product_of_the_shape() {
    assert_eq!(element_count(&[2, 3]), 6);
    assert_eq!(element_count(&[2, 3, 4]), 24);
    assert_eq!(element_count(&[9]), 9);
    assert_eq!(element_count(&[1, 1, 1]), 1);
    assert_eq!(element_count(&[usize::MAX]), usize::MAX);
    assert_eq!(element_count(&[usize::MAX, 1]), usize::MAX);
}

#[test]
fn element_count_of_rank_zero_is_one() {
    let shape: [usize; 0] = [];
    assert_eq!(element_count(&shape), 1);
}

#[test]
fn element_count_with_a_zero_axis_is_zero() {
    assert_eq!(element_count(&[0, 5]), 0);
    assert_eq!(element_count(&[5, 0]), 0);
    assert_eq!(element_count(&[0]), 0);
    assert_eq!(element_count(&[usize::MAX, usize::MAX, 0]), 0);
    assert_eq!(element_count(&[usize::MAX, 0, usize::MAX]), 0);
}

#[test]
fn shape_fits_accepts_what_can_be_laid_out() {
    let empty: [usize; 0] = [];
    assert!(shape_fits(&empty));
    assert!(shape_fits(&[2, 3]));
    assert!(shape_fits(&[0, 5]));
    assert!(shape_fits(&[usize::MAX]));
    assert!(shape_fits(&[usize::MAX, 1, 1]));
    assert!(shape_fits(&[usize::MAX, 0, usize::MAX]));
    assert!(shape_fits(&[0, usize::MAX, usize::MAX]));
}

#[test]
fn shape_fits_refuses_what_overflows() {
    assert!(!shape_fits(&[usize::MAX, 2]));
    assert!(!shape_fits(&[2, usize::MAX]));
    assert!(!shape_fits(&[usize::MAX, usize::MAX, 0]));
    assert!(!shape_fits(&[usize::MAX / 2 + 1, 2, 1]));
    assert!(shape_fits(&[usize::MAX / 2, 2, 1]));
}
