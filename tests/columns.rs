use ella_core::error::{Error, ShapeError};
use ella_core::frame::{DataFrame, NamedColumn, Tensor, TensorData};
use ella_core::info::TensorType;
use ella_core::mask::{Mask, MaskData, MaskIter, ValidityIter};

fn walk(v: Vec<bool>) -> Vec<bool> {
    Mask::from_values(v).iter().collect()
}

#[test]
fn mask_iteration_all_true() {
    let v = vec![true; 5];
    assert_eq!(walk(v.clone()), v);
    assert!(matches!(ValidityIter::new(MaskData::new(v)), ValidityIter::Constant(5, true)));
}

#[test]
fn mask_iteration_all_false() {
    let v = vec![false; 4];
    assert_eq!(walk(v.clone()), v);
    assert!(matches!(ValidityIter::new(MaskData::new(v)), ValidityIter::Constant(4, false)));
}

#[test]
fn mask_iteration_mixed() {
    let v = vec![true, false, false, true, true];
    assert_eq!(walk(v.clone()), v);
    let it = ValidityIter::new(MaskData::new(v.clone()));
    assert!(matches!(it, ValidityIter::Values { index: 0, .. }));
    assert_eq!(it.len(), 5);
    assert_eq!(walk(vec![]), Vec::<bool>::new());
}

#[test]
fn validity_iter_steps() {
    let mut it = ValidityIter::new(MaskData::new(vec![false, true]));
    assert_eq!(it.next(), Some(false));
    assert_eq!(it.len(), 1);
    assert_eq!(it.next(), Some(true));
    assert_eq!(it.next(), None);
    assert_eq!(it.next(), None);
}

#[test]
fn mask_counts() {
    let m = MaskData::new(vec![true, false, true]);
    assert_eq!(m.num_valid(), 2);
    assert_eq!(m.num_masked(), 1);
    assert!(!m.is_valid(1));
}

#[test]
fn shaped_mask_walks_index_order() {
    // two rows of three, stored column by column
    let stored = vec![true, false, false, true, true, false];
    let m = Mask::with_layout(stored, 2, 3, 1, 2).unwrap();
    assert!(!m.is_standard_layout());
    let it = m.iter();
    assert!(matches!(it, MaskIter::Shaped { .. }));
    assert_eq!(it.collect(), vec![true, false, true, false, true, false]);
}

#[test]
fn transposed_mask() {
    let m = Mask::with_layout(vec![true, false, true, true, false, false], 2, 3, 3, 1).unwrap();
    assert!(m.is_standard_layout());
    let t = m.transpose();
    assert_eq!(t.len(), 6);
    assert_eq!(t.iter().collect(), vec![true, true, false, false, true, false]);
}

#[test]
fn mask_layout_out_of_bounds() {
    let r = Mask::with_layout(vec![true; 5], 2, 3, 3, 1);
    assert!(matches!(r, Err(ShapeError::ArraySize(5, _))));
}

fn int_col(name: &str, values: Vec<i64>, shape: Vec<usize>) -> NamedColumn {
    NamedColumn::new(name, Tensor::new(TensorData::Int64(values), shape).unwrap())
}

#[test]
fn frame_mismatched_rows() {
    let a = int_col("a", vec![1, 2, 3], vec![3]);
    let b = int_col("b", vec![1, 2], vec![2]);
    let r = DataFrame::new(vec![a, b]);
    assert!(matches!(r, Err(Error::Shape(ShapeError::Incompatible(ref s))) if s == &vec![3]));
}

#[test]
fn frame_scalar_column_rejected() {
    let a = int_col("a", vec![7], vec![]);
    let r = DataFrame::new(vec![a]);
    assert!(matches!(r, Err(Error::Shape(ShapeError::Ndim { expected: 1, actual: 0 }))));
}

#[test]
fn frame_columns_and_casts() {
    let a = int_col("a", vec![1, 2, 3, 4, 5, 6], vec![3, 2]);
    let b = NamedColumn::new("b", Tensor::new(TensorData::Bool(vec![true, false, true]), vec![3]).unwrap());
    let f = DataFrame::new(vec![a, b]).unwrap();
    assert_eq!(f.nrows(), 3);
    assert_eq!(f.ncols(), 2);
    assert_eq!(f.column(1).name(), "b");
    let t = f.col("a", TensorType::Int64).unwrap();
    assert_eq!(t.shape(), &vec![3, 2]);
    assert!(matches!(f.col("a", TensorType::Int32), Err(Error::Cast { to: TensorType::Int32, from: TensorType::Int64 })));
    assert!(matches!(f.col("zz", TensorType::Int32), Err(Error::ColumnLookup(ref n)) if n == "zz"));
    assert!(f.icol(1, TensorType::Bool).is_ok());
    assert!(DataFrame::new(vec![]).unwrap().nrows() == 0);
}

#[test]
fn tensor_shape_checked() {
    let r = Tensor::new(TensorData::UInt8(vec![1, 2, 3]), vec![2, 2]);
    assert!(matches!(r, Err(ShapeError::ArraySize(3, ref s)) if s == &vec![2, 2]));
    let z = Tensor::new(TensorData::UInt8(vec![]), vec![usize::MAX, 0, 4]);
    assert!(z.is_ok());
    let over = Tensor::new(TensorData::UInt8(vec![]), vec![usize::MAX, 2]);
    assert!(over.is_err());
    let t = Tensor::with_validity(TensorData::Int32(vec![4, 5]), vec![2], vec![true, false]).unwrap();
    assert!(t.is_valid(0));
    assert!(!t.is_valid(1));
    let bad = Tensor::with_validity(TensorData::Int32(vec![4, 5]), vec![2], vec![true]);
    assert!(matches!(bad, Err(ShapeError::ArraySize(1, _))));
}

#[test]
fn shape_error_builders() {
    assert!(matches!(ShapeError::ndim(2, 1), ShapeError::Ndim { expected: 2, actual: 1 }));
    assert!(matches!(ShapeError::incompatible(&[1, 2]), ShapeError::Incompatible(ref v) if v == &vec![1, 2]));
    assert!(matches!(ShapeError::broadcast(&[1], &[2, 3]), ShapeError::Broadcast(ref a, ref b) if a == &vec![1] && b == &vec![2, 3]));
}
