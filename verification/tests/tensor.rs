use vaccel::preprocess::pad_and_mask;
use vaccel::torch::{Buffer, DataType, Tensor, TorchArgs};
use vaccel::Error;

fn float_bytes(values: &[f32]) -> Vec<u8> {
    let mut bytes: Vec<u8> = Vec::new();
    for v in values {
        bytes.extend_from_slice(&v.to_le_bytes());
    }
    bytes
}

fn floats_back(bytes: &[u8]) -> Vec<f32> {
    bytes
        .chunks(4)
        .map(|c| f32::from_le_bytes([c[0], c[1], c[2], c[3]]))
        .collect()
}

#[test]
fn tensor_rejects_mismatched_buffer() {
    // shape [1, 32] of f32 needs 128 bytes
    let r = Tensor::new(DataType::Float, vec![1, 32]).with_data(vec![0u8; 4]);
    assert_eq!(r.err(), Some(Error::InvalidArgument));
    let r = Tensor::new(DataType::Float, vec![1, 32]).with_data(vec![0u8; 127]);
    assert_eq!(r.err(), Some(Error::InvalidArgument));
    let r = Tensor::new(DataType::Float, vec![1, 32]).with_data(vec![0u8; 129]);
    assert_eq!(r.err(), Some(Error::InvalidArgument));
}

#[test]
fn tensor_roundtrip_1x32() {
    let values: Vec<f32> = (0..32).map(|i| (i * 3) as f32).collect();
    let t = Tensor::new(DataType::Float, vec![1, 32])
        .with_data(float_bytes(&values))
        .unwrap();
    assert_eq!(t.shape().as_slice(), &[1, 32]);
    assert_eq!(t.data_type(), DataType::Float);
    assert_eq!(t.nr_dims(), 2);
    assert_eq!(floats_back(t.data()), values);
}

#[test]
fn tensor_roundtrip_1x1x32() {
    let values: Vec<f32> = (0..32).map(|i| (i as f32) * 0.5).collect();
    let t = Tensor::new(DataType::Float, vec![1, 1, 32])
        .with_data(float_bytes(&values))
        .unwrap();
    assert_eq!(t.shape().as_slice(), &[1, 1, 32]);
    assert_eq!(t.nr_dims(), 3);
    assert_eq!(floats_back(t.data()), values);
}

#[test]
fn tensor_zero_dim_needs_empty_buffer() {
    let t = Tensor::new(DataType::Int32, vec![4, 0, 2])
        .with_data(Vec::new())
        .unwrap();
    assert_eq!(t.data().len(), 0);
    let r = Tensor::new(DataType::Int32, vec![4, 0, 2]).with_data(vec![0u8; 4]);
    assert_eq!(r.err(), Some(Error::InvalidArgument));
}

#[test]
fn tensor_dim_out_of_range() {
    let t = Tensor::new(DataType::Byte, vec![2, 3])
        .with_data(vec![0u8; 6])
        .unwrap();
    assert_eq!(t.dim(0).unwrap(), 2);
    assert_eq!(t.dim(1).unwrap(), 3);
    assert_eq!(t.dim(2).err(), Some(Error::OutOfRange));
}

#[test]
fn tensor_typed_read_checks_tag() {
    let t = Tensor::new(DataType::Int64, vec![2])
        .with_data(vec![0u8; 16])
        .unwrap();
    assert!(t.typed_data(DataType::Int64).is_ok());
    assert_eq!(t.typed_data(DataType::Float).err(), Some(Error::TypeMismatch));
}

#[test]
fn element_sizes() {
    assert_eq!(DataType::Byte.size(), 1);
    assert_eq!(DataType::Int32.size(), 4);
    assert_eq!(DataType::Int64.size(), 8);
    assert_eq!(DataType::Float.size(), 4);
}

#[test]
fn args_keep_input_order() {
    let mut args = TorchArgs::new();
    assert_eq!(args.input_count(), 0);
    let t1 = Tensor::new(DataType::Float, vec![1, 32])
        .with_data(vec![0u8; 128])
        .unwrap();
    let t2 = Tensor::new(DataType::Float, vec![1, 1, 32])
        .with_data(vec![0u8; 128])
        .unwrap();
    args.add_input(t1);
    args.add_input(t2);
    args.set_run_options(Buffer::new(Vec::new()));
    assert_eq!(args.input_count(), 2);
}

#[test]
fn buffer_holds_bytes() {
    let b = Buffer::new(vec![1, 2, 3]);
    assert_eq!(b.len(), 3);
    assert_eq!(b.data().as_slice(), &[1, 2, 3]);
}

#[test]
fn pad_and_mask_lays_out_window() {
    let word_ids: Vec<i32> = vec![7, 8];
    let (ids, masks) = pad_and_mask(&word_ids, 0, 101, 102, 6);
    assert_eq!(ids, vec![101, 7, 8, 102, 0, 0]);
    assert_eq!(masks, vec![1, 1, 1, 1, 0, 0]);
}

#[test]
fn pad_and_mask_truncates_long_input() {
    let word_ids: Vec<i32> = vec![1, 2, 3, 4, 5];
    let (ids, masks) = pad_and_mask(&word_ids, 0, 101, 102, 4);
    assert_eq!(ids, vec![101, 1, 2, 102]);
    assert_eq!(masks, vec![1, 1, 1, 1]);
}
