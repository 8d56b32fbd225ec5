use iceberg_rs::decimal::{max_prec_for_len, Decimal};
use iceberg_rs::error::IcebergError;

#[test]
fn test_scale_gt_precision() {
    let dec = Decimal::new(false, vec![123], 2, 3);
    assert!(dec.is_err());
}

#[test]
fn test_scale_error_precision_gt_38() {
    let dec = Decimal::new(false, vec![123], 39, 3);
    assert!(dec.is_err());
}

#[test]
fn test_max_prec() {
    //16 bytes is required, this is
    assert_eq!(38, max_prec_for_len(16));
}

#[test]
fn test_precision_less_than_bytes() {
    let dec = Decimal::new(false, vec![123], 1, 3);
    assert!(dec.is_err());
}

#[test]
fn max_prec_for_each_width() {
    let expected = [0, 2, 4, 6, 9, 11, 14, 16, 18, 21, 23, 26, 28, 31, 33, 35, 38];
    for (len, e) in expected.iter().enumerate() {
        assert_eq!(max_prec_for_len(len), *e);
    }
}

#[test]
fn max_prec_beyond_sixteen_bytes() {
    assert_eq!(max_prec_for_len(17), 40);
    assert_eq!(max_prec_for_len(32), 76);
    assert_eq!(max_prec_for_len(100), 240);
}

#[test]
fn decimal_valid_values() {
    let d = Decimal::new(false, vec![123], 2, 1).unwrap();
    assert!(!d.is_negative());
    assert_eq!(d.magnitude(), &[123]);
    assert_eq!(d.precision(), 2);
    assert_eq!(d.scale(), 1);
    assert!(Decimal::new(true, vec![123], 2, 2).is_ok());
    assert!(Decimal::new(false, vec![0xff; 16], 38, 0).is_ok());
    assert!(Decimal::new(true, vec![0xff; 40], 38, 38).is_ok());
    assert!(Decimal::new(false, vec![], 0, 0).is_ok());
}

#[test]
fn decimal_width_too_small() {
    // 123 takes one byte, which holds at most two digits
    assert!(matches!(Decimal::new(false, vec![123], 3, 1), Err(IcebergError::Validation(_))));
    assert!(matches!(Decimal::new(false, vec![0, 0, 123], 3, 1), Err(IcebergError::Validation(_))));
    assert!(Decimal::new(false, vec![0, 0, 123], 2, 1).is_ok());
    assert!(matches!(Decimal::new(false, vec![0], 1, 0), Err(IcebergError::Validation(_))));
    // 300 takes two bytes, which hold four digits
    assert!(Decimal::new(false, vec![1, 44], 4, 0).is_ok());
    assert!(Decimal::new(false, vec![1, 44], 5, 0).is_err());
}

#[test]
fn decimal_precision_limit() {
    assert!(matches!(Decimal::new(false, vec![0xff; 16], 39, 0), Err(IcebergError::Validation(_))));
    assert!(matches!(Decimal::new(false, vec![1], 1, 2), Err(IcebergError::Validation(_))));
}
