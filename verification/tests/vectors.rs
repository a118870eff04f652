use soplex_rs::coefficients::measure;
use soplex_rs::instance_file::{check_instance_file, ends_with, ReadFileError};
use soplex_rs::Real;

fn reals(xs: &[f64]) -> Vec<Real> {
    xs.iter().map(|x| Real::from_bits(x.to_bits())).collect()
}

#[test]
fn zero_has_two_bit_patterns() {
    assert!(Real::from_bits(0.0f64.to_bits()).equals_zero());
    assert!(Real::from_bits((-0.0f64).to_bits()).equals_zero());
    assert!(!Real::from_bits(1.0f64.to_bits()).equals_zero());
    assert!(!Real::from_bits(f64::MIN_POSITIVE.to_bits()).equals_zero());
    assert!(!Real::from_bits(5e-324f64.to_bits()).equals_zero());
    assert!(!Real::from_bits(f64::NAN.to_bits()).equals_zero());
    assert!(!Real::from_bits(f64::INFINITY.to_bits()).equals_zero());
    assert!(!Real::from_bits(f64::NEG_INFINITY.to_bits()).equals_zero());
    for x in [0.0f64, -0.0, 1.5, -2.0, f64::NAN, f64::INFINITY, 1e-320] {
        assert_eq!(Real::from_bits(x.to_bits()).equals_zero(), x == 0.0);
        assert_eq!(Real::from_bits(x.to_bits()).to_bits(), x.to_bits());
    }
}

#[test]
fn measure_counts_and_reaches() {
    assert_eq!(measure(&[]), (0, 0));
    assert_eq!(measure(&reals(&[0.0])), (0, 0));
    assert_eq!(measure(&reals(&[0.0, -0.0, 0.0])), (0, 0));
    assert_eq!(measure(&reals(&[1.0])), (1, 1));
    assert_eq!(measure(&reals(&[1.0, 1.0])), (2, 2));
    assert_eq!(measure(&reals(&[0.0, 1.5, 0.0, -0.0, 2.0, 0.0])), (2, 5));
    assert_eq!(measure(&reals(&[3.0, 0.0, 0.0])), (1, 1));
    assert_eq!(measure(&reals(&[0.0, 0.0, f64::NAN])), (1, 3));
}

#[test]
fn ends_with_compares_the_last_bytes() {
    assert!(ends_with(b"model.lp", b".lp"));
    assert!(ends_with(b".lp", b".lp"));
    assert!(ends_with(b"anything", b""));
    assert!(ends_with(b"", b""));
    assert!(!ends_with(b"lp", b".lp"));
    assert!(!ends_with(b"", b".lp"));
    assert!(!ends_with(b"model.lp.txt", b".lp"));
    assert!(!ends_with(b"model.lP", b".lp"));
    assert!(!ends_with(b"model_lp", b".lp"));
}

#[test]
fn instance_file_rules() {
    assert_eq!(check_instance_file("a.lp", true), Ok(()));
    assert_eq!(check_instance_file("a.mps", true), Ok(()));
    assert_eq!(check_instance_file("dir.d/a.mps", true), Ok(()));
    assert_eq!(check_instance_file(".mps", true), Ok(()));
    assert_eq!(check_instance_file("a.lp", false), Err(ReadFileError::FileNotFound));
    assert_eq!(check_instance_file("a.txt", false), Err(ReadFileError::FileNotFound));
    assert_eq!(check_instance_file("a.txt", true), Err(ReadFileError::UnsupportedFormat));
    assert_eq!(check_instance_file("a.LP", true), Err(ReadFileError::UnsupportedFormat));
    assert_eq!(check_instance_file("a.mps.gz", true), Err(ReadFileError::UnsupportedFormat));
    assert_eq!(check_instance_file("amps", true), Err(ReadFileError::UnsupportedFormat));
    assert_eq!(check_instance_file("", true), Err(ReadFileError::UnsupportedFormat));
    assert_eq!(check_instance_file("\u{e9}.lp", true), Ok(()));
}
