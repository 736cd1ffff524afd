use xcap::error::CaptureError;

#[test]
fn every_error_describes_itself() {
    let errors = vec![
        CaptureError::UnsupportedTarget,
        CaptureError::DeviceCreationFailed,
        CaptureError::CaptureTimeout,
        CaptureError::InvalidRegion,
        CaptureError::EmptySurface,
        CaptureError::BufferSizeMismatch,
        CaptureError::EnumerationFailed,
    ];
    for error in errors {
        assert!(!error.describe().is_empty());
    }
}

#[test]
fn timeouts_and_defects_read_differently() {
    assert_ne!(
        CaptureError::CaptureTimeout.describe(),
        CaptureError::BufferSizeMismatch.describe()
    );
}
