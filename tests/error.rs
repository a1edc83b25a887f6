use rtop::error::{Result, RtopError};

#[test]
fn test_error_display() {
    let error = RtopError::Config("Invalid value".to_string());
    assert_eq!(error.message(), "Configuration error: Invalid value");

    let error = RtopError::SensorUnavailable("Temperature".to_string());
    assert_eq!(error.message(), "Sensor not available: Temperature");

    let error = RtopError::PermissionDenied("/proc/stat".to_string());
    assert_eq!(error.message(), "Permission denied: /proc/stat");
}

#[test]
fn test_error_types() {
    let _config_err = RtopError::Config("test".to_string());
    let _sensor_err = RtopError::SensorUnavailable("test".to_string());
    let _monitor_err = RtopError::MonitorUpdate("test".to_string());
    let _export_err = RtopError::Export("test".to_string());
    let _permission_err = RtopError::PermissionDenied("test".to_string());
    let _input_err = RtopError::InvalidInput("test".to_string());
}

#[test]
fn test_io_error_conversion() {
    let io_error = std::io::Error::new(std::io::ErrorKind::NotFound, "file not found");
    let rtop_error: RtopError = io_error.into();

    match rtop_error {
        RtopError::TerminalInit(_) => {},
        _ => panic!("Expected TerminalInit variant"),
    }
}

#[test]
fn test_result_type() {
    let success: Result<i32> = Ok(42);
    assert_eq!(success.unwrap(), 42);

    let failure: Result<i32> = Err(RtopError::InvalidInput("test".to_string()));
    assert!(failure.is_err());
}

#[test]
fn error_messages_of_every_kind() {
    assert_eq!(RtopError::MonitorUpdate("gpu".to_string()).message(), "Failed to update monitor: gpu");
    assert_eq!(RtopError::Export("disk full".to_string()).message(), "Export error: disk full");
    assert_eq!(RtopError::InvalidInput("x".to_string()).message(), "Invalid input: x");
    let io = std::io::Error::new(std::io::ErrorKind::Other, "tty");
    assert_eq!(RtopError::from(io).message(), "Failed to initialize terminal: tty");
}
