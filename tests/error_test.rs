use rsocks5::error::{ErrorKind, Socks5Error};
use std::io::{Error as IoError, ErrorKind as IoErrorKind};

#[test]
fn error_test_error_creation() {
    let handshake_err = Socks5Error::HandshakeError("handshake failed".to_string());
    let command_err = Socks5Error::CommandError("invalid command".to_string());
    let address_err = Socks5Error::AddressError("invalid address".to_string());
    let connection_err = Socks5Error::ConnectionError("connection failed".to_string());
    let relay_err = Socks5Error::RelayError("relay failed".to_string());
    let io_err = Socks5Error::IoError(IoError::new(IoErrorKind::ConnectionRefused, "connection refused"));

    assert!(format!("{:?}", handshake_err).contains("HandshakeError"));
    assert!(format!("{:?}", command_err).contains("CommandError"));
    assert!(format!("{:?}", address_err).contains("AddressError"));
    assert!(format!("{:?}", connection_err).contains("ConnectionError"));
    assert!(format!("{:?}", relay_err).contains("RelayError"));
    assert!(format!("{:?}", io_err).contains("IoError"));
}

#[test]
fn error_test_error_display() {
    let handshake_err = Socks5Error::HandshakeError("handshake failed".to_string());
    assert_eq!(handshake_err.message(), "SOCKS5 handshake error: handshake failed");

    let command_err = Socks5Error::CommandError("invalid command".to_string());
    assert_eq!(command_err.message(), "SOCKS5 command error: invalid command");

    let address_err = Socks5Error::AddressError("invalid address".to_string());
    assert_eq!(address_err.message(), "SOCKS5 address error: invalid address");

    let connection_err = Socks5Error::ConnectionError("connection failed".to_string());
    assert_eq!(connection_err.message(), "SOCKS5 connection error: connection failed");

    let relay_err = Socks5Error::RelayError("relay failed".to_string());
    assert_eq!(relay_err.message(), "SOCKS5 relay error: relay failed");

    let io_err = Socks5Error::IoError(IoError::new(IoErrorKind::ConnectionRefused, "connection refused"));
    assert!(io_err.message().contains("IO error: connection refused"));
}

#[test]
fn error_test_from_io_error() {
    let io_error = IoError::new(IoErrorKind::NotFound, "file not found");
    let socks_error: Socks5Error = io_error.into();

    match socks_error {
        Socks5Error::IoError(e) => {
            assert_eq!(e.kind(), IoErrorKind::NotFound);
            assert_eq!(e.to_string(), "file not found");
        }
        _ => panic!("Expected IoError variant"),
    }
}

#[test]
fn error_test_error_trait() {
    // The error type can travel as a boxed trait object and still report itself.
    let error = Socks5Error::HandshakeError("test error".to_string());
    let boxed: Box<dyn std::fmt::Debug> = Box::new(error);
    assert!(format!("{:?}", boxed).contains("test error"));
}

#[test]
fn error_test_test_error_creation() {
    let handshake_err = Socks5Error::HandshakeError("handshake failed".to_string());
    let command_err = Socks5Error::CommandError("invalid command".to_string());
    let address_err = Socks5Error::AddressError("invalid address".to_string());
    let connection_err = Socks5Error::ConnectionError("connection failed".to_string());
    let relay_err = Socks5Error::RelayError("relay failed".to_string());
    let io_err = Socks5Error::IoError(IoError::new(IoErrorKind::ConnectionRefused, "connection refused"));

    assert!(format!("{:?}", handshake_err).contains("HandshakeError"));
    assert!(format!("{:?}", command_err).contains("CommandError"));
    assert!(format!("{:?}", address_err).contains("AddressError"));
    assert!(format!("{:?}", connection_err).contains("ConnectionError"));
    assert!(format!("{:?}", relay_err).contains("RelayError"));
    assert!(format!("{:?}", io_err).contains("IoError"));
}

#[test]
fn error_test_test_error_display() {
    let handshake_err = Socks5Error::HandshakeError("handshake failed".to_string());
    assert_eq!(handshake_err.message(), "SOCKS5 handshake error: handshake failed");

    let command_err = Socks5Error::CommandError("invalid command".to_string());
    assert_eq!(command_err.message(), "SOCKS5 command error: invalid command");

    let address_err = Socks5Error::AddressError("invalid address".to_string());
    assert_eq!(address_err.message(), "SOCKS5 address error: invalid address");

    let connection_err = Socks5Error::ConnectionError("connection failed".to_string());
    assert_eq!(connection_err.message(), "SOCKS5 connection error: connection failed");

    let relay_err = Socks5Error::RelayError("relay failed".to_string());
    assert_eq!(relay_err.message(), "SOCKS5 relay error: relay failed");

    let io_err = Socks5Error::IoError(IoError::new(IoErrorKind::ConnectionRefused, "connection refused"));
    assert!(io_err.message().contains("IO error: connection refused"));
}

#[test]
fn error_test_test_from_io_error() {
    let io_error = IoError::new(IoErrorKind::NotFound, "file not found");
    let socks_error: Socks5Error = io_error.into();

    match socks_error {
        Socks5Error::IoError(e) => {
            assert_eq!(e.kind(), IoErrorKind::NotFound);
            assert_eq!(e.to_string(), "file not found");
        }
        _ => panic!("Expected IoError variant"),
    }
}

#[test]
fn error_test_test_error_trait() {
    let error = Socks5Error::HandshakeError("test error".to_string());
    let boxed: Box<dyn std::fmt::Debug> = Box::new(error);
    assert!(format!("{:?}", boxed).contains("test error"));
}

#[test]
fn error_kind_matches_variant() {
    assert_eq!(Socks5Error::HandshakeError(String::new()).kind(), ErrorKind::Handshake);
    assert_eq!(Socks5Error::CommandError(String::new()).kind(), ErrorKind::Command);
    assert_eq!(Socks5Error::AddressError(String::new()).kind(), ErrorKind::Address);
    assert_eq!(Socks5Error::ConnectionError(String::new()).kind(), ErrorKind::Connection);
    assert_eq!(Socks5Error::RelayError(String::new()).kind(), ErrorKind::Relay);
    let io = Socks5Error::IoError(IoError::new(IoErrorKind::Other, "x"));
    assert_eq!(io.kind(), ErrorKind::Io);
}
