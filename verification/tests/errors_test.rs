use nyquestro::errors::{severity, ErrorSeverity, NyquestroError};

#[test]
fn test_severity() {
    assert_eq!(
        severity(&NyquestroError::InvalidOrderID),
        ErrorSeverity::Recoverable
    );
    assert_eq!(
        severity(&NyquestroError::InvalidPrice { value: 1000 }),
        ErrorSeverity::Recoverable
    );
    assert_eq!(
        severity(&NyquestroError::InvalidQuantity),
        ErrorSeverity::Recoverable
    );
    assert_eq!(
        severity(&NyquestroError::OrderNotFound { id: 1 }),
        ErrorSeverity::Fatal
    );
}

#[test]
fn test_severity_fatal() {
    assert_eq!(
        severity(&NyquestroError::OrderAlreadyExists),
        ErrorSeverity::Fatal
    );
    assert_eq!(
        severity(&NyquestroError::OrderCannotBeCancelled),
        ErrorSeverity::Fatal
    );
    assert_eq!(
        severity(&NyquestroError::MatchingEngineError),
        ErrorSeverity::Fatal
    );
    assert_eq!(
        severity(&NyquestroError::RecoverableError),
        ErrorSeverity::Recoverable
    );
    assert_eq!(severity(&NyquestroError::FatalError), ErrorSeverity::Fatal);
}

#[test]
fn test_severity_recoverable() {
    assert_eq!(
        severity(&NyquestroError::ErrorSeverityCannotBeDetermined),
        ErrorSeverity::Fatal
    );
    assert_eq!(
        severity(&NyquestroError::ErrorSeverity {
            severity: "Recoverable"
        }),
        ErrorSeverity::Recoverable
    );
}

#[test]
fn test_severity_error_severity_cannot_be_determined() {
    assert_eq!(
        severity(&NyquestroError::ErrorSeverityCannotBeDetermined),
        ErrorSeverity::Fatal
    );
}

#[test]
fn test_severity_error_severity_recoverable() {
    assert_eq!(
        severity(&NyquestroError::ErrorSeverity {
            severity: "Recoverable"
        }),
        ErrorSeverity::Recoverable
    );
}

#[test]
fn test_severity_error_severity_ignores_embedded_text() {
    assert_eq!(
        severity(&NyquestroError::ErrorSeverity { severity: "Fatal" }),
        ErrorSeverity::Recoverable
    );
    assert_eq!(
        severity(&NyquestroError::ErrorSeverity { severity: "anything" }),
        ErrorSeverity::Recoverable
    );
}
