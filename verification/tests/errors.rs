use socks5_proxy::error::{error, Error, ErrorClass, ErrorKind};
use socks5_proxy::wire::ReplyCode;

const KINDS: [ErrorKind; 9] = [
    ErrorKind::UnsupportedVersion,
    ErrorKind::NoAcceptableAuth,
    ErrorKind::InvalidVersion,
    ErrorKind::UnsupportedCommand,
    ErrorKind::MalformedRequest,
    ErrorKind::UnsupportedAddressType,
    ErrorKind::TruncatedInput,
    ErrorKind::ConnectFailed,
    ErrorKind::RelayError,
];

#[test]
fn error_keeps_its_kind() {
    for kind in KINDS {
        assert_eq!(error(kind).kind, kind);
    }
}

#[test]
fn error_messages() {
    assert_eq!(error(ErrorKind::UnsupportedVersion).message, "Invalid protocol version");
    assert_eq!(
        error(ErrorKind::NoAcceptableAuth).message,
        "No acceptable authentication method sent"
    );
    assert_eq!(
        error(ErrorKind::InvalidVersion).message,
        "Request, invalid protocol version"
    );
    assert_eq!(error(ErrorKind::UnsupportedCommand).message, "Request, Invalid command");
    assert_eq!(error(ErrorKind::MalformedRequest).message, "Request, Invalid reserved");
    assert_eq!(
        error(ErrorKind::UnsupportedAddressType).message,
        "Request, address type not supported"
    );
    assert_eq!(
        error(ErrorKind::TruncatedInput).message,
        "Connection closed before the message was complete"
    );
    assert_eq!(error(ErrorKind::ConnectFailed).message, "Request, connection failed");
    assert_eq!(error(ErrorKind::RelayError).message, "Relay, transfer failed");
}

#[test]
fn error_messages_differ() {
    for a in KINDS {
        for b in KINDS {
            if a != b {
                assert_ne!(error(a).message, error(b).message);
                assert_ne!(error(a), error(b));
            }
        }
    }
}

#[test]
fn error_is_a_plain_value() {
    let e: Error = error(ErrorKind::ConnectFailed);
    let copy = e;
    assert_eq!(e, copy);
    assert_eq!(
        e,
        Error { kind: ErrorKind::ConnectFailed, message: "Request, connection failed" }
    );
}

#[test]
fn error_classes() {
    assert_eq!(ErrorKind::UnsupportedVersion.class(), ErrorClass::ProtocolError);
    assert_eq!(ErrorKind::InvalidVersion.class(), ErrorClass::ProtocolError);
    assert_eq!(ErrorKind::UnsupportedCommand.class(), ErrorClass::ProtocolError);
    assert_eq!(ErrorKind::MalformedRequest.class(), ErrorClass::ProtocolError);
    assert_eq!(ErrorKind::UnsupportedAddressType.class(), ErrorClass::ProtocolError);
    assert_eq!(ErrorKind::TruncatedInput.class(), ErrorClass::TruncatedInput);
    assert_eq!(ErrorKind::NoAcceptableAuth.class(), ErrorClass::NoAcceptableAuth);
    assert_eq!(ErrorKind::ConnectFailed.class(), ErrorClass::ConnectFailed);
    assert_eq!(ErrorKind::RelayError.class(), ErrorClass::RelayError);
}

#[test]
fn error_reply_codes() {
    assert_eq!(
        ErrorKind::UnsupportedCommand.reply_code(),
        Some(ReplyCode::CommandNotSupported)
    );
    assert_eq!(ErrorKind::MalformedRequest.reply_code(), Some(ReplyCode::GeneralFailure));
    assert_eq!(
        ErrorKind::UnsupportedAddressType.reply_code(),
        Some(ReplyCode::AddressTypeNotSupported)
    );
    assert_eq!(ErrorKind::ConnectFailed.reply_code(), Some(ReplyCode::HostUnreachable));
    assert_eq!(ErrorKind::UnsupportedVersion.reply_code(), None);
    assert_eq!(ErrorKind::InvalidVersion.reply_code(), None);
    assert_eq!(ErrorKind::TruncatedInput.reply_code(), None);
    assert_eq!(ErrorKind::NoAcceptableAuth.reply_code(), None);
    assert_eq!(ErrorKind::RelayError.reply_code(), None);
}

#[test]
fn reply_code_bytes() {
    assert_eq!(ReplyCode::Succeeded.code(), 0);
    assert_eq!(ReplyCode::GeneralFailure.code(), 1);
    assert_eq!(ReplyCode::HostUnreachable.code(), 5);
    assert_eq!(ReplyCode::CommandNotSupported.code(), 7);
    assert_eq!(ReplyCode::AddressTypeNotSupported.code(), 8);
}
