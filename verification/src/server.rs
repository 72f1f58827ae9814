//! What the client makes of the server's error reports.
use vstd::prelude::*;
use crate::model::ErrorType;
use crate::text::join2;

verus! {

/// The failure that an error report with code `code` and text `message` stands for.
pub open spec fn is_server_error(r: ErrorType, code: Seq<char>, message: Seq<char>) -> bool {
    if code == "auth_failed"@ || code == "invalid_token"@ || code == "token_expired"@ {
        r matches ErrorType::Auth(m) && m@ == message
    } else if code == "message_send_failed"@ {
        r is MessageSend
    } else if code == "message_delete_failed"@ {
        r is MessageDelete
    } else if code == "conversation_delete_failed"@ {
        r is ConversationDelete
    } else if code == "group_leave_failed"@ {
        r is GroupLeave
    } else if code == "group_create_failed"@ {
        r is GroupCreate
    } else if code == "invite_failed"@ {
        r is Invite
    } else if code == "connection_error"@ || code == "websocket_error"@ {
        r is Connection
    } else {
        r matches ErrorType::Generic(m) && m@ == "Errore server: "@ + message
    }
}

fn code_is(code: &str, lit: &str) -> (r: bool)
    ensures
        r == (code@ == lit@),
{
    String::from_str(code) == String::from_str(lit)
}

/// Maps the server's error code `code`, reported with text `message`, to the failure
/// shown to the user.
pub fn server_error(code: &str, message: &str) -> (r: ErrorType)
    ensures
        is_server_error(r, code@, message@),
{
    if code_is(code, "auth_failed") || code_is(code, "invalid_token") || code_is(code, "token_expired") {
        ErrorType::Auth(String::from_str(message))
    } else if code_is(code, "message_send_failed") {
        ErrorType::MessageSend
    } else if code_is(code, "message_delete_failed") {
        ErrorType::MessageDelete
    } else if code_is(code, "conversation_delete_failed") {
        ErrorType::ConversationDelete
    } else if code_is(code, "group_leave_failed") {
        ErrorType::GroupLeave
    } else if code_is(code, "group_create_failed") {
        ErrorType::GroupCreate
    } else if code_is(code, "invite_failed") {
        ErrorType::Invite
    } else if code_is(code, "connection_error") || code_is(code, "websocket_error") {
        ErrorType::Connection
    } else {
        ErrorType::Generic(join2("Errore server: ", message))
    }
}

} // verus!
