use nyat::auth::CredentialsVerifyError;
use nyat::error::create_error_json;
use nyat::error::response_error;
use nyat::error::unknown_error_line;
use nyat::error::ErrorResponse;
use nyat::error::Fault;
use nyat::routes::CreatePMError;
use nyat::routes::LoginError;
use nyat::routes::RegisterError;

#[test]
fn the_body_of_a_failure_is_an_object_with_one_field() {
    assert_eq!(create_error_json("Unauthorized"), "{\"error\":\"Unauthorized\"}");
    assert_eq!(create_error_json(""), "{\"error\":\"\"}");
}

#[test]
fn the_message_of_a_failure_is_escaped_as_json() {
    assert_eq!(create_error_json("a \"b\" \\ c"), "{\"error\":\"a \\\"b\\\" \\\\ c\"}");
    assert_eq!(create_error_json("line\nbreak\ttab"), "{\"error\":\"line\\nbreak\\ttab\"}");
    assert_eq!(create_error_json("不是ascii"), "{\"error\":\"不是ascii\"}");
}

#[test]
fn a_failure_goes_out_with_its_status_and_body() {
    assert_eq!(
        response_error(418, "teapot"),
        ErrorResponse { status: 418, body: "{\"error\":\"teapot\"}".to_string() }
    );
}

#[test]
fn register_errors_map_to_statuses() {
    assert_eq!(RegisterError::UsernameExists.status_code(), 400);
    assert_eq!(
        RegisterError::CredentialsError(CredentialsVerifyError::BadPasswordLength).status_code(),
        400
    );
    assert_eq!(
        RegisterError::CredentialsError(CredentialsVerifyError::InvalidCharacter).status_code(),
        400
    );
    assert_eq!(RegisterError::UnknownError(Fault::InsertUser).status_code(), 500);
}

#[test]
fn register_errors_tell_the_caller_what_to_mend() {
    assert_eq!(RegisterError::UsernameExists.message(), "Username was taken");
    assert_eq!(
        RegisterError::CredentialsError(CredentialsVerifyError::BadPasswordLength).message(),
        "Password length not match the requirement: only length in the range 8-256 is acceptable"
    );
    assert_eq!(
        RegisterError::CredentialsError(CredentialsVerifyError::InvalidCharacter).message(),
        "Invalid characters found in username or password"
    );
    assert_eq!(RegisterError::UnknownError(Fault::HashPassword).message(), "Unknown error");
}

#[test]
fn register_errors_go_out_as_status_and_json() {
    assert_eq!(
        RegisterError::UsernameExists.error_response(),
        ErrorResponse { status: 400, body: "{\"error\":\"Username was taken\"}".to_string() }
    );
    assert_eq!(
        RegisterError::CredentialsError(CredentialsVerifyError::InvalidCharacter).error_response(),
        ErrorResponse {
            status: 400,
            body: "{\"error\":\"Invalid characters found in username or password\"}".to_string()
        }
    );
    assert_eq!(
        RegisterError::UnknownError(Fault::FindUser).error_response(),
        ErrorResponse { status: 500, body: "{\"error\":\"Unknown error\"}".to_string() }
    );
}

#[test]
fn register_errors_are_written_to_the_log_with_their_cause() {
    assert_eq!(RegisterError::UsernameExists.to_string(), "Username was taken");
    assert_eq!(
        RegisterError::CredentialsError(CredentialsVerifyError::BadPasswordLength).to_string(),
        "Credentials error"
    );
    assert_eq!(
        RegisterError::UnknownError(Fault::SpawnHashTask).to_string(),
        "Unknown error: Failed to spawn password hash task"
    );
}

#[test]
fn login_errors_map_to_statuses_and_messages() {
    assert_eq!(LoginError::BadCredentials.status_code(), 401);
    assert_eq!(LoginError::UnknownError(Fault::QueryUser).status_code(), 500);
    assert_eq!(LoginError::BadCredentials.message(), "Bad credentials");
    assert_eq!(LoginError::UnknownError(Fault::QueryUser).message(), "Internal Server Error");
    assert_eq!(LoginError::BadCredentials.to_string(), "Bad credentials");
    assert_eq!(
        LoginError::UnknownError(Fault::VerifyPassword).to_string(),
        "Unknown error: Failed to verify password"
    );
    assert_eq!(
        LoginError::BadCredentials.error_response(),
        ErrorResponse { status: 401, body: "{\"error\":\"Bad credentials\"}".to_string() }
    );
    assert_eq!(
        LoginError::UnknownError(Fault::GenerateToken).error_response(),
        ErrorResponse { status: 500, body: "{\"error\":\"Internal Server Error\"}".to_string() }
    );
}

#[test]
fn chat_errors_map_to_statuses_and_messages() {
    assert_eq!(CreatePMError::PeerNotFound.status_code(), 400);
    assert_eq!(CreatePMError::UnknownError(Fault::InsertChat).status_code(), 500);
    assert_eq!(CreatePMError::PeerNotFound.message(), "Peer user not found");
    assert_eq!(CreatePMError::UnknownError(Fault::InsertChat).message(), "Internal Server Error");
    assert_eq!(CreatePMError::PeerNotFound.to_string(), "Peer user not found");
    assert_eq!(
        CreatePMError::UnknownError(Fault::QueryChat).to_string(),
        "Unknown error: Failed to query exist chat"
    );
    assert_eq!(
        CreatePMError::PeerNotFound.error_response(),
        ErrorResponse { status: 400, body: "{\"error\":\"Peer user not found\"}".to_string() }
    );
    assert_eq!(
        CreatePMError::UnknownError(Fault::LoadPeer).error_response(),
        ErrorResponse { status: 500, body: "{\"error\":\"Internal Server Error\"}".to_string() }
    );
}

#[test]
fn the_cause_of_an_unknown_error_never_reaches_the_caller() {
    let faults = [
        Fault::FindUser,
        Fault::SpawnHashTask,
        Fault::HashPassword,
        Fault::InsertUser,
        Fault::GenerateToken,
        Fault::QueryUser,
        Fault::VerifyPassword,
        Fault::LoadPeer,
        Fault::QueryChat,
        Fault::InsertChat,
        Fault::UnexpectedEvent,
    ];
    for fault in faults {
        assert_eq!(
            RegisterError::UnknownError(fault).error_response().body,
            "{\"error\":\"Unknown error\"}"
        );
        assert_eq!(
            LoginError::UnknownError(fault).error_response().body,
            "{\"error\":\"Internal Server Error\"}"
        );
        assert_eq!(
            CreatePMError::UnknownError(fault).error_response().body,
            "{\"error\":\"Internal Server Error\"}"
        );
    }
}

#[test]
fn each_fault_names_the_step_that_failed() {
    assert_eq!(Fault::FindUser.context(), "Failed to find exist user");
    assert_eq!(Fault::SpawnHashTask.context(), "Failed to spawn password hash task");
    assert_eq!(Fault::HashPassword.context(), "Failed to hash password");
    assert_eq!(Fault::InsertUser.context(), "Failed to insert new user");
    assert_eq!(Fault::GenerateToken.context(), "Failed to generate token");
    assert_eq!(Fault::QueryUser.context(), "Failed to query user");
    assert_eq!(Fault::VerifyPassword.context(), "Failed to verify password");
    assert_eq!(Fault::LoadPeer.context(), "Failed to load peer user");
    assert_eq!(Fault::QueryChat.context(), "Failed to query exist chat");
    assert_eq!(Fault::InsertChat.context(), "Failed to insert chat entity");
    assert_eq!(Fault::UnexpectedEvent.context(), "Unexpected event");
    assert_eq!(unknown_error_line(Fault::InsertChat), "Unknown error: Failed to insert chat entity");
}
