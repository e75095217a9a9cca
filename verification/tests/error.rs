use b2::error::Error;

#[test]
fn messages_name_code_and_text() {
    let e = Error::Auth { code: "bad_auth_token".to_string(), message: "Invalid key".to_string() };
    assert_eq!(e.message(), "bad_auth_token - Invalid key");
    let e = Error::Api {
        code: "bad_request".to_string(),
        message: "no such bucket".to_string(),
        url: "https://api.example/b2api/v3/b2_list_file_names".to_string(),
    };
    assert_eq!(
        e.message(),
        "`https://api.example/b2api/v3/b2_list_file_names`: bad_request - no such bucket"
    );
}

#[test]
fn fixed_messages() {
    assert_eq!(Error::AuthExhausted.message(), "Unable to authorise with Backblaze.");
    assert_eq!(Error::InsufficientData.message(), "Not enough data to upload by parts");
}
