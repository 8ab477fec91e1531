use grease::admin::{ensure_member_is_webmaster, handle_request, options, AdminAction, API_FILE_NAME};

#[test]
fn preflight_requests_are_always_answered() {
    assert_eq!(handle_request(true, false, "/anything"), Ok(AdminAction::Options));
    let answer = options();
    assert_eq!(answer.status, 204);
    assert_eq!(answer.headers[0], ("Allow", "POST, OPTIONS"));
    assert_eq!(answer.headers[1], ("Access-Control-Allow-Origin", "*"));
    assert_eq!(answer.headers[3], ("Access-Control-Allow-Headers", "token,access-control-allow-origin,content-type"));
}

#[test]
fn tools_need_a_webmaster() {
    assert_eq!(ensure_member_is_webmaster(true), Ok(()));
    assert_eq!(ensure_member_is_webmaster(false), Err("You must be a webmaster to use this tool".to_owned()));
    assert_eq!(handle_request(false, false, "/migrate"), Err("You must be a webmaster to use this tool".to_owned()));
}

#[test]
fn paths_name_the_tools() {
    assert_eq!(handle_request(false, true, "/upload-api"), Ok(AdminAction::UploadApi));
    assert_eq!(handle_request(false, true, "/migrate"), Ok(AdminAction::RunMigrations));
    assert_eq!(
        handle_request(false, true, "/drop-tables"),
        Err("The requested action \"/drop-tables\" does not exist.".to_owned())
    );
    assert_eq!(API_FILE_NAME, "api");
}
