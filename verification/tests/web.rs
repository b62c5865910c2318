use lib_auth::web::error::ClientError;
use lib_auth::web::handlers::{AccAdminForCreatePayload, AdminForCreatePayload};

#[test]
fn client_errors_by_name() {
    assert_eq!(ClientError::LOGIN_FAIL.as_ref(), "LOGIN_FAIL");
    assert_eq!(ClientError::NO_AUTH.as_ref(), "NO_AUTH");
    assert_eq!(
        ClientError::ENTITY_NOT_FOUND {
            entity: "tbl_admin",
            id: 7
        }
        .as_ref(),
        "ENTITY_NOT_FOUND"
    );
    assert_eq!(ClientError::SERVICE_ERROR.as_ref(), "SERVICE_ERROR");
}

#[test]
fn payloads_hold_what_was_sent() {
    let admin = AdminForCreatePayload {
        first_name: "john".to_string(),
        last_name: "doe".to_string(),
        birth_date: "1990-01-22".to_string(),
        uname: "admin01".to_string(),
        email: "admin01@email.com".to_string(),
        pwd: "admin01".to_string(),
    };
    assert_eq!(admin.birth_date, "1990-01-22");
    let acc = AccAdminForCreatePayload {
        admin_id: 1025,
        uname: admin.uname,
        email: admin.email,
    };
    assert_eq!(acc.admin_id, 1025);
    assert_eq!(acc.uname, "admin01");
    assert_eq!(acc.email, "admin01@email.com");
}
