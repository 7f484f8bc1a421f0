use quota_ledger::errors::ServiceError;
use quota_ledger::models::{ensure_admin, PermissionType, Sensor, SensorStateType, UserAccess};

#[test]
fn permission_from_char_parses_tags() {
    assert_eq!(PermissionType::from_char("u"), Some(PermissionType::User));
    assert_eq!(PermissionType::from_char("a"), Some(PermissionType::Admin));
    assert_eq!(PermissionType::from_char("x"), None);
    assert_eq!(PermissionType::from_char(""), None);
    assert_eq!(PermissionType::from_char("ua"), None);
}

#[test]
fn permission_to_char_round_trips() {
    for p in [PermissionType::User, PermissionType::Admin] {
        assert_eq!(PermissionType::from_char(p.to_char()), Some(p));
    }
    assert_eq!(PermissionType::User.to_char(), "u");
    assert_eq!(PermissionType::Admin.to_char(), "a");
}

#[test]
fn service_error_status_codes() {
    assert_eq!(
        ServiceError::InternalServerError(String::from("boom")).status_code(),
        500
    );
    assert_eq!(ServiceError::BadRequest(String::from("no")).status_code(), 400);
    assert_eq!(ServiceError::NotFound(String::from("site")).status_code(), 404);
    assert_eq!(ServiceError::Unauthorized.status_code(), 403);
    assert_eq!(ServiceError::WrongPassword.status_code(), 401);
    assert_eq!(ServiceError::LoginRequired.status_code(), 401);
    assert_eq!(
        ServiceError::AlreadyPresent(String::from("user")).status_code(),
        400
    );
    assert_eq!(ServiceError::TooManyRequests.status_code(), 429);
}

#[test]
fn only_the_admin_tag_is_admitted() {
    assert!(ensure_admin("a").is_ok());
    let err = ensure_admin("u").unwrap_err();
    assert!(matches!(err, ServiceError::Unauthorized));
    assert!(ensure_admin("z").is_err());
    assert!(ensure_admin("").is_err());
}

#[test]
fn sensor_status_follows_enabled_and_alarms() {
    let mut sensor = Sensor {
        id: 1,
        site_id: 9,
        id_cnr: None,
        name: None,
        loc_x: None,
        loc_y: None,
        enabled: true,
    };
    assert_eq!(sensor.status(0), SensorStateType::Normal);
    assert_eq!(sensor.status(2), SensorStateType::Alarm);
    sensor.enabled = false;
    assert_eq!(sensor.status(2), SensorStateType::Disabled);
}

#[test]
fn data_records_hold_their_fields() {
    let access = UserAccess { user_id: 3, site_id: 9 };
    assert_eq!(access.user_id, 3);
    assert_eq!(access.site_id, 9);
    let sensor = Sensor {
        id: 1,
        site_id: 9,
        id_cnr: None,
        name: Some(String::from("pioppo")),
        loc_x: Some(20),
        loc_y: Some(40),
        enabled: true,
    };
    assert_eq!(sensor.name.as_deref(), Some("pioppo"));
    assert!(sensor.enabled);
}
