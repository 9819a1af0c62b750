use sso_rs::application::{
    application_secrets_for_owner, create_application, create_application_secret,
    CreateApplicationPostParams,
};
use sso_rs::error::{AppError, ServiceError};
use sso_rs::profile::{confirm_image_upload, image_upload_status};
use sso_rs::store::{CreateImageParams, CreateUserParams, Database};

const NOW: i64 = 1_700_000_000;
const ICON: &str = "123456789012345678901234567890123456";

fn seeded() -> (Database, i32) {
    let mut db = Database::new();
    let u = db
        .insert_user(
            CreateUserParams {
                username: "owner".to_string(),
                salt: "s".to_string(),
                email: "owner@example.com".to_string(),
                nickname: "Owner".to_string(),
                password_hash: "h".to_string(),
            },
            NOW,
        )
        .unwrap();
    db.insert_image(
        CreateImageParams {
            id: ICON.to_string(),
            path: "images/icon.png".to_string(),
            user_id: u.id,
        },
        NOW,
    )
    .unwrap();
    (db, u.id)
}

fn post_params() -> CreateApplicationPostParams {
    CreateApplicationPostParams {
        name: Some("My App".to_string()),
        description: Some("a demo application".to_string()),
        homepage_url: Some("https://app.example.com/".to_string()),
        authorization_callback_url: Some("https://app.example.com/callback".to_string()),
        icon_id: Some(ICON.to_string()),
    }
}

#[test]
fn create_application_requires_uploaded_icon() {
    let (mut db, uid) = seeded();
    let r = create_application(&mut db, uid, &post_params(), NOW);
    assert!(matches!(
        r,
        Err(AppError::ServiceError(ServiceError::ImageNotFound))
    ));
    db.set_uploaded(ICON, true, NOW).unwrap();
    let id = create_application(&mut db, uid, &post_params(), NOW).unwrap();
    let app = db.find_one_application_by_id(&id).unwrap();
    assert_eq!(app.name, "My App");
    assert_eq!(app.creator_id, uid);
    // The single callback URL became the registered redirect set.
    let uris: Vec<String> = serde_json::from_str(&app.redirect_uris).unwrap();
    assert_eq!(uris, vec!["https://app.example.com/callback".to_string()]);
    let grants: Vec<String> = serde_json::from_str(&app.grant_types).unwrap();
    assert_eq!(grants, vec!["authorization_code".to_string()]);
}

#[test]
fn create_application_rejects_bad_urls() {
    let (mut db, uid) = seeded();
    db.set_uploaded(ICON, true, NOW).unwrap();
    let mut p = post_params();
    p.homepage_url = Some("not a url".to_string());
    assert!(matches!(
        create_application(&mut db, uid, &p, NOW),
        Err(AppError::ValidationError)
    ));
    let mut p2 = post_params();
    p2.icon_id = Some("short".to_string());
    assert!(matches!(
        create_application(&mut db, uid, &p2, NOW),
        Err(AppError::ValidationError)
    ));
    assert!(db.applications.is_empty());
}

#[test]
fn secret_listing_is_owner_only_and_masked() {
    let (mut db, uid) = seeded();
    db.set_uploaded(ICON, true, NOW).unwrap();
    let app_id = create_application(&mut db, uid, &post_params(), NOW).unwrap();
    let created = create_application_secret(&mut db, uid, &app_id, NOW).unwrap();
    assert_eq!(created.app_id, app_id);
    assert_eq!(created.secret.len(), 36);

    let listed = application_secrets_for_owner(&db, uid, &app_id).unwrap();
    assert_eq!(listed.len(), 1);
    assert_eq!(listed[0].id, created.id);
    let expected_mask = format!("{}****", &created.secret[..8]);
    assert_eq!(listed[0].secret, expected_mask);

    assert!(matches!(
        application_secrets_for_owner(&db, uid + 1, &app_id),
        Err(AppError::ServiceError(ServiceError::PermissionDenied))
    ));
    assert!(matches!(
        application_secrets_for_owner(&db, uid, "missing"),
        Err(AppError::ServiceError(ServiceError::NotFound))
    ));
    assert!(matches!(
        create_application_secret(&mut db, uid + 1, &app_id, NOW),
        Err(AppError::ServiceError(ServiceError::PermissionDenied))
    ));
}

#[test]
fn image_confirmation_follows_the_object_store() {
    let (mut db, uid) = seeded();
    assert_eq!(image_upload_status(&db, uid, ICON), Ok(false));
    assert!(matches!(
        image_upload_status(&db, uid + 1, ICON),
        Err(AppError::ServiceError(ServiceError::PermissionDenied))
    ));
    assert!(matches!(
        image_upload_status(&db, uid, "missing"),
        Err(AppError::ServiceError(ServiceError::NotFound))
    ));

    // The object is not in the store yet: nothing changes.
    let r = confirm_image_upload(&mut db, uid, ICON, false, NOW);
    assert!(matches!(
        r,
        Err(AppError::ServiceError(ServiceError::NotFound))
    ));
    assert_eq!(image_upload_status(&db, uid, ICON), Ok(false));

    // The object appeared: the row is marked, and confirming again is a no-op.
    confirm_image_upload(&mut db, uid, ICON, true, NOW + 1).unwrap();
    assert_eq!(image_upload_status(&db, uid, ICON), Ok(true));
    confirm_image_upload(&mut db, uid, ICON, false, NOW + 2).unwrap();
    assert_eq!(db.images[0].updated_at, NOW + 1);
}
