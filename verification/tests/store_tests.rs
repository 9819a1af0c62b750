use sso_rs::store::{
    AuthorizationCodeRecord, CreateApplicationParams, CreateImageParams, CreateSecretParams,
    CreateUserParams, Database, TokenRecord, UpdateUserInfoParams,
};

const NOW: i64 = 1_700_000_000;

fn user_params(name: &str) -> CreateUserParams {
    CreateUserParams {
        username: name.to_string(),
        salt: "salt".to_string(),
        email: format!("{}@example.com", name),
        nickname: name.to_string(),
        password_hash: "hash".to_string(),
    }
}

#[test]
fn user_ids_increment_and_usernames_are_unique() {
    let mut db = Database::new();
    let a = db.insert_user(user_params("a"), NOW).unwrap();
    let b = db.insert_user(user_params("b"), NOW).unwrap();
    assert_eq!(a.id, 1);
    assert_eq!(b.id, 2);
    assert!(db.insert_user(user_params("a"), NOW).is_err());
    assert_eq!(db.users.len(), 2);
    assert_eq!(db.find_one_user_by_username("b").unwrap().id, 2);
    assert!(db.find_one_user_by_username("c").is_none());
    assert_eq!(db.find_one_user_by_id(1).unwrap().username, "a");
}

#[test]
fn application_ids_are_unique() {
    let mut db = Database::new();
    let params = CreateApplicationParams {
        id: "app-1".to_string(),
        name: "App".to_string(),
        icon_id: "icon".to_string(),
        description: Some("d".to_string()),
        homepage_url: "https://example.com/".to_string(),
        redirect_uris: "[]".to_string(),
        grant_types: "[]".to_string(),
        creator_id: 1,
    };
    db.insert_application(params, NOW).unwrap();
    let again = CreateApplicationParams {
        id: "app-1".to_string(),
        name: "Other".to_string(),
        icon_id: "icon".to_string(),
        description: None,
        homepage_url: "https://example.com/".to_string(),
        redirect_uris: "[]".to_string(),
        grant_types: "[]".to_string(),
        creator_id: 1,
    };
    assert!(db.insert_application(again, NOW).is_err());
    assert_eq!(db.applications.len(), 1);
    assert!(db.find_one_application_by_id("app-1").is_some());
}

#[test]
fn secrets_list_by_application_in_insertion_order() {
    let mut db = Database::new();
    for (app, sec) in [("a", "s1"), ("b", "s2"), ("a", "s3")] {
        db.create_secret_by_application_id(
            CreateSecretParams {
                secret: sec.to_string(),
                app_id: app.to_string(),
                creator_id: 1,
            },
            NOW,
        )
        .unwrap();
    }
    let of_a = db.get_secrets_by_application_id("a");
    assert_eq!(of_a.len(), 2);
    assert_eq!(of_a[0].secret, "s1");
    assert_eq!(of_a[1].secret, "s3");
    assert_eq!(of_a[0].id, 1);
    assert_eq!(of_a[1].id, 3);
    assert!(db.client_secret_valid("a", "s3"));
    assert!(db.client_secret_valid("b", "s2"));
    assert!(!db.client_secret_valid("a", "s2"));
}

fn code_record(code: &str) -> AuthorizationCodeRecord {
    AuthorizationCodeRecord {
        code: code.to_string(),
        application_id: "app".to_string(),
        user_id: 1,
        scopes: "openid".to_string(),
        redirect_uri: "https://example.com/cb".to_string(),
        expires_at: NOW + 600,
    }
}

#[test]
fn authorization_codes_are_single_rows() {
    let mut db = Database::new();
    db.insert_authorization_code(code_record("c1")).unwrap();
    assert!(db.insert_authorization_code(code_record("c1")).is_err());
    db.insert_authorization_code(code_record("c2")).unwrap();
    assert!(db.find_authorization_code("c1").is_some());
    assert!(db.delete_authorization_code("c1"));
    assert!(db.find_authorization_code("c1").is_none());
    assert!(!db.delete_authorization_code("c1"));
    assert!(db.find_authorization_code("c2").is_some());
}

#[test]
fn token_uniqueness_covers_both_columns() {
    let mut db = Database::new();
    let t = TokenRecord {
        access_token: "at1".to_string(),
        refresh_token: "rt1".to_string(),
        application_id: "app".to_string(),
        user_id: 1,
        scopes: "openid".to_string(),
        expires_at: NOW + 3600,
    };
    db.insert_token(t).unwrap();
    let dup_access = TokenRecord {
        access_token: "at1".to_string(),
        refresh_token: "rt2".to_string(),
        application_id: "app".to_string(),
        user_id: 1,
        scopes: "openid".to_string(),
        expires_at: NOW + 3600,
    };
    assert!(db.insert_token(dup_access).is_err());
    let dup_refresh = TokenRecord {
        access_token: "at2".to_string(),
        refresh_token: "rt1".to_string(),
        application_id: "app".to_string(),
        user_id: 1,
        scopes: "openid".to_string(),
        expires_at: NOW + 3600,
    };
    assert!(db.insert_token(dup_refresh).is_err());
    assert_eq!(db.tokens.len(), 1);
    assert!(db.find_token_by_access_token("at1").is_some());
    assert!(db.find_token_by_access_token("at2").is_none());
}

#[test]
fn update_user_info_changes_only_profile_fields() {
    let mut db = Database::new();
    let u = db.insert_user(user_params("a"), NOW).unwrap();
    db.update_user_info(
        u.id,
        UpdateUserInfoParams {
            nickname: "NewNick".to_string(),
            self_info: "hello".to_string(),
            face_id: None,
        },
        NOW + 5,
    )
    .unwrap();
    let got = db.find_one_user_by_id(u.id).unwrap();
    assert_eq!(got.nickname, "NewNick");
    assert_eq!(got.self_info.as_deref(), Some("hello"));
    assert_eq!(got.username, "a");
    assert_eq!(got.face_id, None);
    assert_eq!(got.created_at, NOW);
    assert_eq!(got.updated_at, NOW + 5);
    assert!(db
        .update_user_info(
            999,
            UpdateUserInfoParams {
                nickname: "x".to_string(),
                self_info: "y".to_string(),
                face_id: None,
            },
            NOW,
        )
        .is_err());
}

#[test]
fn images_insert_and_mark_uploaded() {
    let mut db = Database::new();
    db.insert_image(
        CreateImageParams {
            id: "img-1".to_string(),
            path: "images/img-1.png".to_string(),
            user_id: 1,
        },
        NOW,
    )
    .unwrap();
    assert!(!db.find_one_image_by_id("img-1").unwrap().uploaded);
    db.set_uploaded("img-1", true, NOW + 1).unwrap();
    let img = db.find_one_image_by_id("img-1").unwrap();
    assert!(img.uploaded);
    assert_eq!(img.updated_at, NOW + 1);
    assert!(db.set_uploaded("img-2", true, NOW).is_err());
    assert!(db
        .insert_image(
            CreateImageParams {
                id: "img-1".to_string(),
                path: "other".to_string(),
                user_id: 2,
            },
            NOW,
        )
        .is_err());
}

#[test]
fn applications_filter_by_creator() {
    let mut db = Database::new();
    for (id, creator) in [("a1", 1), ("a2", 2), ("a3", 1)] {
        db.insert_application(
            CreateApplicationParams {
                id: id.to_string(),
                name: id.to_string(),
                icon_id: "i".to_string(),
                description: None,
                homepage_url: "https://example.com/".to_string(),
                redirect_uris: "[]".to_string(),
                grant_types: "[]".to_string(),
                creator_id: creator,
            },
            NOW,
        )
        .unwrap();
    }
    let mine = db.find_applications_by_user_id(1);
    assert_eq!(mine.len(), 2);
    assert_eq!(mine[0].id, "a1");
    assert_eq!(mine[1].id, "a3");
}
