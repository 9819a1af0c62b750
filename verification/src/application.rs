//! The application-management flows: registering an OAuth client (with its
//! uploaded icon), and listing or rotating its secrets — each guarded by the
//! creator's ownership.

use vstd::prelude::*;
use vstd::string::*;

use crate::crypto::fresh_uuid;
use crate::error::{AppError, ServiceError};
use crate::jsonlist::{encode_string_list, json_of_string_list};
use crate::store::{
    spec_find_application, spec_find_image, ApplicationSecretRecord, CreateApplicationParams,
    CreateSecretParams, Database,
};
use crate::validate::{
    mask_secret, spec_has_control_char, spec_mask_secret, spec_name_field_valid, url_is_valid,
    url_valid_of, non_control_character, validate_name_field, validate_padding_string,
    spec_has_padding,
};

verus! {

/// An application-registration request, all fields still unchecked.
pub struct CreateApplicationPostParams {
    pub name: Option<String>,
    pub description: Option<String>,
    pub homepage_url: Option<String>,
    pub authorization_callback_url: Option<String>,
    pub icon_id: Option<String>,
}

pub open spec fn spec_create_application_params_valid(p: CreateApplicationPostParams) -> bool {
    &&& p.name matches Some(n) && spec_name_field_valid(n@)
    &&& match p.description {
        Some(d) => 1 <= d@.len() <= 250 && !spec_has_control_char(d@) && !spec_has_padding(d@),
        None => true,
    }
    &&& p.homepage_url matches Some(h) && url_valid_of(h@)
    &&& p.authorization_callback_url matches Some(c) && url_valid_of(c@)
    &&& p.icon_id matches Some(i) && i@.len() == 36 && !spec_has_control_char(i@)
        && !spec_has_padding(i@)
}

pub fn validate_create_application_params(p: &CreateApplicationPostParams) -> (r: bool)
    ensures
        r == spec_create_application_params_valid(*p),
{
    let name_ok = match &p.name {
        Some(n) => validate_name_field(n.as_str()),
        None => false,
    };
    let description_ok = match &p.description {
        Some(d) => {
            let len = d.as_str().unicode_len();
            1 <= len && len <= 250 && non_control_character(d.as_str())
                && validate_padding_string(d.as_str()).is_ok()
        },
        None => true,
    };
    let homepage_ok = match &p.homepage_url {
        Some(h) => url_is_valid(h.as_str()),
        None => false,
    };
    let callback_ok = match &p.authorization_callback_url {
        Some(c) => url_is_valid(c.as_str()),
        None => false,
    };
    let icon_ok = match &p.icon_id {
        Some(i) => i.as_str().unicode_len() == 36 && non_control_character(i.as_str())
            && validate_padding_string(i.as_str()).is_ok(),
        None => false,
    };
    name_ok && description_ok && homepage_ok && callback_ok && icon_ok
}

/// The deterministic decision of application registration: the request must
/// be valid and the icon must be an already-uploaded image.
pub open spec fn spec_create_application_check(
    db: Database,
    params: CreateApplicationPostParams,
) -> Result<(), AppError> {
    if !spec_create_application_params_valid(params) {
        Err(AppError::ValidationError)
    } else {
        match spec_find_image(db.images@, params.icon_id->Some_0@) {
            Some(img) => if img.uploaded {
                Ok(())
            } else {
                Err(AppError::ServiceError(ServiceError::ImageNotFound))
            },
            None => Err(AppError::ServiceError(ServiceError::ImageNotFound)),
        }
    }
}

/// Registers an OAuth client for the caller: the single callback URL is
/// recorded as the JSON-encoded registered redirect set, and the only
/// permitted grant is the authorization-code grant. The client id is a
/// fresh unguessable identifier. On failure the store is unchanged.
pub fn create_application(
    db: &mut Database,
    user_id: i32,
    params: &CreateApplicationPostParams,
    now: i64,
) -> (r: Result<String, AppError>)
    requires
        old(db).wf(),
    ensures
        final(db).wf(),
        final(db).users == old(db).users,
        final(db).images == old(db).images,
        final(db).application_secrets == old(db).application_secrets,
        final(db).authorization_codes == old(db).authorization_codes,
        final(db).tokens == old(db).tokens,
        r matches Err(e) ==> *final(db) == *old(db) && ({
            ||| spec_create_application_check(*old(db), *params) == Err::<(), AppError>(e)
            ||| ((e == AppError::JsonError || e == AppError::DatabaseError)
                && spec_create_application_check(*old(db), *params) is Ok)
        }),
        r matches Ok(id) ==> ({
            &&& spec_create_application_check(*old(db), *params) is Ok
            &&& final(db).applications@.len() == old(db).applications@.len() + 1
            &&& final(db).applications@ =~= old(db).applications@.push(
                final(db).applications@.last(),
            )
            &&& ({
                let app = final(db).applications@.last();
                &&& app.id == id
                &&& spec_find_application(old(db).applications@, app.id@) is None
                &&& app.name == params.name->Some_0
                &&& app.icon_id == params.icon_id->Some_0
                &&& app.description == params.description
                &&& app.homepage_url == params.homepage_url->Some_0
                &&& app.redirect_uris@ == json_of_string_list(
                    seq![params.authorization_callback_url->Some_0@],
                )
                &&& app.grant_types@ == json_of_string_list(seq!["authorization_code"@])
                &&& app.creator_id == user_id
                &&& app.created_at == now
            })
        }),
{
    if !validate_create_application_params(params) {
        return Err(AppError::ValidationError);
    }
    let icon_id: &String = match &params.icon_id {
        Some(i) => i,
        None => {
            proof {
                assert(false);
            }
            return Err(AppError::ValidationError);
        },
    };
    let uploaded: bool = match db.find_one_image_by_id(icon_id.as_str()) {
        Some(img) => img.uploaded,
        None => false,
    };
    if !uploaded {
        return Err(AppError::ServiceError(ServiceError::ImageNotFound));
    }
    let name: &String = match &params.name {
        Some(n) => n,
        None => {
            proof {
                assert(false);
            }
            return Err(AppError::ValidationError);
        },
    };
    let homepage_url: &String = match &params.homepage_url {
        Some(h) => h,
        None => {
            proof {
                assert(false);
            }
            return Err(AppError::ValidationError);
        },
    };
    let callback: &String = match &params.authorization_callback_url {
        Some(c) => c,
        None => {
            proof {
                assert(false);
            }
            return Err(AppError::ValidationError);
        },
    };
    let mut uris: Vec<String> = Vec::new();
    uris.push(callback.clone());
    let redirect_uris: String = match encode_string_list(&uris) {
        Some(s) => s,
        None => {
            return Err(AppError::JsonError);
        },
    };
    let mut grants: Vec<String> = Vec::new();
    grants.push("authorization_code".to_owned());
    let grant_types: String = match encode_string_list(&grants) {
        Some(s) => s,
        None => {
            return Err(AppError::JsonError);
        },
    };
    proof {
        assert(uris.deep_view() =~= seq![params.authorization_callback_url->Some_0@]);
        assert(grants.deep_view() =~= seq!["authorization_code"@]);
    }
    let id = fresh_uuid();
    let description: Option<String> = match &params.description {
        Some(d) => Some(d.clone()),
        None => None,
    };
    match db.insert_application(
        CreateApplicationParams {
            id: id.clone(),
            name: name.clone(),
            icon_id: icon_id.clone(),
            description,
            homepage_url: homepage_url.clone(),
            redirect_uris,
            grant_types,
            creator_id: user_id,
        },
        now,
    ) {
        Ok(()) => Ok(id),
        Err(()) => Err(AppError::DatabaseError),
    }
}

/// One secret of a listing: the row id, the masked value, and when it was
/// created.
pub struct MaskedSecret {
    pub id: i32,
    pub secret: String,
    pub created_at: i64,
}

/// The ownership decision all per-application secret endpoints share: the
/// application must exist and belong to the caller.
pub open spec fn spec_application_owner_check(
    db: Database,
    user_id: i32,
    application_id: Seq<char>,
) -> Result<(), AppError> {
    match spec_find_application(db.applications@, application_id) {
        None => Err(AppError::ServiceError(ServiceError::NotFound)),
        Some(app) => if app.creator_id != user_id {
            Err(AppError::ServiceError(ServiceError::PermissionDenied))
        } else {
            Ok(())
        },
    }
}

/// Lists the application's secrets for its owner, masked for display. A
/// missing application fails with `NotFound`; someone else's application
/// with `PermissionDenied`.
pub fn application_secrets_for_owner(db: &Database, user_id: i32, application_id: &str) -> (r:
    Result<Vec<MaskedSecret>, AppError>)
    ensures
        match r {
            Ok(v) => spec_application_owner_check(*db, user_id, application_id@) is Ok && ({
                let all = db.application_secrets@.filter(
                    |s: ApplicationSecretRecord| s.app_id@ == application_id@,
                );
                &&& v@.len() == all.len()
                &&& forall|i: int|
                    0 <= i < all.len() ==> (#[trigger] v@[i]).id == all[i].id && v@[i].secret@
                        == spec_mask_secret(all[i].secret@) && v@[i].created_at == all[i].created_at
            }),
            Err(e) => spec_application_owner_check(*db, user_id, application_id@) == Err::<
                (),
                AppError,
            >(e),
        },
{
    let creator_id: i32 = match db.find_one_application_by_id(application_id) {
        None => {
            return Err(AppError::ServiceError(ServiceError::NotFound));
        },
        Some(app) => app.creator_id,
    };
    if creator_id != user_id {
        return Err(AppError::ServiceError(ServiceError::PermissionDenied));
    }
    let secrets = db.get_secrets_by_application_id(application_id);
    let n = secrets.len();
    let mut out: Vec<MaskedSecret> = Vec::new();
    let mut i: usize = 0;
    while i < n
        invariant
            n == secrets@.len(),
            0 <= i <= n,
            out@.len() == i,
            forall|j: int|
                0 <= j < i ==> (#[trigger] out@[j]).id == secrets@[j].id && out@[j].secret@
                    == spec_mask_secret(secrets@[j].secret@) && out@[j].created_at
                    == secrets@[j].created_at,
        decreases n - i,
    {
        let s = &secrets[i];
        out.push(
            MaskedSecret { id: s.id, secret: mask_secret(s.secret.as_str()), created_at: s.created_at },
        );
        i = i + 1;
    }
    Ok(out)
}

/// Rotates in a fresh unguessable secret for the owner's application and
/// returns the new row, unmasked this once. The same ownership rule as the
/// listing applies; on failure the store is unchanged.
pub fn create_application_secret(
    db: &mut Database,
    user_id: i32,
    application_id: &str,
    now: i64,
) -> (r: Result<ApplicationSecretRecord, AppError>)
    requires
        old(db).wf(),
    ensures
        final(db).wf(),
        final(db).users == old(db).users,
        final(db).images == old(db).images,
        final(db).applications == old(db).applications,
        final(db).authorization_codes == old(db).authorization_codes,
        final(db).tokens == old(db).tokens,
        r matches Err(e) ==> *final(db) == *old(db) && ({
            ||| spec_application_owner_check(*old(db), user_id, application_id@) == Err::<
                (),
                AppError,
            >(e)
            ||| (e == AppError::DatabaseError && spec_application_owner_check(
                *old(db),
                user_id,
                application_id@,
            ) is Ok)
        }),
        r matches Ok(s) ==> ({
            &&& spec_application_owner_check(*old(db), user_id, application_id@) is Ok
            &&& s.app_id@ == application_id@
            &&& s.creator_id == user_id
            &&& s.created_at == now
            &&& final(db).application_secrets@ =~= old(db).application_secrets@.push(s)
        }),
{
    let creator_id: i32 = match db.find_one_application_by_id(application_id) {
        None => {
            return Err(AppError::ServiceError(ServiceError::NotFound));
        },
        Some(app) => app.creator_id,
    };
    if creator_id != user_id {
        return Err(AppError::ServiceError(ServiceError::PermissionDenied));
    }
    let secret = fresh_uuid();
    match db.create_secret_by_application_id(
        CreateSecretParams { secret, app_id: application_id.to_owned(), creator_id: user_id },
        now,
    ) {
        Ok(rec) => Ok(rec),
        Err(()) => Err(AppError::DatabaseError),
    }
}

} // verus!
