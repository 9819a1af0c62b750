//! The read and update flows around user profiles and images: resolving a
//! user row (with its avatar) to the response shapes the HTTP and RPC
//! surfaces answer with, and the ownership-checked profile update.

use vstd::prelude::*;
use vstd::string::*;

use crate::error::{AppError, ServiceError};
use crate::store::{
    spec_find_image, spec_find_user_by_id, Database, ImageRecord, UpdateUserInfoParams, UserRecord,
};
use crate::validate::{spec_name_field_valid, validate_name_field, non_control_character,
    spec_has_control_char};

verus! {

/// What `GET /api/user` answers with.
pub struct UserProfile {
    pub id: i32,
    pub username: String,
    pub email: Option<String>,
    pub face_url: Option<String>,
    pub nickname: String,
    pub self_info: Option<String>,
}

/// What the user-lookup RPC answers with, one entry per found user.
pub struct RpcUser {
    pub id: i32,
    pub username: String,
    pub face_url: String,
    pub self_info: String,
    pub nickname: String,
}

fn clone_opt_string(s: &Option<String>) -> (r: Option<String>)
    ensures
        r == *s,
{
    match s {
        Some(x) => Some(x.clone()),
        None => None,
    }
}

/// The avatar URL for a stored image path: the CDN base followed by the
/// path.
pub open spec fn spec_face_url(cdn_base: Seq<char>, path: Seq<char>) -> Seq<char> {
    cdn_base + path
}

/// Builds the profile response for a user row, with the avatar URL derived
/// from the joined image row when there is one.
pub fn build_user_profile(u: &UserRecord, face_path: Option<&String>, cdn_base: &str) -> (r:
    UserProfile)
    ensures
        r.id == u.id,
        r.username == u.username,
        r.email == u.email,
        r.nickname == u.nickname,
        r.self_info == u.self_info,
        match face_path {
            Some(p) => r.face_url matches Some(f) && f@ == spec_face_url(cdn_base@, p@),
            None => r.face_url is None,
        },
{
    let face_url: Option<String> = match face_path {
        Some(p) => {
            let mut s = cdn_base.to_owned();
            s.append(p.as_str());
            Some(s)
        },
        None => None,
    };
    UserProfile {
        id: u.id,
        username: u.username.clone(),
        email: clone_opt_string(&u.email),
        face_url,
        nickname: u.nickname.clone(),
        self_info: clone_opt_string(&u.self_info),
    }
}

/// Builds the RPC summary for a user row: missing avatar and missing
/// self-description become empty strings.
pub fn build_rpc_user(u: &UserRecord, face_path: Option<&String>, cdn_base: &str) -> (r: RpcUser)
    ensures
        r.id == u.id,
        r.username == u.username,
        r.nickname == u.nickname,
        match face_path {
            Some(p) => r.face_url@ == spec_face_url(cdn_base@, p@),
            None => r.face_url@ =~= Seq::<char>::empty(),
        },
        match u.self_info {
            Some(si) => r.self_info == si,
            None => r.self_info@ =~= Seq::<char>::empty(),
        },
{
    let face_url: String = match face_path {
        Some(p) => {
            let mut s = cdn_base.to_owned();
            s.append(p.as_str());
            s
        },
        None => String::new(),
    };
    let self_info: String = match &u.self_info {
        Some(si) => si.clone(),
        None => String::new(),
    };
    RpcUser {
        id: u.id,
        username: u.username.clone(),
        face_url,
        self_info,
        nickname: u.nickname.clone(),
    }
}

/// The object path an image upload reserves: `images/<id>.<type>`.
pub open spec fn spec_image_object_path(id: Seq<char>, image_type: Seq<char>) -> Seq<char> {
    "images/"@ + id + "."@ + image_type
}

/// Builds the object path for a fresh image id and its declared type.
pub fn image_object_path(id: &str, image_type: &str) -> (r: String)
    ensures
        r@ == spec_image_object_path(id@, image_type@),
{
    let mut s = String::from_str("images/");
    s.append(id);
    s.append(".");
    s.append(image_type);
    s
}

/// A profile-update request, all fields still unchecked.
pub struct PatchUserParams {
    pub nickname: Option<String>,
    pub self_info: Option<String>,
    pub face_id: Option<String>,
}

pub open spec fn spec_patch_params_valid(p: PatchUserParams) -> bool {
    &&& p.nickname matches Some(nn) && spec_name_field_valid(nn@)
    &&& p.self_info matches Some(si) && si@.len() <= 255
    &&& match p.face_id {
        Some(f) => !spec_has_control_char(f@) && f@.len() == 36,
        None => true,
    }
}

pub fn validate_patch_params(p: &PatchUserParams) -> (r: bool)
    ensures
        r == spec_patch_params_valid(*p),
{
    let nickname_ok = match &p.nickname {
        Some(nn) => validate_name_field(nn.as_str()),
        None => false,
    };
    let self_info_ok = match &p.self_info {
        Some(si) => si.as_str().unicode_len() <= 255,
        None => false,
    };
    let face_ok = match &p.face_id {
        Some(f) => non_control_character(f.as_str()) && f.as_str().unicode_len() == 36,
        None => true,
    };
    nickname_ok && self_info_ok && face_ok
}

/// The deterministic decision of a profile update: the request must be
/// valid; a referenced avatar image must exist and belong to the caller
/// (`ImageNotFound` hides which of the two failed); the user row must
/// exist.
pub open spec fn spec_patch_user_check(
    db: Database,
    user_id: i32,
    params: PatchUserParams,
) -> Result<UserRecord, AppError> {
    if !spec_patch_params_valid(params) {
        Err(AppError::ValidationError)
    } else {
        let face_ok = match params.face_id {
            Some(f) => match spec_find_image(db.images@, f@) {
                Some(img) => img.user_id == user_id,
                None => false,
            },
            None => true,
        };
        if !face_ok {
            Err(AppError::ServiceError(ServiceError::ImageNotFound))
        } else {
            match spec_find_user_by_id(db.users@, user_id) {
                None => Err(AppError::ServiceError(ServiceError::NotFound)),
                Some(u) => Ok(u),
            }
        }
    }
}

/// `PATCH /api/user`: updates the caller's nickname, self-description and,
/// when given, avatar — after checking that the avatar image exists and is
/// the caller's own. On failure the store is unchanged.
pub fn patch_user(db: &mut Database, user_id: i32, params: &PatchUserParams, now: i64) -> (r:
    Result<(), AppError>)
    requires
        old(db).wf(),
    ensures
        final(db).wf(),
        final(db).images == old(db).images,
        final(db).applications == old(db).applications,
        final(db).application_secrets == old(db).application_secrets,
        final(db).authorization_codes == old(db).authorization_codes,
        final(db).tokens == old(db).tokens,
        final(db).next_user_id == old(db).next_user_id,
        final(db).next_secret_id == old(db).next_secret_id,
        r matches Err(e) ==> *final(db) == *old(db) && spec_patch_user_check(
            *old(db),
            user_id,
            *params,
        ) == Err::<UserRecord, AppError>(e),
        r is Ok ==> ({
            &&& spec_patch_user_check(*old(db), user_id, *params) is Ok
            &&& (exists|i: int|
                0 <= i < old(db).users@.len() && old(db).users@[i].id == user_id
                    && final(db).users@ =~= old(db).users@.update(i, final(db).users@[i])
                    && crate::store::spec_profile_updated(
                    old(db).users@[i],
                    final(db).users@[i],
                    crate::store::UpdateUserInfoParams {
                        nickname: params.nickname->Some_0,
                        self_info: params.self_info->Some_0,
                        face_id: params.face_id,
                    },
                    now,
                ))
        }),
{
    if !validate_patch_params(params) {
        return Err(AppError::ValidationError);
    }
    let nickname: &String = match &params.nickname {
        Some(nn) => nn,
        None => {
            proof {
                assert(false);
            }
            return Err(AppError::ValidationError);
        },
    };
    let self_info: &String = match &params.self_info {
        Some(si) => si,
        None => {
            proof {
                assert(false);
            }
            return Err(AppError::ValidationError);
        },
    };
    match &params.face_id {
        Some(f) => {
            let owned: bool = match db.find_one_image_by_id(f.as_str()) {
                Some(img) => img.user_id == user_id,
                None => false,
            };
            if !owned {
                return Err(AppError::ServiceError(ServiceError::ImageNotFound));
            }
        },
        None => {},
    }
    db.update_user_info(
        user_id,
        UpdateUserInfoParams {
            nickname: nickname.clone(),
            self_info: self_info.clone(),
            face_id: clone_opt_string(&params.face_id),
        },
        now,
    )
}

/// The ownership decision of the image-confirmation endpoint: the image
/// must exist and belong to the caller; `Ok` carries whether it is already
/// marked uploaded.
pub open spec fn spec_image_upload_status(
    db: Database,
    user_id: i32,
    image_id: Seq<char>,
) -> Result<bool, AppError> {
    match spec_find_image(db.images@, image_id) {
        None => Err(AppError::ServiceError(ServiceError::NotFound)),
        Some(img) => if img.user_id != user_id {
            Err(AppError::ServiceError(ServiceError::PermissionDenied))
        } else {
            Ok(img.uploaded)
        },
    }
}

/// Checks that the image exists and is the caller's own, and reports
/// whether it is already marked uploaded — in which case confirming again
/// is a no-op and no storage lookup is needed.
pub fn image_upload_status(db: &Database, user_id: i32, image_id: &str) -> (r: Result<
    bool,
    AppError,
>)
    ensures
        r == spec_image_upload_status(*db, user_id, image_id@),
{
    match db.find_one_image_by_id(image_id) {
        None => Err(AppError::ServiceError(ServiceError::NotFound)),
        Some(img) => if img.user_id != user_id {
            Err(AppError::ServiceError(ServiceError::PermissionDenied))
        } else {
            Ok(img.uploaded)
        },
    }
}

/// Confirms an upload after the object store has been asked for the object:
/// `object_found` is that lookup's outcome. The same ownership rule as
/// `image_upload_status` applies; a missing object fails with `NotFound`
/// and changes nothing; otherwise the row is marked uploaded.
pub fn confirm_image_upload(
    db: &mut Database,
    user_id: i32,
    image_id: &str,
    object_found: bool,
    now: i64,
) -> (r: Result<(), AppError>)
    requires
        old(db).wf(),
    ensures
        final(db).wf(),
        final(db).users == old(db).users,
        final(db).applications == old(db).applications,
        final(db).application_secrets == old(db).application_secrets,
        final(db).authorization_codes == old(db).authorization_codes,
        final(db).tokens == old(db).tokens,
        r matches Err(e) ==> *final(db) == *old(db) && ({
            ||| spec_image_upload_status(*old(db), user_id, image_id@) == Err::<bool, AppError>(e)
            ||| (e == AppError::ServiceError(ServiceError::NotFound) && !object_found
                && spec_image_upload_status(*old(db), user_id, image_id@) == Ok::<bool, AppError>(
                false,
            ))
        }),
        r is Ok ==> ({
            ||| (spec_image_upload_status(*old(db), user_id, image_id@) == Ok::<bool, AppError>(
                true,
            ) && *final(db) == *old(db))
            ||| (spec_image_upload_status(*old(db), user_id, image_id@) == Ok::<bool, AppError>(
                false,
            ) && object_found && (exists|i: int|
                0 <= i < old(db).images@.len() && old(db).images@[i].id@ == image_id@
                    && final(db).images@ =~= old(db).images@.update(i, final(db).images@[i])
                    && crate::store::spec_image_marked(
                    old(db).images@[i],
                    final(db).images@[i],
                    true,
                    now,
                )))
        }),
{
    let already: bool = match image_upload_status(db, user_id, image_id) {
        Ok(b) => b,
        Err(e) => {
            return Err(e);
        },
    };
    if already {
        return Ok(());
    }
    if !object_found {
        return Err(AppError::ServiceError(ServiceError::NotFound));
    }
    match db.set_uploaded(image_id, true, now) {
        Ok(()) => Ok(()),
        Err(()) => {
            proof {
                assert(false);
            }
            Err(AppError::DatabaseError)
        },
    }
}

/// An image-upload request: the declared file type.
pub struct PostImageParams {
    pub image_type: Option<String>,
}

/// What a granted upload hands back to the client: the reserved row and the
/// object path to upload to.
pub struct ImageUploadGrant {
    pub image_id: String,
    pub image_path: String,
}

/// Reserves an image row for an upload: the type must be a supported image
/// type, the id is a fresh unguessable identifier, and the object path is
/// derived from both. On failure the store is unchanged.
pub fn post_image(db: &mut Database, user_id: i32, params: &PostImageParams, now: i64) -> (r:
    Result<ImageUploadGrant, AppError>)
    requires
        old(db).wf(),
    ensures
        final(db).wf(),
        final(db).users == old(db).users,
        final(db).applications == old(db).applications,
        final(db).application_secrets == old(db).application_secrets,
        final(db).authorization_codes == old(db).authorization_codes,
        final(db).tokens == old(db).tokens,
        r matches Err(e) ==> *final(db) == *old(db) && ({
            ||| (e == AppError::ValidationError && !(params.image_type matches Some(t)
                && crate::validate::spec_supported_image_type(t@)))
            ||| (e == AppError::DatabaseError && (params.image_type matches Some(t)
                && crate::validate::spec_supported_image_type(t@)))
        }),
        r matches Ok(g) ==> ({
            &&& params.image_type matches Some(t) && crate::validate::spec_supported_image_type(t@)
                && g.image_path@ == spec_image_object_path(g.image_id@, t@)
            &&& spec_find_image(old(db).images@, g.image_id@) is None
            &&& final(db).images@ =~= old(db).images@.push(
                crate::store::ImageRecord {
                    id: g.image_id,
                    path: g.image_path,
                    user_id,
                    uploaded: false,
                    created_at: now,
                    updated_at: now,
                },
            )
        }),
{
    let image_type: &String = match &params.image_type {
        Some(t) => t,
        None => {
            return Err(AppError::ValidationError);
        },
    };
    match crate::validate::validate_image_type(image_type.as_str()) {
        Ok(()) => {},
        Err(()) => {
            return Err(AppError::ValidationError);
        },
    }
    let id = crate::crypto::fresh_uuid();
    let path = image_object_path(id.as_str(), image_type.as_str());
    match db.insert_image(
        crate::store::CreateImageParams { id: id.clone(), path: path.clone(), user_id },
        now,
    ) {
        Ok(()) => Ok(ImageUploadGrant { image_id: id, image_path: path }),
        Err(()) => Err(AppError::DatabaseError),
    }
}

} // verus!
