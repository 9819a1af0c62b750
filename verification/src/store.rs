//! In-memory model of the persistence store: keyed record tables with the
//! uniqueness constraints the provider relies on (unique user ids and
//! usernames, unique application ids, unique authorization codes, unique
//! access and refresh tokens). Every lookup is specified as a first-match
//! scan, matching a `SELECT ... LIMIT 1` against the table.

use vstd::prelude::*;

verus! {

/// A registered end user. Timestamps are unix seconds.
pub struct UserRecord {
    pub id: i32,
    pub username: String,
    pub salt: String,
    pub password_hash: String,
    pub email: Option<String>,
    pub nickname: String,
    pub self_info: Option<String>,
    pub face_id: Option<String>,
    pub created_at: i64,
    pub updated_at: i64,
}

/// An uploaded image, referenced by a user's `face_id` or an application icon.
pub struct ImageRecord {
    pub id: String,
    pub path: String,
    pub user_id: i32,
    pub uploaded: bool,
    pub created_at: i64,
    pub updated_at: i64,
}

/// A registered OAuth client. `redirect_uris` and `grant_types` hold
/// JSON-encoded lists of strings, exactly as the relational column does.
pub struct ApplicationRecord {
    pub id: String,
    pub name: String,
    pub icon_id: String,
    pub description: Option<String>,
    pub homepage_url: String,
    pub redirect_uris: String,
    pub grant_types: String,
    pub creator_id: i32,
    pub created_at: i64,
    pub updated_at: i64,
}

/// A bearer credential of one application; several may coexist, and any one
/// of them authorizes the client.
pub struct ApplicationSecretRecord {
    pub id: i32,
    pub app_id: String,
    pub creator_id: i32,
    pub secret: String,
    pub created_at: i64,
    pub updated_at: i64,
}

/// A one-time authorization code, bound to the application, user, scopes and
/// the redirect URI used at issuance.
pub struct AuthorizationCodeRecord {
    pub code: String,
    pub application_id: String,
    pub user_id: i32,
    pub scopes: String,
    pub redirect_uri: String,
    pub expires_at: i64,
}

/// An issued access/refresh token pair.
pub struct TokenRecord {
    pub access_token: String,
    pub refresh_token: String,
    pub application_id: String,
    pub user_id: i32,
    pub scopes: String,
    pub expires_at: i64,
}

/// The record tables. `next_user_id` and `next_secret_id` stand for the
/// auto-increment counters of the two integer primary keys.
pub struct Database {
    pub users: Vec<UserRecord>,
    pub images: Vec<ImageRecord>,
    pub applications: Vec<ApplicationRecord>,
    pub application_secrets: Vec<ApplicationSecretRecord>,
    pub authorization_codes: Vec<AuthorizationCodeRecord>,
    pub tokens: Vec<TokenRecord>,
    pub next_user_id: i32,
    pub next_secret_id: i32,
}

// First-match scans, one per keyed lookup the provider performs.

pub open spec fn spec_find_user_by_username(s: Seq<UserRecord>, name: Seq<char>) -> Option<
    UserRecord,
>
    decreases s.len(),
{
    if s.len() == 0 {
        None
    } else if s[0].username@ == name {
        Some(s[0])
    } else {
        spec_find_user_by_username(s.drop_first(), name)
    }
}

pub open spec fn spec_find_user_by_id(s: Seq<UserRecord>, id: i32) -> Option<UserRecord>
    decreases s.len(),
{
    if s.len() == 0 {
        None
    } else if s[0].id == id {
        Some(s[0])
    } else {
        spec_find_user_by_id(s.drop_first(), id)
    }
}

pub open spec fn spec_find_application(s: Seq<ApplicationRecord>, id: Seq<char>) -> Option<
    ApplicationRecord,
>
    decreases s.len(),
{
    if s.len() == 0 {
        None
    } else if s[0].id@ == id {
        Some(s[0])
    } else {
        spec_find_application(s.drop_first(), id)
    }
}

pub open spec fn spec_find_code(s: Seq<AuthorizationCodeRecord>, code: Seq<char>) -> Option<
    AuthorizationCodeRecord,
>
    decreases s.len(),
{
    if s.len() == 0 {
        None
    } else if s[0].code@ == code {
        Some(s[0])
    } else {
        spec_find_code(s.drop_first(), code)
    }
}

pub open spec fn spec_find_token(s: Seq<TokenRecord>, access_token: Seq<char>) -> Option<
    TokenRecord,
>
    decreases s.len(),
{
    if s.len() == 0 {
        None
    } else if s[0].access_token@ == access_token {
        Some(s[0])
    } else {
        spec_find_token(s.drop_first(), access_token)
    }
}

pub open spec fn spec_find_image(s: Seq<ImageRecord>, id: Seq<char>) -> Option<ImageRecord>
    decreases s.len(),
{
    if s.len() == 0 {
        None
    } else if s[0].id@ == id {
        Some(s[0])
    } else {
        spec_find_image(s.drop_first(), id)
    }
}

// Membership predicates over the keyed columns.

pub open spec fn spec_user_present(s: Seq<UserRecord>, name: Seq<char>) -> bool {
    exists|i: int| 0 <= i < s.len() && s[i].username@ == name
}

pub open spec fn spec_code_present(s: Seq<AuthorizationCodeRecord>, code: Seq<char>) -> bool {
    exists|i: int| 0 <= i < s.len() && s[i].code@ == code
}

pub open spec fn spec_access_token_present(s: Seq<TokenRecord>, t: Seq<char>) -> bool {
    exists|i: int| 0 <= i < s.len() && s[i].access_token@ == t
}

pub open spec fn spec_refresh_token_present(s: Seq<TokenRecord>, t: Seq<char>) -> bool {
    exists|i: int| 0 <= i < s.len() && s[i].refresh_token@ == t
}

/// Whether `secret` is one of the registered secrets of application `app_id`.
pub open spec fn spec_secret_matches(
    s: Seq<ApplicationSecretRecord>,
    app_id: Seq<char>,
    secret: Seq<char>,
) -> bool {
    exists|i: int| 0 <= i < s.len() && s[i].app_id@ == app_id && s[i].secret@ == secret
}

impl Database {
    /// The uniqueness constraints of the relational schema.
    pub open spec fn wf(self) -> bool {
        &&& forall|i: int, j: int|
            0 <= i < j < self.users@.len() ==> self.users@[i].id != self.users@[j].id
                && self.users@[i].username@ != self.users@[j].username@
        &&& forall|i: int|
            0 <= i < self.users@.len() ==> #[trigger] self.users@[i].id < self.next_user_id
        &&& forall|i: int, j: int|
            0 <= i < j < self.applications@.len() ==> self.applications@[i].id@
                != self.applications@[j].id@
        &&& forall|i: int, j: int|
            0 <= i < j < self.application_secrets@.len() ==> self.application_secrets@[i].id
                != self.application_secrets@[j].id
        &&& forall|i: int|
            0 <= i < self.application_secrets@.len() ==> #[trigger] self.application_secrets@[i].id
                < self.next_secret_id
        &&& forall|i: int, j: int|
            0 <= i < j < self.authorization_codes@.len() ==> self.authorization_codes@[i].code@
                != self.authorization_codes@[j].code@
        &&& forall|i: int, j: int|
            0 <= i < j < self.tokens@.len() ==> self.tokens@[i].access_token@
                != self.tokens@[j].access_token@ && self.tokens@[i].refresh_token@
                != self.tokens@[j].refresh_token@
        &&& forall|i: int, j: int|
            0 <= i < j < self.images@.len() ==> self.images@[i].id@ != self.images@[j].id@
    }

    /// An empty store, as a fresh deployment starts with.
    pub fn new() -> (r: Database)
        ensures
            r.wf(),
            r.users@ =~= Seq::<UserRecord>::empty(),
            r.images@ =~= Seq::<ImageRecord>::empty(),
            r.applications@ =~= Seq::<ApplicationRecord>::empty(),
            r.application_secrets@ =~= Seq::<ApplicationSecretRecord>::empty(),
            r.authorization_codes@ =~= Seq::<AuthorizationCodeRecord>::empty(),
            r.tokens@ =~= Seq::<TokenRecord>::empty(),
            r.next_user_id == 1,
            r.next_secret_id == 1,
    {
        Database {
            users: Vec::new(),
            images: Vec::new(),
            applications: Vec::new(),
            application_secrets: Vec::new(),
            authorization_codes: Vec::new(),
            tokens: Vec::new(),
            next_user_id: 1,
            next_secret_id: 1,
        }
    }

    pub fn find_one_user_by_username(&self, username: &str) -> (r: Option<&UserRecord>)
        ensures
            match r {
                Some(u) => spec_find_user_by_username(self.users@, username@) == Some(*u),
                None => spec_find_user_by_username(self.users@, username@) is None,
            },
    {
        let n = self.users.len();
        let mut i: usize = 0;
        proof {
            assert(self.users@.skip(0) =~= self.users@);
        }
        while i < n
            invariant
                n == self.users@.len(),
                0 <= i <= n,
                spec_find_user_by_username(self.users@, username@) == spec_find_user_by_username(
                    self.users@.skip(i as int),
                    username@,
                ),
            decreases n - i,
        {
            let u = &self.users[i];
            proof {
                assert(self.users@.skip(i as int)[0] == self.users@[i as int]);
                assert(self.users@.skip(i as int).drop_first() =~= self.users@.skip(i as int + 1));
            }
            if u.username.as_str().eq(username) {
                return Some(u);
            }
            i = i + 1;
        }
        proof {
            assert(self.users@.skip(n as int) =~= Seq::<UserRecord>::empty());
        }
        None
    }

    pub fn find_one_user_by_id(&self, id: i32) -> (r: Option<&UserRecord>)
        ensures
            match r {
                Some(u) => spec_find_user_by_id(self.users@, id) == Some(*u),
                None => spec_find_user_by_id(self.users@, id) is None,
            },
    {
        let n = self.users.len();
        let mut i: usize = 0;
        proof {
            assert(self.users@.skip(0) =~= self.users@);
        }
        while i < n
            invariant
                n == self.users@.len(),
                0 <= i <= n,
                spec_find_user_by_id(self.users@, id) == spec_find_user_by_id(
                    self.users@.skip(i as int),
                    id,
                ),
            decreases n - i,
        {
            let u = &self.users[i];
            proof {
                assert(self.users@.skip(i as int)[0] == self.users@[i as int]);
                assert(self.users@.skip(i as int).drop_first() =~= self.users@.skip(i as int + 1));
            }
            if u.id == id {
                return Some(u);
            }
            i = i + 1;
        }
        proof {
            assert(self.users@.skip(n as int) =~= Seq::<UserRecord>::empty());
        }
        None
    }
}

impl Database {
    pub fn find_one_application_by_id(&self, id: &str) -> (r: Option<&ApplicationRecord>)
        ensures
            match r {
                Some(a) => spec_find_application(self.applications@, id@) == Some(*a),
                None => spec_find_application(self.applications@, id@) is None,
            },
    {
        let n = self.applications.len();
        let mut i: usize = 0;
        proof {
            assert(self.applications@.skip(0) =~= self.applications@);
        }
        while i < n
            invariant
                n == self.applications@.len(),
                0 <= i <= n,
                spec_find_application(self.applications@, id@) == spec_find_application(
                    self.applications@.skip(i as int),
                    id@,
                ),
            decreases n - i,
        {
            let a = &self.applications[i];
            proof {
                assert(self.applications@.skip(i as int)[0] == self.applications@[i as int]);
                assert(self.applications@.skip(i as int).drop_first() =~= self.applications@.skip(
                    i as int + 1,
                ));
            }
            if a.id.as_str().eq(id) {
                return Some(a);
            }
            i = i + 1;
        }
        proof {
            assert(self.applications@.skip(n as int) =~= Seq::<ApplicationRecord>::empty());
        }
        None
    }

    pub fn find_one_image_by_id(&self, id: &str) -> (r: Option<&ImageRecord>)
        ensures
            match r {
                Some(m) => spec_find_image(self.images@, id@) == Some(*m),
                None => spec_find_image(self.images@, id@) is None,
            },
    {
        let n = self.images.len();
        let mut i: usize = 0;
        proof {
            assert(self.images@.skip(0) =~= self.images@);
        }
        while i < n
            invariant
                n == self.images@.len(),
                0 <= i <= n,
                spec_find_image(self.images@, id@) == spec_find_image(
                    self.images@.skip(i as int),
                    id@,
                ),
            decreases n - i,
        {
            let m = &self.images[i];
            proof {
                assert(self.images@.skip(i as int)[0] == self.images@[i as int]);
                assert(self.images@.skip(i as int).drop_first() =~= self.images@.skip(i as int + 1));
            }
            if m.id.as_str().eq(id) {
                return Some(m);
            }
            i = i + 1;
        }
        proof {
            assert(self.images@.skip(n as int) =~= Seq::<ImageRecord>::empty());
        }
        None
    }

    pub fn find_authorization_code(&self, code: &str) -> (r: Option<&AuthorizationCodeRecord>)
        ensures
            match r {
                Some(c) => spec_find_code(self.authorization_codes@, code@) == Some(*c),
                None => spec_find_code(self.authorization_codes@, code@) is None,
            },
    {
        let n = self.authorization_codes.len();
        let mut i: usize = 0;
        proof {
            assert(self.authorization_codes@.skip(0) =~= self.authorization_codes@);
        }
        while i < n
            invariant
                n == self.authorization_codes@.len(),
                0 <= i <= n,
                spec_find_code(self.authorization_codes@, code@) == spec_find_code(
                    self.authorization_codes@.skip(i as int),
                    code@,
                ),
            decreases n - i,
        {
            let c = &self.authorization_codes[i];
            proof {
                assert(self.authorization_codes@.skip(i as int)[0] == self.authorization_codes@[
                    i as int
                ]);
                assert(self.authorization_codes@.skip(i as int).drop_first()
                    =~= self.authorization_codes@.skip(i as int + 1));
            }
            if c.code.as_str().eq(code) {
                return Some(c);
            }
            i = i + 1;
        }
        proof {
            assert(self.authorization_codes@.skip(n as int) =~= Seq::<
                AuthorizationCodeRecord,
            >::empty());
        }
        None
    }

    pub fn find_token_by_access_token(&self, access_token: &str) -> (r: Option<&TokenRecord>)
        ensures
            match r {
                Some(t) => spec_find_token(self.tokens@, access_token@) == Some(*t),
                None => spec_find_token(self.tokens@, access_token@) is None,
            },
    {
        let n = self.tokens.len();
        let mut i: usize = 0;
        proof {
            assert(self.tokens@.skip(0) =~= self.tokens@);
        }
        while i < n
            invariant
                n == self.tokens@.len(),
                0 <= i <= n,
                spec_find_token(self.tokens@, access_token@) == spec_find_token(
                    self.tokens@.skip(i as int),
                    access_token@,
                ),
            decreases n - i,
        {
            let t = &self.tokens[i];
            proof {
                assert(self.tokens@.skip(i as int)[0] == self.tokens@[i as int]);
                assert(self.tokens@.skip(i as int).drop_first() =~= self.tokens@.skip(i as int + 1));
            }
            if t.access_token.as_str().eq(access_token) {
                return Some(t);
            }
            i = i + 1;
        }
        proof {
            assert(self.tokens@.skip(n as int) =~= Seq::<TokenRecord>::empty());
        }
        None
    }

    /// Whether `secret` is a registered secret of application `app_id`:
    /// any one of possibly several coexisting secrets authorizes the client.
    pub fn client_secret_valid(&self, app_id: &str, secret: &str) -> (r: bool)
        ensures
            r == spec_secret_matches(self.application_secrets@, app_id@, secret@),
    {
        let n = self.application_secrets.len();
        let mut i: usize = 0;
        while i < n
            invariant
                n == self.application_secrets@.len(),
                0 <= i <= n,
                forall|j: int|
                    0 <= j < i ==> !(self.application_secrets@[j].app_id@ == app_id@
                        && self.application_secrets@[j].secret@ == secret@),
            decreases n - i,
        {
            let s = &self.application_secrets[i];
            if s.app_id.as_str().eq(app_id) && s.secret.as_str().eq(secret) {
                return true;
            }
            i = i + 1;
        }
        false
    }

    pub fn user_present(&self, username: &str) -> (r: bool)
        ensures
            r == spec_user_present(self.users@, username@),
    {
        let n = self.users.len();
        let mut i: usize = 0;
        while i < n
            invariant
                n == self.users@.len(),
                0 <= i <= n,
                forall|j: int| 0 <= j < i ==> self.users@[j].username@ != username@,
            decreases n - i,
        {
            if self.users[i].username.as_str().eq(username) {
                return true;
            }
            i = i + 1;
        }
        false
    }

    pub fn code_present(&self, code: &str) -> (r: bool)
        ensures
            r == spec_code_present(self.authorization_codes@, code@),
    {
        let n = self.authorization_codes.len();
        let mut i: usize = 0;
        while i < n
            invariant
                n == self.authorization_codes@.len(),
                0 <= i <= n,
                forall|j: int| 0 <= j < i ==> self.authorization_codes@[j].code@ != code@,
            decreases n - i,
        {
            if self.authorization_codes[i].code.as_str().eq(code) {
                return true;
            }
            i = i + 1;
        }
        false
    }

    pub fn access_token_present(&self, t: &str) -> (r: bool)
        ensures
            r == spec_access_token_present(self.tokens@, t@),
    {
        let n = self.tokens.len();
        let mut i: usize = 0;
        while i < n
            invariant
                n == self.tokens@.len(),
                0 <= i <= n,
                forall|j: int| 0 <= j < i ==> self.tokens@[j].access_token@ != t@,
            decreases n - i,
        {
            if self.tokens[i].access_token.as_str().eq(t) {
                return true;
            }
            i = i + 1;
        }
        false
    }

    pub fn refresh_token_present(&self, t: &str) -> (r: bool)
        ensures
            r == spec_refresh_token_present(self.tokens@, t@),
    {
        let n = self.tokens.len();
        let mut i: usize = 0;
        while i < n
            invariant
                n == self.tokens@.len(),
                0 <= i <= n,
                forall|j: int| 0 <= j < i ==> self.tokens@[j].refresh_token@ != t@,
            decreases n - i,
        {
            if self.tokens[i].refresh_token.as_str().eq(t) {
                return true;
            }
            i = i + 1;
        }
        false
    }

    pub fn application_present(&self, id: &str) -> (r: bool)
        ensures
            r == exists|i: int|
                0 <= i < self.applications@.len() && self.applications@[i].id@ == id@,
    {
        let n = self.applications.len();
        let mut i: usize = 0;
        while i < n
            invariant
                n == self.applications@.len(),
                0 <= i <= n,
                forall|j: int| 0 <= j < i ==> self.applications@[j].id@ != id@,
            decreases n - i,
        {
            if self.applications[i].id.as_str().eq(id) {
                return true;
            }
            i = i + 1;
        }
        false
    }

    pub fn image_present(&self, id: &str) -> (r: bool)
        ensures
            r == exists|i: int| 0 <= i < self.images@.len() && self.images@[i].id@ == id@,
    {
        let n = self.images.len();
        let mut i: usize = 0;
        while i < n
            invariant
                n == self.images@.len(),
                0 <= i <= n,
                forall|j: int| 0 <= j < i ==> self.images@[j].id@ != id@,
            decreases n - i,
        {
            if self.images[i].id.as_str().eq(id) {
                return true;
            }
            i = i + 1;
        }
        false
    }
}

/// What a registration inserts into the user table.
pub struct CreateUserParams {
    pub username: String,
    pub salt: String,
    pub email: String,
    pub nickname: String,
    pub password_hash: String,
}

/// What a profile update changes on a user row.
pub struct UpdateUserInfoParams {
    pub nickname: String,
    pub self_info: String,
    pub face_id: Option<String>,
}

/// What an application registration inserts. `redirect_uris` and
/// `grant_types` are already JSON-encoded lists.
pub struct CreateApplicationParams {
    pub id: String,
    pub name: String,
    pub icon_id: String,
    pub description: Option<String>,
    pub homepage_url: String,
    pub redirect_uris: String,
    pub grant_types: String,
    pub creator_id: i32,
}

/// What a metadata update changes on an application row.
pub struct UpdateApplicationParams {
    pub name: String,
    pub icon_id: String,
    pub description: Option<String>,
    pub homepage_url: String,
    pub redirect_uris: String,
}

/// What a secret rotation inserts for an application.
pub struct CreateSecretParams {
    pub secret: String,
    pub app_id: String,
    pub creator_id: i32,
}

/// What an image upload reserves in the image table.
pub struct CreateImageParams {
    pub id: String,
    pub path: String,
    pub user_id: i32,
}

fn clone_opt_string(s: &Option<String>) -> (r: Option<String>)
    ensures
        r == *s,
{
    match s {
        Some(x) => Some(x.clone()),
        None => None,
    }
}

fn clone_user_record(u: &UserRecord) -> (r: UserRecord)
    ensures
        r == *u,
{
    UserRecord {
        id: u.id,
        username: u.username.clone(),
        salt: u.salt.clone(),
        password_hash: u.password_hash.clone(),
        email: clone_opt_string(&u.email),
        nickname: u.nickname.clone(),
        self_info: clone_opt_string(&u.self_info),
        face_id: clone_opt_string(&u.face_id),
        created_at: u.created_at,
        updated_at: u.updated_at,
    }
}

fn clone_secret_record(s: &ApplicationSecretRecord) -> (r: ApplicationSecretRecord)
    ensures
        r == *s,
{
    ApplicationSecretRecord {
        id: s.id,
        app_id: s.app_id.clone(),
        creator_id: s.creator_id,
        secret: s.secret.clone(),
        created_at: s.created_at,
        updated_at: s.updated_at,
    }
}

fn clone_application_record(a: &ApplicationRecord) -> (r: ApplicationRecord)
    ensures
        r == *a,
{
    ApplicationRecord {
        id: a.id.clone(),
        name: a.name.clone(),
        icon_id: a.icon_id.clone(),
        description: clone_opt_string(&a.description),
        homepage_url: a.homepage_url.clone(),
        redirect_uris: a.redirect_uris.clone(),
        grant_types: a.grant_types.clone(),
        creator_id: a.creator_id,
        created_at: a.created_at,
        updated_at: a.updated_at,
    }
}

impl Database {
    /// Inserts a fresh user row under the next free id. Fails exactly when
    /// the username is taken (the unique-column constraint) or the id space
    /// is exhausted; a failure leaves the store unchanged.
    pub fn insert_user(&mut self, params: CreateUserParams, now: i64) -> (r: Result<
        UserRecord,
        (),
    >)
        requires
            old(self).wf(),
        ensures
            final(self).wf(),
            final(self).images == old(self).images,
            final(self).applications == old(self).applications,
            final(self).application_secrets == old(self).application_secrets,
            final(self).authorization_codes == old(self).authorization_codes,
            final(self).tokens == old(self).tokens,
            final(self).next_secret_id == old(self).next_secret_id,
            r is Ok <==> !spec_user_present(old(self).users@, params.username@) && old(
                self,
            ).next_user_id < i32::MAX,
            r matches Ok(u) ==> {
                &&& u.id == old(self).next_user_id
                &&& u.username == params.username
                &&& u.salt == params.salt
                &&& u.password_hash == params.password_hash
                &&& u.email == Some(params.email)
                &&& u.nickname == params.nickname
                &&& u.self_info matches Some(si) && si@ =~= Seq::<char>::empty()
                &&& u.face_id is None
                &&& u.created_at == now
                &&& u.updated_at == now
                &&& final(self).users@ =~= old(self).users@.push(u)
                &&& final(self).next_user_id == old(self).next_user_id + 1
            },
            r is Err ==> *final(self) == *old(self),
    {
        if self.user_present(params.username.as_str()) {
            return Err(());
        }
        if self.next_user_id == i32::MAX {
            return Err(());
        }
        let id = self.next_user_id;
        let u = UserRecord {
            id,
            username: params.username,
            salt: params.salt,
            password_hash: params.password_hash,
            email: Some(params.email),
            nickname: params.nickname,
            self_info: Some(String::new()),
            face_id: None,
            created_at: now,
            updated_at: now,
        };
        let stored = clone_user_record(&u);
        let ghost prev = *self;
        self.users.push(stored);
        self.next_user_id = id + 1;
        proof {
            assert forall|i: int, j: int| 0 <= i < j < self.users@.len() implies self.users@[i].id
                != self.users@[j].id && self.users@[i].username@ != self.users@[j].username@ by {
                if j == prev.users@.len() {
                    assert(prev.users@[i].id < prev.next_user_id);
                }
            }
        }
        Ok(u)
    }

    /// Inserts an application row. Fails exactly when the client id is
    /// already registered.
    pub fn insert_application(&mut self, params: CreateApplicationParams, now: i64) -> (r: Result<
        (),
        (),
    >)
        requires
            old(self).wf(),
        ensures
            final(self).wf(),
            final(self).users == old(self).users,
            final(self).images == old(self).images,
            final(self).application_secrets == old(self).application_secrets,
            final(self).authorization_codes == old(self).authorization_codes,
            final(self).tokens == old(self).tokens,
            final(self).next_user_id == old(self).next_user_id,
            final(self).next_secret_id == old(self).next_secret_id,
            r is Ok <==> spec_find_application(old(self).applications@, params.id@) is None,
            r is Ok ==> final(self).applications@ =~= old(self).applications@.push(
                ApplicationRecord {
                    id: params.id,
                    name: params.name,
                    icon_id: params.icon_id,
                    description: params.description,
                    homepage_url: params.homepage_url,
                    redirect_uris: params.redirect_uris,
                    grant_types: params.grant_types,
                    creator_id: params.creator_id,
                    created_at: now,
                    updated_at: now,
                },
            ),
            r is Err ==> *final(self) == *old(self),
    {
        if self.application_present(params.id.as_str()) {
            proof {
                lemma_application_present_find(self.applications@, params.id@);
            }
            return Err(());
        }
        proof {
            lemma_application_present_find(self.applications@, params.id@);
        }
        let ghost prev = *self;
        let rec = ApplicationRecord {
            id: params.id,
            name: params.name,
            icon_id: params.icon_id,
            description: params.description,
            homepage_url: params.homepage_url,
            redirect_uris: params.redirect_uris,
            grant_types: params.grant_types,
            creator_id: params.creator_id,
            created_at: now,
            updated_at: now,
        };
        self.applications.push(rec);
        proof {
            assert forall|i: int, j: int|
                0 <= i < j < self.applications@.len() implies self.applications@[i].id@
                != self.applications@[j].id@ by {
                if j == prev.applications@.len() {
                    assert(prev.applications@[i].id@ != prev.applications@[j].id@ || true);
                }
            }
        }
        Ok(())
    }

    /// Inserts a fresh secret for an application under the next free row id.
    pub fn create_secret_by_application_id(&mut self, params: CreateSecretParams, now: i64) -> (r:
        Result<ApplicationSecretRecord, ()>)
        requires
            old(self).wf(),
        ensures
            final(self).wf(),
            final(self).users == old(self).users,
            final(self).images == old(self).images,
            final(self).applications == old(self).applications,
            final(self).authorization_codes == old(self).authorization_codes,
            final(self).tokens == old(self).tokens,
            final(self).next_user_id == old(self).next_user_id,
            r is Ok <==> old(self).next_secret_id < i32::MAX,
            r matches Ok(s) ==> {
                &&& s.id == old(self).next_secret_id
                &&& s.app_id == params.app_id
                &&& s.secret == params.secret
                &&& s.creator_id == params.creator_id
                &&& s.created_at == now
                &&& s.updated_at == now
                &&& final(self).application_secrets@ =~= old(self).application_secrets@.push(s)
                &&& final(self).next_secret_id == old(self).next_secret_id + 1
            },
            r is Err ==> *final(self) == *old(self),
    {
        if self.next_secret_id == i32::MAX {
            return Err(());
        }
        let id = self.next_secret_id;
        let s = ApplicationSecretRecord {
            id,
            app_id: params.app_id,
            creator_id: params.creator_id,
            secret: params.secret,
            created_at: now,
            updated_at: now,
        };
        let stored = clone_secret_record(&s);
        let ghost prev = *self;
        self.application_secrets.push(stored);
        self.next_secret_id = id + 1;
        proof {
            assert forall|i: int, j: int|
                0 <= i < j < self.application_secrets@.len() implies self.application_secrets@[i].id
                != self.application_secrets@[j].id by {
                if j == prev.application_secrets@.len() {
                    assert(prev.application_secrets@[i].id < prev.next_secret_id);
                }
            }
        }
        Ok(s)
    }

    /// Inserts an image row. Fails exactly when the image id is taken.
    pub fn insert_image(&mut self, params: CreateImageParams, now: i64) -> (r: Result<(), ()>)
        requires
            old(self).wf(),
        ensures
            final(self).wf(),
            final(self).users == old(self).users,
            final(self).applications == old(self).applications,
            final(self).application_secrets == old(self).application_secrets,
            final(self).authorization_codes == old(self).authorization_codes,
            final(self).tokens == old(self).tokens,
            final(self).next_user_id == old(self).next_user_id,
            final(self).next_secret_id == old(self).next_secret_id,
            r is Ok <==> spec_find_image(old(self).images@, params.id@) is None,
            r is Ok ==> final(self).images@ =~= old(self).images@.push(
                ImageRecord {
                    id: params.id,
                    path: params.path,
                    user_id: params.user_id,
                    uploaded: false,
                    created_at: now,
                    updated_at: now,
                },
            ),
            r is Err ==> *final(self) == *old(self),
    {
        if self.image_present(params.id.as_str()) {
            proof {
                lemma_image_present_find(self.images@, params.id@);
            }
            return Err(());
        }
        proof {
            lemma_image_present_find(self.images@, params.id@);
        }
        let ghost prev = *self;
        let rec = ImageRecord {
            id: params.id,
            path: params.path,
            user_id: params.user_id,
            uploaded: false,
            created_at: now,
            updated_at: now,
        };
        self.images.push(rec);
        Ok(())
    }

    /// Records a freshly minted authorization code. Fails exactly when the
    /// code value is already present (the primary-key constraint).
    pub fn insert_authorization_code(&mut self, rec: AuthorizationCodeRecord) -> (r: Result<
        (),
        (),
    >)
        requires
            old(self).wf(),
        ensures
            final(self).wf(),
            final(self).users == old(self).users,
            final(self).images == old(self).images,
            final(self).applications == old(self).applications,
            final(self).application_secrets == old(self).application_secrets,
            final(self).tokens == old(self).tokens,
            final(self).next_user_id == old(self).next_user_id,
            final(self).next_secret_id == old(self).next_secret_id,
            r is Ok <==> !spec_code_present(old(self).authorization_codes@, rec.code@),
            r is Ok ==> final(self).authorization_codes@ =~= old(
                self,
            ).authorization_codes@.push(rec),
            r is Err ==> *final(self) == *old(self),
    {
        if self.code_present(rec.code.as_str()) {
            return Err(());
        }
        let ghost prev = *self;
        self.authorization_codes.push(rec);
        Ok(())
    }

    /// Records a freshly minted token pair. Fails exactly when either token
    /// string collides with an existing row (the unique-column constraints).
    pub fn insert_token(&mut self, rec: TokenRecord) -> (r: Result<(), ()>)
        requires
            old(self).wf(),
        ensures
            final(self).wf(),
            final(self).users == old(self).users,
            final(self).images == old(self).images,
            final(self).applications == old(self).applications,
            final(self).application_secrets == old(self).application_secrets,
            final(self).authorization_codes == old(self).authorization_codes,
            final(self).next_user_id == old(self).next_user_id,
            final(self).next_secret_id == old(self).next_secret_id,
            r is Ok <==> !spec_access_token_present(old(self).tokens@, rec.access_token@)
                && !spec_refresh_token_present(old(self).tokens@, rec.refresh_token@),
            r is Ok ==> final(self).tokens@ =~= old(self).tokens@.push(rec),
            r is Err ==> *final(self) == *old(self),
    {
        if self.access_token_present(rec.access_token.as_str()) {
            return Err(());
        }
        if self.refresh_token_present(rec.refresh_token.as_str()) {
            return Err(());
        }
        let ghost prev = *self;
        self.tokens.push(rec);
        Ok(())
    }

    fn find_code_index(&self, code: &str) -> (r: Option<usize>)
        ensures
            match r {
                Some(i) => 0 <= i < self.authorization_codes@.len()
                    && self.authorization_codes@[i as int].code@ == code@ && forall|j: int|
                    0 <= j < i ==> self.authorization_codes@[j].code@ != code@,
                None => !spec_code_present(self.authorization_codes@, code@),
            },
    {
        let n = self.authorization_codes.len();
        let mut i: usize = 0;
        while i < n
            invariant
                n == self.authorization_codes@.len(),
                0 <= i <= n,
                forall|j: int| 0 <= j < i ==> self.authorization_codes@[j].code@ != code@,
            decreases n - i,
        {
            if self.authorization_codes[i].code.as_str().eq(code) {
                return Some(i);
            }
            i = i + 1;
        }
        None
    }

    /// Deletes the authorization code row, if present. This is the
    /// single-use step of redemption: afterwards the code is gone, so a
    /// concurrent second redemption observes "missing".
    pub fn delete_authorization_code(&mut self, code: &str) -> (r: bool)
        requires
            old(self).wf(),
        ensures
            final(self).wf(),
            final(self).users == old(self).users,
            final(self).images == old(self).images,
            final(self).applications == old(self).applications,
            final(self).application_secrets == old(self).application_secrets,
            final(self).tokens == old(self).tokens,
            final(self).next_user_id == old(self).next_user_id,
            final(self).next_secret_id == old(self).next_secret_id,
            r == spec_code_present(old(self).authorization_codes@, code@),
            !spec_code_present(final(self).authorization_codes@, code@),
            r ==> exists|i: int|
                0 <= i < old(self).authorization_codes@.len() && old(
                    self,
                ).authorization_codes@[i].code@ == code@ && final(self).authorization_codes@
                    =~= old(self).authorization_codes@.remove(i),
            !r ==> final(self).authorization_codes@ =~= old(self).authorization_codes@,
    {
        match self.find_code_index(code) {
            None => false,
            Some(i) => {
                let ghost prev = *self;
                self.authorization_codes.remove(i);
                proof {
                    assert forall|k: int|
                        0 <= k < self.authorization_codes@.len() implies self.authorization_codes@[
                        k
                    ].code@ != code@ by {
                        if k < i {
                            assert(self.authorization_codes@[k] == prev.authorization_codes@[k]);
                        } else {
                            assert(self.authorization_codes@[k] == prev.authorization_codes@[k
                                + 1]);
                            assert(prev.authorization_codes@[i as int].code@ == code@);
                        }
                    }
                    assert forall|a: int, b: int|
                        0 <= a < b < self.authorization_codes@.len()
                        implies self.authorization_codes@[a].code@
                        != self.authorization_codes@[b].code@ by {
                        let a0 = if a < i { a } else { a + 1 };
                        let b0 = if b < i { b } else { b + 1 };
                        assert(self.authorization_codes@[a] == prev.authorization_codes@[a0]);
                        assert(self.authorization_codes@[b] == prev.authorization_codes@[b0]);
                    }
                }
                true
            },
        }
    }

    /// The secrets registered for one application, in insertion order.
    pub fn get_secrets_by_application_id(&self, id: &str) -> (r: Vec<ApplicationSecretRecord>)
        ensures
            r@ =~= self.application_secrets@.filter(
                |s: ApplicationSecretRecord| s.app_id@ == id@,
            ),
    {
        let n = self.application_secrets.len();
        let mut out: Vec<ApplicationSecretRecord> = Vec::new();
        let mut i: usize = 0;
        proof {
            reveal(Seq::filter);
            assert(self.application_secrets@.take(0) =~= Seq::<ApplicationSecretRecord>::empty());
        }
        while i < n
            invariant
                n == self.application_secrets@.len(),
                0 <= i <= n,
                out@ =~= self.application_secrets@.take(i as int).filter(
                    |s: ApplicationSecretRecord| s.app_id@ == id@,
                ),
            decreases n - i,
        {
            proof {
                reveal(Seq::filter);
                assert(self.application_secrets@.take(i as int + 1).drop_last()
                    =~= self.application_secrets@.take(i as int));
                assert(self.application_secrets@.take(i as int + 1).last()
                    == self.application_secrets@[i as int]);
            }
            let s = &self.application_secrets[i];
            if s.app_id.as_str().eq(id) {
                out.push(clone_secret_record(s));
            }
            i = i + 1;
        }
        proof {
            assert(self.application_secrets@.take(n as int) =~= self.application_secrets@);
        }
        out
    }

    /// The applications created by one user, in insertion order.
    pub fn find_applications_by_user_id(&self, user_id: i32) -> (r: Vec<ApplicationRecord>)
        ensures
            r@ =~= self.applications@.filter(|a: ApplicationRecord| a.creator_id == user_id),
    {
        let n = self.applications.len();
        let mut out: Vec<ApplicationRecord> = Vec::new();
        let mut i: usize = 0;
        proof {
            reveal(Seq::filter);
            assert(self.applications@.take(0) =~= Seq::<ApplicationRecord>::empty());
        }
        while i < n
            invariant
                n == self.applications@.len(),
                0 <= i <= n,
                out@ =~= self.applications@.take(i as int).filter(
                    |a: ApplicationRecord| a.creator_id == user_id,
                ),
            decreases n - i,
        {
            proof {
                reveal(Seq::filter);
                assert(self.applications@.take(i as int + 1).drop_last()
                    =~= self.applications@.take(i as int));
                assert(self.applications@.take(i as int + 1).last()
                    == self.applications@[i as int]);
            }
            let a = &self.applications[i];
            if a.creator_id == user_id {
                out.push(clone_application_record(a));
            }
            i = i + 1;
        }
        proof {
            assert(self.applications@.take(n as int) =~= self.applications@);
        }
        out
    }
}

/// A first-match application scan succeeds exactly when some row has the id.
pub proof fn lemma_application_present_find(s: Seq<ApplicationRecord>, id: Seq<char>)
    ensures
        (spec_find_application(s, id) is Some) <==> exists|i: int|
            0 <= i < s.len() && s[i].id@ == id,
    decreases s.len(),
{
    if s.len() > 0 {
        if s[0].id@ == id {
        } else {
            lemma_application_present_find(s.drop_first(), id);
            if spec_find_application(s.drop_first(), id) is Some {
                let i = choose|i: int| 0 <= i < s.drop_first().len() && s.drop_first()[i].id@ == id;
                assert(s[i + 1].id@ == id);
            } else {
                if exists|i: int| 0 <= i < s.len() && s[i].id@ == id {
                    let i = choose|i: int| 0 <= i < s.len() && s[i].id@ == id;
                    assert(s.drop_first()[i - 1].id@ == id);
                }
            }
        }
    }
}

/// A first-match image scan succeeds exactly when some row has the id.
pub proof fn lemma_image_present_find(s: Seq<ImageRecord>, id: Seq<char>)
    ensures
        (spec_find_image(s, id) is Some) <==> exists|i: int| 0 <= i < s.len() && s[i].id@ == id,
    decreases s.len(),
{
    if s.len() > 0 {
        if s[0].id@ == id {
        } else {
            lemma_image_present_find(s.drop_first(), id);
            if spec_find_image(s.drop_first(), id) is Some {
                let i = choose|i: int| 0 <= i < s.drop_first().len() && s.drop_first()[i].id@ == id;
                assert(s[i + 1].id@ == id);
            } else {
                if exists|i: int| 0 <= i < s.len() && s[i].id@ == id {
                    let i = choose|i: int| 0 <= i < s.len() && s[i].id@ == id;
                    assert(s.drop_first()[i - 1].id@ == id);
                }
            }
        }
    }
}

/// A first-match code scan succeeds exactly when the code is present.
pub proof fn lemma_code_present_find(s: Seq<AuthorizationCodeRecord>, code: Seq<char>)
    ensures
        (spec_find_code(s, code) is Some) <==> spec_code_present(s, code),
    decreases s.len(),
{
    if s.len() > 0 {
        if s[0].code@ == code {
        } else {
            lemma_code_present_find(s.drop_first(), code);
            if spec_find_code(s.drop_first(), code) is Some {
                let i = choose|i: int|
                    0 <= i < s.drop_first().len() && s.drop_first()[i].code@ == code;
                assert(s[i + 1].code@ == code);
            } else {
                if spec_code_present(s, code) {
                    let i = choose|i: int| 0 <= i < s.len() && s[i].code@ == code;
                    assert(s.drop_first()[i - 1].code@ == code);
                }
            }
        }
    }
}

/// What a first-match code scan returns is a row of the table with that code.
pub proof fn lemma_find_code_is_row(s: Seq<AuthorizationCodeRecord>, code: Seq<char>)
    requires
        spec_find_code(s, code) is Some,
    ensures
        spec_find_code(s, code) matches Some(c) && c.code@ == code && exists|i: int|
            0 <= i < s.len() && s[i] == c,
    decreases s.len(),
{
    if s.len() > 0 {
        if s[0].code@ == code {
            assert(s[0] == s[0]);
        } else {
            lemma_find_code_is_row(s.drop_first(), code);
            let c = spec_find_code(s.drop_first(), code)->Some_0;
            let i = choose|i: int| 0 <= i < s.drop_first().len() && s.drop_first()[i] == c;
            assert(s[i + 1] == c);
        }
    }
}
/// What a first-match application scan returns is a row with that id.
pub proof fn lemma_find_application_is_row(s: Seq<ApplicationRecord>, id: Seq<char>)
    requires
        spec_find_application(s, id) is Some,
    ensures
        spec_find_application(s, id) matches Some(a) && a.id@ == id && exists|i: int|
            0 <= i < s.len() && s[i] == a,
    decreases s.len(),
{
    if s.len() > 0 {
        if s[0].id@ == id {
            assert(s[0] == s[0]);
        } else {
            lemma_find_application_is_row(s.drop_first(), id);
            let a = spec_find_application(s.drop_first(), id)->Some_0;
            let i = choose|i: int| 0 <= i < s.drop_first().len() && s.drop_first()[i] == a;
            assert(s[i + 1] == a);
        }
    }
}

/// What a first-match user-by-id scan returns is a row with that id.
pub proof fn lemma_find_user_by_id_is_row(s: Seq<UserRecord>, id: i32)
    requires
        spec_find_user_by_id(s, id) is Some,
    ensures
        spec_find_user_by_id(s, id) matches Some(u) && u.id == id && exists|i: int|
            0 <= i < s.len() && s[i] == u,
    decreases s.len(),
{
    if s.len() > 0 {
        if s[0].id == id {
            assert(s[0] == s[0]);
        } else {
            lemma_find_user_by_id_is_row(s.drop_first(), id);
            let u = spec_find_user_by_id(s.drop_first(), id)->Some_0;
            let i = choose|i: int| 0 <= i < s.drop_first().len() && s.drop_first()[i] == u;
            assert(s[i + 1] == u);
        }
    }
}

/// What a first-match token scan returns is a row with that access token.
pub proof fn lemma_find_token_is_row(s: Seq<TokenRecord>, t: Seq<char>)
    requires
        spec_find_token(s, t) is Some,
    ensures
        spec_find_token(s, t) matches Some(tok) && tok.access_token@ == t && exists|i: int|
            0 <= i < s.len() && s[i] == tok,
    decreases s.len(),
{
    if s.len() > 0 {
        if s[0].access_token@ == t {
            assert(s[0] == s[0]);
        } else {
            lemma_find_token_is_row(s.drop_first(), t);
            let tok = spec_find_token(s.drop_first(), t)->Some_0;
            let i = choose|i: int| 0 <= i < s.drop_first().len() && s.drop_first()[i] == tok;
            assert(s[i + 1] == tok);
        }
    }
}

/// How a profile update transforms a user row: identity and credentials
/// kept, nickname and self-description replaced, the avatar replaced only
/// when the update names one, and the update timestamp set.
pub open spec fn spec_profile_updated(
    oldu: UserRecord,
    newu: UserRecord,
    params: UpdateUserInfoParams,
    now: i64,
) -> bool {
    &&& newu.id == oldu.id
    &&& newu.username == oldu.username
    &&& newu.salt == oldu.salt
    &&& newu.password_hash == oldu.password_hash
    &&& newu.email == oldu.email
    &&& newu.created_at == oldu.created_at
    &&& newu.updated_at == now
    &&& newu.nickname == params.nickname
    &&& newu.self_info == Some(params.self_info)
    &&& newu.face_id == (if params.face_id is Some {
        params.face_id
    } else {
        oldu.face_id
    })
}

/// How marking an image row transforms it: only the uploaded flag and the
/// update timestamp change.
pub open spec fn spec_image_marked(
    oldm: ImageRecord,
    newm: ImageRecord,
    uploaded: bool,
    now: i64,
) -> bool {
    &&& newm.id == oldm.id
    &&& newm.path == oldm.path
    &&& newm.user_id == oldm.user_id
    &&& newm.uploaded == uploaded
    &&& newm.created_at == oldm.created_at
    &&& newm.updated_at == now
}

impl Database {
    fn find_user_index(&self, user_id: i32) -> (r: Option<usize>)
        ensures
            match r {
                Some(i) => 0 <= i < self.users@.len() && self.users@[i as int].id == user_id
                    && forall|j: int| 0 <= j < i ==> self.users@[j].id != user_id,
                None => forall|j: int| 0 <= j < self.users@.len() ==> self.users@[j].id != user_id,
            },
    {
        let n = self.users.len();
        let mut i: usize = 0;
        while i < n
            invariant
                n == self.users@.len(),
                0 <= i <= n,
                forall|j: int| 0 <= j < i ==> self.users@[j].id != user_id,
            decreases n - i,
        {
            if self.users[i].id == user_id {
                return Some(i);
            }
            i = i + 1;
        }
        None
    }

    /// Updates the profile fields of the user row: nickname and
    /// self-description always, the avatar reference only when one is
    /// given. Fails with `NotFound` exactly when the user row is missing.
    pub fn update_user_info(&mut self, user_id: i32, params: UpdateUserInfoParams, now: i64) -> (r:
        Result<(), crate::error::AppError>)
        requires
            old(self).wf(),
        ensures
            final(self).wf(),
            final(self).images == old(self).images,
            final(self).applications == old(self).applications,
            final(self).application_secrets == old(self).application_secrets,
            final(self).authorization_codes == old(self).authorization_codes,
            final(self).tokens == old(self).tokens,
            final(self).next_user_id == old(self).next_user_id,
            final(self).next_secret_id == old(self).next_secret_id,
            r matches Err(e) ==> *final(self) == *old(self) && e
                == crate::error::AppError::ServiceError(crate::error::ServiceError::NotFound)
                && spec_find_user_by_id(old(self).users@, user_id) is None,
            r is Ok ==> spec_find_user_by_id(old(self).users@, user_id) is Some && (exists|i: int|
                0 <= i < old(self).users@.len() && old(self).users@[i].id == user_id
                    && final(self).users@ =~= old(self).users@.update(i, final(self).users@[i])
                    && spec_profile_updated(
                    old(self).users@[i],
                    final(self).users@[i],
                    params,
                    now,
                )),
    {
        let i: usize = match self.find_user_index(user_id) {
            Some(i) => i,
            None => {
                proof {
                    lemma_find_user_by_id_none(self.users@, user_id);
                }
                return Err(crate::error::AppError::ServiceError(
                    crate::error::ServiceError::NotFound,
                ));
            },
        };
        proof {
            lemma_find_user_by_id_first(self.users@, user_id, i as int);
        }
        let oldu = &self.users[i];
        let newu = UserRecord {
            id: oldu.id,
            username: oldu.username.clone(),
            salt: oldu.salt.clone(),
            password_hash: oldu.password_hash.clone(),
            email: clone_opt_string(&oldu.email),
            nickname: params.nickname,
            self_info: Some(params.self_info),
            face_id: match params.face_id {
                Some(f) => Some(f),
                None => clone_opt_string(&oldu.face_id),
            },
            created_at: oldu.created_at,
            updated_at: now,
        };
        let ghost prev = *self;
        self.users.remove(i);
        self.users.insert(i, newu);
        proof {
            assert(self.users@ =~= prev.users@.update(i as int, self.users@[i as int]));
            assert forall|a: int, b: int| 0 <= a < b < self.users@.len() implies self.users@[a].id
                != self.users@[b].id && self.users@[a].username@ != self.users@[b].username@ by {
                assert(self.users@[a].id == prev.users@[a].id && self.users@[a].username@
                    == prev.users@[a].username@);
                assert(self.users@[b].id == prev.users@[b].id && self.users@[b].username@
                    == prev.users@[b].username@);
            }
            assert forall|a: int| 0 <= a < self.users@.len() implies #[trigger] self.users@[a].id
                < self.next_user_id by {
                assert(self.users@[a].id == prev.users@[a].id);
            }
        }
        Ok(())
    }

    /// Marks an image row uploaded (or not). Fails exactly when the image
    /// row is missing.
    pub fn set_uploaded(&mut self, image_id: &str, uploaded: bool, now: i64) -> (r: Result<(), ()>)
        requires
            old(self).wf(),
        ensures
            final(self).wf(),
            final(self).users == old(self).users,
            final(self).applications == old(self).applications,
            final(self).application_secrets == old(self).application_secrets,
            final(self).authorization_codes == old(self).authorization_codes,
            final(self).tokens == old(self).tokens,
            final(self).next_user_id == old(self).next_user_id,
            final(self).next_secret_id == old(self).next_secret_id,
            r is Err ==> *final(self) == *old(self) && spec_find_image(old(self).images@, image_id@)
                is None,
            r is Ok ==> spec_find_image(old(self).images@, image_id@) is Some && (exists|i: int|
                0 <= i < old(self).images@.len() && old(self).images@[i].id@ == image_id@
                    && final(self).images@ =~= old(self).images@.update(i, final(self).images@[i])
                    && spec_image_marked(old(self).images@[i], final(self).images@[i], uploaded, now)),
    {
        let n = self.images.len();
        let mut i: usize = 0;
        let mut found: Option<usize> = None;
        while i < n
            invariant
                n == self.images@.len(),
                0 <= i <= n,
                match found {
                    Some(k) => 0 <= k < n && k < i && self.images@[k as int].id@ == image_id@,
                    None => forall|j: int| 0 <= j < i ==> self.images@[j].id@ != image_id@,
                },
            decreases n - i,
        {
            if found.is_none() && self.images[i].id.as_str().eq(image_id) {
                found = Some(i);
            }
            i = i + 1;
        }
        let k: usize = match found {
            Some(k) => k,
            None => {
                proof {
                    lemma_image_present_find(self.images@, image_id@);
                }
                return Err(());
            },
        };
        let oldm = &self.images[k];
        let newm = ImageRecord {
            id: oldm.id.clone(),
            path: oldm.path.clone(),
            user_id: oldm.user_id,
            uploaded,
            created_at: oldm.created_at,
            updated_at: now,
        };
        let ghost prev = *self;
        self.images.remove(k);
        self.images.insert(k, newm);
        proof {
            lemma_image_present_find(prev.images@, image_id@);
            assert(self.images@ =~= prev.images@.update(k as int, self.images@[k as int]));
            assert forall|a: int, b: int| 0 <= a < b < self.images@.len() implies self.images@[
                a
            ].id@ != self.images@[b].id@ by {
                assert(self.images@[a].id == prev.images@[a].id);
                assert(self.images@[b].id == prev.images@[b].id);
            }
        }
        Ok(())
    }
}

/// A first-match user-by-id scan fails exactly when no row has the id.
pub proof fn lemma_find_user_by_id_none(s: Seq<UserRecord>, id: i32)
    requires
        forall|j: int| 0 <= j < s.len() ==> s[j].id != id,
    ensures
        spec_find_user_by_id(s, id) is None,
    decreases s.len(),
{
    if s.len() > 0 {
        assert(forall|j: int|
            0 <= j < s.drop_first().len() ==> s.drop_first()[j] == s[j + 1] && s[j + 1].id != id);
        lemma_find_user_by_id_none(s.drop_first(), id);
    }
}

/// A first-match user-by-id scan returns the row at the first matching
/// index.
pub proof fn lemma_find_user_by_id_first(s: Seq<UserRecord>, id: i32, i: int)
    requires
        0 <= i < s.len(),
        s[i].id == id,
        forall|j: int| 0 <= j < i ==> s[j].id != id,
    ensures
        spec_find_user_by_id(s, id) == Some(s[i]),
    decreases i,
{
    if i == 0 {
    } else {
        assert(forall|j: int|
            0 <= j < i - 1 ==> s.drop_first()[j] == s[j + 1] && s[j + 1].id != id);
        assert(s.drop_first()[i - 1] == s[i]);
        lemma_find_user_by_id_first(s.drop_first(), id, i - 1);
    }
}

} // verus!
