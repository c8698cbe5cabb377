//! Users: accounts known through an external identity provider.

use vstd::prelude::*;
use crate::record::{
    byte_len, is_before, text_byte_len, Timestamp, MAX_LOCATION_LENGTH, MAX_NAME_LENGTH,
};

verus! {

/// Longest external identifier, in bytes of UTF-8.
pub const MAX_EXTERNAL_ID_LENGTH: usize = MAX_LOCATION_LENGTH;

/// The provider through which a user signs in.
#[derive(Clone, Copy, Debug, PartialEq, Eq, Structural)]
pub enum UserAuthType {
    Github,
}

pub struct UserView {
    pub id: u128,
    pub name: Seq<char>,
    pub auth_type: UserAuthType,
    pub external_id: Seq<char>,
    pub created_at: Timestamp,
    pub updated_at: Timestamp,
}

/// A stored user, valid by construction: see `user_result`.
#[derive(Clone, Debug, PartialEq, Eq)]
pub struct User {
    id: u128,
    name: String,
    auth_type: UserAuthType,
    external_id: String,
    created_at: Timestamp,
    updated_at: Timestamp,
}

impl View for User {
    type V = UserView;

    closed spec fn view(&self) -> UserView {
        UserView {
            id: self.id,
            name: self.name@,
            auth_type: self.auth_type,
            external_id: self.external_id@,
            created_at: self.created_at,
            updated_at: self.updated_at,
        }
    }
}

#[derive(Clone, Debug, PartialEq, Eq)]
pub enum CreateUserValidationError {
    NameIsEmpty,
    NameTooLong { name: String },
    ExternalIdIsEmpty,
    ExternalIdTooLong { external_id: String },
    UpdatedBeforeCreation { updated_at: Timestamp, created_at: Timestamp },
}

#[derive(Clone, Debug, PartialEq, Eq)]
pub enum UpdateUserValidationError {
    NameIsEmpty,
    NameTooLong { name: String },
}

/// What `User::new` gives for these fields. The checks come in this order:
/// the name is neither empty nor longer than the limit, the same for the
/// external identifier, and the last update is not before the creation.
pub open spec fn user_result(v: UserView, r: Result<User, CreateUserValidationError>) -> bool {
    if v.name.len() == 0 {
        r == Err::<User, CreateUserValidationError>(CreateUserValidationError::NameIsEmpty)
    } else if byte_len(v.name) > MAX_NAME_LENGTH {
        r matches Err(CreateUserValidationError::NameTooLong { name }) && name@ == v.name
    } else if v.external_id.len() == 0 {
        r == Err::<User, CreateUserValidationError>(CreateUserValidationError::ExternalIdIsEmpty)
    } else if byte_len(v.external_id) > MAX_EXTERNAL_ID_LENGTH {
        r matches Err(CreateUserValidationError::ExternalIdTooLong { external_id })
            && external_id@ == v.external_id
    } else if is_before(v.updated_at, v.created_at) {
        r == Err::<User, CreateUserValidationError>(
            CreateUserValidationError::UpdatedBeforeCreation {
                updated_at: v.updated_at,
                created_at: v.created_at,
            },
        )
    } else {
        r matches Ok(u) && u@ == v
    }
}

/// The fields pass every check of `User::new`.
pub open spec fn user_valid(v: UserView) -> bool {
    &&& name_valid(v.name)
    &&& v.external_id.len() != 0 && byte_len(v.external_id) <= MAX_EXTERNAL_ID_LENGTH
    &&& !is_before(v.updated_at, v.created_at)
}

/// A name that a user accepts: neither empty nor longer than the limit.
pub open spec fn name_valid(name: Seq<char>) -> bool {
    name.len() != 0 && byte_len(name) <= MAX_NAME_LENGTH
}

/// The user that new parameters describe: identifier `id`, created and
/// updated at `now`.
pub open spec fn new_user_view(p: CreateUserView, id: u128, now: Timestamp) -> UserView {
    UserView {
        id,
        name: p.name,
        auth_type: p.auth_type,
        external_id: p.external_id,
        created_at: now,
        updated_at: now,
    }
}

/// What renaming gives: the name is neither empty nor longer than the limit.
pub open spec fn rename_result(
    old_user: UserView,
    name: Seq<char>,
    now: Timestamp,
    new_user: UserView,
    r: Result<(), UpdateUserValidationError>,
) -> bool {
    if name.len() == 0 {
        r == Err::<(), UpdateUserValidationError>(UpdateUserValidationError::NameIsEmpty)
            && new_user == old_user
    } else if byte_len(name) > MAX_NAME_LENGTH {
        r matches Err(UpdateUserValidationError::NameTooLong { name: n }) && n@ == name
            && new_user == old_user
    } else {
        r is Ok && new_user == (UserView { name, updated_at: now, ..old_user })
    }
}

impl User {
    pub fn new(
        id: u128,
        name: String,
        auth_type: UserAuthType,
        external_id: String,
        created_at: Timestamp,
        updated_at: Timestamp,
    ) -> (r: Result<User, CreateUserValidationError>)
        ensures
            user_result(
                UserView {
                    id,
                    name: name@,
                    auth_type,
                    external_id: external_id@,
                    created_at,
                    updated_at,
                },
                r,
            ),
    {
        if name.as_str().is_empty() {
            return Err(CreateUserValidationError::NameIsEmpty);
        }
        if text_byte_len(&name) > MAX_NAME_LENGTH {
            return Err(CreateUserValidationError::NameTooLong { name });
        }
        if external_id.as_str().is_empty() {
            return Err(CreateUserValidationError::ExternalIdIsEmpty);
        }
        if text_byte_len(&external_id) > MAX_EXTERNAL_ID_LENGTH {
            return Err(CreateUserValidationError::ExternalIdTooLong { external_id });
        }
        if updated_at.before(&created_at) {
            return Err(CreateUserValidationError::UpdatedBeforeCreation { updated_at, created_at });
        }
        Ok(User { id, name, auth_type, external_id, created_at, updated_at })
    }

    pub fn id(&self) -> (r: u128)
        ensures
            r == self@.id,
    {
        self.id
    }

    pub fn name(&self) -> (r: &str)
        ensures
            r@ == self@.name,
    {
        self.name.as_str()
    }

    /// A copy of the user.
    pub fn duplicate(&self) -> (r: User)
        ensures
            r@ == self@,
    {
        User {
            id: self.id,
            name: self.name.clone(),
            auth_type: self.auth_type,
            external_id: self.external_id.clone(),
            created_at: self.created_at,
            updated_at: self.updated_at,
        }
    }

    /// Renames the user, last updated at `now`; a refused name changes
    /// nothing.
    pub fn set_name(&mut self, name: String, now: Timestamp) -> (r: Result<
        (),
        UpdateUserValidationError,
    >)
        ensures
            rename_result(old(self)@, name@, now, final(self)@, r),
    {
        if name.as_str().is_empty() {
            return Err(UpdateUserValidationError::NameIsEmpty);
        }
        if text_byte_len(&name) > MAX_NAME_LENGTH {
            return Err(UpdateUserValidationError::NameTooLong { name });
        }
        self.name = name;
        self.updated_at = now;
        Ok(())
    }

    pub fn auth_type(&self) -> (r: UserAuthType)
        ensures
            r == self@.auth_type,
    {
        self.auth_type
    }

    pub fn external_id(&self) -> (r: &str)
        ensures
            r@ == self@.external_id,
    {
        self.external_id.as_str()
    }

    pub fn created_at(&self) -> (r: Timestamp)
        ensures
            r == self@.created_at,
    {
        self.created_at
    }

    pub fn updated_at(&self) -> (r: Timestamp)
        ensures
            r == self@.updated_at,
    {
        self.updated_at
    }

    /// Applies `value` to the user, last updated at `now`.
    pub fn try_update(&mut self, value: UpdateUserParams, now: Timestamp) -> (r: Result<
        (),
        UpdateUserValidationError,
    >)
        ensures
            rename_result(old(self)@, value@, now, final(self)@, r),
    {
        self.set_name(value.name, now)
    }
}

pub struct CreateUserView {
    pub name: Seq<char>,
    pub auth_type: UserAuthType,
    pub external_id: Seq<char>,
}

/// Parameters of a new user.
#[derive(Clone, Debug, PartialEq, Eq)]
pub struct CreateUserParams {
    name: String,
    auth_type: UserAuthType,
    external_id: String,
}

impl View for CreateUserParams {
    type V = CreateUserView;

    closed spec fn view(&self) -> CreateUserView {
        CreateUserView { name: self.name@, auth_type: self.auth_type, external_id: self.external_id@ }
    }
}

impl CreateUserParams {
    pub fn new(name: String, auth_type: UserAuthType, external_id: String) -> (r: CreateUserParams)
        ensures
            r@ == (CreateUserView { name: name@, auth_type, external_id: external_id@ }),
    {
        CreateUserParams { name, auth_type, external_id }
    }

    pub fn name(&self) -> (r: &str)
        ensures
            r@ == self@.name,
    {
        self.name.as_str()
    }

    pub fn auth_type(&self) -> (r: UserAuthType)
        ensures
            r == self@.auth_type,
    {
        self.auth_type
    }

    pub fn external_id(&self) -> (r: &str)
        ensures
            r@ == self@.external_id,
    {
        self.external_id.as_str()
    }

    /// The user these parameters describe: identifier `id`, created and
    /// updated at `now`.
    pub fn try_into_user(self, id: u128, now: Timestamp) -> (r: Result<
        User,
        CreateUserValidationError,
    >)
        ensures
            user_result(new_user_view(self@, id, now), r),
    {
        User::new(id, self.name, self.auth_type, self.external_id, now, now)
    }

    /// The parameters as a request carries them.
    pub fn from_http(value: HttpCreateUserParams) -> (r: CreateUserParams)
        ensures
            r@ == value@,
    {
        CreateUserParams {
            name: value.name,
            auth_type: UserAuthType::from(value.auth_type),
            external_id: value.external_id,
        }
    }
}

/// Parameters that rename a user.
#[derive(Clone, Debug, PartialEq, Eq)]
pub struct UpdateUserParams {
    name: String,
}

impl View for UpdateUserParams {
    type V = Seq<char>;

    closed spec fn view(&self) -> Seq<char> {
        self.name@
    }
}

impl UpdateUserParams {
    pub fn new(name: String) -> (r: UpdateUserParams)
        ensures
            r@ == name@,
    {
        UpdateUserParams { name }
    }

    pub fn name(&self) -> (r: &str)
        ensures
            r@ == self@,
    {
        self.name.as_str()
    }

    /// The parameters as a request carries them.
    pub fn from_http(value: HttpUpdateUserParams) -> (r: UpdateUserParams)
        ensures
            r@ == value@,
    {
        UpdateUserParams { name: value.name }
    }
}

/// The provider of a user as requests and responses name it.
#[derive(Clone, Copy, Debug, PartialEq, Eq, Structural)]
pub enum HttpUserAuthType {
    Github,
}

impl From<UserAuthType> for HttpUserAuthType {
    fn from(value: UserAuthType) -> (r: HttpUserAuthType) {
        match value {
            UserAuthType::Github => HttpUserAuthType::Github,
        }
    }
}

impl vstd::std_specs::convert::FromSpecImpl<UserAuthType> for HttpUserAuthType {
    open spec fn obeys_from_spec() -> bool {
        true
    }

    open spec fn from_spec(v: UserAuthType) -> HttpUserAuthType {
        match v {
            UserAuthType::Github => HttpUserAuthType::Github,
        }
    }
}

impl From<HttpUserAuthType> for UserAuthType {
    fn from(value: HttpUserAuthType) -> (r: UserAuthType) {
        match value {
            HttpUserAuthType::Github => UserAuthType::Github,
        }
    }
}

impl vstd::std_specs::convert::FromSpecImpl<HttpUserAuthType> for UserAuthType {
    open spec fn obeys_from_spec() -> bool {
        true
    }

    open spec fn from_spec(v: HttpUserAuthType) -> UserAuthType {
        match v {
            HttpUserAuthType::Github => UserAuthType::Github,
        }
    }
}

pub open spec fn auth_type_of(t: HttpUserAuthType) -> UserAuthType {
    match t {
        HttpUserAuthType::Github => UserAuthType::Github,
    }
}

/// Parameters of a new user as a request carries them.
#[derive(Clone, Debug, PartialEq, Eq)]
pub struct HttpCreateUserParams {
    name: String,
    auth_type: HttpUserAuthType,
    external_id: String,
}

impl View for HttpCreateUserParams {
    type V = CreateUserView;

    closed spec fn view(&self) -> CreateUserView {
        CreateUserView {
            name: self.name@,
            auth_type: auth_type_of(self.auth_type),
            external_id: self.external_id@,
        }
    }
}

impl HttpCreateUserParams {
    pub fn new(name: String, auth_type: HttpUserAuthType, external_id: String) -> (r:
        HttpCreateUserParams)
        ensures
            r@ == (CreateUserView {
                name: name@,
                auth_type: auth_type_of(auth_type),
                external_id: external_id@,
            }),
            r.auth_type() == auth_type,
    {
        HttpCreateUserParams { name, auth_type, external_id }
    }

    pub fn name(&self) -> (r: &str)
        ensures
            r@ == self@.name,
    {
        self.name.as_str()
    }

    pub closed spec fn spec_auth_type(&self) -> HttpUserAuthType {
        self.auth_type
    }

    #[verifier::when_used_as_spec(spec_auth_type)]
    pub fn auth_type(&self) -> (r: HttpUserAuthType)
        ensures
            r == self.spec_auth_type(),
            auth_type_of(r) == self@.auth_type,
    {
        self.auth_type
    }

    pub fn external_id(&self) -> (r: &str)
        ensures
            r@ == self@.external_id,
    {
        self.external_id.as_str()
    }
}

/// A new name for a user as a request carries it.
#[derive(Clone, Debug, PartialEq, Eq)]
pub struct HttpUpdateUserParams {
    name: String,
}

impl View for HttpUpdateUserParams {
    type V = Seq<char>;

    closed spec fn view(&self) -> Seq<char> {
        self.name@
    }
}

impl HttpUpdateUserParams {
    pub fn new(name: String) -> (r: HttpUpdateUserParams)
        ensures
            r@ == name@,
    {
        HttpUpdateUserParams { name }
    }

    pub fn name(&self) -> (r: &str)
        ensures
            r@ == self@,
    {
        self.name.as_str()
    }
}

} // verus!
