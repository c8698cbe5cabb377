//! Failures of the stores of items and users, and the HTTP status of each:
//! invalid parameters are the client's, an unknown identifier is not found,
//! a taken identifier conflicts, anything else is the server's.

use vstd::prelude::*;
use crate::auth_errors::{STATUS_INTERNAL_SERVER_ERROR, STATUS_UNPROCESSABLE_ENTITY};
use crate::pagination::PaginationBuilderError;
use crate::params::{CreateItemParamsBuilderError, UpdateItemParamsBuilderError};
use crate::users::{CreateUserValidationError, UpdateUserValidationError};

verus! {

/// 404: no record under that identifier.
pub const STATUS_NOT_FOUND: u16 = 404;

/// 409: a record under that identifier exists already.
pub const STATUS_CONFLICT: u16 = 409;

#[derive(Clone, Copy, Debug, PartialEq, Eq, Structural)]
pub enum ListItemsError {
    UnexpectedError,
}

impl ListItemsError {
    pub fn status_code(&self) -> (r: u16)
        ensures
            r == match *self {
                ListItemsError::UnexpectedError => STATUS_INTERNAL_SERVER_ERROR,
            },
    {
        match self {
            ListItemsError::UnexpectedError => STATUS_INTERNAL_SERVER_ERROR,
        }
    }
}

#[derive(Clone, Copy, Debug, PartialEq, Eq, Structural)]
pub enum CreateItemError {
    InvalidParams,
    AlreadyExists { id: u128 },
    UnexpectedError,
}

impl CreateItemError {
    pub fn status_code(&self) -> (r: u16)
        ensures
            r == match *self {
                CreateItemError::InvalidParams => STATUS_UNPROCESSABLE_ENTITY,
                CreateItemError::AlreadyExists { .. } => STATUS_CONFLICT,
                CreateItemError::UnexpectedError => STATUS_INTERNAL_SERVER_ERROR,
            },
    {
        match self {
            CreateItemError::InvalidParams => STATUS_UNPROCESSABLE_ENTITY,
            CreateItemError::AlreadyExists { .. } => STATUS_CONFLICT,
            CreateItemError::UnexpectedError => STATUS_INTERNAL_SERVER_ERROR,
        }
    }
}

#[derive(Clone, Copy, Debug, PartialEq, Eq, Structural)]
pub enum GetItemError {
    NoSuchEntity { id: u128 },
    UnexpectedError,
}

impl GetItemError {
    pub fn status_code(&self) -> (r: u16)
        ensures
            r == match *self {
                GetItemError::NoSuchEntity { .. } => STATUS_NOT_FOUND,
                GetItemError::UnexpectedError => STATUS_INTERNAL_SERVER_ERROR,
            },
    {
        match self {
            GetItemError::NoSuchEntity { .. } => STATUS_NOT_FOUND,
            GetItemError::UnexpectedError => STATUS_INTERNAL_SERVER_ERROR,
        }
    }
}

#[derive(Clone, Copy, Debug, PartialEq, Eq, Structural)]
pub enum UpdateItemError {
    InvalidParams,
    NoSuchEntity { id: u128 },
    UnexpectedError,
}

impl UpdateItemError {
    pub fn status_code(&self) -> (r: u16)
        ensures
            r == match *self {
                UpdateItemError::InvalidParams => STATUS_UNPROCESSABLE_ENTITY,
                UpdateItemError::NoSuchEntity { .. } => STATUS_NOT_FOUND,
                UpdateItemError::UnexpectedError => STATUS_INTERNAL_SERVER_ERROR,
            },
    {
        match self {
            UpdateItemError::InvalidParams => STATUS_UNPROCESSABLE_ENTITY,
            UpdateItemError::NoSuchEntity { .. } => STATUS_NOT_FOUND,
            UpdateItemError::UnexpectedError => STATUS_INTERNAL_SERVER_ERROR,
        }
    }
}

#[derive(Clone, Copy, Debug, PartialEq, Eq, Structural)]
pub enum DeleteItemError {
    NoSuchEntity { id: u128 },
    UnexpectedError,
}

impl DeleteItemError {
    pub fn status_code(&self) -> (r: u16)
        ensures
            r == match *self {
                DeleteItemError::NoSuchEntity { .. } => STATUS_NOT_FOUND,
                DeleteItemError::UnexpectedError => STATUS_INTERNAL_SERVER_ERROR,
            },
    {
        match self {
            DeleteItemError::NoSuchEntity { .. } => STATUS_NOT_FOUND,
            DeleteItemError::UnexpectedError => STATUS_INTERNAL_SERVER_ERROR,
        }
    }
}

#[derive(Clone, Copy, Debug, PartialEq, Eq, Structural)]
pub enum ItemsHealthError {
    UnexpectedError,
}

impl ItemsHealthError {
    pub fn status_code(&self) -> (r: u16)
        ensures
            r == match *self {
                ItemsHealthError::UnexpectedError => STATUS_INTERNAL_SERVER_ERROR,
            },
    {
        match self {
            ItemsHealthError::UnexpectedError => STATUS_INTERNAL_SERVER_ERROR,
        }
    }
}

#[derive(Clone, Copy, Debug, PartialEq, Eq, Structural)]
pub enum CreateUserError {
    InvalidParams,
    AlreadyExists { id: u128 },
    UnexpectedError,
}

impl CreateUserError {
    pub fn status_code(&self) -> (r: u16)
        ensures
            r == match *self {
                CreateUserError::InvalidParams => STATUS_UNPROCESSABLE_ENTITY,
                CreateUserError::AlreadyExists { .. } => STATUS_CONFLICT,
                CreateUserError::UnexpectedError => STATUS_INTERNAL_SERVER_ERROR,
            },
    {
        match self {
            CreateUserError::InvalidParams => STATUS_UNPROCESSABLE_ENTITY,
            CreateUserError::AlreadyExists { .. } => STATUS_CONFLICT,
            CreateUserError::UnexpectedError => STATUS_INTERNAL_SERVER_ERROR,
        }
    }
}

#[derive(Clone, Copy, Debug, PartialEq, Eq, Structural)]
pub enum GetUserError {
    NoSuchEntity { id: u128 },
    UnexpectedError,
}

impl GetUserError {
    pub fn status_code(&self) -> (r: u16)
        ensures
            r == match *self {
                GetUserError::NoSuchEntity { .. } => STATUS_NOT_FOUND,
                GetUserError::UnexpectedError => STATUS_INTERNAL_SERVER_ERROR,
            },
    {
        match self {
            GetUserError::NoSuchEntity { .. } => STATUS_NOT_FOUND,
            GetUserError::UnexpectedError => STATUS_INTERNAL_SERVER_ERROR,
        }
    }
}

#[derive(Clone, Copy, Debug, PartialEq, Eq, Structural)]
pub enum UpdateUserError {
    InvalidParams,
    NoSuchEntity { id: u128 },
    UnexpectedError,
}

impl UpdateUserError {
    pub fn status_code(&self) -> (r: u16)
        ensures
            r == match *self {
                UpdateUserError::InvalidParams => STATUS_UNPROCESSABLE_ENTITY,
                UpdateUserError::NoSuchEntity { .. } => STATUS_NOT_FOUND,
                UpdateUserError::UnexpectedError => STATUS_INTERNAL_SERVER_ERROR,
            },
    {
        match self {
            UpdateUserError::InvalidParams => STATUS_UNPROCESSABLE_ENTITY,
            UpdateUserError::NoSuchEntity { .. } => STATUS_NOT_FOUND,
            UpdateUserError::UnexpectedError => STATUS_INTERNAL_SERVER_ERROR,
        }
    }
}

#[derive(Clone, Copy, Debug, PartialEq, Eq, Structural)]
pub enum DeleteUserError {
    NoSuchEntity { id: u128 },
    UnexpectedError,
}

impl DeleteUserError {
    pub fn status_code(&self) -> (r: u16)
        ensures
            r == match *self {
                DeleteUserError::NoSuchEntity { .. } => STATUS_NOT_FOUND,
                DeleteUserError::UnexpectedError => STATUS_INTERNAL_SERVER_ERROR,
            },
    {
        match self {
            DeleteUserError::NoSuchEntity { .. } => STATUS_NOT_FOUND,
            DeleteUserError::UnexpectedError => STATUS_INTERNAL_SERVER_ERROR,
        }
    }
}

#[derive(Clone, Copy, Debug, PartialEq, Eq, Structural)]
pub enum UsersHealthError {
    UnexpectedError,
}

impl UsersHealthError {
    pub fn status_code(&self) -> (r: u16)
        ensures
            r == match *self {
                UsersHealthError::UnexpectedError => STATUS_INTERNAL_SERVER_ERROR,
            },
    {
        match self {
            UsersHealthError::UnexpectedError => STATUS_INTERNAL_SERVER_ERROR,
        }
    }
}

impl PaginationBuilderError {
    /// Parameters that do not make a valid request are the client's fault.
    pub fn status_code(&self) -> (r: u16)
        ensures
            r == STATUS_UNPROCESSABLE_ENTITY,
    {
        STATUS_UNPROCESSABLE_ENTITY
    }
}

impl CreateItemParamsBuilderError {
    /// Parameters that do not make a valid request are the client's fault.
    pub fn status_code(&self) -> (r: u16)
        ensures
            r == STATUS_UNPROCESSABLE_ENTITY,
    {
        STATUS_UNPROCESSABLE_ENTITY
    }
}

impl UpdateItemParamsBuilderError {
    /// Parameters that do not make a valid request are the client's fault.
    pub fn status_code(&self) -> (r: u16)
        ensures
            r == STATUS_UNPROCESSABLE_ENTITY,
    {
        STATUS_UNPROCESSABLE_ENTITY
    }
}

/// A user that fails validation is a matter of invalid parameters.
impl From<CreateUserValidationError> for CreateUserError {
    fn from(value: CreateUserValidationError) -> (r: CreateUserError) {
        CreateUserError::InvalidParams
    }
}

impl vstd::std_specs::convert::FromSpecImpl<CreateUserValidationError> for CreateUserError {
    open spec fn obeys_from_spec() -> bool {
        true
    }

    open spec fn from_spec(v: CreateUserValidationError) -> CreateUserError {
        CreateUserError::InvalidParams
    }
}

/// A user that fails validation is a matter of invalid parameters.
impl From<UpdateUserValidationError> for UpdateUserError {
    fn from(value: UpdateUserValidationError) -> (r: UpdateUserError) {
        UpdateUserError::InvalidParams
    }
}

impl vstd::std_specs::convert::FromSpecImpl<UpdateUserValidationError> for UpdateUserError {
    open spec fn obeys_from_spec() -> bool {
        true
    }

    open spec fn from_spec(v: UpdateUserValidationError) -> UpdateUserError {
        UpdateUserError::InvalidParams
    }
}

} // verus!
