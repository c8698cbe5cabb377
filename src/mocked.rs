//! Stand-in stores that answer with fixed records, for running the service
//! without keeping anything.

use vstd::prelude::*;
use crate::dao_errors::{
    CreateItemError, CreateUserError, DeleteItemError, DeleteUserError, GetItemError,
    GetUserError, ListItemsError, UpdateItemError, UpdateUserError,
};
use crate::items::{
    item_draft_valid, item_of_draft, new_item_draft, updated_item_draft, Item, ItemBuilder,
    ItemDraft,
};
use crate::params::{CreateItemParams, UpdateItemParams};
use crate::record::Timestamp;
use crate::users::{
    name_valid, new_user_view, user_valid, CreateUserParams, CreateUserView, UpdateUserParams,
    User, UserAuthType, UserView,
};

verus! {

/// Name of the item that the stand-in store holds.
pub const MOCK_ITEM_NAME: &'static str = "Sleeping Bag";

/// Location of the item that the stand-in store holds.
pub const MOCK_ITEM_LOCATION: &'static str = "Calgary, AB";

/// Name of the user that the stand-in store holds.
pub const MOCK_USER_NAME: &'static str = "Sleeping Bag";

/// External identifier of the user that the stand-in store holds.
pub const MOCK_USER_EXTERNAL_ID: &'static str = "awesome-github-id";

/// External identifier that the stand-in store treats as taken.
pub const TAKEN_EXTERNAL_ID: &'static str = "AlreadyExistingID";

/// The identifier that stands for no record at all.
pub const NIL_ID: u128 = 0;

/// The fixed item, under identifier `id`, created and updated at `now`.
pub open spec fn mock_item_draft(id: u128, now: Timestamp) -> ItemDraft {
    ItemDraft {
        id,
        name: Some(MOCK_ITEM_NAME@),
        location: Some(MOCK_ITEM_LOCATION@),
        created_at: now,
        updated_at: now,
    }
}

/// The fixed user, under identifier `id`, created and updated at `now`.
pub open spec fn mock_user_view(id: u128, now: Timestamp) -> UserView {
    new_user_view(
        CreateUserView {
            name: MOCK_USER_NAME@,
            auth_type: UserAuthType::Github,
            external_id: MOCK_USER_EXTERNAL_ID@,
        },
        id,
        now,
    )
}

/// Items store that keeps nothing and always holds the one fixed item.
pub struct ItemsMockedDao {}

impl ItemsMockedDao {
    fn fixed_item(id: u128, now: Timestamp) -> (r: Option<Item>)
        ensures
            item_draft_valid(mock_item_draft(id, now)) ==> (r matches Some(item) && item@
                == item_of_draft(mock_item_draft(id, now))),
            !item_draft_valid(mock_item_draft(id, now)) ==> r is None,
    {
        match ItemBuilder::new(id, now).name(MOCK_ITEM_NAME.to_owned()).location(
            MOCK_ITEM_LOCATION.to_owned(),
        ).build() {
            Ok(item) => Some(item),
            Err(_) => None,
        }
    }

    /// Every page holds the fixed item, here under identifier `id`.
    pub fn list(&self, id: u128, now: Timestamp) -> (r: Result<Vec<Item>, ListItemsError>)
        ensures
            item_draft_valid(mock_item_draft(id, now)) ==> (r matches Ok(v) && v@.len() == 1
                && v@[0]@ == item_of_draft(mock_item_draft(id, now))),
            !item_draft_valid(mock_item_draft(id, now)) ==> r == Err::<Vec<Item>, ListItemsError>(
                ListItemsError::UnexpectedError,
            ),
    {
        match Self::fixed_item(id, now) {
            Some(item) => {
                let mut v: Vec<Item> = Vec::new();
                v.push(item);
                Ok(v)
            },
            None => Err(ListItemsError::UnexpectedError),
        }
    }

    /// The item that `params` describe, kept nowhere.
    pub fn create(&self, params: CreateItemParams, id: u128, now: Timestamp) -> (r: Result<
        Item,
        CreateItemError,
    >)
        ensures
            item_draft_valid(new_item_draft(params@, id, now)) ==> (r matches Ok(item) && item@
                == item_of_draft(new_item_draft(params@, id, now))),
            !item_draft_valid(new_item_draft(params@, id, now)) ==> r == Err::<
                Item,
                CreateItemError,
            >(CreateItemError::InvalidParams),
    {
        match params.try_into_item(id, now) {
            Ok(item) => Ok(item),
            Err(_) => Err(CreateItemError::InvalidParams),
        }
    }

    pub fn get(&self, id: u128, now: Timestamp) -> (r: Result<Item, GetItemError>)
        ensures
            item_draft_valid(mock_item_draft(id, now)) ==> (r matches Ok(item) && item@
                == item_of_draft(mock_item_draft(id, now))),
            !item_draft_valid(mock_item_draft(id, now)) ==> r == Err::<Item, GetItemError>(
                GetItemError::UnexpectedError,
            ),
    {
        match Self::fixed_item(id, now) {
            Some(item) => Ok(item),
            None => Err(GetItemError::UnexpectedError),
        }
    }

    /// The fixed item under `id`, updated after `params` at `now`.
    pub fn update(&self, id: u128, params: UpdateItemParams, now: Timestamp) -> (r: Result<
        Item,
        UpdateItemError,
    >)
        ensures
            !item_draft_valid(mock_item_draft(id, now)) ==> r == Err::<Item, UpdateItemError>(
                UpdateItemError::UnexpectedError,
            ),
            item_draft_valid(mock_item_draft(id, now)) ==> ({
                let d = updated_item_draft(item_of_draft(mock_item_draft(id, now)), params@, now);
                &&& item_draft_valid(d) ==> (r matches Ok(item) && item@ == item_of_draft(d))
                &&& !item_draft_valid(d) ==> r == Err::<Item, UpdateItemError>(
                    UpdateItemError::InvalidParams,
                )
            }),
    {
        let item = match Self::fixed_item(id, now) {
            Some(item) => item,
            None => return Err(UpdateItemError::UnexpectedError),
        };
        match item.try_update(&params, now) {
            Ok(updated) => Ok(updated),
            Err(_) => Err(UpdateItemError::InvalidParams),
        }
    }

    pub fn delete(&self, id: u128) -> (r: Result<(), DeleteItemError>)
        ensures
            r is Ok,
    {
        Ok(())
    }
}

/// Users store that keeps nothing: every identifier but the nil one names
/// the fixed user.
pub struct UsersMockedDao {}

impl UsersMockedDao {
    fn fixed_user(id: u128, now: Timestamp) -> (r: Option<User>)
        ensures
            user_valid(mock_user_view(id, now)) ==> (r matches Some(user) && user@
                == mock_user_view(id, now)),
            !user_valid(mock_user_view(id, now)) ==> r is None,
    {
        let params = CreateUserParams::new(
            MOCK_USER_NAME.to_owned(),
            UserAuthType::Github,
            MOCK_USER_EXTERNAL_ID.to_owned(),
        );
        match params.try_into_user(id, now) {
            Ok(user) => Some(user),
            Err(_) => None,
        }
    }

    /// The user that `params` describe, under the new identifier `id`; the
    /// taken external identifier is refused as a conflict, reported under
    /// that same new identifier.
    pub fn create(&self, params: CreateUserParams, id: u128, now: Timestamp) -> (r: Result<
        User,
        CreateUserError,
    >)
        ensures
            params@.external_id == TAKEN_EXTERNAL_ID@ ==> r == Err::<User, CreateUserError>(
                CreateUserError::AlreadyExists { id },
            ),
            params@.external_id != TAKEN_EXTERNAL_ID@ && user_valid(new_user_view(params@, id, now))
                ==> (r matches Ok(user) && user@ == new_user_view(params@, id, now)),
            params@.external_id != TAKEN_EXTERNAL_ID@ && !user_valid(
                new_user_view(params@, id, now),
            ) ==> r == Err::<User, CreateUserError>(CreateUserError::InvalidParams),
    {
        let external_id: String = params.external_id().to_owned();
        let taken: String = TAKEN_EXTERNAL_ID.to_owned();
        if external_id == taken {
            return Err(CreateUserError::AlreadyExists { id });
        }
        match params.try_into_user(id, now) {
            Ok(user) => Ok(user),
            Err(e) => Err(CreateUserError::from(e)),
        }
    }

    /// The fixed user, made afresh under `new_id`, for any identifier but
    /// the nil one.
    pub fn get(&self, id: u128, new_id: u128, now: Timestamp) -> (r: Result<User, GetUserError>)
        ensures
            id == NIL_ID ==> r == Err::<User, GetUserError>(GetUserError::NoSuchEntity { id }),
            id != NIL_ID && user_valid(mock_user_view(new_id, now)) ==> (r matches Ok(user)
                && user@ == mock_user_view(new_id, now)),
            id != NIL_ID && !user_valid(mock_user_view(new_id, now)) ==> r == Err::<
                User,
                GetUserError,
            >(GetUserError::UnexpectedError),
    {
        if id == NIL_ID {
            return Err(GetUserError::NoSuchEntity { id });
        }
        match Self::fixed_user(new_id, now) {
            Some(user) => Ok(user),
            None => Err(GetUserError::UnexpectedError),
        }
    }

    /// The fixed user, made afresh under `new_id` and renamed after
    /// `params`, for any identifier but the nil one.
    pub fn update(&self, id: u128, params: UpdateUserParams, new_id: u128, now: Timestamp) -> (r:
        Result<User, UpdateUserError>)
        ensures
            id == NIL_ID ==> r == Err::<User, UpdateUserError>(
                UpdateUserError::NoSuchEntity { id },
            ),
            id != NIL_ID && !user_valid(mock_user_view(new_id, now)) ==> r == Err::<
                User,
                UpdateUserError,
            >(UpdateUserError::UnexpectedError),
            id != NIL_ID && user_valid(mock_user_view(new_id, now)) && !name_valid(params@) ==> r
                == Err::<User, UpdateUserError>(UpdateUserError::InvalidParams),
            id != NIL_ID && user_valid(mock_user_view(new_id, now)) && name_valid(params@) ==> (r
                matches Ok(user) && user@ == (UserView {
                name: params@,
                ..mock_user_view(new_id, now)
            })),
    {
        if id == NIL_ID {
            return Err(UpdateUserError::NoSuchEntity { id });
        }
        let mut user = match Self::fixed_user(new_id, now) {
            Some(user) => user,
            None => return Err(UpdateUserError::UnexpectedError),
        };
        match user.try_update(params, now) {
            Ok(()) => Ok(user),
            Err(e) => Err(UpdateUserError::from(e)),
        }
    }

    pub fn delete(&self, id: u128) -> (r: Result<(), DeleteUserError>)
        ensures
            id == NIL_ID ==> r == Err::<(), DeleteUserError>(DeleteUserError::NoSuchEntity { id }),
            id != NIL_ID ==> r is Ok,
    {
        if id == NIL_ID {
            return Err(DeleteUserError::NoSuchEntity { id });
        }
        Ok(())
    }
}

} // verus!
