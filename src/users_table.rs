//! The users kept in memory, keyed by identifier.

use vstd::prelude::*;
use std::collections::HashMap;
use crate::dao_errors::{CreateUserError, DeleteUserError, GetUserError, UpdateUserError};
use crate::record::Timestamp;
use crate::users::{
    name_valid, new_user_view, user_valid, CreateUserParams, UpdateUserParams, User, UserView,
};

verus! {

broadcast use vstd::std_specs::hash::group_hash_axioms;

pub struct UsersHashMapDao {
    users: HashMap<u128, User>,
}

impl View for UsersHashMapDao {
    type V = Map<u128, UserView>;

    closed spec fn view(&self) -> Map<u128, UserView> {
        self.users@.map_values(|u: User| u@)
    }
}

impl UsersHashMapDao {
    /// Every user is kept under its own identifier.
    pub closed spec fn wf(&self) -> bool {
        forall|k: u128| #[trigger] self.users@.contains_key(k) ==> self.users@[k]@.id == k
    }

    pub fn new() -> (r: UsersHashMapDao)
        ensures
            r@ == Map::<u128, UserView>::empty(),
            r.wf(),
    {
        let r = UsersHashMapDao { users: HashMap::new() };
        assert(r@ =~= Map::<u128, UserView>::empty());
        r
    }

    /// Adds the user that `params` describe, under the new identifier `id`
    /// and created at `now`. Invalid parameters are reported first, then an
    /// identifier that is taken.
    pub fn create(&mut self, params: CreateUserParams, id: u128, now: Timestamp) -> (r: Result<
        User,
        CreateUserError,
    >)
        requires
            old(self).wf(),
        ensures
            final(self).wf(),
            !user_valid(new_user_view(params@, id, now)) ==> r == Err::<User, CreateUserError>(
                CreateUserError::InvalidParams,
            ) && final(self)@ == old(self)@,
            user_valid(new_user_view(params@, id, now)) && old(self)@.contains_key(id) ==> r
                == Err::<User, CreateUserError>(CreateUserError::AlreadyExists { id })
                && final(self)@ == old(self)@,
            user_valid(new_user_view(params@, id, now)) && !old(self)@.contains_key(id) ==> (r
                matches Ok(user) && user@ == new_user_view(params@, id, now) && final(self)@
                == old(self)@.insert(id, user@)),
    {
        let entity = match params.try_into_user(id, now) {
            Ok(entity) => entity,
            Err(e) => return Err(CreateUserError::from(e)),
        };
        if self.users.contains_key(&id) {
            return Err(CreateUserError::AlreadyExists { id });
        }
        let copy = entity.duplicate();
        self.users.insert(id, entity);
        assert(self@ =~= old(self)@.insert(id, copy@));
        Ok(copy)
    }

    pub fn get(&self, id: u128) -> (r: Result<User, GetUserError>)
        requires
            self.wf(),
        ensures
            self@.contains_key(id) ==> (r matches Ok(user) && user@ == self@[id]),
            !self@.contains_key(id) ==> r == Err::<User, GetUserError>(
                GetUserError::NoSuchEntity { id },
            ),
    {
        match self.users.get(&id) {
            Some(user) => Ok(user.duplicate()),
            None => Err(GetUserError::NoSuchEntity { id }),
        }
    }

    /// Renames the user `id` after `params`, last updated at `now`. An
    /// unknown identifier is reported first, then an invalid name.
    pub fn update(&mut self, id: u128, params: UpdateUserParams, now: Timestamp) -> (r: Result<
        User,
        UpdateUserError,
    >)
        requires
            old(self).wf(),
        ensures
            final(self).wf(),
            !old(self)@.contains_key(id) ==> r == Err::<User, UpdateUserError>(
                UpdateUserError::NoSuchEntity { id },
            ) && final(self)@ == old(self)@,
            old(self)@.contains_key(id) && !name_valid(params@) ==> r == Err::<
                User,
                UpdateUserError,
            >(UpdateUserError::InvalidParams) && final(self)@ == old(self)@,
            old(self)@.contains_key(id) && name_valid(params@) ==> (r matches Ok(user) && user@
                == (UserView { name: params@, updated_at: now, ..old(self)@[id] }) && final(self)@
                == old(self)@.insert(id, user@)),
    {
        let mut user = match self.users.get(&id) {
            Some(user) => user.duplicate(),
            None => return Err(UpdateUserError::NoSuchEntity { id }),
        };
        match user.try_update(params, now) {
            Ok(()) => {},
            Err(e) => return Err(UpdateUserError::from(e)),
        }
        let copy = user.duplicate();
        self.users.insert(id, user);
        assert(self@ =~= old(self)@.insert(id, copy@));
        Ok(copy)
    }

    pub fn delete(&mut self, id: u128) -> (r: Result<(), DeleteUserError>)
        requires
            old(self).wf(),
        ensures
            final(self).wf(),
            old(self)@.contains_key(id) ==> r is Ok && final(self)@ == old(self)@.remove(id),
            !old(self)@.contains_key(id) ==> r == Err::<(), DeleteUserError>(
                DeleteUserError::NoSuchEntity { id },
            ) && final(self)@ == old(self)@,
    {
        match self.users.remove(&id) {
            Some(_) => {
                assert(self@ =~= old(self)@.remove(id));
                Ok(())
            },
            None => {
                assert(self@ =~= old(self)@);
                Err(DeleteUserError::NoSuchEntity { id })
            },
        }
    }
}

} // verus!
