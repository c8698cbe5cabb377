//! Items: named things kept at a location.

use vstd::prelude::*;
use crate::params::{opt_view, CreateItemParams, NameLocationView, UpdateItemParams};
use crate::record::{
    byte_len, is_before, text_byte_len, Timestamp, MAX_LOCATION_LENGTH, MAX_NAME_LENGTH,
};

verus! {

pub struct ItemView {
    pub id: u128,
    pub name: Seq<char>,
    pub location: Seq<char>,
    pub created_at: Timestamp,
    pub updated_at: Timestamp,
}

/// A stored item, valid by construction: see `item_result`.
#[derive(Clone, Debug, PartialEq, Eq)]
pub struct Item {
    id: u128,
    name: String,
    location: String,
    created_at: Timestamp,
    updated_at: Timestamp,
}

impl View for Item {
    type V = ItemView;

    closed spec fn view(&self) -> ItemView {
        ItemView {
            id: self.id,
            name: self.name@,
            location: self.location@,
            created_at: self.created_at,
            updated_at: self.updated_at,
        }
    }
}

impl Item {
    pub fn id(&self) -> (r: u128)
        ensures
            r == self@.id,
    {
        self.id
    }

    pub fn name(&self) -> (r: &str)
        ensures
            r@ == self@.name,
    {
        self.name.as_str()
    }

    pub fn location(&self) -> (r: &str)
        ensures
            r@ == self@.location,
    {
        self.location.as_str()
    }

    pub fn created_at(&self) -> (r: Timestamp)
        ensures
            r == self@.created_at,
    {
        self.created_at
    }

    pub fn updated_at(&self) -> (r: Timestamp)
        ensures
            r == self@.updated_at,
    {
        self.updated_at
    }

    /// A copy of the item.
    pub fn duplicate(&self) -> (r: Item)
        ensures
            r@ == self@,
    {
        Item {
            id: self.id,
            name: self.name.clone(),
            location: self.location.clone(),
            created_at: self.created_at,
            updated_at: self.updated_at,
        }
    }
}

#[derive(Clone, Debug, PartialEq, Eq)]
pub enum ItemBuilderError {
    NameNotSet,
    NameIsEmpty,
    NameTooLong { name: String },
    LocationNotSet,
    LocationIsEmpty,
    LocationTooLong { location: String },
    UpdatedBeforeCreation { updated_at: Timestamp, created_at: Timestamp },
}

pub struct ItemDraft {
    pub id: u128,
    pub name: Option<Seq<char>>,
    pub location: Option<Seq<char>>,
    pub created_at: Timestamp,
    pub updated_at: Timestamp,
}

/// Collects the fields of an item; `build` checks them.
#[derive(Clone, Debug)]
pub struct ItemBuilder {
    id: u128,
    name: Option<String>,
    location: Option<String>,
    created_at: Timestamp,
    updated_at: Timestamp,
}

impl View for ItemBuilder {
    type V = ItemDraft;

    closed spec fn view(&self) -> ItemDraft {
        ItemDraft {
            id: self.id,
            name: opt_view(self.name),
            location: opt_view(self.location),
            created_at: self.created_at,
            updated_at: self.updated_at,
        }
    }
}

/// The fields collected pass every check of `build`.
pub open spec fn item_draft_valid(d: ItemDraft) -> bool {
    &&& d.name matches Some(name) && name.len() != 0 && byte_len(name) <= MAX_NAME_LENGTH
    &&& d.location matches Some(location) && location.len() != 0 && byte_len(location)
        <= MAX_LOCATION_LENGTH
    &&& !is_before(d.updated_at, d.created_at)
}

/// The item that valid fields make.
pub open spec fn item_of_draft(d: ItemDraft) -> ItemView {
    ItemView {
        id: d.id,
        name: d.name->Some_0,
        location: d.location->Some_0,
        created_at: d.created_at,
        updated_at: d.updated_at,
    }
}

/// What `build` gives for the fields collected. The checks come in this
/// order: name and location are set, the name is neither empty nor longer
/// than the limit, the same for the location, and the last update is not
/// before the creation.
pub open spec fn item_result(d: ItemDraft, r: Result<Item, ItemBuilderError>) -> bool {
    match (d.name, d.location) {
        (None, _) => r == Err::<Item, ItemBuilderError>(ItemBuilderError::NameNotSet),
        (Some(_), None) => r == Err::<Item, ItemBuilderError>(ItemBuilderError::LocationNotSet),
        (Some(name), Some(location)) => if name.len() == 0 {
            r == Err::<Item, ItemBuilderError>(ItemBuilderError::NameIsEmpty)
        } else if byte_len(name) > MAX_NAME_LENGTH {
            r matches Err(ItemBuilderError::NameTooLong { name: n }) && n@ == name
        } else if location.len() == 0 {
            r == Err::<Item, ItemBuilderError>(ItemBuilderError::LocationIsEmpty)
        } else if byte_len(location) > MAX_LOCATION_LENGTH {
            r matches Err(ItemBuilderError::LocationTooLong { location: l }) && l@ == location
        } else if is_before(d.updated_at, d.created_at) {
            r == Err::<Item, ItemBuilderError>(
                ItemBuilderError::UpdatedBeforeCreation {
                    updated_at: d.updated_at,
                    created_at: d.created_at,
                },
            )
        } else {
            r matches Ok(item) && item@ == (ItemView {
                id: d.id,
                name,
                location,
                created_at: d.created_at,
                updated_at: d.updated_at,
            })
        },
    }
}

impl ItemBuilder {
    /// A fresh item: `id` is its new identifier, `now` both its creation and
    /// its last update.
    pub fn new(id: u128, now: Timestamp) -> (r: ItemBuilder)
        ensures
            r@ == (ItemDraft { id, name: None, location: None, created_at: now, updated_at: now }),
    {
        ItemBuilder { id, name: None, location: None, created_at: now, updated_at: now }
    }

    pub fn id(self, id: u128) -> (r: ItemBuilder)
        ensures
            r@ == (ItemDraft { id, ..self@ }),
    {
        ItemBuilder { id, ..self }
    }

    pub fn name(self, name: String) -> (r: ItemBuilder)
        ensures
            r@ == (ItemDraft { name: Some(name@), ..self@ }),
    {
        ItemBuilder { name: Some(name), ..self }
    }

    pub fn location(self, location: String) -> (r: ItemBuilder)
        ensures
            r@ == (ItemDraft { location: Some(location@), ..self@ }),
    {
        ItemBuilder { location: Some(location), ..self }
    }

    pub fn created_at(self, created_at: Timestamp) -> (r: ItemBuilder)
        ensures
            r@ == (ItemDraft { created_at, ..self@ }),
    {
        ItemBuilder { created_at, ..self }
    }

    pub fn update_at(self, updated_at: Timestamp) -> (r: ItemBuilder)
        ensures
            r@ == (ItemDraft { updated_at, ..self@ }),
    {
        ItemBuilder { updated_at, ..self }
    }

    pub fn build(self) -> (r: Result<Item, ItemBuilderError>)
        ensures
            item_result(self@, r),
    {
        let name = match self.name {
            Some(name) => name,
            None => return Err(ItemBuilderError::NameNotSet),
        };
        let location = match self.location {
            Some(location) => location,
            None => return Err(ItemBuilderError::LocationNotSet),
        };
        if name.as_str().is_empty() {
            return Err(ItemBuilderError::NameIsEmpty);
        }
        if text_byte_len(&name) > MAX_NAME_LENGTH {
            return Err(ItemBuilderError::NameTooLong { name });
        }
        if location.as_str().is_empty() {
            return Err(ItemBuilderError::LocationIsEmpty);
        }
        if text_byte_len(&location) > MAX_LOCATION_LENGTH {
            return Err(ItemBuilderError::LocationTooLong { location });
        }
        if self.updated_at.before(&self.created_at) {
            return Err(
                ItemBuilderError::UpdatedBeforeCreation {
                    updated_at: self.updated_at,
                    created_at: self.created_at,
                },
            );
        }
        Ok(
            Item {
                id: self.id,
                name,
                location,
                created_at: self.created_at,
                updated_at: self.updated_at,
            },
        )
    }
}

impl Item {
    /// The item with the name and location of `mutation`, last updated at
    /// `now`; identifier and creation time stay.
    pub fn try_update(self, mutation: &UpdateItemParams, now: Timestamp) -> (r: Result<
        Item,
        ItemBuilderError,
    >)
        ensures
            item_result(updated_item_draft(self@, mutation@, now), r),
    {
        ItemBuilder::new(self.id, now).name(mutation.name().to_owned()).location(
            mutation.location().to_owned(),
        ).created_at(self.created_at).update_at(now).build()
    }
}

/// The fields that an update of `item` with name and location `p` at `now`
/// gives: identifier and creation time stay.
pub open spec fn updated_item_draft(item: ItemView, p: NameLocationView, now: Timestamp) -> ItemDraft {
    ItemDraft {
        id: item.id,
        name: Some(p.name),
        location: Some(p.location),
        created_at: item.created_at,
        updated_at: now,
    }
}

/// The item that new parameters describe: identifier `id`, created and
/// updated at `now`.
pub open spec fn new_item_draft(p: NameLocationView, id: u128, now: Timestamp) -> ItemDraft {
    ItemDraft {
        id,
        name: Some(p.name),
        location: Some(p.location),
        created_at: now,
        updated_at: now,
    }
}

impl CreateItemParams {
    pub fn try_into_item(self, id: u128, now: Timestamp) -> (r: Result<Item, ItemBuilderError>)
        ensures
            item_result(new_item_draft(self@, id, now), r),
    {
        ItemBuilder::new(id, now).location(self.location().to_owned()).name(
            self.name().to_owned(),
        ).build()
    }
}

impl UpdateItemParams {
    pub fn try_into_item(self, id: u128, now: Timestamp) -> (r: Result<Item, ItemBuilderError>)
        ensures
            item_result(new_item_draft(self@, id, now), r),
    {
        ItemBuilder::new(id, now).location(self.location().to_owned()).name(
            self.name().to_owned(),
        ).build()
    }
}

} // verus!
