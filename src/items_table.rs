//! The items kept in memory, keyed by identifier.

use vstd::prelude::*;
use std::collections::HashMap;
use vstd::std_specs::hash::spec_keys_iter;
use vstd::std_specs::iter::IteratorSpec;
use crate::dao_errors::{CreateItemError, DeleteItemError, GetItemError, UpdateItemError};
use crate::items::{
    item_draft_valid, item_of_draft, new_item_draft, updated_item_draft, Item, ItemView,
};
use crate::pagination::{Pagination, PaginationView};
use crate::params::{CreateItemParams, UpdateItemParams};
use crate::record::{is_before, Timestamp};

verus! {

broadcast use vstd::std_specs::hash::group_hash_axioms;

/// `s` lists every item of `table` once.
pub open spec fn is_arrangement(table: Map<u128, ItemView>, s: Seq<ItemView>) -> bool {
    &&& s.len() == table.dom().len()
    &&& forall|i: int|
        #![trigger s[i]]
        0 <= i < s.len() ==> table.contains_key(s[i].id) && table[s[i].id] == s[i]
    &&& forall|i: int, j: int| 0 <= i < j < s.len() ==> s[i].id != s[j].id
}

/// No item of `s` was last updated before one that comes ahead of it.
pub open spec fn sorted_by_update(s: Seq<ItemView>) -> bool {
    forall|i: int, j: int| 0 <= i < j < s.len() ==> !is_before(s[j].updated_at, s[i].updated_at)
}

/// The part of `s` that page `p` covers: `p.limit` items from offset
/// `(p.page - 1) * p.limit`, fewer at the end, none past it.
pub open spec fn page_of(s: Seq<ItemView>, p: PaginationView) -> Seq<ItemView> {
    let offset = (p.page - 1) * p.limit;
    if offset >= s.len() {
        Seq::empty()
    } else if offset + p.limit >= s.len() {
        s.subrange(offset, s.len() as int)
    } else {
        s.subrange(offset, offset + p.limit)
    }
}

pub open spec fn item_views(v: Seq<Item>) -> Seq<ItemView> {
    v.map_values(|i: Item| i@)
}

/// Putting `x` at `pos`, after every item not updated later than it and
/// before the first one updated later, keeps the order.
proof fn lemma_insert_keeps_order(s: Seq<ItemView>, pos: int, x: ItemView)
    requires
        sorted_by_update(s),
        0 <= pos <= s.len(),
        forall|j: int| 0 <= j < pos ==> !is_before(x.updated_at, #[trigger] s[j].updated_at),
        pos < s.len() ==> is_before(x.updated_at, s[pos].updated_at),
    ensures
        sorted_by_update(s.insert(pos, x)),
{
    let t = s.insert(pos, x);
    assert forall|a: int, b: int| 0 <= a < b < t.len() implies !is_before(
        t[b].updated_at,
        t[a].updated_at,
    ) by {
        if b < pos {
            assert(t[a] == s[a] && t[b] == s[b]);
        } else if b == pos {
            assert(t[a] == s[a]);
        } else if a < pos {
            assert(t[a] == s[a] && t[b] == s[b - 1]);
        } else if a == pos {
            assert(t[b] == s[b - 1]);
            if b - 1 > pos {
                assert(!is_before(s[b - 1].updated_at, s[pos].updated_at));
            }
        } else {
            assert(t[a] == s[a - 1] && t[b] == s[b - 1]);
        }
    }
}

pub struct ItemsHashMapDao {
    items: HashMap<u128, Item>,
}

impl View for ItemsHashMapDao {
    type V = Map<u128, ItemView>;

    closed spec fn view(&self) -> Map<u128, ItemView> {
        self.items@.map_values(|i: Item| i@)
    }
}

impl ItemsHashMapDao {
    /// Every item is kept under its own identifier.
    pub closed spec fn wf(&self) -> bool {
        forall|k: u128| #[trigger] self.items@.contains_key(k) ==> self.items@[k]@.id == k
    }

    pub fn new() -> (r: ItemsHashMapDao)
        ensures
            r@ == Map::<u128, ItemView>::empty(),
            r.wf(),
    {
        let r = ItemsHashMapDao { items: HashMap::new() };
        assert(r@ =~= Map::<u128, ItemView>::empty());
        r
    }

    fn ids(&self) -> (r: Vec<u128>)
        ensures
            r@.to_set() == self.items@.dom(),
            r@.no_duplicates(),
            r@.len() == self.items@.dom().len(),
    {
        let ghost keys = spec_keys_iter(&self.items).remaining();
        let mut ids: Vec<u128> = Vec::new();
        for k in it: self.items.keys()
            invariant
                it.seq() == keys,
                ids@ =~= keys.subrange(0, it.index() as int).map_values(|k: &u128| *k),
        {
            ids.push(*k);
        }
        assert(ids@ =~= keys.map_values(|k: &u128| *k));
        assert(ids@ =~= keys.unref());
        ids
    }

    /// Adds the item that `params` describe, under the new identifier `id`
    /// and created at `now`. Invalid parameters are reported first, then an
    /// identifier that is taken.
    pub fn create(&mut self, params: CreateItemParams, id: u128, now: Timestamp) -> (r: Result<
        Item,
        CreateItemError,
    >)
        requires
            old(self).wf(),
        ensures
            final(self).wf(),
            !item_draft_valid(new_item_draft(params@, id, now)) ==> r == Err::<
                Item,
                CreateItemError,
            >(CreateItemError::InvalidParams) && final(self)@ == old(self)@,
            item_draft_valid(new_item_draft(params@, id, now)) && old(self)@.contains_key(id)
                ==> r == Err::<Item, CreateItemError>(CreateItemError::AlreadyExists { id })
                && final(self)@ == old(self)@,
            item_draft_valid(new_item_draft(params@, id, now)) && !old(self)@.contains_key(id)
                ==> (r matches Ok(item) && item@ == item_of_draft(new_item_draft(params@, id, now))
                && final(self)@ == old(self)@.insert(id, item@)),
    {
        let entity = match params.try_into_item(id, now) {
            Ok(entity) => entity,
            Err(_) => return Err(CreateItemError::InvalidParams),
        };
        if self.items.contains_key(&id) {
            return Err(CreateItemError::AlreadyExists { id });
        }
        let copy = entity.duplicate();
        self.items.insert(id, entity);
        assert(self@ =~= old(self)@.insert(id, copy@));
        Ok(copy)
    }

    pub fn get(&self, id: u128) -> (r: Result<Item, GetItemError>)
        requires
            self.wf(),
        ensures
            self@.contains_key(id) ==> (r matches Ok(item) && item@ == self@[id]),
            !self@.contains_key(id) ==> r == Err::<Item, GetItemError>(
                GetItemError::NoSuchEntity { id },
            ),
    {
        match self.items.get(&id) {
            Some(item) => Ok(item.duplicate()),
            None => Err(GetItemError::NoSuchEntity { id }),
        }
    }

    /// Gives the item `id` the name and location of `params`, last updated
    /// at `now`. An unknown identifier is reported first, then invalid
    /// parameters.
    pub fn update(&mut self, id: u128, params: UpdateItemParams, now: Timestamp) -> (r: Result<
        Item,
        UpdateItemError,
    >)
        requires
            old(self).wf(),
        ensures
            final(self).wf(),
            !old(self)@.contains_key(id) ==> r == Err::<Item, UpdateItemError>(
                UpdateItemError::NoSuchEntity { id },
            ) && final(self)@ == old(self)@,
            old(self)@.contains_key(id) && !item_draft_valid(
                updated_item_draft(old(self)@[id], params@, now),
            ) ==> r == Err::<Item, UpdateItemError>(UpdateItemError::InvalidParams)
                && final(self)@ == old(self)@,
            old(self)@.contains_key(id) && item_draft_valid(
                updated_item_draft(old(self)@[id], params@, now),
            ) ==> (r matches Ok(item) && item@ == item_of_draft(
                updated_item_draft(old(self)@[id], params@, now),
            ) && final(self)@ == old(self)@.insert(id, item@)),
    {
        let current = match self.items.get(&id) {
            Some(item) => item.duplicate(),
            None => return Err(UpdateItemError::NoSuchEntity { id }),
        };
        let updated = match current.try_update(&params, now) {
            Ok(updated) => updated,
            Err(_) => return Err(UpdateItemError::InvalidParams),
        };
        let copy = updated.duplicate();
        self.items.insert(id, updated);
        assert(self@ =~= old(self)@.insert(id, copy@));
        Ok(copy)
    }

    pub fn delete(&mut self, id: u128) -> (r: Result<(), DeleteItemError>)
        requires
            old(self).wf(),
        ensures
            final(self).wf(),
            old(self)@.contains_key(id) ==> r is Ok && final(self)@ == old(self)@.remove(id),
            !old(self)@.contains_key(id) ==> r == Err::<(), DeleteItemError>(
                DeleteItemError::NoSuchEntity { id },
            ) && final(self)@ == old(self)@,
    {
        match self.items.remove(&id) {
            Some(_) => {
                assert(self@ =~= old(self)@.remove(id));
                Ok(())
            },
            None => {
                assert(self@ =~= old(self)@);
                Err(DeleteItemError::NoSuchEntity { id })
            },
        }
    }

    /// The page `pagination` of all items, ordered by last update.
    pub fn list(&self, pagination: &Pagination) -> (r: Vec<Item>)
        requires
            self.wf(),
        ensures
            exists|s: Seq<ItemView>|
                is_arrangement(self@, s) && sorted_by_update(s) && item_views(r@) == page_of(
                    s,
                    pagination@,
                ),
    {
        let ids = self.ids();
        let mut sorted: Vec<Item> = Vec::new();
        let mut i: usize = 0;
        while i < ids.len()
            invariant
                self.wf(),
                i <= ids.len(),
                ids@.no_duplicates(),
                ids@.to_set() == self.items@.dom(),
                ids@.len() == self.items@.dom().len(),
                sorted.len() == i,
                forall|j: int|
                    #![trigger sorted@[j]]
                    0 <= j < sorted.len() ==> self@.contains_key(sorted@[j]@.id) && self@[sorted@[j]@.id]
                        == sorted@[j]@ && ids@.subrange(0, i as int).contains(sorted@[j]@.id),
                forall|a: int, b: int| 0 <= a < b < sorted.len() ==> sorted@[a]@.id != sorted@[b]@.id,
                sorted_by_update(item_views(sorted@)),
            decreases ids.len() - i,
        {
            let id = ids[i];
            proof {
                assert(ids@.to_set().contains(id));
            }
            let item = match self.items.get(&id) {
                Some(item) => item.duplicate(),
                // `id` was read off the map's own keys.
                None => {
                    return Vec::new();
                },
            };
            let ghost before = sorted@;
            let mut pos: usize = 0;
            while pos < sorted.len() && !item.updated_at().before(&sorted[pos].updated_at())
                invariant
                    pos <= sorted.len(),
                    sorted@ == before,
                    forall|j: int|
                        0 <= j < pos ==> !is_before(item@.updated_at, #[trigger] sorted@[j]@.updated_at),
                decreases sorted.len() - pos,
            {
                pos = pos + 1;
            }
            let ghost x = item@;
            proof {
                assert(self.items@.contains_key(id));
                assert(x == self.items@[id]@);
                assert(x.id == id);
                assert(self@[id] == x);
            }
            sorted.insert(pos, item);
            proof {
                assert(item_views(sorted@) =~= item_views(before).insert(pos as int, x));
                lemma_insert_keeps_order(item_views(before), pos as int, x);
                assert forall|j: int|
                    #![trigger sorted@[j]]
                    0 <= j < sorted.len() implies self@.contains_key(sorted@[j]@.id) && self@[sorted@[j]@.id]
                        == sorted@[j]@ && ids@.subrange(0, i + 1).contains(sorted@[j]@.id) by {
                    if j < pos {
                        assert(sorted@[j] == before[j]);
                        let k = choose|k: int| 0 <= k < i && ids@[k] == before[j]@.id;
                        assert(ids@.subrange(0, i + 1)[k] == before[j]@.id);
                    } else if j == pos {
                        assert(sorted@[j]@ == x);
                        assert(ids@.subrange(0, i + 1)[i as int] == id);
                    } else {
                        assert(sorted@[j] == before[j - 1]);
                        let k = choose|k: int| 0 <= k < i && ids@[k] == before[j - 1]@.id;
                        assert(ids@.subrange(0, i + 1)[k] == before[j - 1]@.id);
                    }
                }
                assert forall|a: int, b: int| 0 <= a < b < sorted.len() implies sorted@[a]@.id
                    != sorted@[b]@.id by {
                    if a == pos || b == pos {
                        let other = if a == pos { b } else { a };
                        let o = if other < pos { other } else { other - 1 };
                        assert(sorted@[other] == before[o]);
                        let k = choose|k: int| 0 <= k < i && ids@[k] == before[o]@.id;
                        assert(ids@[k] != ids@[i as int]);
                    } else {
                        let a0 = if a < pos { a } else { a - 1 };
                        let b0 = if b < pos { b } else { b - 1 };
                        assert(sorted@[a] == before[a0]);
                        assert(sorted@[b] == before[b0]);
                    }
                }
            }
            i = i + 1;
        }
        proof {
            assert(ids@.subrange(0, i as int) =~= ids@);
            let s = item_views(sorted@);
            assert forall|j: int| #![trigger s[j]] 0 <= j < s.len() implies self@.contains_key(s[j].id) && self@[s[j].id] == s[j] by {
                assert(s[j] == sorted@[j]@);
            }
            assert(self.items@.dom() =~= self@.dom());
        }
        let page = pagination.page();
        let limit = pagination.limit();
        let n = sorted.len();
        let mut out: Vec<Item> = Vec::new();
        let skip = match (page - 1).checked_mul(limit) {
            Some(skip) => skip,
            None => {
                assert(item_views(out@) =~= page_of(item_views(sorted@), pagination@));
                return out;
            },
        };
        if skip >= n {
            assert(item_views(out@) =~= page_of(item_views(sorted@), pagination@));
            return out;
        }
        let end = if n - skip <= limit { n } else { skip + limit };
        let mut k: usize = skip;
        while k < end
            invariant
                skip <= k <= end <= n == sorted.len(),
                item_views(out@) =~= item_views(sorted@).subrange(skip as int, k as int),
            decreases end - k,
        {
            let ghost prev = out@;
            out.push(sorted[k].duplicate());
            proof {
                assert(item_views(out@) =~= item_views(prev).push(item_views(sorted@)[k as int]));
                assert(item_views(sorted@).subrange(skip as int, k + 1) =~= item_views(
                    sorted@,
                ).subrange(skip as int, k as int).push(item_views(sorted@)[k as int]));
            }
            k = k + 1;
        }
        assert(item_views(out@) =~= page_of(item_views(sorted@), pagination@));
        out
    }
}

} // verus!
