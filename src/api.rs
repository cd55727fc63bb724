use crate::shopping_list::{retained, DeleteFilter, ShoppingItem, ShoppingList};
use crate::subscribers::{reaches_each_once, Users};
use vstd::prelude::*;

verus! {

/// What one broadcast did: the payload it sent, and for each subscriber
/// registered at the time its handle and whether its channel took the payload.
pub struct Broadcast {
    pub payload: String,
    pub deliveries: Vec<(u64, bool)>,
}

/// Encodes the current contents with `encode` and offers the result to every
/// registered subscriber.
pub fn update<F: Fn(&ShoppingList) -> String>(
    shopping_list: &ShoppingList,
    users: &Users,
    encode: &F,
) -> (r: Broadcast)
    requires
        encode.requires((shopping_list,)),
    ensures
        encode.ensures((shopping_list,), r.payload),
        reaches_each_once(r.deliveries@, users.handles()),
{
    let payload = encode(shopping_list);
    let deliveries = users.broadcast(&payload);
    Broadcast { payload, deliveries }
}

/// Upserts `updated_item`, then broadcasts the new contents.
pub fn update_shopping_item<F: Fn(&ShoppingList) -> String>(
    updated_item: ShoppingItem,
    shopping_list: &mut ShoppingList,
    users: &Users,
    encode: &F,
) -> (r: Broadcast)
    requires
        old(shopping_list).wf(),
        forall|l: &ShoppingList| encode.requires((l,)),
    ensures
        final(shopping_list).wf(),
        final(shopping_list)@ == old(shopping_list)@.insert(updated_item.id, updated_item),
        encode.ensures((&*final(shopping_list),), r.payload),
        reaches_each_once(r.deliveries@, users.handles()),
{
    shopping_list.upsert(updated_item);
    update(shopping_list, users, encode)
}

/// Removes every checked record, then broadcasts the new contents.
pub fn delete_checked<F: Fn(&ShoppingList) -> String>(
    shopping_list: &mut ShoppingList,
    users: &Users,
    encode: &F,
) -> (r: Broadcast)
    requires
        old(shopping_list).wf(),
        forall|l: &ShoppingList| encode.requires((l,)),
    ensures
        final(shopping_list).wf(),
        final(shopping_list)@ == retained(old(shopping_list)@, DeleteFilter::Checked),
        encode.ensures((&*final(shopping_list),), r.payload),
        reaches_each_once(r.deliveries@, users.handles()),
{
    shopping_list.delete_where(DeleteFilter::Checked);
    update(shopping_list, users, encode)
}

/// Removes every record, then broadcasts the (empty) contents.
pub fn delete_all<F: Fn(&ShoppingList) -> String>(
    shopping_list: &mut ShoppingList,
    users: &Users,
    encode: &F,
) -> (r: Broadcast)
    requires
        old(shopping_list).wf(),
        forall|l: &ShoppingList| encode.requires((l,)),
    ensures
        final(shopping_list).wf(),
        final(shopping_list)@ == Map::<u128, ShoppingItem>::empty(),
        encode.ensures((&*final(shopping_list),), r.payload),
        reaches_each_once(r.deliveries@, users.handles()),
{
    shopping_list.delete_where(DeleteFilter::All);
    proof {
        crate::shopping_list::lemma_delete_all_empties(old(shopping_list)@);
    }
    update(shopping_list, users, encode)
}

/// Drops the subscriber `my_id` from the registry, if it is there; returns
/// whether it was.
pub fn user_disconnected(my_id: u64, users: &mut Users) -> (r: bool)
    requires
        old(users).wf(),
    ensures
        final(users).wf(),
        r == old(users).handles().contains(my_id),
        final(users).handles() == old(users).handles().remove(my_id),
        final(users).next_handle() == old(users).next_handle(),
{
    users.unregister(my_id)
}

} // verus!
