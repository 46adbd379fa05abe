//! Lists that are built item by item, described by the contents of their items.

use vstd::prelude::*;

verus! {

/// An empty list.
pub fn empty_list<T: DeepView>() -> (list: Vec<T>)
    ensures
        list.deep_view() == Seq::<T::V>::empty(),
{
    let list = Vec::new();
    proof {
        assert(list.deep_view() =~= Seq::<T::V>::empty());
    }
    list
}

/// Appends one item.
pub fn add_item<T: DeepView>(list: &mut Vec<T>, item: T)
    ensures
        final(list).deep_view() == old(list).deep_view().push(item.deep_view()),
{
    let ghost before = list.deep_view();
    let ghost value = item.deep_view();
    list.push(item);
    proof {
        assert(list.deep_view() =~= before.push(value));
    }
}

/// Appends all items of another list, in their order.
pub fn add_items<T: DeepView>(list: &mut Vec<T>, items: Vec<T>)
    ensures
        final(list).deep_view() == old(list).deep_view() + items.deep_view(),
{
    let ghost before = list.deep_view();
    let ghost more = items.deep_view();
    let mut items = items;
    list.append(&mut items);
    proof {
        assert(list.deep_view() =~= before + more);
    }
}

/// A list of one item.
pub fn list_of<T: DeepView>(item: T) -> (list: Vec<T>)
    ensures
        list.deep_view() == seq![item.deep_view()],
{
    let mut list = empty_list();
    add_item(&mut list, item);
    list
}

/// Appends one string.
pub fn add_text(list: &mut Vec<String>, item: &str)
    ensures
        final(list).deep_view() == old(list).deep_view().push(item@),
{
    add_item(list, item.to_owned());
}

} // verus!
