//! Lists of amounts, kept in the lists of the contract host.

use vstd::prelude::*;

verus! {

/// The host's list type, `soroban_sdk::Vec`. Nothing is assumed of its inside.
#[verifier::external_type_specification]
#[verifier::external_body]
#[verifier::reject_recursive_types(T)]
pub struct ExHostVec<T>(soroban_sdk::Vec<T>);

/// What a host list of amounts holds, in order. The host does not check the
/// elements of a list that it hands over, so one that is not an `i128` can
/// occur; it stands here as `None`.
pub uninterp spec fn list_items(list: soroban_sdk::Vec<i128>) -> Seq<Option<i128>>;

/// Calls `soroban_sdk::Vec::len`, which counts the elements.
#[verifier::external_body]
fn list_len(list: &soroban_sdk::Vec<i128>) -> (r: u32)
    ensures
        r == list_items(*list).len(),
{
    list.len()
}

/// Calls `soroban_sdk::Vec::try_get`, which gives the element at a position
/// within the list, or an error where that element is not an `i128`.
#[verifier::external_body]
fn list_get(list: &soroban_sdk::Vec<i128>, index: u32) -> (r: Option<i128>)
    requires
        index < list_items(*list).len(),
    ensures
        r == list_items(*list)[index as int],
{
    match list.try_get(index) {
        Ok(item) => item,
        Err(_) => None,
    }
}

/// Calls `soroban_sdk::Vec::new` on the host that `list` lives in: a list with
/// no elements.
#[verifier::external_body]
fn list_new_beside(list: &soroban_sdk::Vec<i128>) -> (r: soroban_sdk::Vec<i128>)
    ensures
        list_items(r) == Seq::<Option<i128>>::empty(),
{
    soroban_sdk::Vec::new(list.env())
}

/// Calls `soroban_sdk::Vec::push_back`, which adds one element at the end.
#[verifier::external_body]
fn list_push_back(list: &mut soroban_sdk::Vec<i128>, item: i128)
    requires
        list_items(*old(list)).len() < u32::MAX,
    ensures
        list_items(*final(list)) == list_items(*old(list)).push(Some(item)),
{
    list.push_back(item)
}

/// Calls `soroban_sdk::Vec::set`, which replaces one element.
#[verifier::external_body]
fn list_set(list: &mut soroban_sdk::Vec<i128>, index: u32, item: i128)
    requires
        index < list_items(*old(list)).len(),
    ensures
        list_items(*final(list)) == list_items(*old(list)).update(index as int, Some(item)),
{
    list.set(index, item)
}

/// Calls `soroban_sdk::Vec::clone`: a second list with the same elements.
#[verifier::external_body]
fn list_clone(list: &soroban_sdk::Vec<i128>) -> (r: soroban_sdk::Vec<i128>)
    ensures
        list_items(r) == list_items(*list),
{
    list.clone()
}

/// Every element of `items` is an amount.
pub open spec fn all_amounts(items: Seq<Option<i128>>) -> bool {
    forall|i: int| 0 <= i < items.len() ==> (#[trigger] items[i]) is Some
}

/// The amounts in `items`.
pub open spec fn amounts_in(items: Seq<Option<i128>>) -> Seq<i128> {
    Seq::new(items.len(), |i: int| items[i]->0)
}

/// A host list in which every element is an amount.
#[derive(Debug, PartialEq, Eq)]
pub struct Amounts {
    list: soroban_sdk::Vec<i128>,
}

impl View for Amounts {
    type V = Seq<i128>;

    closed spec fn view(&self) -> Seq<i128> {
        amounts_in(list_items(self.list))
    }
}

impl Amounts {
    #[verifier::type_invariant]
    spec fn holds_amounts(self) -> bool {
        all_amounts(list_items(self.list))
    }

    /// Takes a host list over, or `None` where an element is not an amount.
    pub fn read(list: soroban_sdk::Vec<i128>) -> (r: Option<Amounts>)
        ensures
            r is Some <==> all_amounts(list_items(list)),
            r matches Some(amounts) ==> amounts@ == amounts_in(list_items(list)),
    {
        let count: u32 = list_len(&list);
        let mut index: u32 = 0;
        while index < count
            invariant
                index <= count == list_items(list).len(),
                forall|i: int| 0 <= i < index ==> (#[trigger] list_items(list)[i]) is Some,
            decreases count - index,
        {
            if list_get(&list, index).is_none() {
                return None;
            }
            index = index + 1;
        }
        Some(Amounts { list })
    }

    /// Gives the host list back.
    pub fn into_list(self) -> (r: soroban_sdk::Vec<i128>)
        ensures
            all_amounts(list_items(r)),
            amounts_in(list_items(r)) == self@,
    {
        proof {
            use_type_invariant(&self);
        }
        self.list
    }

    /// How many amounts there are.
    pub fn len(&self) -> (r: u32)
        ensures
            r == self@.len(),
    {
        list_len(&self.list)
    }

    /// The amount at `index`.
    pub fn get(&self, index: u32) -> (r: Option<i128>)
        ensures
            r == if index < self@.len() {
                Some(self@[index as int])
            } else {
                None
            },
    {
        proof {
            use_type_invariant(self);
        }
        if index < list_len(&self.list) {
            list_get(&self.list, index)
        } else {
            None
        }
    }

    /// The amount at an `index` within the list.
    pub fn at(&self, index: u32) -> (r: i128)
        requires
            index < self@.len(),
        ensures
            r == self@[index as int],
    {
        match self.get(index) {
            Some(amount) => amount,
            None => 0,
        }
    }

    /// A list without amounts, in the same host as this one.
    pub fn new_beside(&self) -> (r: Amounts)
        ensures
            r@ == Seq::<i128>::empty(),
    {
        Amounts { list: list_new_beside(&self.list) }
    }

    /// Adds `amount` at the end.
    pub fn push_back(&mut self, amount: i128)
        requires
            old(self)@.len() < u32::MAX,
        ensures
            final(self)@ == old(self)@.push(amount),
    {
        proof {
            use_type_invariant(&*self);
        }
        let mut list = list_clone(&self.list);
        list_push_back(&mut list, amount);
        *self = Amounts { list };
    }

    /// Replaces the amount at `index`.
    pub fn set(&mut self, index: u32, amount: i128)
        requires
            index < old(self)@.len(),
        ensures
            final(self)@ == old(self)@.update(index as int, amount),
    {
        proof {
            use_type_invariant(&*self);
        }
        let mut list = list_clone(&self.list);
        list_set(&mut list, index, amount);
        *self = Amounts { list };
    }
}

impl Clone for Amounts {
    /// A second list with the same amounts.
    fn clone(&self) -> (r: Self)
        ensures
            r@ == self@,
    {
        proof {
            use_type_invariant(self);
        }
        Amounts { list: list_clone(&self.list) }
    }
}

} // verus!
