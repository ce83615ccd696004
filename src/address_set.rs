use vstd::prelude::*;
use indexmap::IndexSet;
use crate::types::Address;

verus! {

#[verifier::external_type_specification]
#[verifier::external_body]
#[verifier::reject_recursive_types(T)]
#[verifier::reject_recursive_types(S)]
pub struct ExIndexSet<T, S>(indexmap::IndexSet<T, S>);

/// The items of an insertion-ordered set of address keys, in insertion order.
pub uninterp spec fn address_set_items(s: IndexSet<(u32, u128)>) -> Seq<(u32, u128)>;

/// The key under which an address is held in an `IndexSet`.
pub open spec fn address_key(a: Address) -> (u32, u128) {
    (a.high, a.low)
}

/// Relies on `IndexSet::new`: a set with no items.
#[verifier::external_body]
fn new_address_set() -> (r: IndexSet<(u32, u128)>)
    ensures
        address_set_items(r) == Seq::<(u32, u128)>::empty(),
{
    IndexSet::new()
}

/// Relies on `IndexSet::insert`: an item already present stays where it is
/// and `false` comes back; a new one is appended and `true` comes back.
#[verifier::external_body]
fn address_set_insert(s: &mut IndexSet<(u32, u128)>, key: (u32, u128)) -> (r: bool)
    ensures
        address_set_items(*old(s)).contains(key) ==> !r && address_set_items(*final(s))
            == address_set_items(*old(s)),
        !address_set_items(*old(s)).contains(key) ==> r && address_set_items(*final(s))
            == address_set_items(*old(s)).push(key),
{
    s.insert(key)
}

/// Relies on `IndexSet`'s by-value iterator, which yields the items in
/// insertion order.
#[verifier::external_body]
fn address_set_into_vec(s: IndexSet<(u32, u128)>) -> (r: Vec<(u32, u128)>)
    ensures
        r@ == address_set_items(s),
{
    s.into_iter().collect()
}

/// A set of addresses that remembers the order in which they first came.
pub struct OrderedAddressSet {
    pub set: IndexSet<(u32, u128)>,
}

impl OrderedAddressSet {
    pub open spec fn view(&self) -> Seq<Address> {
        address_set_items(self.set).map_values(
            |k: (u32, u128)| Address { high: k.0, low: k.1 },
        )
    }

    pub fn new() -> (r: OrderedAddressSet)
        ensures
            r.view() == Seq::<Address>::empty(),
    {
        let r = OrderedAddressSet { set: new_address_set() };
        proof {
            assert(r.view() =~= Seq::<Address>::empty());
        }
        r
    }

    /// Adds `a` at the end unless it is already there.
    pub fn insert(&mut self, a: Address)
        ensures
            old(self).view().contains(a) ==> final(self).view() == old(self).view(),
            !old(self).view().contains(a) ==> final(self).view() == old(self).view().push(a),
    {
        let ghost before = self.view();
        proof {
            let items = address_set_items(self.set);
            if before.contains(a) {
                let i = choose|i: int| 0 <= i < before.len() && before[i] == a;
                assert(items[i] == address_key(a));
            }
            if items.contains(address_key(a)) {
                let i = choose|i: int| 0 <= i < items.len() && items[i] == address_key(a);
                assert(before[i] == a);
            }
        }
        address_set_insert(&mut self.set, (a.high, a.low));
        proof {
            assert(self.view() =~= before || self.view() =~= before.push(a));
            if !before.contains(a) {
                assert(self.view() =~= before.push(a));
            }
        }
    }

    /// The addresses in the order in which they first came.
    pub fn into_vec(self) -> (r: Vec<Address>)
        ensures
            r@ == self.view(),
    {
        let keys = address_set_into_vec(self.set);
        let mut out: Vec<Address> = Vec::new();
        let mut i: usize = 0;
        while i < keys.len()
            invariant
                i <= keys@.len(),
                keys@ == address_set_items(self.set),
                out@ =~= self.view().take(i as int),
            decreases keys@.len() - i,
        {
            let k = keys[i];
            out.push(Address { high: k.0, low: k.1 });
            i += 1;
            proof {
                assert(out@ =~= self.view().take(i as int));
            }
        }
        proof {
            assert(self.view().take(i as int) =~= self.view());
        }
        out
    }
}

} // verus!
