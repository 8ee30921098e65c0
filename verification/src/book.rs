//! The book of bills: at most one bill under each name.

use crate::amount::Amount;
use crate::bill::{Bill, BillView};
use crate::text::same_text;
use vstd::prelude::*;

verus! {

/// No two entries have the same name.
pub open spec fn distinct_names(entries: Seq<BillView>) -> bool {
    forall|i: int, j: int|
        0 <= i < entries.len() && 0 <= j < entries.len() && i != j ==> entries[i].name
            != entries[j].name
}

/// Some entry has the given name.
pub open spec fn names(entries: Seq<BillView>, name: Seq<char>) -> bool {
    exists|i: int| 0 <= i < entries.len() && #[trigger] entries[i].name == name
}

/// The place of an entry that has the given name.
pub open spec fn place(entries: Seq<BillView>, name: Seq<char>) -> int {
    choose|i: int| 0 <= i < entries.len() && #[trigger] entries[i].name == name
}

/// The entries as a map: each is filed under its own name.
pub open spec fn filed(entries: Seq<BillView>) -> Map<Seq<char>, BillView> {
    Map::new(|name: Seq<char>| names(entries, name), |name: Seq<char>| entries[place(entries, name)])
}

/// The listing shows the bills of the book, each of them once and nothing
/// else, in whatever order.
pub open spec fn lists(listing: Seq<BillView>, book: Map<Seq<char>, BillView>) -> bool {
    &&& listing.len() == book.dom().len()
    &&& distinct_names(listing)
    &&& forall|i: int|
        0 <= i < listing.len() ==> book.contains_key(#[trigger] listing[i].name)
            && book[listing[i].name] == listing[i]
    &&& forall|name: Seq<char>| #[trigger] book.contains_key(name) ==> names(listing, name)
}

/// Each bill of the book is filed under its own name, no name is empty,
/// and the bills are finitely many.
pub open spec fn well_filed(book: Map<Seq<char>, BillView>) -> bool {
    &&& book.dom().finite()
    &&& forall|name: Seq<char>| #[trigger]
        book.contains_key(name) ==> book[name].name == name && name.len() > 0
}

/// No entry has an empty name.
pub open spec fn named(entries: Seq<BillView>) -> bool {
    forall|i: int| 0 <= i < entries.len() ==> (#[trigger] entries[i]).name.len() > 0
}

/// What a sequence of bills says, bill by bill.
pub open spec fn views(bills: Seq<Bill>) -> Seq<BillView> {
    bills.map_values(|bill: Bill| bill@)
}

/// With distinct names, the map has as many entries as the sequence.
pub proof fn lemma_filed_len(entries: Seq<BillView>)
    requires
        distinct_names(entries),
    ensures
        filed(entries).dom().finite(),
        filed(entries).dom().len() == entries.len(),
    decreases entries.len(),
{
    if entries.len() == 0 {
        assert(filed(entries).dom() =~= Set::<Seq<char>>::empty());
    } else {
        let front = entries.drop_last();
        let last = entries.last();
        lemma_filed_len(front);
        assert forall|name: Seq<char>|
            filed(entries).dom().contains(name) <==> filed(front).dom().insert(
                last.name,
            ).contains(name) by {
            if names(entries, name) {
                let i = place(entries, name);
                if i < front.len() {
                    assert(front[i].name == name);
                }
            }
            if names(front, name) {
                let i = place(front, name);
                assert(entries[i].name == name);
            }
            if name == last.name {
                assert(entries[entries.len() - 1].name == name);
            }
        }
        assert(filed(entries).dom() =~= filed(front).dom().insert(last.name));
        assert(!filed(front).dom().contains(last.name)) by {
            if names(front, last.name) {
                let i = place(front, last.name);
                assert(entries[i].name == entries[entries.len() - 1].name);
            }
        }
    }
}

/// Each entry of a sequence with distinct names is what the map holds
/// under the entry's name.
pub proof fn lemma_filed_entry(entries: Seq<BillView>, i: int)
    requires
        distinct_names(entries),
        0 <= i < entries.len(),
    ensures
        filed(entries).contains_key(entries[i].name),
        filed(entries)[entries[i].name] == entries[i],
        place(entries, entries[i].name) == i,
{
    assert(entries[i].name == entries[i].name);
}

/// A new name at the end of the sequence is a new entry of the map.
pub proof fn lemma_filed_push(entries: Seq<BillView>, entry: BillView)
    requires
        distinct_names(entries),
        !names(entries, entry.name),
    ensures
        distinct_names(entries.push(entry)),
        filed(entries.push(entry)) == filed(entries).insert(entry.name, entry),
{
    let after = entries.push(entry);
    assert forall|i: int, j: int|
        0 <= i < after.len() && 0 <= j < after.len() && i != j implies after[i].name
        != after[j].name by {
        if i < entries.len() {
            assert(entries[i].name == after[i].name);
        }
        if j < entries.len() {
            assert(entries[j].name == after[j].name);
        }
    }
    assert forall|name: Seq<char>|
        filed(after).contains_key(name) <==> filed(entries).insert(
            entry.name,
            entry,
        ).contains_key(name) by {
        if names(entries, name) {
            let i = place(entries, name);
            assert(after[i].name == name);
        }
        if names(after, name) {
            let i = place(after, name);
            if i < entries.len() {
                assert(entries[i].name == name);
            }
        }
        if name == entry.name {
            assert(after[after.len() - 1].name == name);
        }
    }
    assert forall|name: Seq<char>| filed(after).contains_key(name) implies filed(after)[name]
        == filed(entries).insert(entry.name, entry)[name] by {
        let i = place(after, name);
        lemma_filed_entry(after, i);
        if i < entries.len() {
            lemma_filed_entry(entries, i);
        }
    }
    assert(filed(after) =~= filed(entries).insert(entry.name, entry));
}

/// Another entry of the same name in the same place takes the old one's
/// place in the map.
pub proof fn lemma_filed_update(entries: Seq<BillView>, i: int, entry: BillView)
    requires
        distinct_names(entries),
        0 <= i < entries.len(),
        entries[i].name == entry.name,
    ensures
        distinct_names(entries.update(i, entry)),
        filed(entries.update(i, entry)) == filed(entries).insert(entry.name, entry),
{
    let after = entries.update(i, entry);
    assert forall|a: int, b: int|
        0 <= a < after.len() && 0 <= b < after.len() && a != b implies after[a].name
        != after[b].name by {
        assert(after[a].name == entries[a].name);
        assert(after[b].name == entries[b].name);
    }
    assert forall|name: Seq<char>|
        filed(after).contains_key(name) <==> filed(entries).insert(
            entry.name,
            entry,
        ).contains_key(name) by {
        if names(entries, name) {
            let k = place(entries, name);
            assert(after[k].name == name);
        }
        if names(after, name) {
            let k = place(after, name);
            assert(entries[k].name == name);
        }
        if name == entry.name {
            assert(after[i].name == name);
        }
    }
    assert forall|name: Seq<char>| filed(after).contains_key(name) implies filed(after)[name]
        == filed(entries).insert(entry.name, entry)[name] by {
        let k = place(after, name);
        lemma_filed_entry(after, k);
        lemma_filed_entry(entries, k);
    }
    assert(filed(after) =~= filed(entries).insert(entry.name, entry));
}

/// Taking an entry out of the sequence takes its name out of the map.
pub proof fn lemma_filed_remove(entries: Seq<BillView>, i: int)
    requires
        distinct_names(entries),
        0 <= i < entries.len(),
    ensures
        distinct_names(entries.remove(i)),
        filed(entries.remove(i)) == filed(entries).remove(entries[i].name),
{
    let after = entries.remove(i);
    let gone = entries[i].name;
    assert forall|a: int| 0 <= a < after.len() implies #[trigger] after[a] == entries[if a < i {
        a
    } else {
        a + 1
    }] by {}
    assert forall|a: int, b: int|
        0 <= a < after.len() && 0 <= b < after.len() && a != b implies after[a].name
        != after[b].name by {
        let x = if a < i { a } else { a + 1 };
        let y = if b < i { b } else { b + 1 };
        assert(after[a] == entries[x]);
        assert(after[b] == entries[y]);
    }
    assert forall|name: Seq<char>|
        filed(after).contains_key(name) <==> filed(entries).remove(gone).contains_key(name) by {
        if names(after, name) {
            let a = place(after, name);
            let x = if a < i { a } else { a + 1 };
            assert(after[a] == entries[x]);
            assert(entries[x].name == name);
        }
        if names(entries, name) && name != gone {
            let x = place(entries, name);
            let a = if x < i { x } else { x - 1 };
            assert(after[a] == entries[x]);
            assert(after[a].name == name);
        }
    }
    assert forall|name: Seq<char>| filed(after).contains_key(name) implies filed(after)[name]
        == filed(entries).remove(gone)[name] by {
        let a = place(after, name);
        let x = if a < i { a } else { a + 1 };
        assert(after[a] == entries[x]);
        lemma_filed_entry(after, a);
        lemma_filed_entry(entries, x);
    }
    assert(filed(after) =~= filed(entries).remove(gone));
}

/// A sequence with distinct names lists the map that it makes.
pub proof fn lemma_filed_lists(entries: Seq<BillView>)
    requires
        distinct_names(entries),
    ensures
        lists(entries, filed(entries)),
{
    lemma_filed_len(entries);
    assert forall|i: int| 0 <= i < entries.len() implies filed(entries).contains_key(
        #[trigger] entries[i].name,
    ) && filed(entries)[entries[i].name] == entries[i] by {
        lemma_filed_entry(entries, i);
    }
}

/// A handle on the amount of the bill at a place. Nothing else of the bills
/// can change through it.
fn amount_at(bills: &mut Vec<Bill>, i: usize) -> (r: &mut Amount)
    requires
        i < old(bills)@.len(),
    ensures
        *r == old(bills)@[i as int]@.amount,
        final(bills)@.len() == old(bills)@.len(),
        forall|k: int|
            0 <= k < old(bills)@.len() && k != i ==> final(bills)@[k] == old(bills)@[k],
        final(bills)@[i as int]@ == (BillView {
            name: old(bills)@[i as int]@.name,
            amount: *final(r),
        }),
    no_unwind
{
    bills[i].amount_mut()
}

/// The bills of one session, each filed under its own name.
pub struct BillBook {
    bills: Vec<Bill>,
}

impl View for BillBook {
    type V = Map<Seq<char>, BillView>;

    closed spec fn view(&self) -> Map<Seq<char>, BillView> {
        filed(views(self.bills@))
    }
}

impl BillBook {
    #[verifier::type_invariant]
    pub closed spec fn inv(&self) -> bool {
        distinct_names(views(self.bills@)) && named(views(self.bills@))
    }

    /// Each bill of a book is filed under its own name, and no name is
    /// empty.
    pub proof fn lemma_well_filed(self)
        requires
            self.inv(),
        ensures
            well_filed(self@),
    {
        let entries = views(self.bills@);
        lemma_filed_len(entries);
        assert forall|name: Seq<char>| #[trigger] self@.contains_key(name) implies self@[name].name
            == name && name.len() > 0 by {
            let i = place(entries, name);
            lemma_filed_entry(entries, i);
        }
    }

    /// A book without bills.
    pub fn new() -> (r: BillBook)
        ensures
            r@ == Map::<Seq<char>, BillView>::empty(),
    {
        let r = BillBook { bills: Vec::new() };
        assert(r@ =~= Map::<Seq<char>, BillView>::empty());
        r
    }

    /// Takes the bills out and leaves none behind.
    fn take(&mut self) -> (r: Vec<Bill>)
        ensures
            r == old(self).bills,
            final(self).bills@ == Seq::<Bill>::empty(),
    {
        let mut bills = Vec::new();
        core::mem::swap(&mut self.bills, &mut bills);
        bills
    }

    fn find(&self, name: &str) -> (r: Option<usize>)
        ensures
            match r {
                Some(i) => i < self.bills@.len() && self.bills@[i as int]@.name == name@,
                None => !names(views(self.bills@), name@),
            },
    {
        let mut i: usize = 0;
        while i < self.bills.len()
            invariant
                0 <= i <= self.bills@.len(),
                forall|k: int| 0 <= k < i ==> self.bills@[k]@.name != name@,
            decreases self.bills@.len() - i,
        {
            if same_text(self.bills[i].name(), name) {
                return Some(i);
            }
            i += 1;
        }
        assert forall|k: int| 0 <= k < views(self.bills@).len() implies views(self.bills@)[k].name
            != name@ by {
            assert(views(self.bills@)[k] == self.bills@[k]@);
        }
        None
    }

    /// Files the bill under its name. A bill that was there under that
    /// name is replaced.
    pub fn insert(&mut self, bill: Bill)
        ensures
            final(self)@ == old(self)@.insert(bill@.name, bill@),
    {
        proof {
            use_type_invariant(&*self);
        }
        let ghost before = views(self.bills@);
        let found = self.find(bill.name());
        let mut bills = self.take();
        match found {
            Some(i) => {
                proof {
                    lemma_filed_update(before, i as int, bill@);
                    assert(views(bills@.update(i as int, bill)) =~= before.update(i as int, bill@));
                }
                bills.set(i, bill);
            },
            None => {
                proof {
                    lemma_filed_push(before, bill@);
                    assert(views(bills@.push(bill)) =~= before.push(bill@));
                }
                bills.push(bill);
            },
        }
        self.bills = bills;
    }

    /// The bill filed under the name, if there is one.
    pub fn get(&self, name: &str) -> (r: Option<&Bill>)
        ensures
            match r {
                Some(bill) => self@.contains_key(name@) && bill@ == self@[name@]
                    && bill@.name == name@,
                None => !self@.contains_key(name@),
            },
    {
        proof {
            use_type_invariant(self);
        }
        match self.find(name) {
            Some(i) => {
                proof {
                    assert(views(self.bills@)[i as int] == self.bills@[i as int]@);
                    lemma_filed_entry(views(self.bills@), i as int);
                }
                Some(&self.bills[i])
            },
            None => None,
        }
    }

    /// Whether a bill is filed under the name.
    pub fn contains(&self, name: &str) -> (r: bool)
        ensures
            r == self@.contains_key(name@),
    {
        self.get(name).is_some()
    }

    /// A handle on the amount of the bill filed under the name, if there is
    /// one. What is written through the handle is the bill's amount from
    /// then on; the name stays.
    pub fn get_mut(&mut self, name: &str) -> (r: Option<&mut Amount>)
        ensures
            match r {
                Some(amount) => old(self)@.contains_key(name@) && *amount == old(self)@[name@].amount
                    && final(self)@ == old(self)@.insert(
                    name@,
                    BillView { name: name@, amount: *final(amount) },
                ),
                None => !old(self)@.contains_key(name@) && final(self)@ == old(self)@,
            },
    {
        proof {
            use_type_invariant(&*self);
        }
        let ghost before = views(self.bills@);
        match self.find(name) {
            Some(i) => {
                proof {
                    assert(before[i as int] == self.bills@[i as int]@);
                    lemma_filed_entry(before, i as int);
                }
                proof {
                    let now = self.bills@;
                    assert forall|after: Seq<Bill>|
                        after.len() == now.len() && after[i as int]@.name == name@ && (forall|
                            k: int,
                        |
                            0 <= k < now.len() && k != i ==> after[k] == now[k]) implies filed(
                        #[trigger] views(after),
                    ) == self@.insert(name@, after[i as int]@) && distinct_names(views(after))
                        && named(views(after)) by {
                        lemma_filed_update(before, i as int, after[i as int]@);
                        assert(views(after) =~= before.update(i as int, after[i as int]@));
                    }
                }
                let amount = amount_at(&mut self.bills, i);
                Some(amount)
            },
            None => None,
        }
    }

    /// Takes out the bill filed under the name, and says whether there was
    /// one.
    pub fn remove(&mut self, name: &str) -> (r: bool)
        ensures
            r == old(self)@.contains_key(name@),
            final(self)@ == old(self)@.remove(name@),
            !r ==> final(self)@ == old(self)@,
    {
        proof {
            use_type_invariant(&*self);
        }
        let ghost before = views(self.bills@);
        match self.find(name) {
            Some(i) => {
                let mut bills = self.take();
                proof {
                    assert(before[i as int] == bills@[i as int]@);
                    lemma_filed_entry(before, i as int);
                    lemma_filed_remove(before, i as int);
                    assert(views(bills@.remove(i as int)) =~= before.remove(i as int));
                }
                bills.remove(i);
                self.bills = bills;
                true
            },
            None => {
                assert(self@ =~= self@.remove(name@));
                false
            },
        }
    }

    /// The number of bills.
    pub fn len(&self) -> (r: usize)
        ensures
            self@.dom().finite(),
            r == self@.dom().len(),
    {
        proof {
            use_type_invariant(self);
            lemma_filed_len(views(self.bills@));
        }
        self.bills.len()
    }

    /// The bills, each of them once, in no order that a caller may rely on.
    pub fn iter(&self) -> (r: &[Bill])
        ensures
            lists(views(r@), self@),
    {
        proof {
            use_type_invariant(self);
            lemma_filed_lists(views(self.bills@));
        }
        self.bills.as_slice()
    }
}

} // verus!
