//! What a book holds after a run of additions, removals and edits, and how
//! many bills that makes.

use crate::amount::Amount;
use crate::bill::BillView;
use vstd::prelude::*;

verus! {

/// One change to a book.
pub enum Op {
    /// File the bill under its name, in place of the bill that is there.
    Add(BillView),
    /// Take out the bill of this name, if there is one.
    Remove(Seq<char>),
    /// Give the bill of this name this amount, if there is one.
    Edit(Seq<char>, Amount),
}

/// The book after one change.
pub open spec fn apply(book: Map<Seq<char>, BillView>, op: Op) -> Map<Seq<char>, BillView> {
    match op {
        Op::Add(bill) => book.insert(bill.name, bill),
        Op::Remove(name) => book.remove(name),
        Op::Edit(name, amount) => if book.contains_key(name) {
            book.insert(name, BillView { name, amount })
        } else {
            book
        },
    }
}

/// The book after a run of changes to an empty book.
pub open spec fn replay(ops: Seq<Op>) -> Map<Seq<char>, BillView>
    decreases ops.len(),
{
    if ops.len() == 0 {
        Map::empty()
    } else {
        apply(replay(ops.drop_last()), ops.last())
    }
}

/// The last change brings a name that the book does not hold.
pub open spec fn arrives(ops: Seq<Op>) -> bool {
    ops.len() > 0 && (ops.last() matches Op::Add(bill) && !replay(ops.drop_last()).contains_key(
        bill.name,
    ))
}

/// The last change takes a bill out.
pub open spec fn leaves(ops: Seq<Op>) -> bool {
    ops.len() > 0 && (ops.last() matches Op::Remove(name) && replay(ops.drop_last()).contains_key(
        name,
    ))
}

/// How many of the additions brought a name that the book did not hold.
pub open spec fn arrivals(ops: Seq<Op>) -> nat
    decreases ops.len(),
{
    if ops.len() == 0 {
        0
    } else if arrives(ops) {
        arrivals(ops.drop_last()) + 1
    } else {
        arrivals(ops.drop_last())
    }
}

/// How many of the removals took a bill out.
pub open spec fn removals(ops: Seq<Op>) -> nat
    decreases ops.len(),
{
    if ops.len() == 0 {
        0
    } else if leaves(ops) {
        removals(ops.drop_last()) + 1
    } else {
        removals(ops.drop_last())
    }
}

/// The names that were ever added.
pub open spec fn added(ops: Seq<Op>) -> Set<Seq<char>>
    decreases ops.len(),
{
    if ops.len() == 0 {
        Set::empty()
    } else {
        match ops.last() {
            Op::Add(bill) => added(ops.drop_last()).insert(bill.name),
            _ => added(ops.drop_last()),
        }
    }
}

/// The names whose bill was ever taken out.
pub open spec fn taken(ops: Seq<Op>) -> Set<Seq<char>>
    decreases ops.len(),
{
    if ops.len() == 0 {
        Set::empty()
    } else if leaves(ops) {
        taken(ops.drop_last()).insert(ops.last()->Remove_0)
    } else {
        taken(ops.drop_last())
    }
}

/// No name is added again once its bill was taken out.
pub open spec fn never_again(ops: Seq<Op>) -> bool
    decreases ops.len(),
{
    ops.len() == 0 || (never_again(ops.drop_last()) && (ops.last() matches Op::Add(bill)
        ==> !taken(ops.drop_last()).contains(bill.name)))
}

/// Every change keeps each bill under its own name.
pub proof fn lemma_apply_keeps_names(book: Map<Seq<char>, BillView>, op: Op)
    requires
        forall|name: Seq<char>| #[trigger] book.contains_key(name) ==> book[name].name == name,
    ensures
        forall|name: Seq<char>| #[trigger]
            apply(book, op).contains_key(name) ==> apply(book, op)[name].name == name,
{
}

/// One change moves the number of bills by one at most: up when a new
/// name arrives, down when a bill leaves, and not at all otherwise.
pub proof fn lemma_apply_len(book: Map<Seq<char>, BillView>, op: Op)
    requires
        book.dom().finite(),
    ensures
        apply(book, op).dom().finite(),
        apply(book, op).dom().len() == (match op {
            Op::Add(bill) => if book.contains_key(bill.name) {
                book.dom().len()
            } else {
                book.dom().len() + 1
            },
            Op::Remove(name) => if book.contains_key(name) {
                (book.dom().len() - 1) as nat
            } else {
                book.dom().len()
            },
            Op::Edit(name, amount) => book.dom().len(),
        }),
{
    match op {
        Op::Add(bill) => {
            assert(apply(book, op).dom() =~= book.dom().insert(bill.name));
        },
        Op::Remove(name) => {
            assert(apply(book, op).dom() =~= book.dom().remove(name));
        },
        Op::Edit(name, amount) => {
            if book.contains_key(name) {
                assert(apply(book, op).dom() =~= book.dom());
            }
        },
    }
}

/// After any run of changes, the number of bills is the number of
/// additions that brought a new name less the number of removals that took
/// a bill out.
pub proof fn lemma_count(ops: Seq<Op>)
    ensures
        replay(ops).dom().finite(),
        replay(ops).dom().len() == arrivals(ops) - removals(ops),
    decreases ops.len(),
{
    if ops.len() > 0 {
        lemma_count(ops.drop_last());
        lemma_apply_len(replay(ops.drop_last()), ops.last());
    }
}

/// As long as no name comes back once its bill was taken out, the names
/// in the book and the names taken out are apart, and together they are
/// the names that were ever added.
proof fn lemma_names(ops: Seq<Op>)
    requires
        never_again(ops),
    ensures
        added(ops).finite(),
        taken(ops).finite(),
        replay(ops).dom().disjoint(taken(ops)),
        replay(ops).dom().union(taken(ops)) == added(ops),
        taken(ops).len() == removals(ops),
        added(ops).len() == arrivals(ops),
    decreases ops.len(),
{
    if ops.len() == 0 {
        assert(replay(ops).dom().union(taken(ops)) =~= added(ops));
    } else {
        let before = ops.drop_last();
        lemma_names(before);
        lemma_count(before);
        let held = replay(before).dom();
        assert(held.union(taken(before)) == added(before));
        match ops.last() {
            Op::Add(bill) => {
                assert(replay(ops).dom() =~= held.insert(bill.name));
                assert(replay(ops).dom().union(taken(ops)) =~= added(ops));
                if !held.contains(bill.name) {
                    assert(!held.union(taken(before)).contains(bill.name));
                } else {
                    assert(held.union(taken(before)).contains(bill.name));
                }
            },
            Op::Remove(name) => {
                assert(replay(ops).dom() =~= held.remove(name));
                if held.contains(name) {
                    assert(!taken(before).contains(name));
                    assert(held.union(taken(before)).contains(name));
                }
                assert(replay(ops).dom().union(taken(ops)) =~= added(ops));
            },
            Op::Edit(name, amount) => {
                assert(replay(ops).dom() =~= held);
            },
        }
    }
}

/// As long as no name comes back once its bill was taken out, the number
/// of bills is the number of names that were ever added less the number
/// of removals that took a bill out.
pub proof fn lemma_count_of_names(ops: Seq<Op>)
    requires
        never_again(ops),
    ensures
        added(ops).finite(),
        replay(ops).dom().finite(),
        replay(ops).dom().len() == added(ops).len() - removals(ops),
{
    lemma_names(ops);
    lemma_count(ops);
}

} // verus!
