//! What holds of every session and of every book, whatever is entered.

use crate::amount::Amount;
use crate::bill::BillView;
use crate::book::{lists, names};
use crate::dialogue::{says_ok, Notice};
use crate::history::{
    added, apply, arrivals, lemma_apply_len, lemma_count, lemma_count_of_names, never_again,
    removals, replay, Op,
};
use crate::menu::selects;
use crate::menu::MainMenu;
use crate::session::{prompt_lines, transition, Outcome, SessionView, StageView};
use crate::text::decimal;
use vstd::prelude::*;

verus! {

/// One line of input, with the amount that it stands for, if any.
pub struct Entry {
    pub line: Seq<char>,
    pub amount: Option<Amount>,
}

/// A session as it begins: at the menu, with an empty book.
pub open spec fn start() -> SessionView {
    SessionView { book: Map::empty(), stage: StageView::Menu }
}

/// The session after a line. A line that is fatal leaves it as it is.
pub open spec fn after(s: SessionView, entry: Entry) -> SessionView {
    match transition(s, entry.line, entry.amount) {
        Ok((next, outcome)) => next,
        Err(fatal) => s,
    }
}

/// The session after a run of lines from its beginning.
pub open spec fn run(entries: Seq<Entry>) -> SessionView
    decreases entries.len(),
{
    if entries.len() == 0 {
        start()
    } else {
        after(run(entries.drop_last()), entries.last())
    }
}

/// The change that a line makes to the book, if it makes one: the amount
/// that completes an addition adds, the name that follows the choice to
/// remove removes, and `Ok` at the end of an edit edits.
pub open spec fn effect(s: SessionView, entry: Entry) -> Option<Op> {
    if transition(s, entry.line, entry.amount) is Err {
        None
    } else {
        match s.stage {
            StageView::AddAmount { name } => Some(
                Op::Add(BillView { name, amount: entry.amount->0 }),
            ),
            StageView::RemoveName => Some(Op::Remove(entry.line)),
            StageView::EditConfirm { name, amount } => if says_ok(entry.line) {
                Some(Op::Edit(name, amount))
            } else {
                None
            },
            _ => None,
        }
    }
}

/// The changes that a run of lines makes to the book, in their order.
pub open spec fn changes(entries: Seq<Entry>) -> Seq<Op>
    decreases entries.len(),
{
    if entries.len() == 0 {
        Seq::empty()
    } else {
        match effect(run(entries.drop_last()), entries.last()) {
            Some(op) => changes(entries.drop_last()).push(op),
            None => changes(entries.drop_last()),
        }
    }
}

/// A line changes the book by the change that it stands for, and not at
/// all if it stands for none.
pub proof fn lemma_step_effect(s: SessionView, entry: Entry)
    requires
        s.valid(),
    ensures
        after(s, entry).book == (match effect(s, entry) {
            Some(op) => apply(s.book, op),
            None => s.book,
        }),
{
    if transition(s, entry.line, entry.amount) is Ok {
        match s.stage {
            StageView::RemoveName => {
                if !s.book.contains_key(entry.line) {
                    assert(s.book.remove(entry.line) =~= s.book);
                }
            },
            _ => {},
        }
    }
}

/// Key and value agree in every state: a line takes a session in which
/// each bill is filed under its own name to another such session.
pub proof fn lemma_step_keeps_valid(s: SessionView, entry: Entry)
    requires
        s.valid(),
    ensures
        after(s, entry).valid(),
{
    let next = after(s, entry);
    if transition(s, entry.line, entry.amount) is Ok {
        lemma_step_effect(s, entry);
        match effect(s, entry) {
            Some(op) => {
                lemma_apply_len(s.book, op);
            },
            None => {},
        }
    }
}

/// Whatever was entered since the session began, each bill is filed under
/// its own name, and the book is what the changes made so far leave of an
/// empty book.
pub proof fn lemma_run(entries: Seq<Entry>)
    ensures
        run(entries).valid(),
        forall|name: Seq<char>| #[trigger]
            run(entries).book.contains_key(name) ==> run(entries).book[name].name == name,
        run(entries).book == replay(changes(entries)),
    decreases entries.len(),
{
    if entries.len() > 0 {
        let before = entries.drop_last();
        lemma_run(before);
        lemma_step_keeps_valid(run(before), entries.last());
        lemma_step_effect(run(before), entries.last());
        match effect(run(before), entries.last()) {
            Some(op) => {
                assert(changes(entries).drop_last() =~= changes(before));
            },
            None => {},
        }
    }
}

/// A second bill of the same name takes the place of the first: the book
/// is as if the first had never been added, and holds one bill under the
/// name.
pub proof fn lemma_second_add_replaces(
    book: Map<Seq<char>, BillView>,
    first: BillView,
    second: BillView,
)
    requires
        book.dom().finite(),
        first.name == second.name,
    ensures
        apply(apply(book, Op::Add(first)), Op::Add(second)) == apply(book, Op::Add(second)),
        apply(apply(book, Op::Add(first)), Op::Add(second))[first.name] == second,
        apply(apply(book, Op::Add(first)), Op::Add(second)).dom().len() == apply(
            book,
            Op::Add(first),
        ).dom().len(),
{
    assert(book.insert(first.name, first).insert(second.name, second) =~= book.insert(
        second.name,
        second,
    ));
    lemma_apply_len(book, Op::Add(first));
    lemma_apply_len(apply(book, Op::Add(first)), Op::Add(second));
}

/// The total that the menu shows is the number of bills in the book.
pub proof fn lemma_menu_total(s: SessionView)
    requires
        s.stage is Menu,
    ensures
        prompt_lines(s).len() == 9,
        prompt_lines(s)[6] == "Total: "@ + decimal(s.book.dom().len()),
{
}

/// The total that the menu shows after any run of lines is the number of
/// additions that brought a new name less the number of removals that took
/// a bill out; and as long as no name came back once its bill was taken
/// out, that is the number of names ever added less those removals.
pub proof fn lemma_total_counts(entries: Seq<Entry>)
    requires
        run(entries).stage is Menu,
    ensures
        prompt_lines(run(entries))[6] == "Total: "@ + decimal(
            (arrivals(changes(entries)) - removals(changes(entries))) as nat,
        ),
        never_again(changes(entries)) ==> prompt_lines(run(entries))[6] == "Total: "@ + decimal(
            (added(changes(entries)).len() - removals(changes(entries))) as nat,
        ),
{
    lemma_run(entries);
    lemma_count(changes(entries));
    if never_again(changes(entries)) {
        lemma_count_of_names(changes(entries));
    }
}

/// An edit that is confirmed with `Ok` changes the amount of the one bill
/// and nothing else: the same names are in the book, each bill has the
/// name that it had, and every other bill is as it was.
pub proof fn lemma_edit_keeps_names(s: SessionView, entry: Entry)
    requires
        s.valid(),
        s.stage is EditConfirm,
        says_ok(entry.line),
    ensures
        after(s, entry).stage is Menu,
        after(s, entry).book.dom() == s.book.dom(),
        forall|name: Seq<char>| #[trigger]
            s.book.contains_key(name) ==> after(s, entry).book[name].name == s.book[name].name,
        forall|name: Seq<char>|
            #[trigger] s.book.contains_key(name) && name != s.stage->EditConfirm_name ==> after(
                s,
                entry,
            ).book[name] == s.book[name],
        after(s, entry).book[s.stage->EditConfirm_name].amount == s.stage->EditConfirm_amount,
{
    assert(after(s, entry).book.dom() =~= s.book.dom());
}

/// An edit that is not confirmed with `Ok` leaves the book exactly as it
/// was, whether the reply is `Cancel` or anything else.
pub proof fn lemma_unconfirmed_edit(s: SessionView, entry: Entry)
    requires
        s.stage is EditConfirm,
        !says_ok(entry.line),
    ensures
        after(s, entry).book == s.book,
        entry.line.len() > 0 ==> after(s, entry).stage is Menu,
{
}

/// A whole edit that does not end in `Ok` leaves the book exactly as it
/// was: the choice to edit, the name of a bill that is there, an amount,
/// and a reply other than `Ok`.
pub proof fn lemma_abandoned_edit(
    s: SessionView,
    pick: Entry,
    name: Entry,
    amount: Entry,
    reply: Entry,
)
    requires
        s.stage is Menu,
        selects(pick.line) == Some(MainMenu::EditBill),
        s.book.contains_key(name.line),
        !says_ok(reply.line),
    ensures
        after(after(after(after(s, pick), name), amount), reply).book == s.book,
{
    let picked = after(s, pick);
    assert(picked == s.at(StageView::EditName));
    let named = after(picked, name);
    assert(named.book == s.book);
    let priced = after(named, amount);
    assert(priced.book == s.book);
    assert(priced.stage is Menu || priced.stage is EditName || priced.stage is EditAmount
        || priced.stage is EditConfirm);
}

/// Once a bill was taken out, no bill is found under its name: the book
/// holds none, taking it out again is answered with the notice that there
/// is none, and so is the attempt to edit it.
pub proof fn lemma_remove_sound(s: SessionView, entry: Entry, again: Entry)
    requires
        s.stage is RemoveName,
        entry.line.len() > 0,
        s.book.contains_key(entry.line),
        again.line == entry.line,
    ensures
        !after(s, entry).book.contains_key(entry.line),
        after(s, entry).stage is Menu,
        transition(after(s, entry).at(StageView::RemoveName), again.line, again.amount) == Ok::<
            (SessionView, Outcome),
            crate::session::Fatal,
        >((after(s, entry), Outcome::Notice(Notice::BillNotFound))),
        transition(after(s, entry).at(StageView::EditName), again.line, again.amount) == Ok::<
            (SessionView, Outcome),
            crate::session::Fatal,
        >((after(s, entry), Outcome::Notice(Notice::BillNotFound))),
{
}

/// A listing shows each bill of the book at exactly one place, and shows
/// nothing that is not in the book.
pub proof fn lemma_listing_complete(listing: Seq<BillView>, book: Map<Seq<char>, BillView>)
    requires
        lists(listing, book),
    ensures
        forall|name: Seq<char>| #[trigger]
            book.contains_key(name) ==> exists|i: int|
                0 <= i < listing.len() && #[trigger] listing[i] == book[name],
        forall|i: int, j: int|
            0 <= i < listing.len() && 0 <= j < listing.len() && listing[i].name == listing[j].name
                ==> i == j,
        forall|i: int|
            0 <= i < listing.len() ==> book.contains_key(#[trigger] listing[i].name)
                && book[listing[i].name] == listing[i],
        listing.len() == book.dom().len(),
{
    assert forall|name: Seq<char>| #[trigger] book.contains_key(name) implies exists|i: int|
        0 <= i < listing.len() && #[trigger] listing[i] == book[name] by {
        assert(names(listing, name));
        let i = choose|i: int| 0 <= i < listing.len() && #[trigger] listing[i].name == name;
        assert(listing[i] == book[name]);
    }
}

} // verus!
