//! The session: a menu, the questions that follow a choice, and the book
//! that the answers change. A session takes one line at a time and says
//! what is to be shown in reply; reading and printing are the caller's.

use crate::amount::Amount;
use crate::bill::{Bill, BillView};
use crate::book::{lists, views, well_filed, BillBook};
use crate::dialogue::{confirms, Confirmation, Notice, Prompt};
use crate::menu::{menu_lines, selects, texts, MainMenu};
use vstd::prelude::*;
use vstd::string::*;

verus! {

/// Where a session stands: at the menu, at one of the questions that
/// follow a choice, or at its end.
#[derive(Debug, PartialEq, Eq)]
pub enum Stage {
    /// A command is awaited.
    Menu,
    /// The name of a new bill is awaited.
    AddName,
    /// The amount of the new bill of this name is awaited.
    AddAmount { name: String },
    /// The name of the bill to take out is awaited.
    RemoveName,
    /// The name of the bill to edit is awaited.
    EditName,
    /// The amount that the bill of this name shall have is awaited.
    EditAmount { name: String },
    /// The word that makes this edit stand or gives it up is awaited.
    EditConfirm { name: String, amount: Amount },
    /// The session is over.
    Exited,
}

/// A stage, with texts as sequences of characters.
pub enum StageView {
    Menu,
    AddName,
    AddAmount { name: Seq<char> },
    RemoveName,
    EditName,
    EditAmount { name: Seq<char> },
    EditConfirm { name: Seq<char>, amount: Amount },
    Exited,
}

impl View for Stage {
    type V = StageView;

    open spec fn view(&self) -> StageView {
        match *self {
            Stage::Menu => StageView::Menu,
            Stage::AddName => StageView::AddName,
            Stage::AddAmount { name } => StageView::AddAmount { name: name@ },
            Stage::RemoveName => StageView::RemoveName,
            Stage::EditName => StageView::EditName,
            Stage::EditAmount { name } => StageView::EditAmount { name: name@ },
            Stage::EditConfirm { name, amount } => StageView::EditConfirm { name: name@, amount },
            Stage::Exited => StageView::Exited,
        }
    }
}

/// The three states that a session can be seen in.
#[derive(Clone, Copy, Debug, PartialEq, Eq, Structural)]
pub enum Phase {
    /// Awaiting a command.
    Menu,
    /// Awaiting a name, an amount or a confirmation.
    Prompting,
    /// Over.
    Exited,
}

impl StageView {
    /// The state that the stage belongs to.
    pub open spec fn phase(self) -> Phase {
        match self {
            StageView::Menu => Phase::Menu,
            StageView::Exited => Phase::Exited,
            _ => Phase::Prompting,
        }
    }

    /// An amount is awaited.
    pub open spec fn awaits_amount(self) -> bool {
        self is AddAmount || self is EditAmount
    }
}

/// A session as its contracts see it: the book as a map and the stage.
pub struct SessionView {
    pub book: Map<Seq<char>, BillView>,
    pub stage: StageView,
}

impl SessionView {
    /// What holds of every session: each bill is filed under its own name,
    /// a new bill's name is not empty, and a bill that is being edited is
    /// in the book.
    pub open spec fn valid(self) -> bool {
        &&& well_filed(self.book)
        &&& match self.stage {
            StageView::AddAmount { name } => name.len() > 0,
            StageView::EditAmount { name } => self.book.contains_key(name),
            StageView::EditConfirm { name, amount } => self.book.contains_key(name),
            _ => true,
        }
    }

    /// The session at another stage, with the same book.
    pub open spec fn at(self, stage: StageView) -> SessionView {
        SessionView { book: self.book, stage }
    }
}

/// Why a session cannot go on.
#[derive(Clone, Copy, Debug, PartialEq, Eq, Structural)]
pub enum Fatal {
    /// The line is empty: nothing was entered, or the input has ended.
    EmptyLine,
    /// An amount was awaited, and what was entered is none.
    MalformedAmount,
}

impl Fatal {
    /// The words that say what went wrong.
    pub open spec fn words(self) -> Seq<char> {
        match self {
            Fatal::EmptyLine => "Error reading input"@,
            Fatal::MalformedAmount => "Error parsing input"@,
        }
    }

    /// The words that say what went wrong.
    pub fn text(&self) -> (r: &'static str)
        ensures
            r@ == self.words(),
    {
        match self {
            Fatal::EmptyLine => "Error reading input",
            Fatal::MalformedAmount => "Error parsing input",
        }
    }
}

/// What is to be shown after a line was taken, before the next prompt.
#[derive(Debug, PartialEq, Eq)]
pub enum Reply {
    /// Nothing.
    Quiet,
    /// One notice.
    Notice(Notice),
    /// The bills of the book, each of them once.
    Listing(Vec<Bill>),
}

/// The kind of a reply. Of a listing it leaves the order open.
pub enum Outcome {
    Quiet,
    Notice(Notice),
    Listing,
}

/// The reply is of the given kind; a listing shows the given book.
pub open spec fn answers(reply: Reply, outcome: Outcome, book: Map<Seq<char>, BillView>) -> bool {
    match outcome {
        Outcome::Quiet => reply is Quiet,
        Outcome::Notice(notice) => reply == Reply::Notice(notice),
        Outcome::Listing => reply matches Reply::Listing(bills) && lists(views(bills@), book),
    }
}

/// What a session does with a line. `amount` is the amount that the line
/// stands for, if it stands for one; it counts only where an amount is
/// awaited.
///
/// A session that is over stays as it is. An empty line is fatal at every
/// other stage, and so is a line that stands for no amount where one is
/// awaited. Otherwise:
/// - at the menu, `1`, `3` and `4` lead to the question for a name, `2`
///   lists the bills, `5` ends the session, and anything else is an
///   invalid choice;
/// - adding asks for a name and an amount, and files the bill under the
///   name, in place of the bill that was there;
/// - removing asks for a name, and takes the bill out or says that there is
///   none;
/// - editing asks for a name, says that there is no such bill or goes on
///   to ask for an amount and a confirmation, and gives the bill the
///   amount only if the confirmation is `Ok`.
pub open spec fn transition(s: SessionView, line: Seq<char>, amount: Option<Amount>) -> Result<
    (SessionView, Outcome),
    Fatal,
> {
    if s.stage is Exited {
        Ok((s, Outcome::Quiet))
    } else if line.len() == 0 {
        Err(Fatal::EmptyLine)
    } else if s.stage.awaits_amount() && amount is None {
        Err(Fatal::MalformedAmount)
    } else {
        Ok(
            match s.stage {
                StageView::Menu => match selects(line) {
                    Some(MainMenu::AddBill) => (s.at(StageView::AddName), Outcome::Quiet),
                    Some(MainMenu::ViewBills) => (s, Outcome::Listing),
                    Some(MainMenu::RemoveBill) => (s.at(StageView::RemoveName), Outcome::Quiet),
                    Some(MainMenu::EditBill) => (s.at(StageView::EditName), Outcome::Quiet),
                    Some(MainMenu::Exit) => (s.at(StageView::Exited), Outcome::Notice(Notice::Exit)),
                    None => (s, Outcome::Notice(Notice::InvalidChoice)),
                },
                StageView::AddName => (s.at(StageView::AddAmount { name: line }), Outcome::Quiet),
                StageView::AddAmount { name } => (
                    SessionView {
                        book: s.book.insert(name, BillView { name, amount: amount->0 }),
                        stage: StageView::Menu,
                    },
                    Outcome::Quiet,
                ),
                StageView::RemoveName => if s.book.contains_key(line) {
                    (SessionView { book: s.book.remove(line), stage: StageView::Menu }, Outcome::Quiet)
                } else {
                    (s.at(StageView::Menu), Outcome::Notice(Notice::BillNotFound))
                },
                StageView::EditName => if s.book.contains_key(line) {
                    (s.at(StageView::EditAmount { name: line }), Outcome::Quiet)
                } else {
                    (s.at(StageView::Menu), Outcome::Notice(Notice::BillNotFound))
                },
                StageView::EditAmount { name } => (
                    s.at(StageView::EditConfirm { name, amount: amount->0 }),
                    Outcome::Quiet,
                ),
                StageView::EditConfirm { name, amount: pending } => match confirms(line) {
                    Confirmation::Commit => (
                        SessionView {
                            book: s.book.insert(name, BillView { name, amount: pending }),
                            stage: StageView::Menu,
                        },
                        Outcome::Quiet,
                    ),
                    Confirmation::Cancel => (
                        s.at(StageView::Menu),
                        Outcome::Notice(Notice::GoingBack),
                    ),
                    Confirmation::Unrecognized => (
                        s.at(StageView::Menu),
                        Outcome::Notice(Notice::InvalidInput),
                    ),
                },
                StageView::Exited => (s, Outcome::Quiet),
            },
        )
    }
}

/// The lines that are shown before the next line is read: the menu with
/// the number of bills, or one question, or nothing when the session is
/// over.
pub open spec fn prompt_lines(s: SessionView) -> Seq<Seq<char>> {
    match s.stage {
        StageView::Menu => menu_lines(s.book.dom().len()),
        StageView::AddName => seq![Prompt::Name.words()],
        StageView::AddAmount { name } => seq![Prompt::Amount.words()],
        StageView::RemoveName => seq![Prompt::Name.words()],
        StageView::EditName => seq![Prompt::Name.words()],
        StageView::EditAmount { name } => seq![Prompt::NewAmount.words()],
        StageView::EditConfirm { name, amount } => seq![Prompt::Confirmation.words()],
        StageView::Exited => Seq::empty(),
    }
}

/// Copies of the bills, in their order.
fn copies(bills: &[Bill]) -> (r: Vec<Bill>)
    ensures
        views(r@) == views(bills@),
{
    let mut r: Vec<Bill> = Vec::new();
    let mut i: usize = 0;
    while i < bills.len()
        invariant
            0 <= i <= bills@.len(),
            r@.len() == i,
            forall|k: int| 0 <= k < i ==> r@[k]@ == bills@[k]@,
        decreases bills@.len() - i,
    {
        r.push(bills[i].clone());
        i += 1;
    }
    assert(views(r@) =~= views(bills@));
    r
}

/// One question as the only line.
fn one_line(prompt: Prompt) -> (r: Vec<String>)
    ensures
        texts(r@) == seq![prompt.words()],
{
    let mut lines: Vec<String> = Vec::new();
    lines.push(String::from_str(prompt.text()));
    assert(texts(lines@) =~= seq![prompt.words()]);
    lines
}

/// One interactive session over a book of bills.
pub struct Session {
    book: BillBook,
    stage: Stage,
}

impl View for Session {
    type V = SessionView;

    closed spec fn view(&self) -> SessionView {
        SessionView { book: self.book@, stage: self.stage@ }
    }
}

impl Session {
    #[verifier::type_invariant]
    pub closed spec fn inv(&self) -> bool {
        self.book.inv() && self@.valid()
    }

    /// A session at the menu, with an empty book.
    pub fn new() -> (r: Session)
        ensures
            r@ == (SessionView { book: Map::empty(), stage: StageView::Menu }),
            r@.valid(),
    {
        let book = BillBook::new();
        proof {
            use_type_invariant(&book);
            book.lemma_well_filed();
        }
        Session { book, stage: Stage::Menu }
    }

    /// The book.
    pub fn book(&self) -> (r: &BillBook)
        ensures
            r@ == self@.book,
    {
        &self.book
    }

    /// The stage that the session is at.
    pub fn stage(&self) -> (r: &Stage)
        ensures
            r@ == self@.stage,
    {
        &self.stage
    }

    /// The number of bills in the book.
    pub fn total(&self) -> (r: usize)
        ensures
            r == self@.book.dom().len(),
    {
        self.book.len()
    }

    /// The state that the session is in.
    pub fn phase(&self) -> (r: Phase)
        ensures
            r == self@.stage.phase(),
    {
        match &self.stage {
            Stage::Menu => Phase::Menu,
            Stage::Exited => Phase::Exited,
            _ => Phase::Prompting,
        }
    }

    /// Whether the next line is taken for an amount.
    pub fn awaits_amount(&self) -> (r: bool)
        ensures
            r == self@.stage.awaits_amount(),
    {
        match &self.stage {
            Stage::AddAmount { .. } => true,
            Stage::EditAmount { .. } => true,
            _ => false,
        }
    }

    /// The lines to show before the next line is read.
    pub fn prompt(&self) -> (r: Vec<String>)
        ensures
            texts(r@) == prompt_lines(self@),
    {
        match &self.stage {
            Stage::Menu => MainMenu::show(self.book.len()),
            Stage::AddName => one_line(Prompt::Name),
            Stage::AddAmount { .. } => one_line(Prompt::Amount),
            Stage::RemoveName => one_line(Prompt::Name),
            Stage::EditName => one_line(Prompt::Name),
            Stage::EditAmount { .. } => one_line(Prompt::NewAmount),
            Stage::EditConfirm { .. } => one_line(Prompt::Confirmation),
            Stage::Exited => {
                let lines: Vec<String> = Vec::new();
                assert(texts(lines@) =~= Seq::<Seq<char>>::empty());
                lines
            },
        }
    }

    /// Takes one line and says what is to be shown in reply. `amount` is
    /// the amount that the line stands for, if it stands for one.
    pub fn step(&mut self, line: &str, amount: Option<Amount>) -> (r: Result<Reply, Fatal>)
        ensures
            final(self)@.valid(),
            (match transition(old(self)@, line@, amount) {
                Ok((next, outcome)) => {
                    &&& final(self)@ == next
                    &&& r matches Ok(reply)
                    &&& answers(reply, outcome, next.book)
                },
                Err(fatal) => {
                    &&& final(self)@ == old(self)@
                    &&& r == Err::<Reply, Fatal>(fatal)
                },
            }),
    {
        proof {
            use_type_invariant(&*self);
        }
        if let Stage::Exited = &self.stage {
            return Ok(Reply::Quiet);
        }
        if line.is_empty() {
            return Err(Fatal::EmptyLine);
        }
        if self.awaits_amount() && amount.is_none() {
            return Err(Fatal::MalformedAmount);
        }
        let mut this = Session::new();
        core::mem::swap(self, &mut this);
        let Session { mut book, stage } = this;
        proof {
            use_type_invariant(&book);
            book.lemma_well_filed();
        }
        let (next, reply) = match stage {
            Stage::Menu => match MainMenu::from_str(line) {
                Some(MainMenu::AddBill) => (Stage::AddName, Reply::Quiet),
                Some(MainMenu::ViewBills) => (Stage::Menu, Reply::Listing(copies(book.iter()))),
                Some(MainMenu::RemoveBill) => (Stage::RemoveName, Reply::Quiet),
                Some(MainMenu::EditBill) => (Stage::EditName, Reply::Quiet),
                Some(MainMenu::Exit) => (Stage::Exited, Reply::Notice(Notice::Exit)),
                None => (Stage::Menu, Reply::Notice(Notice::InvalidChoice)),
            },
            Stage::AddName => (Stage::AddAmount { name: line.to_owned() }, Reply::Quiet),
            Stage::AddAmount { name } => {
                match Bill::new(name.as_str(), amount.unwrap()) {
                    Some(bill) => {
                        book.insert(bill);
                    },
                    None => {},
                }
                (Stage::Menu, Reply::Quiet)
            },
            Stage::RemoveName => {
                if book.remove(line) {
                    (Stage::Menu, Reply::Quiet)
                } else {
                    (Stage::Menu, Reply::Notice(Notice::BillNotFound))
                }
            },
            Stage::EditName => {
                if book.contains(line) {
                    (Stage::EditAmount { name: line.to_owned() }, Reply::Quiet)
                } else {
                    (Stage::Menu, Reply::Notice(Notice::BillNotFound))
                }
            },
            Stage::EditAmount { name } => (
                Stage::EditConfirm { name, amount: amount.unwrap() },
                Reply::Quiet,
            ),
            Stage::EditConfirm { name, amount: pending } => match Confirmation::from_str(line) {
                Confirmation::Commit => {
                    match book.get_mut(name.as_str()) {
                        Some(held) => {
                            *held = pending;
                        },
                        None => {},
                    }
                    (Stage::Menu, Reply::Quiet)
                },
                Confirmation::Cancel => (Stage::Menu, Reply::Notice(Notice::GoingBack)),
                Confirmation::Unrecognized => (Stage::Menu, Reply::Notice(Notice::InvalidInput)),
            },
            Stage::Exited => (Stage::Exited, Reply::Quiet),
        };
        proof {
            use_type_invariant(&book);
            book.lemma_well_filed();
        }
        *self = Session { book, stage: next };
        Ok(reply)
    }
}

} // verus!
