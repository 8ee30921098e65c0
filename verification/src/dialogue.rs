//! What the session says and hears besides the menu: the prompts, the
//! notices, and the word that confirms an edit.

use crate::text::same_text;
use vstd::prelude::*;
use vstd::string::*;

verus! {

/// What the reply to the question whether an edit shall stand means.
#[derive(Clone, Copy, Debug, PartialEq, Eq, Structural)]
pub enum Confirmation {
    /// `Ok`: the edit stands.
    Commit,
    /// `Cancel`: the edit is given up.
    Cancel,
    /// Anything else: the edit is given up too, with a notice.
    Unrecognized,
}

/// The reply is the word `Ok`.
pub open spec fn says_ok(token: Seq<char>) -> bool {
    token.len() == 2 && token[0] == 'O' && token[1] == 'k'
}

/// The reply is the word `Cancel`.
pub open spec fn says_cancel(token: Seq<char>) -> bool {
    token.len() == 6 && token[0] == 'C' && token[1] == 'a' && token[2] == 'n' && token[3] == 'c'
        && token[4] == 'e' && token[5] == 'l'
}

/// What a reply means. Case counts: only `Ok` commits and only `Cancel`
/// cancels.
pub open spec fn confirms(token: Seq<char>) -> Confirmation {
    if says_ok(token) {
        Confirmation::Commit
    } else if says_cancel(token) {
        Confirmation::Cancel
    } else {
        Confirmation::Unrecognized
    }
}

impl Confirmation {
    /// What the reply means.
    pub fn from_str(token: &str) -> (r: Confirmation)
        ensures
            r == confirms(token@),
    {
        proof {
            reveal_strlit("Ok");
            reveal_strlit("Cancel");
            assert(says_ok(token@) <==> token@ =~= "Ok"@);
            assert(says_cancel(token@) <==> token@ =~= "Cancel"@);
        }
        if same_text(token, "Ok") {
            Confirmation::Commit
        } else if same_text(token, "Cancel") {
            Confirmation::Cancel
        } else {
            Confirmation::Unrecognized
        }
    }
}

/// A question that is put before a line is read.
#[derive(Clone, Copy, Debug, PartialEq, Eq, Structural)]
pub enum Prompt {
    /// For the name of a bill.
    Name,
    /// For the amount of a new bill.
    Amount,
    /// For the amount that a bill shall have from now on.
    NewAmount,
    /// For the word that makes an edit stand or gives it up.
    Confirmation,
}

impl Prompt {
    /// The words of the prompt.
    pub open spec fn words(self) -> Seq<char> {
        match self {
            Prompt::Name => "Enter the name of the bill:"@,
            Prompt::Amount => "Enter the amount of the bill:"@,
            Prompt::NewAmount => "Enter the new amount of the bill:"@,
            Prompt::Confirmation => "Enter Ok to confirm or Cancel to go back:"@,
        }
    }

    /// The words of the prompt.
    pub fn text(&self) -> (r: &'static str)
        ensures
            r@ == self.words(),
    {
        match self {
            Prompt::Name => "Enter the name of the bill:",
            Prompt::Amount => "Enter the amount of the bill:",
            Prompt::NewAmount => "Enter the new amount of the bill:",
            Prompt::Confirmation => "Enter Ok to confirm or Cancel to go back:",
        }
    }
}

/// A one-line message to the user.
#[derive(Clone, Copy, Debug, PartialEq, Eq, Structural)]
pub enum Notice {
    /// No bill is filed under the name that was given.
    BillNotFound,
    /// The line selects no command of the menu.
    InvalidChoice,
    /// The line is neither of the two words that answer the question.
    InvalidInput,
    /// The edit was given up.
    GoingBack,
    /// The session is over.
    Exit,
}

impl Notice {
    /// The words of the notice.
    pub open spec fn words(self) -> Seq<char> {
        match self {
            Notice::BillNotFound => "Bill not found"@,
            Notice::InvalidChoice => "Invalid choice"@,
            Notice::InvalidInput => "Invalid input"@,
            Notice::GoingBack => "Going back"@,
            Notice::Exit => "Exit"@,
        }
    }

    /// The words of the notice.
    pub fn text(&self) -> (r: &'static str)
        ensures
            r@ == self.words(),
    {
        match self {
            Notice::BillNotFound => "Bill not found",
            Notice::InvalidChoice => "Invalid choice",
            Notice::InvalidInput => "Invalid input",
            Notice::GoingBack => "Going back",
            Notice::Exit => "Exit",
        }
    }
}

} // verus!
