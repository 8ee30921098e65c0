use bill_manager::dialogue::{Confirmation, Notice, Prompt};

#[test]
fn ok_commits() {
    assert_eq!(Confirmation::from_str("Ok"), Confirmation::Commit);
}

#[test]
fn cancel_cancels() {
    assert_eq!(Confirmation::from_str("Cancel"), Confirmation::Cancel);
}

#[test]
fn confirmation_minds_the_case() {
    assert_eq!(Confirmation::from_str("ok"), Confirmation::Unrecognized);
    assert_eq!(Confirmation::from_str("OK"), Confirmation::Unrecognized);
    assert_eq!(Confirmation::from_str("cancel"), Confirmation::Unrecognized);
    assert_eq!(Confirmation::from_str("CANCEL"), Confirmation::Unrecognized);
}

#[test]
fn anything_else_is_unrecognized() {
    assert_eq!(Confirmation::from_str(""), Confirmation::Unrecognized);
    assert_eq!(Confirmation::from_str("maybe"), Confirmation::Unrecognized);
    assert_eq!(Confirmation::from_str("Ok "), Confirmation::Unrecognized);
    assert_eq!(Confirmation::from_str("Okay"), Confirmation::Unrecognized);
    assert_eq!(Confirmation::from_str("O"), Confirmation::Unrecognized);
    assert_eq!(Confirmation::from_str("Cancel!"), Confirmation::Unrecognized);
    assert_eq!(Confirmation::from_str("Cance"), Confirmation::Unrecognized);
    assert_eq!(Confirmation::from_str("yes"), Confirmation::Unrecognized);
}

#[test]
fn words_of_the_prompts() {
    assert_eq!(Prompt::Name.text(), "Enter the name of the bill:");
    assert_eq!(Prompt::Amount.text(), "Enter the amount of the bill:");
    assert_eq!(Prompt::NewAmount.text(), "Enter the new amount of the bill:");
    assert_eq!(Prompt::Confirmation.text(), "Enter Ok to confirm or Cancel to go back:");
}

#[test]
fn words_of_the_notices() {
    assert_eq!(Notice::BillNotFound.text(), "Bill not found");
    assert_eq!(Notice::InvalidChoice.text(), "Invalid choice");
    assert_eq!(Notice::InvalidInput.text(), "Invalid input");
    assert_eq!(Notice::GoingBack.text(), "Going back");
    assert_eq!(Notice::Exit.text(), "Exit");
}
