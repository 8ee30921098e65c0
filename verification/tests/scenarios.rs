use bill_manager::amount::Amount;
use bill_manager::input::clean_line;
use bill_manager::session::{Fatal, Phase, Reply, Session};

/// What a session showed and how it ended.
struct Transcript {
    /// Every line that was shown, in order; a bill as `name=amount`.
    shown: Vec<String>,
    /// The total of each menu that was shown.
    totals: Vec<String>,
    /// The bills of each listing.
    listings: Vec<Vec<(String, f32)>>,
    exited: bool,
    fatal: Option<Fatal>,
    lines_left: usize,
    book: Vec<(String, f32)>,
}

fn play(lines: &[&str]) -> Transcript {
    let mut session = Session::new();
    let mut script = Transcript {
        shown: Vec::new(),
        totals: Vec::new(),
        listings: Vec::new(),
        exited: false,
        fatal: None,
        lines_left: 0,
        book: Vec::new(),
    };
    let mut next = 0;
    while session.phase() != Phase::Exited {
        let prompt = session.prompt();
        if session.phase() == Phase::Menu {
            script.totals.push(prompt[6].clone());
        }
        script.shown.extend(prompt);
        let raw = if next < lines.len() { format!("{}\n", lines[next]) } else { String::new() };
        next += 1;
        let line = clean_line(&raw).unwrap_or_default();
        let amount = if session.awaits_amount() {
            line.parse::<f32>().ok().and_then(|value| Amount::from_bits(value.to_bits()))
        } else {
            None
        };
        match session.step(&line, amount) {
            Ok(Reply::Quiet) => {}
            Ok(Reply::Notice(notice)) => script.shown.push(notice.text().to_string()),
            Ok(Reply::Listing(bills)) => {
                let mut listing = Vec::new();
                for bill in &bills {
                    let value = f32::from_bits(bill.amount().to_bits());
                    script.shown.push(format!("{}={:?}", bill.name(), value));
                    listing.push((bill.name().to_string(), value));
                }
                script.listings.push(listing);
            }
            Err(fatal) => {
                script.fatal = Some(fatal);
                break;
            }
        }
    }
    script.exited = session.phase() == Phase::Exited;
    script.lines_left = lines.len().saturating_sub(next);
    script.book = session
        .book()
        .iter()
        .iter()
        .map(|bill| (bill.name().to_string(), f32::from_bits(bill.amount().to_bits())))
        .collect();
    script
}

fn count(shown: &[String], line: &str) -> usize {
    shown.iter().filter(|l| l.as_str() == line).count()
}

#[test]
fn add_then_view() {
    let script = play(&["1", "Rent", "1200", "2", "5"]);
    assert_eq!(script.listings, vec![vec![("Rent".to_string(), 1200.0)]]);
    assert_eq!(script.totals, vec!["Total: 0", "Total: 1", "Total: 1"]);
    assert!(script.exited);
    assert_eq!(script.fatal, None);
    assert_eq!(script.lines_left, 0);
    assert_eq!(script.shown.last().unwrap(), "Exit");
    assert_eq!(count(&script.shown, "Rent=1200.0"), 1);
}

#[test]
fn add_add_same_name_overwrites() {
    let script = play(&["1", "Electric", "80", "1", "Electric", "95", "2", "5"]);
    assert_eq!(script.listings, vec![vec![("Electric".to_string(), 95.0)]]);
    assert_eq!(script.totals, vec!["Total: 0", "Total: 1", "Total: 1", "Total: 1"]);
    assert_eq!(script.book, vec![("Electric".to_string(), 95.0)]);
    assert!(script.exited);
}

#[test]
fn remove_missing() {
    let script = play(&["3", "Water", "5"]);
    assert_eq!(count(&script.shown, "Bill not found"), 1);
    assert_eq!(script.totals, vec!["Total: 0", "Total: 0"]);
    assert!(script.book.is_empty());
    assert!(script.exited);
    assert_eq!(script.fatal, None);
}

#[test]
fn edit_with_ok() {
    let script = play(&["1", "Gas", "50", "4", "Gas", "65", "Ok", "2", "5"]);
    assert_eq!(script.listings, vec![vec![("Gas".to_string(), 65.0)]]);
    assert_eq!(count(&script.shown, "Going back"), 0);
    assert_eq!(count(&script.shown, "Invalid input"), 0);
    assert!(script.exited);
}

#[test]
fn edit_with_cancel() {
    let script = play(&["1", "Gas", "50", "4", "Gas", "65", "Cancel", "2", "5"]);
    assert_eq!(script.listings, vec![vec![("Gas".to_string(), 50.0)]]);
    assert_eq!(count(&script.shown, "Going back"), 1);
    assert!(script.exited);
}

#[test]
fn edit_with_unrecognized_confirmation() {
    let script = play(&["1", "Gas", "50", "4", "Gas", "65", "maybe", "2", "5"]);
    assert_eq!(script.listings, vec![vec![("Gas".to_string(), 50.0)]]);
    assert_eq!(count(&script.shown, "Invalid input"), 1);
    assert_eq!(count(&script.shown, "Going back"), 0);
    assert!(script.exited);
}

#[test]
fn unknown_menu_choice() {
    let script = play(&["9", "5"]);
    let at = script.shown.iter().position(|l| l == "Invalid choice").unwrap();
    assert_eq!(count(&script.shown, "Invalid choice"), 1);
    assert_eq!(script.shown.last().unwrap(), "Exit");
    assert!(at < script.shown.len() - 1);
    assert_eq!(script.totals, vec!["Total: 0", "Total: 0"]);
    assert!(script.exited);
    assert_eq!(script.fatal, None);
}

#[test]
fn whole_transcript_of_add_then_view() {
    let script = play(&["1", "Rent", "1200", "2", "5"]);
    let menu = |total: &str| -> Vec<String> {
        vec![
            "==============================".to_string(),
            "1. Add Bill".to_string(),
            "2. View Bills".to_string(),
            "3. Remove Bill".to_string(),
            "4. Edit Bill".to_string(),
            "5. Exit".to_string(),
            format!("Total: {}", total),
            "Enter your choice:".to_string(),
            "==============================".to_string(),
        ]
    };
    let mut expected = menu("0");
    expected.push("Enter the name of the bill:".to_string());
    expected.push("Enter the amount of the bill:".to_string());
    expected.extend(menu("1"));
    expected.push("Rent=1200.0".to_string());
    expected.extend(menu("1"));
    expected.push("Exit".to_string());
    assert_eq!(script.shown, expected);
}

#[test]
fn view_of_an_empty_book_shows_nothing() {
    let script = play(&["2", "5"]);
    assert_eq!(script.listings, vec![Vec::<(String, f32)>::new()]);
    assert_eq!(script.shown.len(), 9 + 9 + 1);
}

#[test]
fn end_of_input_is_fatal() {
    let script = play(&["1", "Rent"]);
    assert_eq!(script.fatal, Some(Fatal::EmptyLine));
    assert!(!script.exited);
    assert!(script.book.is_empty());
}

#[test]
fn blank_line_is_fatal() {
    let script = play(&["1", "   ", "5"]);
    assert_eq!(script.fatal, Some(Fatal::EmptyLine));
    assert!(!script.exited);
    assert_eq!(script.lines_left, 1);
}

#[test]
fn amount_that_is_no_number_is_fatal() {
    let script = play(&["1", "Rent", "a lot", "5"]);
    assert_eq!(script.fatal, Some(Fatal::MalformedAmount));
    assert!(!script.exited);
    assert!(script.book.is_empty());
    let script = play(&["1", "Gas", "50", "4", "Gas", "more", "Ok", "5"]);
    assert_eq!(script.fatal, Some(Fatal::MalformedAmount));
    assert_eq!(script.book, vec![("Gas".to_string(), 50.0)]);
}

#[test]
fn amount_below_zero_or_not_finite_is_fatal() {
    for text in ["-5", "inf", "NaN", "-inf", "1e39"] {
        let script = play(&["1", "Rent", text, "5"]);
        assert_eq!(script.fatal, Some(Fatal::MalformedAmount), "{}", text);
        assert!(script.book.is_empty());
    }
}

#[test]
fn lines_are_taken_without_the_white_space_around_them() {
    let script = play(&["  1 ", "\tRent  ", " 1200", " 2", "5  "]);
    assert_eq!(script.listings, vec![vec![("Rent".to_string(), 1200.0)]]);
    assert!(script.exited);
}
