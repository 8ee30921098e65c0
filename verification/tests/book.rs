use bill_manager::amount::Amount;
use bill_manager::bill::Bill;
use bill_manager::book::BillBook;

fn amount(value: f32) -> Amount {
    Amount::from_bits(value.to_bits()).unwrap()
}

fn bill(name: &str, value: f32) -> Bill {
    Bill::new(name, amount(value)).unwrap()
}

fn sorted_names(book: &BillBook) -> Vec<String> {
    let mut names: Vec<String> = book.iter().iter().map(|b| b.name().to_string()).collect();
    names.sort();
    names
}

#[test]
fn new_book_is_empty() {
    let book = BillBook::new();
    assert_eq!(book.len(), 0);
    assert!(book.iter().is_empty());
    assert!(book.get("Rent").is_none());
    assert!(!book.contains("Rent"));
}

#[test]
fn insert_then_get() {
    let mut book = BillBook::new();
    book.insert(bill("Rent", 1200.0));
    assert_eq!(book.len(), 1);
    assert!(book.contains("Rent"));
    let found = book.get("Rent").unwrap();
    assert_eq!(found.name(), "Rent");
    assert_eq!(found.amount(), amount(1200.0));
    assert!(book.get("rent").is_none());
    assert!(book.get("Ren").is_none());
}

#[test]
fn every_bill_is_filed_under_its_own_name() {
    let mut book = BillBook::new();
    for (name, value) in [("Rent", 1200.0), ("Gas", 50.0), ("Water", 30.0), ("Gas", 65.0)] {
        book.insert(bill(name, value));
    }
    for name in ["Rent", "Gas", "Water"] {
        assert_eq!(book.get(name).unwrap().name(), name);
    }
    for found in book.iter() {
        assert_eq!(book.get(found.name()), Some(found));
    }
}

#[test]
fn second_insert_of_a_name_replaces_the_first() {
    let mut book = BillBook::new();
    book.insert(bill("Electric", 80.0));
    book.insert(bill("Water", 30.0));
    book.insert(bill("Electric", 95.0));
    assert_eq!(book.len(), 2);
    assert_eq!(book.get("Electric").unwrap().amount(), amount(95.0));
    assert_eq!(book.get("Water").unwrap().amount(), amount(30.0));
    assert_eq!(sorted_names(&book), vec!["Electric".to_string(), "Water".to_string()]);
}

#[test]
fn remove_says_whether_a_bill_was_there() {
    let mut book = BillBook::new();
    book.insert(bill("Rent", 1200.0));
    book.insert(bill("Gas", 50.0));
    assert!(!book.remove("Water"));
    assert_eq!(book.len(), 2);
    assert!(book.remove("Rent"));
    assert_eq!(book.len(), 1);
    assert!(book.get("Rent").is_none());
    assert!(!book.remove("Rent"));
    assert_eq!(book.len(), 1);
    assert_eq!(book.get("Gas").unwrap().amount(), amount(50.0));
}

#[test]
fn get_mut_changes_the_amount_only() {
    let mut book = BillBook::new();
    book.insert(bill("Gas", 50.0));
    book.insert(bill("Rent", 1200.0));
    {
        let held = book.get_mut("Gas").unwrap();
        assert_eq!(*held, amount(50.0));
        *held = amount(65.0);
    }
    assert_eq!(book.len(), 2);
    assert_eq!(book.get("Gas").unwrap().name(), "Gas");
    assert_eq!(book.get("Gas").unwrap().amount(), amount(65.0));
    assert_eq!(book.get("Rent").unwrap().amount(), amount(1200.0));
}

#[test]
fn get_mut_of_a_missing_name_is_none() {
    let mut book = BillBook::new();
    book.insert(bill("Gas", 50.0));
    assert!(book.get_mut("Water").is_none());
    assert_eq!(book.len(), 1);
    assert_eq!(book.get("Gas").unwrap().amount(), amount(50.0));
}

#[test]
fn iter_shows_each_bill_once() {
    let mut book = BillBook::new();
    for (name, value) in
        [("Rent", 1200.0), ("Gas", 50.0), ("Water", 30.0), ("Gas", 65.0), ("Phone", 20.0)]
    {
        book.insert(bill(name, value));
    }
    assert!(book.remove("Water"));
    assert_eq!(book.iter().len(), book.len());
    assert_eq!(
        sorted_names(&book),
        vec!["Gas".to_string(), "Phone".to_string(), "Rent".to_string()]
    );
    for found in book.iter() {
        assert_eq!(book.get(found.name()).unwrap().amount(), found.amount());
    }
}

#[test]
fn len_counts_names_added_less_bills_removed() {
    let mut book = BillBook::new();
    let mut expected = 0;
    for name in ["a", "b", "c", "a", "d", "b"] {
        if !book.contains(name) {
            expected += 1;
        }
        book.insert(bill(name, 1.0));
        assert_eq!(book.len(), expected);
    }
    assert_eq!(book.len(), 4);
    for name in ["a", "x", "a", "d"] {
        if book.remove(name) {
            expected -= 1;
        }
        assert_eq!(book.len(), expected);
    }
    assert_eq!(book.len(), 2);
}

#[test]
fn name_that_comes_back_is_counted_again() {
    let mut book = BillBook::new();
    book.insert(bill("Rent", 1200.0));
    assert!(book.remove("Rent"));
    book.insert(bill("Rent", 1300.0));
    assert_eq!(book.len(), 1);
    assert_eq!(book.get("Rent").unwrap().amount(), amount(1300.0));
}

#[test]
fn book_follows_a_map_through_many_changes() {
    let names = ["a", "b", "c", "d", "e"];
    let mut book = BillBook::new();
    let mut model: std::collections::BTreeMap<String, u32> = std::collections::BTreeMap::new();
    let mut seed: u32 = 12345;
    for _ in 0..2000 {
        seed = seed.wrapping_mul(1664525).wrapping_add(1013904223);
        let name = names[((seed >> 8) % 5) as usize];
        let value = ((seed >> 16) % 1000) as f32;
        match (seed >> 28) % 3 {
            0 => {
                book.insert(bill(name, value));
                model.insert(name.to_string(), value.to_bits());
            }
            1 => {
                let removed = book.remove(name);
                assert_eq!(removed, model.remove(name).is_some());
            }
            _ => {
                match book.get_mut(name) {
                    Some(held) => {
                        *held = amount(value);
                        assert!(model.contains_key(name));
                        model.insert(name.to_string(), value.to_bits());
                    }
                    None => assert!(!model.contains_key(name)),
                }
            }
        }
        assert_eq!(book.len(), model.len());
        let mut seen: Vec<(String, u32)> =
            book.iter().iter().map(|b| (b.name().to_string(), b.amount().to_bits())).collect();
        seen.sort();
        let wanted: Vec<(String, u32)> = model.iter().map(|(k, v)| (k.clone(), *v)).collect();
        assert_eq!(seen, wanted);
    }
}
