use bill_manager::amount::Amount;
use bill_manager::bill::Bill;

fn amount(value: f32) -> Amount {
    Amount::from_bits(value.to_bits()).unwrap()
}

#[test]
fn bill_has_its_name_and_amount() {
    let bill = Bill::new("Rent", amount(1200.0)).unwrap();
    assert_eq!(bill.name(), "Rent");
    assert_eq!(bill.amount(), amount(1200.0));
}

#[test]
fn bill_without_a_name_is_not_made() {
    assert_eq!(Bill::new("", amount(1200.0)), None);
}

#[test]
fn set_amount_leaves_the_name() {
    let mut bill = Bill::new("Gas", amount(50.0)).unwrap();
    bill.set_amount(amount(65.0));
    assert_eq!(bill.name(), "Gas");
    assert_eq!(bill.amount(), amount(65.0));
}

#[test]
fn amount_mut_writes_through() {
    let mut bill = Bill::new("Gas", amount(50.0)).unwrap();
    assert_eq!(*bill.amount_mut(), amount(50.0));
    *bill.amount_mut() = amount(65.0);
    assert_eq!(bill.name(), "Gas");
    assert_eq!(bill.amount(), amount(65.0));
}

#[test]
fn clone_is_the_same_bill() {
    let bill = Bill::new("Water", amount(30.5)).unwrap();
    let copy = bill.clone();
    assert_eq!(copy, bill);
    assert_eq!(copy.name(), "Water");
    assert_eq!(copy.amount(), amount(30.5));
}
