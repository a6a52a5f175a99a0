use preference::giveaway::{Fallback, GiveawayError, Inventory, ShirtColor};

#[test]
fn testme() {
    let store = Inventory {
        shirts: vec![ShirtColor::Red, ShirtColor::Blue, ShirtColor::Blue],
    };

    assert_eq!(store.giveaway(Some(ShirtColor::Red)), ShirtColor::Red);
    assert_eq!(store.giveaway(Some(ShirtColor::Blue)), ShirtColor::Blue);
    assert_eq!(store.giveaway(None), ShirtColor::Blue);
}

#[test]
fn preference_wins_over_any_stock_and_fallback() {
    let stocks = vec![
        vec![],
        vec![ShirtColor::Red],
        vec![ShirtColor::Blue, ShirtColor::Blue],
        vec![ShirtColor::Red, ShirtColor::Red, ShirtColor::Blue],
    ];
    for shirts in stocks {
        let store = Inventory { shirts };
        for c in [ShirtColor::Red, ShirtColor::Blue] {
            assert_eq!(store.giveaway(Some(c)), c);
            assert_eq!(store.resolve(Some(c), Fallback::MostStocked), Ok(c));
            assert_eq!(store.resolve(Some(c), Fallback::LastStocked), Ok(c));
        }
    }
}

#[test]
fn most_stocked_picks_the_larger_count() {
    let store = Inventory { shirts: vec![ShirtColor::Blue, ShirtColor::Red, ShirtColor::Blue] };
    assert_eq!(store.most_stocked(), ShirtColor::Blue);
    assert_eq!(store.resolve(None, Fallback::MostStocked), Ok(ShirtColor::Blue));

    let store = Inventory { shirts: vec![ShirtColor::Red, ShirtColor::Blue, ShirtColor::Red] };
    assert_eq!(store.most_stocked(), ShirtColor::Red);
    assert_eq!(store.resolve(None, Fallback::MostStocked), Ok(ShirtColor::Red));
}

#[test]
fn most_stocked_tie_goes_to_blue() {
    let store = Inventory { shirts: vec![ShirtColor::Red, ShirtColor::Blue] };
    assert_eq!(store.most_stocked(), ShirtColor::Blue);
    let store = Inventory { shirts: vec![ShirtColor::Blue, ShirtColor::Red] };
    assert_eq!(store.most_stocked(), ShirtColor::Blue);
}

#[test]
fn most_stocked_of_empty_stock_is_blue() {
    let store = Inventory { shirts: vec![] };
    assert_eq!(store.most_stocked(), ShirtColor::Blue);
    assert_eq!(store.resolve(None, Fallback::MostStocked), Ok(ShirtColor::Blue));
}

#[test]
fn last_stocked_is_the_last_element() {
    let store = Inventory { shirts: vec![ShirtColor::Red, ShirtColor::Blue, ShirtColor::Blue] };
    assert_eq!(store.last_stocked(), ShirtColor::Blue);
    assert_eq!(store.resolve(None, Fallback::LastStocked), Ok(ShirtColor::Blue));

    let store = Inventory { shirts: vec![ShirtColor::Blue, ShirtColor::Blue, ShirtColor::Red] };
    assert_eq!(store.last_stocked(), ShirtColor::Red);
    assert_eq!(store.giveaway(None), ShirtColor::Red);
}

#[test]
fn last_stocked_on_empty_stock_is_an_error() {
    let store = Inventory { shirts: vec![] };
    assert_eq!(store.resolve(None, Fallback::LastStocked), Err(GiveawayError::EmptyCollection));
}

#[test]
fn giveaway_twice_gives_the_same_result() {
    let store = Inventory { shirts: vec![ShirtColor::Red, ShirtColor::Blue, ShirtColor::Red] };
    for fallback in [Fallback::MostStocked, Fallback::LastStocked] {
        let first = store.resolve(None, fallback);
        let second = store.resolve(None, fallback);
        assert_eq!(first, second);
    }
    assert_eq!(store.giveaway(None), store.giveaway(None));
    assert_eq!(store.shirts, vec![ShirtColor::Red, ShirtColor::Blue, ShirtColor::Red]);
}
