use double_entry::mario::{Player, State, Transition};
use double_entry::password_manager::PasswordManager;
use double_entry::pizza::{Meats, Pizza, PizzaSize, PizzaToppings, Veggies};

#[test]
fn player_starts_small_and_changes_with_each_power_up() {
    let mut player = Player::new();
    assert_eq!(player.state(), State::Mario);
    player.collect(Transition::Mushroom);
    assert_eq!(player.state(), State::SuperMario);
    player.collect(Transition::Flower);
    assert_eq!(player.state(), State::FireMario);
    player.collect(Transition::Feather);
    assert_eq!(player.state(), State::CapeMario);
    player.collect(Transition::Mushroom);
    player.collect(Transition::Mushroom);
    assert!(player.state() == State::CapeMario);
}

#[test]
fn a_mushroom_only_changes_the_small_player() {
    let mut player = Player::new();
    player.collect(Transition::Flower);
    player.collect(Transition::Mushroom);
    assert_eq!(player.state(), State::FireMario);
    let mut player = Player::new();
    player.collect(Transition::Mushroom);
    player.collect(Transition::Mushroom);
    assert_eq!(player.state(), State::SuperMario);
    let mut player = Player::new();
    player.collect(Transition::Feather);
    assert_eq!(player.state(), State::CapeMario);
    player.collect(Transition::Flower);
    assert_eq!(player.state(), State::FireMario);
}

#[test]
fn pizza_keeps_its_toppings_in_order() {
    let pizza = Pizza::new(PizzaSize::Personal);
    assert_eq!(pizza.size(), PizzaSize::Personal);
    assert!(pizza.toppings().is_empty());
    let pizza = pizza
        .with(PizzaToppings::Meats(Meats::Chicken))
        .with(PizzaToppings::Veggies(Veggies::GreenPeppers));
    assert_eq!(pizza.size(), PizzaSize::Personal);
    assert_eq!(
        pizza.toppings(),
        &vec![PizzaToppings::Meats(Meats::Chicken), PizzaToppings::Veggies(Veggies::GreenPeppers)]
    );
    assert_eq!(Pizza::new(PizzaSize::Family).size(), PizzaSize::Family);
}

fn pair(name: &str, password: &str) -> (String, String) {
    (name.to_string(), password.to_string())
}

#[test]
fn password_manager_stores_each_name_once() {
    let pm = PasswordManager::new("s3kr3t".to_owned());
    let mut pm = pm.unlock("s3kr3t".to_owned());
    assert!(pm.list_passwords().is_empty());
    pm.add_password("john".to_string(), "pass123".to_string());
    pm.add_password("marie".to_string(), "M@r13!".to_string());
    assert_eq!(pm.list_passwords(), &vec![pair("john", "pass123"), pair("marie", "M@r13!")]);
    pm.add_password("john".to_string(), "other".to_string());
    assert_eq!(pm.list_passwords(), &vec![pair("john", "other"), pair("marie", "M@r13!")]);
    let locked = pm.lock();
    let pm = locked.unlock("changed".to_owned());
    assert_eq!(pm.list_passwords(), &vec![pair("john", "other"), pair("marie", "M@r13!")]);
}
