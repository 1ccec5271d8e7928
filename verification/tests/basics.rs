use guessing_game::accounts::{build_user, build_user_with_field_init_shorthand, User};
use guessing_game::coins::{value_in_cents, Coin};
use guessing_game::functions::{another_function, function_with_return_value};
use guessing_game::matching::{
    matching_with_ocatch_all, matching_with_option, move_for, plus_one, Move,
};
use guessing_game::shapes::Rectangle;

#[test]
fn area_is_width_times_height() {
    let rect: Rectangle = Rectangle { width: 30, height: 50 };
    assert_eq!(rect.area(), 1500);
    assert_eq!(Rectangle { width: 0, height: 50 }.area(), 0);
    assert_eq!(Rectangle { width: 65535, height: 65537 }.area(), u32::MAX);
    assert_eq!(Rectangle { width: 1, height: u32::MAX }.area(), u32::MAX);
}

#[test]
fn a_rectangle_holds_what_is_smaller_both_ways() {
    let rect1: Rectangle = Rectangle { width: 30, height: 50 };
    let rect2: Rectangle = Rectangle { width: 23, height: 30 };
    let rect3: Rectangle = Rectangle { width: 60, height: 45 };
    assert!(rect1.can_hold(&rect2));
    assert!(!rect2.can_hold(&rect1));
    assert!(!rect1.can_hold(&rect3));
    assert!(!rect3.can_hold(&rect1));
    assert!(!rect1.can_hold(&rect1));
    assert!(!rect1.can_hold(&Rectangle { width: 30, height: 10 }));
    assert!(!rect1.can_hold(&Rectangle { width: 10, height: 50 }));
}

#[test]
fn a_square_has_equal_sides() {
    let square: Rectangle = Rectangle::square(3);
    assert_eq!(square.width, 3);
    assert_eq!(square.height, 3);
    assert_eq!(square.area(), 9);
    assert_eq!(Rectangle::square(0).area(), 0);
    assert_eq!(Rectangle::square(65535).area(), 4294836225);
}

#[test]
fn each_coin_has_its_value() {
    assert_eq!(value_in_cents(Coin::Penny), 1);
    assert_eq!(value_in_cents(Coin::Nickel), 5);
    assert_eq!(value_in_cents(Coin::Dime), 10);
    assert_eq!(value_in_cents(Coin::Quarter), 25);
}

#[test]
fn plus_one_adds_one_where_there_is_a_number() {
    assert_eq!(plus_one(Some(5)), Some(6));
    assert_eq!(plus_one(Some(-1)), Some(0));
    assert_eq!(plus_one(Some(i32::MIN)), Some(i32::MIN + 1));
    assert_eq!(plus_one(Some(i32::MAX - 1)), Some(i32::MAX));
    assert_eq!(plus_one(None), None);
}

#[test]
fn five_becomes_six_and_nothing_stays_nothing() {
    assert_eq!(matching_with_option(), (Some(6), None));
}

#[test]
fn a_roll_of_nine_is_rolled_again() {
    assert_eq!(matching_with_ocatch_all(), Move::Reroll);
}

#[test]
fn three_and_seven_are_the_only_rolls_with_a_hat() {
    assert_eq!(move_for(3), Move::AddFancyHat);
    assert_eq!(move_for(7), Move::RemoveFancyHat);
    for roll in -20..=20i32 {
        if roll != 3 && roll != 7 {
            assert_eq!(move_for(roll), Move::Reroll);
        }
    }
    assert_eq!(move_for(i32::MAX), Move::Reroll);
    assert_eq!(move_for(i32::MIN), Move::Reroll);
}

#[test]
fn a_built_user_is_active_and_has_signed_in_once() {
    let user: User =
        build_user(String::from("someone@example.com"), String::from("someusername123"));
    assert_eq!(user.email, "someone@example.com");
    assert_eq!(user.username, "someusername123");
    assert!(user.active);
    assert_eq!(user.sign_in_count, 1);
}

#[test]
fn both_ways_of_building_a_user_agree() {
    let long: User = build_user(String::from("a@example.com"), String::from("a"));
    let short: User =
        build_user_with_field_init_shorthand(String::from("a@example.com"), String::from("a"));
    assert_eq!(short.email, "a@example.com");
    assert_eq!(short.username, "a");
    assert!(short.active);
    assert_eq!(short.sign_in_count, 1);
    assert_eq!(long.email, short.email);
    assert_eq!(long.username, short.username);
    assert_eq!(long.active, short.active);
    assert_eq!(long.sign_in_count, short.sign_in_count);
}

#[test]
fn email_and_username_are_not_swapped() {
    let user: User = build_user(String::from("mail"), String::from("name"));
    assert_eq!(user.email, "mail");
    assert_eq!(user.username, "name");
    let user: User =
        build_user_with_field_init_shorthand(String::from("mail"), String::from("name"));
    assert_eq!(user.email, "mail");
    assert_eq!(user.username, "name");
}

#[test]
fn the_functions_return_five_and_four() {
    assert_eq!(function_with_return_value(), 5);
    assert_eq!(another_function(), 4);
}
