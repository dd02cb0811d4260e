use lang_demos::functions::{five, plus_one};
use lang_demos::ownership::{calculate_length, change, gives_ownership, takes_and_gives_back};
use lang_demos::structs::{build_user, Rectangle, User};
use lang_demos::enums::{tally_non_quarter, value_in_cents, Coin, Message, UsState};
use lang_demos::control_flow::{count_then_double, countdown_values, if_branch_value};

#[test]
fn five_is_five() {
    assert_eq!(five(), 5);
}

#[test]
fn plus_one_of_five() {
    assert_eq!(plus_one(5), 6);
}

#[test]
fn ownership_given_out() {
    assert_eq!(gives_ownership(), "yours");
}

#[test]
fn ownership_round_trip() {
    let s2 = String::from("hello");
    let s3 = takes_and_gives_back(s2);
    assert_eq!(s3, "hello");
}

#[test]
fn length_through_shared_borrow() {
    let s1 = String::from("hello");
    let len = calculate_length(&s1);
    assert_eq!(len, 5);
    assert_eq!(s1, "hello");
}

#[test]
fn length_counts_bytes() {
    let s = String::from("é");
    assert_eq!(calculate_length(&s), 2);
    let s = String::from("héllo");
    assert_eq!(calculate_length(&s), 6);
}

#[test]
fn change_through_exclusive_borrow() {
    let mut s = String::from("hello");
    change(&mut s);
    assert_eq!(s, "hello, world");
}

#[test]
fn built_user_fields() {
    let user = build_user(String::from("user2@example.com"), String::from("user2"));
    assert!(user.active);
    assert_eq!(user.email, "user2@example.com");
    assert_eq!(user.username, "user2");
    assert_eq!(user.sign_in_count, 1);
}

#[test]
fn update_keeps_other_fields() {
    let user1 = User {
        email: String::from("someone@example.com"),
        username: String::from("someusername123"),
        active: true,
        sign_in_count: 1,
    };
    let user3 = user1.with_email(String::from("user3@example.com"));
    assert_eq!(user3.email, "user3@example.com");
    assert_eq!(user3.username, "someusername123");
    assert!(user3.active);
    assert_eq!(user3.sign_in_count, 1);
}

#[test]
fn rectangle_area() {
    let rect1 = Rectangle { width: 30, height: 50 };
    assert_eq!(rect1.area(), 1500);
}

#[test]
fn rectangle_can_hold() {
    let rect1 = Rectangle { width: 30, height: 50 };
    let rect2 = Rectangle { width: 10, height: 40 };
    let rect3 = Rectangle { width: 60, height: 45 };
    assert!(rect1.can_hold(&rect2));
    assert!(!rect1.can_hold(&rect3));
}

#[test]
fn rectangle_square() {
    let sq = Rectangle::square(3);
    assert_eq!(sq.width, 3);
    assert_eq!(sq.height, 3);
}

#[test]
fn coin_values() {
    assert_eq!(value_in_cents(&Coin::Penny), 1);
    assert_eq!(value_in_cents(&Coin::Nickel), 5);
    assert_eq!(value_in_cents(&Coin::Dime), 10);
    assert_eq!(value_in_cents(&Coin::Quarter(UsState::Alaska)), 25);
}

#[test]
fn message_kinds() {
    assert_eq!(Message::Quit.kind_name(), "Quit");
    assert_eq!(Message::Move { x: 1, y: 2 }.kind_name(), "Move");
    assert_eq!(Message::Write(String::from("hello")).kind_name(), "Write");
    assert_eq!(Message::ChangeColor(255, 0, 0).kind_name(), "ChangeColor");
}

#[test]
fn quarter_is_not_tallied() {
    let count = tally_non_quarter(&Coin::Quarter(UsState::Alabama), 0);
    assert_eq!(count, 0);
    let count = tally_non_quarter(&Coin::Penny, count);
    assert_eq!(count, 1);
}

#[test]
fn conditional_as_expression() {
    assert_eq!(if_branch_value(true), 5);
    assert_eq!(if_branch_value(false), 6);
}

#[test]
fn loop_exits_with_double() {
    assert_eq!(count_then_double(10), 20);
}

#[test]
fn countdown_narration() {
    assert_eq!(countdown_values(3), vec![3, 2, 1]);
    assert_eq!(countdown_values(0), Vec::<u32>::new());
}
