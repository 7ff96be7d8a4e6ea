use fundamentals::structs::{build_user, build_user_shorthand, Rectangle, User};

#[test]
fn area_of_thirty_by_fifty() {
    let rect1 = Rectangle { width: 30, height: 50 };
    assert_eq!(rect1.area(), 1500);
}

#[test]
fn area_of_empty_and_largest_rectangles() {
    assert_eq!(Rectangle { width: 0, height: 50 }.area(), 0);
    assert_eq!(Rectangle { width: 7, height: 0 }.area(), 0);
    assert_eq!(Rectangle { width: 65535, height: 65537 }.area(), u32::MAX);
    assert_eq!(Rectangle { width: u32::MAX, height: 1 }.area(), u32::MAX);
}

#[test]
fn square_has_equal_sides() {
    let res = Rectangle::square(4);
    assert_eq!(res.width, 4);
    assert_eq!(res.height, 4);
    assert_eq!(res.area(), 16);
    let none = Rectangle::square(0);
    assert_eq!((none.width, none.height), (0, 0));
}

#[test]
fn width_says_whether_there_is_any() {
    assert!(Rectangle { width: 30, height: 50 }.width());
    assert!(Rectangle { width: 1, height: 0 }.width());
    assert!(!Rectangle { width: 0, height: 50 }.width());
}

#[test]
fn height_is_the_field() {
    assert_eq!(Rectangle { width: 30, height: 50 }.height(), 50);
    assert_eq!(Rectangle { width: 30, height: 0 }.height(), 0);
    assert_eq!(Rectangle { width: 0, height: u32::MAX }.height(), u32::MAX);
}

#[test]
fn can_hold_a_smaller_rectangle() {
    let rect1 = Rectangle { width: 30, height: 50 };
    let rect2 = Rectangle { width: 10, height: 40 };
    let rect3 = Rectangle { width: 60, height: 45 };
    assert!(rect1.can_hold(&rect2));
    assert!(!rect1.can_hold(&rect3));
    assert!(!rect2.can_hold(&rect1));
}

#[test]
fn can_hold_needs_room_on_both_sides() {
    let rect = Rectangle { width: 30, height: 50 };
    assert!(!rect.can_hold(&rect));
    assert!(!rect.can_hold(&Rectangle { width: 30, height: 10 }));
    assert!(!rect.can_hold(&Rectangle { width: 10, height: 50 }));
    assert!(rect.can_hold(&Rectangle { width: 29, height: 49 }));
    assert!(rect.can_hold(&Rectangle { width: 0, height: 0 }));
}

#[test]
fn rectangle_prints_its_fields() {
    let text = format!("{:?}", Rectangle { width: 30, height: 50 });
    assert_eq!(text, "Rectangle { width: 30, height: 50 }");
}

#[test]
fn build_user_sets_every_field() {
    let user = build_user(String::from("anotheremail@example.com"), String::from("username"));
    assert_eq!(user.email, "anotheremail@example.com");
    assert_eq!(user.username, "username");
    assert!(user.active);
    assert_eq!(user.sign_in_count, 1);
}

#[test]
fn build_user_shorthand_builds_the_same_user() {
    let long = build_user(String::from("someone@example.com"), String::from("someusername123"));
    let short =
        build_user_shorthand(String::from("someone@example.com"), String::from("someusername123"));
    assert_eq!(short.email, long.email);
    assert_eq!(short.username, long.username);
    assert_eq!(short.active, long.active);
    assert_eq!(short.sign_in_count, long.sign_in_count);
    assert_eq!(short.email, "someone@example.com");
    assert_eq!(short.username, "someusername123");
    assert!(short.active);
    assert_eq!(short.sign_in_count, 1);
}

#[test]
fn user_fields_can_be_taken_over_and_changed() {
    let user = build_user_shorthand(String::from("anotheremail@example.com"), String::from("u"));
    let mut user2 = User { email: String::from("another@example.com"), ..user };
    assert_eq!(user2.email, "another@example.com");
    assert_eq!(user2.username, "u");
    user2.sign_in_count = 2;
    assert_eq!(user2.sign_in_count, 2);
}

#[test]
fn can_hold_orders_rectangles_strictly() {
    let large = Rectangle { width: 30, height: 50 };
    let medium = Rectangle { width: 20, height: 40 };
    let small = Rectangle { width: 10, height: 15 };
    assert!(large.can_hold(&medium));
    assert!(medium.can_hold(&small));
    assert!(large.can_hold(&small));
    assert!(!medium.can_hold(&large));
    assert!(!small.can_hold(&medium));
    assert!(!small.can_hold(&large));
    assert!(!medium.can_hold(&medium));
}

#[test]
fn a_held_rectangle_has_a_smaller_area() {
    let large = Rectangle { width: 30, height: 50 };
    let medium = Rectangle { width: 29, height: 49 };
    let flat = Rectangle { width: 0, height: 49 };
    assert!(large.can_hold(&medium));
    assert!(large.area() > medium.area());
    assert_eq!(medium.area(), 1421);
    assert!(large.can_hold(&flat));
    assert!(large.area() > flat.area());
}
