use serenity::http::{LightMethod, MessagePagination, Pagination, MEMBER_FETCH_LIMIT};
use serenity::utils::ParseValue;
use serenity::Snowflake;

#[test]
fn light_methods_become_reqwest_methods() {
    assert_eq!(LightMethod::Delete.reqwest_method(), reqwest::Method::DELETE);
    assert_eq!(LightMethod::Get.reqwest_method(), reqwest::Method::GET);
    assert_eq!(LightMethod::Patch.reqwest_method(), reqwest::Method::PATCH);
    assert_eq!(LightMethod::Post.reqwest_method(), reqwest::Method::POST);
    assert_eq!(LightMethod::Put.reqwest_method(), reqwest::Method::PUT);
    assert_eq!(LightMethod::Put.reqwest_method().as_str(), "PUT");
}

#[test]
fn light_methods_are_values() {
    let m = LightMethod::Post;
    let copy = m;
    assert_eq!(m, copy);
    assert_ne!(LightMethod::Get, LightMethod::Put);
}

#[test]
fn member_fetch_limit() {
    assert_eq!(MEMBER_FETCH_LIMIT, 1000);
}

#[test]
fn paginations_carry_ids() {
    let after = MessagePagination::After(Snowflake::new(5));
    let copy = after;
    assert!(matches!(copy, MessagePagination::After(id) if id == 5u64));
    assert!(matches!(Pagination::Before(Snowflake::new(6)), Pagination::Before(id) if id == 6u64));
    assert!(matches!(MessagePagination::Around(Snowflake::new(1)), MessagePagination::Around(_)));
}

#[test]
fn parse_values_compare() {
    assert_eq!(ParseValue::Users, ParseValue::Users);
    assert_ne!(ParseValue::Users, ParseValue::Roles);
    assert_ne!(ParseValue::Everyone, ParseValue::Roles);
}

#[test]
fn light_methods_give_distinct_methods() {
    let all = [LightMethod::Delete, LightMethod::Get, LightMethod::Patch, LightMethod::Post, LightMethod::Put];
    let names = ["DELETE", "GET", "PATCH", "POST", "PUT"];
    for (i, a) in all.iter().enumerate() {
        assert_eq!(a.reqwest_method().as_str(), names[i]);
        for (j, b) in all.iter().enumerate() {
            assert_eq!(a.reqwest_method() == b.reqwest_method(), i == j);
        }
    }
}
