use akatsuki::filters::{camel_case, kebab_case, lower, pascal_case, singular, snake_case, upper};

#[test]
fn test_snake_case() {
    assert_eq!(snake_case("ArticleName"), "article_name");
    assert_eq!(snake_case("userId"), "user_id");
}

#[test]
fn test_camel_case() {
    assert_eq!(camel_case("user_id"), "userId");
}

#[test]
fn test_pascal_case() {
    assert_eq!(pascal_case("user_profile"), "UserProfile");
}

#[test]
fn case_filters_on_named_examples() {
    assert_eq!(snake_case("UserProfile"), "user_profile");
    assert_eq!(camel_case("user_profile"), "userProfile");
    assert_eq!(pascal_case("user_profile"), "UserProfile");
    assert_eq!(kebab_case("UserProfile"), "user-profile");
}

#[test]
fn case_filters_are_total() {
    assert_eq!(snake_case(""), "");
    assert_eq!(camel_case(""), "");
    assert_eq!(pascal_case(""), "");
    assert_eq!(kebab_case(""), "");
    assert_eq!(singular(""), "");
    assert_eq!(upper(""), "");
    assert_eq!(lower(""), "");
}

#[test]
fn singular_rules() {
    assert_eq!(singular("categories"), "category");
    assert_eq!(singular("boxes"), "box");
    assert_eq!(singular("buses"), "bus");
    assert_eq!(singular("quizzes"), "quizz");
    assert_eq!(singular("cats"), "cat");
    assert_eq!(singular("cat"), "cat");
}

#[test]
fn upper_and_lower() {
    assert_eq!(upper("user_Id"), "USER_ID");
    assert_eq!(lower("UserId"), "userid");
}

#[test]
fn camel_case_keeps_other_characters() {
    assert_eq!(camel_case("a__b_"), "aB");
    assert_eq!(pascal_case("already"), "Already");
}
