use concurrent_cell::generic::{max, MathResult, NewsArticle, Pair, PairTs, Summary};

#[test]
fn test_fn() {
    let num = 5;
    let add_num = |x: i32| num + x;
    assert_eq!(add_num(10), 15);
    assert_eq!(add_num(20), 25);
    println!("add_num with 10: {}", add_num(10));
    println!("add_num with 20: {}", add_num(20));
}

#[test]
fn test_fn_mut() {
    let mut counter = 0;
    let mut increment_counter = || {
        counter += 1;
    };
    increment_counter();
    increment_counter();
    assert_eq!(counter, 2);
    println!("Counter after incrementing: {}", counter);
}

#[test]
fn test_fn_once() {
    let message = "Hello, World!".to_string();
    let print_message = move || {
        println!("{}", message);
        message
    };
    assert_eq!(print_message(), "Hello, World!");
}

#[test]
fn test_func() {
    assert_eq!(max(10, 20), 20);
    assert_eq!(max("apple", "banana"), "banana");
    assert_eq!(max(7, 7), 7);
    println!("Max of 10 and 20 is {}", max(10, 20));
    println!("Max of 'apple' and 'banana' is {}", max("apple", "banana"));
}

#[test]
fn test_struct() {
    let pair_int = Pair::new(1, 2);
    assert!(!pair_int.cmp_first_to_second());
    let pair_str = Pair::new("Tom", "Jerry");
    assert!(pair_str.cmp_first_to_second());
    assert!(Pair::new(3, 3).cmp_first_to_second());
}

#[test]
fn test_trait() {
    let article = NewsArticle {
        headline: String::from("New Study Shows Rust Usage Soars"),
        content: String::from(
            "A recent study found that the use of Rust in system programming has skyrocketed.",
        ),
    };
    assert_eq!(article.summarize(), "New Study Shows Rust Usage Soars");
    assert!(article.content.starts_with("A recent study"));
    assert_eq!(String::new().summarize(), 0);
    assert_eq!(String::from("four").summarize(), 4);
}

#[test]
fn test_enum() {
    let sum_result: MathResult<i32> = MathResult::Value(5 + 3);
    assert_eq!(format!("{:?}", sum_result), "Value(8)");

    let divisor = 2.0;
    let numerator = 6.0;
    let divide_result = if divisor != 0.0 {
        MathResult::Value(numerator / divisor)
    } else {
        MathResult::Error("Division by zero".to_string())
    };
    assert_eq!(format!("{:?}", divide_result), "Value(3.0)");

    let error_result: MathResult<i32> = MathResult::Error("Invalid input".to_string());
    assert_eq!(format!("{:?}", error_result), "Error(\"Invalid input\")");
}

#[test]
fn test_where() {
    let pair = PairTs::new("Rust", "2023");
    assert_eq!(pair.first, "Rust");
    assert_eq!(pair.second, "2023");
    println!("First: {}, Second: {}", pair.first, pair.second);
}
