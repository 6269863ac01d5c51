//! Tests for the generics, traits, and lifetimes lessons.

use rust_lessons::lessons::generics::{largest, sort_desc, swap, Container, Pair, Point};
use rust_lessons::lessons::lifetimes::{longest, ImportantExcerpt};
use rust_lessons::lessons::lifetimes;
use rust_lessons::lessons::traits::{BlogPost, Display, NewsArticle, Summary, Tweet};
use rust_lessons::lessons::traits::returns_summarizable;

fn test_notify<T: Summary>(item: &T) -> String {
    item.summarize()
}

#[test]
fn test_generic_point() {
    let p: Point<i32> = Point { x: 5, y: 10 };
    assert_eq!(*p.x(), 5);
    assert_eq!(*p.y(), 10);
}

#[test]
fn test_generic_pair() {
    let pair: Pair<i32, String> = Pair::new(42, String::from("test"));
    assert_eq!(pair.first, 42);
    assert_eq!(pair.second, "test");
}

#[test]
fn test_generic_container() {
    let c1 = Container::new(42);
    assert_eq!(c1.value, 42);

    let c2 = Container::new("hello");
    assert_eq!(c2.value, "hello");
}

#[test]
fn test_largest() {
    let numbers = vec![1, 5, 3, 9, 2];
    assert_eq!(largest(&numbers), 9);

    let chars = vec!['a', 'z', 'm', 'b'];
    assert_eq!(largest(&chars), 'z');
}

#[test]
fn swap_exchanges_the_values() {
    let mut a = 3;
    let mut b = 5;
    swap(&mut a, &mut b);
    assert_eq!(a, 5);
    assert_eq!(b, 3);
}

#[test]
fn sort_desc_orders_descending() {
    let sorted = sort_desc(vec![1, 5, 3, 9, 2]);
    assert_eq!(sorted, vec![9, 5, 3, 2, 1]);
    let empty: Vec<i32> = sort_desc(vec![]);
    assert!(empty.is_empty());
    let dup = sort_desc(vec![4, 4, 1, 4]);
    assert_eq!(dup, vec![4, 4, 4, 1]);
}

#[test]
fn test_trait_implementation() {
    let tweet = Tweet {
        username: String::from("test"),
        content: String::from("test"),
        reply: false,
        retweet: false,
    };
    let expected = format!("@{}", "test");
    assert_eq!(tweet.summarize_author(), expected);
}

#[test]
fn test_trait_bounds() {
    let tweet = Tweet {
        username: String::from("test"),
        content: String::from("content"),
        reply: false,
        retweet: false,
    };

    let summary = test_notify(&tweet);
    assert!(summary.contains("test"));
}

#[test]
fn test_default_implementation() {
    let item = BlogPost { title: String::from("MyPost"), author: String::from("author") };
    let expected = "(Read more...)";
    assert_eq!(item.summarize(), expected);
}

#[test]
fn news_article_summary_lists_its_provenance() {
    let article = NewsArticle {
        headline: String::from("Penguins win the Stanley Cup Championship!"),
        location: String::from("Pittsburgh"),
        author: String::from("Iceburgh"),
        content: String::from("The best hockey team in the NHL."),
    };
    assert_eq!(
        article.summarize(),
        "Penguins win the Stanley Cup Championship!, by Iceburgh (Pittsburgh)"
    );
    assert_eq!(article.summarize_author(), "@Iceburgh");
}

#[test]
fn tweet_display_names_the_user() {
    let tweet = Tweet {
        username: String::from("multi"),
        content: String::from("Multiple traits!"),
        reply: false,
        retweet: false,
    };
    assert_eq!(tweet.summarize(), "multi: Multiple traits!");
    assert_eq!(tweet.display(), "Tweet by multi: Multiple traits!");
}

#[test]
fn returns_summarizable_gives_the_fixed_tweet() {
    let t = returns_summarizable();
    assert_eq!(t.username, "horse_ebooks");
    assert_eq!(t.content, "content");
    assert_eq!(t.summarize(), "horse_ebooks: content");
}

#[test]
fn test_longest() {
    let s1 = String::from("hello");
    let s2 = String::from("world!");
    assert_eq!(longest(&s1, &s2), "world!");
}

#[test]
fn lifetimes_test_first_word() {
    let s = String::from("hello world");
    assert_eq!(lifetimes::first_word(&s), "hello");
}

#[test]
fn test_important_excerpt() {
    let s = String::from("Important text here.");
    let excerpt = ImportantExcerpt { part: &s[0..9] };
    assert_eq!(excerpt.level(), 3);
    assert_eq!(excerpt.part, "Important");
}

#[test]
fn test_static_lifetime() {
    let s = "Static string";
    assert_eq!(s.len(), 13);
}
