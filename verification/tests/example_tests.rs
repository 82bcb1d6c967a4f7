use book_examples::blog::Post;
use book_examples::boxes;
use book_examples::coins::{catch_all, catch_all2, plus_one, value_in_cents, Coin};
use book_examples::first_word::{first_word1, first_word2};
use book_examples::generics::{generics, largest_number, largest_number_generic};
use book_examples::gui::{screen_example, Button, Draw, Screen2};
use book_examples::iterators;
use book_examples::lifetimes::longest;
use book_examples::messages::enum_variety;
use book_examples::rc_list;
use book_examples::rectangle::Rectangle;
use book_examples::restaurant::back_of_house::Breakfast;
use book_examples::restaurant::eat_at_restaurant;
use book_examples::summaries::{returns_summary, NewsArticle1, NewsArticle2, Summary1, Summary2, Tweet1};

#[test]
fn blog_workflow_keeps_the_text() {
    book_examples::blog::blog_example();
    let mut post = Post::new();
    post.add_text("I ate a salad for lunch today");
    let post = post.request_review();
    let post = post.approve();
    assert_eq!("I ate a salad for lunch today", post.content());
}

#[test]
fn coin_values_are_their_face_values() {
    assert_eq!(1, value_in_cents(Coin::Penny));
    assert_eq!(5, value_in_cents(Coin::Nickel));
    assert_eq!(10, value_in_cents(Coin::Dime));
    assert_eq!(25, value_in_cents(Coin::Quarter));
}

#[test]
fn plus_one_matches_on_the_option() {
    assert_eq!(Some(6), plus_one(Some(5)));
    assert_eq!(None, plus_one(None));
    catch_all();
    catch_all2();
}

#[test]
fn first_word_ends_at_the_first_space() {
    assert_eq!(5, first_word1("hello world"));
    assert_eq!(8, first_word1("oneword."));
    assert_eq!("hello", first_word2("hello world"));
    assert_eq!("oneword.", first_word2("oneword."));
}

#[test]
fn largest_number_finds_the_maximum() {
    let numbers = vec![34, 50, 25, 100, 65];
    assert_eq!(&100, largest_number(&numbers));
    assert_eq!(&100, largest_number_generic(&numbers));
    let words = vec!["apple", "pear", "plum"];
    assert_eq!(&"plum", largest_number_generic(&words));
    generics();
}

#[test]
fn longest_prefers_the_longer_slice() {
    assert_eq!("abcd", longest("abcd", "xyz"));
    assert_eq!("wxyz", longest("abc", "wxyz"));
    assert_eq!("xyz", longest("abc", "xyz"));
}

#[test]
fn rectangles_compare_by_both_sides() {
    let rect1 = Rectangle { width: 30, height: 50 };
    let rect2 = Rectangle { width: 10, height: 40 };
    let rect3 = Rectangle { width: 60, height: 45 };
    assert_eq!(1500, rect1.area());
    assert!(rect1.width());
    assert!(rect1.can_hold(&rect2));
    assert!(!rect1.can_hold(&rect3));
    let sq = Rectangle::square(3);
    assert_eq!(9, sq.area());
}

#[test]
fn summaries_phrase_their_sources() {
    let article = NewsArticle1 {
        headline: String::from("Penguins win the Stanley Cup Championship!"),
        location: String::from("Pittsburgh, PA, USA"),
        author: String::from("Iceburgh"),
        content: String::from("The Pittsburgh Penguins once again are the best."),
    };
    assert_eq!(
        "Penguins win the Stanley Cup Championship!, by Iceburgh Pittsburgh, PA, USA",
        article.summarize(),
    );

    let tweet = Tweet1 {
        username: String::from("rustofficial"),
        content: String::from("new version launched!"),
        reply: false,
        retweet: false,
    };
    assert_eq!("rustofficial: new version launched!", tweet.summarize());

    let article = NewsArticle2 {
        headline: String::from("India wins world cup!"),
        location: String::from("Mumbai, India"),
        author: String::from("Virat Kohli"),
        content: String::from("India once again wins the World Cup in 2025!..."),
    };
    assert_eq!("@Virat Kohli", article.summarize_author());
    assert_eq!("Read more from @Virat Kohli", article.summarize());

    let summary = returns_summary();
    assert_eq!("Read more from @Virat Kohli", summary.summarize());
}

#[test]
fn screens_draw_all_their_components() {
    screen_example();
    let screen = Screen2 {
        components: vec![
            Button { width: 50, height: 50, label: String::from("OK") },
            Button { width: 20, height: 20, label: String::from("Cancel") },
        ],
    };
    screen.run();
    screen.components[0].draw();
}

#[test]
fn breakfast_comes_with_seasonal_fruit() {
    let order = Breakfast::summer("Rye");
    assert_eq!("Rye", order.toast);
    eat_at_restaurant();
}

#[test]
fn pointer_examples_run() {
    boxes::examples();
    rc_list::examples();
    iterators::examples();
    enum_variety();
}
