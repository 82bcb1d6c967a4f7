use book_examples::shoes::{shoes_in_size, Shoe};

#[test]
fn filters_by_size() {
    let shoes = vec![
        Shoe { size: 10, style: String::from("sneaker") },
        Shoe { size: 13, style: String::from("sandal") },
        Shoe { size: 10, style: String::from("boot") },
    ];

    let in_my_size = shoes_in_size(shoes, 10);

    assert_eq!(
        in_my_size,
        vec![
            Shoe { size: 10, style: String::from("sneaker") },
            Shoe { size: 10, style: String::from("boot") },
        ]
    );
}

#[test]
fn no_shoe_of_an_absent_size_is_kept() {
    let shoes = vec![Shoe { size: 10, style: String::from("sneaker") }];
    let in_my_size = shoes_in_size(shoes, 11);
    assert!(in_my_size.is_empty());
}
