use svo_backend::delivery::parse_status_value;
use svo_backend::json::JsonValue;
use svo_backend::nickname::{random_nickname, ADJECTIVES, NOUNS};
use svo_backend::lootbox::{choose_drop_index, choose_winner_index, select_weighted, LootboxError};
use svo_backend::referrals::build_daily_stats;
use svo_backend::squads::{process_squad_image, SquadError};

fn png(width: u32, height: u32) -> Vec<u8> {
    let img = image::RgbaImage::new(width, height);
    let mut cursor = std::io::Cursor::new(Vec::new());
    image::DynamicImage::ImageRgba8(img).write_to(&mut cursor, image::ImageFormat::Png).expect("png");
    cursor.into_inner()
}

fn bmp(width: u32, height: u32) -> Vec<u8> {
    let img = image::RgbImage::new(width, height);
    let mut cursor = std::io::Cursor::new(Vec::new());
    image::DynamicImage::ImageRgb8(img).write_to(&mut cursor, image::ImageFormat::Bmp).expect("bmp");
    cursor.into_inner()
}

#[test]
fn squad_images_are_stored_as_png() {
    let stored = process_squad_image(&bmp(4, 3)).expect("image");
    assert_eq!(&stored[1..4], b"PNG");
    let decoded = image::load_from_memory(&stored).expect("decodes");
    assert_eq!((decoded.width(), decoded.height()), (4, 3));
}

#[test]
fn squad_images_are_refused_when_empty_large_or_unreadable() {
    assert_eq!(process_squad_image(&[]).unwrap_err(), SquadError::ImageEmpty);
    assert_eq!(process_squad_image(&png(1025, 1)).unwrap_err(), SquadError::ImageResolution);
    assert!(matches!(process_squad_image(b"not an image").unwrap_err(), SquadError::ImageUnreadable(_)));
    assert_eq!(process_squad_image(&vec![0u8; 2 * 1024 * 1024 + 1]).unwrap_err(), SquadError::ImageTooLarge);
}

#[test]
fn daily_stats_name_each_day() {
    let day: i64 = 86_400_000;
    let stats = build_daily_stats(&vec![day * 3 + 5, day * 3 + 9, day * 5], day * 3, day * 5 + 1);
    let dates: Vec<&str> = stats.buckets.iter().map(|b| b.date.as_str()).collect();
    assert_eq!(dates, vec!["1970-01-04", "1970-01-05", "1970-01-06"]);
    let counts: Vec<u64> = stats.buckets.iter().map(|b| b.registrations).collect();
    assert_eq!(counts, vec![2, 0, 1]);
    assert_eq!(stats.total, 3);
}

#[test]
fn status_values_parse_numbers_and_texts() {
    assert_eq!(parse_status_value(&JsonValue::Text(" 42 ".to_string())), 42);
    assert_eq!(parse_status_value(&JsonValue::Text("x".to_string())), 0);
    assert_eq!(parse_status_value(&JsonValue::Number(Some(7))), 7);
    assert_eq!(parse_status_value(&JsonValue::Bool(true)), 1);
}

#[test]
fn weighted_choices_stay_within_the_drops() {
    assert_eq!(select_weighted(&[1, 2, 3], 0), 0);
    assert_eq!(select_weighted(&[1, 2, 3], 1), 1);
    assert_eq!(select_weighted(&[1, 2, 3], 5), 2);
    for _ in 0..50 {
        let i = choose_drop_index(&[0, 5, 0]).expect("drop");
        assert_eq!(i, 1);
        let w = choose_winner_index(20);
        assert!((13..=19).contains(&w));
    }
    assert_eq!(choose_drop_index(&[]).unwrap_err(), LootboxError::NoActiveDrops);
    assert_eq!(choose_drop_index(&[0, 0]).unwrap_err(), LootboxError::TotalWeightNotPositive);
    assert_eq!(choose_winner_index(1), 0);
}

#[test]
fn nicknames_join_a_listed_adjective_noun_and_number() {
    assert_eq!(ADJECTIVES.split(' ').count(), 256);
    assert_eq!(NOUNS.split(' ').count(), 305);
    for _ in 0..20 {
        let nick = random_nickname();
        let parts: Vec<&str> = nick.split('_').collect();
        assert_eq!(parts.len(), 3);
        assert!(ADJECTIVES.split(' ').any(|w| w == parts[0]));
        assert!(NOUNS.split(' ').any(|w| w == parts[1]));
        let number: u32 = parts[2].parse().expect("number");
        assert!((100000..999999).contains(&number));
    }
}
