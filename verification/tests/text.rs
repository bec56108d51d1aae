use plume_federation::codec::hash;
use plume_federation::listing::{count_of, limit_to, page, sort_recent};
use plume_federation::reshares::Reshare;
use plume_federation::text::{
    copy_texts, find_char, has_text, join, join2, join3, same_bytes, same_text, split,
    split_words, starts_with, to_lowercase, without_line_feeds,
};

fn list(items: &[&str]) -> Vec<String> {
    items.iter().map(|s| s.to_string()).collect()
}

fn reshare(id: i32, date: i64) -> Reshare {
    Reshare { id, user_id: 1, post_id: 1, ap_url: format!("r{}", id), creation_date: date }
}

#[test]
fn a_text_is_split_at_every_separator() {
    assert_eq!(split("a,b,c", ','), list(&["a", "b", "c"]));
    assert_eq!(split("", ','), list(&[""]));
    assert_eq!(split(",", ','), list(&["", ""]));
    assert_eq!(split("a,,b,", ','), list(&["a", "", "b", ""]));
    assert_eq!(split("héllo+wörld", '+'), list(&["héllo", "wörld"]));
    assert_eq!(split("abc", '+'), list(&["abc"]));
}

#[test]
fn words_are_what_stands_between_spaces() {
    assert_eq!(split_words("date digest"), list(&["date", "digest"]));
    assert_eq!(split_words("  date   digest "), list(&["date", "digest"]));
    assert_eq!(split_words(""), Vec::<String>::new());
    assert_eq!(split_words("   "), Vec::<String>::new());
    assert_eq!(split_words("a\tb"), list(&["a\tb"]));
}

#[test]
fn texts_are_joined_with_a_separator_between() {
    assert_eq!(join(&list(&["a", "b", "c"]), ", "), "a, b, c");
    assert_eq!(join(&list(&["a"]), ", "), "a");
    assert_eq!(join(&list(&[]), ", "), "");
    assert_eq!(join(&list(&["", ""]), "-"), "-");
    assert_eq!(join2("a", "b"), "ab");
    assert_eq!(join3("a", "", "c"), "ac");
    assert_eq!(copy_texts(&list(&["x", "y"])), list(&["x", "y"]));
}

#[test]
fn only_ascii_capitals_are_lowered() {
    assert_eq!(to_lowercase("Content-Type"), "content-type");
    assert_eq!(to_lowercase("AZ az @[ ÀÉ"), "az az @[ ÀÉ");
    assert_eq!(to_lowercase(""), "");
}

#[test]
fn prefixes_and_characters_are_found() {
    assert!(starts_with("keyId=\"x\"", "keyId="));
    assert!(!starts_with("keyId", "keyId="));
    assert!(starts_with("abc", ""));
    assert!(!starts_with("abc", "b"));
    assert_eq!(find_char("SHA-256=ab=", '='), Some(7));
    assert_eq!(find_char("é=", '='), Some(1));
    assert_eq!(find_char("abc", '='), None);
    assert_eq!(find_char("", '='), None);
    assert!(same_text("a", "a"));
    assert!(!same_text("a", "A"));
    assert!(same_bytes(&[1, 2], &[1, 2]));
    assert!(!same_bytes(&[1, 2], &[1, 3]));
    assert!(!same_bytes(&[1, 2], &[1]));
    assert!(has_text(&list(&["a", "b"]), "b"));
    assert!(!has_text(&list(&["a", "b"]), "c"));
}

#[test]
fn line_feeds_are_taken_out() {
    assert_eq!(without_line_feeds("alice\n"), "alice");
    assert_eq!(without_line_feeds("a\nb\n\nc"), "abc");
    assert_eq!(without_line_feeds("a\r\n"), "a\r");
    assert_eq!(without_line_feeds(""), "");
}

#[test]
fn rows_of_one_time_keep_their_order() {
    let rows = vec![reshare(1, 5), reshare(2, 9), reshare(3, 5), reshare(4, 1), reshare(5, 9)];
    let sorted = sort_recent(&rows);
    assert_eq!(sorted.iter().map(|r| r.id).collect::<Vec<i32>>(), vec![2, 5, 1, 3, 4]);
    assert_eq!(sort_recent(&Vec::<Reshare>::new()), vec![]);
    assert_eq!(limit_to(&sorted, 2).iter().map(|r| r.id).collect::<Vec<i32>>(), vec![2, 5]);
    assert_eq!(limit_to(&sorted, i64::MAX).len(), 5);
    assert_eq!(limit_to(&sorted, i64::MIN).len(), 0);
    assert_eq!(page(&sorted, 1, 4).iter().map(|r| r.id).collect::<Vec<i32>>(), vec![5, 1, 3]);
    assert_eq!(page(&sorted, 4, 100).iter().map(|r| r.id).collect::<Vec<i32>>(), vec![4]);
    assert_eq!(page(&sorted, 5, 100).len(), 0);
    assert_eq!(page(&sorted, i32::MAX, i32::MIN).len(), 0);
    assert_eq!(count_of(3), 3);
    assert_eq!(count_of(usize::MAX), i64::MAX);
}

#[test]
fn hashing_is_of_the_utf8_bytes() {
    assert_eq!(hash("é"), hex::encode(openssl::sha::sha256("é".as_bytes())));
    assert_eq!(hash("é").len(), 64);
}
