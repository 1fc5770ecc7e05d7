use jobscraper::calendar::day_number_from_ymd;
use jobscraper::strutil::{
    contains_sub, extract_number, lowercase, replace_char, replace_sub, trim_str, u64_to_dec,
};
use jobscraper::transforms::{hellowork_date_on, linkedin_id, parse_date};

fn day(y: i32, m: u32, d: u32) -> i64 {
    day_number_from_ymd(y, m, d).expect("valid date")
}

#[test]
fn relative_weeks_in_french_count_back_from_today() {
    assert_eq!(hellowork_date_on("il y a 2 semaines", day(2024, 6, 10)), "2024-05-27");
}

#[test]
fn relative_weeks_in_english_count_back_from_today() {
    assert_eq!(hellowork_date_on("2 weeks ago", day(2024, 6, 10)), "2024-05-27");
}

#[test]
fn relative_days_count_back_from_today() {
    assert_eq!(hellowork_date_on("il y a 3 jours", day(2024, 6, 10)), "2024-06-07");
}

#[test]
fn relative_months_count_as_thirty_days() {
    assert_eq!(hellowork_date_on("il y a 1 mois", day(2024, 6, 10)), "2024-05-11");
}

#[test]
fn phrase_without_a_unit_means_today() {
    assert_eq!(hellowork_date_on("publié récemment", day(2024, 6, 10)), "2024-06-10");
}

#[test]
fn the_day_unit_hides_in_longer_words() {
    // "aujourd'hui" contains the unit word "jour", so the phrase counts
    // one day back rather than meaning today.
    assert_eq!(hellowork_date_on("publiée aujourd'hui", day(2024, 6, 10)), "2024-06-09");
}

#[test]
fn phrase_without_a_number_counts_one_unit() {
    assert_eq!(hellowork_date_on("il y a une semaine", day(2024, 6, 10)), "2024-06-03");
}

#[test]
fn uppercase_phrases_are_folded_before_matching() {
    assert_eq!(hellowork_date_on("  IL Y A 2 SEMAINES  ", day(2024, 6, 10)), "2024-05-27");
}

#[test]
fn linkedin_id_takes_the_trailing_colon_segment() {
    assert_eq!(linkedin_id("urn:li:jobPosting:3871"), "3871");
}

#[test]
fn linkedin_id_without_a_colon_is_the_whole_string() {
    assert_eq!(linkedin_id("plain"), "plain");
}

#[test]
fn linkedin_id_with_a_trailing_colon_is_empty() {
    assert_eq!(linkedin_id("a:b:"), "");
}

#[test]
fn calendar_date_strings_parse_to_their_day_number() {
    let today = day(2024, 6, 10);
    assert_eq!(parse_date("2024-06-01", today), day(2024, 6, 1));
    assert_eq!(parse_date("1999-12-31", today), day(1999, 12, 31));
}

#[test]
fn timestamps_parse_to_their_date_part() {
    let today = day(2024, 6, 10);
    assert_eq!(parse_date("2023-02-28T23:59:59Z", today), day(2023, 2, 28));
}

#[test]
fn unparsable_dates_fall_back_to_today() {
    let today = day(2024, 6, 10);
    assert_eq!(parse_date("yesterday-ish", today), today);
    assert_eq!(parse_date("2024-13-40", today), today);
    assert_eq!(parse_date("2024-06-01T99:00:00Z", today), today);
}

#[test]
fn day_numbers_exist_only_for_valid_dates() {
    assert!(day_number_from_ymd(2024, 2, 29).is_some());
    assert!(day_number_from_ymd(2023, 2, 29).is_none());
    assert!(day_number_from_ymd(2024, 0, 1).is_none());
    assert!(day_number_from_ymd(-5, 1, 1).is_none());
    assert_eq!(day_number_from_ymd(1, 1, 1), Some(1));
}

#[test]
fn first_number_in_text_is_extracted() {
    assert_eq!(extract_number("il y a 12 jours"), 12);
    assert_eq!(extract_number("no digits here"), 1);
    assert_eq!(extract_number("-3 days"), -3);
}

#[test]
fn overflowing_tokens_are_skipped() {
    assert_eq!(extract_number("99999999999999999999999 then 7"), 7);
}

#[test]
fn trim_strips_unicode_whitespace() {
    assert_eq!(trim_str("  a b \n\t"), "a b");
    assert_eq!(trim_str("\u{00A0}x\u{00A0}"), "x");
    assert_eq!(trim_str("   "), "");
}

#[test]
fn substring_search_matches_exactly() {
    assert!(contains_sub("il y a 2 semaines", "semaine"));
    assert!(!contains_sub("deux jours", "semaine"));
    assert!(contains_sub("abc", ""));
}

#[test]
fn decimal_formatting_is_exact() {
    assert_eq!(u64_to_dec(0), "0");
    assert_eq!(u64_to_dec(305), "305");
    assert_eq!(u64_to_dec(u64::MAX), "18446744073709551615");
}

#[test]
fn replacement_covers_every_occurrence() {
    assert_eq!(replace_sub("a{id}b{id}", "{id}", "X"), "aXbX");
    assert_eq!(replace_sub("none", "{id}", "X"), "none");
    assert_eq!(replace_char("a\nb\nc", '\n', ' '), "a b c");
}

#[test]
fn lowercase_folds_non_ascii_letters() {
    assert_eq!(lowercase("Publiée SEMAINE"), "publiée semaine");
}
