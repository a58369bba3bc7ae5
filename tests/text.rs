use death_counter::candidates::{
    best_candidate_index, boost_candidates, candidate_from_text, collect_boss_names,
    select_boss_name,
};
use death_counter::cleaning::clean_ocr_text_universal;
use death_counter::matcher::{is_death_detected, is_death_text};
use death_counter::quality::{
    calculate_universal_text_quality, has_consecutive_duplicates, has_repetitive_patterns,
    has_suspicious_final_duplication,
};

fn chars(s: &str) -> Vec<char> {
    s.chars().collect()
}

#[test]
fn cleaning_keeps_name_characters_and_single_spaces() {
    assert_eq!(clean_ocr_text_universal("  Margit,   the Fell Omen!! 42 "), "Margit, the Fell Omen");
    assert_eq!(clean_ocr_text_universal("Ébrietas\t\tfille (du) cosmos"), "Ébrietas fille (du) cosmos");
    assert_eq!(clean_ocr_text_universal("#@$%"), "");
    assert_eq!(clean_ocr_text_universal(""), "");
}

#[test]
fn cleaning_is_idempotent_on_examples() {
    for s in ["  a  b  ", "Godrick  the\nGrafted", "x--y..z", "  !!", "Rennala, Queen of the Full Moon"] {
        let once = clean_ocr_text_universal(s);
        assert_eq!(clean_ocr_text_universal(&once), once);
    }
}

#[test]
fn short_texts_score_zero() {
    assert_eq!(calculate_universal_text_quality("Abcd", "Abcd"), 0);
    assert_eq!(calculate_universal_text_quality("", ""), 0);
}

#[test]
fn score_is_never_negative() {
    assert_eq!(calculate_universal_text_quality("#####$$$$$%%%%%", "#####$$$$$%%%%%"), 0);
    let junk = "aaaaaaaaaaaaaaaaaaaaaaaaaaaaaaaaaaaaaaaaaaaaaaaaaaaaaaaaaaaaaaaaaaaaaaaaaaaaaaaaaaaa";
    assert_eq!(calculate_universal_text_quality(junk, junk), 0);
}

#[test]
fn score_of_a_clean_boss_name() {
    // 20 characters (+15), 4 words (+10), 17 letters of 20 (+17), upper-case
    // start (+5), diverse letters but "ll" side by side (no bonus), a space
    // (+3): 50 points.
    assert_eq!(calculate_universal_text_quality("Margit the Fell Omen", "Margit the Fell Omen"), 5000);
    // The same text read with 20 more characters of noise loses 0.3 per
    // character removed: 50 - 6 = 44 points.
    let raw = "Margit the Fell Omen####################";
    assert_eq!(calculate_universal_text_quality("Margit the Fell Omen", raw), 4400);
}

#[test]
fn score_of_a_single_word() {
    // 6 characters (+8), one word (+5), all letters (+20), upper-case start
    // (+5), diverse with no doubles (+5): 43 points.
    assert_eq!(calculate_universal_text_quality("Margit", "Margit"), 4300);
}

#[test]
fn digits_cost_three_points_each_beyond_two() {
    // 12 characters (+15), 3 words (+10), 6 letters of 12 (+10), 4 digits
    // (-12), upper-case start (+5), diverse letters (+5), a space (+3).
    assert_eq!(calculate_universal_text_quality("Abc 1234 Def", "Abc 1234 Def"), 3600);
}

#[test]
fn pattern_checks() {
    assert!(has_repetitive_patterns(&chars("abccc")));
    assert!(has_repetitive_patterns(&chars("xababab")));
    assert!(has_repetitive_patterns(&chars("aaa")));
    assert!(!has_repetitive_patterns(&chars("aab")));
    assert!(!has_repetitive_patterns(&chars("Margit")));
    assert!(has_consecutive_duplicates(&chars("Fell")));
    assert!(!has_consecutive_duplicates(&chars("Omen")));
    assert!(has_suspicious_final_duplication(&chars("Omenn")));
    assert!(!has_suspicious_final_duplication(&chars("nn")));
}

#[test]
fn candidate_from_raw_text() {
    assert!(candidate_from_text("%%%").is_none());
    let (t, s) = candidate_from_text(" Margit ").unwrap();
    assert_eq!(t, "Margit");
    assert_eq!(s, 4300);
}

#[test]
fn frequency_boost_ranks_consensus_first() {
    let c = vec![
        ("Margit".to_string(), 50u64),
        ("Margi7".to_string(), 60u64),
        ("Margit".to_string(), 50u64),
        ("Margit".to_string(), 50u64),
    ];
    let b = boost_candidates(&c);
    assert_eq!(b[0].1, 50 + 3 * 250);
    assert_eq!(b[1].1, 60 + 250);
    assert_eq!(best_candidate_index(&c), Some(0));
}

#[test]
fn best_candidate_ties_go_to_the_first() {
    let c = vec![("Alpha".to_string(), 900u64), ("Beta".to_string(), 900u64)];
    assert_eq!(best_candidate_index(&c), Some(0));
    assert_eq!(best_candidate_index(&Vec::new()), None);
}

#[test]
fn weak_best_candidate_gives_no_name() {
    assert_eq!(select_boss_name(&vec![("Ab".to_string(), 0u64)]), None);
    assert_eq!(select_boss_name(&vec![("Abcde".to_string(), 251u64)]), Some("Abcde".to_string()));
    assert_eq!(select_boss_name(&vec![("Abcde".to_string(), 250u64)]), None);
}

#[test]
fn zone_scan_stops_at_first_weak_zone() {
    let zones = vec![
        vec![("Margit".to_string(), 4300u64)],
        vec![("Nothing".to_string(), 0u64)],
        vec![("Godrick".to_string(), 4300u64)],
    ];
    assert_eq!(collect_boss_names(&zones), vec!["Margit".to_string()]);
    let two = vec![vec![("Margit".to_string(), 4300u64)], vec![("Godrick".to_string(), 4300u64)]];
    assert_eq!(collect_boss_names(&two), vec!["Margit".to_string(), "Godrick".to_string()]);
}

#[test]
fn zone_scan_keeps_at_most_two_names() {
    let three = vec![
        vec![("Margit".to_string(), 4300u64)],
        vec![("Godrick".to_string(), 4300u64)],
        vec![("Rennala".to_string(), 4300u64)],
    ];
    assert_eq!(collect_boss_names(&three), vec!["Margit".to_string(), "Godrick".to_string()]);
}

#[test]
fn death_phrase_matching() {
    assert!(is_death_text("vous avez peri", "VOUS AVEZ PERI"));
    assert!(is_death_text("VOUS AVEZ PÉRI", "VOUS AVEZ PERI"));
    assert!(is_death_text("VOUSAVEZ  PERI", "vous avez peri"));
    assert!(is_death_text("xx You Died xx", "YOU DIED"));
    assert!(!is_death_text("VOUS AVEZ", "VOUS AVEZ PERI"));
    assert!(!is_death_text("", "YOU DIED"));
}

#[test]
fn fuzzy_similarity_decides_above_eighty() {
    assert!(is_death_detected("VOUS AVEZ PFRI", "VOUS AVEZ PERI", 81));
    assert!(!is_death_detected("VOUS AVEZ PFRI", "VOUS AVEZ PERI", 80));
    assert!(is_death_detected("YOU DIED", "YOU DIED", 0));
}
