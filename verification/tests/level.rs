use literate::HeadingLevel;

const LEVELS: [HeadingLevel; 6] = [
    HeadingLevel::H1,
    HeadingLevel::H2,
    HeadingLevel::H3,
    HeadingLevel::H4,
    HeadingLevel::H5,
    HeadingLevel::H6,
];

#[test]
fn ranks_run_from_one_to_six() {
    let ranks: Vec<u8> = LEVELS.iter().map(|level| level.rank()).collect();
    assert_eq!(ranks, vec![1, 2, 3, 4, 5, 6]);
}

#[test]
fn names_are_lower_case() {
    let names: Vec<&str> = LEVELS.iter().map(|level| level.name()).collect();
    assert_eq!(names, vec!["h1", "h2", "h3", "h4", "h5", "h6"]);
}

#[test]
fn a_level_closes_sections_of_its_depth_or_deeper() {
    assert!(HeadingLevel::H2.closes(HeadingLevel::H2));
    assert!(HeadingLevel::H1.closes(HeadingLevel::H2));
    assert!(!HeadingLevel::H3.closes(HeadingLevel::H2));
    assert!(HeadingLevel::H1.closes(HeadingLevel::H6));
    assert!(!HeadingLevel::H6.closes(HeadingLevel::H1));
    for (i, level) in LEVELS.iter().enumerate() {
        for (j, opened) in LEVELS.iter().enumerate() {
            assert_eq!(level.closes(*opened), i <= j);
        }
    }
}

#[test]
fn derived_order_follows_the_rank() {
    assert!(HeadingLevel::H1 < HeadingLevel::H2);
    assert!(HeadingLevel::H5 < HeadingLevel::H6);
    assert_eq!(HeadingLevel::H3, HeadingLevel::H3);
}
