use literate::{HeadingLevel, HeadingMatcher, Pattern, PatternMatcher};

#[test]
fn constant_ignores_the_heading() {
    assert!(HeadingMatcher::matches(&true, HeadingLevel::H1, Some("Title")));
    assert!(HeadingMatcher::matches(&true, HeadingLevel::H6, None));
    assert!(!HeadingMatcher::matches(&false, HeadingLevel::H1, Some("Title")));
    assert!(!HeadingMatcher::matches(&false, HeadingLevel::H6, None));
}

#[test]
fn level_needs_the_same_level() {
    assert!(HeadingLevel::H2.matches(HeadingLevel::H2, Some("Title")));
    assert!(HeadingLevel::H2.matches(HeadingLevel::H2, None));
    assert!(!HeadingLevel::H2.matches(HeadingLevel::H1, Some("Title")));
    assert!(!HeadingLevel::H2.matches(HeadingLevel::H3, Some("Title")));
}

#[test]
fn optional_level_takes_any_level_when_absent() {
    assert!(Some(HeadingLevel::H2).matches(HeadingLevel::H2, None));
    assert!(!Some(HeadingLevel::H2).matches(HeadingLevel::H3, None));
    assert!(None::<HeadingLevel>.matches(HeadingLevel::H1, None));
    assert!(None::<HeadingLevel>.matches(HeadingLevel::H6, Some("Title")));
}

#[test]
fn exact_text_needs_the_same_heading_text() {
    assert!(HeadingMatcher::matches("Title", HeadingLevel::H1, Some("Title")));
    assert!(HeadingMatcher::matches("Title", HeadingLevel::H5, Some("Title")));
    assert!(!HeadingMatcher::matches("Title", HeadingLevel::H1, Some("Titles")));
    assert!(!HeadingMatcher::matches("Title", HeadingLevel::H1, Some("title")));
    assert!(!HeadingMatcher::matches("Title", HeadingLevel::H1, None));
}

#[test]
fn optional_text_takes_any_text_when_absent() {
    assert!(HeadingMatcher::matches(&Some("Title"), HeadingLevel::H1, Some("Title")));
    assert!(!HeadingMatcher::matches(&Some("Title"), HeadingLevel::H1, Some("Other")));
    assert!(!HeadingMatcher::matches(&Some("Title"), HeadingLevel::H1, None));
    assert!(HeadingMatcher::matches(&None::<&str>, HeadingLevel::H1, Some("Other")));
    assert!(HeadingMatcher::matches(&None::<&str>, HeadingLevel::H1, None));
}

fn found(pattern: &str, text: &str) -> bool {
    Some(Pattern::new(pattern).unwrap()).matches(HeadingLevel::H1, Some(text))
}

#[test]
fn pattern_searches_the_text() {
    assert_eq!(Pattern::new("^Intro").unwrap().as_str(), "^Intro");
    assert!(found("^Intro", "Introduction"));
    assert!(!found("^Intro", "An Introduction"));
    assert!(found("duct", "Introduction"));
    assert!(found("", ""));
    assert!(!found("a+b", "a+b"));
    assert!(found("a+b", "xaab"));
}

#[test]
fn pattern_with_a_mistake_is_refused() {
    assert!(Pattern::new("foo(bar").is_err());
    assert!(Pattern::new("[").is_err());
    assert!(Pattern::new("foo(bar)").is_ok());
    let error = Pattern::new("foo(bar").expect_err("the group is not closed");
    assert_eq!(error.message(), error.cause.to_string());
    assert!(error.message().contains("unclosed group"));
}

#[test]
fn optional_pattern_fails_without_a_text() {
    let pattern = Some(Pattern::new("it").unwrap());
    assert!(pattern.matches(HeadingLevel::H1, Some("Title")));
    assert!(!pattern.matches(HeadingLevel::H1, Some("Other")));
    assert!(!pattern.matches(HeadingLevel::H1, None));
    assert!(None::<Pattern>.matches(HeadingLevel::H1, Some("Other")));
    assert!(None::<Pattern>.matches(HeadingLevel::H1, None));
}

#[test]
fn pattern_matcher_needs_level_and_pattern() {
    let both = PatternMatcher::new(Some(HeadingLevel::H2), Some(Pattern::new("^T").unwrap()));
    assert!(both.matches(HeadingLevel::H2, Some("Title")));
    assert!(!both.matches(HeadingLevel::H3, Some("Title")));
    assert!(!both.matches(HeadingLevel::H2, Some("A Title")));
    assert!(!both.matches(HeadingLevel::H2, None));

    let level = PatternMatcher::new(Some(HeadingLevel::H2), None);
    assert!(level.matches(HeadingLevel::H2, None));
    assert!(level.matches(HeadingLevel::H2, Some("anything")));
    assert!(!level.matches(HeadingLevel::H1, Some("anything")));

    let pattern = PatternMatcher::new(None, Some(Pattern::new("^T").unwrap()));
    assert!(pattern.matches(HeadingLevel::H5, Some("Title")));
    assert!(!pattern.matches(HeadingLevel::H5, None));

    let neither = PatternMatcher::new(None, None);
    assert!(neither.matches(HeadingLevel::H1, None));
    assert!(neither.matches(HeadingLevel::H6, Some("Title")));
}

#[test]
fn pattern_matcher_is_written_with_stars_for_what_is_absent() {
    let both = PatternMatcher::new(Some(HeadingLevel::H2), Some(Pattern::new("^Intro").unwrap()));
    assert_eq!(both.to_text(), "h2 ^Intro");
    assert_eq!(PatternMatcher::new(Some(HeadingLevel::H6), None).to_text(), "h6 *");
    assert_eq!(PatternMatcher::new(None, Some(Pattern::new("a b").unwrap())).to_text(), "h* a b");
    assert_eq!(PatternMatcher::new(None, None).to_text(), "h* *");
}

#[test]
fn references_and_boxes_decide_as_their_heading_matcher() {
    let matcher = PatternMatcher::new(Some(HeadingLevel::H2), None);
    let reference = &matcher;
    assert!(HeadingMatcher::matches(&reference, HeadingLevel::H2, None));
    assert!(!HeadingMatcher::matches(&reference, HeadingLevel::H1, None));
    let boxed: Box<dyn HeadingMatcher> = Box::new(matcher.clone());
    assert!(boxed.matches(HeadingLevel::H2, Some("Title")));
    assert!(!boxed.matches(HeadingLevel::H4, Some("Title")));
}

#[test]
fn compilation_is_handed_on_with_its_pattern_or_its_reason() {
    let compiled = Pattern::from_compilation(Ok(Pattern::new("^Intro").unwrap())).unwrap();
    assert_eq!(compiled.as_str(), "^Intro");
    assert!(Some(compiled).matches(HeadingLevel::H1, Some("Introduction")));

    let reason = regex::Regex::new("foo(bar").unwrap_err();
    let refused = Pattern::from_compilation(Err(reason.clone())).expect_err("a reason was given");
    assert_eq!(refused.cause, reason);
    assert_eq!(refused.message(), reason.to_string());
}
