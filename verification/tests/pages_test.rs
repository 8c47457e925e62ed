use forgekit::error::ForgeKitError;
use forgekit::pages::PageSpec;

#[test]
fn test_parse_single_page() {
    let result = PageSpec::parse("5").unwrap();
    assert_eq!(result, vec![PageSpec::Page(5)]);
}

#[test]
fn test_parse_range() {
    let result = PageSpec::parse("1-5").unwrap();
    assert_eq!(result, vec![PageSpec::Range { start: 1, end: Some(5) }]);
}

#[test]
fn test_parse_open_range() {
    let result = PageSpec::parse("7-").unwrap();
    assert_eq!(result, vec![PageSpec::Range { start: 7, end: None }]);
}

#[test]
fn test_parse_start_range() {
    let result = PageSpec::parse("-10").unwrap();
    assert_eq!(result, vec![PageSpec::Range { start: 1, end: Some(10) }]);
}

#[test]
fn test_parse_keywords() {
    assert_eq!(PageSpec::parse("odd").unwrap(), vec![PageSpec::Odd]);
    assert_eq!(PageSpec::parse("even").unwrap(), vec![PageSpec::Even]);
    assert_eq!(PageSpec::parse("first").unwrap(), vec![PageSpec::First]);
    assert_eq!(PageSpec::parse("last").unwrap(), vec![PageSpec::Last]);
}

#[test]
fn test_parse_exclusion() {
    let result = PageSpec::parse("!2").unwrap();
    assert_eq!(result, vec![PageSpec::Exclude(Box::new(PageSpec::Page(2)))]);
}

#[test]
fn test_parse_complex() {
    let result = PageSpec::parse("1-3,5,7-").unwrap();
    assert_eq!(
        result,
        vec![
            PageSpec::Range { start: 1, end: Some(3) },
            PageSpec::Page(5),
            PageSpec::Range { start: 7, end: None }
        ]
    );
}

#[test]
fn test_parse_invalid() {
    assert!(PageSpec::parse("xyz").is_err());
    assert!(PageSpec::parse("0").is_err());
    assert!(PageSpec::parse("5-3").is_err());
}

#[test]
fn test_to_qpdf_pages() {
    let specs = PageSpec::parse("1-3,5").unwrap();
    let result = PageSpec::to_qpdf_pages(&specs, 10).unwrap();
    assert_eq!(result, "1-3,5");
}

#[test]
fn test_to_qpdf_pages_odd() {
    let specs = PageSpec::parse("odd").unwrap();
    let result = PageSpec::to_qpdf_pages(&specs, 5).unwrap();
    assert_eq!(result, "1,3,5");
}

#[test]
fn test_to_qpdf_pages_even() {
    let specs = PageSpec::parse("even").unwrap();
    let result = PageSpec::to_qpdf_pages(&specs, 5).unwrap();
    assert_eq!(result, "2,4");
}

#[test]
fn display_then_parse_gives_back_each_spec() {
    let specs = vec![
        PageSpec::Page(12),
        PageSpec::Range { start: 3, end: Some(9) },
        PageSpec::Range { start: 4, end: None },
        PageSpec::Odd,
        PageSpec::Even,
        PageSpec::First,
        PageSpec::Last,
        PageSpec::Exclude(Box::new(PageSpec::Range { start: 2, end: Some(5) })),
    ];
    for spec in specs {
        let text = spec.to_string();
        assert_eq!(PageSpec::parse(&text).unwrap(), vec![spec]);
    }
}

#[test]
fn page_spec_display_forms() {
    assert_eq!(PageSpec::Range { start: 1, end: Some(5) }.to_string(), "1-5");
    assert_eq!(PageSpec::Range { start: 7, end: None }.to_string(), "7-");
    assert_eq!(PageSpec::Exclude(Box::new(PageSpec::Page(2))).to_string(), "!2");
}

#[test]
fn parse_errors_are_invalid_input() {
    assert_eq!(PageSpec::parse("").unwrap(), vec![]);
    assert_eq!(PageSpec::parse("1,,2").unwrap(), vec![PageSpec::Page(1), PageSpec::Page(2)]);
    for bad in ["a-3", "3-1", "0", "0-4", "0-", "!0-2", "!", "1,x", "1-2-3", " - "] {
        match PageSpec::parse(bad) {
            Err(ForgeKitError::InvalidInput { .. }) => {}
            other => panic!("{:?} gave {:?}", bad, other),
        }
    }
}

#[test]
fn qpdf_pages_refuse_pages_beyond_the_document() {
    let specs = PageSpec::parse("8").unwrap();
    match PageSpec::to_qpdf_pages(&specs, 5) {
        Err(ForgeKitError::InvalidInput { reason, .. }) => {
            assert_eq!(reason, "Page 8 exceeds total pages (5)");
        }
        other => panic!("unexpected {:?}", other),
    }
    let excl = PageSpec::parse("!2").unwrap();
    assert!(PageSpec::to_qpdf_pages(&excl, 5).is_err());
    let last = PageSpec::parse("first,last,3-").unwrap();
    assert_eq!(PageSpec::to_qpdf_pages(&last, 6).unwrap(), "1,6,3-z");
}

#[test]
fn qpdf_pages_stay_within_the_document() {
    let specs = PageSpec::parse("odd,last,2-,even,first").unwrap();
    let list = PageSpec::to_qpdf_pages(&specs, 5).unwrap();
    assert_eq!(list, "1,3,5,5,2-z,2,4,1");
    for item in list.split(',') {
        for n in item.split('-').filter(|n| *n != "z") {
            let page: usize = n.parse().unwrap();
            assert!(page >= 1 && page <= 5);
        }
    }
}

#[test]
fn zero_starting_range_is_refused() {
    for spec in ["0-3", "0-"] {
        match PageSpec::parse(spec) {
            Err(ForgeKitError::InvalidInput { reason, .. }) => assert_eq!(reason, "Page numbers must be >= 1"),
            other => panic!("{:?} gave {:?}", spec, other),
        }
    }
}

#[test]
fn open_range_goes_to_the_last_page() {
    let specs = PageSpec::parse("1-3,5,7-").unwrap();
    assert_eq!(PageSpec::to_qpdf_pages(&specs, 10).unwrap(), "1-3,5,7-z");
    match PageSpec::to_qpdf_pages(&PageSpec::parse("11-").unwrap(), 10) {
        Err(ForgeKitError::InvalidInput { reason, .. }) => assert_eq!(reason, "Page 11 exceeds total pages (10)"),
        other => panic!("unexpected {:?}", other),
    }
}

#[test]
fn printed_list_parses_back() {
    for text in ["1-3,5,7-,odd,!2", "first,last,even,!4-6", "-10,12"] {
        let specs = PageSpec::parse(text).unwrap();
        let printed: Vec<String> = specs.iter().map(|p| p.to_string()).collect();
        assert_eq!(PageSpec::parse(&printed.join(",")).unwrap(), specs);
    }
}
