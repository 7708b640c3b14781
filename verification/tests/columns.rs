use excelize::{column_number_to_name, ExcelizeError};

fn number_of(title: &str) -> u32 {
    let mut n = 0u32;
    for c in title.chars() {
        assert!(('A'..='Z').contains(&c));
        n = n * 26 + (c as u32 - 'A' as u32 + 1);
    }
    n
}

#[test]
fn column_titles_at_the_edges() {
    assert_eq!(column_number_to_name(1), Ok(String::from("A")));
    assert_eq!(column_number_to_name(26), Ok(String::from("Z")));
    assert_eq!(column_number_to_name(27), Ok(String::from("AA")));
    assert_eq!(column_number_to_name(16384), Ok(String::from("XFD")));
}

#[test]
fn column_titles_in_between() {
    assert_eq!(column_number_to_name(2), Ok(String::from("B")));
    assert_eq!(column_number_to_name(52), Ok(String::from("AZ")));
    assert_eq!(column_number_to_name(53), Ok(String::from("BA")));
    assert_eq!(column_number_to_name(702), Ok(String::from("ZZ")));
    assert_eq!(column_number_to_name(703), Ok(String::from("AAA")));
    assert_eq!(column_number_to_name(16383), Ok(String::from("XFC")));
}

#[test]
fn column_numbers_out_of_range_are_argument_errors() {
    assert_eq!(column_number_to_name(0), Err(ExcelizeError::Argument(0)));
    assert_eq!(column_number_to_name(16385), Err(ExcelizeError::Argument(16385)));
    assert_eq!(column_number_to_name(u32::MAX), Err(ExcelizeError::Argument(u32::MAX)));
}

#[test]
fn every_column_has_the_title_that_denotes_it() {
    for n in 1..=16384u32 {
        let title = column_number_to_name(n).unwrap();
        assert!(!title.is_empty() && title.len() <= 3);
        assert_eq!(number_of(&title), n);
    }
}

#[test]
fn no_two_columns_share_a_title() {
    let mut seen = std::collections::HashSet::new();
    for n in 1..=16384u32 {
        assert!(seen.insert(column_number_to_name(n).unwrap()));
    }
    assert_eq!(seen.len(), 16384);
}

#[test]
fn argument_errors_say_what_is_wrong() {
    assert_eq!(ExcelizeError::Argument(0).message(), "incorrect column number 0");
    assert_eq!(
        ExcelizeError::Argument(16385).message(),
        "column number exceeds maximum limit"
    );
}
