use staff_directory::currency::format_currency;

#[test]
fn groups_of_three_from_the_point() {
    assert_eq!(format_currency("1234567.50"), "Rs. 1,234,567.50");
    assert_eq!(format_currency("123456.00"), "Rs. 123,456.00");
    assert_eq!(format_currency("12345.67"), "Rs. 12,345.67");
    assert_eq!(format_currency("1000.00"), "Rs. 1,000.00");
    assert_eq!(format_currency("1000000000.99"), "Rs. 1,000,000,000.99");
}

#[test]
fn short_sums_are_not_grouped() {
    assert_eq!(format_currency("0.00"), "Rs. 0.00");
    assert_eq!(format_currency("5.10"), "Rs. 5.10");
    assert_eq!(format_currency("45.00"), "Rs. 45.00");
    assert_eq!(format_currency("950.00"), "Rs. 950.00");
}

#[test]
fn the_fraction_is_kept_as_written() {
    assert_eq!(format_currency("12.5"), "Rs. 12.5");
    assert_eq!(format_currency("12.505"), "Rs. 12.505");
    assert_eq!(format_currency("12."), "Rs. 12.");
}

#[test]
fn a_sum_without_point_gets_two_zeros() {
    assert_eq!(format_currency("1500"), "Rs. 1,500.00");
    assert_eq!(format_currency("inf"), "Rs. inf.00");
    assert_eq!(format_currency("NaN"), "Rs. NaN.00");
    assert_eq!(format_currency(""), "Rs. .00");
}

#[test]
fn only_what_stands_before_the_second_point_is_the_fraction() {
    assert_eq!(format_currency("1.2.3"), "Rs. 1.2");
    assert_eq!(format_currency(".5"), "Rs. .5");
    assert_eq!(format_currency("1234..9"), "Rs. 1,234.");
}

#[test]
fn the_sign_counts_as_a_character() {
    assert_eq!(format_currency("-12.00"), "Rs. -12.00");
    assert_eq!(format_currency("-123.00"), "Rs. -,123.00");
    assert_eq!(format_currency("-1234.00"), "Rs. -1,234.00");
    assert_eq!(format_currency("-0.00"), "Rs. -0.00");
}

#[test]
fn sums_written_with_two_decimals() {
    let cases: [(f64, &str); 6] = [
        (0.0, "Rs. 0.00"),
        (85000.0, "Rs. 85,000.00"),
        (1250.5, "Rs. 1,250.50"),
        (999.999, "Rs. 1,000.00"),
        (0.125, "Rs. 0.12"),
        (12345678.9, "Rs. 12,345,678.90"),
    ];
    for (value, shown) in cases {
        assert_eq!(format_currency(&format!("{:.2}", value)), shown);
    }
}

#[test]
fn grouping_only_adds_commas() {
    let samples = ["", "1", "12", "123", "1234", "12345", "123456", "1234567", "9876543210"];
    for sample in samples {
        let shown = format_currency(&format!("{}.00", sample));
        let inner = &shown["Rs. ".len()..shown.len() - ".00".len()];
        assert_eq!(inner.replace(",", ""), sample);
        let commas = inner.matches(',').count();
        if sample.is_empty() {
            assert_eq!(commas, 0);
        } else {
            assert_eq!(commas, (sample.len() - 1) / 3);
        }
        for group in inner.split(',').skip(1) {
            assert_eq!(group.len(), 3);
        }
    }
}
