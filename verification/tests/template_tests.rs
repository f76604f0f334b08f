use staff_directory::template::render;

fn values(items: &[&str]) -> Vec<String> {
    items.iter().map(|item| item.to_string()).collect()
}

#[test]
fn holes_take_the_values_in_order() {
    assert_eq!(render("{} and {}", &values(&["first", "second"])), "first and second");
    assert_eq!(render("<td>{}</td><td>{}</td>", &values(&["1", "A/12"])), "<td>1</td><td>A/12</td>");
    assert_eq!(render("{}{}{}", &values(&["a", "", "c"])), "ac");
}

#[test]
fn doubled_braces_stand_for_one() {
    assert_eq!(render("body {{ margin: 0; }}", &values(&[])), "body { margin: 0; }");
    assert_eq!(render("{{}}", &values(&["unused"])), "{}");
    assert_eq!(render("{{{}}}", &values(&["x"])), "{x}");
    assert_eq!(render("@page {{ size: {}; }}", &values(&["A4"])), "@page { size: A4; }");
}

#[test]
fn values_are_not_read_as_templates() {
    assert_eq!(render("[{}]", &values(&["{}"])), "[{}]");
    assert_eq!(render("[{}]", &values(&["{{x}}"])), "[{{x}}]");
    assert_eq!(render("{} {}", &values(&["{}", "b"])), "{} b");
}

#[test]
fn a_hole_without_value_stays_empty() {
    assert_eq!(render("a{}b{}c", &values(&["1"])), "a1bc");
    assert_eq!(render("{}", &values(&[])), "");
}

#[test]
fn values_without_hole_are_not_used() {
    assert_eq!(render("plain", &values(&["1", "2"])), "plain");
    assert_eq!(render("{}", &values(&["1", "2"])), "1");
}

#[test]
fn single_braces_are_written_as_they_stand() {
    assert_eq!(render("a { b", &values(&["1"])), "a { b");
    assert_eq!(render("a } b", &values(&["1"])), "a } b");
    assert_eq!(render("{", &values(&[])), "{");
    assert_eq!(render("}", &values(&[])), "}");
    assert_eq!(render("}{", &values(&["1"])), "}{");
    assert_eq!(render("{x}", &values(&["1"])), "{x}");
}

#[test]
fn the_empty_template_renders_empty() {
    assert_eq!(render("", &values(&["1"])), "");
}

#[test]
fn text_beyond_ascii_is_kept() {
    assert_eq!(render("\u{0dc0}{}\u{0b9f}", &values(&["\u{00e9}"])), "\u{0dc0}\u{00e9}\u{0b9f}");
}
