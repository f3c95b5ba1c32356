use ame::names::{bare_name, bare_names, name_or_whole, version_constraint};

#[test]
fn bare_name_of_plain_name_is_the_name() {
    assert_eq!(bare_name("vim"), "vim");
    assert_eq!(version_constraint("vim"), None);
}

#[test]
fn bare_name_strips_at_least_constraint() {
    assert_eq!(bare_name("glibc>=2.38"), "glibc");
    assert_eq!(version_constraint("glibc>=2.38"), Some(">=2.38".to_string()));
}

#[test]
fn bare_name_strips_at_most_constraint() {
    assert_eq!(bare_name("python<=3.12"), "python");
    assert_eq!(version_constraint("python<=3.12"), Some("<=3.12".to_string()));
}

#[test]
fn bare_name_needs_a_name_before_the_operator() {
    assert_eq!(bare_name(">=1.0"), ">=1.0");
    assert_eq!(version_constraint(">=1.0"), None);
}

#[test]
fn bare_name_needs_a_version_after_the_operator() {
    assert_eq!(bare_name("foo>="), "foo>=");
    assert_eq!(version_constraint("foo>="), None);
}

#[test]
fn bare_name_takes_the_longest_name() {
    assert_eq!(bare_name("a>=b<=c"), "a>=b");
    assert_eq!(version_constraint("a>=b<=c"), Some("<=c".to_string()));
    assert_eq!(bare_name(">=>=a"), ">=");
}

#[test]
fn bare_name_leaves_other_operators() {
    assert_eq!(bare_name("foo=1.0"), "foo=1.0");
    assert_eq!(bare_name("foo>1.0"), "foo>1.0");
    assert_eq!(bare_name("foo<1.0"), "foo<1.0");
}

#[test]
fn bare_name_of_short_and_empty_names() {
    assert_eq!(bare_name(""), "");
    assert_eq!(bare_name("a"), "a");
    assert_eq!(bare_name(">="), ">=");
    assert_eq!(bare_name("a>="), "a>=");
    assert_eq!(bare_name("a>=1"), "a");
}

#[test]
fn bare_name_counts_characters_not_bytes() {
    assert_eq!(bare_name("grüße>=1.0"), "grüße");
    assert_eq!(version_constraint("grüße>=1.0"), Some(">=1.0".to_string()));
}

#[test]
fn bare_name_stops_at_white_space() {
    assert_eq!(bare_name("foo bar>=1"), "bar");
    assert_eq!(bare_name("foo>= 1"), "foo>= 1");
    assert_eq!(version_constraint("foo>= 1"), None);
}

#[test]
fn name_and_constraint_make_the_whole() {
    for name in ["vim", "glibc>=2.38", "a>=b<=c", ">=>=a", "x<=1", "lib32-mesa>=1:23.0-1"] {
        let whole = format!("{}{}", bare_name(name), version_constraint(name).unwrap_or_default());
        assert_eq!(whole, name);
    }
}

#[test]
fn name_or_whole_takes_what_was_captured() {
    assert_eq!(name_or_whole("glibc>=2.38", Some("glibc".to_string())), "glibc");
    assert_eq!(name_or_whole("vim", None), "vim");
    assert_eq!(name_or_whole("", None), "");
}

#[test]
fn bare_names_strips_each_name() {
    let names = vec!["go".to_string(), "git>=2".to_string(), "rust<=1.80".to_string()];
    assert_eq!(bare_names(&names), vec!["go", "git", "rust"]);
}
