use synacor_vm::location::{
    parse, parse_description, parse_exits, parse_id, parse_items, Location, LocationError,
};

#[test]
fn test_parse_id_single_word() {
    let expected: Result<(&str, String), LocationError> = Ok(("", "Single".into()));

    let actual = parse_id("== Single ==");

    assert_eq!(actual, expected);
}

#[test]
fn test_parse_id_multi_word() {
    let expected: Result<(&str, String), LocationError> = Ok(("", "Multi Word".into()));

    let actual = parse_id("== Multi Word ==");

    assert_eq!(actual, expected);
}

#[test]
fn test_parse_id_with_suffix() {
    let expected = Ok((" Suffix", "With".into()));

    let actual = parse_id("== With == Suffix");

    assert_eq!(actual, expected);
}

#[test]
fn test_parse_id_with_newline() {
    let expected = Ok(("\n", "Single".into()));

    let actual = parse_id("== Single ==\n");

    assert_eq!(actual, expected);
}

#[test]
fn test_parse_description() {
    let expected: Result<(&str, String), LocationError> = Ok(("\n", "A full description".into()));

    let actual = parse_description("A full description\n");

    assert_eq!(actual, expected);
}

#[test]
fn test_parse_items_single() {
    let input = "Things of interest here:\n\
         - book\n";
    let expected: Result<(&str, Vec<String>), LocationError> = Ok(("", vec!["book".into()]));

    let actual = parse_items(input);

    assert_eq!(actual, expected);
}

#[test]
fn test_parse_items_multi() {
    let input = "Things of interest here:\n\
         - large bag\n\
         - dagger\n\
         - piece of fruit\n";
    let expected: Result<(&str, Vec<String>), LocationError> = Ok((
        "",
        vec!["large bag".into(), "dagger".into(), "piece of fruit".into()],
    ));

    let actual = parse_items(input);

    assert_eq!(actual, expected);
}

#[test]
fn test_parse_items_none() {
    let input = "\n";
    let expected: Result<(&str, Vec<String>), LocationError> = Ok(("\n", Vec::new()));

    let actual = parse_items(input);

    assert_eq!(actual, expected);
}

#[test]
fn test_parse_exits_multi() {
    let input = "There are 3 exits:\n\
         - north\n\
         - south\n\
         - large door\n";
    let expected: Result<(&str, Vec<String>), LocationError> = Ok((
        "",
        vec!["north".into(), "south".into(), "large door".into()],
    ));

    let actual = parse_exits(input);

    assert_eq!(actual, expected);
}

#[test]
fn test_parse_happy_path() {
    let input = "\
== Foothills ==
You find yourself standing at the base of an enormous mountain.  At its base to the north, there is a massive doorway.  A sign nearby reads \"Keep out!  Definitely no treasure within!\"

Things of interest here:
- tablet

There are 2 exits:
- doorway
- south

What do you do?
";

    let expected = Location::new(
        "Foothills".into(),
        "You find yourself standing at the base of an enormous mountain.  At its base to the north, there is a massive doorway.  A sign nearby reads \"Keep out!  Definitely no treasure within!\"".into(),
        vec!["tablet".into()],
        vec!["doorway".into(), "south".into()],
    );

    let (remaining, actual) = parse(input).unwrap();

    assert_eq!(remaining, "");
    assert_eq!(actual, expected);
}

#[test]
fn parse_skips_lead_in_and_reads_room_without_items() {
    let input = "Self test complete.\n\n== Hall ==\nA bare hall.\n\nThere are 10 exits:\n- up\n";
    let (remaining, location) = parse(input).unwrap();
    assert_eq!(remaining, "");
    assert_eq!(location.id(), "Hall");
    assert_eq!(location.description(), "A bare hall.");
    assert!(location.items().is_empty());
    assert_eq!(location.exits(), &vec!["up".to_string()]);
}

#[test]
fn parse_from_str_matches_parse() {
    let input = "== A ==\nd\n\nThere are 1 exits:\n- x\n";
    let location: Location = input.parse().unwrap();
    assert_eq!(location, parse(input).unwrap().1);
}

#[test]
fn parse_rejects_missing_exits() {
    assert_eq!(parse("== A ==\nd\n\n").unwrap_err(), LocationError::ParseError);
    assert!(parse("no heading here").is_err());
}

#[test]
fn parse_id_rejects_unclosed_heading() {
    assert_eq!(parse_id("== Open"), Err(LocationError::ParseError));
    assert_eq!(parse_id("Single =="), Err(LocationError::ParseError));
}

#[test]
fn parse_description_needs_newline() {
    assert_eq!(parse_description("no end"), Err(LocationError::ParseError));
}

#[test]
fn parse_items_needs_one_entry_after_header() {
    assert_eq!(
        parse_items("Things of interest here:\nnothing\n"),
        Err(LocationError::ParseError)
    );
}

#[test]
fn parse_exits_needs_count_and_entries() {
    assert_eq!(parse_exits("There are many exits:\n- a\n"), Err(LocationError::ParseError));
    assert_eq!(parse_exits("There are 2 exits:\n"), Err(LocationError::ParseError));
    assert_eq!(parse_exits("There is 1 exit:\n- north\n"), Err(LocationError::ParseError));
}

#[test]
fn parse_exits_leaves_what_follows() {
    assert_eq!(
        parse_exits("There are 1 exits:\n- a\n\nWhat do you do?\n"),
        Ok(("\nWhat do you do?\n", vec!["a".to_string()]))
    );
}
