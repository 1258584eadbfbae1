use audioshare_core::endpoints::{
    get_default_encoding, get_default_endpoint, get_encoding_key,
    get_encoding_position_in_dropdown, get_endpoint_id, get_endpoint_position_in_dropdown,
    parse_encoding_line, parse_encoding_list, parse_endpoint_line, parse_endpoint_list,
};

fn endpoint_lines() -> Vec<String> {
    vec![
        String::from("endpoint list:"),
        String::from("* id: 1 name: Speakers"),
        String::from("  id: 2 name: Headset"),
        String::from(""),
    ]
}

fn encoding_lines() -> Vec<String> {
    vec![
        String::from("encoding list:"),
        String::from("default Default format"),
        String::from("  f32   32 bit float  "),
        String::from("   "),
    ]
}

#[test]
fn endpoint_listing_parses() {
    let eps = parse_endpoint_list(&endpoint_lines());
    assert_eq!(
        eps,
        vec![
            (true, 1, String::from("Speakers")),
            (false, 2, String::from("Headset")),
        ]
    );
}

#[test]
fn endpoint_line_without_id_is_skipped() {
    assert_eq!(parse_endpoint_line("just noise"), None);
}

#[test]
fn endpoint_line_with_two_name_markers_is_skipped() {
    assert_eq!(parse_endpoint_line("id: 1 name: a name: b"), None);
}

#[test]
fn endpoint_line_with_bad_number_is_skipped() {
    assert_eq!(parse_endpoint_line("id: seven name: Speakers"), None);
}

#[test]
fn endpoint_id_between_two_id_markers() {
    // the identifier text ends at the next `id:` marker
    assert_eq!(parse_endpoint_line("id: 3 id: 4 name: x"), None);
    assert_eq!(
        parse_endpoint_line("id: 3 name: x id: 4"),
        Some((false, 3, String::from("x")))
    );
}

#[test]
fn encoding_listing_parses() {
    let encs = parse_encoding_list(&encoding_lines());
    assert_eq!(
        encs,
        vec![
            (String::from("default"), String::from("Default format")),
            (String::from("f32"), String::from("32 bit float")),
        ]
    );
}

#[test]
fn encoding_line_without_description_is_skipped() {
    assert_eq!(parse_encoding_line("keyonly"), None);
    assert_eq!(parse_encoding_line("key   "), None);
}

#[test]
fn default_endpoint_is_the_flagged_one() {
    let eps = parse_endpoint_list(&endpoint_lines());
    assert_eq!(
        get_default_endpoint(&eps),
        Some((true, 1, String::from("Speakers")))
    );
    assert_eq!(get_default_endpoint(&Vec::new()), None);
}

#[test]
fn endpoint_id_is_found_by_name() {
    let eps = parse_endpoint_list(&endpoint_lines());
    assert_eq!(get_endpoint_id(&eps, &String::from("Headset")), Some(2));
    assert_eq!(get_endpoint_id(&eps, &String::from("nope")), None);
}

#[test]
fn encoding_key_is_found_by_description() {
    let encs = parse_encoding_list(&encoding_lines());
    assert_eq!(
        get_encoding_key(&encs, &String::from("32 bit float")),
        Some(String::from("f32"))
    );
    assert_eq!(get_encoding_key(&encs, &String::from("nope")), None);
}

#[test]
fn default_encoding_is_keyed_default() {
    let encs = parse_encoding_list(&encoding_lines());
    assert_eq!(
        get_default_encoding(&encs),
        Some((String::from("default"), String::from("Default format")))
    );
}

#[test]
fn dropdown_positions_match_the_lists() {
    let eps = parse_endpoint_list(&endpoint_lines());
    let encs = parse_encoding_list(&encoding_lines());
    assert_eq!(
        get_endpoint_position_in_dropdown(&eps, &String::from("Headset")),
        1
    );
    assert_eq!(
        get_encoding_position_in_dropdown(&encs, &String::from("Default format")),
        0
    );
}
