use camera_ftp_companion::lut_cube::{check_table_len, classify_cube_line, parse_lut_size, split_whitespace, CubeLine};

fn s(x: &str) -> String {
    x.to_string()
}

#[test]
fn cube_comments_blank_lines_and_keywords_are_skipped() {
    assert_eq!(classify_cube_line("# This is a comment"), CubeLine::Skip);
    assert_eq!(classify_cube_line(""), CubeLine::Skip);
    assert_eq!(classify_cube_line("   \t"), CubeLine::Skip);
    assert_eq!(classify_cube_line("TITLE \"My LUT\""), CubeLine::Skip);
    assert_eq!(classify_cube_line("CREATED_BY \"test\""), CubeLine::Skip);
    assert_eq!(classify_cube_line("_PRIVATE 1 2 3"), CubeLine::Skip);
    assert_eq!(classify_cube_line("0.5 0.5"), CubeLine::Skip);
}

#[test]
fn cube_size_and_domain_lines_keep_their_rest() {
    assert_eq!(classify_cube_line("LUT_3D_SIZE 2"), CubeLine::Size(s(" 2")));
    assert_eq!(classify_cube_line("  LUT_3D_SIZE 33\r"), CubeLine::Size(s(" 33")));
    assert_eq!(classify_cube_line("DOMAIN_MIN 0.1 0.2 0.3"), CubeLine::DomainMin(s(" 0.1 0.2 0.3")));
    assert_eq!(classify_cube_line("DOMAIN_MAX 0.9 0.8 0.7"), CubeLine::DomainMax(s(" 0.9 0.8 0.7")));
}

#[test]
fn cube_value_lines_give_three_tokens() {
    assert_eq!(classify_cube_line("0.0 1.0 0.5"), CubeLine::Values(s("0.0"), s("1.0"), s("0.5")));
    assert_eq!(classify_cube_line("  1e-3\t2  3 4  "), CubeLine::Values(s("1e-3"), s("2"), s("3")));
    assert_eq!(classify_cube_line("-0.25 abc def"), CubeLine::Values(s("-0.25"), s("abc"), s("def")));
}

#[test]
fn whitespace_split_drops_empty_tokens() {
    let v: Vec<char> = " a  bc\td ".chars().collect();
    let parts: Vec<String> = split_whitespace(&v).into_iter().map(|p| p.into_iter().collect()).collect();
    assert_eq!(parts, vec![s("a"), s("bc"), s("d")]);
    let empty: Vec<char> = "   ".chars().collect();
    assert!(split_whitespace(&empty).is_empty());
}

#[test]
fn cube_table_length_must_match_grid() {
    assert!(check_table_len(2, 24).is_ok());
    assert!(check_table_len(0, 0).is_ok());
    assert_eq!(check_table_len(2, 9).unwrap_err(), "LUT parse error: expected 24 floats, got 9");
    assert_eq!(check_table_len(33, 0).unwrap_err(), "LUT parse error: expected 107811 floats, got 0");
}

#[test]
fn lut_size_reads_like_usize_parse() {
    assert_eq!(parse_lut_size(" 33"), Ok(33));
    assert_eq!(parse_lut_size("\t+2 "), Ok(2));
    assert_eq!(parse_lut_size(" 007"), Ok(7));
    for bad in ["", "  ", "+", "-", "-3", "3x", "x3", "1 2", "0x10"] {
        let expected = format!("Invalid LUT_3D_SIZE: {}", bad.trim().parse::<usize>().unwrap_err());
        assert_eq!(parse_lut_size(bad), Err(expected));
    }
    let huge = "99999999999999999999999999";
    let expected = format!("Invalid LUT_3D_SIZE: {}", huge.parse::<usize>().unwrap_err());
    assert_eq!(parse_lut_size(huge), Err(expected));
    let mixed = "99999999999999999999999999x";
    let expected = format!("Invalid LUT_3D_SIZE: {}", mixed.parse::<usize>().unwrap_err());
    assert_eq!(parse_lut_size(mixed), Err(expected));
    assert_eq!(parse_lut_size(&usize::MAX.to_string()), Ok(usize::MAX));
}
