use wsv::redelimit::{parse_separator, redelimit, ArgumentError, Separators};

fn comma_to_semicolon(doc: &str) -> String {
    redelimit(doc, ',', ';')
}

#[test]
fn separator_inside_quoted_field_is_kept() {
    assert_eq!(comma_to_semicolon("name,\"a,b\",3"), "name;\"a,b\";3");
}

#[test]
fn doubled_quotes_survive() {
    assert_eq!(
        comma_to_semicolon("a,\"he said \"\"hi\"\"\",b"),
        "a;\"he said \"\"hi\"\"\";b"
    );
}

#[test]
fn empty_trailing_field() {
    assert_eq!(comma_to_semicolon("a,b,"), "a;b;");
}

#[test]
fn unquoted_record_is_split_and_rejoined() {
    assert_eq!(comma_to_semicolon("1,2,3"), "1;2;3");
    let doc = "x,,y\nz,w,";
    let naive: Vec<&str> = doc.split(',').collect();
    assert_eq!(comma_to_semicolon(doc), naive.join(";"));
}

#[test]
fn round_trip_restores_document() {
    let docs = [
        "name,\"a,b\",3\nx,\"y\"\"z\",",
        "a,\"he said \"\"hi\"\"\",b",
        ",,\"open, never closed",
        "\"first,field\",second\r\n1,2",
        "",
    ];
    for doc in docs.iter() {
        let there = redelimit(doc, ',', '|');
        assert_eq!(redelimit(&there, '|', ','), *doc);
    }
}

#[test]
fn same_separator_is_identity() {
    let doc = "a,\"b,c\",d\n\"e\"\"f\",g,";
    assert_eq!(redelimit(doc, ',', ','), doc);
}

#[test]
fn absent_separator_is_identity() {
    let doc = "a;\"b;c\"\nno commas here";
    assert_eq!(comma_to_semicolon(doc), doc);
}

#[test]
fn empty_document() {
    assert_eq!(comma_to_semicolon(""), "");
}

#[test]
fn only_separators() {
    assert_eq!(comma_to_semicolon(",,,"), ";;;");
}

#[test]
fn unterminated_quote_runs_to_end() {
    assert_eq!(comma_to_semicolon("a,\"b,c\nd,e"), "a;\"b,c\nd,e");
}

#[test]
fn quoted_first_field_is_not_protected() {
    assert_eq!(comma_to_semicolon("\"a,b\",c"), "\"a;b\";c");
}

#[test]
fn quote_not_right_after_separator_is_plain_text() {
    assert_eq!(comma_to_semicolon("a,b\"c,d\",e"), "a;b\"c;d\";e");
}

#[test]
fn field_closes_at_single_quote() {
    assert_eq!(comma_to_semicolon("a,\"b\"c,d"), "a;\"b\"c;d");
}

#[test]
fn line_breaks_inside_quotes() {
    assert_eq!(
        comma_to_semicolon("h1,h2\r\n1,\"two\r\nlines, here\"\r\n"),
        "h1;h2\r\n1;\"two\r\nlines, here\"\r\n"
    );
}

#[test]
fn non_ascii_separators() {
    assert_eq!(redelimit("é→\"x→y\"→z", '→', '·'), "é·\"x→y\"·z");
}

#[test]
fn agrees_with_regex_field_pattern_on_well_formed_documents() {
    let pattern = regex::Regex::new(",([^\",,\r\n]+|\"(?:[^\"]|\"\")*\")?").unwrap();
    let docs = [
        "name,\"a,b\",3",
        "a,\"he said \"\"hi\"\"\",b",
        "a,b,\n,c,,\"d\ne\",f",
        "x,\"\",\"\"\"\",y",
        "plain",
    ];
    for doc in docs.iter() {
        assert_eq!(comma_to_semicolon(doc), pattern.replace_all(doc, ";$1"));
    }
}

#[test]
fn parse_separator_accepts_one_character() {
    assert_eq!(parse_separator("\t"), Ok('\t'));
    assert_eq!(parse_separator("→"), Ok('→'));
}

#[test]
fn parse_separator_refuses_other_lengths() {
    assert_eq!(parse_separator(""), Err(ArgumentError::NotSingleCharacter));
    assert_eq!(parse_separator(",;"), Err(ArgumentError::NotSingleCharacter));
}

#[test]
fn parse_separator_refuses_reserved_characters() {
    assert_eq!(parse_separator("\""), Err(ArgumentError::ReservedCharacter));
    assert_eq!(parse_separator("\n"), Err(ArgumentError::ReservedCharacter));
    assert_eq!(parse_separator("\r"), Err(ArgumentError::ReservedCharacter));
}

#[test]
fn default_separators() {
    let s = Separators::default();
    assert_eq!((s.src, s.dst), (',', ';'));
}

#[test]
fn separators_from_options() {
    assert_eq!(Separators::from_options(None, None), Separators::default());
    let s = Separators::from_options(Some('\t'), None);
    assert_eq!((s.src, s.dst), ('\t', ';'));
    let s = Separators::from_options(None, Some('|'));
    assert_eq!((s.src, s.dst), (',', '|'));
    assert_eq!(s.apply("a,b"), "a|b");
}
