use offsets_parser::{convert, decimal_string, render, render_token, OcrError, Token, DEFAULT_DELIMITER};

fn token(text: &str, byte_offset: usize) -> Token {
    Token { text: String::from(text), byte_offset }
}

#[test]
fn decimal_of_single_digits() {
    assert_eq!(decimal_string(0), "0");
    assert_eq!(decimal_string(7), "7");
    assert_eq!(decimal_string(9), "9");
}

#[test]
fn decimal_of_larger_numbers() {
    assert_eq!(decimal_string(10), "10");
    assert_eq!(decimal_string(1234567890), "1234567890");
    assert_eq!(decimal_string(100), "100");
    assert_eq!(decimal_string(usize::MAX), usize::MAX.to_string());
}

#[test]
fn record_of_one_token() {
    assert_eq!(render_token(&token("A", 0), "#"), "A#0 ");
    assert_eq!(render_token(&token("word", 1024), "::"), "word::1024 ");
    assert_eq!(render_token(&token("x", 5), ""), "x5 ");
}

#[test]
fn records_of_two_tokens() {
    assert_eq!(render(&vec![token("A", 0), token("B", 10)], "#"), "A#0 B#10 ");
}

#[test]
fn no_tokens_give_empty_output() {
    assert_eq!(render(&vec![], "#"), "");
}

#[test]
fn default_delimiter_is_one_flag_glyph() {
    assert_eq!(DEFAULT_DELIMITER, "\u{2691}");
    assert_eq!(DEFAULT_DELIMITER.chars().count(), 1);
    assert!(!DEFAULT_DELIMITER.is_ascii());
    assert_eq!(
        render(&vec![token("A", 0)], DEFAULT_DELIMITER),
        "A\u{2691}0 "
    );
}

#[test]
fn converts_miniocr_document() {
    let doc = r#"<?xml version="1.0"?><ocr><w id="w1">Hello</w> <w id="w2">World</w></ocr>"#;
    assert_eq!(convert(doc, "#"), Ok(String::from("Hello#26 World#47 ")));
    assert_eq!(
        convert(doc, DEFAULT_DELIMITER),
        Ok(String::from("Hello\u{2691}26 World\u{2691}47 "))
    );
}

#[test]
fn converts_hocr_document() {
    let doc = r#"<div class='ocr_page'><span class="ocrx_word" id="x1">Foo</span></div>"#;
    assert_eq!(convert(doc, "|"), Ok(String::from("Foo|22 ")));
}

#[test]
fn converts_alto_document() {
    let doc = r#"<alto version="1"><String CONTENT="Bar" HPOS="1"/></alto>"#;
    assert_eq!(convert(doc, "|"), Ok(String::from("Bar|18 ")));
}

#[test]
fn conversion_uses_the_pattern_of_the_detected_dialect() {
    let doc = r#"<ocr><w>mini</w><div class="ocr_page"><span class="ocrx_word" id="a">hocr</span></div><alto ><String CONTENT="alto"/></alto></ocr>"#;
    assert_eq!(convert(doc, "#"), Ok(String::from("mini#5 ")));
}

#[test]
fn unknown_format_gives_no_output() {
    assert_eq!(convert("<plain>text</plain>", "#"), Err(OcrError::UnknownFormat));
    assert_eq!(convert("<plain><w>text</w></plain>", "#"), Err(OcrError::UnknownFormat));
}

#[test]
fn malformed_entity_gives_no_output() {
    assert_eq!(
        convert("<ocr><w>good</w><w>b&d</w></ocr>", "#"),
        Err(OcrError::EntityDecode)
    );
}

#[test]
fn document_without_words_converts_to_empty_output() {
    assert_eq!(convert("<ocr></ocr>", "#"), Ok(String::new()));
}
