use offsets_parser::dialect::{ALTO_SIGNATURE, HOCR_SIGNATURE, MINIOCR_SIGNATURE};
use offsets_parser::{
    classify, detect, engine_accepts_patterns, has_signature, Dialect, OcrError,
};

#[test]
fn classify_prefers_miniocr_over_everything() {
    assert_eq!(classify(true, true, true), Ok(Dialect::MiniOcr));
    assert_eq!(classify(true, false, true), Ok(Dialect::MiniOcr));
    assert_eq!(classify(true, true, false), Ok(Dialect::MiniOcr));
    assert_eq!(classify(true, false, false), Ok(Dialect::MiniOcr));
}

#[test]
fn classify_prefers_hocr_over_alto() {
    assert_eq!(classify(false, true, true), Ok(Dialect::Hocr));
    assert_eq!(classify(false, true, false), Ok(Dialect::Hocr));
}

#[test]
fn classify_falls_back_to_alto_then_fails() {
    assert_eq!(classify(false, false, true), Ok(Dialect::Alto));
    assert_eq!(classify(false, false, false), Err(OcrError::UnknownFormat));
}

#[test]
fn signature_patterns_are_the_documented_ones() {
    assert_eq!(Dialect::MiniOcr.signature_pattern(), r"^(?:<\?xml.+?\?>)?<ocr>");
    assert_eq!(
        Dialect::Hocr.signature_pattern(),
        r#"<div(?:\s[^>]*?)?\sclass=(?:"ocr_page"|'ocr_page')[^>]*>"#
    );
    assert_eq!(Dialect::Alto.signature_pattern(), r"<alto[\s>]");
    assert_eq!(Dialect::MiniOcr.signature_pattern(), MINIOCR_SIGNATURE);
    assert_eq!(Dialect::Hocr.signature_pattern(), HOCR_SIGNATURE);
    assert_eq!(Dialect::Alto.signature_pattern(), ALTO_SIGNATURE);
}

#[test]
fn detects_miniocr_with_declaration() {
    let doc = r#"<?xml version="1.0"?><ocr><w id="w1">Hello</w> <w id="w2">World</w></ocr>"#;
    assert_eq!(detect(doc), Ok(Dialect::MiniOcr));
}

#[test]
fn detects_miniocr_without_declaration() {
    assert_eq!(detect("<ocr><w>Hello</w></ocr>"), Ok(Dialect::MiniOcr));
}

#[test]
fn miniocr_root_must_open_the_document() {
    assert_eq!(detect(" <ocr><w>Hello</w></ocr>"), Err(OcrError::UnknownFormat));
    assert_eq!(detect("<?xml version=\"1.0\"?>\n<ocr></ocr>"), Err(OcrError::UnknownFormat));
    assert_eq!(detect("<doc><ocr></ocr></doc>"), Err(OcrError::UnknownFormat));
}

#[test]
fn miniocr_root_takes_no_attributes() {
    assert_eq!(detect(r#"<ocr lang="de"><w>Hello</w></ocr>"#), Err(OcrError::UnknownFormat));
}

#[test]
fn detects_hocr_with_single_quotes() {
    let doc = r#"<div class='ocr_page'><span class="ocrx_word" id="x1">Foo</span></div>"#;
    assert_eq!(detect(doc), Ok(Dialect::Hocr));
}

#[test]
fn detects_hocr_with_double_quotes_anywhere() {
    let doc = "<html>\n<body>\n<div class=\"ocr_page\" id=\"page_1\">\n</div></body></html>";
    assert_eq!(detect(doc), Ok(Dialect::Hocr));
}

#[test]
fn hocr_class_must_be_exactly_ocr_page() {
    assert_eq!(detect(r#"<div class="ocr_pages"></div>"#), Err(OcrError::UnknownFormat));
    assert_eq!(detect(r#"<div class="ocr_carea"></div>"#), Err(OcrError::UnknownFormat));
}

#[test]
fn detects_alto_followed_by_space_or_bracket() {
    let doc = r#"<alto version="1"><String CONTENT="Bar" HPOS="1"/></alto>"#;
    assert_eq!(detect(doc), Ok(Dialect::Alto));
    assert_eq!(detect("<?xml version=\"1.0\"?>\n<alto></alto>"), Ok(Dialect::Alto));
}

#[test]
fn detects_alto_followed_by_other_whitespace() {
    assert_eq!(detect("<alto\n  xmlns=\"http://www.loc.gov/standards/alto/ns-v3#\">"), Ok(Dialect::Alto));
    assert_eq!(detect("<alto\txmlns=\"x\">"), Ok(Dialect::Alto));
}

#[test]
fn alto_tag_name_is_exact_and_case_sensitive() {
    assert_eq!(detect("<altoist></altoist>"), Err(OcrError::UnknownFormat));
    assert_eq!(detect("<ALTO version=\"1\"></ALTO>"), Err(OcrError::UnknownFormat));
    assert_eq!(detect("<ns:alto version=\"1\"></ns:alto>"), Err(OcrError::UnknownFormat));
}

#[test]
fn document_with_all_three_signatures_is_miniocr() {
    let doc = r#"<?xml version="1.0"?><ocr><div class="ocr_page"><alto ><w>x</w></alto></div></ocr>"#;
    assert_eq!(has_signature(doc, Dialect::MiniOcr), Ok(true));
    assert_eq!(has_signature(doc, Dialect::Hocr), Ok(true));
    assert_eq!(has_signature(doc, Dialect::Alto), Ok(true));
    assert_eq!(detect(doc), Ok(Dialect::MiniOcr));
}

#[test]
fn document_with_hocr_and_alto_signatures_is_hocr() {
    let doc = r#"<alto version="1"><div class='ocr_page'></div></alto>"#;
    assert_eq!(has_signature(doc, Dialect::MiniOcr), Ok(false));
    assert_eq!(has_signature(doc, Dialect::Hocr), Ok(true));
    assert_eq!(has_signature(doc, Dialect::Alto), Ok(true));
    assert_eq!(detect(doc), Ok(Dialect::Hocr));
}

#[test]
fn document_without_signature_is_of_unknown_format() {
    assert_eq!(detect("<plain>text</plain>"), Err(OcrError::UnknownFormat));
    assert_eq!(detect(""), Err(OcrError::UnknownFormat));
}

#[test]
fn detection_repeats_on_equal_content() {
    let docs = [
        r#"<?xml version="1.0"?><ocr><w id="w1">Hello</w></ocr>"#,
        r#"<div class='ocr_page'></div>"#,
        r#"<alto version="1"></alto>"#,
        "<plain>text</plain>",
    ];
    for doc in docs {
        let copy = String::from(doc);
        assert_eq!(detect(doc), detect(&copy));
        assert_eq!(detect(doc), detect(doc));
    }
}

#[test]
fn has_signature_searches_the_document_not_the_pattern() {
    assert_eq!(has_signature("<ocr>", Dialect::MiniOcr), Ok(true));
    assert_eq!(has_signature(MINIOCR_SIGNATURE, Dialect::MiniOcr), Ok(false));
    assert_eq!(has_signature("<alto>", Dialect::Alto), Ok(true));
    assert_eq!(has_signature(ALTO_SIGNATURE, Dialect::Alto), Ok(false));
}

#[test]
fn error_messages() {
    assert_eq!(OcrError::UnknownFormat.describe(), "Unknown format!");
    assert_eq!(OcrError::EntityDecode.describe(), "Malformed character entity!");
    assert_eq!(OcrError::Engine.describe(), "Pattern engine failure!");
}

#[test]
fn hocr_class_may_stand_anywhere_in_the_tag() {
    assert_eq!(detect(r#"<div id="p1" class="ocr_page"></div>"#), Ok(Dialect::Hocr));
    assert_eq!(
        detect(r#"<div id='p1' title='bbox 0 0 10 10' class='ocr_page' lang='de'></div>"#),
        Ok(Dialect::Hocr)
    );
    assert_eq!(detect("<div\n  id=\"p1\"\n  class=\"ocr_page\"\n></div>"), Ok(Dialect::Hocr));
    assert_eq!(detect(r#"<div class="ocr_page"></div>"#), Ok(Dialect::Hocr));
}

#[test]
fn hocr_signature_is_a_div_with_that_very_attribute() {
    assert_eq!(detect(r#"<div data-class="ocr_page"></div>"#), Err(OcrError::UnknownFormat));
    assert_eq!(detect(r#"<division class="ocr_page"></division>"#), Err(OcrError::UnknownFormat));
    assert_eq!(detect(r#"<span id="p1" class="ocr_page"></span>"#), Err(OcrError::UnknownFormat));
    assert_eq!(detect(r#"<div id="p1"><p class="ocr_page"></p></div>"#), Err(OcrError::UnknownFormat));
    assert_eq!(detect(r#"<div class="ocr_page'></div>"#), Err(OcrError::UnknownFormat));
    assert_eq!(detect(r#"<div class="ocr_page ocr_x"></div>"#), Err(OcrError::UnknownFormat));
}

#[test]
fn engine_accepts_the_built_in_patterns() {
    assert!(engine_accepts_patterns());
}

#[test]
fn no_signature_test_fails_over_the_engine() {
    for dialect in [Dialect::MiniOcr, Dialect::Hocr, Dialect::Alto] {
        assert_eq!(has_signature("", dialect), Ok(false));
    }
}
