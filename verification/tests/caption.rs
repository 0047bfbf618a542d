use memehook::caption::build_caption;
use memehook::command::CaptionRequest;

fn request(template: &str, boxes: &[&str]) -> CaptionRequest {
    CaptionRequest {
        template: template.to_string(),
        boxes: boxes.iter().map(|b| b.to_string()).collect(),
    }
}

fn plain_box(text: &str) -> String {
    format!(
        "CaptionBox {{ text: {:?}, x: None, y: None, width: None, height: None, color: None, outline_color: None }}",
        text
    )
}

#[test]
fn built_request_holds_template_and_boxes_in_order() {
    let built = build_caption(&request("181913649", &["top text", "bottom text"]));
    assert_eq!(
        format!("{:?}", built),
        format!(
            "CaptionBoxesRequest {{ template_id: \"181913649\", font: None, max_font_size: None, boxes: [{}, {}] }}",
            plain_box("top text"),
            plain_box("bottom text")
        )
    );
}

#[test]
fn built_request_keeps_equal_and_empty_boxes() {
    let built = build_caption(&request("t", &["same", "", "same"]));
    assert_eq!(
        format!("{:?}", built),
        format!(
            "CaptionBoxesRequest {{ template_id: \"t\", font: None, max_font_size: None, boxes: [{}, {}, {}] }}",
            plain_box("same"),
            plain_box(""),
            plain_box("same")
        )
    );
}

#[test]
fn built_request_without_boxes_has_none() {
    let built = build_caption(&request("181913649", &[]));
    assert_eq!(
        format!("{:?}", built),
        "CaptionBoxesRequest { template_id: \"181913649\", font: None, max_font_size: None, boxes: [] }"
    );
}

#[test]
fn built_request_differs_with_the_order_of_boxes() {
    let one = format!("{:?}", build_caption(&request("t", &["a", "b"])));
    let other = format!("{:?}", build_caption(&request("t", &["b", "a"])));
    assert_ne!(one, other);
}
