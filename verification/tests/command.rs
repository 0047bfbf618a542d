use memehook::command::{interpret, split_lines, CaptionRequest, Interpretation};
use memehook::reply::usage;

fn std_lines(text: &str) -> Vec<String> {
    text.lines().map(|l| l.to_string()).collect()
}

#[test]
fn lines_split_at_line_feeds() {
    assert_eq!(split_lines("181913649\ntop text\nbottom text"), vec![
        "181913649".to_string(),
        "top text".to_string(),
        "bottom text".to_string(),
    ]);
}

#[test]
fn empty_text_has_no_lines() {
    assert_eq!(split_lines(""), Vec::<String>::new());
}

#[test]
fn final_line_feed_ends_the_last_line() {
    assert_eq!(split_lines("a\n"), vec!["a".to_string()]);
    assert_eq!(split_lines("a\nb\n"), vec!["a".to_string(), "b".to_string()]);
}

#[test]
fn empty_lines_are_lines() {
    assert_eq!(split_lines("\n"), vec![String::new()]);
    assert_eq!(split_lines("\n\n"), vec![String::new(), String::new()]);
    assert_eq!(split_lines("a\n\nb"), vec!["a".to_string(), String::new(), "b".to_string()]);
}

#[test]
fn carriage_return_before_line_feed_is_dropped() {
    assert_eq!(split_lines("a\r\nb\r\n"), vec!["a".to_string(), "b".to_string()]);
    assert_eq!(split_lines("\r\n"), vec![String::new()]);
    assert_eq!(split_lines("a\r\r\nb"), vec!["a\r".to_string(), "b".to_string()]);
}

#[test]
fn carriage_return_alone_ends_no_line() {
    assert_eq!(split_lines("a\rb"), vec!["a\rb".to_string()]);
    assert_eq!(split_lines("a\nb\r"), vec!["a".to_string(), "b\r".to_string()]);
    assert_eq!(split_lines("\r"), vec!["\r".to_string()]);
}

#[test]
fn lines_agree_with_the_standard_library() {
    let samples = [
        "",
        "a",
        "\n",
        "\r",
        "\r\n",
        "\n\r",
        "a\n",
        "a\r",
        "a\r\n",
        "a\nb",
        "a\n\nb",
        "a\r\nb\r\n",
        "a\r\r\nb",
        "\n\n\n",
        "\na",
        "\r\n\r\n",
        " \n \n",
        "one\ntwo\nthree",
        "181913649\nmaking memes yourself\nusing a bot to make memes",
        "\u{e4}\u{20ac}\n\u{1f600}\r\n\u{1f600}\u{1f600}",
        "a\u{85}b\u{2028}c\n",
    ];
    for text in samples {
        assert_eq!(split_lines(text), std_lines(text), "{:?}", text);
    }
}

#[test]
fn lines_count_characters_not_bytes() {
    assert_eq!(split_lines("\u{1f600}\u{e4}\n\u{20ac}\u{20ac}\r\nz"), vec![
        "\u{1f600}\u{e4}".to_string(),
        "\u{20ac}\u{20ac}".to_string(),
        "z".to_string(),
    ]);
}

#[test]
fn text_without_lines_gets_usage() {
    assert_eq!(interpret("/meme", ""), Interpretation::Usage(usage("/meme")));
}

#[test]
fn single_line_gets_usage() {
    assert_eq!(interpret("/meme", "181913649"), Interpretation::Usage(usage("/meme")));
    assert_eq!(interpret("/meme", "181913649\n"), Interpretation::Usage(usage("/meme")));
    assert_eq!(interpret("/meme", "181913649\r\n"), Interpretation::Usage(usage("/meme")));
    assert_eq!(interpret("/meme", "\n"), Interpretation::Usage(usage("/meme")));
}

#[test]
fn usage_names_the_command_that_was_invoked() {
    assert_eq!(interpret("/caption", "x"), Interpretation::Usage(usage("/caption")));
    assert_ne!(interpret("/caption", "x"), Interpretation::Usage(usage("/meme")));
}

#[test]
fn two_lines_are_a_template_and_one_box() {
    assert_eq!(
        interpret("/meme", "181913649\ntop text"),
        Interpretation::Caption(CaptionRequest {
            template: "181913649".to_string(),
            boxes: vec!["top text".to_string()],
        })
    );
}

#[test]
fn further_lines_are_boxes_in_order() {
    assert_eq!(
        interpret("/meme", "181913649\ntop text\nbottom text"),
        Interpretation::Caption(CaptionRequest {
            template: "181913649".to_string(),
            boxes: vec!["top text".to_string(), "bottom text".to_string()],
        })
    );
    assert_eq!(
        interpret("/meme", "t\nd\nc\nb\na\n"),
        Interpretation::Caption(CaptionRequest {
            template: "t".to_string(),
            boxes: vec!["d".to_string(), "c".to_string(), "b".to_string(), "a".to_string()],
        })
    );
}

#[test]
fn empty_lines_are_boxes_too() {
    assert_eq!(
        interpret("/meme", "\n\n"),
        Interpretation::Caption(CaptionRequest {
            template: String::new(),
            boxes: vec![String::new()],
        })
    );
    assert_eq!(
        interpret("/meme", "t\r\n\r\nbottom"),
        Interpretation::Caption(CaptionRequest {
            template: "t".to_string(),
            boxes: vec![String::new(), "bottom".to_string()],
        })
    );
}
