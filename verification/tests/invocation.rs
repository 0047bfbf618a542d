use memehook::error::Error;
use memehook::invocation::{decode, gather, lookup, with_address, Invocation};

fn form(pairs: &[(&str, &str)]) -> Vec<(String, String)> {
    pairs.iter().map(|(k, v)| (k.to_string(), v.to_string())).collect()
}

fn full() -> Vec<(String, String)> {
    form(&[
        ("channel_id", "c1"),
        ("channel_name", "town-square"),
        ("command", "/meme"),
        ("response_url", "https://chat.example.org/hooks/commands/xyz"),
        ("team_domain", "team"),
        ("team_id", "t1"),
        ("text", "181913649\ntop\nbottom"),
        ("token", "abc123"),
        ("trigger_id", "trg"),
        ("user_id", "u1"),
        ("user_name", "alice"),
    ])
}

fn without(name: &str) -> Vec<(String, String)> {
    full().into_iter().filter(|(k, _)| k != name).collect()
}

fn expected() -> Invocation {
    Invocation {
        channel_id: "c1".to_string(),
        channel_name: "town-square".to_string(),
        command: "/meme".to_string(),
        response_url: "https://chat.example.org/hooks/commands/xyz".to_string(),
        team_domain: "team".to_string(),
        team_id: "t1".to_string(),
        text: "181913649\ntop\nbottom".to_string(),
        token: "abc123".to_string(),
        trigger_id: "trg".to_string(),
        user_id: "u1".to_string(),
        user_name: "alice".to_string(),
    }
}

#[test]
fn complete_form_decodes() {
    assert_eq!(decode(&full()), Ok(expected()));
}

#[test]
fn order_of_fields_is_free() {
    let mut fields = full();
    fields.reverse();
    assert_eq!(decode(&fields), Ok(expected()));
}

#[test]
fn other_fields_are_passed_over() {
    let mut fields = full();
    fields.insert(3, ("colour".to_string(), "blue".to_string()));
    fields.push((String::new(), "x".to_string()));
    assert_eq!(decode(&fields), Ok(expected()));
}

#[test]
fn each_field_is_required() {
    for name in [
        "channel_id",
        "channel_name",
        "command",
        "response_url",
        "team_domain",
        "team_id",
        "text",
        "token",
        "trigger_id",
        "user_id",
        "user_name",
    ] {
        assert_eq!(decode(&without(name)), Err(Error::DecodeError), "{}", name);
        assert_eq!(gather(&without(name)), Err(Error::DecodeError), "{}", name);
    }
}

#[test]
fn empty_form_does_not_decode() {
    assert_eq!(decode(&Vec::new()), Err(Error::DecodeError));
}

#[test]
fn repeated_field_does_not_decode() {
    let mut fields = full();
    fields.push(("text".to_string(), "again".to_string()));
    assert_eq!(decode(&fields), Err(Error::DecodeError));
    let mut fields = full();
    fields.insert(0, ("user_name".to_string(), "alice".to_string()));
    assert_eq!(decode(&fields), Err(Error::DecodeError));
}

#[test]
fn field_names_are_exact() {
    let mut fields = without("text");
    fields.push(("Text".to_string(), "x".to_string()));
    assert_eq!(decode(&fields), Err(Error::DecodeError));
    let mut fields = without("text");
    fields.push(("text ".to_string(), "x".to_string()));
    assert_eq!(decode(&fields), Err(Error::DecodeError));
}

#[test]
fn empty_values_are_values() {
    let mut fields = without("text");
    fields.push(("text".to_string(), String::new()));
    let invocation = decode(&fields).unwrap();
    assert_eq!(invocation.text, "");
}

#[test]
fn callback_must_be_an_absolute_url() {
    for bad in ["", "not a url", "/hooks/xyz", "chat.example.org/hooks", "https://", "//example.org"] {
        let mut fields = without("response_url");
        fields.push(("response_url".to_string(), bad.to_string()));
        assert_eq!(decode(&fields), Err(Error::DecodeError), "{:?}", bad);
    }
}

#[test]
fn callback_is_kept_as_the_url_is_written_out() {
    let mut fields = without("response_url");
    fields.push(("response_url".to_string(), "HTTPS://Chat.Example.ORG:443/a b?q=1#f".to_string()));
    let invocation = decode(&fields).unwrap();
    assert_eq!(invocation.response_url, "https://chat.example.org/a%20b?q=1#f");
    let mut fields = without("response_url");
    fields.push(("response_url".to_string(), "http://example.org".to_string()));
    assert_eq!(decode(&fields).unwrap().response_url, "http://example.org/");
}

#[test]
fn gathering_takes_the_callback_as_it_stands() {
    let mut fields = without("response_url");
    fields.push(("response_url".to_string(), "no url at all".to_string()));
    let raw = gather(&fields).unwrap();
    assert_eq!(raw.response_url, "no url at all");
    assert_eq!(raw.command, "/meme");
}

#[test]
fn address_replaces_the_callback() {
    let raw = expected();
    let addressed = with_address(raw, Some("https://other.example/".to_string())).unwrap();
    assert_eq!(addressed.response_url, "https://other.example/");
    assert_eq!(addressed.text, "181913649\ntop\nbottom");
    assert_eq!(addressed.user_name, "alice");
    assert_eq!(addressed.channel_id, "c1");
}

#[test]
fn no_address_no_invocation() {
    assert_eq!(with_address(expected(), None), Err(Error::DecodeError));
}

#[test]
fn lookup_finds_the_one_value() {
    let fields = form(&[("a", "1"), ("b", "2"), ("c", "3"), ("b", "4")]);
    assert_eq!(lookup(&fields, "a"), Some("1".to_string()));
    assert_eq!(lookup(&fields, "c"), Some("3".to_string()));
    assert_eq!(lookup(&fields, "b"), None);
    assert_eq!(lookup(&fields, "d"), None);
    assert_eq!(lookup(&Vec::new(), "a"), None);
}

#[test]
fn lookup_counts_equal_values_too() {
    let fields = form(&[("a", "1"), ("a", "1")]);
    assert_eq!(lookup(&fields, "a"), None);
}
