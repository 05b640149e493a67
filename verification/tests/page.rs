use amitu_base::page::{document, escape, render_json, Page, PageError, PageSpec};
use amitu_base::page::{DOCUMENT_HEAD, DOCUMENT_MIDDLE, DOCUMENT_TAIL};
use serde_json::Value;

fn json(text: &str) -> Value {
    serde_json::from_str(text).unwrap()
}

fn broken() -> serde_json::Error {
    serde_json::from_str::<Value>("{").unwrap_err()
}

fn home() -> PageSpec {
    PageSpec {
        id: "home".to_string(),
        config: json("{\"x\":1}"),
        title: "Home".to_string(),
        url: None,
        replace: None,
    }
}

fn text(bytes: Vec<u8>) -> String {
    String::from_utf8(bytes).unwrap()
}

#[test]
fn escape_replaces_the_three_characters() {
    assert_eq!(escape(">"), "\\u003E");
    assert_eq!(escape("<"), "\\u003C");
    assert_eq!(escape("&"), "\\u0026");
    assert_eq!(escape("a<b>c&d"), "a\\u003Cb\\u003Ec\\u0026d");
}

#[test]
fn escape_keeps_every_other_character() {
    assert_eq!(escape(""), "");
    assert_eq!(escape("plain text, \"quoted\" 'too'"), "plain text, \"quoted\" 'too'");
    assert_eq!(escape("back\\slash \\u003C"), "back\\slash \\u003C");
    assert_eq!(escape("gr\u{fc}\u{df}e \u{4f60}\u{597d} \u{1f600}"), "gr\u{fc}\u{df}e \u{4f60}\u{597d} \u{1f600}");
    assert_eq!(escape("line\nbreak\ttab"), "line\nbreak\ttab");
}

#[test]
fn escape_output_has_none_of_the_three_characters() {
    let out = escape("<script>alert(1 && 2 > 1)</script>&amp;<<>>&&");
    assert!(!out.contains('<'));
    assert!(!out.contains('>'));
    assert!(!out.contains('&'));
    assert_eq!(
        out,
        "\\u003Cscript\\u003Ealert(1 \\u0026\\u0026 2 \\u003E 1)\\u003C/script\\u003E\\u0026amp;\\u003C\\u003C\\u003E\\u003E\\u0026\\u0026"
    );
}

#[test]
fn escape_twice_is_escape_once() {
    let once = escape("a<b>&c");
    let twice = escape(&once);
    assert_eq!(twice, once);
}

#[test]
fn escape_is_per_character_and_in_order() {
    assert_eq!(escape("&<>"), "\\u0026\\u003C\\u003E");
    assert_eq!(escape(">>"), "\\u003E\\u003E");
}

#[test]
fn document_is_the_fixed_shell() {
    let expected = "<!DOCTYPE html>
<html>
    <head>
        <meta charset=\"utf-8\" />
        <title>Home</title>
        <meta name=\"viewport\" content=\"width=device-width\" />
        <script id=\"data\" type=\"application/json\">
{}
        </script>
    </head>
    <body>
        <div id=\"main\"></div>
        <script src='/static/elm.js'></script>
    </body>
</html>";
    assert_eq!(text(document("Home", "{}")), expected);
}

#[test]
fn document_of_nothing_is_the_three_parts() {
    let expected = format!("{}{}{}", DOCUMENT_HEAD, DOCUMENT_MIDDLE, DOCUMENT_TAIL);
    assert_eq!(text(document("", "")), expected);
}

#[test]
fn document_does_not_touch_title_or_data() {
    let out = text(document("a <b> & c", "<raw>"));
    assert!(out.contains("<title>a <b> & c</title>"));
    assert!(out.contains("<script id=\"data\" type=\"application/json\">\n<raw>\n        </script>"));
}

#[test]
fn document_is_utf8() {
    let bytes = document("\u{e9}", "\u{4f60}");
    let expected = format!("{}\u{e9}{}\u{4f60}{}", DOCUMENT_HEAD, DOCUMENT_MIDDLE, DOCUMENT_TAIL);
    assert_eq!(bytes, expected.as_bytes());
    assert_eq!(bytes.len(), DOCUMENT_HEAD.len() + 2 + DOCUMENT_MIDDLE.len() + 3 + DOCUMENT_TAIL.len());
}

#[test]
fn render_home_page() {
    let out = text(home().render().unwrap());
    let expected = "<!DOCTYPE html>
<html>
    <head>
        <meta charset=\"utf-8\" />
        <title>Home</title>
        <meta name=\"viewport\" content=\"width=device-width\" />
        <script id=\"data\" type=\"application/json\">
{
  \"id\": \"home\",
  \"config\": {
    \"x\": 1
  },
  \"title\": \"Home\",
  \"url\": null,
  \"replace\": null
}
        </script>
    </head>
    <body>
        <div id=\"main\"></div>
        <script src='/static/elm.js'></script>
    </body>
</html>";
    assert_eq!(out, expected);
}

#[test]
fn render_contains_title_and_pretty_config() {
    let out = text(home().render().unwrap());
    assert!(out.starts_with("<!DOCTYPE html>"));
    assert!(out.contains("<title>Home</title>"));
    assert!(out.contains("\"config\": {\n    \"x\": 1\n  }"));
    let open = out.find("<script id=\"data\" type=\"application/json\">\n").unwrap();
    let close = out.find("\n        </script>").unwrap();
    let at = out.find("\"x\": 1").unwrap();
    assert!(open < at && at < close);
}

#[test]
fn render_writes_the_addresses() {
    let page = home().with_url("/home?a=1&b=2".to_string()).with_replace("/r".to_string());
    let out = text(page.render().unwrap());
    assert!(out.contains("  \"url\": \"/home?a=1\\u0026b=2\",\n  \"replace\": \"/r\"\n}"));
}

#[test]
fn render_escapes_the_json_and_not_the_title() {
    let page = PageSpec {
        id: "<id>".to_string(),
        config: json("{\"html\":\"<b>Tom & Jerry</b>\"}"),
        title: "Tom & Jerry <3".to_string(),
        url: None,
        replace: None,
    };
    let out = text(page.render().unwrap());
    assert!(out.contains("<title>Tom & Jerry <3</title>"));
    assert!(out.contains("\"id\": \"\\u003Cid\\u003E\","));
    assert!(out.contains("\"html\": \"\\u003Cb\\u003ETom \\u0026 Jerry\\u003C/b\\u003E\""));
    assert!(out.contains("\"title\": \"Tom \\u0026 Jerry \\u003C3\","));
    let open = "<script id=\"data\" type=\"application/json\">\n";
    let start = out.find(open).unwrap() + open.len();
    let end = out.find("\n        </script>").unwrap();
    let data = &out[start..end];
    assert!(!data.contains('<') && !data.contains('>') && !data.contains('&'));
    let back: Value = serde_json::from_str(data).unwrap();
    assert_eq!(back["id"], Value::from("<id>"));
    assert_eq!(back["title"], Value::from("Tom & Jerry <3"));
    assert_eq!(back["config"]["html"], Value::from("<b>Tom & Jerry</b>"));
}

#[test]
fn render_quotes_strings_as_json() {
    let page = PageSpec {
        id: "say \"hi\"\n".to_string(),
        config: Value::Null,
        title: "t".to_string(),
        url: Some("".to_string()),
        replace: None,
    };
    let out = text(page.render().unwrap());
    assert!(out.contains("{\n  \"id\": \"say \\\"hi\\\"\\n\",\n  \"config\": null,\n  \"title\": \"t\",\n  \"url\": \"\",\n  \"replace\": null\n}"));
}

#[test]
fn render_keeps_nested_state() {
    let page = PageSpec {
        id: "list".to_string(),
        config: json("{\"items\":[1,2.5,true,null,\"s\"],\"empty\":{},\"none\":[]}"),
        title: "List".to_string(),
        url: None,
        replace: None,
    };
    let out = text(page.render().unwrap());
    let open = "<script id=\"data\" type=\"application/json\">\n";
    let start = out.find(open).unwrap() + open.len();
    let end = out.find("\n        </script>").unwrap();
    let back: Value = serde_json::from_str(&out[start..end]).unwrap();
    assert_eq!(back["config"], json("{\"items\":[1,2.5,true,null,\"s\"],\"empty\":{},\"none\":[]}"));
    assert_eq!(back["id"], Value::from("list"));
    assert_eq!(back["url"], Value::Null);
}

#[test]
fn render_json_sets_the_escaped_json() {
    let out = text(render_json("T", Ok("{\"a\": \"<&>\"}".to_string())).unwrap());
    let expected = format!(
        "{}T{}{{\"a\": \"\\u003C\\u0026\\u003E\"}}{}",
        DOCUMENT_HEAD, DOCUMENT_MIDDLE, DOCUMENT_TAIL
    );
    assert_eq!(out, expected);
}

#[test]
fn render_json_hands_the_failure_on() {
    let cause = broken();
    let message = cause.to_string();
    match render_json("T", Err(cause)) {
        Err(PageError::Serialize(e)) => assert_eq!(e.to_string(), message),
        Ok(_) => panic!("a failed serialization must not render"),
    }
}

#[test]
fn from_config_builds_a_page_without_addresses() {
    let page = PageSpec::from_config("home", Ok(json("[1]")), "Home").unwrap();
    assert_eq!(page.id, "home");
    assert_eq!(page.config, json("[1]"));
    assert_eq!(page.title, "Home");
    assert_eq!(page.url, None);
    assert_eq!(page.replace, None);
}

#[test]
fn from_config_hands_the_failure_on() {
    let cause = broken();
    let message = cause.to_string();
    match PageSpec::from_config("home", Err(cause), "Home") {
        Err(PageError::Serialize(e)) => assert_eq!(e.to_string(), message),
        Ok(_) => panic!("a failed serialization must not give a page"),
    }
}

#[test]
fn with_url_always_overwrites() {
    let page = home().with_url("/a".to_string());
    assert_eq!(page.url, Some("/a".to_string()));
    let page = page.with_url("/b".to_string());
    assert_eq!(page.url, Some("/b".to_string()));
    assert_eq!(page.id, "home");
    assert_eq!(page.title, "Home");
    assert_eq!(page.config, json("{\"x\":1}"));
    assert_eq!(page.replace, None);
}

#[test]
fn with_default_url_never_overwrites() {
    let page = home().with_default_url("/default".to_string());
    assert_eq!(page.url, Some("/default".to_string()));
    let page = page.with_default_url("/other".to_string());
    assert_eq!(page.url, Some("/default".to_string()));
    let page = home().with_url("/set".to_string()).with_default_url("/default".to_string());
    assert_eq!(page.url, Some("/set".to_string()));
    let page = home().with_default_url("/default".to_string()).with_url("/set".to_string());
    assert_eq!(page.url, Some("/set".to_string()));
    assert_eq!(page.id, "home");
    assert_eq!(page.replace, None);
}

#[test]
fn with_default_url_keeps_an_empty_address() {
    let page = home().with_url("".to_string()).with_default_url("/default".to_string());
    assert_eq!(page.url, Some("".to_string()));
}

#[test]
fn with_replace_sets_only_the_replacement() {
    let page = home().with_replace("/r1".to_string()).with_replace("/r2".to_string());
    assert_eq!(page.replace, Some("/r2".to_string()));
    assert_eq!(page.url, None);
    assert_eq!(page.title, "Home");
    let page = page.with_default_url("/u".to_string());
    assert_eq!(page.replace, Some("/r2".to_string()));
    assert_eq!(page.url, Some("/u".to_string()));
}

struct Counter {
    count: u64,
}

impl Page for Counter {
    const ID: &'static str = "counter";

    fn config(&self) -> Result<Value, serde_json::Error> {
        serde_json::to_value(vec![("count", self.count)])
    }
}

struct Unwritable;

impl Page for Unwritable {
    const ID: &'static str = "unwritable";

    fn config(&self) -> Result<Value, serde_json::Error> {
        Err(broken())
    }
}

#[test]
fn with_title_builds_the_page_of_a_type() {
    let page = Counter { count: 7 }.with_title("Counting").unwrap();
    assert_eq!(page.id, "counter");
    assert_eq!(page.title, "Counting");
    assert_eq!(page.config, json("[[\"count\",7]]"));
    assert_eq!(page.url, None);
    assert_eq!(page.replace, None);
    let out = text(page.render().unwrap());
    assert!(out.contains("<title>Counting</title>"));
    assert!(out.contains("\"id\": \"counter\","));
}

#[test]
fn with_title_fails_where_the_state_cannot_be_written() {
    assert!(matches!(Unwritable.with_title("No"), Err(PageError::Serialize(_))));
}
