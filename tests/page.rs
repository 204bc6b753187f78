use webui::{generate_html, AppState, RouterConfig};

const EXPECTED: &str = r#"<!DOCTYPE html>
<html lang="en">
<head>
    <meta charset="UTF-8">
    <meta name="viewport" content="width=device-width, initial-scale=1.0">
    <title>My App</title>
    <link rel="stylesheet" href="/static/webui.css">
</head>
<body>
<ui-button id="btn1"></ui-button>
    <script src="/static/webui.js"></script>
</body>
</html>"#;

#[test]
fn html_wraps_title_and_body() {
    assert_eq!(generate_html("My App", r#"<ui-button id="btn1"></ui-button>"#), EXPECTED);
}

#[test]
fn router_config_defaults_and_builders() {
    let c = RouterConfig::new(AppState::new(), "<p>x</p>");
    assert_eq!(c.title, "WebUI App");
    assert_eq!(c.static_dir, "static");
    assert_eq!(c.body_html, "<p>x</p>");
    let c = c.title("My App").static_dir("assets");
    assert_eq!(c.title, "My App");
    assert_eq!(c.static_dir, "assets");
    let c = RouterConfig::new(AppState::new(), r#"<ui-button id="btn1"></ui-button>"#).title("My App");
    assert_eq!(c.page(), EXPECTED);
}
