use vstd::prelude::*;

verus! {

/// The host document up to the page title.
pub const PAGE_HEAD: &'static str = "<!DOCTYPE html>
<html lang=\"en\">
<head>
    <meta charset=\"UTF-8\">
    <meta name=\"viewport\" content=\"width=device-width, initial-scale=1.0\">
    <title>";

/// The host document between the title and the body content.
pub const PAGE_MIDDLE: &'static str = "</title>
    <link rel=\"stylesheet\" href=\"/static/webui.css\">
</head>
<body>
";

/// The host document after the body content: the client runtime and the closing tags.
pub const PAGE_TAIL: &'static str = "
    <script src=\"/static/webui.js\"></script>
</body>
</html>";

/// Directory that static assets are served from unless configured otherwise.
pub const DEFAULT_STATIC_DIR: &'static str = "static";

/// Page title unless configured otherwise.
pub const DEFAULT_TITLE: &'static str = "WebUI App";

/// The host document for a page titled `title` whose body holds `body`.
pub open spec fn page_of(title: Seq<char>, body: Seq<char>) -> Seq<char> {
    PAGE_HEAD@ + title + PAGE_MIDDLE@ + body + PAGE_TAIL@
}

/// Builds the host document: `body_content` (the UI layout) wrapped in a page
/// titled `title` that loads the client runtime and its stylesheet.
pub fn generate_html(title: &str, body_content: &str) -> (r: String)
    ensures
        r@ == page_of(title@, body_content@),
{
    let mut r = PAGE_HEAD.to_owned();
    r.append(title);
    r.append(PAGE_MIDDLE);
    r.append(body_content);
    r.append(PAGE_TAIL);
    r
}

/// What the web layer needs to serve an application whose state is `S`.
pub struct RouterConfig<S> {
    /// Application state.
    pub state: S,
    /// Directory the static assets are served from.
    pub static_dir: String,
    /// Page title.
    pub title: String,
    /// Page body: the UI layout.
    pub body_html: String,
}

impl<S> RouterConfig<S> {
    /// A configuration with the default title and asset directory.
    pub fn new(state: S, body_html: &str) -> (r: RouterConfig<S>)
        ensures
            r.state == state,
            r.static_dir@ == DEFAULT_STATIC_DIR@,
            r.title@ == DEFAULT_TITLE@,
            r.body_html@ == body_html@,
    {
        RouterConfig {
            state,
            static_dir: DEFAULT_STATIC_DIR.to_owned(),
            title: DEFAULT_TITLE.to_owned(),
            body_html: body_html.to_owned(),
        }
    }

    /// Sets the page title.
    pub fn title(self, title: &str) -> (r: RouterConfig<S>)
        ensures
            r.state == self.state,
            r.static_dir == self.static_dir,
            r.title@ == title@,
            r.body_html == self.body_html,
    {
        RouterConfig { title: title.to_owned(), ..self }
    }

    /// Sets the static asset directory.
    pub fn static_dir(self, dir: &str) -> (r: RouterConfig<S>)
        ensures
            r.state == self.state,
            r.static_dir@ == dir@,
            r.title == self.title,
            r.body_html == self.body_html,
    {
        RouterConfig { static_dir: dir.to_owned(), ..self }
    }

    /// The host document this configuration serves.
    pub fn page(&self) -> (r: String)
        ensures
            r@ == page_of(self.title@, self.body_html@),
    {
        generate_html(self.title.as_str(), self.body_html.as_str())
    }
}

} // verus!
