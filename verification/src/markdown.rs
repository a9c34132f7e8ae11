//! Markdown rendering of the model's answers, with syntax highlighting of
//! code blocks, done by comrak and its syntect plugin.
use vstd::prelude::*;
use comrak::plugins::syntect::SyntectAdapter;

verus! {

#[verifier::external_type_specification]
#[verifier::external_body]
pub struct ExSyntectAdapter(SyntectAdapter);

/// The highlighting themes that syntect bundles by default.
pub open spec fn is_bundled_theme(theme: Seq<char>) -> bool {
    ||| theme == "base16-ocean.dark"@
    ||| theme == "base16-eighties.dark"@
    ||| theme == "base16-mocha.dark"@
    ||| theme == "base16-ocean.light"@
    ||| theme == "InspiredGitHub"@
    ||| theme == "Solarized (dark)"@
    ||| theme == "Solarized (light)"@
}

/// The highlighting theme of the answers.
pub open spec fn answer_theme() -> Seq<char> {
    "base16-ocean.dark"@
}

/// The HTML that comrak's `markdown_to_html_with_plugins` renders from
/// `markdown`, with default options but for the four extensions given, and
/// code blocks highlighted by a `SyntectAdapter` with the theme `theme`.
pub uninterp spec fn comrak_html(
    markdown: Seq<char>,
    table: bool,
    strikethrough: bool,
    tasklist: bool,
    footnotes: bool,
    theme: Seq<char>,
) -> Seq<char>;

/// The GitHub-flavoured extensions that a rendering switches on.
#[derive(Clone, Copy, Debug, PartialEq, Eq, Structural)]
pub struct MarkdownOptions {
    pub table: bool,
    pub strikethrough: bool,
    pub tasklist: bool,
    pub footnotes: bool,
}

/// A Markdown renderer whose code blocks are highlighted in one theme. It
/// loads syntect's syntaxes and themes once, when it is made.
pub struct MarkdownRenderer {
    theme: String,
    adapter: SyntectAdapter,
}

/// `SyntectAdapter::new(Some(theme))`. Nothing is claimed of the adapter;
/// [`MarkdownRenderer`] records the theme beside it.
#[verifier::external_body]
fn syntect_adapter(theme: &str) -> SyntectAdapter {
    SyntectAdapter::new(Some(theme))
}

impl MarkdownRenderer {
    /// The theme is one that syntect bundles, so highlighting finds it.
    #[verifier::type_invariant]
    spec fn theme_is_bundled(self) -> bool {
        is_bundled_theme(self.theme@)
    }

    /// A renderer for one of the bundled themes.
    pub fn new(theme: String) -> (r: MarkdownRenderer)
        requires
            is_bundled_theme(theme@),
        ensures
            r.theme() == theme@,
    {
        let adapter = syntect_adapter(theme.as_str());
        MarkdownRenderer { theme, adapter }
    }

    /// The theme of the renderer.
    pub closed spec fn theme(&self) -> Seq<char> {
        self.theme@
    }

    /// comrak's `markdown_to_html_with_plugins` on `markdown`, with
    /// `Options::default()` but for the four extension switches of `options`,
    /// and the renderer's syntect adapter as the code block highlighter. The
    /// contract claims that the result is the named rendering of these
    /// arguments; it holds because the adapter was made from the recorded
    /// theme and nothing else builds a renderer.
    #[verifier::external_body]
    fn comrak_render(&self, markdown: &str, options: &MarkdownOptions) -> (h: String)
        requires
            is_bundled_theme(self.theme()),
        ensures
            h@ == comrak_html(
                markdown@,
                options.table,
                options.strikethrough,
                options.tasklist,
                options.footnotes,
                self.theme(),
            ),
    {
        let mut plugins = comrak::options::Plugins::default();
        plugins.render.codefence_syntax_highlighter = Some(&self.adapter);
        let mut opts = comrak::Options::default();
        opts.extension.table = options.table;
        opts.extension.strikethrough = options.strikethrough;
        opts.extension.tasklist = options.tasklist;
        opts.extension.footnotes = options.footnotes;
        comrak::markdown_to_html_with_plugins(markdown, &opts, &plugins)
    }
}

/// The extensions of the answers: tables, strikethrough, task lists and
/// footnotes.
pub fn answer_options() -> (o: MarkdownOptions)
    ensures
        o == (MarkdownOptions { table: true, strikethrough: true, tasklist: true, footnotes: true }),
{
    MarkdownOptions { table: true, strikethrough: true, tasklist: true, footnotes: true }
}

/// A renderer for the answers, highlighting code in the dark ocean theme.
pub fn answer_renderer() -> (r: MarkdownRenderer)
    ensures
        r.theme() == answer_theme(),
{
    proof {
        reveal_strlit("base16-ocean.dark");
    }
    MarkdownRenderer::new(String::from_str("base16-ocean.dark"))
}

/// An answer rendered from Markdown to HTML, with the answers' extensions.
pub fn render_markdown(renderer: &MarkdownRenderer, markdown: &str) -> (h: String)
    ensures
        h@ == comrak_html(markdown@, true, true, true, true, renderer.theme()),
{
    proof {
        use_type_invariant(renderer);
    }
    let options = answer_options();
    renderer.comrak_render(markdown, &options)
}

} // verus!
