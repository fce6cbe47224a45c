//! The page with the code map.
use crate::paths::{home_or_empty, join_path, joined_path};
use vstd::prelude::*;

verus! {

/// The page down to the place of the notice.
pub const PAGE_HEAD: &'static str = r#"<!DOCTYPE html>
<html lang="en">
<head>
  <meta charset="UTF-8">
  <meta name="viewport" content="width=device-width, initial-scale=1, viewport-fit=cover">
  <title>EPS Map — Observatory</title>
  <style>
    * { box-sizing: border-box; margin: 0; padding: 0; }
    body {
      background: #0f0f1a;
      color: #c8c8e8;
      font-family: 'SF Mono', 'Menlo', monospace;
      font-size: 13px;
      padding: 16px;
      padding-bottom: calc(64px + env(safe-area-inset-bottom));
      max-width: 760px;
      margin: 0 auto;
    }
    .header {
      display: flex;
      align-items: center;
      gap: 12px;
      margin-bottom: 20px;
    }
    a.back {
      color: #6060a0;
      text-decoration: none;
      font-size: 12px;
      flex-shrink: 0;
    }
    a.back:hover { color: #a0a0c0; }
    h1 {
      font-size: 16px;
      font-weight: 600;
      color: #a0a0c0;
      letter-spacing: 0.05em;
    }
    /* markdown content */
    .content h1 {
      font-size: 18px;
      color: #c8c8f0;
      margin-bottom: 4px;
      letter-spacing: 0.04em;
    }
    .content p em {
      color: #505070;
      font-style: normal;
      font-size: 12px;
    }
    .content hr {
      border: none;
      border-top: 1px solid #2a2a4a;
      margin: 16px 0;
    }
    .content h2 {
      font-size: 14px;
      font-weight: 600;
      color: #a0a0d0;
      margin: 20px 0 8px;
      letter-spacing: 0.04em;
    }
    .content h2 code {
      font-size: 11px;
      color: #505080;
      background: none;
      padding: 0;
      border: none;
    }
    .content p {
      line-height: 1.7;
      color: #9090b0;
      margin-bottom: 2px;
    }
    .content p code {
      color: #a0c0e0;
      background: #12122a;
      border: 1px solid #2a2a4a;
      border-radius: 3px;
      padding: 0 4px;
      font-size: 12px;
    }
    .status.refreshing {
      font-size: 12px;
      color: #ff9800;
      margin-left: auto;
    }
    .bottom-bar {
      position: fixed;
      bottom: 0;
      left: 0;
      right: 0;
      padding: 12px 20px;
      padding-bottom: calc(12px + env(safe-area-inset-bottom));
      background: rgba(15, 15, 26, 0.85);
      -webkit-backdrop-filter: blur(24px) saturate(180%);
      backdrop-filter: blur(24px) saturate(180%);
      border-top: 1px solid rgba(160, 160, 220, 0.1);
      display: flex;
      justify-content: space-between;
      align-items: center;
    }
    .refresh-form { display: inline; }
    .refresh-btn {
      background: none;
      border: 1px solid #3a3a6a;
      color: #6060a0;
      font-family: 'SF Mono', 'Menlo', monospace;
      font-size: 12px;
      padding: 4px 10px;
      border-radius: 5px;
      cursor: pointer;
    }
    .refresh-btn:hover { color: #a0a0c0; border-color: #6060a0; }
    .bottom-label {
      font-size: 11px;
      color: #505070;
      letter-spacing: 0.04em;
    }
  </style>
</head>
<body>
  <div class="header">
    <a class="back" href="/">← Observatory</a>
    "#;

/// The page between the notice and the map.
pub const PAGE_MIDDLE: &'static str = r#"
  </div>
  <div class="content">
    "#;

/// The page behind the map.
pub const PAGE_TAIL: &'static str = r#"
  </div>
  <div class="bottom-bar">
    <span class="bottom-label">EPS Code Map</span>
    <form class="refresh-form" method="POST" action="/map/refresh">
      <button class="refresh-btn" type="submit">↺ refresh</button>
    </form>
  </div>
</body>
</html>"#;

/// The notice that the map is being made anew.
pub const REFRESHING: &'static str = r#"<div class="status refreshing">refreshing…</div>"#;

/// The page around `body`, with the notice that the map is being made anew or without it.
pub open spec fn page(body: Seq<char>, refreshing: bool) -> Seq<char> {
    PAGE_HEAD@ + (if refreshing {
        REFRESHING@
    } else {
        Seq::empty()
    }) + PAGE_MIDDLE@ + body + PAGE_TAIL@
}

/// The Markdown of the page: that of the map, or else a note that there is no map at `path`.
pub open spec fn map_source(content: Option<Seq<char>>, path: Seq<char>) -> Seq<char> {
    match content {
        Some(md) => md,
        None => "# EPS Code Map\n\nNo map found at `"@ + path
            + "`.\n\nRun `tree_walker -o "@ + path + "` to generate it."@,
    }
}

/// The HTML of a text in Markdown (CommonMark, without extensions).
pub uninterp spec fn markdown_html(md: Seq<char>) -> Seq<char>;

/// Calls `pulldown_cmark::html::push_html` on the events that `pulldown_cmark::Parser::new_ext`
/// finds in `md` with no option set. Trusted: the HTML depends on the text alone. What the HTML
/// of a text is, CommonMark says.
#[verifier::external_body]
fn markdown_to_html(md: &str) -> (r: String)
    ensures
        r@ == markdown_html(md@),
{
    let parser = pulldown_cmark::Parser::new_ext(md, pulldown_cmark::Options::empty());
    let mut out = String::new();
    pulldown_cmark::html::push_html(&mut out, parser);
    out
}

/// The page around the HTML `body_html`.
pub fn render_page(body_html: &str, refreshing: bool) -> (r: String)
    ensures
        r@ == page(body_html@, refreshing),
{
    let mut r = PAGE_HEAD.to_owned();
    if refreshing {
        r.append(REFRESHING);
    }
    r.append(PAGE_MIDDLE);
    r.append(body_html);
    r.append(PAGE_TAIL);
    assert(r@ =~= page(body_html@, refreshing));
    r
}

/// The Markdown of the page, where the map at `path` holds `content`, or could not be read.
pub fn map_markdown(content: Option<&str>, path: &str) -> (r: String)
    ensures
        r@ == map_source(content.deep_view(), path@),
{
    match content {
        Some(md) => md.to_owned(),
        None => {
            let mut r = "# EPS Code Map\n\nNo map found at `".to_owned();
            r.append(path);
            r.append("`.\n\nRun `tree_walker -o ");
            r.append(path);
            r.append("` to generate it.");
            r
        },
    }
}

/// The page with the code map, where the map at `path` holds `content`, or could not be read.
pub fn map_page(content: Option<&str>, path: &str) -> (r: String)
    ensures
        r@ == page(markdown_html(map_source(content.deep_view(), path@)), false),
{
    let md = map_markdown(content, path);
    let body = markdown_to_html(md.as_str());
    render_page(body.as_str(), false)
}

/// Where the program that makes the map is usually installed.
pub fn tree_walker_path(home: Option<&str>) -> (r: String)
    ensures
        r@ == join_path(home_or_empty(home.deep_view()), ".cargo/bin/tree_walker"@),
{
    match home {
        Some(h) => joined_path(h, ".cargo/bin/tree_walker"),
        None => {
            let empty = String::new();
            assert(empty@ =~= home_or_empty(home.deep_view()));
            joined_path(empty.as_str(), ".cargo/bin/tree_walker")
        },
    }
}

/// The program that makes the map: the installed one if it is there, and otherwise whichever the
/// search path leads to.
pub fn tree_walker_bin(installed: &str, is_there: bool) -> (r: String)
    ensures
        r@ == if is_there {
            installed@
        } else {
            "tree_walker"@
        },
{
    if is_there {
        installed.to_owned()
    } else {
        "tree_walker".to_owned()
    }
}

/// The arguments with which the map is made at `path`.
pub fn refresh_args(path: &str) -> (r: Vec<String>)
    ensures
        r.deep_view() == seq!["--output"@, path@],
{
    let mut r: Vec<String> = Vec::new();
    r.push("--output".to_owned());
    r.push(path.to_owned());
    assert(r.deep_view() =~= seq!["--output"@, path@]);
    r
}

/// The page shows its body as it is: the body can be read back out of the page.
pub proof fn law_page_shows_its_body(a: Seq<char>, b: Seq<char>, refreshing: bool)
    ensures
        page(a, refreshing) == page(b, refreshing) <==> a == b,
{
    let head = PAGE_HEAD@ + (if refreshing {
        REFRESHING@
    } else {
        Seq::empty()
    }) + PAGE_MIDDLE@;
    let pa = page(a, refreshing);
    let pb = page(b, refreshing);
    assert(pa.subrange(head.len() as int, head.len() as int + a.len()) =~= a);
    assert(pb.subrange(head.len() as int, head.len() as int + b.len()) =~= b);
    assert(pa.len() == head.len() + a.len() + PAGE_TAIL@.len());
    assert(pb.len() == head.len() + b.len() + PAGE_TAIL@.len());
}

/// The notice is the only difference between the page of a map and that of a map which is being
/// made anew.
pub proof fn law_notice_is_all_that_differs(body: Seq<char>)
    ensures
        page(body, false) == PAGE_HEAD@ + (PAGE_MIDDLE@ + body + PAGE_TAIL@),
        page(body, true) == PAGE_HEAD@ + REFRESHING@ + (PAGE_MIDDLE@ + body + PAGE_TAIL@),
{
    assert(page(body, false) =~= PAGE_HEAD@ + (PAGE_MIDDLE@ + body + PAGE_TAIL@));
    assert(page(body, true) =~= PAGE_HEAD@ + REFRESHING@ + (PAGE_MIDDLE@ + body + PAGE_TAIL@));
}

/// The page in full: the notice stands between the head and the middle exactly if the map is being
/// made anew, and the body stands between the middle and the end.
pub proof fn law_pages_in_full(
    body: &str,
    quiet: String,
    noted: String,
    content: &str,
    path: &str,
    there: String,
    missing: String,
    page_there: String,
    page_missing: String,
)
    requires
        call_ensures(render_page, (body, false), quiet),
        call_ensures(render_page, (body, true), noted),
        call_ensures(map_markdown, (Some(content), path), there),
        call_ensures(map_markdown, (None, path), missing),
        call_ensures(map_page, (Some(content), path), page_there),
        call_ensures(map_page, (None, path), page_missing),
    ensures
        quiet@ == PAGE_HEAD@ + PAGE_MIDDLE@ + body@ + PAGE_TAIL@,
        noted@ == PAGE_HEAD@ + REFRESHING@ + PAGE_MIDDLE@ + body@ + PAGE_TAIL@,
        there@ == content@,
        missing@ == "# EPS Code Map\n\nNo map found at `"@ + path@
            + "`.\n\nRun `tree_walker -o "@ + path@ + "` to generate it."@,
        page_there@ == PAGE_HEAD@ + PAGE_MIDDLE@ + markdown_html(content@) + PAGE_TAIL@,
        page_missing@ == PAGE_HEAD@ + PAGE_MIDDLE@ + markdown_html(missing@) + PAGE_TAIL@,
{
    assert(PAGE_HEAD@ + Seq::<char>::empty() =~= PAGE_HEAD@);
}

/// The notice, and the button with which the map is made anew.
pub proof fn law_page_has_its_parts()
    ensures
        REFRESHING@ == "<div class=\"status refreshing\">refreshing…</div>"@,
        PAGE_MIDDLE@ == "\n  </div>\n  <div class=\"content\">\n    "@,
        PAGE_TAIL@ == "\n  </div>\n  <div class=\"bottom-bar\">\n    <span class=\"bottom-label\">EPS Code Map</span>\n    <form class=\"refresh-form\" method=\"POST\" action=\"/map/refresh\">\n      <button class=\"refresh-btn\" type=\"submit\">↺ refresh</button>\n    </form>\n  </div>\n</body>\n</html>"@,
{
}

/// The program that makes the map: the one below the home directory if it is there, else the one
/// that the search path leads to; and where it is told to write.
pub proof fn law_how_the_map_is_made(
    home: Option<&str>,
    path: &str,
    usual: String,
    installed: String,
    searched: String,
    args: Vec<String>,
)
    requires
        call_ensures(tree_walker_path, (home,), usual),
        call_ensures(tree_walker_bin, (path, true), installed),
        call_ensures(tree_walker_bin, (path, false), searched),
        call_ensures(refresh_args, (path,), args),
    ensures
        home is None ==> usual@ == ".cargo/bin/tree_walker"@,
        home is Some && home->0@.len() > 0 && home->0@.last() != '/' ==> usual@ == home->0@
            + "/.cargo/bin/tree_walker"@,
        installed@ == path@,
        searched@ == "tree_walker"@,
        args.deep_view().len() == 2,
        args.deep_view()[0] == "--output"@,
        args.deep_view()[1] == path@,
{
    reveal_strlit("/");
    reveal_strlit(".cargo/bin/tree_walker");
    reveal_strlit("/.cargo/bin/tree_walker");
    assert(Seq::<char>::empty() + ".cargo/bin/tree_walker"@ =~= ".cargo/bin/tree_walker"@);
    assert("/"@ + ".cargo/bin/tree_walker"@ =~= "/.cargo/bin/tree_walker"@);
    if home is Some {
        assert(home->0@ + "/"@ + ".cargo/bin/tree_walker"@ =~= home->0@
            + "/.cargo/bin/tree_walker"@);
    }
}

} // verus!
