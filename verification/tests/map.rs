use observatory::map::{
    map_markdown, map_page, refresh_args, render_page, tree_walker_bin, tree_walker_path,
};

#[test]
fn a_page_shows_its_body() {
    let page = render_page("<p>hello</p>", false);
    assert!(page.starts_with("<!DOCTYPE html>\n<html lang=\"en\">\n<head>\n"));
    assert!(page.ends_with("</body>\n</html>"));
    assert!(page.contains("  <div class=\"content\">\n    <p>hello</p>\n  </div>\n"));
    assert!(page.contains("    body {\n      background: #0f0f1a;\n"));
    assert!(page.contains("<title>EPS Map — Observatory</title>"));
    assert!(!page.contains("refreshing…"));
    assert!(!page.contains("{{"));
}

#[test]
fn a_notice_stands_on_a_page_that_is_being_made_anew() {
    let plain = render_page("x", false);
    let busy = render_page("x", true);
    let notice = r#"<div class="status refreshing">refreshing…</div>"#;
    assert!(busy.contains(&format!("← Observatory</a>\n    {notice}\n  </div>\n")));
    assert_eq!(busy.replace(notice, ""), plain);
}

#[test]
fn a_map_is_rendered() {
    let page = map_page(Some("# Map\n\n`a` & *b*\n"), "/m.md");
    assert_eq!(page, render_page("<h1>Map</h1>\n<p><code>a</code> &amp; <em>b</em></p>\n", false));
    let table = map_page(Some("| a |\n|---|\n| b |\n"), "/m.md");
    assert!(!table.contains("<table>"));
}

#[test]
fn a_missing_map_is_reported() {
    assert_eq!(map_markdown(Some("x"), "/m.md"), "x");
    assert_eq!(
        map_markdown(None, "/m.md"),
        "# EPS Code Map\n\nNo map found at `/m.md`.\n\nRun `tree_walker -o /m.md` to generate it."
    );
    let page = map_page(None, "/m.md");
    assert!(page.contains("<p>No map found at <code>/m.md</code>.</p>"));
    assert!(page.contains("<p>Run <code>tree_walker -o /m.md</code> to generate it.</p>"));
}

#[test]
fn the_program_that_makes_the_map() {
    assert_eq!(tree_walker_path(Some("/home/eps")), "/home/eps/.cargo/bin/tree_walker");
    assert_eq!(tree_walker_path(None), ".cargo/bin/tree_walker");
    assert_eq!(tree_walker_bin("/x/tree_walker", true), "/x/tree_walker");
    assert_eq!(tree_walker_bin("/x/tree_walker", false), "tree_walker");
    assert_eq!(refresh_args("/m.md"), ["--output", "/m.md"]);
}
