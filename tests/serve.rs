use rcli::listing::{render_listing, Child};
use rcli::path::resolve_url_path;
use rcli::router::{advance, begin, Action, Body, Event, ResolvedTarget, Response, Stage};

/// A small tree kept in memory: each entry is its path from the root and
/// whether it is a directory; files hold their path as their contents.
fn tree() -> Vec<(&'static str, bool)> {
    vec![
        ("index.html", false),
        ("sub", true),
        ("sub/a.txt", false),
        ("sub/deeper", true),
        ("sub/deeper/b.txt", false),
    ]
}

fn joined(segs: &[String]) -> String {
    segs.join("/")
}

fn inspect(entries: &[(&'static str, bool)], segs: &[String]) -> ResolvedTarget {
    let p = joined(segs);
    if p.is_empty() {
        return ResolvedTarget::Directory;
    }
    match entries.iter().find(|(name, _)| *name == p) {
        None => ResolvedTarget::Missing,
        Some((_, true)) => ResolvedTarget::Directory,
        Some((_, false)) => ResolvedTarget::File,
    }
}

fn list(entries: &[(&'static str, bool)], segs: &[String]) -> Vec<Child> {
    let p = joined(segs);
    let prefix = if p.is_empty() { String::new() } else { format!("{}/", p) };
    entries
        .iter()
        .filter(|(name, _)| name.starts_with(&prefix) && !name[prefix.len()..].contains('/'))
        .map(|(name, is_dir)| Child { name: name[prefix.len()..].to_string(), is_dir: *is_dir })
        .collect()
}

/// Runs one request to the end against `entries`.
fn serve(entries: &[(&'static str, bool)], url: &str) -> (Response, Vec<String>) {
    let mut seen = Vec::new();
    let (mut stage, mut action) = begin(url);
    loop {
        let event = match action {
            Action::Respond(r) => {
                assert!(matches!(stage, Stage::Done));
                return (r, seen);
            }
            Action::Inspect(segs) => {
                seen.push(format!("inspect {}", joined(&segs)));
                Event::Inspected(inspect(entries, &segs))
            }
            Action::ListDirectory(segs) => {
                seen.push(format!("list {}", joined(&segs)));
                Event::Listed(Ok(list(entries, &segs)))
            }
            Action::ReadFile(segs) => {
                seen.push(format!("read {}", joined(&segs)));
                Event::Read(Ok(joined(&segs).into_bytes()))
            }
        };
        let next = advance(stage, event);
        stage = next.0;
        action = next.1;
    }
}

fn html_of(r: &Response) -> String {
    match &r.body {
        Body::Html(s) => s.clone(),
        _ => panic!("not a listing"),
    }
}

fn text_of(r: &Response) -> String {
    match &r.body {
        Body::Text(s) => s.clone(),
        _ => panic!("not a text body"),
    }
}

fn segs(v: &[&str]) -> Vec<String> {
    v.iter().map(|s| s.to_string()).collect()
}

#[test]
fn test_index_handler() {
    let (r, _) = serve(&tree(), "index.html");
    assert_eq!(r.status, 200);
    match r.body {
        Body::Bytes(b) => assert_eq!(b, b"index.html".to_vec()),
        _ => panic!("not file contents"),
    }
}

#[test]
fn root_is_listed_with_its_entries() {
    let (r, _) = serve(&tree(), "/");
    assert_eq!(r.status, 200);
    assert_eq!(
        html_of(&r),
        "<html><body><ul>\n<li><a href=\"/index.html\">index.html</a></li>\n<li><a href=\"/sub\">sub/</a></li>\n</ul></body></html>"
    );
}

#[test]
fn missing_file_is_not_found() {
    let (r, _) = serve(&tree(), "/missing.txt");
    assert_eq!(r.status, 404);
    assert_eq!(text_of(&r), "404 Not Found");
}

#[test]
fn subdirectory_listing_links_to_its_parent() {
    let (r, _) = serve(&tree(), "/sub");
    assert_eq!(r.status, 200);
    assert_eq!(
        html_of(&r),
        "<html><body><ul>\n<li><a href=\"/\">..</a></li>\n<li><a href=\"/sub/a.txt\">a.txt</a></li>\n<li><a href=\"/sub/deeper\">deeper/</a></li>\n</ul></body></html>"
    );
    let (r, _) = serve(&tree(), "/sub/deeper/");
    assert!(html_of(&r).starts_with("<html><body><ul>\n<li><a href=\"/sub\">..</a></li>\n"));
}

#[test]
fn traversal_is_rejected_before_the_filesystem() {
    let (r, seen) = serve(&tree(), "/../../etc/passwd");
    assert_eq!(r.status, 404);
    assert_eq!(text_of(&r), "404 Not Found");
    assert!(seen.is_empty());
    let (r, seen) = serve(&tree(), "sub/../../etc/passwd");
    assert_eq!(r.status, 404);
    assert!(seen.is_empty());
}

#[test]
fn dot_segments_inside_the_root_are_followed() {
    let (r, seen) = serve(&tree(), "/sub/deeper/../a.txt");
    assert_eq!(r.status, 200);
    assert_eq!(seen, vec!["inspect sub/a.txt".to_string(), "read sub/a.txt".to_string()]);
    assert_eq!(resolve_url_path("//./sub//"), Some(segs(&["sub"])));
    assert_eq!(resolve_url_path(""), Some(vec![]));
    assert_eq!(resolve_url_path(".."), None);
    assert_eq!(resolve_url_path("a/.."), Some(vec![]));
}

#[test]
fn file_contents_are_sent_byte_for_byte() {
    let contents: Vec<u8> = vec![0, 159, 146, 150, 255, 10];
    let (stage, _) = begin("/bin.dat");
    let (stage, _) = advance(stage, Event::Inspected(ResolvedTarget::File));
    let (stage, action) = advance(stage, Event::Read(Ok(contents.clone())));
    assert!(matches!(stage, Stage::Done));
    match action {
        Action::Respond(Response { status: 200, body: Body::Bytes(b) }) => assert_eq!(b, contents),
        _ => panic!("expected the file's bytes"),
    }
}

#[test]
fn read_failures_give_server_errors() {
    let (stage, _) = begin("/locked");
    let (stage, _) = advance(stage, Event::Inspected(ResolvedTarget::Directory));
    let (_, action) = advance(stage, Event::Listed(Err("permission denied".to_string())));
    match action {
        Action::Respond(r) => {
            assert_eq!(r.status, 500);
            assert_eq!(text_of(&r), "Failed to read directory: permission denied");
        }
        _ => panic!("expected a response"),
    }
    let (stage, _) = begin("/gone.txt");
    let (stage, _) = advance(stage, Event::Inspected(ResolvedTarget::File));
    let (_, action) = advance(stage, Event::Read(Err("No such file or directory".to_string())));
    match action {
        Action::Respond(r) => {
            assert_eq!(r.status, 500);
            assert_eq!(text_of(&r), "No such file or directory");
        }
        _ => panic!("expected a response"),
    }
}

#[test]
fn report_out_of_turn_ends_the_request() {
    let (stage, _) = begin("/x");
    let (stage, action) = advance(stage, Event::Read(Ok(vec![1])));
    assert!(matches!(stage, Stage::Done));
    match action {
        Action::Respond(r) => assert_eq!(r.status, 500),
        _ => panic!("expected a response"),
    }
}

#[test]
fn listing_has_one_line_per_entry_and_one_to_go_up() {
    let children = vec![
        Child { name: "b".to_string(), is_dir: false },
        Child { name: "a".to_string(), is_dir: true },
        Child { name: "c".to_string(), is_dir: false },
    ];
    let top = render_listing(&vec![], &children);
    assert_eq!(top.matches("<li>").count(), 3);
    let below = render_listing(&segs(&["x", "y"]), &children);
    assert_eq!(below.matches("<li>").count(), 4);
    // filesystem order is kept, not sorted
    let b = below.find(">b<").unwrap();
    let a = below.find(">a/<").unwrap();
    assert!(b < a);
    assert!(below.contains("<li><a href=\"/x\">..</a></li>"));
    assert!(below.contains("<li><a href=\"/x/y/a\">a/</a></li>"));
    let empty = render_listing(&vec![], &vec![]);
    assert_eq!(empty, "<html><body><ul>\n</ul></body></html>");
}

#[test]
fn parent_link_leads_to_the_parent_directory() {
    let tree = tree();
    let (r, _) = serve(&tree, "/sub/deeper");
    let html = html_of(&r);
    let start = html.find("<li><a href=\"").unwrap() + "<li><a href=\"".len();
    let end = start + html[start..].find('"').unwrap();
    let up = &html[start..end];
    assert_eq!(up, "/sub");
    assert_eq!(resolve_url_path(up), Some(segs(&["sub"])));
    let (r, _) = serve(&tree, up);
    assert!(html_of(&r).contains("<li><a href=\"/sub/deeper\">deeper/</a></li>"));
}
