//! The HTML page that lists one directory of the served tree.
use vstd::prelude::*;

use crate::path::{all_plain, is_plain_name, lemma_url_of_resolves, resolve_spec, slashed, url_of, views};

verus! {

/// One entry of a directory as the filesystem reports it.
pub struct Child {
    pub name: String,
    pub is_dir: bool,
}

/// One line of a listing: the text shown and the link it points to.
pub struct DirectoryEntry {
    pub display_name: String,
    pub is_directory: bool,
    pub relative_href: String,
}

/// What a listing shows for an entry: its name, with a `/` after it for a
/// directory.
pub open spec fn display_name_of(c: Child) -> Seq<char> {
    if c.is_dir {
        c.name@.push('/')
    } else {
        c.name@
    }
}

/// The link to an entry of the directory at `at`.
pub open spec fn child_href(at: Seq<Seq<char>>, c: Child) -> Seq<char> {
    slashed(at.push(c.name@))
}

/// The link to the directory that holds the one at `at`.
pub open spec fn parent_href(at: Seq<Seq<char>>) -> Seq<char> {
    url_of(at.drop_last())
}

/// One `<li>` line that links `text` to `href`.
pub open spec fn item_line(href: Seq<char>, text: Seq<char>) -> Seq<char> {
    "<li><a href=\""@ + href + "\">"@ + text + "</a></li>\n"@
}

/// The line for one entry of the directory at `at`.
pub open spec fn child_line(at: Seq<Seq<char>>, c: Child) -> Seq<char> {
    item_line(child_href(at, c), display_name_of(c))
}

/// The line that leads one level up.
pub open spec fn parent_line(at: Seq<Seq<char>>) -> Seq<char> {
    item_line(parent_href(at), ".."@)
}

/// The lines of a listing: the way up unless `at` is the top, then one line
/// per entry in the order given.
pub open spec fn listing_lines(at: Seq<Seq<char>>, children: Seq<Child>) -> Seq<Seq<char>> {
    let up = if at.len() > 0 {
        seq![parent_line(at)]
    } else {
        Seq::empty()
    };
    up + Seq::new(children.len(), |i: int| child_line(at, children[i]))
}

/// The lines one after the other.
pub open spec fn concat_lines(lines: Seq<Seq<char>>) -> Seq<char>
    decreases lines.len(),
{
    if lines.len() == 0 {
        Seq::empty()
    } else {
        concat_lines(lines.drop_last()) + lines.last()
    }
}

/// The whole page for the directory at `at` holding `children`.
pub open spec fn listing_html(at: Seq<Seq<char>>, children: Seq<Child>) -> Seq<char> {
    "<html><body><ul>\n"@ + concat_lines(listing_lines(at, children)) + "</ul></body></html>"@
}

/// A listing page holds one `<li>` line per entry of the directory, in the
/// order given, and one more that leads up unless the directory is the root.
pub proof fn lemma_listing_one_line_per_entry(at: Seq<Seq<char>>, children: Seq<Child>)
    ensures
        ({
            let lines = listing_lines(at, children);
            let up: int = if at.len() > 0 { 1 } else { 0 };
            &&& lines.len() == children.len() + up
            &&& at.len() > 0 ==> lines[0] == parent_line(at)
            &&& forall|i: int| 0 <= i < children.len() ==> lines[up + i] == child_line(at, #[trigger] children[i])
            &&& listing_html(at, children) == "<html><body><ul>\n"@ + concat_lines(lines)
                + "</ul></body></html>"@
            &&& listing_html(at, children).len() > 0
        }),
{
    reveal_strlit("<html><body><ul>\n");
}

/// A request for the root, written as the empty path or as `/`, resolves to
/// the root itself, and the root's listing holds exactly one line per entry
/// and no way up.
pub proof fn lemma_root_listing(children: Seq<Child>)
    ensures
        resolve_spec(Seq::empty()) == Some(Seq::<Seq<char>>::empty()),
        resolve_spec(seq!['/']) == Some(Seq::<Seq<char>>::empty()),
        listing_lines(Seq::empty(), children).len() == children.len(),
        forall|i: int|
            0 <= i < children.len() ==> listing_lines(Seq::empty(), children)[i] == child_line(
                Seq::empty(),
                #[trigger] children[i],
            ),
{
    let top = Seq::<Seq<char>>::empty();
    assert(all_plain(top));
    lemma_url_of_resolves(top);
    assert(url_of(top) == seq!['/']);
    assert(slashed(top) == Seq::<char>::empty());
    let e = Seq::<char>::empty();
    assert(crate::path::fields(e) == seq![e]);
    assert(seq![e].drop_last() =~= top);
    assert(crate::path::walk(seq![e].drop_last()) == Some(top));
    assert(seq![e].last() == e);
    assert(listing_lines(top, children) =~= Seq::new(
        children.len(),
        |i: int| child_line(top, children[i]),
    ));
}

/// Following the way-up link of a listing below the root leads to the
/// directory one level up, and following the link of an entry with a plain
/// name leads to that entry.
pub proof fn lemma_listing_links_round_trip(at: Seq<Seq<char>>, children: Seq<Child>)
    requires
        all_plain(at),
    ensures
        at.len() > 0 ==> listing_lines(at, children)[0] == item_line(parent_href(at), ".."@),
        at.len() > 0 ==> resolve_spec(parent_href(at)) == Some(at.drop_last()),
        forall|i: int|
            0 <= i < children.len() && is_plain_name(children[i].name@) ==> resolve_spec(
                #[trigger] child_href(at, children[i]),
            ) == Some(at.push(children[i].name@)),
{
    if at.len() > 0 {
        assert(all_plain(at.drop_last())) by {
            assert forall|k: int| 0 <= k < at.drop_last().len() implies is_plain_name(
                #[trigger] at.drop_last()[k],
            ) by {
                assert(at.drop_last()[k] == at[k]);
            }
        }
        lemma_url_of_resolves(at.drop_last());
    }
    assert forall|i: int|
        0 <= i < children.len() && is_plain_name(children[i].name@) implies resolve_spec(
        #[trigger] child_href(at, children[i]),
    ) == Some(at.push(children[i].name@)) by {
        let below = at.push(children[i].name@);
        assert(all_plain(below)) by {
            assert forall|k: int| 0 <= k < below.len() implies is_plain_name(#[trigger] below[k]) by {
                if k < at.len() {
                    assert(below[k] == at[k]);
                }
            }
        }
        lemma_url_of_resolves(below);
    }
}

/// Appends `slashed` of the first `upto` names of `segs`.
fn push_slashed(out: &mut String, segs: &Vec<String>, upto: usize)
    requires
        upto <= segs.len(),
    ensures
        final(out)@ == old(out)@ + slashed(views(segs@).subrange(0, upto as int)),
{
    let ghost start = out@;
    let mut k: usize = 0;
    assert(views(segs@).subrange(0, 0) =~= Seq::<Seq<char>>::empty());
    assert(start + Seq::<char>::empty() =~= start);
    while k < upto
        invariant
            k <= upto <= segs.len(),
            out@ == start + slashed(views(segs@).subrange(0, k as int)),
        decreases upto - k,
    {
        out.append("/");
        out.append(segs[k].as_str());
        proof {
            let pre = views(segs@).subrange(0, k + 1);
            assert(pre.drop_last() =~= views(segs@).subrange(0, k as int));
            assert(pre.last() == segs@[k as int]@);
            assert(seq!['/'] =~= "/"@) by {
                reveal_strlit("/");
            }
            assert(out@ =~= start + slashed(pre));
        }
        k = k + 1;
    }
}

/// The request path of the first `upto` names of `segs`.
fn url_of_prefix(segs: &Vec<String>, upto: usize) -> (r: String)
    requires
        upto <= segs.len(),
    ensures
        r@ == url_of(views(segs@).subrange(0, upto as int)),
{
    let mut r = String::new();
    if upto == 0 {
        r.append("/");
        proof {
            reveal_strlit("/");
            assert(r@ =~= seq!['/']);
        }
    } else {
        push_slashed(&mut r, segs, upto);
        assert(Seq::<char>::empty() + slashed(views(segs@).subrange(0, upto as int)) =~= slashed(
            views(segs@).subrange(0, upto as int),
        ));
    }
    r
}

/// The listing line for `child`, an entry of the directory at `at`.
pub fn directory_entry(at: &Vec<String>, child: &Child) -> (e: DirectoryEntry)
    ensures
        e.display_name@ == display_name_of(*child),
        e.is_directory == child.is_dir,
        e.relative_href@ == child_href(views(at@), *child),
{
    let mut href = String::new();
    push_slashed(&mut href, at, at.len());
    href.append("/");
    href.append(child.name.as_str());
    let mut display_name = String::new();
    display_name.append(child.name.as_str());
    if child.is_dir {
        display_name.append("/");
    }
    proof {
        reveal_strlit("/");
        let v = views(at@);
        assert(v.subrange(0, v.len() as int) =~= v);
        assert(v.push(child.name@).drop_last() =~= v);
        assert(href@ =~= child_href(v, *child));
        assert(display_name@ =~= display_name_of(*child));
    }
    DirectoryEntry { display_name, is_directory: child.is_dir, relative_href: href }
}

/// Appends the `<li>` line that links `text` to `href`.
fn push_item(out: &mut String, href: &str, text: &str)
    ensures
        final(out)@ == old(out)@ + item_line(href@, text@),
{
    out.append("<li><a href=\"");
    out.append(href);
    out.append("\">");
    out.append(text);
    out.append("</a></li>\n");
    assert(final(out)@ =~= old(out)@ + item_line(href@, text@));
}

proof fn lemma_concat_push(lines: Seq<Seq<char>>, k: int)
    requires
        0 <= k < lines.len(),
    ensures
        concat_lines(lines.subrange(0, k + 1)) == concat_lines(lines.subrange(0, k)) + lines[k],
{
    assert(lines.subrange(0, k + 1).drop_last() =~= lines.subrange(0, k));
}

/// The listing page for the directory at `at`, whose entries are `children`
/// in the order the filesystem gave them.
pub fn render_listing(at: &Vec<String>, children: &Vec<Child>) -> (html: String)
    ensures
        html@ == listing_html(views(at@), children@),
{
    let ghost v = views(at@);
    let ghost lines = listing_lines(v, children@);
    let mut html = String::new();
    html.append("<html><body><ul>\n");
    let ghost head = html@;
    let mut base: usize = 0;
    assert(lines.subrange(0, 0) =~= Seq::<Seq<char>>::empty());
    assert(html@ =~= head + concat_lines(lines.subrange(0, 0)));
    if at.len() > 0 {
        let up = url_of_prefix(at, at.len() - 1);
        push_item(&mut html, up.as_str(), "..");
        proof {
            assert(v.subrange(0, at.len() - 1) =~= v.drop_last());
            assert(lines[0] == parent_line(v));
            lemma_concat_push(lines, 0);
            assert(html@ =~= head + concat_lines(lines.subrange(0, 1)));
        }
        base = 1;
    }
    let mut i: usize = 0;
    while i < children.len()
        invariant
            v == views(at@),
            lines == listing_lines(v, children@),
            base == (if at.len() > 0 { 1usize } else { 0usize }),
            i <= children.len(),
            lines.len() == base + children.len(),
            html@ == head + concat_lines(lines.subrange(0, base + i)),
        decreases children.len() - i,
    {
        let e = directory_entry(at, &children[i]);
        push_item(&mut html, e.relative_href.as_str(), e.display_name.as_str());
        proof {
            assert(lines[base + i] == child_line(v, children@[i as int]));
            lemma_concat_push(lines, base + i);
            assert(html@ =~= head + concat_lines(lines.subrange(0, base + i + 1)));
        }
        i = i + 1;
    }
    html.append("</ul></body></html>");
    assert(lines.subrange(0, lines.len() as int) =~= lines);
    assert(html@ =~= listing_html(v, children@));
    html
}

} // verus!
