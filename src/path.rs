//! Mapping a request path onto the served tree.
//!
//! A request path is cut at each `/` into fields. Empty fields and `.` are
//! skipped, `..` steps back one level and any other field steps into a child.
//! A `..` taken at the top of the tree would leave it: such a path resolves to
//! nothing at all, exactly as a path that names no entry.
use vstd::prelude::*;

verus! {

/// The fields of `s` between its `/` characters, empty ones included.
pub open spec fn fields(s: Seq<char>) -> Seq<Seq<char>>
    decreases s.len(),
{
    if s.len() == 0 {
        seq![Seq::empty()]
    } else {
        let f = fields(s.drop_last());
        if s.last() == '/' {
            f.push(Seq::empty())
        } else {
            f.update(f.len() - 1, f.last().push(s.last()))
        }
    }
}

/// A name that stands for one entry of a directory: not empty, neither `.`
/// nor `..`, and free of `/`.
pub open spec fn is_plain_name(f: Seq<char>) -> bool {
    &&& f.len() > 0
    &&& f != seq!['.']
    &&& f != seq!['.', '.']
    &&& !f.contains('/')
}

/// Every field of `segs` is a plain name.
pub open spec fn all_plain(segs: Seq<Seq<char>>) -> bool {
    forall|k: int| 0 <= k < segs.len() ==> is_plain_name(#[trigger] segs[k])
}

/// Where one field leads from the directory reached by `at`.
pub open spec fn follow(at: Seq<Seq<char>>, f: Seq<char>) -> Option<Seq<Seq<char>>> {
    if f.len() == 0 || f == seq!['.'] {
        Some(at)
    } else if f == seq!['.', '.'] {
        if at.len() == 0 {
            None
        } else {
            Some(at.drop_last())
        }
    } else {
        Some(at.push(f))
    }
}

/// Where a run of fields leads from the top of the tree; `None` once a field
/// climbs above it.
pub open spec fn walk(fs: Seq<Seq<char>>) -> Option<Seq<Seq<char>>>
    decreases fs.len(),
{
    if fs.len() == 0 {
        Some(Seq::empty())
    } else {
        match walk(fs.drop_last()) {
            Some(at) => follow(at, fs.last()),
            None => None,
        }
    }
}

/// The entry names, from the top of the tree down, that a request path leads
/// to, or `None` where it would leave the tree.
pub open spec fn resolve_spec(url: Seq<char>) -> Option<Seq<Seq<char>>> {
    walk(fields(url))
}

/// The character sequences that a vector of strings holds.
pub open spec fn views(v: Seq<String>) -> Seq<Seq<char>> {
    Seq::new(v.len(), |i: int| v[i]@)
}

/// The link text of a location below the top: `/` before each name.
pub open spec fn slashed(segs: Seq<Seq<char>>) -> Seq<char>
    decreases segs.len(),
{
    if segs.len() == 0 {
        Seq::empty()
    } else {
        slashed(segs.drop_last()) + seq!['/'] + segs.last()
    }
}

/// The request path that names a location: `/` for the top itself.
pub open spec fn url_of(segs: Seq<Seq<char>>) -> Seq<char> {
    if segs.len() == 0 {
        seq!['/']
    } else {
        slashed(segs)
    }
}

/// Cutting after a `/` adds one field: the text that follows it.
proof fn lemma_fields_after_slash(x: Seq<char>, b: Seq<char>)
    requires
        !b.contains('/'),
    ensures
        fields(x + seq!['/'] + b) == fields(x).push(b),
    decreases b.len(),
{
    let s = x + seq!['/'] + b;
    if b.len() == 0 {
        assert(s =~= x.push('/'));
        assert(s.drop_last() =~= x);
        assert(s.last() == '/');
        assert(b =~= Seq::<char>::empty());
    } else {
        let b0 = b.drop_last();
        assert(!b0.contains('/')) by {
            assert forall|k: int| 0 <= k < b0.len() implies b0[k] != '/' by {
                assert(b0[k] == b[k]);
            }
        }
        lemma_fields_after_slash(x, b0);
        assert(s.drop_last() =~= x + seq!['/'] + b0);
        assert(s.last() == b.last());
        assert(b0.push(b.last()) =~= b);
        assert(fields(s) =~= fields(x).push(b));
    }
}

/// A location written with a `/` before each plain name leads back to it.
proof fn lemma_slashed_resolves(segs: Seq<Seq<char>>)
    requires
        all_plain(segs),
    ensures
        walk(fields(slashed(segs))) == Some(segs),
    decreases segs.len(),
{
    if segs.len() == 0 {
        let e = Seq::<char>::empty();
        assert(slashed(segs) == e);
        assert(fields(e) == seq![e]);
        assert(seq![e].drop_last() =~= Seq::<Seq<char>>::empty());
        let top = Seq::<Seq<char>>::empty();
        assert(walk(seq![e].drop_last()) == Some(top));
        assert(seq![e].last() == e);
        assert(walk(seq![e]) == follow(top, e));
        assert(segs =~= Seq::<Seq<char>>::empty());
    } else {
        let init = segs.drop_last();
        assert(all_plain(init)) by {
            assert forall|k: int| 0 <= k < init.len() implies is_plain_name(#[trigger] init[k]) by {
                assert(init[k] == segs[k]);
            }
        }
        assert(is_plain_name(segs[segs.len() - 1]));
        lemma_slashed_resolves(init);
        lemma_fields_after_slash(slashed(init), segs.last());
        let fs = fields(slashed(segs));
        assert(fs.drop_last() =~= fields(slashed(init)));
        assert(init.push(segs.last()) =~= segs);
    }
}

/// The request path of a location made of plain names resolves to exactly
/// that location.
pub proof fn lemma_url_of_resolves(segs: Seq<Seq<char>>)
    requires
        all_plain(segs),
    ensures
        resolve_spec(url_of(segs)) == Some(segs),
{
    if segs.len() == 0 {
        let s = seq!['/'];
        assert(s.drop_last() =~= Seq::<char>::empty());
        assert(s.last() == '/');
        let e = Seq::<char>::empty();
        assert(fields(e) == seq![e]);
        let fs = fields(s);
        assert(fs == seq![e].push(e));
        assert(fs.drop_last() =~= seq![e]);
        assert(seq![e].drop_last() =~= Seq::<Seq<char>>::empty());
        let top = Seq::<Seq<char>>::empty();
        assert(walk(seq![e].drop_last()) == Some(top));
        assert(seq![e].last() == e);
        assert(walk(seq![e]) == follow(top, e));
        assert(segs =~= Seq::<Seq<char>>::empty());
    } else {
        lemma_slashed_resolves(segs);
    }
}

fn is_dot(f: &str) -> (r: bool)
    ensures
        r == (f@ == seq!['.']),
{
    if f.unicode_len() == 1 {
        let c = f.get_char(0);
        if c == '.' {
            assert(f@ =~= seq!['.']);
        }
        c == '.'
    } else {
        false
    }
}

fn is_dot_dot(f: &str) -> (r: bool)
    ensures
        r == (f@ == seq!['.', '.']),
{
    if f.unicode_len() == 2 {
        let c0 = f.get_char(0);
        let c1 = f.get_char(1);
        if c0 == '.' && c1 == '.' {
            assert(f@ =~= seq!['.', '.']);
        }
        c0 == '.' && c1 == '.'
    } else {
        false
    }
}

/// One field applied to the walk so far: `stack` holds where it stands and
/// `escaped` whether it has left the tree.
fn enter_field(stack: &mut Vec<String>, escaped: &mut bool, f: &str, Ghost(done): Ghost<
    Seq<Seq<char>>,
>)
    requires
        *old(escaped) ==> walk(done) is None,
        !*old(escaped) ==> walk(done) == Some(views(old(stack)@)),
        all_plain(views(old(stack)@)),
        !f@.contains('/'),
    ensures
        *final(escaped) ==> walk(done.push(f@)) is None,
        !*final(escaped) ==> walk(done.push(f@)) == Some(views(final(stack)@)),
        all_plain(views(final(stack)@)),
{
    assert(done.push(f@).drop_last() =~= done);
    assert(done.push(f@).last() == f@);
    if *escaped {
    } else if is_dot_dot(f) {
        assert(walk(done.push(f@)) == follow(views(stack@), f@));
        if stack.len() == 0 {
            *escaped = true;
        } else {
            let ghost prev = stack@;
            let _ = stack.pop();
            assert(views(stack@) =~= views(prev).drop_last());
        }
    } else if f.unicode_len() != 0 && !is_dot(f) {
        let ghost prev = stack@;
        stack.push(String::from_str(f));
        assert(views(stack@) =~= views(prev).push(f@));
        assert(walk(done.push(f@)) == follow(views(prev), f@));
    } else {
        assert(walk(done.push(f@)) == follow(views(stack@), f@));
    }
}

/// Resolves a request path against the top of the served tree: the names of
/// the entries it leads through, or `None` where a `..` would climb above the
/// top. Each returned name is a plain name, so joining them onto the root
/// never leaves it.
pub fn resolve_url_path(url_path: &str) -> (r: Option<Vec<String>>)
    ensures
        r is None <==> resolve_spec(url_path@) is None,
        r matches Some(segs) ==> Some(views(segs@)) == resolve_spec(url_path@),
        r matches Some(segs) ==> all_plain(views(segs@)),
{
    let n = url_path.unicode_len();
    let mut stack: Vec<String> = Vec::new();
    let mut escaped = false;
    let mut start: usize = 0;
    let ghost mut done: Seq<Seq<char>> = Seq::empty();
    assert(url_path@.subrange(0, 0) =~= Seq::<char>::empty());
    assert(views(stack@) =~= Seq::<Seq<char>>::empty());
    let mut i: usize = 0;
    while i < n
        invariant
            n == url_path@.len(),
            start <= i <= n,
            fields(url_path@.subrange(0, i as int)) == done.push(
                url_path@.subrange(start as int, i as int),
            ),
            forall|k: int| start <= k < i ==> url_path@[k] != '/',
            escaped ==> walk(done) is None,
            !escaped ==> walk(done) == Some(views(stack@)),
            all_plain(views(stack@)),
        decreases n - i,
    {
        let s1 = Ghost(url_path@.subrange(0, i + 1));
        assert(s1@.drop_last() =~= url_path@.subrange(0, i as int));
        if url_path.get_char(i) == '/' {
            let f = url_path.substring_char(start, i);
            assert(!f@.contains('/')) by {
                assert forall|k: int| 0 <= k < f@.len() implies f@[k] != '/' by {
                    assert(f@[k] == url_path@[start + k]);
                }
            }
            enter_field(&mut stack, &mut escaped, f, Ghost(done));
            proof {
                done = done.push(f@);
            }
            assert(url_path@.subrange((i + 1) as int, (i + 1) as int) =~= Seq::<char>::empty());
            start = i + 1;
        } else {
            assert(url_path@.subrange(start as int, i + 1) =~= url_path@.subrange(
                start as int,
                i as int,
            ).push(url_path@[i as int]));
        }
        i = i + 1;
    }
    let f = url_path.substring_char(start, n);
    assert(!f@.contains('/')) by {
        assert forall|k: int| 0 <= k < f@.len() implies f@[k] != '/' by {
            assert(f@[k] == url_path@[start + k]);
        }
    }
    enter_field(&mut stack, &mut escaped, f, Ghost(done));
    assert(url_path@.subrange(0, n as int) =~= url_path@);
    if escaped {
        None
    } else {
        Some(stack)
    }
}

} // verus!
