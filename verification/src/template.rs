//! Path templates and the grammar of the paths they accept.
//!
//! A template is a sequence of pieces: fixed text, and parameters that each
//! stand for one path segment, that is a possibly empty run of characters
//! none of which is `/`, `?` or `#`. A path matches a template when some
//! choice of segments, put in place of the parameters, spells the path.
use vstd::prelude::*;

verus! {

/// A piece of a path template, as it is held at run time.
pub enum Piece {
    /// Fixed text that the path must hold at this place.
    Lit(&'static str),
    /// One path segment, captured as a parameter.
    Param,
}

/// A piece of a path template, as the contracts speak of it.
pub enum SpecPiece {
    Lit(Seq<char>),
    Param,
}

impl View for Piece {
    type V = SpecPiece;

    open spec fn view(&self) -> SpecPiece {
        match self {
            Piece::Lit(s) => SpecPiece::Lit(s@),
            Piece::Param => SpecPiece::Param,
        }
    }
}

/// The pieces of a run-time template, as the contracts speak of them.
pub open spec fn pieces_view(ps: Seq<Piece>) -> Seq<SpecPiece> {
    ps.map_values(|p: Piece| p@)
}

/// The views of a sequence of strings.
pub open spec fn strings_view(v: Seq<String>) -> Seq<Seq<char>> {
    v.map_values(|s: String| s@)
}

/// The characters that end a path segment.
pub open spec fn is_delim(c: char) -> bool {
    c == '/' || c == '?' || c == '#'
}

/// A path segment: no character of it ends a segment.
pub open spec fn is_segment(s: Seq<char>) -> bool {
    forall|i: int| 0 <= i < s.len() ==> !is_delim(#[trigger] s[i])
}

/// Every value is a path segment.
pub open spec fn all_segments(vals: Seq<Seq<char>>) -> bool {
    forall|i: int| 0 <= i < vals.len() ==> is_segment(#[trigger] vals[i])
}

/// The number of parameters of a template.
pub open spec fn param_count(ps: Seq<SpecPiece>) -> nat
    decreases ps.len(),
{
    if ps.len() == 0 {
        0
    } else {
        match ps[0] {
            SpecPiece::Lit(_) => param_count(ps.drop_first()),
            SpecPiece::Param => 1 + param_count(ps.drop_first()),
        }
    }
}

/// The path that a template spells when its parameters take the given values, in order.
pub open spec fn fill(ps: Seq<SpecPiece>, vals: Seq<Seq<char>>) -> Seq<char>
    decreases ps.len(),
{
    if ps.len() == 0 {
        Seq::empty()
    } else {
        match ps[0] {
            SpecPiece::Lit(l) => l + fill(ps.drop_first(), vals),
            SpecPiece::Param => vals[0] + fill(ps.drop_first(), vals.drop_first()),
        }
    }
}

/// Values for the parameters of a template: one segment for each of them.
pub open spec fn fits(ps: Seq<SpecPiece>, vals: Seq<Seq<char>>) -> bool {
    vals.len() == param_count(ps) && all_segments(vals)
}

/// A path matches a template when some values for its parameters spell it.
pub open spec fn template_matches(ps: Seq<SpecPiece>, path: Seq<char>) -> bool {
    exists|vals: Seq<Seq<char>>| fits(ps, vals) && #[trigger] fill(ps, vals) == path
}

/// A template that the greedy reading below reads right: its fixed texts are
/// not empty, and a parameter is last or followed by fixed text that starts with `/`.
pub open spec fn template_wf(ps: Seq<SpecPiece>) -> bool {
    &&& forall|i: int|
        0 <= i < ps.len() && (#[trigger] ps[i]) is Lit ==> ps[i]->Lit_0.len() > 0
    &&& forall|i: int|
        0 <= i < ps.len() - 1 && (#[trigger] ps[i]) is Param ==> {
            &&& ps[i + 1] is Lit
            &&& ps[i + 1]->Lit_0[0] == '/'
        }
}

/// The length of the longest prefix of `s` that is a path segment.
pub open spec fn seg_len(s: Seq<char>) -> nat
    decreases s.len(),
{
    if s.len() == 0 || is_delim(s[0]) {
        0
    } else {
        1 + seg_len(s.drop_first())
    }
}

/// The greedy reading of a path against a template: fixed text must stand
/// where it is due, and a parameter takes the longest segment that follows.
pub open spec fn scan(ps: Seq<SpecPiece>, path: Seq<char>) -> Option<Seq<Seq<char>>>
    decreases ps.len(),
{
    if ps.len() == 0 {
        if path.len() == 0 {
            Some(Seq::empty())
        } else {
            None
        }
    } else {
        match ps[0] {
            SpecPiece::Lit(l) => if l.len() <= path.len() && path.take(l.len() as int) == l {
                scan(ps.drop_first(), path.skip(l.len() as int))
            } else {
                None
            },
            SpecPiece::Param => {
                let k = seg_len(path);
                match scan(ps.drop_first(), path.skip(k as int)) {
                    Some(vs) => Some(seq![path.take(k as int)] + vs),
                    None => None,
                }
            },
        }
    }
}

/// `acc` put before what `r` holds, if anything.
pub open spec fn prepend(acc: Seq<Seq<char>>, r: Option<Seq<Seq<char>>>) -> Option<Seq<Seq<char>>> {
    match r {
        Some(v) => Some(acc + v),
        None => None,
    }
}

pub proof fn lemma_seg_len_bound(s: Seq<char>)
    ensures
        seg_len(s) <= s.len(),
        is_segment(s.take(seg_len(s) as int)),
        seg_len(s) < s.len() ==> is_delim(s[seg_len(s) as int]),
    decreases s.len(),
{
    if s.len() != 0 && !is_delim(s[0]) {
        lemma_seg_len_bound(s.drop_first());
        let k = seg_len(s);
        assert forall|i: int| 0 <= i < k implies !is_delim(#[trigger] s.take(k as int)[i]) by {
            if i > 0 {
                assert(s.take(k as int)[i] == s.drop_first().take(k - 1)[i - 1]);
            }
        }
        if k < s.len() {
            assert(s[k as int] == s.drop_first()[k - 1]);
        }
    }
}

/// `seg_len` is the place of the first character that ends a segment, or the length.
pub proof fn lemma_seg_len_exact(s: Seq<char>, k: int)
    requires
        0 <= k <= s.len(),
        forall|i: int| 0 <= i < k ==> !is_delim(#[trigger] s[i]),
        k == s.len() || is_delim(s[k]),
    ensures
        seg_len(s) == k,
    decreases k,
{
    if k > 0 {
        let t = s.drop_first();
        assert forall|i: int| 0 <= i < k - 1 implies !is_delim(#[trigger] t[i]) by {
            assert(t[i] == s[i + 1]);
        }
        if k < s.len() {
            assert(t[k - 1] == s[k]);
        }
        lemma_seg_len_exact(t, k - 1);
    }
}

/// A segment followed by nothing, or by a character that ends segments, is read whole.
pub proof fn lemma_seg_len_concat(a: Seq<char>, b: Seq<char>)
    requires
        is_segment(a),
        b.len() == 0 || is_delim(b[0]),
    ensures
        seg_len(a + b) == a.len(),
{
    let s = a + b;
    assert forall|i: int| 0 <= i < a.len() implies !is_delim(#[trigger] s[i]) by {
        assert(s[i] == a[i]);
    }
    if a.len() < s.len() {
        assert(s[a.len() as int] == b[0]);
    }
    lemma_seg_len_exact(s, a.len() as int);
}

/// What the greedy reading finds is a fitting choice of values that spells the path.
pub proof fn lemma_scan_sound(ps: Seq<SpecPiece>, path: Seq<char>)
    ensures
        scan(ps, path) matches Some(vs) ==> fits(ps, vs) && fill(ps, vs) == path,
    decreases ps.len(),
{
    if ps.len() > 0 {
        let rest = ps.drop_first();
        match ps[0] {
            SpecPiece::Lit(l) => {
                if l.len() <= path.len() && path.take(l.len() as int) == l {
                    lemma_scan_sound(rest, path.skip(l.len() as int));
                    assert(path =~= l + path.skip(l.len() as int));
                }
            },
            SpecPiece::Param => {
                let k = seg_len(path);
                lemma_seg_len_bound(path);
                lemma_scan_sound(rest, path.skip(k as int));
                if let Some(vs) = scan(rest, path.skip(k as int)) {
                    let all = seq![path.take(k as int)] + vs;
                    assert(all.drop_first() =~= vs);
                    assert(all[0] == path.take(k as int));
                    assert forall|i: int| 0 <= i < all.len() implies is_segment(#[trigger] all[i]) by {
                        if i > 0 {
                            assert(all[i] == vs[i - 1]);
                        }
                    }
                    assert(path =~= path.take(k as int) + path.skip(k as int));
                }
            },
        }
    }
}

/// Spelled text starts with the first piece's fixed text.
proof fn lemma_fill_starts_with_slash(ps: Seq<SpecPiece>, vals: Seq<Seq<char>>)
    requires
        ps.len() > 0,
        ps[0] is Lit,
        ps[0]->Lit_0.len() > 0,
        ps[0]->Lit_0[0] == '/',
    ensures
        fill(ps, vals).len() > 0,
        fill(ps, vals)[0] == '/',
{
    let l = ps[0]->Lit_0;
    assert(fill(ps, vals) == l + fill(ps.drop_first(), vals));
    assert((l + fill(ps.drop_first(), vals))[0] == l[0]);
}

proof fn lemma_wf_rest(ps: Seq<SpecPiece>)
    requires
        ps.len() > 0,
        template_wf(ps),
    ensures
        template_wf(ps.drop_first()),
{
    let r = ps.drop_first();
    assert forall|i: int| 0 <= i < r.len() && (#[trigger] r[i]) is Lit implies r[i]->Lit_0.len() > 0 by {
        assert(r[i] == ps[i + 1]);
    }
    assert forall|i: int| 0 <= i < r.len() - 1 && (#[trigger] r[i]) is Param implies {
        &&& r[i + 1] is Lit
        &&& r[i + 1]->Lit_0[0] == '/'
    } by {
        assert(r[i] == ps[i + 1]);
        assert(r[i + 1] == ps[i + 2]);
    }
}

/// On a well-formed template, the greedy reading finds every fitting choice of
/// values: the values that spell a path are the ones it reads back.
pub proof fn lemma_scan_complete(ps: Seq<SpecPiece>, vals: Seq<Seq<char>>)
    requires
        template_wf(ps),
        fits(ps, vals),
    ensures
        scan(ps, fill(ps, vals)) == Some(vals),
    decreases ps.len(),
{
    if ps.len() == 0 {
        assert(vals =~= Seq::<Seq<char>>::empty());
    } else {
        let rest = ps.drop_first();
        let path = fill(ps, vals);
        lemma_wf_rest(ps);
        match ps[0] {
            SpecPiece::Lit(l) => {
                assert(ps[0] is Lit);
                lemma_scan_complete(rest, vals);
                assert(path == l + fill(rest, vals));
                assert(path.take(l.len() as int) =~= l);
                assert(path.skip(l.len() as int) =~= fill(rest, vals));
            },
            SpecPiece::Param => {
                let v0 = vals[0];
                let vr = vals.drop_first();
                assert forall|i: int| 0 <= i < vr.len() implies is_segment(#[trigger] vr[i]) by {
                    assert(vr[i] == vals[i + 1]);
                }
                lemma_scan_complete(rest, vr);
                let f = fill(rest, vr);
                assert(path == v0 + f);
                if rest.len() > 0 {
                    assert(ps[0] is Param);
                    lemma_fill_starts_with_slash(rest, vr);
                } else {
                    assert(f.len() == 0);
                }
                assert(is_segment(vals[0]));
                lemma_seg_len_concat(v0, f);
                assert(path.take(v0.len() as int) =~= v0);
                assert(path.skip(v0.len() as int) =~= f);
                assert(seq![v0] + vr =~= vals);
            },
        }
    }
}

/// On a well-formed template the greedy reading decides matching.
pub proof fn lemma_scan_decides(ps: Seq<SpecPiece>, path: Seq<char>)
    requires
        template_wf(ps),
    ensures
        scan(ps, path) is Some <==> template_matches(ps, path),
        scan(ps, path) matches Some(vs) ==> fits(ps, vs) && fill(ps, vs) == path,
{
    lemma_scan_sound(ps, path);
    if template_matches(ps, path) {
        let vals = choose|vals: Seq<Seq<char>>| fits(ps, vals) && #[trigger] fill(ps, vals) == path;
        lemma_scan_complete(ps, vals);
    }
}

/// The characters of a string, one by one.
pub fn chars_of(s: &str) -> (v: Vec<char>)
    ensures
        v@ == s@,
{
    let n = s.unicode_len();
    let mut v: Vec<char> = Vec::new();
    let mut i: usize = 0;
    while i < n
        invariant
            n == s@.len(),
            i <= n,
            v@ == s@.take(i as int),
        decreases n - i,
    {
        let c = s.get_char(i);
        v.push(c);
        i = i + 1;
        assert(v@ =~= s@.take(i as int));
    }
    assert(v@ =~= s@);
    v
}

fn is_delim_char(c: char) -> (b: bool)
    ensures
        b == is_delim(c),
{
    c == '/' || c == '?' || c == '#'
}

/// Whether the fixed text `lit` stands in `p` at `pos`.
fn lit_at(p: &Vec<char>, pos: usize, lit: &str) -> (b: bool)
    requires
        pos <= p@.len(),
    ensures
        b == (lit@.len() <= p@.skip(pos as int).len() && p@.skip(pos as int).take(lit@.len() as int) == lit@),
{
    let n = lit.unicode_len();
    let rest = p.len() - pos;
    if n > rest {
        return false;
    }
    let mut k: usize = 0;
    while k < n
        invariant
            n == lit@.len(),
            n <= rest,
            rest == p@.len() - pos,
            pos + rest == p@.len(),
            p@.len() <= usize::MAX,
            pos <= p@.len(),
            k <= n,
            forall|j: int| 0 <= j < k ==> p@[pos + j] == lit@[j],
        decreases n - k,
    {
        if p[pos + k] != lit.get_char(k) {
            assert(p@.skip(pos as int).take(n as int)[k as int] == p@[pos + k]);
            return false;
        }
        k = k + 1;
    }
    assert(p@.skip(pos as int).take(n as int) =~= lit@);
    true
}

/// The greedy reading of `path` (whose characters are `p`) against a template.
pub fn scan_exec(ps: &Vec<Piece>, path: &str, p: &Vec<char>) -> (r: Option<Vec<String>>)
    requires
        p@ == path@,
    ensures
        match r {
            Some(v) => scan(pieces_view(ps@), path@) == Some(strings_view(v@)),
            None => scan(pieces_view(ps@), path@) is None,
        },
{
    let ghost psv = pieces_view(ps@);
    let mut acc: Vec<String> = Vec::new();
    let mut pos: usize = 0;
    let mut i: usize = 0;
    let n = p.len();
    proof {
        assert(psv.skip(0) =~= psv);
        assert(p@.skip(0) =~= p@);
        assert(strings_view(acc@) =~= Seq::<Seq<char>>::empty());
        if let Some(v) = scan(psv, p@) {
            assert(Seq::<Seq<char>>::empty() + v =~= v);
        }
    }
    while i < ps.len()
        invariant
            psv == pieces_view(ps@),
            p@ == path@,
            n == p@.len(),
            i <= ps@.len(),
            pos <= n,
            scan(psv, p@) == prepend(strings_view(acc@), scan(psv.skip(i as int), p@.skip(pos as int))),
        decreases ps@.len() - i,
    {
        let ghost tail = psv.skip(i as int);
        let ghost q = p@.skip(pos as int);
        assert(tail[0] == ps@[i as int]@);
        assert(tail.drop_first() =~= psv.skip(i + 1));
        match &ps[i] {
            Piece::Lit(l) => {
                if !lit_at(p, pos, l) {
                    return None;
                }
                let len = l.unicode_len();
                assert(q.skip(len as int) =~= p@.skip(pos + len));
                pos = pos + len;
            },
            Piece::Param => {
                let mut j: usize = pos;
                while j < n && !is_delim_char(p[j])
                    invariant
                        pos <= j <= n,
                        n == p@.len(),
                        forall|k: int| pos <= k < j ==> !is_delim(#[trigger] p@[k]),
                    decreases n - j,
                {
                    j = j + 1;
                }
                proof {
                    assert forall|k: int| 0 <= k < j - pos implies !is_delim(#[trigger] q[k]) by {
                        assert(q[k] == p@[pos + k]);
                    }
                    if j < n {
                        assert(q[j - pos] == p@[j as int]);
                    }
                    lemma_seg_len_exact(q, j - pos);
                }
                let seg = path.substring_char(pos, j).to_owned();
                assert(seg@ =~= q.take(j - pos));
                assert(q.skip(j - pos) =~= p@.skip(j as int));
                let ghost old_acc = strings_view(acc@);
                acc.push(seg);
                assert(strings_view(acc@) =~= old_acc + seq![seg@]);
                proof {
                    let r = scan(psv.skip(i + 1), p@.skip(j as int));
                    if let Some(vs) = r {
                        assert(old_acc + (seq![seg@] + vs) =~= (old_acc + seq![seg@]) + vs);
                    }
                }
                pos = j;
            },
        }
        i = i + 1;
    }
    assert(psv.skip(i as int).len() == 0);
    if pos == n {
        assert(p@.skip(pos as int).len() == 0);
        assert(strings_view(acc@) + Seq::<Seq<char>>::empty() =~= strings_view(acc@));
        Some(acc)
    } else {
        None
    }
}

} // verus!
