use vstd::prelude::*;

verus! {

/// One element of a pattern.
pub enum RegexNode {
    /// This character.
    Lit(char),
    /// `.`: any character.
    Any,
    /// `[...]`: a character in one of the ranges (a single character is a range of
    /// one); `[^...]` (inverted) a character in none of them. A range whose start lies
    /// after its end holds nothing.
    Class(Vec<(char, char)>, bool),
    /// `\d`: an ASCII digit.
    Digit,
    /// `\w`: an ASCII letter or digit, or `_`.
    Word,
    /// `\s`: ASCII white space.
    Space,
}

/// A pattern element as a mathematical value.
pub enum NodeView {
    Lit(char),
    Any,
    Class(Seq<(char, char)>, bool),
    Digit,
    Word,
    Space,
}

impl View for RegexNode {
    type V = NodeView;

    open spec fn view(&self) -> NodeView {
        match self {
            RegexNode::Lit(c) => NodeView::Lit(*c),
            RegexNode::Any => NodeView::Any,
            RegexNode::Class(items, inv) => NodeView::Class(items@, *inv),
            RegexNode::Digit => NodeView::Digit,
            RegexNode::Word => NodeView::Word,
            RegexNode::Space => NodeView::Space,
        }
    }
}

/// A parsed pattern: its elements, each with its quantifier (`*` is the first flag,
/// `+` the second; `?` and no quantifier set neither), and its anchors.
pub struct RegexPattern {
    pub nodes: Vec<(RegexNode, bool, bool)>,
    pub anchored_start: bool,
    pub anchored_end: bool,
}

pub struct PatternView {
    pub nodes: Seq<(NodeView, bool, bool)>,
    pub anchored_start: bool,
    pub anchored_end: bool,
}

impl View for RegexPattern {
    type V = PatternView;

    open spec fn view(&self) -> PatternView {
        PatternView {
            nodes: self.nodes@.map_values(|e: (RegexNode, bool, bool)| (e.0@, e.1, e.2)),
            anchored_start: self.anchored_start,
            anchored_end: self.anchored_end,
        }
    }
}

// ---------- parsing ----------

/// The items of a character class from position `j` up to its `]` (or the end of the
/// pattern), and the position where they stop: `a-z` is a range when the character
/// after the `-` is not the pattern's last.
pub open spec fn class_items(c: Seq<char>, j: int) -> (Seq<(char, char)>, int)
    decreases c.len() - j,
{
    if j < 0 || j >= c.len() || c[j] == ']' {
        (Seq::<(char, char)>::empty(), j)
    } else if j + 2 < c.len() && c[j + 1] == '-' {
        let rest = class_items(c, j + 3);
        (seq![(c[j], c[j + 2])] + rest.0, rest.1)
    } else {
        let rest = class_items(c, j + 1);
        (seq![(c[j], c[j])] + rest.0, rest.1)
    }
}

/// The element that starts at position `i` and how many characters it takes.
pub open spec fn atom_at(c: Seq<char>, i: int) -> (NodeView, int) {
    if c[i] == '.' {
        (NodeView::Any, 1)
    } else if c[i] == '\\' && i + 1 < c.len() {
        let n = if c[i + 1] == 'd' {
            NodeView::Digit
        } else if c[i + 1] == 'w' {
            NodeView::Word
        } else if c[i + 1] == 's' {
            NodeView::Space
        } else {
            NodeView::Lit(c[i + 1])
        };
        (n, 2)
    } else if c[i] == '[' {
        let inv = i + 1 < c.len() && c[i + 1] == '^';
        let start = if inv {
            i + 2
        } else {
            i + 1
        };
        let (items, stop) = class_items(c, start);
        let end = if stop < c.len() {
            stop + 1
        } else {
            stop
        };
        (NodeView::Class(items, inv), end - i)
    } else {
        (NodeView::Lit(c[i]), 1)
    }
}

/// The quantifier at position `i`, as (star, plus, characters taken): `*` sets
/// star, `+` sets plus, and `?` (optional) sets both.
pub open spec fn quantifier_at(c: Seq<char>, i: int) -> (bool, bool, int) {
    if 0 <= i < c.len() {
        if c[i] == '*' {
            (true, false, 1)
        } else if c[i] == '+' {
            (false, true, 1)
        } else if c[i] == '?' {
            (true, true, 1)
        } else {
            (false, false, 0)
        }
    } else {
        (false, false, 0)
    }
}

/// The elements of the pattern from position `i` on.
pub open spec fn parse_nodes(c: Seq<char>, i: int) -> Seq<(NodeView, bool, bool)>
    decreases if i <= c.len() {
        c.len() - i
    } else {
        0
    },
{
    if i < 0 || i >= c.len() {
        Seq::<(NodeView, bool, bool)>::empty()
    } else {
        let (n, used) = atom_at(c, i);
        let (star, plus, q) = quantifier_at(c, i + used);
        if used <= 0 || q < 0 {
            seq![(n, star, plus)]
        } else {
            seq![(n, star, plus)] + parse_nodes(c, i + used + q)
        }
    }
}

/// Whether the pattern ends in a `$` that is not escaped by a `\\`.
pub open spec fn ends_in_anchor(c: Seq<char>) -> bool {
    c.len() > 0 && c.last() == '$' && !(c.len() >= 2 && c[c.len() - 2] == '\\')
}

/// The parsed pattern: a leading `^` anchors the start and is no element; a final
/// unescaped `$` anchors the end (when there is an element) and is no element.
pub open spec fn parse_regex_spec(c: Seq<char>) -> PatternView {
    let anchored_start = c.len() > 0 && c[0] == '^';
    let body = if ends_in_anchor(c) {
        c.drop_last()
    } else {
        c
    };
    let nodes = parse_nodes(body, if anchored_start {
        1
    } else {
        0
    });
    PatternView { nodes, anchored_start, anchored_end: nodes.len() > 0 && ends_in_anchor(c) }
}

proof fn lemma_class_items(c: Seq<char>, j: int)
    requires
        0 <= j,
    ensures
        j <= class_items(c, j).1 <= c.len() || class_items(c, j).1 == j,
        class_items(c, j).1 >= j,
        class_items(c, j).1 < c.len() ==> c[class_items(c, j).1] == ']',
    decreases c.len() - j,
{
    if j >= c.len() || c[j] == ']' {
    } else if j + 2 < c.len() && c[j + 1] == '-' {
        lemma_class_items(c, j + 3);
    } else {
        lemma_class_items(c, j + 1);
    }
}

proof fn lemma_atom_used(c: Seq<char>, i: int)
    requires
        0 <= i < c.len(),
    ensures
        1 <= atom_at(c, i).1,
        i + atom_at(c, i).1 <= c.len(),
{
    if c[i] == '[' {
        let inv = i + 1 < c.len() && c[i + 1] == '^';
        let start = if inv {
            i + 2
        } else {
            i + 1
        };
        lemma_class_items(c, start);
    }
}

fn class_items_exec(c: &Vec<char>, j0: usize) -> (r: (Vec<(char, char)>, usize))
    ensures
        r.0@ == class_items(c@, j0 as int).0,
        r.1 == class_items(c@, j0 as int).1,
{
    let mut items: Vec<(char, char)> = Vec::new();
    let mut j = j0;
    while j < c.len() && c[j] != ']'
        invariant
            j0 <= j,
            items@ + class_items(c@, j as int).0 == class_items(c@, j0 as int).0,
            class_items(c@, j as int).1 == class_items(c@, j0 as int).1,
        decreases c@.len() - j,
    {
        let ghost before = items@;
        if c.len() - j > 2 && c[j + 1] == '-' {
            items.push((c[j], c[j + 2]));
            j += 3;
            assert(before + class_items(c@, j - 3).0 =~= items@ + class_items(c@, j as int).0);
        } else {
            items.push((c[j], c[j]));
            j += 1;
            assert(before + class_items(c@, j - 1).0 =~= items@ + class_items(c@, j as int).0);
        }
    }
    assert(class_items(c@, j as int).0 =~= Seq::<(char, char)>::empty());
    assert(items@ =~= class_items(c@, j0 as int).0);
    (items, j)
}

/// The element at position `i`, its quantifier, and the position after both.
fn parse_step(c: &Vec<char>, i: usize) -> (r: (RegexNode, bool, bool, usize))
    requires
        i < c@.len(),
    ensures
        r.0@ == atom_at(c@, i as int).0,
        (r.1, r.2) == (quantifier_at(c@, i + atom_at(c@, i as int).1).0, quantifier_at(c@, i + atom_at(c@, i as int).1).1),
        r.3 == i + atom_at(c@, i as int).1 + quantifier_at(c@, i + atom_at(c@, i as int).1).2,
        i < r.3 <= c@.len(),
{
    proof {
        lemma_atom_used(c@, i as int);
    }
    let n = c.len();
    let ch = c[i];
    let (node, used): (RegexNode, usize) = if ch == '.' {
        (RegexNode::Any, 1)
    } else if ch == '\\' && i + 1 < n {
        let d = c[i + 1];
        let n = if d == 'd' {
            RegexNode::Digit
        } else if d == 'w' {
            RegexNode::Word
        } else if d == 's' {
            RegexNode::Space
        } else {
            RegexNode::Lit(d)
        };
        (n, 2)
    } else if ch == '[' {
        let inv = i + 1 < n && c[i + 1] == '^';
        let start = if inv {
            i + 2
        } else {
            i + 1
        };
        proof {
            lemma_class_items(c@, start as int);
        }
        let (items, stop) = class_items_exec(c, start);
        let end = if stop < c.len() {
            stop + 1
        } else {
            stop
        };
        (RegexNode::Class(items, inv), end - i)
    } else {
        (RegexNode::Lit(ch), 1)
    };
    let j = i + used;
    let (star, plus, q): (bool, bool, usize) = if j < c.len() {
        let qc = c[j];
        if qc == '*' {
            (true, false, 1)
        } else if qc == '+' {
            (false, true, 1)
        } else if qc == '?' {
            (true, true, 1)
        } else {
            (false, false, 0)
        }
    } else {
        (false, false, 0)
    };
    (node, star, plus, j + q)
}

/// Parses a pattern: `.`, `\d`, `\w`, `\s`, `\` before any other character (that
/// character), `[...]` and `[^...]` classes with `a-z` ranges, other characters as
/// themselves; each element may be followed by `*`, `+` or `?`; a leading `^` and a
/// final `$` anchor.
pub fn parse_regex(pattern: &Vec<char>) -> (p: RegexPattern)
    ensures
        p@ == parse_regex_spec(pattern@),
{
    let len = pattern.len();
    let anchor_end = len > 0 && pattern[len - 1] == '$' && !(len >= 2 && pattern[len - 2] == '\\');
    let body_len = if anchor_end {
        len - 1
    } else {
        len
    };
    let mut c: Vec<char> = Vec::new();
    let mut j: usize = 0;
    while j < body_len
        invariant
            j <= body_len <= pattern@.len(),
            c@ == pattern@.take(j as int),
        decreases body_len - j,
    {
        c.push(pattern[j]);
        j += 1;
        assert(c@ =~= pattern@.take(j as int));
    }
    assert(c@ =~= (if anchor_end {
        pattern@.drop_last()
    } else {
        pattern@
    }));
    let c = &c;
    let anchored_start = pattern.len() > 0 && pattern[0] == '^';
    let i0: usize = if anchored_start {
        1
    } else {
        0
    };
    let mut nodes: Vec<(RegexNode, bool, bool)> = Vec::new();
    let mut i = i0;
    while i < c.len()
        invariant
            i0 <= i,
            nodes@.map_values(|e: (RegexNode, bool, bool)| (e.0@, e.1, e.2)) + parse_nodes(c@, i as int)
                == parse_nodes(c@, i0 as int),
        decreases c@.len() - i,
    {
        let ghost before = nodes@.map_values(|e: (RegexNode, bool, bool)| (e.0@, e.1, e.2));
        let ghost i_before = i as int;
        let (node, star, plus, next) = parse_step(c, i);
        let ghost entry = (node@, star, plus);
        nodes.push((node, star, plus));
        i = next;
        assert(nodes@.map_values(|e: (RegexNode, bool, bool)| (e.0@, e.1, e.2)) =~= before.push(entry));
        assert(before + parse_nodes(c@, i_before) =~= before.push(entry) + parse_nodes(c@, i as int));
    }
    assert(parse_nodes(c@, i as int) =~= Seq::<(NodeView, bool, bool)>::empty());
    let anchored_end = nodes.len() > 0 && anchor_end;
    let p = RegexPattern { nodes, anchored_start, anchored_end };
    assert(p@.nodes =~= parse_regex_spec(pattern@).nodes);
    p
}

// ---------- matching ----------

/// Whether one pattern element accepts the character `c`.
pub open spec fn node_matches(n: NodeView, c: char) -> bool {
    match n {
        NodeView::Lit(l) => l == c,
        NodeView::Any => true,
        NodeView::Class(items, inv) => (exists|i: int|
            0 <= i < items.len() && items[i].0 <= c && c <= #[trigger] items[i].1) != inv,
        NodeView::Digit => '0' <= c && c <= '9',
        NodeView::Word => ('0' <= c && c <= '9') || ('a' <= c && c <= 'z') || ('A' <= c && c <= 'Z')
            || c == '_',
        NodeView::Space => c == ' ' || c == '\t' || c == '\n' || c == '\x0C' || c == '\r',
    }
}

/// Whether the elements from number `k` on match the text from position `start` on,
/// with backtracking: a `*` element takes as few characters as it can first, a `+`
/// element one at least.
pub open spec fn match_from(p: Seq<(NodeView, bool, bool)>, t: Seq<char>, start: int, k: int) -> bool
    decreases p.len() - k, t.len() + 1 - start,
{
    if k < 0 || k >= p.len() {
        true
    } else if start < 0 || start > t.len() {
        false
    } else if p[k].1 && p[k].2 {
        match_from(p, t, start, k + 1) || (start < t.len() && node_matches(p[k].0, t[start]) && match_from(
            p,
            t,
            start + 1,
            k + 1,
        ))
    } else if p[k].1 {
        star_from(p, t, start, k)
    } else if p[k].2 {
        start < t.len() && node_matches(p[k].0, t[start]) && star_from(p, t, start + 1, k)
    } else {
        start < t.len() && node_matches(p[k].0, t[start]) && match_from(p, t, start + 1, k + 1)
    }
}

/// Whether element `k` can stop repeating at `pos` or at a later position reached by
/// repeating it, with the rest matching from there.
pub open spec fn star_from(p: Seq<(NodeView, bool, bool)>, t: Seq<char>, pos: int, k: int) -> bool
    decreases p.len() - k, t.len() - pos,
{
    if k < 0 || k >= p.len() || pos < 0 || pos > t.len() {
        false
    } else {
        match_from(p, t, pos, k + 1) || (pos < t.len() && node_matches(p[k].0, t[pos]) && star_from(
            p,
            t,
            pos + 1,
            k,
        ))
    }
}

/// Where a run of characters accepted by `n` from `pos` ends.
pub open spec fn run_end(n: NodeView, t: Seq<char>, pos: int) -> int
    decreases t.len() - pos,
{
    if 0 <= pos < t.len() && node_matches(n, t[pos]) {
        run_end(n, t, pos + 1)
    } else {
        pos
    }
}

/// The end of a greedy match of the elements from number `k` on, from `pos`: each
/// `*` or `+` element takes all it can, a `?` element one character when it can;
/// `None` when an element cannot match.
pub open spec fn greedy_end(p: Seq<(NodeView, bool, bool)>, t: Seq<char>, k: int, pos: int) -> Option<int>
    decreases p.len() - k,
{
    if k < 0 || k >= p.len() {
        Some(pos)
    } else if p[k].1 && p[k].2 {
        if 0 <= pos < t.len() && node_matches(p[k].0, t[pos]) {
            greedy_end(p, t, k + 1, pos + 1)
        } else {
            greedy_end(p, t, k + 1, pos)
        }
    } else if p[k].1 {
        greedy_end(p, t, k + 1, run_end(p[k].0, t, pos))
    } else if p[k].2 {
        if run_end(p[k].0, t, pos) == pos {
            None
        } else {
            greedy_end(p, t, k + 1, run_end(p[k].0, t, pos))
        }
    } else if pos < 0 || pos >= t.len() || !node_matches(p[k].0, t[pos]) {
        None
    } else {
        greedy_end(p, t, k + 1, pos + 1)
    }
}

/// A match that starts at `s`: the elements match from there, and for a pattern
/// anchored at the end, `s` is 0 and a greedy match reaches the end of the text.
pub open spec fn accepts_at(pv: PatternView, t: Seq<char>, s: int) -> bool {
    match_from(pv.nodes, t, s, 0) && (!pv.anchored_end || (s == 0 && greedy_end(pv.nodes, t, 0, s)
        == Some(t.len() as int)))
}

/// Whether the pattern matches the text: an empty pattern only the empty text; a
/// pattern anchored at the start only from position 0; any other from some position.
pub open spec fn regex_matches(pv: PatternView, t: Seq<char>) -> bool {
    if pv.nodes.len() == 0 {
        t.len() == 0
    } else if pv.anchored_start {
        accepts_at(pv, t, 0)
    } else {
        exists|s: int| 0 <= s <= t.len() && #[trigger] accepts_at(pv, t, s)
    }
}

fn node_matches_exec(n: &RegexNode, c: char) -> (r: bool)
    ensures
        r == node_matches(n@, c),
{
    match n {
        RegexNode::Lit(l) => {
            assert(n@ == NodeView::Lit(*l));
            let r = *l == c;
            assert(r == node_matches(n@, c));
            r
        },
        RegexNode::Any => true,
        RegexNode::Class(items, inv) => {
            let mut found = false;
            let mut i: usize = 0;
            while i < items.len()
                invariant
                    i <= items@.len(),
                    found == exists|j: int| 0 <= j < i && items@[j].0 <= c && c <= #[trigger] items@[j].1,
                decreases items@.len() - i,
            {
                if items[i].0 <= c && c <= items[i].1 {
                    assert(items@[i as int].0 <= c && c <= items@[i as int].1);
                    found = true;
                }
                i += 1;
            }
            assert(found == exists|j: int| 0 <= j < items@.len() && items@[j].0 <= c && c <= #[trigger] items@[j].1);
            let r = found != *inv;
            assert(n@ == NodeView::Class(items@, *inv));
            assert(r == node_matches(n@, c));
            r
        },
        RegexNode::Digit => {
            let r = '0' <= c && c <= '9';
            assert(r == node_matches(n@, c));
            r
        },
        RegexNode::Word => {
            let r = ('0' <= c && c <= '9') || ('a' <= c && c <= 'z') || ('A' <= c && c <= 'Z') || c == '_';
            assert(r == node_matches(n@, c));
            r
        },
        RegexNode::Space => {
            let r = c == ' ' || c == '\t' || c == '\n' || c == '\x0C' || c == '\r';
            assert(r == node_matches(n@, c));
            r
        },
    }
}

/// Backtracking match of the elements from number `k` on against the text from `start`.
pub fn match_from_exec(p: &RegexPattern, t: &Vec<char>, start: usize, k: usize) -> (r: bool)
    requires
        start <= t@.len(),
    ensures
        r == match_from(p@.nodes, t@, start as int, k as int),
    decreases p@.nodes.len() - k,
{
    if k >= p.nodes.len() {
        return true;
    }
    let ghost pn = p@.nodes;
    let (node, star, plus) = (&p.nodes[k].0, p.nodes[k].1, p.nodes[k].2);
    assert(pn[k as int] == (node@, star, plus));
    let n = t.len();
    let k1 = k + 1;
    if star && plus {
        if match_from_exec(p, t, start, k1) {
            return true;
        }
        if start >= n || !node_matches_exec(node, t[start]) {
            return false;
        }
        return match_from_exec(p, t, start + 1, k1);
    }
    if star {
        if match_from_exec(p, t, start, k1) {
            assert(star_from(pn, t@, start as int, k as int));
            return true;
        }
        let mut pos = start;
        while pos < n && node_matches_exec(node, t[pos])
            invariant
                start <= pos <= n,
                n == t@.len(),
                k < pn.len(),
                pn == p@.nodes,
                pn[k as int] == (node@, star, plus),
                k1 == k + 1,
                !match_from(pn, t@, pos as int, k + 1),
                star_from(pn, t@, start as int, k as int) == star_from(pn, t@, pos as int, k as int),
                star && !plus,
            decreases n - pos,
        {
            let ghost prev = pos as int;
            pos += 1;
            assert(star_from(pn, t@, prev, k as int) == star_from(pn, t@, pos as int, k as int));
            if match_from_exec(p, t, pos, k1) {
                assert(star_from(pn, t@, pos as int, k as int));
                return true;
            }
        }
        assert(!star_from(pn, t@, pos as int, k as int));
        false
    } else if plus {
        if start >= n || !node_matches_exec(node, t[start]) {
            return false;
        }
        if match_from_exec(p, t, start + 1, k1) {
            assert(star_from(pn, t@, start + 1, k as int));
            return true;
        }
        let mut pos = start + 1;
        while pos < n && node_matches_exec(node, t[pos])
            invariant
                start < pos <= n,
                n == t@.len(),
                k < pn.len(),
                pn == p@.nodes,
                pn[k as int] == (node@, star, plus),
                k1 == k + 1,
                !match_from(pn, t@, pos as int, k + 1),
                star_from(pn, t@, start + 1, k as int) == star_from(pn, t@, pos as int, k as int),
                !star && plus,
                start < n && node_matches(pn[k as int].0, t@[start as int]),
            decreases n - pos,
        {
            let ghost prev = pos as int;
            pos += 1;
            assert(star_from(pn, t@, prev, k as int) == star_from(pn, t@, pos as int, k as int));
            if match_from_exec(p, t, pos, k1) {
                assert(star_from(pn, t@, pos as int, k as int));
                return true;
            }
        }
        assert(!star_from(pn, t@, pos as int, k as int));
        false
    } else {
        if start >= n || !node_matches_exec(node, t[start]) {
            return false;
        }
        match_from_exec(p, t, start + 1, k1)
    }
}

/// Where the run of characters accepted by `n` from `pos` ends.
fn run_end_exec(n: &RegexNode, t: &Vec<char>, pos: usize) -> (r: usize)
    requires
        pos <= t@.len(),
    ensures
        r == run_end(n@, t@, pos as int),
        pos <= r <= t@.len(),
{
    let mut q = pos;
    while q < t.len() && node_matches_exec(n, t[q])
        invariant
            pos <= q <= t@.len(),
            run_end(n@, t@, pos as int) == run_end(n@, t@, q as int),
        decreases t@.len() - q,
    {
        q += 1;
    }
    q
}

/// Whether a greedy match from `start` ends exactly at the end of the text.
pub fn matched_end(p: &RegexPattern, t: &Vec<char>, start: usize) -> (r: bool)
    requires
        start <= t@.len(),
    ensures
        r == (greedy_end(p@.nodes, t@, 0, start as int) == Some(t@.len() as int)),
{
    let ghost pn = p@.nodes;
    let mut pos = start;
    let mut k: usize = 0;
    while k < p.nodes.len()
        invariant
            pn == p@.nodes,
            k <= pn.len(),
            pos <= t@.len(),
            greedy_end(pn, t@, 0, start as int) == greedy_end(pn, t@, k as int, pos as int),
        decreases pn.len() - k,
    {
        let (node, star, plus) = (&p.nodes[k].0, p.nodes[k].1, p.nodes[k].2);
        assert(pn[k as int] == (node@, star, plus));
        if star && plus {
            if pos < t.len() && node_matches_exec(node, t[pos]) {
                pos += 1;
            }
        } else if star {
            pos = run_end_exec(node, t, pos);
        } else if plus {
            let e = run_end_exec(node, t, pos);
            if e == pos {
                return false;
            }
            pos = e;
        } else {
            if pos >= t.len() || !node_matches_exec(node, t[pos]) {
                return false;
            }
            pos += 1;
        }
        k += 1;
    }
    pos == t.len()
}

/// Whether the parsed pattern matches the text.
pub fn match_pattern(p: &RegexPattern, t: &Vec<char>) -> (r: bool)
    ensures
        r == regex_matches(p@, t@),
{
    if p.nodes.len() == 0 {
        return t.len() == 0;
    }
    let n = t.len();
    if p.anchored_start {
        if match_from_exec(p, t, 0, 0) {
            if !p.anchored_end || matched_end(p, t, 0) {
                return true;
            }
        }
        return false;
    }
    let mut s: usize = 0;
    while s <= n
        invariant
            n == t@.len(),
            s <= n + 1,
            !p@.anchored_start,
            p@.nodes.len() > 0,
            forall|j: int| 0 <= j < s ==> !accepts_at(p@, t@, j),
        decreases n + 1 - s,
    {
        if match_from_exec(p, t, s, 0) {
            if !p.anchored_end || (s == 0 && matched_end(p, t, s)) {
                assert(accepts_at(p@, t@, s as int));
                return true;
            }
        }
        assert(!accepts_at(p@, t@, s as int));
        if s == n {
            assert(forall|j: int| 0 <= j <= t@.len() ==> !#[trigger] accepts_at(p@, t@, j));
            return false;
        }
        s += 1;
    }
    false
}

/// `Pattern.matches`: parse `regex`, then match `input`.
pub fn regex_match_text(regex: &Vec<char>, input: &Vec<char>) -> (r: bool)
    ensures
        r == regex_matches(parse_regex_spec(regex@), input@),
{
    let p = parse_regex(regex);
    match_pattern(&p, input)
}

/// The letter `k` places after `base` (`a` or `A`).
pub open spec fn letter_code(base: char, k: u32) -> int {
    (base as u32) as int + k as int
}

/// The character classes agree with the ASCII ones: `\d` accepts exactly the ten
/// decimal digits, `\w` exactly the letters, digits and `_`, `\s` exactly space,
/// tab, newline, form feed and carriage return; every digit is a word character and
/// no space is.
pub proof fn law_class_nodes(c: char)
    ensures
        node_matches(NodeView::Digit, c) <==> exists|d: nat| d < 10 && c == #[trigger] crate::text::digit_char(d),
        node_matches(NodeView::Word, c) <==> (node_matches(NodeView::Digit, c) || c == '_'
            || (exists|k: u32| k < 26 && (c as u32) == #[trigger] letter_code('a', k))
            || (exists|k: u32| k < 26 && (c as u32) == #[trigger] letter_code('A', k))),
        node_matches(NodeView::Space, c) <==> ((c as u32) == 32 || (c as u32) == 9 || (c as u32) == 10
            || (c as u32) == 12 || (c as u32) == 13),
        node_matches(NodeView::Digit, c) ==> node_matches(NodeView::Word, c),
        node_matches(NodeView::Space, c) ==> !node_matches(NodeView::Word, c),
{
    if '0' <= c && c <= '9' {
        let d = ((c as u32) - ('0' as u32)) as nat;
        assert(crate::text::digit_char(d) == c);
    }
    if 'a' <= c && c <= 'z' {
        let k = ((c as u32) - ('a' as u32)) as u32;
        assert((c as u32) == letter_code('a', k));
    }
    if 'A' <= c && c <= 'Z' {
        let k = ((c as u32) - ('A' as u32)) as u32;
        assert((c as u32) == letter_code('A', k));
    }
}

proof fn lemma_run_end(n: NodeView, t: Seq<char>, pos: int)
    requires
        0 <= pos <= t.len(),
    ensures
        pos <= run_end(n, t, pos) <= t.len(),
        forall|i: int| pos <= i < run_end(n, t, pos) ==> node_matches(n, #[trigger] t[i]),
        run_end(n, t, pos) < t.len() ==> !node_matches(n, t[run_end(n, t, pos)]),
    decreases t.len() - pos,
{
    if pos < t.len() && node_matches(n, t[pos]) {
        lemma_run_end(n, t, pos + 1);
    }
}

/// One element with `+` matches at position `s` exactly when the character there is
/// one it accepts.
pub proof fn law_plus_element(n: NodeView, t: Seq<char>, s: int)
    requires
        0 <= s <= t.len(),
    ensures
        match_from(seq![(n, false, true)], t, s, 0) <==> (s < t.len() && node_matches(n, t[s])),
{
    let p = seq![(n, false, true)];
    if s < t.len() && node_matches(n, t[s]) {
        assert(match_from(p, t, s + 1, 1));
        assert(star_from(p, t, s + 1, 0));
    }
}

/// A pattern of one element with `+`, anchored at both ends (`^X+$`), matches exactly
/// the non-empty texts whose every character the element accepts; without anchors
/// (`X+`) it matches exactly the texts that hold at least one such character.
pub proof fn law_plus_pattern(pv: PatternView, n: NodeView, t: Seq<char>)
    requires
        pv.nodes == seq![(n, false, true)],
    ensures
        (pv.anchored_start && pv.anchored_end) ==> (regex_matches(pv, t) <==> (t.len() > 0
            && forall|i: int| 0 <= i < t.len() ==> node_matches(n, #[trigger] t[i]))),
        (!pv.anchored_start && !pv.anchored_end) ==> (regex_matches(pv, t) <==> exists|i: int|
            0 <= i < t.len() && node_matches(n, #[trigger] t[i])),
{
    let p = pv.nodes;
    if pv.anchored_start && pv.anchored_end {
        law_plus_element(n, t, 0);
        lemma_run_end(n, t, 0);
        let e = run_end(n, t, 0);
        if t.len() > 0 && node_matches(n, t[0]) {
            assert(e != 0) by {
                assert(run_end(n, t, 0) == run_end(n, t, 1));
                lemma_run_end(n, t, 1);
            }
            assert(greedy_end(p, t, 0, 0) == greedy_end(p, t, 1, e));
            assert(greedy_end(p, t, 1, e) == Some(e));
        }
        if regex_matches(pv, t) {
            assert(accepts_at(pv, t, 0));
            assert(e == t.len());
        }
        if t.len() > 0 && forall|i: int| 0 <= i < t.len() ==> node_matches(n, #[trigger] t[i]) {
            assert(node_matches(n, t[0]));
            if e < t.len() {
                assert(node_matches(n, t[e]));
            }
            assert(accepts_at(pv, t, 0));
        }
    }
    if !pv.anchored_start && !pv.anchored_end {
        if regex_matches(pv, t) {
            let s = choose|s: int| 0 <= s <= t.len() && #[trigger] accepts_at(pv, t, s);
            law_plus_element(n, t, s);
            assert(node_matches(n, t[s]));
        }
        if exists|i: int| 0 <= i < t.len() && node_matches(n, #[trigger] t[i]) {
            let i = choose|i: int| 0 <= i < t.len() && node_matches(n, #[trigger] t[i]);
            law_plus_element(n, t, i);
            assert(accepts_at(pv, t, i));
        }
    }
}

/// `\d+` finds a match in exactly the texts that hold a decimal digit, and `^\d+$`
/// matches exactly the non-empty texts made of decimal digits alone.
pub proof fn law_digits_patterns(t: Seq<char>)
    ensures
        regex_matches(parse_regex_spec("\\d+"@), t) <==> exists|i: int|
            0 <= i < t.len() && '0' <= #[trigger] t[i] && t[i] <= '9',
        regex_matches(parse_regex_spec("^\\d+$"@), t) <==> (t.len() > 0
            && forall|i: int| 0 <= i < t.len() ==> '0' <= #[trigger] t[i] && t[i] <= '9'),
{
    reveal_strlit("\\d+");
    reveal_strlit("^\\d+$");
    let c1 = "\\d+"@;
    assert(c1.len() == 3 && c1[0] == '\\' && c1[1] == 'd' && c1[2] == '+');
    assert(!ends_in_anchor(c1));
    assert(atom_at(c1, 0) == (NodeView::Digit, 2int));
    assert(quantifier_at(c1, 2) == (false, true, 1int));
    assert(parse_nodes(c1, 3) == Seq::<(NodeView, bool, bool)>::empty());
    assert(parse_nodes(c1, 0) =~= seq![(NodeView::Digit, false, true)]);
    let pv1 = parse_regex_spec(c1);
    assert(pv1.nodes == seq![(NodeView::Digit, false, true)]);
    law_plus_pattern(pv1, NodeView::Digit, t);

    let c2 = "^\\d+$"@;
    assert(c2.len() == 5 && c2[0] == '^' && c2[1] == '\\' && c2[2] == 'd' && c2[3] == '+' && c2[4] == '$');
    assert(ends_in_anchor(c2));
    let b = c2.drop_last();
    assert(b.len() == 4 && b[1] == '\\' && b[2] == 'd' && b[3] == '+');
    assert(atom_at(b, 1) == (NodeView::Digit, 2int));
    assert(quantifier_at(b, 3) == (false, true, 1int));
    assert(parse_nodes(b, 4) == Seq::<(NodeView, bool, bool)>::empty());
    assert(parse_nodes(b, 1) =~= seq![(NodeView::Digit, false, true)]);
    let pv2 = parse_regex_spec(c2);
    assert(pv2.nodes == seq![(NodeView::Digit, false, true)]);
    assert(pv2.anchored_start && pv2.anchored_end);
    law_plus_pattern(pv2, NodeView::Digit, t);
}

/// A pattern of one element with `*` (`X*`) finds a match in every text; anchored at
/// both ends (`^X*$`) it matches exactly the texts, the empty one included, whose
/// every character the element accepts. One element with `?` anchored at both ends
/// (`^X?$`) matches exactly the empty text and the one-character texts it accepts.
pub proof fn law_star_and_optional_patterns(pv: PatternView, n: NodeView, t: Seq<char>)
    ensures
        (pv.nodes == seq![(n, true, false)] && !pv.anchored_start && !pv.anchored_end)
            ==> regex_matches(pv, t),
        (pv.nodes == seq![(n, true, false)] && pv.anchored_start && pv.anchored_end)
            ==> (regex_matches(pv, t) <==> forall|i: int| 0 <= i < t.len() ==> node_matches(n, #[trigger] t[i])),
        (pv.nodes == seq![(n, true, true)] && pv.anchored_start && pv.anchored_end)
            ==> (regex_matches(pv, t) <==> (t.len() == 0 || (t.len() == 1 && node_matches(n, t[0])))),
{
    let p = pv.nodes;
    if p == seq![(n, true, false)] {
        assert(match_from(p, t, 0, 1));
        assert(star_from(p, t, 0, 0));
        assert(match_from(p, t, 0, 0));
        if !pv.anchored_start && !pv.anchored_end {
            assert(accepts_at(pv, t, 0));
        }
        if pv.anchored_start && pv.anchored_end {
            lemma_run_end(n, t, 0);
            let e = run_end(n, t, 0);
            assert(greedy_end(p, t, 0, 0) == greedy_end(p, t, 1, e));
            if forall|i: int| 0 <= i < t.len() ==> node_matches(n, #[trigger] t[i]) {
                if e < t.len() {
                    assert(node_matches(n, t[e]));
                }
            }
        }
    }
    if p == seq![(n, true, true)] && pv.anchored_start && pv.anchored_end {
        assert(match_from(p, t, 0, 1));
        assert(match_from(p, t, 0, 0));
        if t.len() > 0 && node_matches(n, t[0]) {
            assert(greedy_end(p, t, 0, 0) == greedy_end(p, t, 1, 1));
        } else {
            assert(greedy_end(p, t, 0, 0) == greedy_end(p, t, 1, 0));
        }
    }
}

proof fn lemma_single_anchored(pv: PatternView, n: NodeView, t: Seq<char>)
    requires
        pv.nodes == seq![(n, false, false)],
        pv.anchored_start,
        pv.anchored_end,
    ensures
        regex_matches(pv, t) <==> (t.len() == 1 && node_matches(n, t[0])),
{
    let p = pv.nodes;
    if t.len() > 0 && node_matches(n, t[0]) {
        assert(match_from(p, t, 1, 1));
        assert(match_from(p, t, 0, 0));
        assert(greedy_end(p, t, 0, 0) == greedy_end(p, t, 1, 1));
    }
}

proof fn lemma_parse_anchored_escape(c: Seq<char>, x: char)
    requires
        c == seq!['^', '\\', x, '$'],
        x == 'd' || x == 'w' || x == 's',
    ensures
        parse_regex_spec(c).nodes == seq![(
            if x == 'd' { NodeView::Digit } else if x == 'w' { NodeView::Word } else { NodeView::Space },
            false,
            false,
        )],
        parse_regex_spec(c).anchored_start,
        parse_regex_spec(c).anchored_end,
{
    assert(ends_in_anchor(c));
    let b = c.drop_last();
    assert(b =~= seq!['^', '\\', x]);
    assert(quantifier_at(b, 3) == (false, false, 0int));
    assert(parse_nodes(b, 3) == Seq::<(NodeView, bool, bool)>::empty());
    let n = if x == 'd' { NodeView::Digit } else if x == 'w' { NodeView::Word } else { NodeView::Space };
    assert(atom_at(b, 1) == (n, 2int));
    assert(parse_nodes(b, 1) =~= seq![(n, false, false)]);
}

/// The escapes name their classes: `^\d$`, `^\w$` and `^\s$` match exactly the
/// one-character texts whose character is a decimal digit, a word character (letter,
/// digit or `_`) and white space (space, tab, newline, form feed, carriage return).
pub proof fn law_class_escapes(t: Seq<char>)
    ensures
        regex_matches(parse_regex_spec("^\\d$"@), t) <==> (t.len() == 1 && '0' <= t[0] && t[0] <= '9'),
        regex_matches(parse_regex_spec("^\\w$"@), t) <==> (t.len() == 1 && (('0' <= t[0] && t[0] <= '9')
            || ('a' <= t[0] && t[0] <= 'z') || ('A' <= t[0] && t[0] <= 'Z') || t[0] == '_')),
        regex_matches(parse_regex_spec("^\\s$"@), t) <==> (t.len() == 1 && (t[0] == ' ' || t[0] == '\t'
            || t[0] == '\n' || t[0] == '\x0C' || t[0] == '\r')),
{
    reveal_strlit("^\\d$");
    reveal_strlit("^\\w$");
    reveal_strlit("^\\s$");
    assert("^\\d$"@ =~= seq!['^', '\\', 'd', '$']);
    assert("^\\w$"@ =~= seq!['^', '\\', 'w', '$']);
    assert("^\\s$"@ =~= seq!['^', '\\', 's', '$']);
    lemma_parse_anchored_escape("^\\d$"@, 'd');
    lemma_parse_anchored_escape("^\\w$"@, 'w');
    lemma_parse_anchored_escape("^\\s$"@, 's');
    lemma_single_anchored(parse_regex_spec("^\\d$"@), NodeView::Digit, t);
    lemma_single_anchored(parse_regex_spec("^\\w$"@), NodeView::Word, t);
    lemma_single_anchored(parse_regex_spec("^\\s$"@), NodeView::Space, t);
}

} // verus!
