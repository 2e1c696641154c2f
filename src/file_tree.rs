//! A snapshot of a project's directory tree, and the order in which a
//! directory's entries are listed: subdirectories first, then by name.
//!
//! Walking the disk is the host's part; ordering the entries is kept here.
use std::cmp::Ordering;
use vstd::prelude::*;
use vstd::string::StrSliceExecFns;

verus! {

broadcast use vstd::seq_lib::group_to_multiset_ensures;

/// One file or directory.
pub struct FileNode {
    pub name: String,
    pub path: String,
    pub is_dir: bool,
    /// The entries of a directory, in listing order; `None` for a file.
    pub children: Option<Vec<FileNode>>,
}

/// `a` sorts strictly before `b`, comparing characters by code point
/// (the order of their UTF-8 bytes); a proper prefix sorts first.
pub open spec fn name_lt(a: Seq<char>, b: Seq<char>) -> bool
    decreases a.len(),
{
    if a.len() == 0 {
        b.len() > 0
    } else if b.len() == 0 {
        false
    } else if a[0] != b[0] {
        (a[0] as int) < (b[0] as int)
    } else {
        name_lt(a.drop_first(), b.drop_first())
    }
}

/// `a` is listed strictly before `b`: a directory before a file, and between
/// two of a kind, the smaller name first.
pub open spec fn node_lt(a: FileNode, b: FileNode) -> bool {
    (a.is_dir && !b.is_dir) || (a.is_dir == b.is_dir && name_lt(a.name@, b.name@))
}

/// The entries of `s` are in listing order.
pub open spec fn listed_in_order(s: Seq<FileNode>) -> bool {
    forall|i: int, j: int| 0 <= i < j < s.len() ==> !node_lt(#[trigger] s[j], #[trigger] s[i])
}

proof fn lemma_name_lt_irreflexive(a: Seq<char>)
    ensures
        !name_lt(a, a),
    decreases a.len(),
{
    if a.len() > 0 {
        lemma_name_lt_irreflexive(a.drop_first());
    }
}

proof fn lemma_name_lt_total(a: Seq<char>, b: Seq<char>)
    ensures
        a != b ==> name_lt(a, b) || name_lt(b, a),
        !(name_lt(a, b) && name_lt(b, a)),
    decreases a.len(),
{
    if a.len() > 0 && b.len() > 0 && a[0] == b[0] {
        lemma_name_lt_total(a.drop_first(), b.drop_first());
        if a != b && a.drop_first() == b.drop_first() {
            assert(a =~= seq![a[0]] + a.drop_first());
            assert(b =~= seq![b[0]] + b.drop_first());
        }
    } else if a.len() == 0 && b.len() == 0 {
        assert(a =~= b);
    } else if a.len() > 0 && b.len() > 0 {
        assert((a[0] as int) != (b[0] as int));
    }
}

proof fn lemma_name_lt_transitive(a: Seq<char>, b: Seq<char>, c: Seq<char>)
    requires
        name_lt(a, b),
        name_lt(b, c),
    ensures
        name_lt(a, c),
    decreases a.len(),
{
    if a.len() > 0 && b.len() > 0 && c.len() > 0 && a[0] == b[0] && b[0] == c[0] {
        lemma_name_lt_transitive(a.drop_first(), b.drop_first(), c.drop_first());
    }
}

/// Compares two names character by character.
fn compare_names(a: &str, b: &str) -> (r: Ordering)
    ensures
        (r == Ordering::Less) == name_lt(a@, b@),
        (r == Ordering::Greater) == name_lt(b@, a@),
{
    let n = a.unicode_len();
    let m = b.unicode_len();
    let mut i: usize = 0;
    proof {
        lemma_name_lt_total(a@, b@);
        assert(a@.subrange(0, n as int) =~= a@);
        assert(b@.subrange(0, m as int) =~= b@);
    }
    while i < n && i < m
        invariant
            n == a@.len(),
            m == b@.len(),
            i <= n,
            i <= m,
            name_lt(a@, b@) == name_lt(a@.subrange(i as int, n as int), b@.subrange(i as int, m as int)),
            name_lt(b@, a@) == name_lt(b@.subrange(i as int, m as int), a@.subrange(i as int, n as int)),
        decreases n - i,
    {
        let x = a.get_char(i);
        let y = b.get_char(i);
        if x != y {
            if (x as u32) < (y as u32) {
                return Ordering::Less;
            } else {
                return Ordering::Greater;
            }
        }
        assert(a@.subrange(i as int, n as int).drop_first() =~= a@.subrange(i + 1, n as int));
        assert(b@.subrange(i as int, m as int).drop_first() =~= b@.subrange(i + 1, m as int));
        i = i + 1;
    }
    if n == m {
        Ordering::Equal
    } else if i == n {
        Ordering::Less
    } else {
        Ordering::Greater
    }
}

/// Compares two entries by listing order.
pub fn compare_nodes(a: &FileNode, b: &FileNode) -> (r: Ordering)
    ensures
        (r == Ordering::Less) == node_lt(*a, *b),
        (r == Ordering::Greater) == node_lt(*b, *a),
{
    if a.is_dir && !b.is_dir {
        Ordering::Less
    } else if !a.is_dir && b.is_dir {
        Ordering::Greater
    } else {
        compare_names(a.name.as_str(), b.name.as_str())
    }
}

proof fn lemma_node_lt_facts(a: FileNode, b: FileNode, c: FileNode)
    ensures
        !node_lt(a, a),
        node_lt(a, b) && node_lt(b, c) ==> node_lt(a, c),
        !node_lt(b, a) && !node_lt(c, b) ==> !node_lt(c, a),
{
    lemma_name_lt_irreflexive(a.name@);
    lemma_name_lt_total(a.name@, b.name@);
    lemma_name_lt_total(b.name@, c.name@);
    lemma_name_lt_total(a.name@, c.name@);
    if node_lt(a, b) && node_lt(b, c) && a.is_dir == c.is_dir {
        lemma_name_lt_transitive(a.name@, b.name@, c.name@);
    }
    if !node_lt(b, a) && !node_lt(c, b) && a.is_dir == b.is_dir && b.is_dir == c.is_dir {
        if name_lt(c.name@, a.name@) {
            if a.name@ == b.name@ {
            } else if b.name@ == c.name@ {
            } else {
                lemma_name_lt_transitive(c.name@, a.name@, b.name@);
            }
        }
    }
}

proof fn lemma_insert_multiset(s: Seq<FileNode>, j: int, x: FileNode)
    requires
        0 <= j <= s.len(),
    ensures
        s.insert(j, x).to_multiset() == s.to_multiset().insert(x),
{
    let t = s.insert(j, x);
    assert(t.remove(j) =~= s);
    assert(t[j] == x);
    assert(t.to_multiset().count(x) > 0);
    assert(t.to_multiset() =~= s.to_multiset().insert(x));
}

proof fn lemma_insert_keeps_order(s: Seq<FileNode>, j: int, x: FileNode)
    requires
        0 <= j <= s.len(),
        listed_in_order(s),
        forall|k: int| 0 <= k < j ==> !node_lt(x, #[trigger] s[k]),
        j < s.len() ==> node_lt(x, s[j]),
    ensures
        listed_in_order(s.insert(j, x)),
{
    let t = s.insert(j, x);
    assert forall|a: int, b: int| 0 <= a < b < t.len() implies !node_lt(
        #[trigger] t[b],
        #[trigger] t[a],
    ) by {
        if b < j {
            assert(t[a] == s[a] && t[b] == s[b]);
        } else if b == j {
            assert(t[a] == s[a]);
            assert(!node_lt(x, s[a]));
        } else if a == j {
            assert(t[b] == s[b - 1]);
            lemma_node_lt_facts(x, s[j], s[b - 1]);
            lemma_node_lt_facts(s[b - 1], x, s[j]);
            if b - 1 > j {
                assert(!node_lt(s[b - 1], s[j]));
            }
        } else if a < j {
            assert(t[a] == s[a] && t[b] == s[b - 1]);
        } else {
            assert(t[a] == s[a - 1] && t[b] == s[b - 1]);
        }
    }
}

/// Puts a directory's entries in listing order.
pub fn sort_nodes(nodes: Vec<FileNode>) -> (r: Vec<FileNode>)
    ensures
        r@.to_multiset() == nodes@.to_multiset(),
        listed_in_order(r@),
{
    let mut rest = nodes;
    let mut out: Vec<FileNode> = Vec::new();
    while rest.len() > 0
        invariant
            rest@.to_multiset().add(out@.to_multiset()) == nodes@.to_multiset(),
            listed_in_order(out@),
        decreases rest@.len(),
    {
        let ghost before = rest@;
        let x = rest.pop().unwrap();
        assert(before =~= rest@.push(x));
        let mut j: usize = 0;
        loop
            invariant
                j <= out@.len(),
                forall|k: int| 0 <= k < j ==> !node_lt(x, #[trigger] out@[k]),
            ensures
                j <= out@.len(),
                forall|k: int| 0 <= k < j ==> !node_lt(x, #[trigger] out@[k]),
                j < out@.len() ==> node_lt(x, out@[j as int]),
            decreases out@.len() - j,
        {
            if j == out.len() {
                break;
            }
            if let Ordering::Less = compare_nodes(&x, &out[j]) {
                break;
            }
            j = j + 1;
        }
        let ghost old_out = out@;
        out.insert(j, x);
        proof {
            lemma_insert_keeps_order(old_out, j as int, x);
            lemma_insert_multiset(old_out, j as int, x);
        }
    }
    assert(rest@ =~= Seq::<FileNode>::empty());
    out
}

/// The node of a file.
pub fn file_node(name: String, path: String) -> (r: FileNode)
    ensures
        r.name@ == name@,
        r.path@ == path@,
        !r.is_dir,
        r.children is None,
{
    FileNode { name, path, is_dir: false, children: None }
}

/// The node of a directory, its entries put in listing order.
pub fn directory_node(name: String, path: String, children: Vec<FileNode>) -> (r: FileNode)
    ensures
        r.name@ == name@,
        r.path@ == path@,
        r.is_dir,
        r.children matches Some(c) && c@.to_multiset() == children@.to_multiset()
            && listed_in_order(c@),
{
    FileNode { name, path, is_dir: true, children: Some(sort_nodes(children)) }
}

} // verus!
