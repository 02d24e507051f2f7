//! The prop tree of a package schema variant, built by inserting props under
//! slash-separated parent paths.

use vstd::prelude::*;

verus! {

/// The kind of value a prop holds.
#[derive(Clone, Copy, Debug, PartialEq, Eq)]
pub enum PropKind {
    Array,
    Boolean,
    Integer,
    KeyValueMap,
    Object,
    String,
}

/// The mathematical model of a prop node and its subtree.
pub struct PropNodeView {
    pub name: Seq<char>,
    pub kind: PropKind,
    pub children: Seq<PropNodeView>,
}

/// A prop of a package and the props nested under it.
#[derive(Debug)]
pub struct PkgPropNode {
    name: String,
    kind: PropKind,
    children: Vec<PkgPropNode>,
}

impl PkgPropNode {
    pub closed spec fn model(&self) -> PropNodeView
        decreases self,
    {
        PropNodeView {
            name: self.name@,
            kind: self.kind,
            children: Seq::new(
                self.children@.len(),
                |i: int|
                    if 0 <= i < self.children@.len() {
                        self.children@[i].model()
                    } else {
                        PropNodeView { name: Seq::empty(), kind: PropKind::Object, children: Seq::empty() }
                    },
            ),
        }
    }
}

/// A copy of `node` and its whole subtree.
fn copy_node(node: &PkgPropNode) -> (r: PkgPropNode)
    ensures
        r.model() == node.model(),
    decreases node,
{
    let mut children: Vec<PkgPropNode> = Vec::new();
    let mut i: usize = 0;
    while i < node.children.len()
        invariant
            i <= node.children@.len(),
            children@.len() == i,
            forall|k: int| 0 <= k < i ==> #[trigger] children@[k].model() == node.children@[k].model(),
        decreases node.children@.len() - i,
    {
        let c = copy_node(&node.children[i]);
        children.push(c);
        i = i + 1;
    }
    let r = PkgPropNode { name: node.name.clone(), kind: node.kind, children };
    assert forall|k: int| 0 <= k < r.children@.len() implies r.model().children[k]
        == node.model().children[k] by {
        assert(r.children@[k].model() == node.children@[k].model());
    }
    assert(r.model().children =~= node.model().children);
    r
}

impl Clone for PkgPropNode {
    fn clone(&self) -> (r: PkgPropNode)
        ensures
            r.model() == self.model(),
    {
        copy_node(self)
    }
}

/// The nonempty parts of a slash-separated path, in order.
pub open spec fn path_parts(path: Seq<char>) -> Seq<Seq<char>>
    decreases path.len(),
{
    if path.len() == 0 {
        Seq::empty()
    } else {
        let rest = path_parts(path.drop_last());
        let c = path.last();
        if c == '/' {
            rest
        } else if path.len() >= 2 && path[path.len() - 2] != '/' {
            rest.drop_last().push(rest.last().push(c))
        } else {
            rest.push(seq![c])
        }
    }
}

pub open spec fn string_views(v: Seq<String>) -> Seq<Seq<char>> {
    v.map_values(|p: String| p@)
}

/// Splits `path` at each `/`, leaving out empty parts.
fn split_path(path: &str) -> (r: Vec<String>)
    ensures
        string_views(r@) == path_parts(path@),
{
    let n = path.unicode_len();
    let ghost s = path@;
    let mut parts: Vec<String> = Vec::new();
    let mut start: usize = 0;
    let mut i: usize = 0;
    while i < n
        invariant
            n == s.len(),
            s == path@,
            start <= i <= n,
            start == 0 || s[start - 1] == '/',
            forall|k: int| start <= k < i ==> s[k] != '/',
            path_parts(s.subrange(0, i as int)) == string_views(parts@) + (if start < i {
                seq![s.subrange(start as int, i as int)]
            } else {
                Seq::empty()
            }),
        decreases n - i,
    {
        let c = path.get_char(i);
        let ghost before = string_views(parts@);
        assert(s.subrange(0, i + 1).drop_last() =~= s.subrange(0, i as int));
        if c == '/' {
            if start < i {
                let part = path.substring_char(start, i).to_owned();
                parts.push(part);
                assert(string_views(parts@) =~= before.push(s.subrange(start as int, i as int)));
            }
            start = i + 1;
            assert(string_views(parts@) + Seq::empty() =~= string_views(parts@));
        } else {
            if start < i {
                assert(s[i - 1] != '/');
                assert(s.subrange(start as int, i + 1) =~= s.subrange(start as int, i as int).push(
                    c,
                ));
            } else {
                assert(s.subrange(start as int, i + 1) =~= seq![c]);
            }
        }
        i = i + 1;
    }
    assert(s.subrange(0, n as int) =~= s);
    if start < n {
        let ghost before = string_views(parts@);
        let part = path.substring_char(start, n).to_owned();
        parts.push(part);
        assert(string_views(parts@) =~= before.push(s.subrange(start as int, n as int)));
    } else {
        assert(string_views(parts@) + Seq::empty() =~= string_views(parts@));
    }
    parts
}

/// Index `i` is the first child named `name`.
pub open spec fn is_first_named(children: Seq<PropNodeView>, name: Seq<char>, i: int) -> bool {
    &&& 0 <= i < children.len()
    &&& children[i].name == name
    &&& forall|j: int| 0 <= j < i ==> children[j].name != name
}

/// The index of the first child named `name`, if there is one.
pub open spec fn first_child_named(children: Seq<PropNodeView>, name: Seq<char>) -> Option<int> {
    if exists|i: int| is_first_named(children, name, i) {
        Some(choose|i: int| is_first_named(children, name, i))
    } else {
        None
    }
}

/// The child indexes that lead from `node` along the names `parts`, taking the
/// first child of each name; `None` where some name is missing.
pub open spec fn find_path(node: PropNodeView, parts: Seq<Seq<char>>) -> Option<Seq<int>>
    decreases parts.len(),
{
    if parts.len() == 0 {
        Some(Seq::empty())
    } else {
        match first_child_named(node.children, parts[0]) {
            None => None,
            Some(i) => match find_path(node.children[i], parts.drop_first()) {
                None => None,
                Some(p) => Some(seq![i] + p),
            },
        }
    }
}

/// Every index of `path` names a child on the way down from `node`.
pub open spec fn valid_path(node: PropNodeView, path: Seq<int>) -> bool
    decreases path.len(),
{
    path.len() == 0 || (0 <= path[0] < node.children.len() && valid_path(
        node.children[path[0]],
        path.drop_first(),
    ))
}

/// `node` with `prop` appended to the children of the node that `path` leads
/// to.
pub open spec fn insert_at(node: PropNodeView, path: Seq<int>, prop: PropNodeView) -> PropNodeView
    decreases path.len(),
{
    if path.len() == 0 {
        PropNodeView { children: node.children.push(prop), ..node }
    } else {
        PropNodeView {
            children: node.children.update(
                path[0],
                insert_at(node.children[path[0]], path.drop_first(), prop),
            ),
            ..node
        }
    }
}

proof fn lemma_find_path_valid(node: PropNodeView, parts: Seq<Seq<char>>)
    ensures
        find_path(node, parts) matches Some(p) ==> valid_path(node, p),
    decreases parts.len(),
{
    if parts.len() > 0 {
        if let Some(i) = first_child_named(node.children, parts[0]) {
            lemma_find_path_valid(node.children[i], parts.drop_first());
            if let Some(p) = find_path(node.children[i], parts.drop_first()) {
                assert((seq![i] + p).drop_first() =~= p);
            }
        }
    }
}

pub open spec fn index_views(v: Seq<usize>) -> Seq<int> {
    v.map_values(|x: usize| x as int)
}

/// The index of the first child of `node` named `name`.
fn find_child(node: &PkgPropNode, name: &String) -> (r: Option<usize>)
    ensures
        match r {
            Some(i) => first_child_named(node.model().children, name@) == Some(i as int),
            None => first_child_named(node.model().children, name@) is None,
        },
{
    let ghost kids = node.model().children;
    assert(kids.len() == node.children@.len());
    let mut j: usize = 0;
    while j < node.children.len()
        invariant
            j <= node.children@.len(),
            kids == node.model().children,
            kids.len() == node.children@.len(),
            forall|k: int| 0 <= k < j ==> kids[k].name != name@,
        decreases node.children@.len() - j,
    {
        assert(kids[j as int] == node.children@[j as int].model());
        if node.children[j].name == *name {
            assert(is_first_named(kids, name@, j as int));
            assert forall|i: int| is_first_named(kids, name@, i) implies i == j by {
                if i < j {
                } else if i > j {
                    assert(kids[j as int].name == name@);
                }
            }
            return Some(j);
        }
        j = j + 1;
    }
    assert(!exists|i: int| is_first_named(kids, name@, i));
    None
}

/// The child indexes along `parts[k..]` from `node`.
fn find_indexes(node: &PkgPropNode, parts: &Vec<String>, k: usize) -> (r: Option<Vec<usize>>)
    requires
        k <= parts@.len(),
    ensures
        match r {
            Some(v) => find_path(node.model(), string_views(parts@).subrange(k as int, parts@.len() as int))
                == Some(index_views(v@)),
            None => find_path(node.model(), string_views(parts@).subrange(k as int, parts@.len() as int)) is None,
        },
    decreases parts@.len() - k,
{
    let ghost rest = string_views(parts@).subrange(k as int, parts@.len() as int);
    if k == parts.len() {
        let v: Vec<usize> = Vec::new();
        assert(index_views(v@) =~= Seq::empty());
        return Some(v);
    }
    assert(rest[0] == parts@[k as int]@);
    assert(rest.drop_first() =~= string_views(parts@).subrange(k + 1, parts@.len() as int));
    match find_child(node, &parts[k]) {
        None => None,
        Some(i) => {
            assert(node.model().children[i as int] == node.children@[i as int].model());
            match find_indexes(&node.children[i], parts, k + 1) {
                None => None,
                Some(mut v) => {
                    let ghost tail = v@;
                    v.insert(0, i);
                    assert(index_views(v@) =~= seq![i as int] + index_views(tail));
                    Some(v)
                },
            }
        },
    }
}

/// Appends `prop` to the children of the node that `path[k..]` leads to from
/// `node`.
fn insert_at_path(node: &mut PkgPropNode, path: &Vec<usize>, k: usize, prop: PkgPropNode)
    requires
        k <= path@.len(),
        valid_path(old(node).model(), index_views(path@).subrange(k as int, path@.len() as int)),
    ensures
        final(node).model() == insert_at(
            old(node).model(),
            index_views(path@).subrange(k as int, path@.len() as int),
            prop.model(),
        ),
    decreases path@.len() - k,
{
    let ghost p = index_views(path@).subrange(k as int, path@.len() as int);
    let ghost old_model = node.model();
    if k == path.len() {
        let ghost pm = prop.model();
        node.children.push(prop);
        assert(node.model().children =~= old_model.children.push(pm)) by {
            assert forall|j: int| 0 <= j < node.children@.len() implies node.model().children[j]
                == old_model.children.push(pm)[j] by {
            }
        }
        return;
    }
    let i = path[k];
    assert(p[0] == i as int);
    assert(p.drop_first() =~= index_views(path@).subrange(k + 1, path@.len() as int));
    assert(old_model.children[i as int] == node.children@[i as int].model());
    let ghost old_children = node.children@;
    insert_at_path(&mut node.children[i], path, k + 1, prop);
    proof {
        let target = insert_at(old_model, p, prop.model());
        assert forall|j: int| 0 <= j < node.children@.len() implies node.model().children[j]
            == target.children[j] by {
            if j != i {
                assert(node.children@[j] == old_children[j]);
            }
        }
        assert(node.model().children =~= target.children);
    }
}

impl PkgPropNode {
    /// A prop with no children yet.
    pub fn new(name: String, kind: PropKind) -> (r: PkgPropNode)
        ensures
            r.model() == (PropNodeView { name: name@, kind, children: Seq::empty() }),
    {
        let r = PkgPropNode { name, kind, children: Vec::new() };
        assert(r.model().children =~= Seq::<PropNodeView>::empty());
        r
    }

    pub fn name(&self) -> (r: &String)
        ensures
            r@ == self.model().name,
    {
        &self.name
    }

    pub fn kind(&self) -> (r: PropKind)
        ensures
            r == self.model().kind,
    {
        self.kind
    }

    /// Copies of the props directly under this one, in order.
    pub fn children(&self) -> (r: Vec<PkgPropNode>)
        ensures
            r@.len() == self.model().children.len(),
            forall|i: int| 0 <= i < r@.len() ==> #[trigger] r@[i].model() == self.model().children[i],
    {
        copy_children(&self.children)
    }
}

/// Copies of the nodes of `nodes`, in order.
fn copy_children(nodes: &Vec<PkgPropNode>) -> (r: Vec<PkgPropNode>)
    ensures
        r@.len() == nodes@.len(),
        forall|i: int| 0 <= i < r@.len() ==> #[trigger] r@[i].model() == nodes@[i].model(),
{
    let mut r: Vec<PkgPropNode> = Vec::new();
    let mut i: usize = 0;
    while i < nodes.len()
        invariant
            i <= nodes@.len(),
            r@.len() == i,
            forall|k: int| 0 <= k < i ==> #[trigger] r@[k].model() == nodes@[k].model(),
        decreases nodes@.len() - i,
    {
        r.push(copy_node(&nodes[i]));
        i = i + 1;
    }
    r
}

/// Builds the prop tree of a schema variant under a root prop named `domain`.
#[derive(Debug)]
pub struct PkgPropTreeBuilder {
    root: PkgPropNode,
}

impl PkgPropTreeBuilder {
    /// The model of the whole tree, root included.
    pub closed spec fn model(&self) -> PropNodeView {
        self.root.model()
    }

    /// Appends `prop` to the children of the prop that `parent_path` names,
    /// one name per nonempty part, taking the first child of each name; an
    /// empty path names the root. Where no prop has that path, nothing changes.
    pub fn insert_prop(&mut self, parent_path: &str, prop: PkgPropNode)
        ensures
            match find_path(old(self).model(), path_parts(parent_path@)) {
                Some(p) => final(self).model() == insert_at(old(self).model(), p, prop.model()),
                None => final(self).model() == old(self).model(),
            },
    {
        let parts = split_path(parent_path);
        assert(string_views(parts@).subrange(0, parts@.len() as int) =~= string_views(parts@));
        match find_indexes(&self.root, &parts, 0) {
            Some(path) => {
                proof {
                    lemma_find_path_valid(self.root.model(), path_parts(parent_path@));
                    assert(index_views(path@).subrange(0, path@.len() as int) =~= index_views(
                        path@,
                    ));
                }
                insert_at_path(&mut self.root, &path, 0, prop);
            },
            None => {},
        }
    }

    /// Copies of the props directly under the root, in order.
    pub fn domain_children(&self) -> (r: Vec<PkgPropNode>)
        ensures
            r@.len() == self.model().children.len(),
            forall|i: int| 0 <= i < r@.len() ==> #[trigger] r@[i].model() == self.model().children[i],
    {
        copy_children(&self.root.children)
    }
}

impl Default for PkgPropTreeBuilder {
    /// A tree holding only the root object prop `domain`.
    fn default() -> (r: PkgPropTreeBuilder)
        ensures
            r.model() == (PropNodeView {
                name: "domain"@,
                kind: PropKind::Object,
                children: Seq::empty(),
            }),
    {
        PkgPropTreeBuilder { root: PkgPropNode::new("domain".to_owned(), PropKind::Object) }
    }
}

/// A schema variant of a package with its prop tree.
#[derive(Debug)]
pub struct PkgSchemaVariant {
    pub schema_name: String,
    pub props: Vec<PkgPropNode>,
}

impl PkgSchemaVariant {
    pub fn new(schema_name: String, props: Vec<PkgPropNode>) -> (r: PkgSchemaVariant)
        ensures
            r.schema_name == schema_name,
            r.props == props,
    {
        PkgSchemaVariant { schema_name, props }
    }
}

} // verus!
