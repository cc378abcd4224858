use vstd::prelude::*;
use crate::tree::{Found, WindowHandle};

verus! {

/// Axis-aligned rectangle in screen coordinates.
#[derive(Clone, Copy, PartialEq, Eq, Structural, Debug)]
pub struct Rect {
    pub left: i32,
    pub top: i32,
    pub right: i32,
    pub bottom: i32,
}

/// A position on the screen.
#[derive(Clone, Copy, PartialEq, Eq, Structural, Debug)]
pub struct Point {
    pub x: i32,
    pub y: i32,
}

/// What the window system reports about one window, read once per snapshot.
pub struct WindowInfo {
    pub text: String,
    pub name: String,
    pub w_type: String,
    pub rect: Rect,
    pub atom: u32,
}

/// One window of a snapshot with its data, its place in the tree and its children.
pub struct WinData {
    pub handle: WindowHandle,
    pub text: String,
    pub name: String,
    pub w_type: String,
    pub rect: Rect,
    pub atom: u32,
    pub depth: usize,
    pub path: Vec<usize>,
    pub children: Vec<WinData>,
}

/// Whether `p` lies strictly inside `r`.
pub open spec fn spec_contains(r: Rect, p: Point) -> bool {
    r.bottom > p.y && r.top < p.y && r.left < p.x && r.right > p.x
}

/// Index in a pre-order listing of `f` at which the subtree of child `i` starts.
pub open spec fn child_start(f: Found, start: int, i: int) -> int {
    start + f.pre_order().len() - f.pre_order_from(i).len()
}

impl WinData {
    /// `self` is the snapshot of `f`, placed at `depth` and `path`, whose nodes took their
    /// data from `infos` in pre-order, starting at `start`.
    pub open spec fn mirrors(
        self,
        f: Found,
        depth: nat,
        path: Seq<usize>,
        infos: Seq<WindowInfo>,
        start: int,
    ) -> bool
        decreases f, 1int, 0int,
    {
        &&& self.handle == f.value
        &&& self.depth == depth
        &&& self.path@ == path
        &&& 0 <= start < infos.len()
        &&& self.text@ == infos[start].text@
        &&& self.name@ == infos[start].name@
        &&& self.w_type@ == infos[start].w_type@
        &&& self.rect == infos[start].rect
        &&& self.atom == infos[start].atom
        &&& self.children@.len() == f.children@.len()
        &&& self.mirrors_from(f, 0, depth, path, infos, start + 1)
    }

    /// Children `i..` of `self` mirror those of `f`, the first of them starting at `at`.
    pub open spec fn mirrors_from(
        self,
        f: Found,
        i: int,
        depth: nat,
        path: Seq<usize>,
        infos: Seq<WindowInfo>,
        at: int,
    ) -> bool
        decreases f, 0int, f.children@.len() - i,
    {
        if 0 <= i < f.children@.len() && i < self.children@.len() {
            &&& self.children@[i].mirrors(
                f.children@[i],
                depth + 1,
                path.push(i as usize),
                infos,
                at,
            )
            &&& self.mirrors_from(f, i + 1, depth, path, infos, at + f.children@[i].pre_order().len())
        } else {
            true
        }
    }
    /// The deepest window of this subtree whose rectangle holds `p`, preferring earlier
    /// children; `None` when this window itself does not hold it.
    pub open spec fn containing(self, p: Point) -> Option<WinData>
        decreases self, 1int, 0int,
    {
        if !spec_contains(self.rect, p) {
            None
        } else {
            match self.containing_from(0, p) {
                Some(d) => Some(d),
                None => Some(self),
            }
        }
    }

    /// The first result of `containing` among children `i..`.
    pub open spec fn containing_from(self, i: int, p: Point) -> Option<WinData>
        decreases self, 0int, self.children@.len() - i,
    {
        if 0 <= i < self.children@.len() {
            match self.children@[i].containing(p) {
                Some(d) => Some(d),
                None => self.containing_from(i + 1, p),
            }
        } else {
            None
        }
    }

    /// The innermost window under the cursor: the first child, in enumeration order, whose
    /// subtree holds it, searched recursively; else this window, if it holds the cursor.
    pub fn last_child_containing(&self, cursor_pos: &Point) -> (r: Option<&WinData>)
        ensures
            match r {
                Some(d) => self.containing(*cursor_pos) == Some(*d),
                None => self.containing(*cursor_pos).is_none(),
            },
        decreases self,
    {
        let pos = self.rect;
        if !(pos.bottom > cursor_pos.y && pos.top < cursor_pos.y && pos.left < cursor_pos.x
            && pos.right > cursor_pos.x) {
            return None;
        }
        let mut i: usize = 0;
        while i < self.children.len()
            invariant
                i <= self.children@.len(),
                spec_contains(self.rect, *cursor_pos),
                self.containing_from(0, *cursor_pos) == self.containing_from(i as int, *cursor_pos),
            decreases self.children@.len() - i,
        {
            proof {
                vstd::std_specs::vec::axiom_vec_index_decreases(self.children, i as int);
            }
            if let Some(contains) = self.children[i].last_child_containing(cursor_pos) {
                assert(self.containing_from(i as int, *cursor_pos) == Some(*contains));
                return Some(contains);
            }
            i = i + 1;
        }
        Some(self)
    }
}

/// Children `i..` of `d` that each mirror their counterpart in `f`, laid out one after the
/// other from `child_start(f, start, i)`, make `mirrors_from` hold.
proof fn lemma_mirrors_from(
    d: WinData,
    f: Found,
    i: int,
    depth: nat,
    path: Seq<usize>,
    infos: Seq<WindowInfo>,
    start: int,
)
    requires
        0 <= i <= f.children@.len(),
        d.children@.len() == f.children@.len(),
        forall|k: int|
            i <= k < f.children@.len() ==> #[trigger] d.children@[k].mirrors(
                f.children@[k],
                depth + 1,
                path.push(k as usize),
                infos,
                child_start(f, start, k),
            ),
    ensures
        d.mirrors_from(f, i, depth, path, infos, child_start(f, start, i)),
    decreases f.children@.len() - i,
{
    if i < f.children@.len() {
        lemma_mirrors_from(d, f, i + 1, depth, path, infos, start);
        assert(d.children@[i].mirrors(
            f.children@[i],
            depth + 1,
            path.push(i as usize),
            infos,
            child_start(f, start, i),
        ));
        assert(child_start(f, start, i) + f.children@[i].pre_order().len() == child_start(
            f,
            start,
            i + 1,
        ));
        assert(f.pre_order_from(i).len() == f.children@[i].pre_order().len() + f.pre_order_from(
            i + 1,
        ).len());
    }
}

/// Lengths of pre-order listings: a child's subtree is never empty and never longer
/// than what is left from its index on.
proof fn lemma_from_len(f: Found, i: int)
    requires
        0 <= i <= f.children@.len(),
    ensures
        f.pre_order().len() == 1 + f.pre_order_from(0).len(),
        f.pre_order_from(i).len() <= f.pre_order_from(0).len(),
        i < f.children@.len() ==> f.pre_order_from(i).len() == f.children@[i].pre_order().len()
            + f.pre_order_from(i + 1).len() && f.children@[i].pre_order().len() >= 1,
    decreases i,
{
    if i > 0 {
        lemma_from_len(f, i - 1);
    }
    if i < f.children@.len() {
        assert(f.children@[i].pre_order().len() >= 1);
    }
}

/// Each child `k >= i` covered by `mirrors_from` mirrors its counterpart, from the index that
/// follows the subtrees of the children before it.
proof fn lemma_mirrors_from_get(
    d: WinData,
    f: Found,
    i: int,
    depth: nat,
    path: Seq<usize>,
    infos: Seq<WindowInfo>,
    at: int,
    k: int,
)
    requires
        0 <= i <= k < f.children@.len(),
        d.children@.len() == f.children@.len(),
        d.mirrors_from(f, i, depth, path, infos, at),
    ensures
        d.children@[k].mirrors(
            f.children@[k],
            depth + 1,
            path.push(k as usize),
            infos,
            at + f.pre_order_from(i).len() - f.pre_order_from(k).len(),
        ),
    decreases k - i,
{
    if i < k {
        lemma_mirrors_from_get(
            d,
            f,
            i + 1,
            depth,
            path,
            infos,
            at + f.children@[i].pre_order().len(),
            k,
        );
    }
}

/// Child `k` of a snapshot sits one level deeper, at the parent's path extended by `k`, and
/// stands for child `k` of the tree it was built from.
pub proof fn lemma_child_place(
    d: WinData,
    f: Found,
    depth: nat,
    path: Seq<usize>,
    infos: Seq<WindowInfo>,
    start: int,
    k: int,
)
    requires
        d.mirrors(f, depth, path, infos, start),
        0 <= k < f.children@.len(),
    ensures
        d.children@[k].mirrors(
            f.children@[k],
            depth + 1,
            path.push(k as usize),
            infos,
            child_start(f, start, k),
        ),
        d.children@[k].depth == depth + 1,
        d.children@[k].path@ == path.push(k as usize),
        d.children@[k].handle == f.children@[k].value,
{
    lemma_mirrors_from_get(d, f, 0, depth, path, infos, start + 1, k);
    assert(f.pre_order().len() == 1 + f.pre_order_from(0).len());
}

/// In a snapshot built by `get_window_data`, child `i` of the root is at depth 1 with path
/// `[i]` and grandchild `j` of it at depth 2 with path `[i, j]`, each standing for the window
/// at that position of the discovered tree.
pub proof fn lemma_snapshot_paths(d: WinData, f: Found, infos: Seq<WindowInfo>)
    requires
        d.mirrors(f, 0, Seq::empty(), infos, 0),
    ensures
        forall|i: int|
            0 <= i < f.children@.len() ==> {
                &&& (#[trigger] d.children@[i]).depth == 1
                &&& d.children@[i].path@ == seq![i as usize]
                &&& d.children@[i].handle == f.children@[i].value
            },
        forall|i: int, j: int|
            0 <= i < f.children@.len() && 0 <= j < f.children@[i].children@.len() ==> {
                &&& (#[trigger] d.children@[i].children@[j]).depth == 2
                &&& d.children@[i].children@[j].path@ == seq![i as usize, j as usize]
                &&& d.children@[i].children@[j].handle == f.children@[i].children@[j].value
            },
{
    assert forall|i: int| 0 <= i < f.children@.len() implies {
        &&& (#[trigger] d.children@[i]).depth == 1
        &&& d.children@[i].path@ == seq![i as usize]
        &&& d.children@[i].handle == f.children@[i].value
    } by {
        lemma_child_place(d, f, 0, Seq::empty(), infos, 0, i);
        assert(Seq::<usize>::empty().push(i as usize) =~= seq![i as usize]);
    }
    assert forall|i: int, j: int|
        0 <= i < f.children@.len() && 0 <= j < f.children@[i].children@.len() implies {
        &&& (#[trigger] d.children@[i].children@[j]).depth == 2
        &&& d.children@[i].children@[j].path@ == seq![i as usize, j as usize]
        &&& d.children@[i].children@[j].handle == f.children@[i].children@[j].value
    } by {
        lemma_child_place(d, f, 0, Seq::empty(), infos, 0, i);
        lemma_child_place(
            d.children@[i],
            f.children@[i],
            1,
            Seq::<usize>::empty().push(i as usize),
            infos,
            child_start(f, 0, i),
            j,
        );
        assert(Seq::<usize>::empty().push(i as usize).push(j as usize) =~= seq![
            i as usize,
            j as usize,
        ]);
    }
}

/// Builds the snapshot of `found` at `depth` and `path`, taking each node's data from
/// `infos` in pre-order from `start`; returns it with the index after its last node.
fn build(found: &Found, depth: usize, path: Vec<usize>, infos: &Vec<WindowInfo>, start: usize) -> (r: (
    WinData,
    usize,
))
    requires
        start + found.pre_order().len() <= infos.len(),
        depth + found.pre_order().len() <= usize::MAX,
    ensures
        r.0.mirrors(*found, depth as nat, path@, infos@, start as int),
        r.1 == start + found.pre_order().len(),
    decreases found,
{
    proof {
        lemma_from_len(*found, 0);
    }
    let mut kids: Vec<WinData> = Vec::new();
    let mut at: usize = start + 1;
    let mut i: usize = 0;
    while i < found.children.len()
        invariant
            i <= found.children@.len(),
            kids@.len() == i,
            at == child_start(*found, start as int, i as int),
            start + found.pre_order().len() <= infos.len(),
            depth + found.pre_order().len() <= usize::MAX,
            found.pre_order().len() == 1 + found.pre_order_from(0).len(),
            forall|k: int|
                0 <= k < i ==> #[trigger] kids@[k].mirrors(
                    found.children@[k],
                    (depth + 1) as nat,
                    path@.push(k as usize),
                    infos@,
                    child_start(*found, start as int, k),
                ),
        decreases found.children@.len() - i,
    {
        proof {
            vstd::std_specs::vec::axiom_vec_index_decreases(found.children, i as int);
            lemma_from_len(*found, i as int);
        }
        let mut p = path.clone();
        assert(p@ == path@);
        p.push(i);
        let (d, next) = build(&found.children[i], depth + 1, p, infos, at);
        kids.push(d);
        at = next;
        i = i + 1;
    }
    let info = &infos[start];
    let data = WinData {
        handle: found.value,
        text: info.text.clone(),
        name: info.name.clone(),
        w_type: info.w_type.clone(),
        rect: info.rect,
        atom: info.atom,
        depth,
        path,
        children: kids,
    };
    proof {
        lemma_mirrors_from(data, *found, 0, depth as nat, data.path@, infos@, start as int);
    }
    (data, at)
}

/// The snapshot of `found` with data, depth and path for every node; `infos[k]` holds what
/// the window system reported for the `k`-th handle of `found` in pre-order.
pub fn get_window_data(found: &Found, infos: &Vec<WindowInfo>) -> (r: WinData)
    requires
        infos.len() == found.pre_order().len(),
    ensures
        r.mirrors(*found, 0, Seq::empty(), infos@, 0),
{
    let (d, _) = build(found, 0, Vec::new(), infos, 0);
    d
}

} // verus!
