use vstd::prelude::*;

verus! {

/// Opaque identifier of one window, as the window system hands it out.
#[derive(Clone, Copy, PartialEq, Eq, Structural, Debug, Hash)]
pub struct WindowHandle {
    pub id: u64,
}

/// One snapshot of a window and, recursively, of every window it contains.
///
/// `children` keeps the order in which the window system enumerated them.
pub struct Found {
    pub children: Vec<Found>,
    pub value: WindowHandle,
}

impl Found {
    /// Handles of the whole subtree in pre-order: the node, then each child's subtree in turn.
    pub open spec fn pre_order(self) -> Seq<WindowHandle>
        decreases self, 1int, 0int,
    {
        seq![self.value] + self.pre_order_from(0)
    }

    /// Pre-order handles of the subtrees of children `i..`.
    pub open spec fn pre_order_from(self, i: int) -> Seq<WindowHandle>
        decreases self, 0int, self.children@.len() - i,
    {
        if 0 <= i < self.children@.len() {
            self.children@[i].pre_order() + self.pre_order_from(i + 1)
        } else {
            Seq::empty()
        }
    }

    /// The node reached by following `path` as a chain of child indices.
    pub open spec fn at_path(self, path: Seq<usize>) -> Option<Found>
        decreases path.len(),
    {
        if path.len() == 0 {
            Some(self)
        } else if path[0] < self.children@.len() {
            self.children@[path[0] as int].at_path(path.drop_first())
        } else {
            None
        }
    }

    pub fn new(value: WindowHandle) -> (r: Self)
        ensures
            r.value == value,
            r.children@ == Seq::<Found>::empty(),
    {
        Found { children: Vec::new(), value }
    }

    pub fn add_child(&mut self, found: Self)
        ensures
            final(self).value == old(self).value,
            final(self).children@ == old(self).children@.push(found),
    {
        self.children.push(found);
    }

    pub fn value(&self) -> (r: WindowHandle)
        ensures
            r == self.value,
    {
        self.value
    }

    pub fn children(&self) -> (r: &[Found])
        ensures
            r@ == self.children@,
    {
        self.children.as_slice()
    }

    /// The child at `index`, or `None` while no such child exists.
    pub fn get(&self, index: usize) -> (r: Option<&Found>)
        ensures
            index < self.children@.len() ==> r == Some(&self.children@[index as int]),
            index >= self.children@.len() ==> r.is_none(),
    {
        if index < self.children.len() {
            Some(&self.children[index])
        } else {
            None
        }
    }
    /// Follows `path` as a chain of `get` calls; `None` at the first index with no child.
    pub fn lookup_by_path(&self, path: &Vec<usize>) -> (r: Option<&Found>)
        ensures
            match r {
                Some(f) => self.at_path(path@) == Some(*f),
                None => self.at_path(path@).is_none(),
            },
    {
        let mut cur: &Found = self;
        let mut k: usize = 0;
        assert(path@.subrange(0, path@.len() as int) =~= path@);
        while k < path.len()
            invariant
                k <= path@.len(),
                self.at_path(path@) == cur.at_path(path@.subrange(k as int, path@.len() as int)),
            decreases path@.len() - k,
        {
            let i = path[k];
            assert(path@.subrange(k as int, path@.len() as int).drop_first() =~= path@.subrange(
                k + 1,
                path@.len() as int,
            ));
            if i < cur.children.len() {
                cur = &cur.children[i];
                k = k + 1;
            } else {
                return None;
            }
        }
        assert(path@.subrange(k as int, path@.len() as int) =~= Seq::<usize>::empty());
        Some(cur)
    }

    /// Appends the handles of this subtree, in pre-order, to `out`.
    pub fn collect_pre_order(&self, out: &mut Vec<WindowHandle>)
        ensures
            final(out)@ == old(out)@ + self.pre_order(),
        decreases self,
    {
        out.push(self.value);
        let mut i: usize = 0;
        while i < self.children.len()
            invariant
                i <= self.children@.len(),
                out@ + self.pre_order_from(i as int) == old(out)@ + self.pre_order(),
            decreases self.children@.len() - i,
        {
            proof {
                vstd::std_specs::vec::axiom_vec_index_decreases(self.children, i as int);
            }
            let ghost before = out@;
            self.children[i].collect_pre_order(out);
            assert(before + self.pre_order_from(i as int) =~= out@ + self.pre_order_from(
                i + 1,
            ));
            i = i + 1;
        }
        assert(self.pre_order_from(i as int) =~= Seq::<WindowHandle>::empty());
        assert(out@ =~= old(out)@ + self.pre_order());
    }

    /// All handles of the snapshot in pre-order: parent first, children in enumeration order.
    pub fn into_handles(&self) -> (r: Vec<WindowHandle>)
        ensures
            r@ == self.pre_order(),
    {
        let mut out: Vec<WindowHandle> = Vec::new();
        self.collect_pre_order(&mut out);
        assert(out@ =~= self.pre_order());
        out
    }
}

/// Chained child lookup on an optional node: absence propagates instead of failing.
pub trait GetFound {
    /// The node this value stands for, if any.
    spec fn found(&self) -> Option<Found>;

    fn get(&self, index: usize) -> (r: Option<&Found>)
        ensures
            match self.found() {
                Some(f) => if index < f.children@.len() {
                    r == Some(&f.children@[index as int])
                } else {
                    r.is_none()
                },
                None => r.is_none(),
            },
    ;

    fn value(&self) -> (r: Option<WindowHandle>)
        ensures
            match self.found() {
                Some(f) => r == Some(f.value),
                None => r.is_none(),
            },
    ;
}

impl<'a> GetFound for Option<&'a Found> {
    open spec fn found(&self) -> Option<Found> {
        match self {
            Some(f) => Some(**f),
            None => None,
        }
    }

    fn get(&self, index: usize) -> (r: Option<&Found>) {
        match self {
            Some(found) => found.get(index),
            None => None,
        }
    }

    fn value(&self) -> (r: Option<WindowHandle>) {
        match self {
            Some(found) => Some(found.value),
            None => None,
        }
    }
}

impl GetFound for Option<Found> {
    open spec fn found(&self) -> Option<Found> {
        *self
    }

    fn get(&self, index: usize) -> (r: Option<&Found>) {
        match self {
            Some(found) => found.get(index),
            None => None,
        }
    }

    fn value(&self) -> (r: Option<WindowHandle>) {
        match self {
            Some(found) => Some(found.value),
            None => None,
        }
    }
}

/// A window that can be left-clicked with synthetic button messages.
pub trait Click {
    /// Sends a left button press and release to this window.
    fn click(self);
}

/// A window whose text can be read.
pub trait Text {
    /// The window's text without surrounding whitespace; empty when it cannot be read.
    fn text(self) -> String;
}

} // verus!
