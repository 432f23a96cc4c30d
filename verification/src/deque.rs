//! A double-ended queue of nodes linked in both directions.
//!
//! A node is reachable from several places at once: the list's head and
//! tail slots and both of its neighbours. To give the nodes stable,
//! shareable addresses, they live in an arena of slots and every link is
//! a slot index. Vacated slots are kept on a free list and reused, so a
//! node's storage is reclaimed exactly when the last link to it is gone,
//! and tearing the whole list down is a plain arena drop — no recursion,
//! however long the list.

use vstd::prelude::*;

verus! {

/// One node: an element plus links to its neighbours, if any.
struct Node<T> {
    elem: T,
    prev: Option<usize>,
    next: Option<usize>,
}

pub struct List<T> {
    /// The arena. A `Some` slot holds a live node; a `None` slot is vacant.
    slots: Vec<Option<Node<T>>>,
    /// Vacant slots, available for reuse by the next push.
    free: Vec<usize>,
    /// The first node of the list, if any.
    head: Option<usize>,
    /// The last node of the list, if any.
    tail: Option<usize>,
    /// The slot index of each live node, front to back.
    order: Ghost<Seq<usize>>,
}

impl<T> List<T> {
    /// The free list names vacant slots only, each at most once.
    spec fn free_wf(&self) -> bool {
        &&& forall|k: int|
            0 <= k < self.free@.len() ==> (#[trigger] self.free@[k]) < self.slots@.len()
                && self.slots@[self.free@[k] as int] is None
        &&& forall|k1: int, k2: int|
            0 <= k1 < k2 < self.free@.len() ==> self.free@[k1] != self.free@[k2]
    }

    /// The order sequence names distinct live slots; each node's links
    /// agree with its neighbours in the order, the first node has no
    /// predecessor, the last has no successor, and the head and tail
    /// slots point at the two ends.
    spec fn order_wf(&self) -> bool {
        let ord = self.order@;
        &&& forall|k: int|
            0 <= k < ord.len() ==> (#[trigger] ord[k]) < self.slots@.len()
                && self.slots@[ord[k] as int] is Some
        &&& forall|k1: int, k2: int| 0 <= k1 < k2 < ord.len() ==> ord[k1] != ord[k2]
        &&& forall|k: int|
            0 <= k < ord.len() ==> (#[trigger] self.slots@[ord[k] as int]).unwrap().prev == (
            if k == 0 {
                None::<usize>
            } else {
                Some(ord[k - 1])
            })
        &&& forall|k: int|
            0 <= k < ord.len() ==> (#[trigger] self.slots@[ord[k] as int]).unwrap().next == (
            if k == ord.len() - 1 {
                None::<usize>
            } else {
                Some(ord[k + 1])
            })
        &&& self.head == (if ord.len() == 0 {
            None::<usize>
        } else {
            Some(ord[0])
        })
        &&& self.tail == (if ord.len() == 0 {
            None::<usize>
        } else {
            Some(ord[ord.len() - 1])
        })
    }

    /// The list's structural invariant: every push and pop preserves it.
    /// Every slot is accounted for exactly once, as a live node or as a
    /// vacancy, so the arena never leaks a slot.
    pub closed spec fn wf(&self) -> bool {
        &&& self.order_wf()
        &&& self.free_wf()
        &&& self.order@.len() + self.free@.len() == self.slots@.len()
    }
}

impl<T> View for List<T> {
    type V = Seq<T>;

    /// The elements of the list, front to back.
    closed spec fn view(&self) -> Seq<T> {
        Seq::new(self.order@.len(), |k: int| self.slots@[self.order@[k] as int].unwrap().elem)
    }
}

impl<T> List<T> {
    pub fn new() -> (l: Self)
        ensures
            l.wf(),
            l@ == Seq::<T>::empty(),
    {
        let l = List { slots: Vec::new(), free: Vec::new(), head: None, tail: None, order: Ghost(Seq::empty()) };
        proof {
            assert(l@ =~= Seq::<T>::empty());
        }
        l
    }
}

impl<T> List<T> {
    /// Store `node` in a vacant slot, reusing a freed one when possible,
    /// and return its index.
    fn claim_slot(&mut self, node: Node<T>) -> (idx: usize)
        requires
            old(self).free_wf(),
        ensures
            final(self).free_wf(),
            final(self).head == old(self).head,
            final(self).tail == old(self).tail,
            final(self).order@ == old(self).order@,
            idx < final(self).slots@.len(),
            final(self).slots@ == (if idx < old(self).slots@.len() {
                old(self).slots@.update(idx as int, Some(node))
            } else {
                old(self).slots@.push(Some(node))
            }),
            idx == old(self).slots@.len() || (idx < old(self).slots@.len()
                && old(self).slots@[idx as int] is None),
            final(self).free@ == (if idx < old(self).slots@.len() {
                old(self).free@.drop_last()
            } else {
                old(self).free@
            }),
            idx < old(self).slots@.len() ==> old(self).free@.len() > 0,
    {
        match self.free.pop() {
            Some(i) => {
                self.slots[i] = Some(node);
                i
            },
            None => {
                let i = self.slots.len();
                self.slots.push(Some(node));
                i
            },
        }
    }

    /// Point the `prev` link of the node in slot `i` at `p`.
    fn set_prev(&mut self, i: usize, p: Option<usize>)
        requires
            i < old(self).slots@.len(),
            old(self).slots@[i as int] is Some,
        ensures
            final(self).slots@ == old(self).slots@.update(i as int, Some(
                (Node {
                    prev: p,
                    ..old(self).slots@[i as int].unwrap()
                }),
            )),
            final(self).free == old(self).free,
            final(self).head == old(self).head,
            final(self).tail == old(self).tail,
            final(self).order@ == old(self).order@,
    {
        match &mut self.slots[i] {
            Some(node) => {
                node.prev = p;
            },
            None => {},
        }
    }

    /// Point the `next` link of the node in slot `i` at `n`.
    fn set_next(&mut self, i: usize, n: Option<usize>)
        requires
            i < old(self).slots@.len(),
            old(self).slots@[i as int] is Some,
        ensures
            final(self).slots@ == old(self).slots@.update(i as int, Some(
                (Node {
                    next: n,
                    ..old(self).slots@[i as int].unwrap()
                }),
            )),
            final(self).free == old(self).free,
            final(self).head == old(self).head,
            final(self).tail == old(self).tail,
            final(self).order@ == old(self).order@,
    {
        match &mut self.slots[i] {
            Some(node) => {
                node.next = n;
            },
            None => {},
        }
    }

    /// Make a new node holding `elem` the first of the list.
    pub fn push_front(&mut self, elem: T)
        requires
            old(self).wf(),
        ensures
            final(self).wf(),
            final(self)@ == seq![elem] + old(self)@,
    {
        let node = Node { elem, prev: None, next: self.head };
        let idx = self.claim_slot(node);
        match self.head {
            Some(h) => {
                self.set_prev(h, Some(idx));
            },
            None => {
                self.tail = Some(idx);
            },
        }
        self.head = Some(idx);
        self.order = Ghost(seq![idx] + self.order@);
        proof {
            assert(self.order@.len() + self.free@.len() == self.slots@.len());
            assert(self@ =~= seq![elem] + old(self)@);
        }
    }

    /// Make a new node holding `elem` the last of the list.
    pub fn push_back(&mut self, elem: T)
        requires
            old(self).wf(),
        ensures
            final(self).wf(),
            final(self)@ == old(self)@.push(elem),
    {
        let node = Node { elem, prev: self.tail, next: None };
        let idx = self.claim_slot(node);
        match self.tail {
            Some(t) => {
                self.set_next(t, Some(idx));
            },
            None => {
                self.head = Some(idx);
            },
        }
        self.tail = Some(idx);
        self.order = Ghost(self.order@.push(idx));
        proof {
            assert(self.order@.len() + self.free@.len() == self.slots@.len());
            assert(self@ =~= old(self)@.push(elem));
        }
    }

    /// Detach the first node, vacate its slot, and return its element;
    /// on an empty list report the element absent and change nothing.
    pub fn pop_front(&mut self) -> (r: Option<T>)
        requires
            old(self).wf(),
        ensures
            final(self).wf(),
            old(self)@.len() == 0 ==> r is None && final(self)@ == old(self)@,
            old(self)@.len() > 0 ==> r == Some(old(self)@[0]) && final(self)@
                == old(self)@.drop_first(),
    {
        match self.head {
            None => None,
            Some(h) => {
                let slot = &mut self.slots[h];
                let node = slot.take().unwrap();
                self.free.push(h);
                match node.next {
                    Some(n2) => {
                        self.set_prev(n2, None);
                        self.head = Some(n2);
                    },
                    None => {
                        self.head = None;
                        self.tail = None;
                    },
                }
                self.order = Ghost(self.order@.drop_first());
                proof {
                    assert(self@ =~= old(self)@.drop_first());
                }
                Some(node.elem)
            },
        }
    }

    /// Detach the last node, vacate its slot, and return its element;
    /// on an empty list report the element absent and change nothing.
    pub fn pop_back(&mut self) -> (r: Option<T>)
        requires
            old(self).wf(),
        ensures
            final(self).wf(),
            old(self)@.len() == 0 ==> r is None && final(self)@ == old(self)@,
            old(self)@.len() > 0 ==> r == Some(old(self)@.last()) && final(self)@
                == old(self)@.drop_last(),
    {
        match self.tail {
            None => None,
            Some(t) => {
                let slot = &mut self.slots[t];
                let node = slot.take().unwrap();
                self.free.push(t);
                match node.prev {
                    Some(p2) => {
                        self.set_next(p2, None);
                        self.tail = Some(p2);
                    },
                    None => {
                        self.head = None;
                        self.tail = None;
                    },
                }
                self.order = Ghost(self.order@.drop_last());
                proof {
                    assert(self@ =~= old(self)@.drop_last());
                }
                Some(node.elem)
            },
        }
    }
}

impl<T> List<T> {
    /// A read-only view of the first element, or absent when empty.
    pub fn peek_front(&self) -> (r: Option<&T>)
        requires
            self.wf(),
        ensures
            match r {
                Some(e) => self@.len() > 0 && *e == self@[0],
                None => self@.len() == 0,
            },
    {
        match self.head {
            None => None,
            Some(h) => match &self.slots[h] {
                Some(node) => Some(&node.elem),
                None => None,
            },
        }
    }

    /// A read-only view of the last element, or absent when empty.
    pub fn peek_back(&self) -> (r: Option<&T>)
        requires
            self.wf(),
        ensures
            match r {
                Some(e) => self@.len() > 0 && *e == self@.last(),
                None => self@.len() == 0,
            },
    {
        match self.tail {
            None => None,
            Some(t) => match &self.slots[t] {
                Some(node) => Some(&node.elem),
                None => None,
            },
        }
    }

    /// An exclusive, mutable view of the first element, or absent when
    /// empty. Whatever the caller writes through it becomes the first
    /// element; the rest of the list is untouched.
    pub fn peek_front_mut(&mut self) -> (r: Option<&mut T>)
        requires
            old(self).wf(),
        ensures
            final(self).wf(),
            match r {
                Some(e) => old(self)@.len() > 0 && *e == old(self)@[0] && final(self)@
                    == old(self)@.update(0, *final(e)),
                None => old(self)@.len() == 0 && final(self)@ == old(self)@,
            },
    {
        match self.head {
            None => None,
            Some(h) => match &mut self.slots[h] {
                Some(node) => Some(&mut node.elem),
                None => None,
            },
        }
    }

    /// An exclusive, mutable view of the last element, or absent when
    /// empty. Whatever the caller writes through it becomes the last
    /// element; the rest of the list is untouched.
    pub fn peek_back_mut(&mut self) -> (r: Option<&mut T>)
        requires
            old(self).wf(),
        ensures
            final(self).wf(),
            match r {
                Some(e) => old(self)@.len() > 0 && *e == old(self)@.last() && final(self)@
                    == old(self)@.update(old(self)@.len() - 1, *final(e)),
                None => old(self)@.len() == 0 && final(self)@ == old(self)@,
            },
    {
        match self.tail {
            None => None,
            Some(t) => match &mut self.slots[t] {
                Some(node) => Some(&mut node.elem),
                None => None,
            },
        }
    }

    /// Walk front to back along the successor links and count the nodes
    /// passed: exactly one step per element. `backward_len` walks the
    /// predecessor links and counts the same number, so the two link
    /// directions agree over the whole list.
    pub fn forward_len(&self) -> (n: usize)
        requires
            self.wf(),
        ensures
            n == self@.len(),
    {
        let mut cur = self.head;
        let mut n: usize = 0;
        let cap = self.slots.len();
        while cur.is_some()
            invariant
                self.wf(),
                cap == self.slots@.len(),
                n <= self@.len(),
                self@.len() <= cap,
                cur == (if n == self@.len() {
                    None::<usize>
                } else {
                    Some(self.order@[n as int])
                }),
            decreases self@.len() - n,
        {
            let c = match cur {
                Some(c) => c,
                None => 0,
            };
            match &self.slots[c] {
                Some(node) => {
                    cur = node.next;
                },
                None => {
                    cur = None;
                },
            }
            n = n + 1;
        }
        n
    }

    /// Walk back to front along the predecessor links and count the
    /// nodes passed: exactly one step per element, as many as
    /// `forward_len` counts the other way.
    pub fn backward_len(&self) -> (n: usize)
        requires
            self.wf(),
        ensures
            n == self@.len(),
    {
        let mut cur = self.tail;
        let mut n: usize = 0;
        let cap = self.slots.len();
        while cur.is_some()
            invariant
                self.wf(),
                cap == self.slots@.len(),
                n <= self@.len(),
                self@.len() <= cap,
                cur == (if n == self@.len() {
                    None::<usize>
                } else {
                    Some(self.order@[self@.len() - 1 - n as int])
                }),
            decreases self@.len() - n,
        {
            let c = match cur {
                Some(c) => c,
                None => 0,
            };
            match &self.slots[c] {
                Some(node) => {
                    cur = node.prev;
                },
                None => {
                    cur = None;
                },
            }
            n = n + 1;
        }
        n
    }

    /// Hand the whole list to a consuming, double-ended iterator.
    pub fn into_iter(self) -> (it: IntoIter<T>)
        requires
            self.wf(),
        ensures
            it.wf(),
            it@ == self@,
    {
        IntoIter(self)
    }
}

/// Drains a list from either end: each forward step is one `pop_front`,
/// each backward step one `pop_back`, and the two ends meet in the
/// middle. Dropping it mid-way drops the remaining nodes with it.
pub struct IntoIter<T>(List<T>);

impl<T> View for IntoIter<T> {
    type V = Seq<T>;

    /// The elements not yet yielded, front to back.
    closed spec fn view(&self) -> Seq<T> {
        self.0@
    }
}

impl<T> IntoIter<T> {
    /// The underlying list is intact.
    pub closed spec fn wf(&self) -> bool {
        self.0.wf()
    }

    /// The next element from the front, or absent when drained.
    pub fn next(&mut self) -> (r: Option<T>)
        requires
            old(self).wf(),
        ensures
            final(self).wf(),
            old(self)@.len() == 0 ==> r is None && final(self)@ == old(self)@,
            old(self)@.len() > 0 ==> r == Some(old(self)@[0]) && final(self)@
                == old(self)@.drop_first(),
    {
        self.0.pop_front()
    }

    /// The next element from the back, or absent when drained.
    pub fn next_back(&mut self) -> (r: Option<T>)
        requires
            old(self).wf(),
        ensures
            final(self).wf(),
            old(self)@.len() == 0 ==> r is None && final(self)@ == old(self)@,
            old(self)@.len() > 0 ==> r == Some(old(self)@.last()) && final(self)@
                == old(self)@.drop_last(),
    {
        self.0.pop_back()
    }
}

/// One push at one end of the deque or the other.
pub enum PushOp<T> {
    Front(T),
    Back(T),
}

/// The contents, front to back, of a deque built from empty by the given
/// pushes in order: per its contract, `push_front` prepends its element
/// and `push_back` appends it.
pub open spec fn run_pushes<T>(ops: Seq<PushOp<T>>) -> Seq<T>
    decreases ops.len(),
{
    if ops.len() == 0 {
        Seq::empty()
    } else {
        match ops.last() {
            PushOp::Front(x) => seq![x] + run_pushes(ops.drop_last()),
            PushOp::Back(x) => run_pushes(ops.drop_last()).push(x),
        }
    }
}

/// The elements the given pushes put in at the front, oldest first.
pub open spec fn front_pushes<T>(ops: Seq<PushOp<T>>) -> Seq<T>
    decreases ops.len(),
{
    if ops.len() == 0 {
        Seq::empty()
    } else {
        match ops.last() {
            PushOp::Front(x) => front_pushes(ops.drop_last()).push(x),
            PushOp::Back(_) => front_pushes(ops.drop_last()),
        }
    }
}

/// The elements the given pushes put in at the back, oldest first.
pub open spec fn back_pushes<T>(ops: Seq<PushOp<T>>) -> Seq<T>
    decreases ops.len(),
{
    if ops.len() == 0 {
        Seq::empty()
    } else {
        match ops.last() {
            PushOp::Front(_) => back_pushes(ops.drop_last()),
            PushOp::Back(x) => back_pushes(ops.drop_last()).push(x),
        }
    }
}

/// Extending any push history by one more push changes `run_pushes` the
/// way the push contracts change the deque: a front push prepends its
/// element, a back push appends it.
pub proof fn lemma_run_pushes_step<T>(ops: Seq<PushOp<T>>, op: PushOp<T>)
    ensures
        run_pushes(ops.push(op)) == (match op {
            PushOp::Front(x) => seq![x] + run_pushes(ops),
            PushOp::Back(x) => run_pushes(ops).push(x),
        }),
{
    assert(ops.push(op).drop_last() =~= ops);
    assert(ops.push(op).last() == op);
}

/// After any sequence of front and back pushes, the deque holds — so the
/// same count of `pop_front` calls returns, in order — the front-pushed
/// elements newest first, followed by the back-pushed elements oldest
/// first.
pub proof fn lemma_push_order<T>(ops: Seq<PushOp<T>>)
    ensures
        run_pushes(ops) == front_pushes(ops).reverse() + back_pushes(ops),
    decreases ops.len(),
{
    if ops.len() == 0 {
        assert(run_pushes(ops) =~= front_pushes(ops).reverse() + back_pushes(ops));
    } else {
        lemma_push_order(ops.drop_last());
        match ops.last() {
            PushOp::Front(x) => {
                assert(front_pushes(ops).reverse() =~= seq![x] + front_pushes(
                    ops.drop_last(),
                ).reverse());
                assert(run_pushes(ops) =~= front_pushes(ops).reverse() + back_pushes(ops));
            },
            PushOp::Back(_) => {
                assert(run_pushes(ops) =~= front_pushes(ops).reverse() + back_pushes(ops));
            },
        }
    }
}

impl<T> Default for List<T> {
    fn default() -> (l: Self)
        ensures
            l.wf(),
            l@ == Seq::<T>::empty(),
    {
        List::new()
    }
}

} // verus!
