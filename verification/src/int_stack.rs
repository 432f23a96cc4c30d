//! A stack of machine integers, stored as a singly-linked chain of
//! uniquely owned nodes. Pushing and popping both work on the head,
//! so elements come back out newest first.

use vstd::prelude::*;

verus! {

pub struct List {
    head: Link,
}

enum Link {
    Empty,
    More(Box<Node>),
}

struct Node {
    elem: i32,
    next: Link,
}

impl Link {
    /// The elements hanging off this link, nearest first.
    spec fn elems(self) -> Seq<i32>
        decreases self,
    {
        match self {
            Link::Empty => Seq::empty(),
            Link::More(node) => seq![node.elem] + node.next.elems(),
        }
    }
}

impl View for List {
    type V = Seq<i32>;

    /// The stack's elements, top first.
    closed spec fn view(&self) -> Seq<i32> {
        self.head.elems()
    }
}

impl List {
    pub fn new() -> (l: Self)
        ensures
            l@ == Seq::<i32>::empty(),
    {
        List { head: Link::Empty }
    }

    pub fn push(&mut self, elem: i32)
        ensures
            final(self)@ == seq![elem] + old(self)@,
    {
        let mut taken = Link::Empty;
        core::mem::swap(&mut taken, &mut self.head);
        self.head = Link::More(Box::new(Node { elem, next: taken }));
    }

    pub fn pop(&mut self) -> (r: Option<i32>)
        ensures
            old(self)@.len() == 0 ==> r.is_none() && final(self)@ == old(self)@,
            old(self)@.len() > 0 ==> r == Some(old(self)@[0]) && final(self)@ == old(self)@.drop_first(),
    {
        let mut taken = Link::Empty;
        core::mem::swap(&mut taken, &mut self.head);
        match taken {
            Link::Empty => None,
            Link::More(node) => {
                let node = *node;
                self.head = node.next;
                Some(node.elem)
            }
        }
    }
}

impl Drop for List {
    /// Tear the chain down link by link: letting the nodes drop
    /// recursively would use one stack frame per element.
    fn drop(&mut self)
        opens_invariants none
        no_unwind
    {
        let mut cur = Link::Empty;
        core::mem::swap(&mut cur, &mut self.head);
        loop
            decreases cur.elems().len(),
        {
            match cur {
                Link::Empty => {
                    break ;
                },
                Link::More(node) => {
                    let node = *node;
                    cur = node.next;
                },
            }
        }
    }
}

impl Default for List {
    fn default() -> (l: Self)
        ensures
            l@ == Seq::<i32>::empty(),
    {
        List::new()
    }
}

} // verus!
