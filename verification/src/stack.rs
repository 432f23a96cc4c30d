//! A generic stack over a singly-linked chain of uniquely owned nodes,
//! with borrowing iterators: a consuming one that drains the stack, a
//! shared one that reads the elements in place, and an exclusive one
//! that lets the caller rewrite each element in turn.

use vstd::prelude::*;

verus! {

pub struct List<T> {
    head: Link<T>,
}

type Link<T> = Option<Box<Node<T>>>;

struct Node<T> {
    elem: T,
    next: Link<T>,
}

/// The elements hanging off a link, nearest first.
spec fn link_elems<T>(link: Link<T>) -> Seq<T>
    decreases link,
{
    match link {
        None => Seq::empty(),
        Some(node) => seq![node.elem] + link_elems(node.next),
    }
}

impl<T> View for List<T> {
    type V = Seq<T>;

    /// The stack's elements, top first.
    closed spec fn view(&self) -> Seq<T> {
        link_elems(self.head)
    }
}

impl<T> List<T> {
    pub fn new() -> (l: Self)
        ensures
            l@ == Seq::<T>::empty(),
    {
        List { head: None }
    }

    pub fn push(&mut self, elem: T)
        ensures
            final(self)@ == seq![elem] + old(self)@,
    {
        let taken = self.head.take();
        self.head = Some(Box::new(Node { elem, next: taken }));
    }

    pub fn pop(&mut self) -> (r: Option<T>)
        ensures
            old(self)@.len() == 0 ==> r is None && final(self)@ == old(self)@,
            old(self)@.len() > 0 ==> r == Some(old(self)@[0]) && final(self)@
                == old(self)@.drop_first(),
    {
        match self.head.take() {
            None => None,
            Some(node) => {
                let node = *node;
                self.head = node.next;
                Some(node.elem)
            },
        }
    }

    /// A read-only view of the top element, or absent when empty.
    pub fn peek(&mut self) -> (r: Option<&T>)
        ensures
            final(self)@ == old(self)@,
            match r {
                Some(e) => old(self)@.len() > 0 && *e == old(self)@[0],
                None => old(self)@.len() == 0,
            },
    {
        match &self.head {
            None => None,
            Some(node) => Some(&node.elem),
        }
    }

    /// An exclusive, mutable view of the top element, or absent when
    /// empty. Whatever the caller writes through it becomes the top
    /// element; the rest of the stack is untouched.
    pub fn peek_mut(&mut self) -> (r: Option<&mut T>)
        ensures
            match r {
                Some(e) => old(self)@.len() > 0 && *e == old(self)@[0] && final(self)@
                    == old(self)@.update(0, *final(e)),
                None => old(self)@.len() == 0 && final(self)@ == old(self)@,
            },
    {
        match &mut self.head {
            None => None,
            Some(node) => Some(&mut node.elem),
        }
    }

    /// Hand the whole stack to a consuming iterator.
    pub fn into_iter(self) -> (it: IntoIter<T>)
        ensures
            it@ == self@,
    {
        IntoIter(self)
    }

    /// An iterator over shared views of the elements, top first.
    pub fn iter(&self) -> (it: Iter<'_, T>)
        ensures
            it@ == self@,
    {
        match &self.head {
            None => Iter { next: None },
            Some(node) => Iter { next: Some(&**node) },
        }
    }

    /// An iterator over exclusive views of the elements, top first.
    pub fn iter_mut(&mut self) -> (it: IterMut<'_, T>)
        ensures
            it@ == old(self)@,
    {
        match &mut self.head {
            None => IterMut { next: None },
            Some(node) => IterMut { next: Some(&mut **node) },
        }
    }
}

impl<T> Drop for List<T> {
    /// Tear the chain down link by link: letting the nodes drop
    /// recursively would use one stack frame per element.
    fn drop(&mut self)
        opens_invariants none
        no_unwind
    {
        let mut cur: Link<T> = None;
        core::mem::swap(&mut cur, &mut self.head);
        loop
            decreases link_elems(cur).len(),
        {
            match cur {
                None => {
                    break ;
                },
                Some(node) => {
                    let node = *node;
                    cur = node.next;
                },
            }
        }
    }
}

impl<T> Default for List<T> {
    fn default() -> (l: Self)
        ensures
            l@ == Seq::<T>::empty(),
    {
        List::new()
    }
}

/// Drains a stack, yielding its elements top first.
pub struct IntoIter<T>(List<T>);

impl<T> View for IntoIter<T> {
    type V = Seq<T>;

    /// The elements not yet yielded.
    closed spec fn view(&self) -> Seq<T> {
        self.0@
    }
}

impl<T> IntoIter<T> {
    /// The next element, or absent when drained.
    pub fn next(&mut self) -> (r: Option<T>)
        ensures
            old(self)@.len() == 0 ==> r is None && final(self)@ == old(self)@,
            old(self)@.len() > 0 ==> r == Some(old(self)@[0]) && final(self)@
                == old(self)@.drop_first(),
    {
        self.0.pop()
    }
}

/// Reads a stack's elements in place, top first.
pub struct Iter<'a, T> {
    next: Option<&'a Node<T>>,
}

impl<'a, T> View for Iter<'a, T> {
    type V = Seq<T>;

    /// The elements not yet visited.
    closed spec fn view(&self) -> Seq<T> {
        match self.next {
            None => Seq::empty(),
            Some(node) => seq![node.elem] + link_elems(node.next),
        }
    }
}

impl<'a, T> Iter<'a, T> {
    /// A shared view of the next element, or absent when done.
    pub fn next(&mut self) -> (r: Option<&'a T>)
        ensures
            match r {
                Some(e) => old(self)@.len() > 0 && *e == old(self)@[0] && final(self)@
                    == old(self)@.drop_first(),
                None => old(self)@.len() == 0 && final(self)@ == old(self)@,
            },
    {
        match self.next {
            None => None,
            Some(node) => {
                self.next = match &node.next {
                    None => None,
                    Some(next_node) => Some(&**next_node),
                };
                Some(&node.elem)
            },
        }
    }
}

/// Visits a stack's elements in place, top first, handing out an
/// exclusive view of each.
pub struct IterMut<'a, T> {
    next: Option<&'a mut Node<T>>,
}

impl<'a, T> View for IterMut<'a, T> {
    type V = Seq<T>;

    /// The elements not yet visited.
    closed spec fn view(&self) -> Seq<T> {
        match self.next {
            None => Seq::empty(),
            Some(node) => seq![node.elem] + link_elems(node.next),
        }
    }
}

impl<'a, T> IterMut<'a, T> {
    /// An exclusive view of the next element, or absent when done.
    pub fn next(&mut self) -> (r: Option<&'a mut T>)
        ensures
            match r {
                Some(e) => old(self)@.len() > 0 && *e == old(self)@[0] && final(self)@
                    == old(self)@.drop_first(),
                None => old(self)@.len() == 0 && final(self)@ == old(self)@,
            },
    {
        match self.next.take() {
            None => None,
            Some(node) => {
                self.next = match &mut node.next {
                    None => None,
                    Some(next_node) => Some(&mut **next_node),
                };
                Some(&mut node.elem)
            },
        }
    }
}

} // verus!
