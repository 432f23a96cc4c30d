//! Three linked-list variants, each exploring a different ownership
//! discipline: a singly-owned stack of integers, a generic singly-owned
//! stack with borrowing iterators, and a double-ended queue whose nodes
//! are shared between the list's end slots and their neighbours.

pub mod deque;
pub mod int_stack;
pub mod stack;
