//! A singly linked stack of integers.

use vstd::prelude::*;

verus! {

/// A stack of `i32`: what was pushed last is popped first.
pub struct List {
    head: Link,
}

enum Link {
    Empty,
    More(Box<Node>),
}

struct Node {
    elem: i32,
    next: Link,
}

/// The elements from this link on, the nearest first.
spec fn elems(link: Link) -> Seq<i32>
    decreases link,
{
    match link {
        Link::Empty => Seq::empty(),
        Link::More(node) => seq![node.elem] + elems(node.next),
    }
}

impl View for List {
    type V = Seq<i32>;

    /// The elements, the top of the stack first.
    closed spec fn view(&self) -> Seq<i32> {
        elems(self.head)
    }
}

impl List {
    /// The empty stack.
    pub fn new() -> (list: Self)
        ensures
            list@ == Seq::<i32>::empty(),
    {
        Self { head: Link::Empty }
    }

    /// Puts `elem` on top.
    pub fn push(&mut self, elem: i32)
        ensures
            final(self)@ == seq![elem] + old(self)@,
    {
        let mut rest = Link::Empty;
        core::mem::swap(&mut self.head, &mut rest);
        let new_node = Box::new(Node { elem: elem, next: rest });
        self.head = Link::More(new_node);
    }

    /// Takes the top element off, if there is one.
    pub fn pop(&mut self) -> (top: Option<i32>)
        ensures
            old(self)@.len() == 0 ==> top is None && final(self)@ == old(self)@,
            old(self)@.len() > 0 ==> top == Some(old(self)@[0]) && final(self)@ == old(self)@.skip(1),
    {
        let mut taken = Link::Empty;
        core::mem::swap(&mut self.head, &mut taken);
        match taken {
            Link::Empty => None,
            Link::More(node) => {
                let node = *node;
                self.head = node.next;
                assert((seq![node.elem] + elems(node.next)).skip(1) =~= elems(node.next));
                Some(node.elem)
            },
        }
    }
}

} // verus!
