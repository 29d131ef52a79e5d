//! A singly linked stack of any element type.

use vstd::prelude::*;

verus! {

#[derive(Debug, PartialEq, Eq)]
struct Node<T> {
    elem: T,
    next: Option<Box<Node<T>>>,
}

/// A stack: what was pushed last is popped first.
#[derive(Debug, PartialEq, Eq)]
pub struct List<T> {
    head: Option<Box<Node<T>>>,
}

/// Hands out the elements of a list that it owns, the top first.
pub struct IntoIter<T>(List<T>);

/// Walks a list that it borrows, the top first.
pub struct Iter<'a, T> {
    next: Option<&'a Node<T>>,
}

/// The elements from this link on, the nearest first.
spec fn elems<T>(link: Option<Box<Node<T>>>) -> Seq<T>
    decreases link,
{
    match link {
        None => Seq::empty(),
        Some(node) => seq![node.elem] + elems(node.next),
    }
}

impl<T> View for List<T> {
    type V = Seq<T>;

    /// The elements, the top of the stack first.
    closed spec fn view(&self) -> Seq<T> {
        elems(self.head)
    }
}

impl<T> View for IntoIter<T> {
    type V = Seq<T>;

    /// The elements still to come, the next first.
    closed spec fn view(&self) -> Seq<T> {
        self.0@
    }
}

impl<'a, T> View for Iter<'a, T> {
    type V = Seq<T>;

    /// The elements still to come, the next first.
    closed spec fn view(&self) -> Seq<T> {
        match self.next {
            None => Seq::empty(),
            Some(node) => seq![node.elem] + elems(node.next),
        }
    }
}

impl<T> List<T> {
    /// The empty stack.
    pub fn new() -> (list: Self)
        ensures
            list@ == Seq::<T>::empty(),
    {
        Self { head: None }
    }

    /// Turns the list into an iterator over its elements, the top first.
    pub fn into_iter(self) -> (iter: IntoIter<T>)
        ensures
            iter@ == self@,
    {
        IntoIter(self)
    }

    /// An iterator over references to the elements, the top first.
    pub fn iter<'a>(&'a self) -> (iter: Iter<'a, T>)
        ensures
            iter@ == self@,
    {
        match &self.head {
            None => Iter { next: None },
            Some(node) => Iter { next: Some(&**node) },
        }
    }

    /// Puts `elem` on top.
    pub fn push(&mut self, elem: T)
        ensures
            final(self)@ == seq![elem] + old(self)@,
    {
        let new_node = Box::new(Node { elem: elem, next: self.head.take() });
        self.head = Some(new_node);
    }

    /// Takes the top element off, if there is one.
    pub fn pop(&mut self) -> (top: Option<T>)
        ensures
            old(self)@.len() == 0 ==> top is None && final(self)@ == old(self)@,
            old(self)@.len() > 0 ==> top == Some(old(self)@[0]) && final(self)@ == old(self)@.skip(1),
    {
        match self.head.take() {
            None => None,
            Some(node) => {
                let node = *node;
                self.head = node.next;
                assert((seq![node.elem] + elems(node.next)).skip(1) =~= elems(node.next));
                Some(node.elem)
            },
        }
    }

    /// The top element, if there is one.
    pub fn peek(&self) -> (top: Option<&T>)
        ensures
            self@.len() == 0 ==> top is None,
            self@.len() > 0 ==> top == Some(&self@[0]),
    {
        match &self.head {
            None => None,
            Some(node) => Some(&node.elem),
        }
    }

    /// The top element, if there is one, to be changed in place.
    pub fn peek_mut(&mut self) -> (top: Option<&mut T>)
        ensures
            old(self)@.len() == 0 ==> top is None && final(self)@ == old(self)@,
            old(self)@.len() > 0 ==> top is Some && *top->Some_0 == old(self)@[0] && final(self)@ == old(
                self,
            )@.update(0, *final(top->Some_0)),
    {
        match &mut self.head {
            None => None,
            Some(node) => Some(&mut node.elem),
        }
    }
}

impl<T> Drop for List<T> {
    /// Takes the nodes apart one by one, so that a long list is freed
    /// without deep recursion.
    fn drop(&mut self)
        opens_invariants none
        no_unwind
    {
        let mut cur_link: Option<Box<Node<T>>> = None;
        core::mem::swap(&mut self.head, &mut cur_link);
        loop
            decreases elems(cur_link).len(),
        {
            match cur_link {
                None => {
                    break ;
                },
                Some(mut boxed_node) => {
                    cur_link = None;
                    core::mem::swap(&mut boxed_node.next, &mut cur_link);
                },
            }
        }
    }
}

impl<T> IntoIter<T> {
    /// The next element, if one is left.
    pub fn next(&mut self) -> (item: Option<T>)
        ensures
            old(self)@.len() == 0 ==> item is None && final(self)@ == old(self)@,
            old(self)@.len() > 0 ==> item == Some(old(self)@[0]) && final(self)@ == old(self)@.skip(1),
    {
        self.0.pop()
    }
}

impl<'a, T> Iter<'a, T> {
    /// The next element, if one is left.
    pub fn next(&mut self) -> (item: Option<&'a T>)
        ensures
            old(self)@.len() == 0 ==> item is None && final(self)@ == old(self)@,
            old(self)@.len() > 0 ==> item == Some(&old(self)@[0]) && final(self)@ == old(self)@.skip(1),
    {
        match self.next {
            None => None,
            Some(node) => {
                self.next =
                match &node.next {
                    None => None,
                    Some(rest) => Some(&**rest),
                };
                assert((seq![node.elem] + elems(node.next)).skip(1) =~= elems(node.next));
                Some(&node.elem)
            },
        }
    }
}

} // verus!
