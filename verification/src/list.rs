//! A persistent singly-linked list. Prepending never copies the elements:
//! the new list points at the old one through a reference-counted link, so
//! any number of lists may share a common suffix.

use std::rc::Rc;
use vstd::prelude::*;

verus! {

/// One link of the list: either the end, or an element followed by the rest.
pub enum Node<T> {
    Empty,
    Cons(T, List<T>),
}

/// A persistent list, abstractly a `Seq<T>` (its view).
pub struct List<T> {
    node: Rc<Node<T>>,
}

/// The sequence of elements that a list holds, front first.
pub closed spec fn list_seq<T>(l: List<T>) -> Seq<T>
    decreases l,
{
    match *l.node {
        Node::Empty => Seq::empty(),
        Node::Cons(e, rest) => seq![e] + list_seq(rest),
    }
}

impl<T> View for List<T> {
    type V = Seq<T>;

    open spec fn view(&self) -> Seq<T> {
        list_seq(*self)
    }
}

impl<T> List<T> {
    /// The empty list.
    pub fn new() -> (r: Self)
        ensures
            r@ == Seq::<T>::empty(),
    {
        List { node: Rc::new(Node::Empty) }
    }

    /// A new list with `elem` in front of `self`; `self` is untouched and its
    /// links are shared, not copied.
    pub fn prepend(&self, elem: T) -> (r: Self)
        ensures
            r@ == seq![elem] + self@,
    {
        List { node: Rc::new(Node::Cons(elem, List { node: self.node.clone() })) }
    }

    /// The first element, if any.
    pub fn head(&self) -> (r: Option<&T>)
        ensures
            match r {
                Some(e) => self@.len() > 0 && *e == self@[0],
                None => self@.len() == 0,
            },
    {
        match &*self.node {
            Node::Cons(e, _) => Some(e),
            Node::Empty => None,
        }
    }

    /// Everything after the first element, if any.
    pub fn tail(&self) -> (r: Option<&List<T>>)
        ensures
            match r {
                Some(t) => self@.len() > 0 && t@ == self@.drop_first(),
                None => self@.len() == 0,
            },
    {
        match &*self.node {
            Node::Cons(_, rest) => Some(rest),
            Node::Empty => None,
        }
    }
}

impl<T: Copy> List<T> {
    /// The elements in order, as a vector.
    pub fn to_vec(&self) -> (v: Vec<T>)
        ensures
            v@ == self@,
    {
        let mut v: Vec<T> = Vec::new();
        let mut cur: &List<T> = self;
        loop
            invariant
                self@ == v@ + cur@,
            decreases cur@.len(),
        {
            match &*cur.node {
                Node::Empty => {
                    return v;
                },
                Node::Cons(e, rest) => {
                    v.push(*e);
                    cur = rest;
                },
            }
        }
    }
}

} // verus!
