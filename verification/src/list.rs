use vstd::prelude::*;

verus! {

/// An inductive list. The syntax-tree model is a family of mutually
/// recursive inductive types, and keeping its sequences inductive as well
/// lets every traversal be a plain structural recursion.
#[derive(Debug, PartialEq, Eq)]
pub enum List<T> {
    Nil,
    Cons(T, Box<List<T>>),
}

impl<T> List<T> {
    /// The mathematical sequence of the list's elements.
    pub open spec fn seq(self) -> Seq<T>
        decreases self,
    {
        match self {
            List::Nil => Seq::empty(),
            List::Cons(head, tail) => seq![head] + (*tail).seq(),
        }
    }

    /// List concatenation, as a mathematical function.
    pub open spec fn spec_append(self, other: List<T>) -> List<T>
        decreases self,
    {
        match self {
            List::Nil => other,
            List::Cons(head, tail) => List::Cons(head, Box::new((*tail).spec_append(other))),
        }
    }

    /// Concatenation of the elements is concatenation of the sequences.
    pub proof fn lemma_append_seq(self, other: List<T>)
        ensures
            self.spec_append(other)@ == self@ + other@,
        decreases self,
    {
        match self {
            List::Nil => {
                assert(self@ + other@ =~= other@);
            },
            List::Cons(head, tail) => {
                (*tail).lemma_append_seq(other);
                assert(self.spec_append(other)@ =~= self@ + other@);
            },
        }
    }

    /// List concatenation; the second operand is moved to the tail.
    pub fn append(self, other: List<T>) -> (r: List<T>)
        ensures
            r == self.spec_append(other),
        decreases self,
    {
        match self {
            List::Nil => other,
            List::Cons(head, tail) => List::Cons(head, Box::new((*tail).append(other))),
        }
    }
}

impl<T> View for List<T> {
    type V = Seq<T>;

    open spec fn view(&self) -> Seq<T> {
        self.seq()
    }
}

} // verus!
