//! The argument list of one run of `git`.
use vstd::prelude::*;
use crate::words::{split_words, split_words_of};

verus! {

/// One run of the `git` executable: the arguments that follow the program
/// name, in order. The list is fixed once built.
pub struct Git {
    command: Vec<String>,
}

impl View for Git {
    type V = Seq<Seq<char>>;

    /// The arguments, in order.
    closed spec fn view(&self) -> Seq<Seq<char>> {
        self.command@.map_values(|a: String| a@)
    }
}

impl Git {
    /// A run with the arguments `items`, kept verbatim and in order.
    pub fn new(items: Vec<&str>) -> (r: Git)
        ensures
            r@ == items@.map_values(|a: &str| a@),
    {
        let mut command: Vec<String> = Vec::new();
        let mut i: usize = 0;
        while i < items.len()
            invariant
                i <= items@.len(),
                command@.len() == i,
                forall|j: int| 0 <= j < i ==> #[trigger] command@[j]@ == items@[j]@,
            decreases items@.len() - i,
        {
            let a = items[i].to_owned();
            command.push(a);
            i = i + 1;
        }
        assert(command@.map_values(|a: String| a@) =~= items@.map_values(|a: &str| a@));
        Git { command }
    }

    /// A run with the words of `phrase` as its arguments. An argument that
    /// holds whitespace cannot be given this way.
    pub fn from_phrase(phrase: &str) -> (r: Git)
        ensures
            r@ == split_words(phrase@),
    {
        Git { command: split_words_of(phrase) }
    }

    /// The name of the program that every run starts.
    pub fn program() -> (r: &'static str)
        ensures
            r@ == "git"@,
    {
        "git"
    }

    /// The arguments handed to the program, in order.
    pub fn args(&self) -> (r: Vec<String>)
        ensures
            r@.map_values(|a: String| a@) == self@,
    {
        let mut out: Vec<String> = Vec::new();
        let mut i: usize = 0;
        while i < self.command.len()
            invariant
                i <= self.command@.len(),
                out@.len() == i,
                forall|j: int| 0 <= j < i ==> #[trigger] out@[j]@ == self.command@[j]@,
            decreases self.command@.len() - i,
        {
            out.push(self.command[i].clone());
            i = i + 1;
        }
        assert(out@.map_values(|a: String| a@) =~= self@);
        out
    }
}

} // verus!
