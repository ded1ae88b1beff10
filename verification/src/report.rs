//! Errors reported as a chain of messages, outermost context first.
use vstd::prelude::*;

use crate::text::{push_str, string_of};

verus! {

/// An error as a chain of messages: the outermost context first, the root
/// cause last.
#[derive(Debug)]
pub struct ErrorChain {
    pub chain: Vec<String>,
}

pub open spec fn strings_of(v: Seq<String>) -> Seq<Seq<char>> {
    v.map_values(|s: String| s@)
}

/// The messages joined by ": ", outermost first.
pub open spec fn joined(chain: Seq<Seq<char>>) -> Seq<char>
    decreases chain.len(),
{
    if chain.len() == 0 {
        Seq::empty()
    } else if chain.len() == 1 {
        chain[0]
    } else {
        joined(chain.drop_last()) + ": "@ + chain.last()
    }
}

impl ErrorChain {
    pub open spec fn view_chain(self) -> Seq<Seq<char>> {
        strings_of(self.chain@)
    }

    /// An error with a single message.
    pub fn single(message: String) -> (r: ErrorChain)
        ensures
            r.view_chain() == seq![message@],
    {
        let mut chain: Vec<String> = Vec::new();
        chain.push(message);
        let r = ErrorChain { chain };
        assert(r.view_chain() =~= seq![message@]);
        r
    }

    /// The same error wrapped in an outer context message.
    pub fn context(self, message: String) -> (r: ErrorChain)
        ensures
            r.view_chain() == seq![message@] + self.view_chain(),
    {
        let ghost before = self.view_chain();
        let mut chain = self.chain;
        chain.insert(0, message);
        let r = ErrorChain { chain };
        assert(r.view_chain() =~= seq![message@] + before);
        r
    }

    /// The whole chain on one line, outermost context first.
    pub fn message(&self) -> (r: String)
        ensures
            r@ == joined(self.view_chain()),
    {
        let mut out: Vec<char> = Vec::new();
        let ghost cv = self.view_chain();
        for i in 0..self.chain.len()
            invariant
                cv == self.view_chain(),
                out@ == joined(cv.take(i as int)),
        {
            proof {
                assert(cv.take(i + 1).drop_last() =~= cv.take(i as int));
                assert(cv.take(i + 1).last() == self.chain@[i as int]@);
            }
            if i > 0 {
                push_str(&mut out, ": ");
            } else {
                assert(cv.take(i + 1) =~= seq![cv[0]]);
            }
            push_str(&mut out, self.chain[i].as_str());
        }
        assert(cv.take(self.chain.len() as int) =~= cv);
        string_of(&out)
    }
}

/// Appends copies of `lines` to `chain`.
pub fn push_all(chain: &mut Vec<String>, lines: &Vec<String>)
    ensures
        strings_of(final(chain)@) == strings_of(old(chain)@) + strings_of(lines@),
{
    let ghost start = strings_of(chain@);
    for i in 0..lines.len()
        invariant
            strings_of(chain@) == start + strings_of(lines@).take(i as int),
    {
        let line = lines[i].clone();
        let ghost old_chain = chain@;
        chain.push(line);
        assert(strings_of(chain@) =~= strings_of(old_chain).push(lines@[i as int]@));
        assert(strings_of(lines@).take(i + 1) =~= strings_of(lines@).take(i as int).push(lines@[i as int]@));
        assert(strings_of(chain@) =~= start + strings_of(lines@).take(i + 1));
    }
    assert(strings_of(lines@).take(lines.len() as int) =~= strings_of(lines@));
}

} // verus!
