//! An injected logging capability. Call sites hand their lines to a
//! `Journal` owned by the host, which decides where the text finally goes;
//! the library itself never touches an output stream, so every call site
//! can be exercised without capturing one.

use vstd::prelude::*;

verus! {

/// The record of emitted log lines, in emission order.
#[derive(Debug)]
pub struct Journal {
    pub entries: Vec<String>,
}

impl View for Journal {
    type V = Seq<Seq<char>>;

    open spec fn view(&self) -> Seq<Seq<char>> {
        self.entries.deep_view()
    }
}

impl Journal {
    pub fn new() -> (j: Journal)
        ensures
            j@ == Seq::<Seq<char>>::empty(),
    {
        let j = Journal { entries: Vec::new() };
        proof {
            assert(j@ =~= Seq::<Seq<char>>::empty());
        }
        j
    }
}

/// Records one diagnostic line (the host may decorate it with its origin
/// when it prints the journal).
pub fn d(j: &mut Journal, msg: &str)
    ensures
        final(j)@ == old(j)@.push(msg@),
{
    j.entries.push(msg.to_owned());
    proof {
        assert(final(j)@ =~= old(j)@.push(msg@));
    }
}

/// Records one verbose line, exactly as given.
pub fn v(j: &mut Journal, msg: &str)
    ensures
        final(j)@ == old(j)@.push(msg@),
{
    j.entries.push(msg.to_owned());
    proof {
        assert(final(j)@ =~= old(j)@.push(msg@));
    }
}

/// Records one error line.
pub fn log(j: &mut Journal, msg: &str)
    ensures
        final(j)@ == old(j)@.push(msg@),
{
    j.entries.push(msg.to_owned());
    proof {
        assert(final(j)@ =~= old(j)@.push(msg@));
    }
}

} // verus!
