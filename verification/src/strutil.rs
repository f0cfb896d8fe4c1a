//! String helpers shared by the window builder and the prompt builders:
//! joining with a separator, and whitespace trimming.

use vstd::prelude::*;
use vstd::string::StringExecFns;

verus! {

/// The parts of `parts`, concatenated with `sep` between neighbours.
pub open spec fn join_with(parts: Seq<Seq<char>>, sep: Seq<char>) -> Seq<char>
    decreases parts.len(),
{
    if parts.len() == 0 {
        Seq::empty()
    } else if parts.len() == 1 {
        parts[0]
    } else {
        join_with(parts.drop_last(), sep) + sep + parts.last()
    }
}

/// `s` with leading and trailing whitespace removed, as `str::trim` removes
/// it; left abstract because Unicode whitespace is not restated here.
pub uninterp spec fn trimmed_of(s: Seq<char>) -> Seq<char>;

/// Relies on `str::trim`: the result depends on the characters alone, an
/// empty input stays empty, and trimming never lengthens the text.
#[verifier::external_body]
pub fn trim_str(s: &str) -> (r: &str)
    ensures
        r@ == trimmed_of(s@),
        s@.len() == 0 ==> r@.len() == 0,
        r@.len() <= s@.len(),
{
    s.trim()
}

/// Joins `parts[from..to]` with `sep` between neighbours.
pub fn join_range(parts: &Vec<String>, from: usize, to: usize, sep: &str) -> (r: String)
    requires
        from <= to <= parts@.len(),
    ensures
        r@ == join_with(parts.deep_view().subrange(from as int, to as int), sep@),
{
    let ghost all = parts.deep_view().subrange(from as int, to as int);
    let mut out = String::new();
    let mut j: usize = from;
    while j < to
        invariant
            from <= j <= to <= parts@.len(),
            all == parts.deep_view().subrange(from as int, to as int),
            out@ == join_with(all.take(j - from), sep@),
        decreases to - j,
    {
        if j > from {
            out.append(sep);
        }
        out.append(parts[j].as_str());
        proof {
            let upto = all.take(j + 1 - from);
            assert(upto.drop_last() =~= all.take(j - from));
            assert(upto.last() == parts.deep_view()[j as int]);
        }
        j = j + 1;
    }
    proof {
        assert(all.take(to - from) =~= all);
    }
    out
}

} // verus!
