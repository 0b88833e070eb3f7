use vstd::prelude::*;

verus! {

/// The text of each argument of a command line.
pub open spec fn argv_view(v: Seq<String>) -> Seq<Seq<char>> {
    v.map_values(|a: String| a@)
}

/// Appends one argument to a command line.
pub fn push_arg(v: &mut Vec<String>, a: &str)
    ensures
        argv_view(final(v)@) == argv_view(old(v)@).push(a@),
{
    v.push(String::from_str(a));
    assert(argv_view(v@) =~= argv_view(old(v)@).push(a@));
}

/// Appends the arguments of `more` in order.
pub fn push_all(v: &mut Vec<String>, more: &Vec<String>)
    ensures
        argv_view(final(v)@) == argv_view(old(v)@) + argv_view(more@),
{
    let mut i: usize = 0;
    while i < more.len()
        invariant
            i <= more@.len(),
            argv_view(v@) == argv_view(old(v)@) + argv_view(more@.subrange(0, i as int)),
        decreases more@.len() - i,
    {
        push_arg(v, more[i].as_str());
        assert(argv_view(more@.subrange(0, i + 1)) =~= argv_view(more@.subrange(0, i as int)).push(
            more@[i as int]@,
        ));
        i = i + 1;
    }
    assert(more@.subrange(0, more@.len() as int) =~= more@);
}

} // verus!
