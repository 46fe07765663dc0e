use vstd::prelude::*;

verus! {

/// The views of a sequence of strings.
pub open spec fn strings_view(v: Seq<String>) -> Seq<Seq<char>> {
    v.map_values(|s: String| s@)
}

/// Relies on `String::push`: the character is appended at the end.
#[verifier::external_body]
pub(crate) fn push_char(s: &mut String, c: char)
    ensures
        final(s)@ == old(s)@.push(c),
{
    s.push(c)
}

/// Appends clones of `src` to `dst`, in order.
pub(crate) fn extend_strings(dst: &mut Vec<String>, src: &Vec<String>)
    ensures
        strings_view(final(dst)@) == strings_view(old(dst)@) + strings_view(src@),
{
    let ghost start = strings_view(dst@);
    let mut i: usize = 0;
    while i < src.len()
        invariant
            i <= src.len(),
            strings_view(dst@) == start + strings_view(src@.take(i as int)),
        decreases src.len() - i,
    {
        let s = src[i].clone();
        let ghost prev = dst@;
        dst.push(s);
        proof {
            assert(dst@ == prev.push(s));
            assert(s@ == src@[i as int]@);
            assert(strings_view(dst@) =~= strings_view(prev).push(s@));
            assert(src@.take(i as int + 1) == src@.take(i as int).push(src@[i as int]));
            assert(strings_view(dst@) =~= start + strings_view(src@.take(i as int + 1)));
        }
        i = i + 1;
    }
    proof {
        assert(src@.take(src@.len() as int) == src@);
    }
}

} // verus!
