use vstd::prelude::*;
use vstd::string::StringExecFns;

verus! {

/// What `str::to_lowercase` makes of a sequence of characters.
pub uninterp spec fn lower_of(s: Seq<char>) -> Seq<char>;

/// What `str::trim_start` makes of a sequence of characters.
pub uninterp spec fn trim_start_of(s: Seq<char>) -> Seq<char>;

pub assume_specification[ String::push ](s: &mut String, ch: char)
    ensures
        final(s)@ == old(s)@.push(ch),
;

/// The characters of a string, in order.
pub fn chars_of(s: &str) -> (r: Vec<char>)
    ensures
        r@ == s@,
{
    broadcast use vstd::string::group_string_axioms;

    let mut r: Vec<char> = Vec::new();
    for c in it: s.chars()
        invariant
            it.seq() == s@,
            r@ == it.seq().subrange(0, it.index() as int),
    {
        r.push(c);
        assert(r@ =~= it.seq().subrange(0, it.index() + 1));
    }
    assert(r@ =~= s@);
    r
}

/// Relies on `str::to_lowercase`: the result depends on the characters alone.
#[verifier::external_body]
pub fn lowercase(s: &str) -> (r: String)
    ensures
        r@ == lower_of(s@),
{
    s.to_lowercase()
}

/// Relies on `str::trim_start`: leading whitespace removed, a suffix of the input kept.
#[verifier::external_body]
pub fn trim_start(s: &str) -> (r: String)
    ensures
        r@ == trim_start_of(s@),
        r@.len() <= s@.len(),
        r@ == s@.subrange(s@.len() - r@.len(), s@.len() as int),
{
    s.trim_start().to_string()
}

/// The string made of a range of characters.
pub fn string_of(v: &Vec<char>, lo: usize, hi: usize) -> (r: String)
    requires
        lo <= hi <= v@.len(),
    ensures
        r@ == v@.subrange(lo as int, hi as int),
{
    let mut r = String::new();
    let mut i = lo;
    while i < hi
        invariant
            lo <= i <= hi <= v@.len(),
            r@ == v@.subrange(lo as int, i as int),
        decreases hi - i,
    {
        r.push(v[i]);
        assert(v@.subrange(lo as int, i + 1) =~= v@.subrange(lo as int, i as int).push(v@[i as int]));
        i += 1;
    }
    r
}

/// Whether `s` begins with `p`.
pub open spec fn has_prefix(s: Seq<char>, p: Seq<char>) -> bool {
    p.len() <= s.len() && s.subrange(0, p.len() as int) == p
}

/// Whether the characters of `s` from `at` on begin with `p`.
pub fn starts_with_at(s: &Vec<char>, at: usize, p: &str) -> (r: bool)
    requires
        at <= s@.len(),
    ensures
        r == has_prefix(s@.subrange(at as int, s@.len() as int), p@),
{
    let pv = chars_of(p);
    let ghost rest = s@.subrange(at as int, s@.len() as int);
    let n = s.len();
    if pv.len() > n - at {
        return false;
    }
    let mut i: usize = 0;
    while i < pv.len()
        invariant
            pv@ == p@,
            n == s@.len(),
            at + pv@.len() <= s@.len(),
            rest == s@.subrange(at as int, s@.len() as int),
            i <= pv@.len(),
            forall|j: int| 0 <= j < i ==> s@[at + j] == pv@[j],
        decreases pv.len() - i,
    {
        if s[at + i] != pv[i] {
            assert(rest.subrange(0, p@.len() as int)[i as int] != p@[i as int]);
            return false;
        }
        i += 1;
    }
    assert(rest.subrange(0, p@.len() as int) =~= p@);
    true
}


/// The parts joined with a separator between each two.
pub open spec fn join_of(parts: Seq<Seq<char>>, sep: Seq<char>) -> Seq<char>
    decreases parts.len(),
{
    if parts.len() == 0 {
        Seq::empty()
    } else if parts.len() == 1 {
        parts[0]
    } else {
        join_of(parts.drop_last(), sep) + sep + parts.last()
    }
}

pub open spec fn strings_view(v: Seq<String>) -> Seq<Seq<char>> {
    v.map_values(|s: String| s@)
}

pub open spec fn slices_view(v: Seq<&str>) -> Seq<Seq<char>> {
    v.map_values(|s: &str| s@)
}

/// Appends the parts, joined with `sep`, to `out`.
pub fn append_joined(out: &mut String, parts: &Vec<String>, sep: &str)
    ensures
        final(out)@ == old(out)@ + join_of(strings_view(parts@), sep@),
{
    let ghost ps = strings_view(parts@);
    let ghost start = out@;
    let mut i: usize = 0;
    assert(ps.subrange(0, 0) =~= Seq::<Seq<char>>::empty());
    assert(start + Seq::<char>::empty() =~= start);
    while i < parts.len()
        invariant
            ps == strings_view(parts@),
            i <= parts@.len(),
            out@ == start + join_of(ps.subrange(0, i as int), sep@),
        decreases parts.len() - i,
    {
        let ghost pre = ps.subrange(0, i as int);
        let ghost post = ps.subrange(0, i + 1);
        assert(post.drop_last() =~= pre);
        assert(post.last() == parts@[i as int]@);
        if i > 0 {
            out.append(sep);
            out.append(parts[i].as_str());
            assert(out@ =~= start + join_of(post, sep@));
        } else {
            out.append(parts[i].as_str());
            assert(out@ =~= start + join_of(post, sep@));
        }
        i += 1;
    }
    assert(ps.subrange(0, parts@.len() as int) =~= ps);
}

/// Appends the parts, joined with `sep`, to `out`.
pub fn append_joined_slices(out: &mut String, parts: &Vec<&str>, sep: &str)
    ensures
        final(out)@ == old(out)@ + join_of(slices_view(parts@), sep@),
{
    let ghost ps = slices_view(parts@);
    let ghost start = out@;
    let mut i: usize = 0;
    assert(ps.subrange(0, 0) =~= Seq::<Seq<char>>::empty());
    assert(start + Seq::<char>::empty() =~= start);
    while i < parts.len()
        invariant
            ps == slices_view(parts@),
            i <= parts@.len(),
            out@ == start + join_of(ps.subrange(0, i as int), sep@),
        decreases parts.len() - i,
    {
        let ghost pre = ps.subrange(0, i as int);
        let ghost post = ps.subrange(0, i + 1);
        assert(post.drop_last() =~= pre);
        assert(post.last() == parts@[i as int]@);
        if i > 0 {
            out.append(sep);
            out.append(parts[i]);
            assert(out@ =~= start + join_of(post, sep@));
        } else {
            out.append(parts[i]);
            assert(out@ =~= start + join_of(post, sep@));
        }
        i += 1;
    }
    assert(ps.subrange(0, parts@.len() as int) =~= ps);
}

} // verus!
