//! Joining text fragments and the bracketed option group shared by the elements.
use vstd::prelude::*;
use vstd::string::*;

verus! {

/// The parts in order, with `sep` between each two neighbours.
pub open spec fn joined(parts: Seq<Seq<char>>, sep: Seq<char>) -> Seq<char>
    decreases parts.len(),
{
    if parts.len() == 0 {
        Seq::empty()
    } else if parts.len() == 1 {
        parts[0]
    } else {
        joined(parts.drop_last(), sep) + sep + parts.last()
    }
}

/// The characters of each string.
pub open spec fn views(strings: Seq<String>) -> Seq<Seq<char>> {
    strings.map_values(|s: String| s@)
}

/// An option group: nothing at all for no options, else a space and the options
/// between brackets, separated by commas.
pub open spec fn bracketed(options: Seq<Seq<char>>) -> Seq<char> {
    if options.len() == 0 {
        Seq::empty()
    } else {
        " ["@ + joined(options, ","@) + "]"@
    }
}

/// The options of an element whose only option is its thickness.
pub open spec fn thick_options(thick: bool) -> Seq<Seq<char>> {
    if thick {
        seq!["thick"@]
    } else {
        Seq::empty()
    }
}

/// Writes `parts` one after the other with `sep` between neighbours.
pub fn join(parts: &Vec<String>, sep: &str) -> (r: String)
    ensures
        r@ == joined(views(parts@), sep@),
{
    let ghost all = views(parts@);
    let mut r = String::new();
    let mut i: usize = 0;
    while i < parts.len()
        invariant
            i <= parts.len(),
            all == views(parts@),
            r@ == joined(all.take(i as int), sep@),
        decreases parts.len() - i,
    {
        if i > 0 {
            r.append(sep);
        }
        r.append(parts[i].as_str());
        proof {
            assert(all.take(i + 1).drop_last() =~= all.take(i as int));
        }
        i = i + 1;
    }
    assert(all.take(i as int) =~= all);
    r
}

/// Renders an option group as `bracketed` describes it.
pub fn options_text(options: &Vec<String>) -> (r: String)
    ensures
        r@ == bracketed(views(options@)),
{
    if options.len() == 0 {
        String::new()
    } else {
        let mut r = String::from_str(" [");
        let inner = join(options, ",");
        r.append(inner.as_str());
        r.append("]");
        r
    }
}

/// Where the part at `k` starts in `joined(parts, sep)`.
pub open spec fn part_offset(parts: Seq<Seq<char>>, sep: Seq<char>, k: int) -> int {
    joined(parts.take(k), sep).len() + if k > 0 {
        sep.len() as int
    } else {
        0
    }
}

/// Joining the first `m` parts gives a prefix of joining them all.
pub proof fn lemma_joined_prefix(parts: Seq<Seq<char>>, sep: Seq<char>, m: int)
    requires
        0 <= m <= parts.len(),
    ensures
        joined(parts.take(m), sep).len() <= joined(parts, sep).len(),
        joined(parts, sep).subrange(0, joined(parts.take(m), sep).len() as int) == joined(
            parts.take(m),
            sep,
        ),
    decreases parts.len(),
{
    let all = joined(parts, sep);
    if m == 0 {
        assert(all.subrange(0, 0) =~= joined(parts.take(0), sep));
    } else if m == parts.len() {
        assert(parts.take(m) =~= parts);
        assert(all.subrange(0, all.len() as int) =~= all);
    } else {
        let init = parts.drop_last();
        assert(init.take(m) =~= parts.take(m));
        lemma_joined_prefix(init, sep, m);
        let n = joined(parts.take(m), sep).len() as int;
        assert(all == joined(init, sep) + sep + parts.last());
        assert(all.subrange(0, n) =~= joined(init, sep).subrange(0, n));
    }
}

/// The part at `k` stands in `joined(parts, sep)` at `part_offset(parts, sep, k)`.
pub proof fn lemma_part_position(parts: Seq<Seq<char>>, sep: Seq<char>, k: int)
    requires
        0 <= k < parts.len(),
    ensures
        part_offset(parts, sep, k) + parts[k].len() == joined(parts.take(k + 1), sep).len(),
        part_offset(parts, sep, k) + parts[k].len() <= joined(parts, sep).len(),
        joined(parts, sep).subrange(
            part_offset(parts, sep, k),
            part_offset(parts, sep, k) + parts[k].len(),
        ) == parts[k],
{
    let t = parts.take(k + 1);
    let off = part_offset(parts, sep, k);
    let end = off + parts[k].len();
    lemma_joined_prefix(parts, sep, k + 1);
    assert(t.drop_last() =~= parts.take(k));
    if k == 0 {
        assert(joined(t, sep) == parts[0]);
    } else {
        assert(joined(t, sep) == joined(parts.take(k), sep) + sep + parts[k]);
    }
    assert(joined(t, sep).subrange(off, end) =~= parts[k]);
    assert(joined(parts, sep).subrange(off, end) =~= joined(parts, sep).subrange(
        0,
        joined(t, sep).len() as int,
    ).subrange(off, end));
}

/// With a separator that is not empty, a part ends strictly before each part
/// that follows it begins.
pub proof fn lemma_parts_in_order(parts: Seq<Seq<char>>, sep: Seq<char>, i: int, j: int)
    requires
        0 <= i < j < parts.len(),
        sep.len() > 0,
    ensures
        part_offset(parts, sep, i) + parts[i].len() < part_offset(parts, sep, j),
{
    lemma_part_position(parts, sep, i);
    let before = parts.take(j);
    assert(before.take(i + 1) =~= parts.take(i + 1));
    lemma_joined_prefix(before, sep, i + 1);
}

} // verus!
