//! The template step: make sure the monthly file's lines hold the day's
//! heading exactly once, appending two blank lines and the heading when it is
//! absent, and touching nothing when it is already there.

use vstd::prelude::*;

use crate::date::Date;
use crate::naming::spec_heading;

verus! {

/// Whether some line equals the heading.
pub open spec fn has_line(lines: Seq<Seq<char>>, h: Seq<char>) -> bool {
    exists|i: int| 0 <= i < lines.len() && lines[i] == h
}

/// How many lines equal the heading.
pub open spec fn count_matches(lines: Seq<Seq<char>>, h: Seq<char>) -> nat
    decreases lines.len(),
{
    if lines.len() == 0 {
        0
    } else {
        count_matches(lines.drop_last(), h) + if lines.last() == h {
            1nat
        } else {
            0nat
        }
    }
}

/// The lines of the file after the template step: unchanged when the heading
/// is present, otherwise the old lines followed by two blank lines and the
/// heading.
pub open spec fn spec_put_template(lines: Seq<Seq<char>>, h: Seq<char>) -> Seq<Seq<char>> {
    if has_line(lines, h) {
        lines
    } else {
        lines.push(Seq::<char>::empty()).push(Seq::<char>::empty()).push(h)
    }
}

/// Scans the lines for one equal to the heading.
pub fn heading_present(lines: &Vec<String>, heading: &String) -> (r: bool)
    ensures
        r == has_line(lines.deep_view(), heading@),
{
    let mut i: usize = 0;
    while i < lines.len()
        invariant
            i <= lines.len(),
            forall|j: int| 0 <= j < i ==> #[trigger] lines@[j]@ != heading@,
        decreases lines.len() - i,
    {
        if lines[i].eq(heading) {
            assert(lines.deep_view()[i as int] == heading@);
            return true;
        }
        i += 1;
    }
    false
}

/// Ensures the heading stands among the lines: appends two blank lines and
/// the heading when it is absent, leaves everything unchanged when it is
/// already there. Returns whether anything was appended.
pub fn put_template(lines: &mut Vec<String>, heading: &String) -> (appended: bool)
    ensures
        final(lines).deep_view() == spec_put_template(old(lines).deep_view(), heading@),
        appended == !has_line(old(lines).deep_view(), heading@),
{
    if heading_present(lines, heading) {
        false
    } else {
        lines.push(String::new());
        lines.push(String::new());
        lines.push(heading.clone());
        proof {
            assert(lines.deep_view() =~= spec_put_template(old(lines).deep_view(), heading@));
        }
        true
    }
}

/// The exact bytes the template step appends for a heading: two line breaks
/// ending the previous content's line and leaving one blank line, the heading,
/// and its own line break.
pub fn heading_appendix(heading: &String) -> (r: String)
    ensures
        r@ == "\n\n"@ + heading@ + "\n"@,
{
    let mut s = String::from_str("\n\n");
    s.append(heading.as_str());
    s.append("\n");
    proof {
        reveal_strlit("\n\n");
        reveal_strlit("\n");
        assert(s@ =~= "\n\n"@ + heading@ + "\n"@);
    }
    s
}

/// Counting matches distributes over concatenation of line sequences.
pub proof fn lemma_count_matches_concat(a: Seq<Seq<char>>, b: Seq<Seq<char>>, h: Seq<char>)
    ensures
        count_matches(a + b, h) == count_matches(a, h) + count_matches(b, h),
    decreases b.len(),
{
    if b.len() == 0 {
        assert(a + b =~= a);
    } else {
        lemma_count_matches_concat(a, b.drop_last(), h);
        assert((a + b).drop_last() =~= a + b.drop_last());
        assert((a + b).last() == b.last());
    }
}

/// No line matches the heading exactly when the match count is zero.
pub proof fn lemma_absent_iff_count_zero(lines: Seq<Seq<char>>, h: Seq<char>)
    ensures
        !has_line(lines, h) <==> count_matches(lines, h) == 0,
    decreases lines.len(),
{
    if lines.len() > 0 {
        lemma_absent_iff_count_zero(lines.drop_last(), h);
        if has_line(lines.drop_last(), h) {
            let i = choose|i: int| 0 <= i < lines.drop_last().len() && lines.drop_last()[i] == h;
            assert(lines[i] == h);
        }
        if has_line(lines, h) && lines.last() != h {
            let i = choose|i: int| 0 <= i < lines.len() && lines[i] == h;
            assert(lines.drop_last()[i] == h);
        }
    }
}

/// A date's heading line is never empty, so it never equals a blank line.
pub proof fn lemma_heading_nonempty(d: Date)
    ensures
        spec_heading(d).len() > 0,
{
    reveal_strlit("## ");
}

/// The template step on lines that lack a date's heading — in particular on
/// the empty line sequence of a file that does not yet exist — leaves the
/// heading occurring exactly once.
pub proof fn lemma_put_template_once(lines: Seq<Seq<char>>, d: Date)
    requires
        !has_line(lines, spec_heading(d)),
    ensures
        count_matches(spec_put_template(lines, spec_heading(d)), spec_heading(d)) == 1,
{
    let h = spec_heading(d);
    let e = Seq::<char>::empty();
    let added = seq![e, e, h];
    assert(spec_put_template(lines, h) =~= lines + added);
    lemma_count_matches_concat(lines, added, h);
    lemma_absent_iff_count_zero(lines, h);
    lemma_heading_nonempty(d);
    assert(h != e);
    assert(count_matches(added, h) == count_matches(seq![e, e], h) + 1) by {
        assert(added.drop_last() =~= seq![e, e]);
        assert(added.last() == h);
    }
    assert(count_matches(seq![e, e], h) == count_matches(seq![e], h)) by {
        assert(seq![e, e].drop_last() =~= seq![e]);
        assert(seq![e, e].last() == e);
    }
    assert(count_matches(seq![e], h) == 0) by {
        assert(seq![e].drop_last() =~= Seq::<Seq<char>>::empty());
        assert(seq![e].last() == e);
        assert(count_matches(Seq::<Seq<char>>::empty(), h) == 0);
    }
}

/// Running the template step twice is the same as running it once: the second
/// run finds the heading and changes nothing.
pub proof fn lemma_put_template_idempotent(lines: Seq<Seq<char>>, h: Seq<char>)
    ensures
        spec_put_template(spec_put_template(lines, h), h) == spec_put_template(lines, h),
{
    let once = spec_put_template(lines, h);
    if !has_line(lines, h) {
        assert(once[lines.len() as int + 2] == h);
        assert(has_line(once, h));
    }
}

} // verus!
