use vstd::prelude::*;

verus! {

/// Semester numbers up to this one are looked up in the student's listing;
/// larger numbers are taken as the listing id itself.
pub const LAST_NUMBERED_SEMESTER: i64 = 6;

/// Whether some entry of `listing` is for semester `semester`.
pub open spec fn listed(semester: i64, listing: Seq<(i64, i64)>) -> bool {
    exists|k: int| 0 <= k < listing.len() && listing[k].0 == semester
}

/// The listing id of the last entry for `semester`, if there is one.
pub open spec fn last_listed(semester: i64, listing: Seq<(i64, i64)>) -> Option<i64>
    decreases listing.len(),
{
    if listing.len() == 0 {
        None
    } else if listing.last().0 == semester {
        Some(listing.last().1)
    } else {
        last_listed(semester, listing.drop_last())
    }
}

/// The id under which the transcript of `semester` is asked for, given the
/// student's listing of (semester number, listing id) pairs: for a numbered
/// semester the id of its last entry in the listing, `None` when it has none;
/// otherwise `semester` itself.
pub fn transcript_semester_id(semester: i64, listing: &Vec<(i64, i64)>) -> (r: Option<i64>)
    ensures
        semester <= LAST_NUMBERED_SEMESTER ==> r == last_listed(semester, listing@),
        semester > LAST_NUMBERED_SEMESTER ==> r == Some(semester),
        r is None <==> semester <= LAST_NUMBERED_SEMESTER && !listed(semester, listing@),
{
    if semester > LAST_NUMBERED_SEMESTER {
        return Some(semester);
    }
    let mut found: Option<i64> = None;
    let mut i: usize = 0;
    while i < listing.len()
        invariant
            i <= listing@.len(),
            found == last_listed(semester, listing@.subrange(0, i as int)),
        decreases listing@.len() - i,
    {
        let entry = listing[i];
        assert(listing@.subrange(0, i + 1).drop_last() =~= listing@.subrange(0, i as int));
        if entry.0 == semester {
            found = Some(entry.1);
        }
        i += 1;
    }
    assert(listing@.subrange(0, listing@.len() as int) =~= listing@);
    proof {
        lemma_found_iff_listed(semester, listing@);
    }
    found
}

/// The lookup finds an id exactly when the semester is listed.
pub proof fn lemma_found_iff_listed(semester: i64, listing: Seq<(i64, i64)>)
    ensures
        last_listed(semester, listing) is Some <==> listed(semester, listing),
    decreases listing.len(),
{
    if listing.len() > 0 {
        let init = listing.drop_last();
        lemma_found_iff_listed(semester, init);
        if listed(semester, init) {
            let k = choose|k: int| 0 <= k < init.len() && init[k].0 == semester;
            assert(listing[k] == init[k]);
        }
        if listed(semester, listing) && listing.last().0 != semester {
            let k = choose|k: int| 0 <= k < listing.len() && listing[k].0 == semester;
            assert(k < listing.len() - 1);
            assert(init[k] == listing[k]);
        }
    }
}

} // verus!
