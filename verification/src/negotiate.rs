//! Format negotiation: which formats each side accepts, and validation of a
//! concrete descriptor into a frame geometry.

use vstd::prelude::*;
use crate::error::EngineError;
use crate::format::{FormatDescriptor, FrameGeometry, PixelFormat};

verus! {

/// The direction a format proposal travels through this stage.
#[derive(Clone, Copy, Debug, PartialEq, Eq, Structural)]
pub enum Direction {
    /// The proposal arrived on the output side and is answered toward the
    /// producer: the stage narrows every candidate to the one canonical
    /// packed format it can always fill.
    Upstream,
    /// The proposal arrived on the input side and is answered toward the
    /// consumer: the stage widens the set, offering a luma-only degradation
    /// of each candidate ahead of the candidate itself.
    Downstream,
}

/// Each candidate forced to the canonical packed format, order kept.
pub open spec fn narrowed(candidates: Seq<FormatDescriptor>) -> Seq<FormatDescriptor> {
    candidates.map_values(
        |d: FormatDescriptor|
            FormatDescriptor {
                format: PixelFormat::Bgrx,
                width: d.width,
                height: d.height,
                rate: d.rate,
            },
    )
}

/// A luma variant of every candidate, followed by the candidates themselves.
pub open spec fn widened(candidates: Seq<FormatDescriptor>) -> Seq<FormatDescriptor> {
    candidates.map_values(
        |d: FormatDescriptor|
            FormatDescriptor {
                format: PixelFormat::Gray8,
                width: d.width,
                height: d.height,
                rate: d.rate,
            },
    ) + candidates
}

/// What this stage accepts in the direction opposite to where the candidates
/// came from.
pub open spec fn accepted_set(direction: Direction, candidates: Seq<FormatDescriptor>) -> Seq<
    FormatDescriptor,
> {
    match direction {
        Direction::Upstream => narrowed(candidates),
        Direction::Downstream => widened(candidates),
    }
}

/// Membership in an accepted set, as a predicate shared by specification and
/// proofs.
pub open spec fn accepted_by(accepted: Seq<FormatDescriptor>) -> spec_fn(FormatDescriptor) -> bool {
    |d: FormatDescriptor| accepted.contains(d)
}

/// The entries of `preference` that also occur in `accepted`, in
/// `preference`'s own order: the first preference wins on a tie.
pub open spec fn ordered_intersection(
    preference: Seq<FormatDescriptor>,
    accepted: Seq<FormatDescriptor>,
) -> Seq<FormatDescriptor> {
    preference.filter(accepted_by(accepted))
}

/// Derives a concrete frame geometry from a descriptor.
///
/// Succeeds exactly when the descriptor has positive dimensions and a frame
/// rate with a positive denominator; the geometry is then the tightly packed
/// layout of one frame.
pub fn validate(d: &FormatDescriptor) -> (r: Result<FrameGeometry, EngineError>)
    ensures
        r is Ok <==> d.acceptable(),
        r matches Ok(g) ==> ({
            &&& g == d.derived_geometry()
            &&& g.format == d.format
            &&& g.width == d.width
            &&& g.height == d.height
            &&& g.stride == d.tight_stride()
            &&& g.size == d.tight_stride() * d.height
            &&& g.wf()
        }),
        r matches Err(e) ==> e == EngineError::InvalidFormat,
{
    if d.width <= 0 || d.height <= 0 || d.rate.denom == 0 {
        return Err(EngineError::InvalidFormat);
    }
    let bpp = d.format.bytes_per_pixel();
    let w: u64 = d.width as u64;
    let h: u64 = d.height as u64;
    assert(1 <= w * (bpp as u64) <= 0x1_FFFF_FFFC) by (nonlinear_arith)
        requires
            1 <= w <= 0x7FFF_FFFF,
            1 <= bpp <= 4,
    ;
    let stride: u64 = w * (bpp as u64);
    assert(stride * h <= 0xFFFF_FFFC_0000_0004) by (nonlinear_arith)
        requires
            stride <= 0x1_FFFF_FFFC,
            1 <= h <= 0x7FFF_FFFF,
    ;
    let size: u64 = stride * h;
    Ok(FrameGeometry { format: d.format, width: d.width, height: d.height, stride, size })
}

/// Does the set hold this descriptor?
fn contains_descriptor(set: &Vec<FormatDescriptor>, d: &FormatDescriptor) -> (b: bool)
    ensures
        b == set@.contains(*d),
{
    let mut i: usize = 0;
    while i < set.len()
        invariant
            i <= set@.len(),
            forall|j: int| 0 <= j < i ==> set@[j] != *d,
        decreases set@.len() - i,
    {
        if set[i] == *d {
            return true;
        }
        i = i + 1;
    }
    false
}

/// The ordered intersection of a preference list with an accepted set.
fn intersect_preferred(
    preference: &Vec<FormatDescriptor>,
    accepted: &Vec<FormatDescriptor>,
) -> (r: Vec<FormatDescriptor>)
    ensures
        r@ == ordered_intersection(preference@, accepted@),
{
    let mut r: Vec<FormatDescriptor> = Vec::new();
    let mut i: usize = 0;
    while i < preference.len()
        invariant
            i <= preference@.len(),
            r@ == preference@.subrange(0, i as int).filter(accepted_by(accepted@)),
        decreases preference@.len() - i,
    {
        let ghost prefix = preference@.subrange(0, i as int);
        if contains_descriptor(accepted, &preference[i]) {
            r.push(preference[i]);
        }
        proof {
            assert(preference@.subrange(0, i + 1) =~= prefix.push(preference@[i as int]));
            prefix.lemma_filter_push(preference@[i as int], accepted_by(accepted@));
            assert(accepted_by(accepted@)(preference@[i as int]) == accepted@.contains(
                preference@[i as int],
            ));
        }
        i = i + 1;
    }
    proof {
        assert(preference@.subrange(0, preference@.len() as int) =~= preference@);
    }
    r
}

/// Each candidate narrowed to the canonical packed format.
fn narrow_to_canonical(candidates: &Vec<FormatDescriptor>) -> (r: Vec<FormatDescriptor>)
    ensures
        r@ == narrowed(candidates@),
{
    let mut r: Vec<FormatDescriptor> = Vec::new();
    let mut i: usize = 0;
    while i < candidates.len()
        invariant
            i <= candidates@.len(),
            r@.len() == i,
            forall|j: int| 0 <= j < i ==> r@[j] == narrowed(candidates@)[j],
        decreases candidates@.len() - i,
    {
        let c = candidates[i];
        r.push(
            FormatDescriptor {
                format: PixelFormat::Bgrx,
                width: c.width,
                height: c.height,
                rate: c.rate,
            },
        );
        i = i + 1;
    }
    proof {
        assert(r@ =~= narrowed(candidates@));
    }
    r
}

/// A luma variant of every candidate, then the candidates themselves.
fn widen_with_luma(candidates: &Vec<FormatDescriptor>) -> (r: Vec<FormatDescriptor>)
    ensures
        r@ == widened(candidates@),
{
    let mut r: Vec<FormatDescriptor> = Vec::new();
    let mut i: usize = 0;
    while i < candidates.len()
        invariant
            i <= candidates@.len(),
            r@.len() == i,
            forall|j: int| 0 <= j < i ==> r@[j] == widened(candidates@)[j],
        decreases candidates@.len() - i,
    {
        let c = candidates[i];
        r.push(
            FormatDescriptor {
                format: PixelFormat::Gray8,
                width: c.width,
                height: c.height,
                rate: c.rate,
            },
        );
        i = i + 1;
    }
    let mut k: usize = 0;
    while k < candidates.len()
        invariant
            k <= candidates@.len(),
            r@.len() == candidates@.len() + k,
            forall|j: int| 0 <= j < r@.len() ==> r@[j] == widened(candidates@)[j],
        decreases candidates@.len() - k,
    {
        r.push(candidates[k]);
        k = k + 1;
    }
    proof {
        assert(r@ =~= widened(candidates@));
    }
    r
}

/// Computes the formats this stage can serve opposite to `direction`, and,
/// when a preference list is supplied, keeps only the preferred entries in
/// the preference's own order. An empty result is a valid negotiation
/// outcome — no common format — that the host answers by failing the link,
/// not an error of this function.
pub fn propose_acceptable(
    direction: Direction,
    candidates: &Vec<FormatDescriptor>,
    filter: Option<&Vec<FormatDescriptor>>,
) -> (r: Vec<FormatDescriptor>)
    ensures
        filter is None ==> r@ == accepted_set(direction, candidates@),
        filter matches Some(f) ==> r@ == ordered_intersection(
            f@,
            accepted_set(direction, candidates@),
        ),
{
    let accepted = match direction {
        Direction::Upstream => narrow_to_canonical(candidates),
        Direction::Downstream => widen_with_luma(candidates),
    };
    match filter {
        None => accepted,
        Some(f) => intersect_preferred(f, &accepted),
    }
}

/// The positions in the preference list at which the ordered intersection's
/// entries stand, innermost recursion mirroring `Seq::filter`.
pub open spec fn selection_positions(
    s: Seq<FormatDescriptor>,
    pred: spec_fn(FormatDescriptor) -> bool,
) -> Seq<int>
    decreases s.len(),
{
    if s.len() == 0 {
        Seq::empty()
    } else {
        let rest = selection_positions(s.drop_last(), pred);
        if pred(s.last()) {
            rest.push(s.len() - 1)
        } else {
            rest
        }
    }
}

proof fn lemma_selection_positions(s: Seq<FormatDescriptor>, pred: spec_fn(FormatDescriptor) -> bool)
    ensures
        selection_positions(s, pred).len() == s.filter(pred).len(),
        forall|i: int|
            0 <= i < selection_positions(s, pred).len() ==> 0 <= #[trigger] selection_positions(
                s,
                pred,
            )[i] < s.len() && s.filter(pred)[i] == s[selection_positions(s, pred)[i]],
        forall|i: int, j: int|
            0 <= i < j < selection_positions(s, pred).len() ==> selection_positions(s, pred)[i]
                < selection_positions(s, pred)[j],
    decreases s.len(),
{
    reveal(Seq::filter);
    if s.len() > 0 {
        lemma_selection_positions(s.drop_last(), pred);
        assert(forall|i: int|
            0 <= i < s.drop_last().len() ==> s.drop_last()[i] == s[i]);
    }
}

/// The ordered intersection keeps only formats that both the accepted set
/// and the preference list hold, and presents them in the preference list's
/// own order: entry `i` of the result stands at position `positions[i]` of
/// the preference list, and those positions increase strictly.
pub proof fn lemma_ordered_intersection_sound(
    preference: Seq<FormatDescriptor>,
    accepted: Seq<FormatDescriptor>,
)
    ensures
        forall|i: int|
            0 <= i < ordered_intersection(preference, accepted).len() ==> accepted.contains(
                #[trigger] ordered_intersection(preference, accepted)[i],
            ) && preference.contains(ordered_intersection(preference, accepted)[i]),
        ({
            let r = ordered_intersection(preference, accepted);
            let positions = selection_positions(preference, accepted_by(accepted));
            &&& positions.len() == r.len()
            &&& forall|i: int|
                0 <= i < positions.len() ==> 0 <= #[trigger] positions[i] < preference.len()
                    && r[i] == preference[positions[i]]
            &&& forall|i: int, j: int|
                0 <= i < j < positions.len() ==> positions[i] < positions[j]
        }),
{
    broadcast use vstd::seq_lib::group_filter_ensures;

    lemma_selection_positions(preference, accepted_by(accepted));
    let r = ordered_intersection(preference, accepted);
    let positions = selection_positions(preference, accepted_by(accepted));
    assert forall|i: int| 0 <= i < r.len() implies accepted.contains(#[trigger] r[i])
        && preference.contains(r[i]) by {
        assert(accepted_by(accepted)(r[i]));
        assert(r[i] == preference[positions[i]]);
    }
}

} // verus!
