//! Resolution of a typed identifier fragment against the listing of a kind.

use vstd::prelude::*;
use vstd::string::*;
use crate::text::{starts_with, views};

verus! {

/// The kinds of entity that an identifier can belong to.
#[derive(Clone, Copy, Debug, PartialEq, Eq, Structural)]
pub enum EntityKind {
    Team,
    Project,
    Token,
    Secret,
    UsageRecord,
}

/// One entity of a listing: its full identifier and the name it is shown by.
#[derive(Clone, Debug)]
pub struct Candidate {
    pub id: String,
    pub name: String,
}

/// Why a fragment did not resolve to one identifier.
#[derive(Debug)]
pub enum ResolveError {
    /// No identifier of the listing begins with the fragment.
    NotFound { kind: EntityKind, fragment: String },
    /// Two or more identifiers begin with the fragment; `ids` holds them in
    /// the order of the listing.
    Ambiguous { kind: EntityKind, fragment: String, ids: Vec<String> },
}

/// Whether `fragment` is long enough to be typed in place of an identifier:
/// four characters or more.
pub open spec fn long_enough(fragment: Seq<char>) -> bool {
    fragment.len() >= 4
}

/// Whether `fragment` is long enough to be typed in place of an identifier.
pub fn is_short_id(fragment: &str) -> (accepted: bool)
    ensures
        accepted == long_enough(fragment@),
{
    fragment.unicode_len() >= 4
}

/// The identifiers of `listing` that begin with `fragment`, in listing order.
pub open spec fn matching_ids(listing: Seq<Candidate>, fragment: Seq<char>) -> Seq<Seq<char>>
    decreases listing.len(),
{
    if listing.len() == 0 {
        Seq::empty()
    } else {
        let earlier = matching_ids(listing.drop_last(), fragment);
        if fragment.is_prefix_of(listing.last().id@) {
            earlier.push(listing.last().id@)
        } else {
            earlier
        }
    }
}

/// What resolving `fragment` against `listing` gives, as a value of the model:
/// the one matching identifier, or the reason there is none.
pub enum Resolution {
    Found(Seq<char>),
    Missing,
    Conflict(Seq<Seq<char>>),
}

/// The resolution of `fragment` against `listing`.
pub open spec fn resolution(listing: Seq<Candidate>, fragment: Seq<char>) -> Resolution {
    let hits = matching_ids(listing, fragment);
    if hits.len() == 0 {
        Resolution::Missing
    } else if hits.len() == 1 {
        Resolution::Found(hits[0])
    } else {
        Resolution::Conflict(hits)
    }
}

/// Whether `outcome` reports `expected` for a request of `kind` and `fragment`.
pub open spec fn reports(
    outcome: Result<String, ResolveError>,
    expected: Resolution,
    kind: EntityKind,
    fragment: Seq<char>,
) -> bool {
    match expected {
        Resolution::Found(id) => outcome matches Ok(got) && got@ == id,
        Resolution::Missing => outcome matches Err(ResolveError::NotFound { kind: k, fragment: f })
            && k == kind && f@ == fragment,
        Resolution::Conflict(ids) => outcome matches Err(
            ResolveError::Ambiguous { kind: k, fragment: f, ids: got },
        ) && k == kind && f@ == fragment && views(got@) == ids,
    }
}

/// How a kind is called in a message.
pub open spec fn kind_label(kind: EntityKind) -> Seq<char> {
    match kind {
        EntityKind::Team => "team"@,
        EntityKind::Project => "project"@,
        EntityKind::Token => "token"@,
        EntityKind::Secret => "secret"@,
        EntityKind::UsageRecord => "usage record"@,
    }
}

/// The given texts in a row, with a comma and a space between neighbours.
pub open spec fn joined(items: Seq<Seq<char>>) -> Seq<char>
    decreases items.len(),
{
    if items.len() == 0 {
        Seq::empty()
    } else if items.len() == 1 {
        items[0]
    } else {
        joined(items.drop_last()) + ", "@ + items.last()
    }
}

/// The message for a fragment that no identifier begins with.
pub open spec fn not_found_text(kind: EntityKind, fragment: Seq<char>) -> Seq<char> {
    "No "@ + kind_label(kind) + " has an ID that starts with "@ + fragment + "."@
}

/// The message for a fragment that several identifiers begin with: it names
/// each of them.
pub open spec fn ambiguous_text(
    kind: EntityKind,
    fragment: Seq<char>,
    ids: Seq<Seq<char>>,
) -> Seq<char> {
    "More than one "@ + kind_label(kind) + " has an ID that starts with "@ + fragment + ": "@
        + joined(ids) + "."@
}

/// The message of a failed resolution.
pub open spec fn resolve_error_text(error: ResolveError) -> Seq<char> {
    match error {
        ResolveError::NotFound { kind, fragment } => not_found_text(kind, fragment@),
        ResolveError::Ambiguous { kind, fragment, ids } => ambiguous_text(
            kind,
            fragment@,
            views(ids@),
        ),
    }
}

impl EntityKind {
    /// How the kind is called in a message.
    pub fn label(&self) -> (name: &'static str)
        ensures
            name@ == kind_label(*self),
    {
        match self {
            EntityKind::Team => "team",
            EntityKind::Project => "project",
            EntityKind::Token => "token",
            EntityKind::Secret => "secret",
            EntityKind::UsageRecord => "usage record",
        }
    }
}

/// The given texts in a row, with a comma and a space between neighbours.
pub fn join_ids(ids: &Vec<String>) -> (row: String)
    ensures
        row@ == joined(views(ids@)),
{
    let mut row = String::new();
    let mut i: usize = 0;
    while i < ids.len()
        invariant
            i <= ids.len(),
            row@ == joined(views(ids@).take(i as int)),
        decreases ids.len() - i,
    {
        let ghost before = views(ids@).take(i as int);
        let ghost now = views(ids@).take(i + 1);
        proof {
            assert(now.drop_last() =~= before);
            assert(now.last() == ids@[i as int]@);
        }
        if i > 0 {
            row.append(", ");
            row.append(ids[i].as_str());
        } else {
            row.append(ids[i].as_str());
            assert(row@ =~= ids@[0]@);
            assert(now[0] == ids@[0]@);
        }
        i += 1;
    }
    assert(views(ids@).take(i as int) =~= views(ids@));
    row
}

impl ResolveError {
    /// The message of the failure: it names the kind and the fragment, and
    /// for an ambiguous fragment each identifier that begins with it.
    pub fn message(&self) -> (text: String)
        ensures
            text@ == resolve_error_text(*self),
    {
        match self {
            ResolveError::NotFound { kind, fragment } => {
                String::from_str("No ").concat(kind.label()).concat(
                    " has an ID that starts with ",
                ).concat(fragment.as_str()).concat(".")
            },
            ResolveError::Ambiguous { kind, fragment, ids } => {
                let row = join_ids(ids);
                String::from_str("More than one ").concat(kind.label()).concat(
                    " has an ID that starts with ",
                ).concat(fragment.as_str()).concat(": ").concat(row.as_str()).concat(".")
            },
        }
    }
}

/// The identifiers of `listing`, in order.
pub open spec fn listing_ids(listing: Seq<Candidate>) -> Seq<Seq<char>> {
    listing.map_values(|c: Candidate| c.id@)
}

/// Whether two outcomes of a resolution say the same: the same identifier, or
/// the same failure for the same kind and fragment, with the same conflicting
/// identifiers.
pub open spec fn same_outcome(
    first: Result<String, ResolveError>,
    second: Result<String, ResolveError>,
) -> bool {
    match (first, second) {
        (Ok(a), Ok(b)) => a@ == b@,
        (
            Err(ResolveError::NotFound { kind: k1, fragment: f1 }),
            Err(ResolveError::NotFound { kind: k2, fragment: f2 }),
        ) => k1 == k2 && f1@ == f2@,
        (
            Err(ResolveError::Ambiguous { kind: k1, fragment: f1, ids: i1 }),
            Err(ResolveError::Ambiguous { kind: k2, fragment: f2, ids: i2 }),
        ) => k1 == k2 && f1@ == f2@ && views(i1@) == views(i2@),
        _ => false,
    }
}

/// The matching identifiers are the listing's identifiers, filtered by the
/// prefix test: each one that begins with the fragment, once for each time it
/// is listed, and no other.
pub proof fn matching_ids_are_the_prefixed(listing: Seq<Candidate>, fragment: Seq<char>)
    ensures
        matching_ids(listing, fragment) == listing_ids(listing).filter(
            |id: Seq<char>| fragment.is_prefix_of(id),
        ),
    decreases listing.len(),
{
    reveal(Seq::filter);
    if listing.len() > 0 {
        matching_ids_are_the_prefixed(listing.drop_last(), fragment);
        assert(listing_ids(listing).drop_last() =~= listing_ids(listing.drop_last()));
        assert(listing_ids(listing).last() == listing.last().id@);
    } else {
        assert(listing_ids(listing) =~= Seq::<Seq<char>>::empty());
    }
}

/// An identifier is found exactly where one listed identifier begins with
/// the fragment; none is found where none does, and none is picked where
/// several do.
pub proof fn resolution_goes_by_the_count(listing: Seq<Candidate>, fragment: Seq<char>)
    ensures
        resolution(listing, fragment) is Found <==> matching_ids(listing, fragment).len() == 1,
        resolution(listing, fragment) is Missing <==> matching_ids(listing, fragment).len() == 0,
        resolution(listing, fragment) is Conflict <==> matching_ids(listing, fragment).len() >= 2,
        resolution(listing, fragment) matches Resolution::Found(id) ==> fragment.is_prefix_of(id)
            && listing_ids(listing).contains(id),
{
    matching_ids_are_the_prefixed(listing, fragment);
    let hits = matching_ids(listing, fragment);
    if hits.len() == 1 {
        let keep = |id: Seq<char>| fragment.is_prefix_of(id);
        assert(hits.contains(hits[0]));
        listing_ids(listing).lemma_filter_contains_rev(keep, hits[0]);
    }
}

/// Resolution reads the identifiers of the listing and nothing else: two
/// listings with the same identifiers resolve every fragment alike.
pub proof fn resolution_reads_ids_only(
    first: Seq<Candidate>,
    second: Seq<Candidate>,
    fragment: Seq<char>,
)
    requires
        listing_ids(first) == listing_ids(second),
    ensures
        resolution(first, fragment) == resolution(second, fragment),
{
    matching_ids_are_the_prefixed(first, fragment);
    matching_ids_are_the_prefixed(second, fragment);
}

/// Resolution is determined by its inputs: two outcomes for the same kind,
/// fragment and listing say the same.
pub proof fn resolve_is_deterministic(
    first: Result<String, ResolveError>,
    second: Result<String, ResolveError>,
    kind: EntityKind,
    fragment: Seq<char>,
    listing: Seq<Candidate>,
)
    requires
        reports(first, resolution(listing, fragment), kind, fragment),
        reports(second, resolution(listing, fragment), kind, fragment),
    ensures
        same_outcome(first, second),
{
}

/// Resolves `short_id` to the one identifier of `listing` that begins with
/// it. The match is an exact, case-sensitive prefix match; with several
/// matches none is picked.
pub fn resolve(kind: EntityKind, short_id: &str, listing: &Vec<Candidate>) -> (outcome: Result<
    String,
    ResolveError,
>)
    ensures
        reports(outcome, resolution(listing@, short_id@), kind, short_id@),
{
    let mut hits: Vec<String> = Vec::new();
    let mut i: usize = 0;
    while i < listing.len()
        invariant
            i <= listing.len(),
            views(hits@) == matching_ids(listing@.take(i as int), short_id@),
        decreases listing.len() - i,
    {
        proof {
            assert(listing@.take(i + 1).drop_last() =~= listing@.take(i as int));
        }
        if starts_with(listing[i].id.as_str(), short_id) {
            let ghost before = hits@;
            hits.push(listing[i].id.clone());
            assert(views(hits@) =~= views(before).push(listing@[i as int].id@));
        }
        i += 1;
    }
    assert(listing@.take(i as int) =~= listing@);
    if hits.len() == 0 {
        Err(ResolveError::NotFound { kind, fragment: String::from_str(short_id) })
    } else if hits.len() == 1 {
        Ok(hits[0].clone())
    } else {
        Err(ResolveError::Ambiguous { kind, fragment: String::from_str(short_id), ids: hits })
    }
}

} // verus!
