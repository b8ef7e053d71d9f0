//! Reading the parameters of a request.
use vstd::prelude::*;
use vstd::string::*;
use crate::domain::{opt_str_view, ApiError, ApiErrorView};
use crate::text::{comma_pieces, i64_from_text, lowercased, trimmed, views_of};
use crate::validation::{limit_in_range, source_named, SpaceSource, Validator, DEFAULT_LIMIT};

verus! {

/// The page size a listing request asks for: 20 without a parameter; an
/// error for a parameter that is no number or lies outside 1 to 1000.
pub open spec fn limit_of(raw: Option<Seq<char>>) -> Result<i64, ApiErrorView> {
    match raw {
        None => Ok(DEFAULT_LIMIT),
        Some(s) => match i64_from_text(s) {
            None => Err(ApiErrorView::Validation("invalid limit parameter"@)),
            Some(n) => if limit_in_range(n) {
                Ok(n)
            } else {
                Err(ApiErrorView::Validation("limit must be between 1 and 1000"@))
            },
        },
    }
}

pub fn parse_limit(raw: Option<&str>) -> (res: Result<i64, ApiError>)
    ensures
        match limit_of(opt_str_view(raw)) {
            Ok(n) => res == Ok::<i64, ApiError>(n),
            Err(v) => res matches Err(e) && e@ == v,
        },
{
    match raw {
        None => Validator::validate_limit(None),
        Some(s) => match crate::text::parse_i64(s) {
            None => Err(ApiError::Validation(String::from_str("invalid limit parameter"))),
            Some(n) => Validator::validate_limit(Some(n)),
        },
    }
}

/// The feed that one piece of a refresh list names, white space around it
/// and the case of its letters set aside.
pub open spec fn target_of(piece: Seq<char>) -> Option<SpaceSource> {
    source_named(lowercased(trimmed(piece)))
}

/// The feeds that the pieces from position `from` on name, in order;
/// pieces that name no feed are passed over.
pub open spec fn targets_from(pieces: Seq<Seq<char>>, from: int) -> Seq<SpaceSource>
    decreases pieces.len() - from,
{
    if from < 0 || from >= pieces.len() {
        Seq::empty()
    } else {
        match target_of(pieces[from]) {
            Some(s) => seq![s] + targets_from(pieces, from + 1),
            None => targets_from(pieces, from + 1),
        }
    }
}

/// Every feed, in the order in which a refresh without a list takes them.
pub open spec fn all_sources() -> Seq<SpaceSource> {
    seq![
        SpaceSource::Apod,
        SpaceSource::Neo,
        SpaceSource::Flr,
        SpaceSource::Cme,
        SpaceSource::Spacex,
    ]
}

/// The feeds to refresh: those that a comma-separated list names, in the
/// order and as often as it names them, or every feed without a list.
pub fn refresh_targets(list: Option<&str>) -> (r: Vec<SpaceSource>)
    ensures
        r@ == (match list {
            Some(s) => targets_from(comma_pieces(s@), 0),
            None => all_sources(),
        }),
{
    let mut out: Vec<SpaceSource> = Vec::new();
    match list {
        None => {
            out.push(SpaceSource::Apod);
            out.push(SpaceSource::Neo);
            out.push(SpaceSource::Flr);
            out.push(SpaceSource::Cme);
            out.push(SpaceSource::Spacex);
            assert(out@ =~= all_sources());
        },
        Some(s) => {
            let pieces = crate::text::split_commas(s);
            let ghost ps = comma_pieces(s@);
            let mut i: usize = 0;
            assert(out@ + targets_from(ps, 0) =~= targets_from(ps, 0));
            while i < pieces.len()
                invariant
                    i <= pieces@.len(),
                    views_of(pieces@) == ps,
                    targets_from(ps, 0) == out@ + targets_from(ps, i as int),
                decreases pieces@.len() - i,
            {
                assert(ps[i as int] == pieces@[i as int]@);
                let lower = crate::text::lowercase(crate::text::trim(pieces[i].as_str()));
                match SpaceSource::from_name(lower.as_str()) {
                    Some(src) => {
                        assert(out@.push(src) + targets_from(ps, i + 1) =~= out@ + (seq![src]
                            + targets_from(ps, i + 1)));
                        out.push(src);
                    },
                    None => {},
                }
                i = i + 1;
            }
            assert(out@ + targets_from(ps, pieces@.len() as int) =~= out@);
        },
    }
    out
}

} // verus!
