use vstd::prelude::*;

use crate::errors::ImageError;
use crate::paths::{extension_of, spec_extension};
use crate::plan::{
    ext_allowed, plan_thumbnail, spec_ext_allowed, spec_plan, views_of, PathFacts, ThumbnailPlan,
};

verus! {

/// How one batch result relates to the planning outcome for its input.
pub open spec fn result_matches(
    r: Result<ThumbnailPlan, ImageError>,
    path: Seq<char>,
    facts: PathFacts,
    allowed: Seq<Seq<char>>,
) -> bool {
    match spec_plan(path, facts, allowed) {
        Ok(_) => r matches Ok(p) && p.matches(path, facts, allowed),
        Err(e) => r == Err::<ThumbnailPlan, ImageError>(e),
    }
}

/// Plans thumbnails for a whole batch of candidates: one result per input,
/// positionally, in input order. Each result is exactly what planning the
/// input alone yields, so one candidate's failure leaves every other
/// result untouched.
pub fn plan_batch(paths: &Vec<String>, facts: &Vec<PathFacts>, allowed: &Vec<String>) -> (r: Vec<
    Result<ThumbnailPlan, ImageError>,
>)
    requires
        paths@.len() == facts@.len(),
    ensures
        r@.len() == paths@.len(),
        forall|i: int|
            0 <= i < r@.len() ==> result_matches(
                #[trigger] r@[i],
                paths@[i]@,
                facts@[i],
                views_of(allowed@),
            ),
{
    let n = paths.len();
    let mut out: Vec<Result<ThumbnailPlan, ImageError>> = Vec::new();
    let mut i: usize = 0;
    while i < n
        invariant
            i <= n,
            n == paths@.len(),
            n == facts@.len(),
            out@.len() == i,
            forall|j: int|
                0 <= j < i ==> result_matches(
                    #[trigger] out@[j],
                    paths@[j]@,
                    facts@[j],
                    views_of(allowed@),
                ),
        decreases n - i,
    {
        let item = plan_thumbnail(paths[i].as_str(), facts[i], allowed);
        out.push(item);
        i = i + 1;
    }
    out
}

/// Whether a candidate path carries an allowed extension.
pub open spec fn spec_candidate(path: Seq<char>, allowed: Seq<Seq<char>>) -> bool {
    spec_extension(path) is Some && spec_ext_allowed(spec_extension(path)->Some_0, allowed)
}

/// The candidates whose extension is allowed, in input order.
pub open spec fn spec_filter_allowed(paths: Seq<Seq<char>>, allowed: Seq<Seq<char>>) -> Seq<
    Seq<char>,
> {
    paths.filter(|p: Seq<char>| spec_candidate(p, allowed))
}

/// Keeps the candidates that carry an allowed extension, in input order:
/// the pre-filter a directory-discovery step applies before dispatching a
/// batch.
pub fn filter_by_extension(paths: &Vec<String>, allowed: &Vec<String>) -> (r: Vec<String>)
    ensures
        views_of(r@) == spec_filter_allowed(views_of(paths@), views_of(allowed@)),
{
    proof {
        reveal(Seq::filter);
    }
    let n = paths.len();
    let mut out: Vec<String> = Vec::new();
    let mut i: usize = 0;
    proof {
        assert(views_of(paths@).subrange(0, 0) =~= Seq::<Seq<char>>::empty());
        assert(views_of(out@) =~= Seq::<Seq<char>>::empty());
    }
    while i < n
        invariant
            i <= n,
            n == paths@.len(),
            views_of(out@) == views_of(paths@).subrange(0, i as int).filter(
                |p: Seq<char>| spec_candidate(p, views_of(allowed@)),
            ),
        decreases n - i,
    {
        let keep = match extension_of(paths[i].as_str()) {
            None => false,
            Some(e) => ext_allowed(e.as_str(), allowed),
        };
        proof {
            reveal(Seq::filter);
            let pv = views_of(paths@);
            assert(pv.subrange(0, i + 1).drop_last() =~= pv.subrange(0, i as int));
            assert(pv.subrange(0, i + 1).last() == paths@[i as int]@);
        }
        if keep {
            let ghost old_out = out@;
            out.push(paths[i].clone());
            proof {
                assert(views_of(out@) =~= views_of(old_out).push(paths@[i as int]@));
            }
        }
        i = i + 1;
    }
    proof {
        assert(views_of(paths@).subrange(0, n as int) =~= views_of(paths@));
    }
    out
}

} // verus!
