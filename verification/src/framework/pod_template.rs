//! Pod templates as JSON, and the overrides of the user that are merged into them.

use k8s_openapi::DeepMerge;
use vstd::prelude::*;

verus! {

/// The result of `DeepMerge::merge_from` of `k8s_openapi` on a pod template and its overrides, all of
/// them as JSON; none where one of the two is no pod template.
pub uninterp spec fn merged_pod_template(
    template: Seq<char>,
    overrides: Seq<char>,
) -> Option<Seq<char>>;

/// Merges overrides into a pod template with `DeepMerge::merge_from` of `k8s_openapi`. Both are read
/// from JSON and the outcome is written as JSON, by `serde_json`. It is claimed only that the same
/// template and overrides always give the same outcome; how they are merged is left unsaid.
#[verifier::external_body]
fn merge_pod_template(template: &str, overrides: &str) -> (merged: Option<String>)
    ensures
        merged.deep_view() == merged_pod_template(template@, overrides@),
{
    let mut merged: k8s_openapi::api::core::v1::PodTemplateSpec = serde_json::from_str(template).ok()?;
    merged.merge_from(serde_json::from_str(overrides).ok()?);
    serde_json::to_string(&merged).ok()
}

/// A pod template with overrides merged into it, one after the other; none where one of them is no
/// pod template.
pub open spec fn with_overrides(
    template: Seq<char>,
    overrides: Seq<Seq<char>>,
) -> Option<Seq<char>>
    decreases overrides.len(),
{
    if overrides.len() == 0 {
        Some(template)
    } else {
        match with_overrides(template, overrides.drop_last()) {
            Some(merged) => merged_pod_template(merged, overrides.last()),
            None => None,
        }
    }
}

/// A part of the overrides that cannot be merged makes the whole of them fail.
proof fn lemma_failure_stays(template: Seq<char>, overrides: Seq<Seq<char>>, done: int)
    requires
        0 <= done <= overrides.len(),
        with_overrides(template, overrides.take(done)).is_none(),
    ensures
        with_overrides(template, overrides).is_none(),
    decreases overrides.len() - done,
{
    if done == overrides.len() {
        assert(overrides.take(done) =~= overrides);
    } else {
        assert(overrides.take(done + 1).drop_last() =~= overrides.take(done));
        lemma_failure_stays(template, overrides, done + 1);
    }
}

/// Merges the overrides of the user into a pod template, one after the other, so that later ones are
/// merged over earlier ones.
pub fn apply_pod_overrides(template: &str, overrides: &Vec<String>) -> (result: Option<String>)
    ensures
        result.deep_view() == with_overrides(template@, overrides.deep_view()),
{
    let mut merged: String = template.to_owned();
    let mut i: usize = 0;
    while i < overrides.len()
        invariant
            i <= overrides.len(),
            with_overrides(template@, overrides.deep_view().take(i as int)) == Some(merged@),
        decreases overrides.len() - i,
    {
        proof {
            assert(overrides.deep_view().take(i + 1).drop_last() =~= overrides.deep_view().take(
                i as int,
            ));
            assert(overrides.deep_view().take(i + 1).last() == overrides[i as int]@);
        }
        merged = match merge_pod_template(merged.as_str(), overrides[i].as_str()) {
            Some(next) => next,
            None => {
                proof {
                    lemma_failure_stays(template@, overrides.deep_view(), i + 1);
                }
                return None;
            },
        };
        i = i + 1;
    }
    proof {
        assert(overrides.deep_view().take(i as int) =~= overrides.deep_view());
    }
    Some(merged)
}

/// Overrides are merged one after the other: merging some and then others is merging all of them in
/// that order, and merging none changes nothing.
pub proof fn law_overrides_are_merged_in_order(
    template: Seq<char>,
    first: Seq<Seq<char>>,
    second: Seq<Seq<char>>,
)
    ensures
        with_overrides(template, Seq::empty()) == Some(template),
        with_overrides(template, first).is_some() ==> with_overrides(template, first + second)
            == with_overrides(with_overrides(template, first).unwrap(), second),
        with_overrides(template, first).is_none() ==> with_overrides(template, first + second)
            == None::<Seq<char>>,
    decreases second.len(),
{
    if second.len() == 0 {
        assert(first + second =~= first);
    } else {
        law_overrides_are_merged_in_order(template, first, second.drop_last());
        assert((first + second).drop_last() =~= first + second.drop_last());
        assert((first + second).last() == second.last());
    }
}

} // verus!
