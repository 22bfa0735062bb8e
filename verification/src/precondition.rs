//! The precondition evaluator: conditional-request matching for
//! `If-Match` and `If-None-Match` against a session's current entity tag.
//!
//! Both predicates operate purely on the tag already stored on the
//! session; evaluation never recomputes any state.

use vstd::prelude::*;

verus! {

/// A client-supplied precondition: either the wildcard `*` or an explicit
/// list of entity tags.
pub enum TagList {
    Wildcard,
    Tags(Vec<String>),
}

/// Whether `cur` occurs among the listed tags.
pub open spec fn spec_contains_tag(tags: Seq<String>, cur: Seq<char>) -> bool {
    exists|i: int| 0 <= i < tags.len() && tags[i]@ == cur
}

/// `If-Match` is satisfied ("safe to mutate") when the condition is the
/// wildcard or lists the current entity tag.
pub open spec fn spec_if_match_passes(cond: TagList, cur: Seq<char>) -> bool {
    match cond {
        TagList::Wildcard => true,
        TagList::Tags(tags) => spec_contains_tag(tags@, cur),
    }
}

/// `If-None-Match` passes ("act normally: not a cache hit") when the
/// condition is not the wildcard and does not list the current entity tag.
pub open spec fn spec_if_none_match_passes(cond: TagList, cur: Seq<char>) -> bool {
    match cond {
        TagList::Wildcard => false,
        TagList::Tags(tags) => !spec_contains_tag(tags@, cur),
    }
}

fn contains_tag(tags: &Vec<String>, cur: &String) -> (r: bool)
    ensures
        r == spec_contains_tag(tags@, cur@),
{
    let mut i: usize = 0;
    while i < tags.len()
        invariant
            0 <= i <= tags@.len(),
            forall|j: int| 0 <= j < i ==> tags@[j]@ != cur@,
        decreases tags@.len() - i,
    {
        if tags[i] == *cur {
            return true;
        }
        i = i + 1;
    }
    false
}

/// Decides whether an `If-Match` condition is satisfied by the current
/// entity tag.
pub fn if_match_passes(cond: &TagList, cur: &String) -> (r: bool)
    ensures
        r == spec_if_match_passes(*cond, cur@),
{
    match cond {
        TagList::Wildcard => true,
        TagList::Tags(tags) => contains_tag(tags, cur),
    }
}

/// Decides whether an `If-None-Match` condition passes (the response may
/// carry a body) against the current entity tag.
pub fn if_none_match_passes(cond: &TagList, cur: &String) -> (r: bool)
    ensures
        r == spec_if_none_match_passes(*cond, cur@),
{
    match cond {
        TagList::Wildcard => false,
        TagList::Tags(tags) => !contains_tag(tags, cur),
    }
}

/// A condition that lists exactly the current entity tag is satisfied as
/// `If-Match` and is a cache hit (does not pass) as `If-None-Match`; a
/// condition that lists exactly one other tag behaves the opposite way.
pub proof fn lemma_single_tag_conditions(tags: Vec<String>, cur: Seq<char>)
    requires
        tags@.len() == 1,
    ensures
        spec_if_match_passes(TagList::Tags(tags), cur) == (tags@[0]@ == cur),
        spec_if_none_match_passes(TagList::Tags(tags), cur) == (tags@[0]@ != cur),
{
    if tags@[0]@ == cur {
        assert(spec_contains_tag(tags@, cur));
    } else {
        assert(forall|i: int| 0 <= i < tags@.len() ==> tags@[i]@ != cur);
    }
}

} // verus!
