//! Finding the product flavors of an Android project in the task list that
//! `./gradlew app:tasks --all` prints.
use crate::text::{
    chars_equal, chars_from, chars_of, ends_with, has_prefix, has_suffix, split_bounds, split_on,
    starts_with, string_of,
};
use crate::text::string_views;
use vstd::prelude::*;

verus! {

/// What `regex::Regex::captures` gives for capture group `group` when `pattern`
/// is matched against `haystack`: `None` when the pattern does not compile,
/// does not match, or the group did not take part in the match.
pub uninterp spec fn regex_capture(pattern: Seq<char>, haystack: Seq<char>, group: nat) -> Option<
    Seq<char>,
>;

/// What `str::to_lowercase` gives for `s`.
pub uninterp spec fn lowercase(s: Seq<char>) -> Seq<char>;

/// Compiles `pattern` with `regex::Regex::new` and returns the text of capture
/// group `group` of the leftmost match in `haystack`. The contract only names
/// the result: it is `regex_capture` of the arguments.
#[verifier::external_body]
fn regex_capture_group(pattern: &str, haystack: &str, group: usize) -> (r: Option<String>)
    ensures
        match r {
            Some(s) => regex_capture(pattern@, haystack@, group as nat) == Some(s@),
            None => regex_capture(pattern@, haystack@, group as nat) is None,
        },
{
    match regex::Regex::new(pattern) {
        Ok(re) => re.captures(haystack).and_then(|caps| caps.get(group)).map(
            |m| m.as_str().to_string(),
        ),
        Err(_) => None,
    }
}

/// Calls `str::to_lowercase`. The contract only names the result.
#[verifier::external_body]
fn to_lowercase(s: &str) -> (r: String)
    ensures
        r@ == lowercase(s@),
{
    s.to_lowercase()
}

/// The pattern of an assemble task: the name of the variant it builds is its
/// second group.
pub open spec fn assemble_pattern() -> Seq<char> {
    "(assemble)(\\S+)"@
}

/// A build variant is what follows "assemble" in a task name, in lower case,
/// unless it is a test variant.
pub open spec fn variant_from_lowered(lowered: Seq<char>) -> Option<Seq<char>> {
    if ends_with(lowered, "test"@) {
        None
    } else {
        Some(lowered)
    }
}

/// The build variant that a line of the task list names, if any.
pub open spec fn line_variant(line: Seq<char>) -> Option<Seq<char>> {
    match regex_capture(assemble_pattern(), line, 2) {
        Some(captured) => variant_from_lowered(lowercase(captured)),
        None => None,
    }
}

/// The distinct build variants that `lines` name, in the order they first occur.
pub open spec fn variants_of(lines: Seq<Seq<char>>) -> Seq<Seq<char>>
    decreases lines.len(),
{
    if lines.len() == 0 {
        Seq::empty()
    } else {
        let earlier = variants_of(lines.drop_last());
        match line_variant(lines.last()) {
            Some(v) => if earlier.contains(v) {
                earlier
            } else {
                earlier.push(v)
            },
            None => earlier,
        }
    }
}

/// `flavor` followed by some build type is the variant `variant`, and that
/// build type is itself one of `variants`.
pub open spec fn is_flavor_of(variant: Seq<char>, flavor: Seq<char>, variants: Seq<Seq<char>>) -> bool {
    &&& starts_with(variant, flavor)
    &&& variant != flavor
    &&& variants.contains(variant.skip(flavor.len() as int))
}

/// `flavor` is a product flavor among `variants`.
pub open spec fn is_product_flavor(flavor: Seq<char>, variants: Seq<Seq<char>>) -> bool {
    exists|j: int| 0 <= j < variants.len() && #[trigger] is_flavor_of(variants[j], flavor, variants)
}

/// The product flavors among `candidates`, each once, in the order of
/// `candidates`; `variants` are all the build variants.
pub open spec fn flavors_among(candidates: Seq<Seq<char>>, variants: Seq<Seq<char>>) -> Seq<
    Seq<char>,
>
    decreases candidates.len(),
{
    if candidates.len() == 0 {
        Seq::empty()
    } else {
        let earlier = flavors_among(candidates.drop_last(), variants);
        let v = candidates.last();
        if is_product_flavor(v, variants) && !earlier.contains(v) {
            earlier.push(v)
        } else {
            earlier
        }
    }
}

/// What a project offers as schemes are product flavors, each a variant
/// named in the task list, and none is offered twice: a flavor is a variant
/// that another variant extends by the name of a third one.
pub proof fn lemma_flavors_are_distinct_variants(candidates: Seq<Seq<char>>, variants: Seq<Seq<char>>)
    ensures
        forall|i: int|
            0 <= i < flavors_among(candidates, variants).len() ==> is_product_flavor(
                #[trigger] flavors_among(candidates, variants)[i],
                variants,
            ) && candidates.contains(flavors_among(candidates, variants)[i]),
        forall|i: int, j: int|
            0 <= i < j < flavors_among(candidates, variants).len() ==> flavors_among(
                candidates,
                variants,
            )[i] != flavors_among(candidates, variants)[j],
    decreases candidates.len(),
{
    if candidates.len() > 0 {
        let rest = candidates.drop_last();
        lemma_flavors_are_distinct_variants(rest, variants);
        let earlier = flavors_among(rest, variants);
        let f = flavors_among(candidates, variants);
        assert forall|i: int| 0 <= i < earlier.len() implies candidates.contains(
            #[trigger] earlier[i],
        ) by {
            let k = choose|k: int| 0 <= k < rest.len() && rest[k] == earlier[i];
            assert(candidates[k] == rest[k]);
        }
        assert(candidates[candidates.len() - 1] == candidates.last());
        if is_product_flavor(candidates.last(), variants) && !earlier.contains(candidates.last()) {
            assert(f == earlier.push(candidates.last()));
            assert forall|i: int, j: int| 0 <= i < j < f.len() implies f[i] != f[j] by {
                if j == f.len() - 1 {
                    assert(f[i] == earlier[i]);
                    assert(earlier.contains(earlier[i]));
                }
            }
        } else {
            assert(f == earlier);
        }
    }
}

/// The product flavors of a project whose task list is `output`.
pub open spec fn schemes_of_task_list(output: Seq<char>) -> Seq<Seq<char>> {
    let variants = variants_of(split_on(output, '\n'));
    flavors_among(variants, variants)
}

fn list_contains(list: &Vec<Vec<char>>, x: &Vec<char>, Ghost(views): Ghost<Seq<Seq<char>>>) -> (r:
    bool)
    requires
        views.len() == list.len(),
        forall|k: int| 0 <= k < list.len() ==> (#[trigger] list@[k])@ == views[k],
    ensures
        r == views.contains(x@),
{
    let mut k: usize = 0;
    while k < list.len()
        invariant
            views.len() == list.len(),
            forall|j: int| 0 <= j < list.len() ==> (#[trigger] list@[j])@ == views[j],
            k <= list.len(),
            forall|j: int| 0 <= j < k ==> views[j] != x@,
        decreases list.len() - k,
    {
        if chars_equal(&list[k], x) {
            assert(views[k as int] == x@);
            return true;
        }
        k += 1;
    }
    false
}

/// The build variant that a lowered capture names, unless it is a test variant.
pub fn variant_from_lowered_capture(lowered: String) -> (r: Option<String>)
    ensures
        match r {
            Some(v) => variant_from_lowered(lowered@) == Some(v@),
            None => variant_from_lowered(lowered@) is None,
        },
{
    let chars = chars_of(lowered.as_str());
    let test = chars_of("test");
    if has_suffix(&chars, &test) {
        None
    } else {
        Some(lowered)
    }
}

/// The build variant that one line of the task list names, if any.
pub fn variant_of_line(line: &str) -> (r: Option<String>)
    ensures
        match r {
            Some(v) => line_variant(line@) == Some(v@),
            None => line_variant(line@) is None,
        },
{
    match regex_capture_group("(assemble)(\\S+)", line, 2) {
        Some(captured) => {
            let lowered = to_lowercase(captured.as_str());
            variant_from_lowered_capture(lowered)
        },
        None => None,
    }
}

/// The product flavors among `variants`: those `v1` for which some other
/// variant `v2` starts with `v1` and the rest of `v2` is a variant too.
/// Each flavor is given once, in the order of `variants`.
pub fn product_flavors(variants: &Vec<String>) -> (flavors: Vec<String>)
    ensures
        string_views(flavors@) == flavors_among(string_views(variants@), string_views(variants@)),
{
    let ghost all = string_views(variants@);
    let mut chars: Vec<Vec<char>> = Vec::new();
    let mut i: usize = 0;
    while i < variants.len()
        invariant
            all == string_views(variants@),
            i <= variants.len(),
            chars@.len() == i,
            forall|k: int| 0 <= k < i ==> (#[trigger] chars@[k])@ == all[k],
        decreases variants.len() - i,
    {
        chars.push(chars_of(variants[i].as_str()));
        i += 1;
    }
    let mut flavors: Vec<String> = Vec::new();
    let mut found: Vec<Vec<char>> = Vec::new();
    let mut a: usize = 0;
    proof {
        assert(all.take(0) =~= Seq::<Seq<char>>::empty());
    }
    while a < chars.len()
        invariant
            all == string_views(variants@),
            chars@.len() == all.len(),
            forall|k: int| 0 <= k < all.len() ==> (#[trigger] chars@[k])@ == all[k],
            a <= all.len(),
            found@.len() == flavors@.len(),
            forall|k: int| 0 <= k < found@.len() ==> (#[trigger] found@[k])@ == string_views(
                flavors@,
            )[k],
            string_views(flavors@) == flavors_among(all.take(a as int), all),
        decreases all.len() - a,
    {
        let ghost earlier = string_views(flavors@);
        let ghost v1 = all[a as int];
        proof {
            assert(all.take(a + 1).drop_last() =~= all.take(a as int));
            assert(all.take(a + 1).last() == v1);
        }
        let n1 = chars[a].len();
        let mut b: usize = 0;
        let mut is_flavor = false;
        while b < chars.len()
            invariant
                chars@.len() == all.len(),
                forall|k: int| 0 <= k < all.len() ==> (#[trigger] chars@[k])@ == all[k],
                a < all.len(),
                v1 == all[a as int],
                n1 == v1.len(),
                b <= all.len(),
                is_flavor ==> is_product_flavor(v1, all),
                !is_flavor ==> forall|j: int| 0 <= j < b ==> !#[trigger] is_flavor_of(all[j], v1, all),
            decreases all.len() - b,
        {
            if !is_flavor {
                let n2 = chars[b].len();
                if n1 <= n2 && has_prefix(&chars[b], &chars[a]) && !chars_equal(
                    &chars[b],
                    &chars[a],
                ) {
                    let rest = chars_from(&chars[b], n1);
                    if list_contains(&chars, &rest, Ghost(all)) {
                        is_flavor = true;
                        proof {
                            assert(rest@ == all[b as int].skip(v1.len() as int));
                            assert(is_flavor_of(all[b as int], v1, all));
                        }
                    } else {
                        proof {
                            assert(rest@ == all[b as int].skip(v1.len() as int));
                        }
                    }
                }
            }
            b += 1;
        }
        if is_flavor && !list_contains(&found, &chars[a], Ghost(earlier)) {
            flavors.push(variants[a].clone());
            found.push(chars[a].clone());
            proof {
                assert(string_views(flavors@) =~= earlier.push(v1));
            }
        }
        a += 1;
    }
    proof {
        assert(all.take(all.len() as int) =~= all);
    }
    flavors
}

/// The product flavors named by the task list that `./gradlew app:tasks --all`
/// prints: the distinct build variants of its assemble tasks are collected,
/// then the flavors among them are kept.
pub fn parse_schemes(output: &str) -> (schemes: Vec<String>)
    ensures
        string_views(schemes@) == schemes_of_task_list(output@),
{
    let chars = chars_of(output);
    let bounds = split_bounds(&chars, '\n');
    let ghost lines = split_on(chars@, '\n');
    let mut variants: Vec<String> = Vec::new();
    let mut seen: Vec<Vec<char>> = Vec::new();
    let mut k: usize = 0;
    proof {
        assert(lines.take(0) =~= Seq::<Seq<char>>::empty());
    }
    while k < bounds.len()
        invariant
            chars@ == output@,
            lines == split_on(chars@, '\n'),
            bounds@.len() == lines.len(),
            forall|j: int|
                0 <= j < bounds@.len() ==> {
                    &&& #[trigger] bounds@[j].0 <= bounds@[j].1 <= chars@.len()
                    &&& chars@.subrange(bounds@[j].0 as int, bounds@[j].1 as int) == lines[j]
                },
            k <= bounds.len(),
            seen@.len() == variants@.len(),
            forall|j: int| 0 <= j < seen@.len() ==> (#[trigger] seen@[j])@ == string_views(
                variants@,
            )[j],
            string_views(variants@) == variants_of(lines.take(k as int)),
        decreases bounds.len() - k,
    {
        let (from, to) = bounds[k];
        let ghost earlier = string_views(variants@);
        proof {
            assert(lines.take(k + 1).drop_last() =~= lines.take(k as int));
            assert(lines.take(k + 1).last() == lines[k as int]);
        }
        let line = string_of(&chars, from, to);
        match variant_of_line(line.as_str()) {
            Some(v) => {
                let v_chars = chars_of(v.as_str());
                if !list_contains(&seen, &v_chars, Ghost(earlier)) {
                    variants.push(v);
                    seen.push(v_chars);
                    proof {
                        assert(string_views(variants@) =~= earlier.push(v_chars@));
                    }
                }
            },
            None => {},
        }
        k += 1;
    }
    proof {
        assert(lines.take(bounds.len() as int) =~= lines);
    }
    product_flavors(&variants)
}

/// The schemes that an Android project offers for running, from its task
/// list: its product flavors, or `None` when it has none.
pub fn offered_flavors(output: &str) -> (r: Option<Vec<String>>)
    ensures
        match r {
            Some(v) => schemes_of_task_list(output@).len() > 0 && string_views(v@)
                == schemes_of_task_list(output@),
            None => schemes_of_task_list(output@).len() == 0,
        },
{
    let schemes = parse_schemes(output);
    if schemes.len() == 0 {
        None
    } else {
        Some(schemes)
    }
}


/// A variant whose lowercased name ends with `test` is a test variant and
/// is never a build variant; any other lowercased name is one.
pub proof fn lemma_test_variants_are_left_out(lowered: Seq<char>)
    ensures
        ends_with(lowered, "test"@) ==> variant_from_lowered(lowered) is None,
        !ends_with(lowered, "test"@) ==> variant_from_lowered(lowered) == Some(lowered),
{
}

} // verus!
