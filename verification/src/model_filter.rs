use vstd::prelude::*;
use crate::json::{Json, JsonV, lemma_key_index, view_items, lemma_view_items_index, lemma_view_items_len};
use crate::text::{str_eq, views_of};

verus! {

/// Whether `path` matches the glob pattern `glob`, as `glob_match::glob_match` decides it.
pub uninterp spec fn glob_matches(glob: Seq<char>, path: Seq<char>) -> bool;

/// Calls `glob_match::glob_match(glob, path)`.
/// Its result is claimed to depend on the two strings alone; the pattern language itself
/// (`*`, `**`, `?`, classes, braces, negation) is not restated here.
#[verifier::external_body]
fn glob_match(glob: &str, path: &str) -> (r: bool)
    ensures
        r == glob_matches(glob@, path@),
{
    glob_match::glob_match(glob, path)
}

/// For each pattern, whether `name` matches it.
pub open spec fn pattern_hits(patterns: Seq<Seq<char>>, name: Seq<char>) -> Seq<bool> {
    Seq::new(patterns.len(), |i: int| glob_matches(patterns[i], name))
}

/// Every pattern is the lone wildcard `*`.
pub open spec fn all_wildcards(patterns: Seq<Seq<char>>) -> bool {
    forall|i: int| 0 <= i < patterns.len() ==> patterns[i] == "*"@
}

/// The filter's verdict, given which inclusion and which exclusion patterns a name matches:
/// the name is included when there is no inclusion pattern, when every inclusion pattern is
/// `*`, or when some inclusion pattern matches; it is admitted when it is included and no
/// exclusion pattern matches.
pub open spec fn decision(inclusions: Seq<Seq<char>>, include_hits: Seq<bool>, exclude_hits: Seq<
    bool,
>) -> bool {
    &&& (inclusions.len() == 0 || all_wildcards(inclusions) || include_hits.contains(true))
    &&& !exclude_hits.contains(true)
}

/// Whether a model named `name` passes the filter with these patterns.
pub open spec fn admits(inclusions: Seq<Seq<char>>, exclusions: Seq<Seq<char>>, name: Seq<char>) -> bool {
    decision(inclusions, pattern_hits(inclusions, name), pattern_hits(exclusions, name))
}

/// The string under `"model"` in a model description, if there is one.
pub open spec fn model_name(m: JsonV) -> Option<Seq<char>> {
    match m.get("model"@) {
        Some(v) => v.as_str(),
        None => None,
    }
}

/// Whether a model description is kept: it names its model, and that name passes.
pub open spec fn keeps(inclusions: Seq<Seq<char>>, exclusions: Seq<Seq<char>>, m: JsonV) -> bool {
    match model_name(m) {
        Some(name) => admits(inclusions, exclusions, name),
        None => false,
    }
}

/// The model descriptions that are kept, in their order.
pub open spec fn kept_models(inclusions: Seq<Seq<char>>, exclusions: Seq<Seq<char>>, models: Seq<JsonV>) -> Seq<JsonV> {
    models.filter(|m: JsonV| keeps(inclusions, exclusions, m))
}

/// Decides which Odoo models are exposed, by inclusion and exclusion glob patterns.
pub struct ModelFilter {
    inclusions: Vec<String>,
    exclusions: Vec<String>,
}

impl ModelFilter {
    /// The inclusion patterns.
    pub closed spec fn inclusion_patterns(&self) -> Seq<Seq<char>> {
        views_of(self.inclusions@)
    }

    /// The exclusion patterns.
    pub closed spec fn exclusion_patterns(&self) -> Seq<Seq<char>> {
        views_of(self.exclusions@)
    }

    pub fn new(include_patterns: Vec<String>, exclude_patterns: Vec<String>) -> (r: ModelFilter)
        ensures
            r.inclusion_patterns() == views_of(include_patterns@),
            r.exclusion_patterns() == views_of(exclude_patterns@),
    {
        ModelFilter { inclusions: include_patterns, exclusions: exclude_patterns }
    }

    /// The verdict for a name, given for each inclusion pattern and each exclusion pattern
    /// whether the name matches it.
    pub fn decide(&self, include_hits: &Vec<bool>, exclude_hits: &Vec<bool>) -> (r: bool)
        ensures
            r == decision(self.inclusion_patterns(), include_hits@, exclude_hits@),
    {
        let included = self.inclusions.len() == 0 || self.all_wildcards_exec() || contains_true(
            include_hits,
        );
        included && !contains_true(exclude_hits)
    }

    fn all_wildcards_exec(&self) -> (r: bool)
        ensures
            r == all_wildcards(self.inclusion_patterns()),
    {
        let mut i: usize = 0;
        while i < self.inclusions.len()
            invariant
                i <= self.inclusions.len(),
                forall|j: int| 0 <= j < i ==> #[trigger] views_of(self.inclusions@)[j] == "*"@,
            decreases self.inclusions.len() - i,
        {
            if !str_eq(self.inclusions[i].as_str(), "*") {
                assert(views_of(self.inclusions@)[i as int] != "*"@);
                return false;
            }
            i = i + 1;
        }
        true
    }

    /// Whether `name` matches one of `patterns`.
    fn any_match(patterns: &Vec<String>, name: &str) -> (r: bool)
        ensures
            r == pattern_hits(views_of(patterns@), name@).contains(true),
    {
        let ghost hits = pattern_hits(views_of(patterns@), name@);
        let mut i: usize = 0;
        while i < patterns.len()
            invariant
                i <= patterns.len(),
                hits == pattern_hits(views_of(patterns@), name@),
                forall|j: int| 0 <= j < i ==> !#[trigger] hits[j],
            decreases patterns.len() - i,
        {
            if glob_match(patterns[i].as_str(), name) {
                assert(hits[i as int]);
                return true;
            }
            i = i + 1;
        }
        assert(!hits.contains(true));
        false
    }

    /// Whether a model named `name` is exposed: included (no inclusion pattern, only `*`,
    /// or a matching inclusion pattern) and not excluded (no matching exclusion pattern).
    pub fn matches(&self, model_name: &str) -> (r: bool)
        ensures
            r == admits(self.inclusion_patterns(), self.exclusion_patterns(), model_name@),
    {
        let included = self.inclusions.len() == 0 || self.all_wildcards_exec() || Self::any_match(
            &self.inclusions,
            model_name,
        );
        if !included {
            return false;
        }
        let excluded = Self::any_match(&self.exclusions, model_name);
        !excluded
    }

    /// The model descriptions whose `"model"` name passes the filter, in their order.
    pub fn filter(&self, models: Vec<Json>) -> (r: Vec<Json>)
        ensures
            view_items(r@) == kept_models(
                self.inclusion_patterns(),
                self.exclusion_patterns(),
                view_items(models@),
            ),
    {
        let ghost pred = |m: JsonV| keeps(self.inclusion_patterns(), self.exclusion_patterns(), m);
        let ghost orig = models@;
        let mut models = models;
        let mut kept: Vec<Json> = Vec::new();
        let mut i: usize = 0;
        proof {
            lemma_view_items_len(orig);
            assert(view_items(orig).take(0) =~= Seq::<JsonV>::empty());
            assert(view_items(kept@) =~= Seq::<JsonV>::empty());
            reveal_with_fuel(Seq::filter, 1);
        }
        while i < models.len()
            invariant
                i <= models.len(),
                models@.len() == orig.len(),
                forall|j: int| i <= j < orig.len() ==> models@[j] == orig[j],
                view_items(orig).len() == orig.len(),
                view_items(kept@) == view_items(orig).take(i as int).filter(pred),
                pred == (|m: JsonV| keeps(self.inclusion_patterns(), self.exclusion_patterns(), m)),
            decreases models.len() - i,
        {
            let mut m = Json::Null;
            models.set_and_swap(i, &mut m);
            proof {
                lemma_view_items_index(orig, i as int);
                assert(view_items(orig).take(i + 1) =~= view_items(orig).take(i as int).push(
                    m@,
                ));
                view_items(orig).take(i as int).lemma_filter_push(m@, pred);
            }
            let keep = match m.get("model") {
                Some(v) => match v.as_str() {
                    Some(name) => self.matches(name.as_str()),
                    None => false,
                },
                None => false,
            };
            assert(keep == pred(m@));
            if keep {
                let ghost before = kept@;
                kept.push(m);
                proof {
                    assert(before.push(m) == kept@);
                    lemma_view_items_push(before, m);
                }
            }
            i = i + 1;
        }
        proof {
            assert(view_items(orig).take(orig.len() as int) =~= view_items(orig));
        }
        kept
    }
}

/// Adding an item adds its value.
proof fn lemma_view_items_push(items: Seq<Json>, x: Json)
    ensures
        view_items(items.push(x)) == view_items(items).push(x@),
{
    assert(items.push(x).drop_last() =~= items);
}

fn contains_true(v: &Vec<bool>) -> (r: bool)
    ensures
        r == v@.contains(true),
{
    let mut i: usize = 0;
    while i < v.len()
        invariant
            i <= v.len(),
            forall|j: int| 0 <= j < i ==> !#[trigger] v@[j],
        decreases v.len() - i,
    {
        if v[i] {
            assert(v@[i as int]);
            return true;
        }
        i = i + 1;
    }
    false
}

/// A name that an exclusion pattern matches is never admitted, whatever the inclusion
/// patterns say: exclusion takes precedence.
pub proof fn lemma_exclusion_wins(inclusions: Seq<Seq<char>>, exclusions: Seq<Seq<char>>, name: Seq<char>, j: int)
    requires
        0 <= j < exclusions.len(),
        glob_matches(exclusions[j], name),
    ensures
        !admits(inclusions, exclusions, name),
{
    assert(pattern_hits(exclusions, name)[j]);
}

/// With no inclusion pattern, every name that no exclusion pattern matches is admitted.
pub proof fn lemma_no_inclusions_admit(exclusions: Seq<Seq<char>>, name: Seq<char>)
    requires
        forall|j: int| 0 <= j < exclusions.len() ==> !glob_matches(exclusions[j], name),
    ensures
        admits(Seq::empty(), exclusions, name),
{
    assert(!pattern_hits(exclusions, name).contains(true));
}

/// When every inclusion pattern is `*`, every name that no exclusion pattern matches is
/// admitted, whatever the glob matcher makes of `*`.
pub proof fn lemma_wildcard_inclusions_admit(inclusions: Seq<Seq<char>>, exclusions: Seq<Seq<char>>, name: Seq<char>)
    requires
        forall|i: int| 0 <= i < inclusions.len() ==> inclusions[i] == "*"@,
        forall|j: int| 0 <= j < exclusions.len() ==> !glob_matches(exclusions[j], name),
    ensures
        admits(inclusions, exclusions, name),
{
    assert(!pattern_hits(exclusions, name).contains(true));
}

/// What the filter admits, stated over the glob matcher alone: a name is admitted exactly
/// when it is included (there is no inclusion pattern, every inclusion pattern is `*`, or
/// some inclusion pattern at any position matches it) and no exclusion pattern matches it.
pub proof fn lemma_admits_exactly(inclusions: Seq<Seq<char>>, exclusions: Seq<Seq<char>>, name: Seq<char>)
    ensures
        admits(inclusions, exclusions, name) <==> {
            &&& (inclusions.len() == 0 || (forall|i: int|
                0 <= i < inclusions.len() ==> inclusions[i] == "*"@) || (exists|i: int|
                0 <= i < inclusions.len() && glob_matches(inclusions[i], name)))
            &&& forall|j: int| 0 <= j < exclusions.len() ==> !glob_matches(exclusions[j], name)
        },
{
    let ih = pattern_hits(inclusions, name);
    let eh = pattern_hits(exclusions, name);
    if ih.contains(true) {
        let i = choose|i: int| 0 <= i < ih.len() && ih[i] == true;
        assert(glob_matches(inclusions[i], name));
    }
    if exists|i: int| 0 <= i < inclusions.len() && glob_matches(inclusions[i], name) {
        let i = choose|i: int| 0 <= i < inclusions.len() && glob_matches(inclusions[i], name);
        assert(ih[i]);
    }
    if eh.contains(true) {
        let j = choose|j: int| 0 <= j < eh.len() && eh[j] == true;
        assert(glob_matches(exclusions[j], name));
    }
    if exists|j: int| 0 <= j < exclusions.len() && glob_matches(exclusions[j], name) {
        let j = choose|j: int| 0 <= j < exclusions.len() && glob_matches(exclusions[j], name);
        assert(eh[j]);
    }
}

/// A name that any inclusion pattern matches, wherever that pattern stands in the list,
/// and that no exclusion pattern matches, is admitted.
pub proof fn lemma_inclusion_match_admits(
    inclusions: Seq<Seq<char>>,
    exclusions: Seq<Seq<char>>,
    name: Seq<char>,
    i: int,
)
    requires
        0 <= i < inclusions.len(),
        glob_matches(inclusions[i], name),
        forall|j: int| 0 <= j < exclusions.len() ==> !glob_matches(exclusions[j], name),
    ensures
        admits(inclusions, exclusions, name),
{
    lemma_admits_exactly(inclusions, exclusions, name);
}

/// The model name of a description is the string of its `"model"` member, wherever that
/// member stands among the others.
pub proof fn lemma_model_name_anywhere(ms: Seq<(Seq<char>, JsonV)>, k: int, name: Seq<char>)
    requires
        0 <= k < ms.len(),
        ms[k] == ("model"@, JsonV::Str(name)),
        forall|j: int| 0 <= j < k ==> ms[j].0 != "model"@,
    ensures
        model_name(JsonV::Object(ms)) == Some(name),
{
    lemma_key_index(ms, "model"@, k);
}

/// Every description in the list whose `"model"` member (at any position) names a model
/// that the filter admits is kept.
pub proof fn lemma_filter_keeps_every_admitted(
    inclusions: Seq<Seq<char>>,
    exclusions: Seq<Seq<char>>,
    models: Seq<JsonV>,
    i: int,
    ms: Seq<(Seq<char>, JsonV)>,
    k: int,
    name: Seq<char>,
)
    requires
        0 <= i < models.len(),
        models[i] == JsonV::Object(ms),
        0 <= k < ms.len(),
        ms[k] == ("model"@, JsonV::Str(name)),
        forall|j: int| 0 <= j < k ==> ms[j].0 != "model"@,
        admits(inclusions, exclusions, name),
    ensures
        kept_models(inclusions, exclusions, models).contains(models[i]),
{
    lemma_model_name_anywhere(ms, k, name);
    let pred = |m: JsonV| keeps(inclusions, exclusions, m);
    assert(pred(models[i]));
    models.lemma_filter_contains(pred, i);
}

/// Filtering keeps the order of the listing: filtering two lists one after the other gives
/// the two filtered lists one after the other; a single entry is kept exactly when it names
/// an admitted model; and a listing whose every entry is kept comes back whole.
pub proof fn lemma_filter_in_order(
    inclusions: Seq<Seq<char>>,
    exclusions: Seq<Seq<char>>,
    a: Seq<JsonV>,
    b: Seq<JsonV>,
    m: JsonV,
)
    ensures
        kept_models(inclusions, exclusions, a + b) == kept_models(inclusions, exclusions, a)
            + kept_models(inclusions, exclusions, b),
        kept_models(inclusions, exclusions, seq![m]) == (if model_name(m) matches Some(name)
            && admits(inclusions, exclusions, name) {
            seq![m]
        } else {
            Seq::<JsonV>::empty()
        }),
        (forall|i: int| 0 <= i < a.len() ==> keeps(inclusions, exclusions, #[trigger] a[i]))
            ==> kept_models(inclusions, exclusions, a) == a,
{
    let pred = |x: JsonV| keeps(inclusions, exclusions, x);
    Seq::filter_distributes_over_add(a, b, pred);
    reveal_with_fuel(Seq::filter, 2);
    assert(seq![m].drop_last() =~= Seq::<JsonV>::empty());
    if forall|i: int| 0 <= i < a.len() ==> keeps(inclusions, exclusions, #[trigger] a[i]) {
        lemma_filter_all(a, pred);
    }
}

proof fn lemma_filter_all(a: Seq<JsonV>, pred: spec_fn(JsonV) -> bool)
    requires
        forall|i: int| 0 <= i < a.len() ==> pred(#[trigger] a[i]),
    ensures
        a.filter(pred) == a,
    decreases a.len(),
{
    reveal_with_fuel(Seq::filter, 1);
    if a.len() > 0 {
        assert forall|i: int| 0 <= i < a.drop_last().len() implies pred(
            #[trigger] a.drop_last()[i],
        ) by {
            assert(a.drop_last()[i] == a[i]);
        }
        lemma_filter_all(a.drop_last(), pred);
        assert(pred(a[a.len() - 1]));
        assert(a.drop_last().push(a.last()) =~= a);
    } else {
        assert(a =~= Seq::<JsonV>::empty());
    }
}

/// Every entry that the filter keeps names a model, and that name is admitted; no entry
/// comes in that was not among the models given.
pub proof fn lemma_filter_keeps_admitted(inclusions: Seq<Seq<char>>, exclusions: Seq<Seq<char>>, models: Seq<JsonV>)
    ensures
        forall|i: int|
            0 <= i < kept_models(inclusions, exclusions, models).len() ==> {
                let m = #[trigger] kept_models(inclusions, exclusions, models)[i];
                &&& model_name(m) is Some
                &&& admits(inclusions, exclusions, model_name(m)->0)
                &&& models.contains(m)
            },
{
    let pred = |m: JsonV| keeps(inclusions, exclusions, m);
    broadcast use vstd::seq_lib::group_filter_ensures;

    assert forall|i: int| 0 <= i < kept_models(inclusions, exclusions, models).len() implies {
        let m = #[trigger] kept_models(inclusions, exclusions, models)[i];
        &&& model_name(m) is Some
        &&& admits(inclusions, exclusions, model_name(m)->0)
        &&& models.contains(m)
    } by {
        let m = models.filter(pred)[i];
        assert(pred(m));
        assert(models.filter(pred).contains(m));
        models.lemma_filter_contains_rev(pred, m);
    }
}

} // verus!
