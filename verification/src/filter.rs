//! Which catalogue targets are shown: visibility from the observer's latitude
//! and the season filter, the text search, the search results and the sorted
//! lists of each kind of target.
use vstd::prelude::*;

use crate::catalog::{Target, TargetType};
use crate::i18n::{TargetLabels, Translator, same_text, season_message_id};
use crate::order::{Ranked, is_stable_order, stable_order};
use crate::text::{
    chars_of,
    contains_str,
    ascii_lower,
    ascii_lowered,
    ascii_upper,
    is_ascii_text,
    lex_le,
    lowercase,
    messier_number,
    messier_number_of,
    occurs_in,
    to_lowercase,
};

verus! {

/// The season filter key that lets every season through.
pub open spec fn all_seasons_key() -> Seq<char> {
    "Toutes"@
}

/// The observer's settings that decide which targets are listed.
pub struct SkyFilter {
    /// Observer's latitude, in hundredths of a degree.
    pub latitude: i32,
    /// Season filter key ("Toutes", "Printemps", ...).
    pub season: String,
    /// Display text of the season filter key (unused for "Toutes").
    pub season_text: String,
    /// Search text; empty for no search.
    pub query: String,
}

/// A target rises high enough: its declination exceeds the latitude by more
/// than minus 80 degrees.
pub open spec fn high_enough(latitude: i32, target: Target) -> bool {
    target.dec > latitude - 8000
}

/// A target's season passes the filter: every season is selected, or the
/// target's season reads as the selected one, or its season key contains
/// "circumpolaire". The catalogue's circumpolar keys are spelt
/// "season-circumpolar-n" and "season-circumpolar-s", so that last test never
/// holds for a catalogue target.
pub open spec fn in_season(filter: SkyFilter, target: Target, labels: TargetLabels) -> bool {
    ||| filter.season@ == all_seasons_key()
    ||| labels.season@ == filter.season_text@
    ||| occurs_in("circumpolaire"@, target.season_key@)
}

/// A target is listed under the latitude and season filters.
pub open spec fn visible(filter: SkyFilter, target: Target, labels: TargetLabels) -> bool {
    high_enough(filter.latitude, target) && in_season(filter, target, labels)
}

/// `text` contains the search text, both lower-cased.
pub open spec fn lower_contains(query: Seq<char>, text: Seq<char>) -> bool {
    occurs_in(lowercase(query), lowercase(text))
}

/// A target matches the search: the search is empty, or its lower-cased text
/// occurs in the lower-cased name, Latin name, abbreviation or identifier.
pub open spec fn matches(query: Seq<char>, target: Target, labels: TargetLabels) -> bool {
    ||| query.len() == 0
    ||| lower_contains(query, labels.name@)
    ||| lower_contains(query, labels.latin@)
    ||| (target.abbr matches Some(a) && lower_contains(query, a@))
    ||| (target.id matches Some(i) && lower_contains(query, i@))
}

impl SkyFilter {
    /// A filter for `language`, reading the season key's display text from
    /// the translator where the key is not "Toutes"; `None` where that text
    /// is missing.
    pub fn new(
        translator: &Translator,
        language: &str,
        latitude: i32,
        season: String,
        query: String,
    ) -> (r: Option<SkyFilter>)
        requires
            translator.wf(),
            season@ != all_seasons_key() ==> (season_message_id(season@) matches Some(id)
                ==> translator.formats(language@, id, None)),
        ensures
            season@ == all_seasons_key() ==> r is Some && r->0.season_text@ == Seq::<char>::empty(),
            r matches Some(f) ==> f.latitude == latitude && f.season@ == season@ && f.query@
                == query@,
            season@ != all_seasons_key() ==> match season_message_id(season@) {
                Some(id) => match r {
                    Some(f) => translator.text(language@, id) == Some(f.season_text@),
                    None => translator.text(language@, id) is None,
                },
                None => r is Some && r->0.season_text@ == season@,
            },
    {
        if same_text(season.as_str(), "Toutes") {
            return Some(SkyFilter { latitude, season, season_text: String::new(), query });
        }
        let season_text = translator.season_tr(language, season.as_str())?;
        Some(SkyFilter { latitude, season, season_text, query })
    }

    /// Whether a target is listed under the latitude and season filters.
    pub fn is_target_visible(&self, target: &Target, labels: &TargetLabels) -> (r: bool)
        ensures
            r == visible(*self, *target, *labels),
    {
        let high = (target.dec as i64) > (self.latitude as i64) - 8000;
        let season_ok = same_text(self.season.as_str(), "Toutes") || labels.season
            == self.season_text || contains_str(target.season_key, "circumpolaire");
        high && season_ok
    }

    /// Whether a target is too low in the sky for the observer: the
    /// complement of the latitude condition.
    pub fn is_too_low(&self, target: &Target) -> (r: bool)
        ensures
            r == !high_enough(self.latitude, *target),
    {
        (target.dec as i64) <= (self.latitude as i64) - 8000
    }

    /// Whether a target matches the search text.
    pub fn matches_search(&self, target: &Target, labels: &TargetLabels) -> (r: bool)
        ensures
            r == matches(self.query@, *target, *labels),
            is_ascii_text(self.query@) ==> lowercase(self.query@) == ascii_lowered(self.query@),
    {
        let query = to_lowercase(self.query.as_str());
        if self.query.as_str().unicode_len() == 0 {
            return true;
        }
        let name = to_lowercase(labels.name.as_str());
        if contains_str(name.as_str(), query.as_str()) {
            return true;
        }
        let latin = to_lowercase(labels.latin.as_str());
        if contains_str(latin.as_str(), query.as_str()) {
            return true;
        }
        let in_abbr = match target.abbr {
            Some(a) => {
                let lower = to_lowercase(a);
                contains_str(lower.as_str(), query.as_str())
            },
            None => false,
        };
        if in_abbr {
            return true;
        }
        match target.id {
            Some(i) => {
                let lower = to_lowercase(i);
                contains_str(lower.as_str(), query.as_str())
            },
            None => false,
        }
    }

    /// Whether a target is both visible and matches the search.
    pub fn accepts(&self, target: &Target, labels: &TargetLabels) -> (r: bool)
        ensures
            r == (visible(*self, *target, *labels) && matches(self.query@, *target, *labels)),
    {
        self.is_target_visible(target, labels) && self.matches_search(target, labels)
    }

    /// The message id that explains why a selected target is not visible:
    /// out of season when its season key differs from the selected key, the
    /// filter is not "Toutes" and the key does not contain "circumpolaire"
    /// (which no catalogue key contains); not visible otherwise. `None` for a
    /// visible target.
    pub fn hidden_reason(&self, target: &Target, labels: &TargetLabels) -> (r: Option<
        &'static str,
    >)
        ensures
            visible(*self, *target, *labels) ==> r is None,
            !visible(*self, *target, *labels) ==> r is Some && r->0@ == (if target.season_key@
                != self.season@ && self.season@ != all_seasons_key() && !occurs_in(
                "circumpolaire"@,
                target.season_key@,
            ) {
                "target-out-of-season"@
            } else {
                "target-not-visible"@
            }),
    {
        if self.is_target_visible(target, labels) {
            return None;
        }
        if !same_text(target.season_key, self.season.as_str()) && !same_text(
            self.season.as_str(),
            "Toutes",
        ) && !contains_str(target.season_key, "circumpolaire") {
            Some("target-out-of-season")
        } else {
            Some("target-not-visible")
        }
    }
}

/// The positions `0..n` that satisfy `p`, in increasing order.
pub open spec fn positions_where(n: nat, p: spec_fn(usize) -> bool) -> Seq<usize>
    decreases n,
{
    if n == 0 {
        Seq::empty()
    } else {
        let prev = positions_where((n - 1) as nat, p);
        if p((n - 1) as usize) {
            prev.push((n - 1) as usize)
        } else {
            prev
        }
    }
}

proof fn lemma_positions_where(n: nat, p: spec_fn(usize) -> bool)
    requires
        n <= usize::MAX + 1,
    ensures
        forall|i: int| 0 <= i < positions_where(n, p).len() ==> #[trigger] positions_where(n, p)[i] < n,
        forall|i: int| 0 <= i < positions_where(n, p).len() ==> p(#[trigger] positions_where(n, p)[i]),
        forall|i: int, j: int|
            0 <= i < j < positions_where(n, p).len() ==> #[trigger] positions_where(n, p)[i]
                < #[trigger] positions_where(n, p)[j],
        forall|x: usize| x < n && p(x) ==> #[trigger] positions_where(n, p).contains(x),
        positions_where(n, p).len() <= n,
    decreases n,
{
    if n > 0 {
        lemma_positions_where((n - 1) as nat, p);
        let prev = positions_where((n - 1) as nat, p);
        let cur = positions_where(n, p);
        assert forall|x: usize| x < n && p(x) implies #[trigger] cur.contains(x) by {
            if x < n - 1 {
                assert(prev.contains(x));
                let w = choose|w: int| 0 <= w < prev.len() && prev[w] == x;
                assert(cur[w] == x);
            } else {
                assert(cur[cur.len() - 1] == x);
            }
        }
    }
}

proof fn lemma_positions_prefix(m: nat, n: nat, p: spec_fn(usize) -> bool)
    requires
        m <= n,
    ensures
        positions_where(m, p).len() <= positions_where(n, p).len(),
        positions_where(n, p).take(positions_where(m, p).len() as int) == positions_where(m, p),
    decreases n - m,
{
    if m < n {
        lemma_positions_prefix(m, (n - 1) as nat, p);
        let a = positions_where(m, p);
        let b = positions_where((n - 1) as nat, p);
        let c = positions_where(n, p);
        assert(c.take(a.len() as int) =~= b.take(a.len() as int));
    } else {
        assert(positions_where(n, p).take(positions_where(n, p).len() as int) =~= positions_where(
            n,
            p,
        ));
    }
}

/// The targets that pass the filters and the search.
pub open spec fn accepted(
    filter: SkyFilter,
    targets: Seq<Target>,
    labels: Seq<TargetLabels>,
) -> spec_fn(usize) -> bool {
    |i: usize|
        visible(filter, targets[i as int], labels[i as int]) && matches(
            filter.query@,
            targets[i as int],
            labels[i as int],
        )
}

/// Maximum number of quick search results.
pub const SEARCH_RESULT_LIMIT: usize = 10;

/// The first ten targets, in catalogue order, that pass the filters and the
/// search.
pub fn search_results(filter: &SkyFilter, targets: &Vec<Target>, labels: &Vec<TargetLabels>) -> (r:
    Vec<usize>)
    requires
        labels@.len() == targets@.len(),
    ensures
        ({
            let all = positions_where(targets@.len(), accepted(*filter, targets@, labels@));
            r@ == all.take(
                if all.len() < SEARCH_RESULT_LIMIT {
                    all.len() as int
                } else {
                    SEARCH_RESULT_LIMIT as int
                },
            )
        }),
{
    let ghost p = accepted(*filter, targets@, labels@);
    let n = targets.len();
    let mut out: Vec<usize> = Vec::new();
    let mut i: usize = 0;
    while i < n && out.len() < SEARCH_RESULT_LIMIT
        invariant
            n == targets@.len(),
            n == labels@.len(),
            i <= n,
            p == accepted(*filter, targets@, labels@),
            out@ == positions_where(i as nat, p),
            out@.len() <= SEARCH_RESULT_LIMIT,
        decreases n - i,
    {
        if filter.accepts(&targets[i], &labels[i]) {
            out.push(i);
        }
        i = i + 1;
    }
    proof {
        lemma_positions_prefix(i as nat, n as nat, p);
        let all = positions_where(n as nat, p);
        if i == n {
            assert(all.take(all.len() as int) =~= all);
        } else {
            assert(out@.len() == SEARCH_RESULT_LIMIT);
            assert(all.take(out@.len() as int) == out@);
        }
    }
    out
}

/// `out` holds each of `sel` once, in non-decreasing order of `le`, and
/// positions of equal rank in increasing order: the stable sort of `sel`.
pub open spec fn stable_arrangement(
    out: Seq<usize>,
    sel: Seq<usize>,
    le: spec_fn(usize, usize) -> bool,
) -> bool {
    &&& out.len() == sel.len()
    &&& forall|x: usize| #[trigger] out.contains(x) <==> sel.contains(x)
    &&& out.no_duplicates()
    &&& forall|i: int, j: int| 0 <= i < j < out.len() ==> le(#[trigger] out[i], #[trigger] out[j])
    &&& forall|i: int, j: int|
        0 <= i < j < out.len() && le(out[j], out[i]) ==> #[trigger] out[i] < #[trigger] out[j]
}

/// The order of listing within a kind: Messier objects by number, others by
/// translated name.
pub open spec fn listing_le(
    kind: TargetType,
    targets: Seq<Target>,
    labels: Seq<TargetLabels>,
) -> spec_fn(usize, usize) -> bool {
    |a: usize, b: usize|
        if kind == TargetType::Messier {
            messier_number_of(
                match targets[a as int].id {
                    Some(x) => Some(x@),
                    None => None,
                },
            ) <= messier_number_of(
                match targets[b as int].id {
                    Some(x) => Some(x@),
                    None => None,
                },
            )
        } else {
            lex_le(labels[a as int].name@, labels[b as int].name@)
        }
}

/// The targets of one kind that pass the filters and the search.
pub open spec fn accepted_of_kind(
    filter: SkyFilter,
    kind: TargetType,
    targets: Seq<Target>,
    labels: Seq<TargetLabels>,
) -> spec_fn(usize) -> bool {
    |i: usize| targets[i as int].target_type == kind && accepted(filter, targets, labels)(i)
}

/// Builds `sel` in the order given by the stable order of `keys`.
fn compose(sel: &Vec<usize>, order: &Vec<usize>) -> (out: Vec<usize>)
    requires
        forall|i: int| 0 <= i < order@.len() ==> #[trigger] order@[i] < sel@.len(),
    ensures
        out@.len() == order@.len(),
        forall|m: int| 0 <= m < order@.len() ==> #[trigger] out@[m] == sel@[order@[m] as int],
{
    let mut out: Vec<usize> = Vec::new();
    let mut m: usize = 0;
    while m < order.len()
        invariant
            m <= order@.len(),
            out@.len() == m,
            forall|i: int| 0 <= i < order@.len() ==> #[trigger] order@[i] < sel@.len(),
            forall|q: int| 0 <= q < m ==> #[trigger] out@[q] == sel@[order@[q] as int],
        decreases order@.len() - m,
    {
        out.push(sel[order[m]]);
        m = m + 1;
    }
    out
}

proof fn lemma_arrangement<K: Ranked>(
    sel: Seq<usize>,
    keys: Seq<K>,
    order: Seq<usize>,
    out: Seq<usize>,
    le: spec_fn(usize, usize) -> bool,
)
    requires
        keys.len() == sel.len(),
        sel.len() <= usize::MAX,
        forall|i: int, j: int| 0 <= i < j < sel.len() ==> #[trigger] sel[i] < #[trigger] sel[j],
        forall|i: int, j: int|
            0 <= i < sel.len() && 0 <= j < sel.len() ==> (#[trigger] keys[i].rank_le(
                #[trigger] keys[j],
            ) <==> le(sel[i], sel[j])),
        is_stable_order(keys, order),
        out.len() == order.len(),
        forall|m: int| 0 <= m < order.len() ==> #[trigger] out[m] == sel[order[m] as int],
    ensures
        stable_arrangement(out, sel, le),
{
    assert forall|x: usize| #[trigger] out.contains(x) <==> sel.contains(x) by {
        if out.contains(x) {
            let m = choose|m: int| 0 <= m < out.len() && out[m] == x;
            assert(sel[order[m] as int] == x);
        }
        if sel.contains(x) {
            let j = choose|j: int| 0 <= j < sel.len() && sel[j] == x;
            assert(order.contains(j as usize));
            let m = choose|m: int| 0 <= m < order.len() && order[m] == j as usize;
            assert(out[m] == sel[order[m] as int]);
            assert(out[m] == x);
        }
    }
    assert forall|a: int, b: int| 0 <= a < out.len() && 0 <= b < out.len() && a != b implies out[a]
        != out[b] by {
        assert(order[a] != order[b]);
        if order[a] < order[b] {
            assert(sel[order[a] as int] < sel[order[b] as int]);
        } else {
            assert(sel[order[b] as int] < sel[order[a] as int]);
        }
    }
    assert forall|i: int, j: int| 0 <= i < j < out.len() implies le(
        #[trigger] out[i],
        #[trigger] out[j],
    ) by {
        assert(keys[order[i] as int].rank_le(keys[order[j] as int]));
    }
    assert forall|i: int, j: int| 0 <= i < j < out.len() && le(out[j], out[i]) implies #[trigger] out[i]
        < #[trigger] out[j] by {
        assert(keys[order[j] as int].rank_le(keys[order[i] as int]));
        assert(order[i] < order[j]);
    }
}

/// The targets of one kind that pass the filters and the search, as the
/// kind's menu lists them: Messier objects by number, the others by
/// translated name, ties in catalogue order.
pub fn targets_of_kind(
    filter: &SkyFilter,
    kind: TargetType,
    targets: &Vec<Target>,
    labels: &Vec<TargetLabels>,
) -> (r: Vec<usize>)
    requires
        labels@.len() == targets@.len(),
    ensures
        stable_arrangement(
            r@,
            positions_where(targets@.len(), accepted_of_kind(*filter, kind, targets@, labels@)),
            listing_le(kind, targets@, labels@),
        ),
{
    let ghost p = accepted_of_kind(*filter, kind, targets@, labels@);
    let ghost le = listing_le(kind, targets@, labels@);
    let n = targets.len();
    let mut sel: Vec<usize> = Vec::new();
    let mut i: usize = 0;
    while i < n
        invariant
            n == targets@.len(),
            n == labels@.len(),
            i <= n,
            p == accepted_of_kind(*filter, kind, targets@, labels@),
            sel@ == positions_where(i as nat, p),
        decreases n - i,
    {
        if targets[i].target_type == kind && filter.accepts(&targets[i], &labels[i]) {
            sel.push(i);
        }
        i = i + 1;
    }
    proof {
        lemma_positions_where(n as nat, p);
    }
    if kind == TargetType::Messier {
        let mut keys: Vec<i32> = Vec::new();
        let mut j: usize = 0;
        while j < sel.len()
            invariant
                n == targets@.len(),
                j <= sel@.len(),
                keys@.len() == j,
                forall|q: int| 0 <= q < sel@.len() ==> #[trigger] sel@[q] < n,
                forall|q: int|
                    0 <= q < j ==> #[trigger] keys@[q] == messier_number_of(
                        match targets@[sel@[q] as int].id {
                            Some(x) => Some(x@),
                            None => None,
                        },
                    ),
            decreases sel@.len() - j,
        {
            keys.push(messier_number(targets[sel[j]].id));
            j = j + 1;
        }
        let order = stable_order(&keys);
        let out = compose(&sel, &order);
        proof {
            lemma_arrangement(sel@, keys@, order@, out@, le);
        }
        out
    } else {
        let mut keys: Vec<Vec<char>> = Vec::new();
        let mut j: usize = 0;
        while j < sel.len()
            invariant
                n == targets@.len(),
                n == labels@.len(),
                j <= sel@.len(),
                keys@.len() == j,
                forall|q: int| 0 <= q < sel@.len() ==> #[trigger] sel@[q] < n,
                forall|q: int| 0 <= q < j ==> #[trigger] keys@[q]@ == labels@[sel@[q] as int].name@,
            decreases sel@.len() - j,
        {
            keys.push(chars_of(labels[sel[j]].name.as_str()));
            j = j + 1;
        }
        let order = stable_order(&keys);
        let out = compose(&sel, &order);
        proof {
            lemma_arrangement(sel@, keys@, order@, out@, le);
        }
        out
    }
}

/// A target too low for the observer is never listed, whatever the season
/// filter or the search.
pub proof fn law_too_low_is_hidden(filter: SkyFilter, target: Target, labels: TargetLabels)
    requires
        !high_enough(filter.latitude, target),
    ensures
        !visible(filter, target, labels),
{
}

/// With every season selected, a target is listed exactly when it rises
/// high enough.
pub proof fn law_all_seasons(filter: SkyFilter, target: Target, labels: TargetLabels)
    requires
        filter.season@ == all_seasons_key(),
    ensures
        visible(filter, target, labels) == high_enough(filter.latitude, target),
{
}

/// An empty search matches every target.
pub proof fn law_empty_search_matches_all(query: Seq<char>, target: Target, labels: TargetLabels)
    requires
        query.len() == 0,
    ensures
        matches(query, target, labels),
{
}

/// The quick search results are at most ten distinct targets, each passing
/// the filters and the search, in catalogue order, and every passing target
/// before the last result is among them.
pub proof fn law_search_results(
    filter: SkyFilter,
    targets: Seq<Target>,
    labels: Seq<TargetLabels>,
    results: Seq<usize>,
)
    requires
        targets.len() <= usize::MAX,
        ({
            let all = positions_where(targets.len(), accepted(filter, targets, labels));
            results == all.take(
                if all.len() < SEARCH_RESULT_LIMIT {
                    all.len() as int
                } else {
                    SEARCH_RESULT_LIMIT as int
                },
            )
        }),
    ensures
        results.len() <= SEARCH_RESULT_LIMIT,
        forall|i: int|
            0 <= i < results.len() ==> #[trigger] results[i] < targets.len() && accepted(
                filter,
                targets,
                labels,
            )(results[i]),
        forall|i: int, j: int| 0 <= i < j < results.len() ==> #[trigger] results[i] < #[trigger] results[j],
        results.len() < SEARCH_RESULT_LIMIT ==> forall|x: usize|
            x < targets.len() && accepted(filter, targets, labels)(x) ==> #[trigger] results.contains(x),
        forall|x: usize, i: int|
            0 <= i < results.len() && x < results[i] && accepted(filter, targets, labels)(x)
                ==> #[trigger] results.contains(x) && #[trigger] results[i] > x,
{
    let p = accepted(filter, targets, labels);
    lemma_positions_where(targets.len(), p);
    let all = positions_where(targets.len(), p);
    if results.len() < SEARCH_RESULT_LIMIT {
        assert(results =~= all);
    }
    assert forall|x: usize, i: int|
        0 <= i < results.len() && x < results[i] && accepted(filter, targets, labels)(x)
            implies #[trigger] results.contains(x) && #[trigger] results[i] > x by {
        assert(results[i] == all[i]);
        assert(x < targets.len());
        assert(all.contains(x));
        let w = choose|w: int| 0 <= w < all.len() && all[w] == x;
        if w >= i {
            if w > i {
                assert(all[i] < all[w]);
            }
        }
        assert(w < i);
        assert(results[w] == all[w]);
    }
}

/// A kind's menu lists exactly the targets of that kind that pass the
/// filters and the search, each once.
pub proof fn law_kind_listing_complete(
    filter: SkyFilter,
    kind: TargetType,
    targets: Seq<Target>,
    labels: Seq<TargetLabels>,
    listed: Seq<usize>,
)
    requires
        targets.len() <= usize::MAX,
        stable_arrangement(
            listed,
            positions_where(targets.len(), accepted_of_kind(filter, kind, targets, labels)),
            listing_le(kind, targets, labels),
        ),
    ensures
        listed.no_duplicates(),
        forall|x: usize|
            #[trigger] listed.contains(x) <==> (x < targets.len() && targets[x as int].target_type
                == kind && accepted(filter, targets, labels)(x)),
{
    let p = accepted_of_kind(filter, kind, targets, labels);
    lemma_positions_where(targets.len(), p);
    let sel = positions_where(targets.len(), p);
    assert forall|x: usize| #[trigger] listed.contains(x) <==> (x < targets.len() && targets[x as int].target_type
        == kind && accepted(filter, targets, labels)(x)) by {
        if listed.contains(x) {
            assert(sel.contains(x));
            let w = choose|w: int| 0 <= w < sel.len() && sel[w] == x;
            assert(p(sel[w]));
        }
        if x < targets.len() && targets[x as int].target_type == kind && accepted(filter, targets, labels)(x) {
            assert(p(x));
            assert(sel.contains(x));
        }
    }
}

/// The latitude condition, for every latitude (south of the equator too):
/// a target rises high enough exactly when its declination exceeds the
/// latitude minus 80 degrees, and with every season selected it is listed
/// exactly then.
pub proof fn law_latitude_condition(filter: SkyFilter, target: Target, labels: TargetLabels)
    ensures
        high_enough(filter.latitude, target) <==> target.dec > filter.latitude - 8000,
        visible(filter, target, labels) ==> target.dec > filter.latitude - 8000,
        filter.season@ == all_seasons_key() ==> (visible(filter, target, labels) <==> target.dec
            > filter.latitude - 8000),
{
}

/// A target is listed under the latitude and season filters exactly when
/// its declination exceeds the latitude minus 80 degrees and every season is
/// selected, or its translated season reads as the selected season's text,
/// or its season key contains "circumpolaire".
pub proof fn law_visibility(filter: SkyFilter, target: Target, labels: TargetLabels)
    ensures
        visible(filter, target, labels) <==> target.dec > filter.latitude - 8000 && (
        filter.season@ == "Toutes"@ || labels.season@ == filter.season_text@ || occurs_in(
            "circumpolaire"@,
            target.season_key@,
        )),
{
}

/// A target matches every search text whose lower-case form occurs in the
/// lower-cased form of its name, Latin name, abbreviation or identifier,
/// whatever its kind; and it matches only those (or the empty search).
pub proof fn law_search_fields(query: Seq<char>, target: Target, labels: TargetLabels)
    ensures
        query.len() == 0 ==> matches(query, target, labels),
        occurs_in(lowercase(query), lowercase(labels.name@)) ==> matches(query, target, labels),
        occurs_in(lowercase(query), lowercase(labels.latin@)) ==> matches(query, target, labels),
        target.abbr matches Some(a) && occurs_in(lowercase(query), lowercase(a@)) ==> matches(
            query,
            target,
            labels,
        ),
        target.id matches Some(i) && occurs_in(lowercase(query), lowercase(i@)) ==> matches(
            query,
            target,
            labels,
        ),
        matches(query, target, labels) ==> {
            ||| query.len() == 0
            ||| occurs_in(lowercase(query), lowercase(labels.name@))
            ||| occurs_in(lowercase(query), lowercase(labels.latin@))
            ||| (target.abbr matches Some(a) && occurs_in(lowercase(query), lowercase(a@)))
            ||| (target.id matches Some(i) && occurs_in(lowercase(query), lowercase(i@)))
        },
{
}

/// `a` comes strictly before `b` in code point order, deciding at position
/// `k`: they agree before `k`, and there `a` has ended while `b` goes on, or
/// `a` has the smaller character.
pub open spec fn strictly_before_at(a: Seq<char>, b: Seq<char>, k: int) -> bool {
    &&& 0 <= k <= a.len()
    &&& k <= b.len()
    &&& forall|m: int| 0 <= m < k ==> #[trigger] a[m] == b[m]
    &&& if k == a.len() {
        k < b.len()
    } else {
        k < b.len() && a[k] < b[k]
    }
}

proof fn lemma_strictly_before_not_lex_le(a: Seq<char>, b: Seq<char>, k: int)
    requires
        strictly_before_at(a, b, k),
    ensures
        !lex_le(b, a),
    decreases k,
{
    if k > 0 {
        assert(a[0] == b[0]);
        let a1 = a.drop_first();
        let b1 = b.drop_first();
        assert forall|m: int| 0 <= m < k - 1 implies #[trigger] a1[m] == b1[m] by {
            assert(a[m + 1] == b[m + 1]);
        }
        if k - 1 < a1.len() {
            assert(a1[k - 1] == a[k]);
            assert(b1[k - 1] == b[k]);
        }
        lemma_strictly_before_not_lex_le(a1, b1, k - 1);
    }
}

proof fn lemma_lex_le_refl(a: Seq<char>)
    ensures
        lex_le(a, a),
    decreases a.len(),
{
    if a.len() > 0 {
        lemma_lex_le_refl(a.drop_first());
    }
}

/// The order of a kind's menu. For constellations, nebulae, galaxies and
/// clusters, a later entry's translated name never comes strictly before an
/// earlier one's in code point order (compared over the whole name), and
/// entries with the same name keep catalogue order; Messier objects come by
/// number, equal numbers in catalogue order.
pub proof fn law_kind_listing_order(
    filter: SkyFilter,
    kind: TargetType,
    targets: Seq<Target>,
    labels: Seq<TargetLabels>,
    listed: Seq<usize>,
)
    requires
        targets.len() <= usize::MAX,
        labels.len() == targets.len(),
        stable_arrangement(
            listed,
            positions_where(targets.len(), accepted_of_kind(filter, kind, targets, labels)),
            listing_le(kind, targets, labels),
        ),
    ensures
        kind != TargetType::Messier ==> forall|i: int, j: int, k: int|
            0 <= i < j < listed.len() ==> !#[trigger] strictly_before_at(
                labels[listed[j] as int].name@,
                labels[listed[i] as int].name@,
                k,
            ),
        kind != TargetType::Messier ==> forall|i: int, j: int|
            0 <= i < j < listed.len() && #[trigger] labels[listed[i] as int].name@
                == #[trigger] labels[listed[j] as int].name@ ==> listed[i] < listed[j],
        kind == TargetType::Messier ==> forall|i: int, j: int|
            0 <= i < j < listed.len() ==> messier_number_of(
                match #[trigger] targets[listed[i] as int].id {
                    Some(x) => Some(x@),
                    None => None,
                },
            ) <= messier_number_of(
                match #[trigger] targets[listed[j] as int].id {
                    Some(x) => Some(x@),
                    None => None,
                },
            ),
{
    let le = listing_le(kind, targets, labels);
    if kind != TargetType::Messier {
        assert forall|i: int, j: int, k: int|
            0 <= i < j < listed.len() implies !#[trigger] strictly_before_at(
            labels[listed[j] as int].name@,
            labels[listed[i] as int].name@,
            k,
        ) by {
            assert(le(listed[i], listed[j]));
            if strictly_before_at(labels[listed[j] as int].name@, labels[listed[i] as int].name@, k) {
                lemma_strictly_before_not_lex_le(
                    labels[listed[j] as int].name@,
                    labels[listed[i] as int].name@,
                    k,
                );
            }
        }
        assert forall|i: int, j: int|
            0 <= i < j < listed.len() && #[trigger] labels[listed[i] as int].name@
                == #[trigger] labels[listed[j] as int].name@ implies listed[i] < listed[j] by {
            lemma_lex_le_refl(labels[listed[i] as int].name@);
            assert(le(listed[j], listed[i]));
        }
    } else {
        assert forall|i: int, j: int| 0 <= i < j < listed.len() implies messier_number_of(
            match #[trigger] targets[listed[i] as int].id {
                Some(x) => Some(x@),
                None => None,
            },
        ) <= messier_number_of(
            match #[trigger] targets[listed[j] as int].id {
                Some(x) => Some(x@),
                None => None,
            },
        ) by {
            assert(le(listed[i], listed[j]));
        }
    }
}

proof fn lemma_empty_occurs(hay: Seq<char>)
    ensures
        occurs_in(Seq::<char>::empty(), hay),
{
    let e = Seq::<char>::empty();
    assert(hay.subrange(0, 0int + e.len()) =~= e);
}

proof fn lemma_occurs_trans(a: Seq<char>, b: Seq<char>, c: Seq<char>)
    requires
        occurs_in(a, b),
        occurs_in(b, c),
    ensures
        occurs_in(a, c),
{
    let k1 = choose|k: int| 0 <= k && k + a.len() <= b.len() && #[trigger] b.subrange(k, k + a.len()) == a;
    let k2 = choose|k: int| 0 <= k && k + b.len() <= c.len() && #[trigger] c.subrange(k, k + b.len()) == b;
    assert forall|j: int| 0 <= j < a.len() implies #[trigger] c.subrange(k1 + k2, k1 + k2 + a.len())[j]
        == a[j] by {
        assert(b.subrange(k1, k1 + a.len())[j] == b[k1 + j]);
        assert(c.subrange(k2, k2 + b.len())[k1 + j] == c[k2 + k1 + j]);
    }
    assert(c.subrange(k1 + k2, k1 + k2 + a.len()) =~= a);
}

/// The search ignores ASCII case: an ASCII search text and its upper-case
/// form match the same targets. The two `lowercase` facts are what
/// `to_lowercase` states of ASCII text (and `matches_search` states of its
/// search text).
pub proof fn law_search_ignores_ascii_case(
    query: Seq<char>,
    upper: Seq<char>,
    target: Target,
    labels: TargetLabels,
)
    requires
        is_ascii_text(query),
        upper == query.map_values(|c: char| ascii_upper(c)),
        lowercase(query) == ascii_lowered(query),
        lowercase(upper) == ascii_lowered(upper),
    ensures
        matches(query, target, labels) == matches(upper, target, labels),
{
    assert forall|i: int| 0 <= i < query.len() implies #[trigger] ascii_lowered(upper)[i]
        == ascii_lowered(query)[i] by {
        let c = query[i];
        assert(upper[i] == ascii_upper(c));
        if 'a' <= c && c <= 'z' {
            assert((c as u32) - 32 >= 'A' as u32);
        }
    }
    assert(ascii_lowered(upper) =~= ascii_lowered(query));
}

/// A search text whose lower-case form occurs in another's never matches
/// fewer targets: every target the longer search matches, the shorter one
/// matches too. The `lowercase` fact is what `to_lowercase` states of ASCII
/// text (it gives the empty text for the empty text).
pub proof fn law_shorter_search_keeps_matches(
    longer: Seq<char>,
    shorter: Seq<char>,
    target: Target,
    labels: TargetLabels,
)
    requires
        occurs_in(lowercase(shorter), lowercase(longer)),
        is_ascii_text(longer) ==> lowercase(longer) == ascii_lowered(longer),
    ensures
        matches(longer, target, labels) ==> matches(shorter, target, labels),
{
    if matches(longer, target, labels) && shorter.len() > 0 {
        if longer.len() == 0 {
            assert(ascii_lowered(longer) =~= Seq::<char>::empty());
            let ls = lowercase(shorter);
            let k = choose|k: int|
                0 <= k && k + ls.len() <= lowercase(longer).len() && #[trigger] lowercase(
                    longer,
                ).subrange(k, k + ls.len()) == ls;
            assert(ls =~= Seq::<char>::empty());
            lemma_empty_occurs(lowercase(labels.name@));
        } else if lower_contains(longer, labels.name@) {
            lemma_occurs_trans(lowercase(shorter), lowercase(longer), lowercase(labels.name@));
        } else if lower_contains(longer, labels.latin@) {
            lemma_occurs_trans(lowercase(shorter), lowercase(longer), lowercase(labels.latin@));
        } else if target.abbr is Some && lower_contains(longer, target.abbr->0@) {
            lemma_occurs_trans(lowercase(shorter), lowercase(longer), lowercase(target.abbr->0@));
        } else {
            lemma_occurs_trans(lowercase(shorter), lowercase(longer), lowercase(target.id->0@));
        }
    }
}

} // verus!
