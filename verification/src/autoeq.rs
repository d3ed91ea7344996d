//! The integer part of reading AutoEQ text: which filter type a filter line
//! names, and how the filter lines read are laid out as consecutive bands.
//! The numbers on a line are real values that the application reads.
use crate::eq::{filter_type_token, FilterType};
use crate::text::{contains_token, has_token};
use vstd::prelude::*;

verus! {

/// The filter type a filter line names, from its upper-cased text: shelf
/// tokens (`LSC`, `LSQ`, `HSC`, `HSQ`) first, then `HP` and `LP`, then the
/// short shelf tokens `LS` and `HS`; a peak filter when none is there.
pub open spec fn named_filter_type(upper: Seq<char>) -> FilterType {
    if has_token(upper, "LSC"@) || has_token(upper, "LSQ"@) {
        FilterType::LowShelf
    } else if has_token(upper, "HSC"@) || has_token(upper, "HSQ"@) {
        FilterType::HighShelf
    } else if has_token(upper, "HP"@) {
        FilterType::HighPass
    } else if has_token(upper, "LP"@) {
        FilterType::LowPass
    } else if has_token(upper, "LS"@) {
        FilterType::LowShelf
    } else if has_token(upper, "HS"@) {
        FilterType::HighShelf
    } else {
        FilterType::Peak
    }
}

/// The tokens that name a filter type on a filter line.
pub open spec fn type_tokens() -> Seq<Seq<char>> {
    seq!["LSC"@, "LSQ"@, "HSC"@, "HSQ"@, "HP"@, "LP"@, "LS"@, "HS"@, "PK"@]
}

/// The filter type each token of `type_tokens` names.
pub open spec fn token_type(k: int) -> FilterType {
    if k <= 1 || k == 6 {
        FilterType::LowShelf
    } else if k <= 3 || k == 7 {
        FilterType::HighShelf
    } else if k == 4 {
        FilterType::HighPass
    } else if k == 5 {
        FilterType::LowPass
    } else {
        FilterType::Peak
    }
}

/// The line holds token `k` of `type_tokens` as a whole word and no other
/// filter-type token.
pub open spec fn holds_only_token(upper: Seq<char>, k: int) -> bool {
    &&& has_token(upper, type_tokens()[k])
    &&& forall|j: int|
        0 <= j < type_tokens().len() && j != k ==> !has_token(upper, #[trigger] type_tokens()[j])
}

/// A line naming exactly one filter type is read as that type, whichever of
/// its spellings it uses (`LSC`, `LSQ` and `LS` for a low shelf; `HSC`,
/// `HSQ` and `HS` for a high shelf; `HP`; `LP`; `PK`); a line naming none is
/// a peak filter.
pub proof fn lemma_each_type_token_is_read(upper: Seq<char>, k: int)
    requires
        0 <= k < 9,
        holds_only_token(upper, k),
    ensures
        named_filter_type(upper) == token_type(k),
{
    let tt = type_tokens();
    assert(!has_token(upper, tt[0]) || k == 0);
    assert(!has_token(upper, tt[1]) || k == 1);
    assert(!has_token(upper, tt[2]) || k == 2);
    assert(!has_token(upper, tt[3]) || k == 3);
    assert(!has_token(upper, tt[4]) || k == 4);
    assert(!has_token(upper, tt[5]) || k == 5);
    assert(!has_token(upper, tt[6]) || k == 6);
    assert(!has_token(upper, tt[7]) || k == 7);
    assert(tt[0] == "LSC"@ && tt[1] == "LSQ"@ && tt[2] == "HSC"@ && tt[3] == "HSQ"@);
    assert(tt[4] == "HP"@ && tt[5] == "LP"@ && tt[6] == "LS"@ && tt[7] == "HS"@);
    assert(has_token(upper, tt[k]));
}

/// A line that holds no filter-type token is read as a peak filter.
pub proof fn lemma_no_type_token_is_peak(upper: Seq<char>)
    requires
        forall|j: int| 0 <= j < type_tokens().len() ==> !has_token(upper, #[trigger] type_tokens()[j]),
    ensures
        named_filter_type(upper) == FilterType::Peak,
{
    let tt = type_tokens();
    assert(!has_token(upper, tt[0]) && !has_token(upper, tt[1]) && !has_token(upper, tt[2]));
    assert(!has_token(upper, tt[3]) && !has_token(upper, tt[4]) && !has_token(upper, tt[5]));
    assert(!has_token(upper, tt[6]) && !has_token(upper, tt[7]));
    assert(tt[0] == "LSC"@ && tt[1] == "LSQ"@ && tt[2] == "HSC"@ && tt[3] == "HSQ"@);
    assert(tt[4] == "HP"@ && tt[5] == "LP"@ && tt[6] == "LS"@ && tt[7] == "HS"@);
}

/// The line holds the export token of `ft` as a whole word and no other
/// filter-type token.
pub open spec fn names_only(upper: Seq<char>, ft: FilterType) -> bool {
    &&& has_token(upper, filter_type_token(ft))
    &&& forall|k: int|
        0 <= k < type_tokens().len() && type_tokens()[k] != filter_type_token(ft) ==> !has_token(
            upper,
            #[trigger] type_tokens()[k],
        )
}

/// Every filter type survives a round trip through AutoEQ text: a line that
/// names a type by the token the export writes for it, and by no other type
/// token, is read back as that type.
pub proof fn lemma_type_token_round_trip(upper: Seq<char>, ft: FilterType)
    requires
        names_only(upper, ft),
    ensures
        named_filter_type(upper) == ft,
{
    reveal_strlit("LSC");
    reveal_strlit("LSQ");
    reveal_strlit("HSC");
    reveal_strlit("HSQ");
    reveal_strlit("HP");
    reveal_strlit("LP");
    reveal_strlit("LS");
    reveal_strlit("HS");
    reveal_strlit("PK");
    let tt = type_tokens();
    assert(tt[0] == "LSC"@);
    assert(tt[1] == "LSQ"@);
    assert(tt[2] == "HSC"@);
    assert(tt[3] == "HSQ"@);
    assert(tt[4] == "HP"@);
    assert(tt[5] == "LP"@);
    assert(tt[6] == "LS"@);
    assert(tt[7] == "HS"@);
    assert(tt[8] == "PK"@);
    let tok = filter_type_token(ft);
    assert forall|k: int| 0 <= k < 9 && tt[k].len() != tok.len() implies tt[k] != tok by {}
    assert forall|k: int| 0 <= k < 9 && tt[k].len() == tok.len() && (tt[k][0] != tok[0] || tt[k][1] != tok[1] || (tok.len() > 2 && tt[k][2] != tok[2])) implies tt[k] != tok by {}
    assert(tt[0] != tok ==> !has_token(upper, tt[0]));
    assert(tt[1] != tok ==> !has_token(upper, tt[1]));
    assert(tt[2] != tok ==> !has_token(upper, tt[2]));
    assert(tt[3] != tok ==> !has_token(upper, tt[3]));
    assert(tt[4] != tok ==> !has_token(upper, tt[4]));
    assert(tt[5] != tok ==> !has_token(upper, tt[5]));
    assert(tt[6] != tok ==> !has_token(upper, tt[6]));
    assert(tt[7] != tok ==> !has_token(upper, tt[7]));
    match ft {
        FilterType::LowShelf => {},
        FilterType::HighShelf => {
            assert(tt[0] != tok && tt[1] != tok);
        },
        FilterType::HighPass => {
            assert(tt[0] != tok && tt[1] != tok && tt[2] != tok && tt[3] != tok);
        },
        FilterType::LowPass => {
            assert(tt[0] != tok && tt[1] != tok && tt[2] != tok && tt[3] != tok && tt[4] != tok);
        },
        FilterType::Peak => {
            assert(tt[0] != tok && tt[1] != tok && tt[2] != tok && tt[3] != tok && tt[4] != tok);
            assert(tt[5] != tok && tt[6] != tok && tt[7] != tok);
        },
    }
}

/// The filter type named by the upper-cased text of a filter line.
pub fn filter_type_of_line(upper: &str) -> (t: FilterType)
    ensures
        t == named_filter_type(upper@),
        forall|ft: FilterType| #[trigger] names_only(upper@, ft) ==> t == ft,
        forall|k: int| 0 <= k < 9 && #[trigger] holds_only_token(upper@, k) ==> t == token_type(k),
{
    proof {
        assert forall|k: int| 0 <= k < 9 && #[trigger] holds_only_token(upper@, k) implies named_filter_type(
            upper@,
        ) == token_type(k) by {
            lemma_each_type_token_is_read(upper@, k);
        }
        assert forall|ft: FilterType| #[trigger] names_only(upper@, ft) implies named_filter_type(
            upper@,
        ) == ft by {
            lemma_type_token_round_trip(upper@, ft);
        }
    }
    if contains_token(upper, "LSC") || contains_token(upper, "LSQ") {
        FilterType::LowShelf
    } else if contains_token(upper, "HSC") || contains_token(upper, "HSQ") {
        FilterType::HighShelf
    } else if contains_token(upper, "HP") {
        FilterType::HighPass
    } else if contains_token(upper, "LP") {
        FilterType::LowPass
    } else if contains_token(upper, "LS") {
        FilterType::LowShelf
    } else if contains_token(upper, "HS") {
        FilterType::HighShelf
    } else {
        FilterType::Peak
    }
}

/// The largest band index among the first `n` lines read (0 when there are
/// none).
pub open spec fn max_band_index(indices: Seq<usize>, n: int) -> nat
    decreases n,
{
    if n <= 0 {
        0
    } else {
        let m = max_band_index(indices, n - 1);
        if indices[n - 1] as nat > m {
            indices[n - 1] as nat
        } else {
            m
        }
    }
}

/// The position of the last of the first `n` lines read that is for band
/// `band`, if any.
pub open spec fn last_line_for(indices: Seq<usize>, band: int, n: int) -> Option<usize>
    decreases n,
{
    if n <= 0 {
        None
    } else if indices[n - 1] as int == band {
        Some((n - 1) as usize)
    } else {
        last_line_for(indices, band, n - 1)
    }
}

/// The bands laid out from the lines read, one per index from 0 to the
/// largest index read: the last line read for each band, or `None` for a
/// band no line was read for (which becomes a disabled neutral band).
pub open spec fn band_layout(indices: Seq<usize>) -> Seq<Option<usize>> {
    Seq::new(
        max_band_index(indices, indices.len() as int) + 1,
        |p: int| last_line_for(indices, p, indices.len() as int),
    )
}

proof fn lemma_max_band_index_bounds(indices: Seq<usize>, n: int)
    requires
        0 <= n <= indices.len(),
    ensures
        forall|k: int| 0 <= k < n ==> indices[k] as nat <= max_band_index(indices, n),
        n > 0 ==> exists|k: int| 0 <= k < n && indices[k] as nat == max_band_index(indices, n),
    decreases n,
{
    if n > 0 {
        lemma_max_band_index_bounds(indices, n - 1);
        if n - 1 > 0 {
            let k0 = choose|k: int| 0 <= k < n - 1 && indices[k] as nat == max_band_index(indices, n - 1);
            assert(0 <= k0 < n);
        }
        assert(indices[n - 1] as nat <= max_band_index(indices, n));
    }
}

proof fn lemma_last_line_for(indices: Seq<usize>, band: int, n: int)
    requires
        0 <= n <= indices.len(),
        indices.len() <= usize::MAX,
    ensures
        last_line_for(indices, band, n) matches Some(k) ==> 0 <= k < n && indices[k as int] as int
            == band && forall|j: int| k < j < n ==> indices[j] as int != band,
        last_line_for(indices, band, n) is None ==> forall|j: int| 0 <= j < n ==> indices[j] as int
            != band,
    decreases n,
{
    if n > 0 {
        lemma_last_line_for(indices, band, n - 1);
    }
}

/// The layout has one band per index from 0 to the largest index read, and
/// band `p` holds the position of the last line read for index `p`, or
/// `None` exactly when no line was read for it; every line read is placed.
pub proof fn lemma_layout_places_last_line_per_band(indices: Seq<usize>)
    requires
        indices.len() <= usize::MAX,
    ensures
        forall|k: int| 0 <= k < indices.len() ==> indices[k] < band_layout(indices).len(),
        indices.len() > 0 ==> exists|k: int|
            0 <= k < indices.len() && indices[k] + 1 == band_layout(indices).len(),
        indices.len() == 0 ==> band_layout(indices).len() == 1,
        forall|p: int|
            0 <= p < band_layout(indices).len() ==> (#[trigger] band_layout(indices)[p] matches Some(k)
                ==> k < indices.len() && indices[k as int] as int == p && forall|j: int|
                k < j < indices.len() ==> indices[j] as int != p),
        forall|p: int|
            0 <= p < band_layout(indices).len() && #[trigger] band_layout(indices)[p] is None ==> forall|
                j: int,
            |
                0 <= j < indices.len() ==> indices[j] as int != p,
{
    lemma_max_band_index_bounds(indices, indices.len() as int);
    assert forall|p: int|
        0 <= p < band_layout(indices).len() implies (#[trigger] band_layout(indices)[p] matches Some(k)
            ==> k < indices.len() && indices[k as int] as int == p && forall|j: int|
            k < j < indices.len() ==> indices[j] as int != p) by {
        lemma_last_line_for(indices, p, indices.len() as int);
    }
    assert forall|p: int|
        0 <= p < band_layout(indices).len() && #[trigger] band_layout(indices)[p] is None implies forall|
            j: int,
        |
            0 <= j < indices.len() ==> indices[j] as int != p by {
        lemma_last_line_for(indices, p, indices.len() as int);
    }
}

/// Lays out the band indices of the filter lines read, in reading order, as
/// consecutive bands: for each index from 0 to the largest, the position of
/// the last line read for it, or `None`.
pub fn layout_bands(indices: &Vec<usize>) -> (r: Vec<Option<usize>>)
    requires
        forall|k: int| 0 <= k < indices@.len() ==> indices@[k] < usize::MAX,
    ensures
        r@ == band_layout(indices@),
        forall|k: int| 0 <= k < indices@.len() ==> indices@[k] < r@.len(),
        forall|p: int|
            0 <= p < r@.len() ==> (#[trigger] r@[p] matches Some(k) ==> k < indices@.len()
                && indices@[k as int] as int == p && forall|j: int|
                k < j < indices@.len() ==> indices@[j] as int != p),
        forall|p: int|
            0 <= p < r@.len() && #[trigger] r@[p] is None ==> forall|j: int|
                0 <= j < indices@.len() ==> indices@[j] as int != p,
{
    proof {
        lemma_layout_places_last_line_per_band(indices@);
    }
    let n = indices.len();
    let mut max: usize = 0;
    let mut k: usize = 0;
    while k < n
        invariant
            n == indices@.len(),
            k <= n,
            max as nat == max_band_index(indices@, k as int),
        decreases n - k,
    {
        if indices[k] > max {
            max = indices[k];
        }
        k = k + 1;
    }
    proof {
        lemma_max_band_index_bounds(indices@, n as int);
        if n > 0 {
            let k0 = choose|k: int| 0 <= k < n && indices@[k] as nat == max_band_index(indices@, n as int);
            assert(indices@[k0] < usize::MAX);
        }
    }
    let total = max + 1;
    let mut r: Vec<Option<usize>> = Vec::new();
    let mut p: usize = 0;
    while p < total
        invariant
            p <= total,
            r@.len() == p,
            forall|j: int| 0 <= j < p ==> r@[j] is None,
        decreases total - p,
    {
        r.push(None);
        p = p + 1;
    }
    let mut k: usize = 0;
    while k < n
        invariant
            n == indices@.len(),
            k <= n,
            r@.len() == total,
            total == max_band_index(indices@, n as int) + 1,
            forall|j: int| 0 <= j < n ==> indices@[j] as nat <= max_band_index(indices@, n as int),
            forall|q: int| 0 <= q < total ==> #[trigger] r@[q] == last_line_for(indices@, q, k as int),
        decreases n - k,
    {
        let b = indices[k];
        r.set(b, Some(k));
        assert forall|q: int| 0 <= q < total implies #[trigger] r@[q] == last_line_for(
            indices@,
            q,
            k + 1,
        ) by {
            if q == b as int {
            } else {
            }
        }
        k = k + 1;
    }
    assert(r@ =~= band_layout(indices@));
    r
}

} // verus!
