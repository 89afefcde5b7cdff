//! The `Hero` page: its swatches, the tags that pair a source tile with its
//! destination, and the index a destination screen shows.
//!
//! Two demos share the page. The grid's four swatches carry the tags
//! `hero-swatch-N`; the travel demo's two carry `hero-far-N`, a second set,
//! so that the two demos can never pair with each other, and colours of
//! their own, so that no colour appears twice.

use vstd::prelude::*;
use vstd::string::*;
use crate::palette::{rgb, Rgb};
use crate::text::{decimal, decimal_text, join2, lemma_cancel_prefix, lemma_decimal_digits, lemma_decimal_injective};

verus! {

/// The number of swatches in the grid demo.
pub const SWATCH_COUNT: usize = 4;

/// The number of swatches in the travel demo.
pub const FAR_COUNT: usize = 2;

/// The colour of grid swatch `i`.
pub open spec fn swatch_rgb(i: int) -> Rgb {
    if i == 0 {
        rgb(86, 118, 220)
    } else if i == 1 {
        rgb(214, 106, 92)
    } else if i == 2 {
        rgb(94, 176, 128)
    } else {
        rgb(198, 150, 74)
    }
}

/// The colour of travel swatch `n`.
pub open spec fn far_rgb(n: int) -> Rgb {
    if n == 0 {
        rgb(72, 160, 168)
    } else {
        rgb(206, 138, 60)
    }
}

/// The tag of grid swatch `i`.
pub open spec fn tag_spec(i: nat) -> Seq<char> {
    "hero-swatch-"@ + decimal(i)
}

/// The tag of travel swatch `n`.
pub open spec fn far_tag_spec(n: nat) -> Seq<char> {
    "hero-far-"@ + decimal(n)
}

/// The colour of grid swatch `i`, which must exist.
pub fn swatch_color(i: usize) -> (c: Rgb)
    requires
        i < SWATCH_COUNT,
    ensures
        c == swatch_rgb(i as int),
{
    if i == 0 {
        Rgb { r: 86, g: 118, b: 220 }
    } else if i == 1 {
        Rgb { r: 214, g: 106, b: 92 }
    } else if i == 2 {
        Rgb { r: 94, g: 176, b: 128 }
    } else {
        Rgb { r: 198, g: 150, b: 74 }
    }
}

/// The colour of travel swatch `n`, which must exist.
pub fn far_color(n: usize) -> (c: Rgb)
    requires
        n < FAR_COUNT,
    ensures
        c == far_rgb(n as int),
{
    if n == 0 {
        Rgb { r: 72, g: 160, b: 168 }
    } else {
        Rgb { r: 206, g: 138, b: 60 }
    }
}

/// The hero tag of grid swatch `i`: `hero-swatch-` and its index.
pub fn tag(i: usize) -> (t: String)
    ensures
        t@ == tag_spec(i as nat),
{
    let digits = decimal_text(i as u64);
    join2("hero-swatch-", digits.as_str())
}

/// The hero tag of travel swatch `n`: `hero-far-` and its index.
pub fn far_tag(n: usize) -> (t: String)
    ensures
        t@ == far_tag_spec(n as nat),
{
    let digits = decimal_text(n as u64);
    join2("hero-far-", digits.as_str())
}

/// The swatch a grid destination shows for route payload `i`: the last one
/// for a payload past the end.
pub fn destination_index(i: usize) -> (k: usize)
    ensures
        k == (if i < SWATCH_COUNT { i } else { (SWATCH_COUNT - 1) as usize }),
{
    if i < SWATCH_COUNT { i } else { SWATCH_COUNT - 1 }
}

/// The swatch a travel destination shows for route payload `n`: the last
/// one for a payload past the end.
pub fn far_destination_index(n: usize) -> (k: usize)
    ensures
        k == (if n < FAR_COUNT { n } else { (FAR_COUNT - 1) as usize }),
{
    if n < FAR_COUNT { n } else { FAR_COUNT - 1 }
}

/// The title of the grid destination for route payload `i`.
pub open spec fn destination_title_spec(i: nat) -> Seq<char> {
    "Swatch "@ + decimal(if i < SWATCH_COUNT { i } else { (SWATCH_COUNT - 1) as nat })
}

/// The title of the grid destination for route payload `i`: "Swatch" and
/// the index of the swatch it actually shows.
pub fn destination_title(i: usize) -> (t: String)
    ensures
        t@ == destination_title_spec(i as nat),
{
    let k = destination_index(i);
    let digits = decimal_text(k as u64);
    join2("Swatch ", digits.as_str())
}

/// Tapping a tile flies that tile: distinct swatches carry distinct tags.
pub proof fn law_tags_distinct(i: nat, j: nat)
    requires
        i != j,
    ensures
        tag_spec(i) != tag_spec(j),
        far_tag_spec(i) != far_tag_spec(j),
{
    reveal_strlit("hero-swatch-");
    reveal_strlit("hero-far-");
    if tag_spec(i) == tag_spec(j) {
        assert(tag_spec(i).subrange(12, tag_spec(i).len() as int) =~= decimal(i));
        assert(tag_spec(j).subrange(12, tag_spec(j).len() as int) =~= decimal(j));
        lemma_decimal_injective(i, j);
    }
    if far_tag_spec(i) == far_tag_spec(j) {
        assert(far_tag_spec(i).subrange(9, far_tag_spec(i).len() as int) =~= decimal(i));
        assert(far_tag_spec(j).subrange(9, far_tag_spec(j).len() as int) =~= decimal(j));
        lemma_decimal_injective(i, j);
    }
}

/// The two demos can never pair with each other: no grid tag equals any
/// travel tag.
pub proof fn law_demos_never_pair(i: nat, n: nat)
    ensures
        tag_spec(i) != far_tag_spec(n),
{
    reveal_strlit("hero-swatch-");
    reveal_strlit("hero-far-");
    lemma_decimal_digits(n);
    // "hero-swatch-" and "hero-far-" part at their sixth character.
    assert(tag_spec(i)[5] == 's');
    assert(far_tag_spec(n)[5] == 'f');
}

/// No colour appears twice on the page: the six swatches are pairwise
/// distinct.
pub proof fn law_colours_unique()
    ensures
        forall|i: int, j: int|
            0 <= i < SWATCH_COUNT && 0 <= j < SWATCH_COUNT && i != j ==> swatch_rgb(i) != swatch_rgb(j),
        far_rgb(0) != far_rgb(1),
        forall|i: int, n: int|
            0 <= i < SWATCH_COUNT && 0 <= n < FAR_COUNT ==> swatch_rgb(i) != far_rgb(n),
{
}

/// A destination always shows a swatch that exists, and the very one that
/// was tapped whenever the payload names one.
pub proof fn law_destination_in_range(i: nat, n: nat)
    ensures
        (if i < SWATCH_COUNT { i } else { (SWATCH_COUNT - 1) as nat }) < SWATCH_COUNT,
        (if n < FAR_COUNT { n } else { (FAR_COUNT - 1) as nat }) < FAR_COUNT,
{
}

/// A destination's title names the swatch it shows: different swatches get
/// different titles, and a payload past the end is titled like the last
/// swatch, which is the one shown.
pub proof fn law_destination_title_names_swatch(i: nat, j: nat)
    ensures
        i < SWATCH_COUNT && j < SWATCH_COUNT && i != j ==> destination_title_spec(i) != destination_title_spec(j),
        i >= SWATCH_COUNT ==> destination_title_spec(i) == destination_title_spec((SWATCH_COUNT - 1) as nat),
        i < SWATCH_COUNT ==> destination_title_spec(i).subrange(7, destination_title_spec(i).len() as int) == decimal(i),
{
    reveal_strlit("Swatch ");
    let a = destination_title_spec(i);
    if i < SWATCH_COUNT {
        assert(a.subrange(7, a.len() as int) =~= decimal(i));
    }
    if i < SWATCH_COUNT && j < SWATCH_COUNT && i != j && destination_title_spec(i) == destination_title_spec(j) {
        lemma_cancel_prefix("Swatch "@, decimal(i), decimal(j));
        lemma_decimal_injective(i, j);
    }
}

} // verus!
