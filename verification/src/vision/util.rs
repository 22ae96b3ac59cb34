//! Recognition of red blocks among the connected components of a colour mask.
//!
//! The image side (scaling, colour conversion, thresholding and labelling)
//! produces one `ComponentStats` per label, the background first. What is a
//! block and how many there are is decided here.

use vstd::prelude::*;
use vstd::string::*;

use crate::ui::voice::push_char;

verus! {

/// Height, in pixels, to which a frame is scaled before it is analysed.
pub const TARGET_HEIGHT: i32 = 720;

/// Components smaller than this many pixels are noise.
pub const MIN_BLOCK_AREA: i32 = 36;

/// Default lower side bound: a block's sides must be longer than this.
pub const DEFAULT_MIN_SIDE: usize = 5;

/// Default upper side bound: a block's sides must be shorter than this.
pub const DEFAULT_MAX_SIDE: usize = 50;

/// Bounding-box width, height and pixel count of one labelled component.
#[derive(Debug, Clone, Copy, PartialEq, Eq, Structural)]
pub struct ComponentStats {
    pub width: i32,
    pub height: i32,
    pub area: i32,
}

pub open spec fn larger(a: int, b: int) -> int {
    if a >= b { a } else { b }
}

pub open spec fn smaller(a: int, b: int) -> int {
    if a <= b { a } else { b }
}

/// A component counts as a block when it is not noise, both sides lie
/// strictly between the bounds, and the longer side is at most 1.3 times the
/// shorter one.
pub open spec fn is_square_block(c: ComponentStats, min_side: int, max_side: int) -> bool {
    &&& c.area >= MIN_BLOCK_AREA
    &&& min_side < c.width && min_side < c.height
    &&& c.width < max_side && c.height < max_side
    &&& 10 * larger(c.width as int, c.height as int) <= 13 * smaller(c.width as int, c.height as int)
}

/// The number of blocks among the labelled components; the first entry is the
/// background and is never counted.
pub open spec fn block_count(s: Seq<ComponentStats>, min_side: int, max_side: int) -> nat
    decreases s.len(),
{
    if s.len() <= 1 {
        0
    } else {
        block_count(s.drop_last(), min_side, max_side) + if is_square_block(s.last(), min_side, max_side) {
            1nat
        } else {
            0nat
        }
    }
}

/// Whether one component is a block for the given side bounds.
pub fn is_block(c: &ComponentStats, min_side: usize, max_side: usize) -> (b: bool)
    ensures
        b == is_square_block(*c, min_side as int, max_side as int),
{
    if c.area < MIN_BLOCK_AREA {
        return false;
    }
    if c.width <= 0 || c.height <= 0 {
        return false;
    }
    let w = c.width as usize;
    let h = c.height as usize;
    if w <= min_side || h <= min_side {
        return false;
    }
    if w >= max_side || h >= max_side {
        return false;
    }
    let (long, short) = if c.width >= c.height {
        (c.width as i64, c.height as i64)
    } else {
        (c.height as i64, c.width as i64)
    };
    10 * long <= 13 * short
}

/// Counts the blocks among `stats`, whose first entry is the background.
pub fn count_square_blocks(stats: &Vec<ComponentStats>, min_side: usize, max_side: usize) -> (count: usize)
    ensures
        count == block_count(stats@, min_side as int, max_side as int),
{
    let n = stats.len();
    if n <= 1 {
        return 0;
    }
    let mut count: usize = 0;
    let mut label: usize = 1;
    assert(stats@.take(1).len() <= 1);
    while label < n
        invariant
            n == stats@.len(),
            1 <= label <= n,
            count <= label,
            count == block_count(stats@.take(label as int), min_side as int, max_side as int),
        decreases n - label,
    {
        assert(stats@.take(label as int + 1).drop_last() =~= stats@.take(label as int));
        if is_block(&stats[label], min_side, max_side) {
            count = count + 1;
        }
        label = label + 1;
    }
    assert(stats@.take(n as int) =~= stats@);
    count
}

/// Counts red blocks with the default side bounds.
pub fn count_red_blocks(stats: &Vec<ComponentStats>) -> (count: usize)
    ensures
        count == block_count(stats@, DEFAULT_MIN_SIDE as int, DEFAULT_MAX_SIDE as int),
{
    count_square_blocks(stats, DEFAULT_MIN_SIDE, DEFAULT_MAX_SIDE)
}

/// Characters that cannot stand in a file name on some platform.
pub open spec fn is_path_separator(c: char) -> bool {
    c == '|' || c == '\\' || c == ':' || c == '/'
}

pub open spec fn without_separators(s: Seq<char>) -> Seq<char> {
    s.filter(|c: char| !is_path_separator(c))
}

/// A file name with the characters `|`, `\`, `:` and `/` removed.
pub fn normalized(filename: String) -> (name: String)
    ensures
        name@ == without_separators(filename@),
{
    let s = filename.as_str();
    let n = s.unicode_len();
    let mut name = String::new();
    let mut i: usize = 0;
    while i < n
        invariant
            n == s@.len(),
            i <= n,
            name@ == without_separators(s@.take(i as int)),
        decreases n - i,
    {
        let c = s.get_char(i);
        proof {
            reveal(Seq::filter);
            assert(s@.take(i as int + 1).drop_last() =~= s@.take(i as int));
            assert(s@.take(i as int + 1).last() == c);
        }
        if !(c == '|' || c == '\\' || c == ':' || c == '/') {
            push_char(&mut name, c);
        }
        i = i + 1;
    }
    assert(s@.take(n as int) =~= s@);
    name
}

/// Cleaning a file name leaves no separator in it, keeps every other
/// character in order, and leaves a name without separators as it was.
pub proof fn lemma_normalized_name(s: Seq<char>)
    ensures
        forall|i: int| 0 <= i < without_separators(s).len() ==> !is_path_separator(#[trigger] without_separators(s)[i]),
        (forall|i: int| 0 <= i < s.len() ==> !is_path_separator(#[trigger] s[i])) ==> without_separators(s) == s,
        without_separators(s.push('/')) == without_separators(s),
        !is_path_separator(s.last()) && s.len() > 0 ==> without_separators(s) == without_separators(s.drop_last()).push(s.last()),
    decreases s.len(),
{
    reveal(Seq::filter);
    let p = |c: char| !is_path_separator(c);
    assert forall|i: int| 0 <= i < without_separators(s).len() implies !is_path_separator(#[trigger] without_separators(s)[i]) by {
        s.lemma_filter_pred(p, i);
    }
    assert(s.push('/').drop_last() =~= s);
    if s.len() > 0 {
        lemma_normalized_name(s.drop_last());
        if forall|i: int| 0 <= i < s.len() ==> !is_path_separator(#[trigger] s[i]) {
            assert forall|i: int| 0 <= i < s.drop_last().len() implies !is_path_separator(#[trigger] s.drop_last()[i]) by {
                assert(s.drop_last()[i] == s[i]);
            }
            assert(!is_path_separator(s[s.len() - 1]));
            assert(without_separators(s.drop_last()).push(s.last()) =~= s);
        }
    } else {
        assert(without_separators(s) =~= s);
    }
}

/// The first entry, the background, never counts, whatever it holds.
pub proof fn lemma_background_ignored(s: Seq<ComponentStats>, background: ComponentStats, min_side: int, max_side: int)
    requires
        s.len() >= 1,
    ensures
        block_count(s.update(0, background), min_side, max_side) == block_count(s, min_side, max_side),
    decreases s.len(),
{
    if s.len() > 1 {
        assert(s.update(0, background).drop_last() =~= s.drop_last().update(0, background));
        lemma_background_ignored(s.drop_last(), background, min_side, max_side);
    }
}

/// There are never more blocks than components besides the background.
pub proof fn lemma_count_bounded(s: Seq<ComponentStats>, min_side: int, max_side: int)
    ensures
        block_count(s, min_side, max_side) <= if s.len() == 0 { 0 } else { s.len() - 1 },
    decreases s.len(),
{
    if s.len() > 1 {
        lemma_count_bounded(s.drop_last(), min_side, max_side);
    }
}

/// Each component after the background that passes the block filter adds
/// exactly one to the count, whatever its neighbours are; a list holding only
/// the background, or nothing, has no blocks. These three facts fix the count
/// as the number of indices `i >= 1` whose component is a block.
pub proof fn lemma_count_adds_one_per_block(
    s: Seq<ComponentStats>,
    c: ComponentStats,
    min_side: int,
    max_side: int,
)
    ensures
        block_count(Seq::<ComponentStats>::empty(), min_side, max_side) == 0,
        block_count(seq![c], min_side, max_side) == 0,
        s.len() >= 1 ==> block_count(s.push(c), min_side, max_side) == block_count(s, min_side, max_side)
            + if is_square_block(c, min_side, max_side) {
            1int
        } else {
            0int
        },
{
    if s.len() >= 1 {
        assert(s.push(c).drop_last() =~= s);
    }
}

/// The block filter: at least 36 pixels, both sides strictly between the
/// bounds, and the longer side at most 1.3 times the shorter.
pub proof fn lemma_block_filter(c: ComponentStats, min_side: int, max_side: int)
    ensures
        is_square_block(c, min_side, max_side) <==> (c.area >= 36 && min_side < c.width && min_side
            < c.height && c.width < max_side && c.height < max_side && (if c.width >= c.height {
            10 * c.width <= 13 * c.height
        } else {
            10 * c.height <= 13 * c.width
        })),
{
}

} // verus!
