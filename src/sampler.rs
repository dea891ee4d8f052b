use vstd::prelude::*;

verus! {

/// Sum of the weights of a list of weighted options.
pub open spec fn total_weight<T>(s: Seq<(T, u32)>) -> nat
    decreases s.len(),
{
    if s.len() == 0 {
        0
    } else {
        total_weight(s.drop_last()) + s.last().1 as nat
    }
}

/// Index of the option that a draw selects: the first option whose cumulative
/// weight exceeds the draw, or the last option when none does.
pub open spec fn select<T>(s: Seq<(T, u32)>, draw: int) -> int
    decreases s.len(),
{
    if s.len() <= 1 {
        0
    } else if draw < s[0].1 {
        0
    } else {
        1 + select(s.drop_first(), draw - s[0].1)
    }
}

/// Sum of the weights of the first `k` options.
pub open spec fn prefix_weight<T>(s: Seq<(T, u32)>, k: int) -> nat {
    total_weight(s.take(k))
}

proof fn lemma_total_first<T>(s: Seq<(T, u32)>)
    requires
        s.len() > 0,
    ensures
        total_weight(s) == s[0].1 as nat + total_weight(s.drop_first()),
    decreases s.len(),
{
    if s.len() > 1 {
        lemma_total_first(s.drop_last());
        assert(s.drop_last().drop_first() =~= s.drop_first().drop_last());
        assert(s.drop_first().last() == s.last());
        assert(total_weight(s.drop_first()) == total_weight(s.drop_first().drop_last())
            + s.drop_first().last().1 as nat);
        assert(s.drop_last()[0] == s[0]);
    } else {
        assert(total_weight(s.drop_first()) == 0);
        assert(total_weight(s.drop_last()) == 0);
        assert(s.last() == s[0]);
    }
}

/// The draw selects an option of the list.
pub proof fn lemma_select_in_range<T>(s: Seq<(T, u32)>, draw: int)
    requires
        s.len() > 0,
    ensures
        0 <= select(s, draw) < s.len(),
    decreases s.len(),
{
    if s.len() > 1 && draw >= s[0].1 {
        lemma_select_in_range(s.drop_first(), draw - s[0].1);
    }
}

/// A draw in `[0, total_weight)` selects the option whose span of cumulative
/// weight holds it; the option at index `k` is therefore selected by exactly
/// its weight's worth of draws, so uniform draws pick it with probability
/// weight over total weight.
pub proof fn lemma_select_span<T>(s: Seq<(T, u32)>, draw: int)
    requires
        0 <= draw < total_weight(s),
    ensures
        0 <= select(s, draw) < s.len(),
        prefix_weight(s, select(s, draw)) <= draw < prefix_weight(s, select(s, draw) + 1),
    decreases s.len(),
{
    let k = select(s, draw);
    lemma_total_first(s);
    lemma_total_first(s.take(1));
    assert(s.take(1).drop_first().len() == 0);
    assert(s.take(0).len() == 0);
    if s.len() == 1 {
        assert(s.take(1) =~= s);
    } else if draw >= s[0].1 {
        let rest = s.drop_first();
        let d = draw - s[0].1;
        lemma_select_span(rest, d);
        let j = select(rest, d);
        lemma_total_first(s.take(j + 1));
        lemma_total_first(s.take(j + 2));
        assert(s.take(j + 1).drop_first() =~= rest.take(j));
        assert(s.take(j + 2).drop_first() =~= rest.take(j + 1));
    }
}

/// Weighted choice driven by an explicit draw, normally uniform in
/// `[0, total_weight)`.
pub fn pick_index<T>(options: &Vec<(T, u32)>, draw: u64) -> (r: usize)
    requires
        options.len() > 0,
    ensures
        r as int == select(options@, draw as int),
        r < options.len(),
{
    let n = options.len();
    let mut i: usize = 0;
    let mut target: u64 = draw;
    assert(options@.skip(0) =~= options@);
    while i + 1 < n
        invariant
            n == options.len(),
            i < n,
            target <= draw,
            select(options@, draw as int) == i + select(options@.skip(i as int), target as int),
        decreases n - i,
    {
        let w = options[i].1;
        assert(options@.skip(i as int)[0] == options@[i as int]);
        if target < w as u64 {
            return i;
        }
        assert(options@.skip(i as int).drop_first() =~= options@.skip(i + 1));
        target = target - w as u64;
        i = i + 1;
    }
    i
}

/// Sum of the weights of the options.
pub fn total_of<T>(options: &Vec<(T, u32)>) -> (r: u128)
    ensures
        r as nat == total_weight(options@),
{
    let mut sum: u128 = 0;
    let mut i: usize = 0;
    while i < options.len()
        invariant
            i <= options.len(),
            sum as nat == total_weight(options@.take(i as int)),
            sum <= i as u128 * 0xFFFF_FFFFu128,
        decreases options.len() - i,
    {
        assert(options@.take(i + 1).drop_last() =~= options@.take(i as int));
        proof {
            assert(i < 0x1_0000_0000_0000_0000);
            assert((i + 1) as u128 * 0xFFFF_FFFFu128 == i as u128 * 0xFFFF_FFFFu128 + 0xFFFF_FFFFu128)
                by (nonlinear_arith)
                requires i < 0x1_0000_0000_0000_0000;
        }
        sum = sum + options[i].1 as u128;
        i = i + 1;
    }
    assert(options@.take(i as int) =~= options@);
    sum
}

} // verus!
