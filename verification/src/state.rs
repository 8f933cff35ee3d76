use vstd::prelude::*;

verus! {

/// One asset position: a denomination and an amount of it.
#[derive(Clone, Debug, PartialEq, Eq)]
pub struct Asset {
    pub denom: String,
    pub amount: u128,
}

/// Mathematical value of an [`Asset`]: the denomination as a character
/// sequence together with the amount.
#[verifier::ext_equal]
pub struct AssetV {
    pub denom: Seq<char>,
    pub amount: u128,
}

impl View for Asset {
    type V = AssetV;

    open spec fn view(&self) -> AssetV {
        AssetV { denom: self.denom@, amount: self.amount }
    }
}

impl DeepView for Asset {
    type V = AssetV;

    open spec fn deep_view(&self) -> AssetV {
        self.view()
    }
}

/// The single persistent option record.
///
/// `creator`, `collateral`, `counter_offer` and `expires` are set at creation
/// and never change; only `owner` moves, by transfer.
#[derive(Clone, Debug, PartialEq, Eq)]
pub struct State {
    pub creator: String,
    pub owner: String,
    pub collateral: Vec<Asset>,
    pub counter_offer: Vec<Asset>,
    pub expires: u64,
}

/// Mathematical value of a [`State`]: identities as character sequences and
/// asset lists as sequences of asset values.
#[verifier::ext_equal]
pub struct StateV {
    pub creator: Seq<char>,
    pub owner: Seq<char>,
    pub collateral: Seq<AssetV>,
    pub counter_offer: Seq<AssetV>,
    pub expires: u64,
}

impl View for State {
    type V = StateV;

    open spec fn view(&self) -> StateV {
        StateV {
            creator: self.creator@,
            owner: self.owner@,
            collateral: self.collateral.deep_view(),
            counter_offer: self.counter_offer.deep_view(),
            expires: self.expires,
        }
    }
}

impl DeepView for State {
    type V = StateV;

    open spec fn deep_view(&self) -> StateV {
        self.view()
    }
}

/// How many positions in `s` equal `x`.
pub open spec fn count_of(s: Seq<AssetV>, x: AssetV) -> nat
    decreases s.len(),
{
    if s.len() == 0 {
        0
    } else {
        count_of(s.drop_last(), x) + (if s.last() == x {
            1nat
        } else {
            0nat
        })
    }
}

/// Two asset lists carry the same funds: every asset value occurs equally
/// often in both. Order is irrelevant; duplicates count.
pub open spec fn same_funds(a: Seq<AssetV>, b: Seq<AssetV>) -> bool {
    forall|x: AssetV| #[trigger] count_of(a, x) == count_of(b, x)
}

/// An occurrence count is positive exactly when the value occurs.
pub proof fn lemma_count_pos(s: Seq<AssetV>, x: AssetV)
    ensures
        count_of(s, x) > 0 <==> exists|j: int| 0 <= j < s.len() && s[j] == x,
    decreases s.len(),
{
    if s.len() > 0 {
        lemma_count_pos(s.drop_last(), x);
        if count_of(s, x) > 0 {
            if s.last() == x {
                assert(s[s.len() - 1] == x);
            } else {
                let j = choose|j: int| 0 <= j < s.drop_last().len() && s.drop_last()[j] == x;
                assert(s[j] == x);
            }
        }
        if exists|j: int| 0 <= j < s.len() && s[j] == x {
            let j = choose|j: int| 0 <= j < s.len() && s[j] == x;
            if j < s.len() - 1 {
                assert(s.drop_last()[j] == x);
            }
        }
    }
}

/// Whether two assets are the same position: same denomination, same amount.
pub fn asset_eq(x: &Asset, y: &Asset) -> (r: bool)
    ensures
        r == (x@ == y@),
{
    let r = x.amount == y.amount && x.denom == y.denom;
    proof {
        if r {
            assert(x@ =~= y@);
        }
    }
    r
}

/// How many entries of `v` equal `target`.
pub fn count_asset(v: &Vec<Asset>, target: &Asset) -> (n: usize)
    ensures
        n == count_of(v.deep_view(), target@),
{
    let ghost s = v.deep_view();
    let mut n: usize = 0;
    let mut i: usize = 0;
    while i < v.len()
        invariant
            i <= v.len(),
            n <= i,
            s == v.deep_view(),
            n == count_of(s.take(i as int), target@),
        decreases v.len() - i,
    {
        proof {
            assert(s.take(i + 1).drop_last() =~= s.take(i as int));
            assert(s.take(i + 1).last() == v[i as int]@);
        }
        if asset_eq(&v[i], target) {
            n = n + 1;
        }
        i = i + 1;
    }
    proof {
        assert(s.take(v.len() as int) =~= s);
    }
    n
}

/// Whether `a` and `b` carry the same funds (see [`same_funds`]).
pub fn funds_match(a: &Vec<Asset>, b: &Vec<Asset>) -> (r: bool)
    ensures
        r == same_funds(a.deep_view(), b.deep_view()),
{
    let ghost sa = a.deep_view();
    let ghost sb = b.deep_view();
    let mut i: usize = 0;
    while i < a.len()
        invariant
            i <= a.len(),
            sa == a.deep_view(),
            sb == b.deep_view(),
            forall|j: int| 0 <= j < i ==> #[trigger] count_of(sa, sa[j]) == count_of(sb, sa[j]),
        decreases a.len() - i,
    {
        let ca = count_asset(a, &a[i]);
        let cb = count_asset(b, &a[i]);
        if ca != cb {
            proof {
                assert(count_of(sa, sa[i as int]) != count_of(sb, sa[i as int]));
            }
            return false;
        }
        i = i + 1;
    }
    let mut k: usize = 0;
    while k < b.len()
        invariant
            k <= b.len(),
            sa == a.deep_view(),
            sb == b.deep_view(),
            forall|j: int| 0 <= j < a.len() ==> #[trigger] count_of(sa, sa[j]) == count_of(sb, sa[j]),
            forall|j: int| 0 <= j < k ==> #[trigger] count_of(sa, sb[j]) == count_of(sb, sb[j]),
        decreases b.len() - k,
    {
        let ca = count_asset(a, &b[k]);
        let cb = count_asset(b, &b[k]);
        if ca != cb {
            proof {
                assert(count_of(sa, sb[k as int]) != count_of(sb, sb[k as int]));
            }
            return false;
        }
        k = k + 1;
    }
    proof {
        assert forall|x: AssetV| #[trigger] count_of(sa, x) == count_of(sb, x) by {
            lemma_count_pos(sa, x);
            lemma_count_pos(sb, x);
            if count_of(sa, x) > 0 {
                let j = choose|j: int| 0 <= j < sa.len() && sa[j] == x;
                assert(count_of(sa, sa[j]) == count_of(sb, sa[j]));
            } else if count_of(sb, x) > 0 {
                let j = choose|j: int| 0 <= j < sb.len() && sb[j] == x;
                assert(count_of(sa, sb[j]) == count_of(sb, sb[j]));
            }
        }
    }
    true
}

} // verus!
