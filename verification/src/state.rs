use vstd::prelude::*;

verus! {

/// The address entitled to mint, with an optional hard cap on total supply.
#[derive(Debug)]
pub struct MinterData {
    pub minter: String,
    pub cap: Option<u128>,
}

/// Basic token metadata together with the aggregate supply.
#[derive(Debug)]
pub struct TokenInfo {
    pub name: String,
    pub symbol: String,
    pub decimals: u8,
    pub total_supply: u128,
    pub mint: Option<MinterData>,
}

impl TokenInfo {
    /// The supply cap, if a minter with a cap is configured.
    pub fn get_cap(&self) -> (r: Option<u128>)
        ensures
            r == self.spec_cap(),
    {
        match &self.mint {
            Some(m) => m.cap,
            None => None,
        }
    }

    pub open spec fn spec_cap(&self) -> Option<u128> {
        match self.mint {
            Some(m) => m.cap,
            None => None,
        }
    }
}

/// Root-authority record: the admin set at creation, an optional fee granter
/// and an optional platform tag.
#[derive(Debug)]
pub struct ExtendedTokenInfo {
    pub base: TokenInfo,
    pub admin: String,
    pub fee_granter: Option<String>,
    pub created_on_platform: Option<String>,
}

/// An address entitled to a fractional share of each collected fee.
/// `percentage` is a fixed-point rate in units of `1 / FRACTIONAL`.
#[derive(Debug)]
pub struct FeeCollectorInfo {
    pub address: String,
    pub percentage: u128,
}

/// The fee policy: a fixed-point rate of the transfer amount, or a flat value.
#[derive(Debug)]
pub enum FeeType {
    /// A rate in units of `1 / FRACTIONAL` (so `FRACTIONAL / 100` is 1%).
    Percentage(u128),
    /// A flat fee in token units.
    Fixed(u128),
}

/// The asset in which fees leave the contract.
#[derive(Debug)]
pub enum FeeTokenType {
    Native { denom: String },
    Cw20 { contract_addr: String },
}

/// The active fee policy together with its collectors.
#[derive(Debug)]
pub struct FeeConfig {
    pub fee_type: FeeType,
    pub token_type: FeeTokenType,
    pub collectors: Vec<FeeCollectorInfo>,
    pub is_active: bool,
}

/// One account of the ledger.  Absence of an address means a zero balance.
#[derive(Debug)]
pub struct BalanceEntry {
    pub address: String,
    pub amount: u128,
}

// ---------------------------------------------------------------------------
// Balance ledger: an association list from address to amount.
// ---------------------------------------------------------------------------

/// Whether some entry carries the address `a`.
pub open spec fn bal_has(s: Seq<BalanceEntry>, a: Seq<char>) -> bool {
    exists|i: int| 0 <= i < s.len() && s[i].address@ == a
}

/// An index carrying the address `a`, meaningful only when `bal_has` holds.
pub open spec fn bal_idx(s: Seq<BalanceEntry>, a: Seq<char>) -> int {
    choose|i: int| 0 <= i < s.len() && s[i].address@ == a
}

/// The balance recorded for `a`; zero when no entry exists.
pub open spec fn bal_of(s: Seq<BalanceEntry>, a: Seq<char>) -> u128 {
    if bal_has(s, a) {
        s[bal_idx(s, a)].amount
    } else {
        0
    }
}

/// No two entries carry the same address.
pub open spec fn bal_distinct(s: Seq<BalanceEntry>) -> bool {
    forall|i: int, j: int|
        0 <= i < j < s.len() ==> s[i].address@ != s[j].address@
}

/// The ledger after recording `amount` for `addr`: the entry is updated in
/// place, or appended when absent.
pub open spec fn spec_set_bal(s: Seq<BalanceEntry>, addr: String, amount: u128) -> Seq<
    BalanceEntry,
> {
    if bal_has(s, addr@) {
        s.update(bal_idx(s, addr@), BalanceEntry { address: addr, amount })
    } else {
        s.push(BalanceEntry { address: addr, amount })
    }
}

/// The sum of all recorded balances.
pub open spec fn sum_bal(s: Seq<BalanceEntry>) -> int
    decreases s.len(),
{
    if s.len() == 0 {
        0
    } else {
        sum_bal(s.drop_last()) + s.last().amount
    }
}

proof fn lemma_sum_update(s: Seq<BalanceEntry>, i: int, e: BalanceEntry)
    requires
        0 <= i < s.len(),
    ensures
        sum_bal(s.update(i, e)) == sum_bal(s) - s[i].amount + e.amount,
    decreases s.len(),
{
    if i == s.len() - 1 {
        assert(s.update(i, e).drop_last() =~= s.drop_last());
    } else {
        assert(s.update(i, e).drop_last() =~= s.drop_last().update(i, e));
        lemma_sum_update(s.drop_last(), i, e);
    }
}

proof fn lemma_sum_nonneg(s: Seq<BalanceEntry>)
    ensures
        sum_bal(s) >= 0,
    decreases s.len(),
{
    if s.len() > 0 {
        lemma_sum_nonneg(s.drop_last());
    }
}

/// Recording a new amount moves the sum by exactly the difference with the
/// old balance, and leaves every other address unchanged.
pub proof fn lemma_set_bal(s: Seq<BalanceEntry>, addr: String, amount: u128)
    requires
        bal_distinct(s),
    ensures
        sum_bal(spec_set_bal(s, addr, amount)) == sum_bal(s) - bal_of(s, addr@) + amount,
        bal_distinct(spec_set_bal(s, addr, amount)),
        bal_of(spec_set_bal(s, addr, amount), addr@) == amount,
        forall|a: Seq<char>|
            a != addr@ ==> bal_of(#[trigger] spec_set_bal(s, addr, amount), a) == bal_of(s, a),
{
    let t = spec_set_bal(s, addr, amount);
    if bal_has(s, addr@) {
        let i = bal_idx(s, addr@);
        lemma_sum_update(s, i, BalanceEntry { address: addr, amount });
        assert forall|a: Seq<char>| a != addr@ implies bal_of(#[trigger] spec_set_bal(s, addr, amount), a)
            == bal_of(s, a) by {
            lemma_lookup_frame(s, t, a);
        }
        assert(bal_of(t, addr@) == amount) by {
            assert(t[i].address@ == addr@);
            let j = bal_idx(t, addr@);
            assert(t[j].address@ == addr@);
            assert(s[j].address@ == addr@ || j == i);
        }
    } else {
        assert(t.drop_last() =~= s);
        assert forall|a: Seq<char>| a != addr@ implies bal_of(#[trigger] spec_set_bal(s, addr, amount), a)
            == bal_of(s, a) by {
            lemma_lookup_frame(s, t, a);
        }
        assert(t[s.len() as int].address@ == addr@);
        let j = bal_idx(t, addr@);
        assert(t[j].address@ == addr@);
        assert(j == s.len() as int);
    }
}

/// Recording an amount adds exactly the written address to the key set.
pub proof fn lemma_set_bal_keys(s: Seq<BalanceEntry>, addr: String, amount: u128)
    ensures
        forall|a: Seq<char>|
            bal_has(#[trigger] spec_set_bal(s, addr, amount), a) <==> (bal_has(s, a) || a
                == addr@),
{
    let t = spec_set_bal(s, addr, amount);
    assert forall|a: Seq<char>|
        bal_has(#[trigger] spec_set_bal(s, addr, amount), a) <==> (bal_has(s, a) || a
            == addr@) by {
        if bal_has(s, addr@) {
            let i = bal_idx(s, addr@);
            assert(s[i].address@ == addr@);
            assert(t[i].address@ == addr@);
            if bal_has(t, a) {
                let j = bal_idx(t, a);
                assert(t[j].address@ == a);
                if j != i {
                    assert(s[j].address@ == a);
                }
            }
            if bal_has(s, a) {
                let j = bal_idx(s, a);
                if j != i {
                    assert(t[j].address@ == a);
                } else {
                    assert(a == addr@);
                    assert(t[i].address@ == a);
                }
            }
        } else {
            if bal_has(t, a) {
                let j = bal_idx(t, a);
                assert(t[j].address@ == a);
                if j < s.len() {
                    assert(s[j].address@ == a);
                } else {
                    assert(a == addr@);
                }
            }
            if bal_has(s, a) {
                let j = bal_idx(s, a);
                assert(t[j].address@ == a);
            }
            assert(t[s.len() as int].address@ == addr@);
        }
    }
}

/// Two ledgers that agree on every entry carrying address `a` record the same
/// balance for `a`.
proof fn lemma_lookup_frame(s: Seq<BalanceEntry>, t: Seq<BalanceEntry>, a: Seq<char>)
    requires
        bal_distinct(s),
        forall|i: int|
            0 <= i < s.len() && s[i].address@ == a ==> i < t.len() && t[i] == s[i],
        forall|i: int|
            0 <= i < t.len() && t[i].address@ == a ==> i < s.len() && s[i] == t[i],
    ensures
        bal_of(s, a) == bal_of(t, a),
{
    if bal_has(s, a) {
        let i = bal_idx(s, a);
        assert(t[i].address@ == a);
        let j = bal_idx(t, a);
        assert(s[j].address@ == a);
    } else if bal_has(t, a) {
        let j = bal_idx(t, a);
        assert(s[j].address@ == a);
    }
}

/// Finds the entry for `addr`, if one exists.
pub fn find_balance(v: &Vec<BalanceEntry>, addr: &String) -> (r: Option<usize>)
    ensures
        match r {
            Some(i) => i < v@.len() && v@[i as int].address@ == addr@,
            None => !bal_has(v@, addr@),
        },
{
    let n = v.len();
    let mut i: usize = 0;
    while i < n
        invariant
            i <= n,
            n == v@.len(),
            forall|j: int| 0 <= j < i ==> v@[j].address@ != addr@,
        decreases n - i,
    {
        if v[i].address.eq(addr) {
            return Some(i);
        }
        i += 1;
    }
    None
}

/// The balance of `addr`, zero when absent.
pub fn get_balance(v: &Vec<BalanceEntry>, addr: &String) -> (r: u128)
    requires
        bal_distinct(v@),
    ensures
        r == bal_of(v@, addr@),
{
    match find_balance(v, addr) {
        Some(i) => {
            proof {
                let j = bal_idx(v@, addr@);
                assert(v@[j].address@ == addr@);
            }
            v[i].amount
        },
        None => 0,
    }
}

/// Records `amount` for `addr`, updating the entry in place or appending one.
pub fn set_balance(v: &mut Vec<BalanceEntry>, addr: &String, amount: u128)
    requires
        bal_distinct(old(v)@),
    ensures
        final(v)@ == spec_set_bal(old(v)@, *addr, amount),
        bal_distinct(final(v)@),
        sum_bal(final(v)@) == sum_bal(old(v)@) - bal_of(old(v)@, addr@) + amount,
        bal_of(final(v)@, addr@) == amount,
        forall|a: Seq<char>| a != addr@ ==> bal_of(final(v)@, a) == bal_of(old(v)@, a),
{
    proof {
        lemma_set_bal(old(v)@, *addr, amount);
    }
    match find_balance(v, addr) {
        Some(i) => {
            proof {
                let j = bal_idx(v@, addr@);
                assert(v@[j].address@ == addr@);
            }
            v[i] = BalanceEntry { address: addr.clone(), amount };
        },
        None => {
            v.push(BalanceEntry { address: addr.clone(), amount });
        },
    }
}

// ---------------------------------------------------------------------------
// The logical clock and allowance expirations.
// ---------------------------------------------------------------------------

/// The host-provided logical clock: block height and block time.  The ledger
/// treats both as opaque ordered values.
#[derive(Clone, Copy, Debug)]
pub struct BlockInfo {
    pub height: u64,
    pub time: u64,
}

/// What a handler sees of the execution environment.
#[derive(Clone, Copy, Debug)]
pub struct Env {
    pub block: BlockInfo,
}

/// When a delegated allowance stops being usable.
#[derive(Clone, Copy, Debug, PartialEq, Eq)]
pub enum Expiration {
    AtHeight(u64),
    AtTime(u64),
    Never,
}

impl Expiration {
    pub open spec fn spec_is_expired(self, b: BlockInfo) -> bool {
        match self {
            Expiration::AtHeight(h) => b.height >= h,
            Expiration::AtTime(t) => b.time >= t,
            Expiration::Never => false,
        }
    }

    /// Whether the expiration has passed as of `block`.
    pub fn is_expired(&self, block: &BlockInfo) -> (r: bool)
        ensures
            r == self.spec_is_expired(*block),
    {
        match self {
            Expiration::AtHeight(h) => block.height >= *h,
            Expiration::AtTime(t) => block.time >= *t,
            Expiration::Never => false,
        }
    }
}

/// A delegated spending limit with its optional expiration.
#[derive(Clone, Copy, Debug)]
pub struct AllowanceInfo {
    pub allowance: u128,
    pub expires: Expiration,
}

/// One (owner, spender) allowance of the dual-indexed store.
#[derive(Debug)]
pub struct AllowanceEntry {
    pub owner: String,
    pub spender: String,
    pub info: AllowanceInfo,
}

// ---------------------------------------------------------------------------
// Allowance store: an association list keyed by (owner, spender).
// ---------------------------------------------------------------------------

/// Whether some entry carries the key `(o, sp)`.
pub open spec fn allow_has(s: Seq<AllowanceEntry>, o: Seq<char>, sp: Seq<char>) -> bool {
    exists|i: int| 0 <= i < s.len() && s[i].owner@ == o && s[i].spender@ == sp
}

/// An index carrying the key, meaningful only when `allow_has` holds.
pub open spec fn allow_idx(s: Seq<AllowanceEntry>, o: Seq<char>, sp: Seq<char>) -> int {
    choose|i: int| 0 <= i < s.len() && s[i].owner@ == o && s[i].spender@ == sp
}

/// The allowance recorded under `(o, sp)`, if any.
pub open spec fn allow_of(s: Seq<AllowanceEntry>, o: Seq<char>, sp: Seq<char>) -> Option<
    AllowanceInfo,
> {
    if allow_has(s, o, sp) {
        Option::Some(s[allow_idx(s, o, sp)].info)
    } else {
        Option::None
    }
}

/// No two entries carry the same (owner, spender) key.
pub open spec fn allow_distinct(s: Seq<AllowanceEntry>) -> bool {
    forall|i: int, j: int|
        0 <= i < j < s.len() ==> !(s[i].owner@ == s[j].owner@ && s[i].spender@ == s[j].spender@)
}

/// The store after recording `info` under `(owner, spender)`.
pub open spec fn spec_set_allow(
    s: Seq<AllowanceEntry>,
    owner: String,
    spender: String,
    info: AllowanceInfo,
) -> Seq<AllowanceEntry> {
    if allow_has(s, owner@, spender@) {
        s.update(allow_idx(s, owner@, spender@), AllowanceEntry { owner, spender, info })
    } else {
        s.push(AllowanceEntry { owner, spender, info })
    }
}

/// The store after deleting the entry under `(o, sp)`, if present.
pub open spec fn spec_del_allow(s: Seq<AllowanceEntry>, o: Seq<char>, sp: Seq<char>) -> Seq<
    AllowanceEntry,
> {
    if allow_has(s, o, sp) {
        s.remove(allow_idx(s, o, sp))
    } else {
        s
    }
}

/// Two distinct stores whose entries under key `(o, sp)` coincide (as sets)
/// record the same allowance for that key.
proof fn lemma_allow_frame(
    s: Seq<AllowanceEntry>,
    t: Seq<AllowanceEntry>,
    o: Seq<char>,
    sp: Seq<char>,
)
    requires
        allow_distinct(s),
        allow_distinct(t),
        forall|i: int|
            0 <= i < s.len() && s[i].owner@ == o && s[i].spender@ == sp ==> exists|j: int|
                0 <= j < t.len() && t[j] == s[i],
        forall|i: int|
            0 <= i < t.len() && t[i].owner@ == o && t[i].spender@ == sp ==> exists|j: int|
                0 <= j < s.len() && s[j] == t[i],
    ensures
        allow_of(s, o, sp) == allow_of(t, o, sp),
{
    if allow_has(s, o, sp) {
        let i = allow_idx(s, o, sp);
        assert(s[i].owner@ == o && s[i].spender@ == sp);
        let j = choose|j: int| 0 <= j < t.len() && t[j] == s[i];
        assert(t[j].owner@ == o && t[j].spender@ == sp);
        let k = allow_idx(t, o, sp);
        assert(t[k].owner@ == o && t[k].spender@ == sp);
        assert(k == j);
    } else if allow_has(t, o, sp) {
        let i = allow_idx(t, o, sp);
        assert(t[i].owner@ == o && t[i].spender@ == sp);
        let j = choose|j: int| 0 <= j < s.len() && s[j] == t[i];
        assert(s[j].owner@ == o && s[j].spender@ == sp);
    }
}

/// Recording an allowance updates exactly one key and keeps keys distinct.
pub proof fn lemma_set_allow(
    s: Seq<AllowanceEntry>,
    owner: String,
    spender: String,
    info: AllowanceInfo,
)
    requires
        allow_distinct(s),
    ensures
        allow_distinct(spec_set_allow(s, owner, spender, info)),
        allow_of(spec_set_allow(s, owner, spender, info), owner@, spender@) == Option::Some(info),
        forall|x: Seq<char>, y: Seq<char>|
            !(x == owner@ && y == spender@) ==> allow_of(
                #[trigger] spec_set_allow(s, owner, spender, info),
                x,
                y,
            ) == allow_of(s, x, y),
{
    let t = spec_set_allow(s, owner, spender, info);
    if allow_has(s, owner@, spender@) {
        let i = allow_idx(s, owner@, spender@);
        assert(s[i].owner@ == owner@ && s[i].spender@ == spender@);
        assert(t[i].owner@ == owner@ && t[i].spender@ == spender@);
        let k = allow_idx(t, owner@, spender@);
        assert(t[k].owner@ == owner@ && t[k].spender@ == spender@);
        assert(k == i);
        assert forall|x: Seq<char>, y: Seq<char>| !(x == owner@ && y == spender@) implies allow_of(
            #[trigger] spec_set_allow(s, owner, spender, info),
            x,
            y,
        ) == allow_of(s, x, y) by {
            assert forall|ii: int|
                0 <= ii < s.len() && s[ii].owner@ == x && s[ii].spender@ == y implies exists|j: int|
                0 <= j < t.len() && t[j] == s[ii] by {
                assert(ii != i);
                assert(t[ii] == s[ii]);
            }
            assert forall|ii: int|
                0 <= ii < t.len() && t[ii].owner@ == x && t[ii].spender@ == y implies exists|j: int|
                0 <= j < s.len() && s[j] == t[ii] by {
                assert(ii != i);
                assert(s[ii] == t[ii]);
            }
            lemma_allow_frame(s, t, x, y);
        }
    } else {
        let n = s.len() as int;
        assert(t[n].owner@ == owner@ && t[n].spender@ == spender@);
        let k = allow_idx(t, owner@, spender@);
        assert(t[k].owner@ == owner@ && t[k].spender@ == spender@);
        assert(k == n);
        assert forall|x: Seq<char>, y: Seq<char>| !(x == owner@ && y == spender@) implies allow_of(
            #[trigger] spec_set_allow(s, owner, spender, info),
            x,
            y,
        ) == allow_of(s, x, y) by {
            assert forall|ii: int|
                0 <= ii < s.len() && s[ii].owner@ == x && s[ii].spender@ == y implies exists|j: int|
                0 <= j < t.len() && t[j] == s[ii] by {
                assert(t[ii] == s[ii]);
            }
            assert forall|ii: int|
                0 <= ii < t.len() && t[ii].owner@ == x && t[ii].spender@ == y implies exists|j: int|
                0 <= j < s.len() && s[j] == t[ii] by {
                assert(ii != n);
                assert(s[ii] == t[ii]);
            }
            lemma_allow_frame(s, t, x, y);
        }
    }
}

/// Deleting an allowance clears exactly one key and keeps keys distinct.
pub proof fn lemma_del_allow(s: Seq<AllowanceEntry>, o: Seq<char>, sp: Seq<char>)
    requires
        allow_distinct(s),
    ensures
        allow_distinct(spec_del_allow(s, o, sp)),
        allow_of(spec_del_allow(s, o, sp), o, sp) is None,
        forall|x: Seq<char>, y: Seq<char>|
            !(x == o && y == sp) ==> allow_of(#[trigger] spec_del_allow(s, o, sp), x, y)
                == allow_of(s, x, y),
{
    if allow_has(s, o, sp) {
        let i = allow_idx(s, o, sp);
        assert(s[i].owner@ == o && s[i].spender@ == sp);
        let t = s.remove(i);
        assert(allow_distinct(t)) by {
            assert forall|a: int, b: int| 0 <= a < b < t.len() implies !(t[a].owner@ == t[b].owner@
                && t[a].spender@ == t[b].spender@) by {
                let a0 = if a < i { a } else { a + 1 };
                let b0 = if b < i { b } else { b + 1 };
                assert(t[a] == s[a0] && t[b] == s[b0]);
            }
        }
        assert(!allow_has(t, o, sp)) by {
            if allow_has(t, o, sp) {
                let j = allow_idx(t, o, sp);
                let j0 = if j < i { j } else { j + 1 };
                assert(t[j] == s[j0]);
                assert(j0 != i);
            }
        }
        assert forall|x: Seq<char>, y: Seq<char>| !(x == o && y == sp) implies allow_of(
            #[trigger] spec_del_allow(s, o, sp),
            x,
            y,
        ) == allow_of(s, x, y) by {
            assert forall|ii: int|
                0 <= ii < s.len() && s[ii].owner@ == x && s[ii].spender@ == y implies exists|j: int|
                0 <= j < t.len() && t[j] == s[ii] by {
                assert(ii != i);
                let j = if ii < i { ii } else { ii - 1 };
                assert(t[j] == s[ii]);
            }
            assert forall|ii: int|
                0 <= ii < t.len() && t[ii].owner@ == x && t[ii].spender@ == y implies exists|j: int|
                0 <= j < s.len() && s[j] == t[ii] by {
                let j = if ii < i { ii } else { ii + 1 };
                assert(s[j] == t[ii]);
            }
            lemma_allow_frame(s, t, x, y);
        }
    }
}

/// Finds the entry under `(owner, spender)`, if one exists.
pub fn find_allowance(v: &Vec<AllowanceEntry>, owner: &String, spender: &String) -> (r: Option<
    usize,
>)
    ensures
        match r {
            Some(i) => i < v@.len() && v@[i as int].owner@ == owner@ && v@[i as int].spender@
                == spender@,
            None => !allow_has(v@, owner@, spender@),
        },
{
    let n = v.len();
    let mut i: usize = 0;
    while i < n
        invariant
            i <= n,
            n == v@.len(),
            forall|j: int|
                0 <= j < i ==> !(v@[j].owner@ == owner@ && v@[j].spender@ == spender@),
        decreases n - i,
    {
        if v[i].owner.eq(owner) && v[i].spender.eq(spender) {
            return Some(i);
        }
        i += 1;
    }
    None
}

/// The allowance recorded under `(owner, spender)`, if any.
pub fn get_allowance(v: &Vec<AllowanceEntry>, owner: &String, spender: &String) -> (r: Option<
    AllowanceInfo,
>)
    requires
        allow_distinct(v@),
    ensures
        r == allow_of(v@, owner@, spender@),
{
    match find_allowance(v, owner, spender) {
        Some(i) => {
            proof {
                let j = allow_idx(v@, owner@, spender@);
                assert(v@[j].owner@ == owner@ && v@[j].spender@ == spender@);
            }
            Some(v[i].info)
        },
        None => None,
    }
}

/// Records `info` under `(owner, spender)`, in place or appended.
pub fn set_allowance_entry(
    v: &mut Vec<AllowanceEntry>,
    owner: &String,
    spender: &String,
    info: AllowanceInfo,
)
    requires
        allow_distinct(old(v)@),
    ensures
        final(v)@ == spec_set_allow(old(v)@, *owner, *spender, info),
        allow_distinct(final(v)@),
        allow_of(final(v)@, owner@, spender@) == Option::Some(info),
        forall|x: Seq<char>, y: Seq<char>|
            !(x == owner@ && y == spender@) ==> allow_of(final(v)@, x, y) == allow_of(old(v)@, x, y),
{
    proof {
        lemma_set_allow(old(v)@, *owner, *spender, info);
    }
    match find_allowance(v, owner, spender) {
        Some(i) => {
            proof {
                let j = allow_idx(v@, owner@, spender@);
                assert(v@[j].owner@ == owner@ && v@[j].spender@ == spender@);
            }
            v[i] = AllowanceEntry { owner: owner.clone(), spender: spender.clone(), info };
        },
        None => {
            v.push(AllowanceEntry { owner: owner.clone(), spender: spender.clone(), info });
        },
    }
}

/// Deletes the entry under `(owner, spender)`, if present.
pub fn remove_allowance_entry(v: &mut Vec<AllowanceEntry>, owner: &String, spender: &String)
    requires
        allow_distinct(old(v)@),
    ensures
        final(v)@ == spec_del_allow(old(v)@, owner@, spender@),
        allow_distinct(final(v)@),
        allow_of(final(v)@, owner@, spender@) is None,
        forall|x: Seq<char>, y: Seq<char>|
            !(x == owner@ && y == spender@) ==> allow_of(final(v)@, x, y) == allow_of(old(v)@, x, y),
{
    proof {
        lemma_del_allow(old(v)@, owner@, spender@);
    }
    match find_allowance(v, owner, spender) {
        Some(i) => {
            proof {
                let j = allow_idx(v@, owner@, spender@);
                assert(v@[j].owner@ == owner@ && v@[j].spender@ == spender@);
            }
            v.remove(i);
        },
        None => {},
    }
}

// ---------------------------------------------------------------------------
// Marketing metadata and logos.
// ---------------------------------------------------------------------------

/// An embedded logo: the raw image bytes.
#[derive(Debug)]
pub enum EmbeddedLogo {
    Svg(Vec<u8>),
    Png(Vec<u8>),
}

/// A token logo: a URL, or image data embedded in the ledger state.
#[derive(Debug)]
pub enum Logo {
    Url(String),
    Embedded(EmbeddedLogo),
}

/// What queries reveal of the stored logo.
#[derive(Debug)]
pub enum LogoInfo {
    Url(String),
    Embedded,
}

/// Project metadata and the address allowed to change it.
#[derive(Debug)]
pub struct MarketingInfo {
    pub project: Option<String>,
    pub description: Option<String>,
    pub marketing: Option<String>,
    pub logo: Option<LogoInfo>,
}

// ---------------------------------------------------------------------------
// The whole ledger state.
// ---------------------------------------------------------------------------

/// Everything the ledger persists, as one explicit record.  Handlers either
/// apply a whole mutation or leave the record untouched.
#[derive(Debug)]
pub struct TokenState {
    pub token_info: TokenInfo,
    pub extended_info: ExtendedTokenInfo,
    pub config: crate::msg::ConfigInfo,
    pub fee_config: Option<FeeConfig>,
    pub balances: Vec<BalanceEntry>,
    /// Allowances keyed (owner, spender).
    pub allowances: Vec<AllowanceEntry>,
    /// The mirrored index: the same allowances keyed (spender, owner).
    pub spender_allowances: Vec<AllowanceEntry>,
    pub marketing_info: Option<MarketingInfo>,
    pub logo: Option<Logo>,
}

/// The two allowance indexes agree: whatever one records under
/// `(owner, spender)`, the other records under `(spender, owner)`.
pub open spec fn mirror_consistent(a: Seq<AllowanceEntry>, b: Seq<AllowanceEntry>) -> bool {
    forall|o: Seq<char>, sp: Seq<char>| #[trigger] allow_of(a, o, sp) == allow_of(b, sp, o)
}

impl TokenState {
    /// Well-formedness without the dual-index agreement: what can still be
    /// assumed of a store written before the spender-keyed index existed
    /// (the upgrade hook restores the agreement).
    pub open spec fn wf_unmirrored(self) -> bool {
        &&& bal_distinct(self.balances@)
        &&& allow_distinct(self.allowances@)
        &&& allow_distinct(self.spender_allowances@)
        &&& match self.fee_config {
            Option::Some(c) => crate::fee::valid_fee_config(c),
            Option::None => true,
        }
        &&& self.token_info.decimals <= 18
    }

    /// Structural well-formedness: distinct ledger keys, a consistent dual
    /// allowance index, a validated fee configuration, and bounded decimals.
    pub open spec fn wf(self) -> bool {
        &&& self.wf_unmirrored()
        &&& mirror_consistent(self.allowances@, self.spender_allowances@)
    }

    /// The central ledger invariant: the total supply equals the sum of all
    /// balances.
    pub open spec fn supply_consistent(self) -> bool {
        sum_bal(self.balances@) == self.token_info.total_supply as int
    }
}



// ---------------------------------------------------------------------------
// An executable well-formedness check.
// ---------------------------------------------------------------------------

/// Whether two entries carry the same (owner, spender) key.
fn same_allow_key(x: &AllowanceEntry, y: &AllowanceEntry) -> (r: bool)
    ensures
        r == (x.owner@ == y.owner@ && x.spender@ == y.spender@),
{
    x.owner.eq(&y.owner) && x.spender.eq(&y.spender)
}

/// Whether two allowances agree in amount and expiration.
fn allowance_info_eq(x: &AllowanceInfo, y: &AllowanceInfo) -> (r: bool)
    ensures
        r == (*x == *y),
{
    let exp_eq = match (&x.expires, &y.expires) {
        (Expiration::AtHeight(a), Expiration::AtHeight(b)) => *a == *b,
        (Expiration::AtTime(a), Expiration::AtTime(b)) => *a == *b,
        (Expiration::Never, Expiration::Never) => true,
        _ => false,
    };
    x.allowance == y.allowance && exp_eq
}

/// Checks that no two balance entries carry the same address.
fn balances_distinct(v: &Vec<BalanceEntry>) -> (r: bool)
    ensures
        r == bal_distinct(v@),
{
    let n = v.len();
    let mut i: usize = 0;
    while i < n
        invariant
            i <= n,
            n == v@.len(),
            forall|a: int, b: int|
                0 <= a < b < n && a < i ==> v@[a].address@ != v@[b].address@,
        decreases n - i,
    {
        let mut j = i + 1;
        while j < n
            invariant
                i < j <= n,
                forall|b: int| i < b < j ==> v@[i as int].address@ != v@[b].address@,
            decreases n - j,
        {
            if v[i].address.eq(&v[j].address) {
                return false;
            }
            j += 1;
        }
        i += 1;
    }
    true
}

/// Checks that no two allowance entries carry the same key.
fn allowances_distinct(v: &Vec<AllowanceEntry>) -> (r: bool)
    ensures
        r == allow_distinct(v@),
{
    let n = v.len();
    let mut i: usize = 0;
    while i < n
        invariant
            i <= n,
            n == v@.len(),
            forall|a: int, b: int|
                0 <= a < b < n && a < i ==> !(v@[a].owner@ == v@[b].owner@ && v@[a].spender@
                    == v@[b].spender@),
        decreases n - i,
    {
        let mut j = i + 1;
        while j < n
            invariant
                i < j <= n,
                forall|b: int|
                    i < b < j ==> !(v@[i as int].owner@ == v@[b].owner@ && v@[i as int].spender@
                        == v@[b].spender@),
            decreases n - j,
        {
            if same_allow_key(&v[i], &v[j]) {
                return false;
            }
            j += 1;
        }
        i += 1;
    }
    true
}

/// Checks that every entry of `a` has its mirrored counterpart in `b`.
fn mirrored_into(a: &Vec<AllowanceEntry>, b: &Vec<AllowanceEntry>) -> (r: bool)
    requires
        allow_distinct(a@),
        allow_distinct(b@),
    ensures
        r == forall|k: int|
            0 <= k < a@.len() ==> allow_of(b@, #[trigger] a@[k].spender@, a@[k].owner@)
                == Option::Some(a@[k].info),
{
    let n = a.len();
    let mut i: usize = 0;
    while i < n
        invariant
            i <= n,
            n == a@.len(),
            forall|k: int|
                0 <= k < i ==> allow_of(b@, #[trigger] a@[k].spender@, a@[k].owner@)
                    == Option::Some(a@[k].info),
        decreases n - i,
    {
        let e = &a[i];
        match get_allowance(b, &e.spender, &e.owner) {
            Some(info) => {
                if !allowance_info_eq(&info, &e.info) {
                    return false;
                }
            },
            None => {
                return false;
            },
        }
        i += 1;
    }
    true
}

/// Checks that the stored fee configuration, if any, passes the validator.
fn fee_config_valid(cfg: &Option<FeeConfig>) -> (r: bool)
    ensures
        r == match *cfg {
            Option::Some(c) => crate::fee::valid_fee_config(c),
            Option::None => true,
        },
{
    let c = match cfg {
        None => {
            return true;
        },
        Some(c) => c,
    };
    let n = c.collectors.len();
    let mut total: u128 = 0;
    let mut i: usize = 0;
    while i < n
        invariant
            i <= n,
            n == c.collectors@.len(),
            total == crate::fee::sum_pct(c.collectors@.take(i as int)),
        decreases n - i,
    {
        proof {
            assert(c.collectors@.take(i + 1).drop_last() =~= c.collectors@.take(i as int));
        }
        total = match total.checked_add(c.collectors[i].percentage) {
            Some(v) => v,
            None => {
                proof {
                    crate::fee::lemma_sum_pct_prefix_le(c.collectors@, i + 1);
                }
                return false;
            },
        };
        i += 1;
    }
    proof {
        assert(c.collectors@.take(n as int) =~= c.collectors@);
    }
    match crate::fee::validate_fee_config(c) {
        Ok(_) => true,
        Err(_) => false,
    }
}

impl TokenState {
    /// Decides well-formedness at run time: a host that persists states from
    /// any source can test the record before handing it to a handler.
    pub fn is_well_formed(&self) -> (r: bool)
        ensures
            r == self.wf(),
    {
        if !balances_distinct(&self.balances) {
            return false;
        }
        if !allowances_distinct(&self.allowances) {
            return false;
        }
        if !allowances_distinct(&self.spender_allowances) {
            return false;
        }
        if !fee_config_valid(&self.fee_config) {
            return false;
        }
        if self.token_info.decimals > 18 {
            return false;
        }
        let forward = mirrored_into(&self.allowances, &self.spender_allowances);
        let backward = mirrored_into(&self.spender_allowances, &self.allowances);
        proof {
            if forward && backward {
                assert forall|o: Seq<char>, sp: Seq<char>| #[trigger] allow_of(
                    self.allowances@,
                    o,
                    sp,
                ) == allow_of(self.spender_allowances@, sp, o) by {
                    if allow_has(self.allowances@, o, sp) {
                        let k = allow_idx(self.allowances@, o, sp);
                        assert(self.allowances@[k].owner@ == o && self.allowances@[k].spender@
                            == sp);
                        assert(allow_of(self.spender_allowances@, sp, o) == Option::Some(
                            self.allowances@[k].info,
                        ));
                    } else if allow_has(self.spender_allowances@, sp, o) {
                        let k = allow_idx(self.spender_allowances@, sp, o);
                        assert(self.spender_allowances@[k].owner@ == sp
                            && self.spender_allowances@[k].spender@ == o);
                        assert(allow_of(self.allowances@, o, sp) == Option::Some(
                            self.spender_allowances@[k].info,
                        ));
                    }
                }
            } else {
                if !forward {
                    let k = choose|k: int|
                        0 <= k < self.allowances@.len() && allow_of(
                            self.spender_allowances@,
                            #[trigger] self.allowances@[k].spender@,
                            self.allowances@[k].owner@,
                        ) != Option::Some(self.allowances@[k].info);
                    assert(allow_of(
                        self.allowances@,
                        self.allowances@[k].owner@,
                        self.allowances@[k].spender@,
                    ) == Option::Some(self.allowances@[k].info));
                } else {
                    let k = choose|k: int|
                        0 <= k < self.spender_allowances@.len() && allow_of(
                            self.allowances@,
                            #[trigger] self.spender_allowances@[k].spender@,
                            self.spender_allowances@[k].owner@,
                        ) != Option::Some(self.spender_allowances@[k].info);
                    assert(allow_of(
                        self.spender_allowances@,
                        self.spender_allowances@[k].owner@,
                        self.spender_allowances@[k].spender@,
                    ) == Option::Some(self.spender_allowances@[k].info));
                }
            }
        }
        forward && backward
    }
}

} // verus!
