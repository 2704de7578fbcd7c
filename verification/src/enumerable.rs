use vstd::prelude::*;
use vstd::utf8::encode_utf8;

use crate::msg::{
    AllAccountsResponse, AllAllowancesResponse, AllSpenderAllowancesResponse, OwnerAllowanceItem,
    SpenderAllowanceItem,
};
use crate::state::{AllowanceEntry, BalanceEntry, TokenState};

verus! {

/// How many entries a page holds when the caller names no limit.
pub const DEFAULT_LIMIT: u32 = 10;

/// The most entries any page may hold.
pub const MAX_LIMIT: u32 = 30;

/// The page size a request resolves to.
pub open spec fn page_limit(limit: Option<u32>) -> nat {
    let l = match limit {
        Option::Some(l) => l,
        Option::None => DEFAULT_LIMIT,
    };
    if l > MAX_LIMIT {
        MAX_LIMIT as nat
    } else {
        l as nat
    }
}

/// Strict lexicographic order on byte strings.
pub open spec fn bytes_lt(a: Seq<u8>, b: Seq<u8>) -> bool
    decreases a.len(),
{
    if b.len() == 0 {
        false
    } else if a.len() == 0 {
        true
    } else if a[0] < b[0] {
        true
    } else if a[0] > b[0] {
        false
    } else {
        bytes_lt(a.drop_first(), b.drop_first())
    }
}

/// Whether `addr` comes strictly after the `start` cursor in byte order; an
/// absent cursor admits everything.
pub open spec fn addr_after(start: Option<String>, addr: String) -> bool {
    match start {
        Option::None => true,
        Option::Some(s) => bytes_lt(encode_utf8(s@), encode_utf8(addr@)),
    }
}

/// Compares two strings in the byte order of their UTF-8 encodings.
fn str_bytes_lt(a: &str, b: &str) -> (r: bool)
    ensures
        r == bytes_lt(encode_utf8(a@), encode_utf8(b@)),
{
    let x = a.as_bytes();
    let y = b.as_bytes();
    let nx = x.len();
    let ny = y.len();
    let mut i: usize = 0;
    proof {
        assert(x@.skip(0) =~= x@);
        assert(y@.skip(0) =~= y@);
    }
    loop
        invariant
            i <= nx && i <= ny,
            nx == x@.len() && ny == y@.len(),
            x@ == encode_utf8(a@) && y@ == encode_utf8(b@),
            forall|j: int| 0 <= j < i ==> x@[j] == y@[j],
            bytes_lt(x@, y@) == bytes_lt(x@.skip(i as int), y@.skip(i as int)),
        decreases nx - i,
    {
        if i == ny {
            return false;
        }
        if i == nx {
            return true;
        }
        let xb = x[i];
        let yb = y[i];
        if xb < yb {
            return true;
        }
        if xb > yb {
            return false;
        }
        proof {
            assert(x@.skip(i as int).drop_first() =~= x@.skip(i + 1));
            assert(y@.skip(i as int).drop_first() =~= y@.skip(i + 1));
        }
        i += 1;
    }
}

/// The page of account addresses after the cursor, in stored order.
pub open spec fn accounts_page(
    bals: Seq<BalanceEntry>,
    start: Option<String>,
    lim: nat,
) -> Seq<String>
    decreases bals.len(),
{
    if bals.len() == 0 || lim == 0 {
        Seq::empty()
    } else if addr_after(start, bals[0].address) {
        seq![bals[0].address] + accounts_page(bals.drop_first(), start, (lim - 1) as nat)
    } else {
        accounts_page(bals.drop_first(), start, lim)
    }
}

/// All accounts of the ledger, paginated by address cursor.
pub fn query_all_accounts(
    state: &TokenState,
    start_after: Option<String>,
    limit: Option<u32>,
) -> (r: AllAccountsResponse)
    ensures
        r.accounts@ == accounts_page(state.balances@, start_after, page_limit(limit)),
{
    let lim: usize = resolve_limit(limit);
    let mut accounts: Vec<String> = Vec::new();
    let n = state.balances.len();
    let mut i: usize = 0;
    proof {
        assert(state.balances@.skip(0) =~= state.balances@);
        assert(Seq::<String>::empty() + accounts_page(
            state.balances@,
            start_after,
            page_limit(limit),
        ) =~= accounts_page(state.balances@, start_after, page_limit(limit)));
    }
    while i < n && accounts.len() < lim
        invariant
            i <= n,
            n == state.balances@.len(),
            accounts@.len() <= lim,
            lim == page_limit(limit),
            accounts_page(state.balances@, start_after, page_limit(limit)) =~= accounts@
                + accounts_page(
                state.balances@.skip(i as int),
                start_after,
                (lim - accounts@.len()) as nat,
            ),
        decreases n - i,
    {
        let e = &state.balances[i];
        let selected = match &start_after {
            None => true,
            Some(s) => str_bytes_lt(s.as_str(), e.address.as_str()),
        };
        proof {
            assert(state.balances@.skip(i as int)[0] == state.balances@[i as int]);
            assert(state.balances@.skip(i as int).drop_first() =~= state.balances@.skip(i + 1));
        }
        if selected {
            accounts.push(e.address.clone());
        }
        i += 1;
    }
    proof {
        if i == n {
            assert(state.balances@.skip(n as int) =~= Seq::<BalanceEntry>::empty());
        }
    }
    AllAccountsResponse { accounts }
}

/// Resolves the requested page size against the default and the cap.
fn resolve_limit(limit: Option<u32>) -> (r: usize)
    ensures
        r == page_limit(limit),
{
    let l = match limit {
        Some(l) => l,
        None => DEFAULT_LIMIT,
    };
    if l > MAX_LIMIT {
        MAX_LIMIT as usize
    } else {
        l as usize
    }
}

/// The page of an owner's allowances after the spender cursor.
pub open spec fn owner_page(
    s: Seq<AllowanceEntry>,
    owner: Seq<char>,
    start: Option<String>,
    lim: nat,
) -> Seq<AllowanceEntry>
    decreases s.len(),
{
    if s.len() == 0 || lim == 0 {
        Seq::empty()
    } else if s[0].owner@ == owner && addr_after(start, s[0].spender) {
        seq![s[0]] + owner_page(s.drop_first(), owner, start, (lim - 1) as nat)
    } else {
        owner_page(s.drop_first(), owner, start, lim)
    }
}

/// All allowances granted by `owner`, paginated by spender cursor.
pub fn query_owner_allowances(
    state: &TokenState,
    owner: String,
    start_after: Option<String>,
    limit: Option<u32>,
) -> (r: AllAllowancesResponse)
    ensures
        ({
            let page = owner_page(state.allowances@, owner@, start_after, page_limit(limit));
            &&& r.allowances@.len() == page.len()
            &&& forall|k: int|
                0 <= k < page.len() ==> (#[trigger] r.allowances@[k]).spender == page[k].spender
                    && r.allowances@[k].allowance == page[k].info.allowance
                    && r.allowances@[k].expires == page[k].info.expires
        }),
{
    let lim: usize = resolve_limit(limit);
    let mut items: Vec<OwnerAllowanceItem> = Vec::new();
    let ghost mut sel: Seq<AllowanceEntry> = Seq::empty();
    let n = state.allowances.len();
    let mut i: usize = 0;
    proof {
        assert(state.allowances@.skip(0) =~= state.allowances@);
        assert(sel + owner_page(state.allowances@, owner@, start_after, page_limit(limit))
            =~= owner_page(state.allowances@, owner@, start_after, page_limit(limit)));
    }
    while i < n && items.len() < lim
        invariant
            i <= n,
            n == state.allowances@.len(),
            items@.len() == sel.len(),
            sel.len() <= lim,
            lim == page_limit(limit),
            forall|k: int|
                0 <= k < sel.len() ==> (#[trigger] items@[k]).spender == sel[k].spender
                    && items@[k].allowance == sel[k].info.allowance && items@[k].expires
                    == sel[k].info.expires,
            owner_page(state.allowances@, owner@, start_after, page_limit(limit)) =~= sel
                + owner_page(
                state.allowances@.skip(i as int),
                owner@,
                start_after,
                (lim - sel.len()) as nat,
            ),
        decreases n - i,
    {
        let e = &state.allowances[i];
        let selected = e.owner.eq(&owner) && (match &start_after {
            None => true,
            Some(s) => str_bytes_lt(s.as_str(), e.spender.as_str()),
        });
        proof {
            assert(state.allowances@.skip(i as int)[0] == state.allowances@[i as int]);
            assert(state.allowances@.skip(i as int).drop_first() =~= state.allowances@.skip(
                i + 1,
            ));
        }
        if selected {
            items.push(
                OwnerAllowanceItem {
                    spender: e.spender.clone(),
                    allowance: e.info.allowance,
                    expires: e.info.expires,
                },
            );
            proof {
                sel = sel.push(state.allowances@[i as int]);
            }
        }
        i += 1;
    }
    proof {
        if i == n {
            assert(state.allowances@.skip(n as int) =~= Seq::<AllowanceEntry>::empty());
        }
    }
    AllAllowancesResponse { allowances: items }
}

/// The page of allowances granted to one spender, read off the mirrored
/// index: entries there carry the spender in the `owner` field and the
/// granting owner in the `spender` field, and the cursor walks the owners.
pub open spec fn spender_page(
    s: Seq<AllowanceEntry>,
    spender: Seq<char>,
    start: Option<String>,
    lim: nat,
) -> Seq<AllowanceEntry>
    decreases s.len(),
{
    if s.len() == 0 || lim == 0 {
        Seq::empty()
    } else if s[0].owner@ == spender && addr_after(start, s[0].spender) {
        seq![s[0]] + spender_page(s.drop_first(), spender, start, (lim - 1) as nat)
    } else {
        spender_page(s.drop_first(), spender, start, lim)
    }
}

/// All allowances granted to `spender`, paginated by owner cursor.
pub fn query_spender_allowances(
    state: &TokenState,
    spender: String,
    start_after: Option<String>,
    limit: Option<u32>,
) -> (r: AllSpenderAllowancesResponse)
    ensures
        ({
            let page = spender_page(
                state.spender_allowances@,
                spender@,
                start_after,
                page_limit(limit),
            );
            &&& r.allowances@.len() == page.len()
            &&& forall|k: int|
                0 <= k < page.len() ==> (#[trigger] r.allowances@[k]).owner == page[k].spender
                    && r.allowances@[k].allowance == page[k].info.allowance
                    && r.allowances@[k].expires == page[k].info.expires
        }),
{
    let lim: usize = resolve_limit(limit);
    let mut items: Vec<SpenderAllowanceItem> = Vec::new();
    let ghost mut sel: Seq<AllowanceEntry> = Seq::empty();
    let n = state.spender_allowances.len();
    let mut i: usize = 0;
    proof {
        assert(state.spender_allowances@.skip(0) =~= state.spender_allowances@);
        assert(sel + spender_page(
            state.spender_allowances@,
            spender@,
            start_after,
            page_limit(limit),
        ) =~= spender_page(state.spender_allowances@, spender@, start_after, page_limit(limit)));
    }
    while i < n && items.len() < lim
        invariant
            i <= n,
            n == state.spender_allowances@.len(),
            items@.len() == sel.len(),
            sel.len() <= lim,
            lim == page_limit(limit),
            forall|k: int|
                0 <= k < sel.len() ==> (#[trigger] items@[k]).owner == sel[k].spender
                    && items@[k].allowance == sel[k].info.allowance && items@[k].expires
                    == sel[k].info.expires,
            spender_page(state.spender_allowances@, spender@, start_after, page_limit(limit))
                =~= sel + spender_page(
                state.spender_allowances@.skip(i as int),
                spender@,
                start_after,
                (lim - sel.len()) as nat,
            ),
        decreases n - i,
    {
        let e = &state.spender_allowances[i];
        let selected = e.owner.eq(&spender) && (match &start_after {
            None => true,
            Some(s) => str_bytes_lt(s.as_str(), e.spender.as_str()),
        });
        proof {
            assert(state.spender_allowances@.skip(i as int)[0] == state.spender_allowances@[i as int]);
            assert(state.spender_allowances@.skip(i as int).drop_first()
                =~= state.spender_allowances@.skip(i + 1));
        }
        if selected {
            items.push(
                SpenderAllowanceItem {
                    owner: e.spender.clone(),
                    allowance: e.info.allowance,
                    expires: e.info.expires,
                },
            );
            proof {
                sel = sel.push(state.spender_allowances@[i as int]);
            }
        }
        i += 1;
    }
    proof {
        if i == n {
            assert(state.spender_allowances@.skip(n as int) =~= Seq::<AllowanceEntry>::empty());
        }
    }
    AllSpenderAllowancesResponse { allowances: items }
}

} // verus!
