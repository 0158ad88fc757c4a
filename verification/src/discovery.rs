//! What anchors publish about themselves.

use crate::caches::{check_expiry, expiry_refusal, kept_ledgers, ledger_ttl};
use crate::calls::Moment;
use crate::contract::{carried_out, unless, AnchorKitContract};
use crate::data::{contents, lifted, Address, Comparable, Duplicate, Text};
use crate::env::{Env, State};
use crate::stores::CachesState;
use crate::table::{erased, put, read, written};
use crate::types::{
    AssetInfo, AssetInfoView, CachedToml, CachedTomlView, ErrorCode, StellarToml, StellarTomlView,
};
use vstd::prelude::*;

verus! {

/// The codes of some assets.
pub open spec fn codes(assets: Seq<AssetInfoView>) -> Seq<Seq<u8>> {
    Seq::new(assets.len(), |i: int| assets[i].code)
}

/// The first asset with a code.
pub open spec fn find_asset(assets: Seq<AssetInfoView>, code: Seq<u8>) -> Option<AssetInfoView>
    decreases assets.len(),
{
    if assets.len() == 0 {
        None
    } else if assets[0].code == code {
        Some(assets[0])
    } else {
        find_asset(assets.drop_first(), code)
    }
}

impl State {
    /// Why a call that `anchor` must authorize is refused.
    pub open spec fn own_refusal(self, anchor: Seq<u8>) -> Option<ErrorCode> {
        unless(self.authorized(anchor), ErrorCode::Unauthorized)
    }

    /// The state in which what `anchor` publishes has been cached now.
    pub open spec fn cache_toml_effect(
        self,
        anchor: Seq<u8>,
        toml: StellarTomlView,
        ttl_seconds: u64,
    ) -> State {
        State {
            caches: CachesState {
                tomls: put(
                    self.caches.tomls,
                    anchor,
                    CachedTomlView { toml, cached_at: self.now(), ttl_seconds },
                    kept_ledgers(ttl_seconds),
                ),
                ..self.caches
            },
            ..self
        }
    }

    /// What `anchor` publishes, or why it is not served.
    pub open spec fn toml(self, anchor: Seq<u8>) -> Result<StellarTomlView, ErrorCode> {
        match read(self.caches.tomls, anchor) {
            None => Err(ErrorCode::CacheNotFound),
            Some(cached) => match expiry_refusal(
                cached.cached_at,
                cached.ttl_seconds,
                self.now(),
            ) {
                Some(e) => Err(e),
                None => Ok(cached.toml),
            },
        }
    }

    /// The state without what `anchor` publishes.
    pub open spec fn drop_toml_effect(self, anchor: Seq<u8>) -> State {
        State {
            caches: CachesState { tomls: self.caches.tomls.remove(anchor), ..self.caches },
            ..self
        }
    }

    /// What `anchor` publishes about an asset, or why it is not served.
    pub open spec fn asset(self, anchor: Seq<u8>, code: Seq<u8>) -> Result<
        AssetInfoView,
        ErrorCode,
    > {
        match self.toml(anchor) {
            Err(e) => Err(e),
            Ok(toml) => match find_asset(toml.currencies, code) {
                Some(asset) => Ok(asset),
                None => Err(ErrorCode::ValidationError),
            },
        }
    }
}

/// The first asset with a code.
fn look_up(assets: &Vec<AssetInfo>, code: &Text) -> (r: Option<AssetInfo>)
    ensures
        lifted(r) == find_asset(contents(assets@), code@),
{
    let ghost all = contents(assets@);
    let mut i: usize = 0;
    assert(all.skip(0) =~= all);
    while i < assets.len()
        invariant
            i <= assets@.len(),
            all == contents(assets@),
            find_asset(all, code@) == find_asset(all.skip(i as int), code@),
        decreases assets@.len() - i,
    {
        assert(all.skip(i as int)[0] == assets@[i as int]@);
        assert(all.skip(i as int).drop_first() =~= all.skip(i + 1));
        if assets[i].code.same(code) {
            return Some(assets[i].dup());
        }
        i = i + 1;
    }
    None
}

impl AnchorKitContract {
    /// Caches what `anchor` publishes, for a lifetime. `anchor` must authorize
    /// it.
    pub fn fetch_anchor_info(
        env: &mut Env,
        anchor: Address,
        toml_data: StellarToml,
        ttl_seconds: u64,
    ) -> (r: Result<(), ErrorCode>)
        ensures
            carried_out(
                r,
                old(env)@,
                final(env)@,
                old(env)@.own_refusal(anchor@),
                old(env)@.cache_toml_effect(anchor@, toml_data@, ttl_seconds),
            ),
    {
        if !env.authorized(&anchor) {
            return Err(ErrorCode::Unauthorized);
        }
        let cached = CachedToml {
            toml: toml_data,
            cached_at: env.ledger.timestamp,
            ttl_seconds,
        };
        env.caches.tomls.set(anchor, cached, ledger_ttl(ttl_seconds));
        Ok(())
    }

    /// What `anchor` publishes, while its lifetime lasts.
    pub fn get_anchor_toml(env: &Env, anchor: Address) -> (r: Result<StellarToml, ErrorCode>)
        ensures
            match r {
                Ok(toml) => env@.toml(anchor@) == Ok::<StellarTomlView, ErrorCode>(toml@),
                Err(e) => env@.toml(anchor@) == Err::<StellarTomlView, ErrorCode>(e),
            },
    {
        match env.caches.tomls.get(&anchor) {
            None => Err(ErrorCode::CacheNotFound),
            Some(cached) => match check_expiry(env, cached.cached_at, cached.ttl_seconds) {
                Ok(_) => Ok(cached.toml),
                Err(e) => Err(e),
            },
        }
    }

    /// Drops what `anchor` publishes. `anchor` must authorize it.
    pub fn refresh_anchor_info(env: &mut Env, anchor: Address) -> (r: Result<(), ErrorCode>)
        ensures
            carried_out(
                r,
                old(env)@,
                final(env)@,
                old(env)@.own_refusal(anchor@),
                old(env)@.drop_toml_effect(anchor@),
            ),
    {
        if !env.authorized(&anchor) {
            return Err(ErrorCode::Unauthorized);
        }
        env.caches.tomls.remove(&anchor);
        Ok(())
    }

    /// The codes of the assets that `anchor` publishes.
    pub fn get_anchor_assets(env: &Env, anchor: Address) -> (r: Result<Vec<Text>, ErrorCode>)
        ensures
            match r {
                Ok(assets) => env@.toml(anchor@) matches Ok(toml) && contents(assets@) == codes(
                    toml.currencies,
                ),
                Err(e) => env@.toml(anchor@) == Err::<StellarTomlView, ErrorCode>(e),
            },
    {
        let toml: StellarToml = match Self::get_anchor_toml(env, anchor) {
            Ok(toml) => toml,
            Err(e) => return Err(e),
        };
        let ghost currencies = contents(toml.currencies@);
        let mut assets: Vec<Text> = Vec::new();
        let mut i: usize = 0;
        while i < toml.currencies.len()
            invariant
                i <= toml.currencies@.len(),
                assets@.len() == i,
                currencies == contents(toml.currencies@),
                forall|j: int| 0 <= j < i ==> (#[trigger] assets@[j])@ == currencies[j].code,
            decreases toml.currencies@.len() - i,
        {
            assets.push(toml.currencies[i].code.dup());
            i = i + 1;
        }
        assert(contents(assets@) =~= codes(currencies));
        Ok(assets)
    }

    /// What `anchor` publishes about an asset.
    pub fn get_anchor_asset_info(env: &Env, anchor: Address, asset_code: Text) -> (r: Result<
        AssetInfo,
        ErrorCode,
    >)
        ensures
            match r {
                Ok(asset) => env@.asset(anchor@, asset_code@) == Ok::<AssetInfoView, ErrorCode>(
                    asset@,
                ),
                Err(e) => env@.asset(anchor@, asset_code@) == Err::<AssetInfoView, ErrorCode>(e),
            },
    {
        let toml: StellarToml = match Self::get_anchor_toml(env, anchor) {
            Ok(toml) => toml,
            Err(e) => return Err(e),
        };
        match look_up(&toml.currencies, &asset_code) {
            Some(asset) => Ok(asset),
            None => Err(ErrorCode::ValidationError),
        }
    }

    /// The smallest and the largest deposit of an asset.
    pub fn get_anchor_deposit_limits(env: &Env, anchor: Address, asset_code: Text) -> (r: Result<
        (u64, u64),
        ErrorCode,
    >)
        ensures
            match r {
                Ok(limits) => env@.asset(anchor@, asset_code@) matches Ok(asset) && limits == (
                    asset.deposit_min_amount,
                    asset.deposit_max_amount,
                ),
                Err(e) => env@.asset(anchor@, asset_code@) == Err::<AssetInfoView, ErrorCode>(e),
            },
    {
        match Self::get_anchor_asset_info(env, anchor, asset_code) {
            Ok(asset) => Ok((asset.deposit_min_amount, asset.deposit_max_amount)),
            Err(e) => Err(e),
        }
    }

    /// The smallest and the largest withdrawal of an asset.
    pub fn get_anchor_withdrawal_limits(env: &Env, anchor: Address, asset_code: Text) -> (r: Result<
        (u64, u64),
        ErrorCode,
    >)
        ensures
            match r {
                Ok(limits) => env@.asset(anchor@, asset_code@) matches Ok(asset) && limits == (
                    asset.withdrawal_min_amount,
                    asset.withdrawal_max_amount,
                ),
                Err(e) => env@.asset(anchor@, asset_code@) == Err::<AssetInfoView, ErrorCode>(e),
            },
    {
        match Self::get_anchor_asset_info(env, anchor, asset_code) {
            Ok(asset) => Ok((asset.withdrawal_min_amount, asset.withdrawal_max_amount)),
            Err(e) => Err(e),
        }
    }

    /// The fixed and the proportional fee of a deposit of an asset.
    pub fn get_anchor_deposit_fees(env: &Env, anchor: Address, asset_code: Text) -> (r: Result<
        (u64, u32),
        ErrorCode,
    >)
        ensures
            match r {
                Ok(fees) => env@.asset(anchor@, asset_code@) matches Ok(asset) && fees == (
                    asset.deposit_fee_fixed,
                    asset.deposit_fee_percent,
                ),
                Err(e) => env@.asset(anchor@, asset_code@) == Err::<AssetInfoView, ErrorCode>(e),
            },
    {
        match Self::get_anchor_asset_info(env, anchor, asset_code) {
            Ok(asset) => Ok((asset.deposit_fee_fixed, asset.deposit_fee_percent)),
            Err(e) => Err(e),
        }
    }

    /// The fixed and the proportional fee of a withdrawal of an asset.
    pub fn get_anchor_withdrawal_fees(env: &Env, anchor: Address, asset_code: Text) -> (r: Result<
        (u64, u32),
        ErrorCode,
    >)
        ensures
            match r {
                Ok(fees) => env@.asset(anchor@, asset_code@) matches Ok(asset) && fees == (
                    asset.withdrawal_fee_fixed,
                    asset.withdrawal_fee_percent,
                ),
                Err(e) => env@.asset(anchor@, asset_code@) == Err::<AssetInfoView, ErrorCode>(e),
            },
    {
        match Self::get_anchor_asset_info(env, anchor, asset_code) {
            Ok(asset) => Ok((asset.withdrawal_fee_fixed, asset.withdrawal_fee_percent)),
            Err(e) => Err(e),
        }
    }

    /// Whether an asset can be deposited.
    pub fn anchor_supports_deposits(env: &Env, anchor: Address, asset_code: Text) -> (r: Result<
        bool,
        ErrorCode,
    >)
        ensures
            match r {
                Ok(supported) => env@.asset(anchor@, asset_code@) matches Ok(asset) && supported
                    == asset.deposit_enabled,
                Err(e) => env@.asset(anchor@, asset_code@) == Err::<AssetInfoView, ErrorCode>(e),
            },
    {
        match Self::get_anchor_asset_info(env, anchor, asset_code) {
            Ok(asset) => Ok(asset.deposit_enabled),
            Err(e) => Err(e),
        }
    }

    /// Whether an asset can be withdrawn.
    pub fn anchor_supports_withdrawals(env: &Env, anchor: Address, asset_code: Text) -> (r: Result<
        bool,
        ErrorCode,
    >)
        ensures
            match r {
                Ok(supported) => env@.asset(anchor@, asset_code@) matches Ok(asset) && supported
                    == asset.withdrawal_enabled,
                Err(e) => env@.asset(anchor@, asset_code@) == Err::<AssetInfoView, ErrorCode>(e),
            },
    {
        match Self::get_anchor_asset_info(env, anchor, asset_code) {
            Ok(asset) => Ok(asset.withdrawal_enabled),
            Err(e) => Err(e),
        }
    }
}

/// What an anchor publishes is served until the end of its lifetime, and not
/// once it is dropped or has lapsed.
pub proof fn published_info_ages(
    s: State,
    anchor: Seq<u8>,
    toml: StellarTomlView,
    ttl_seconds: u64,
    moment: Moment,
)
    requires
        s.now() <= moment.ledger.timestamp,
        s.now() + ttl_seconds <= u64::MAX,
    ensures
        ({
            let t = s.cache_toml_effect(anchor, toml, ttl_seconds).at(moment);
            &&& t.toml(anchor) == (if moment.lapsed.tomls.contains(anchor) {
                Err(ErrorCode::CacheNotFound)
            } else if t.now() < s.now() + ttl_seconds {
                Ok(toml)
            } else {
                Err(ErrorCode::CacheExpired)
            })
            &&& t.drop_toml_effect(anchor).toml(anchor) == Err::<StellarTomlView, ErrorCode>(
                ErrorCode::CacheNotFound,
            )
        }),
{
}

/// An asset is found exactly if one with its code is published, and what is
/// found has that code and is the first of its code.
pub proof fn asset_lookup_is_exact(assets: Seq<AssetInfoView>, code: Seq<u8>)
    ensures
        find_asset(assets, code) is Some <==> codes(assets).contains(code),
        find_asset(assets, code) matches Some(asset) ==> exists|i: int|
            0 <= i < assets.len() && #[trigger] assets[i] == asset && asset.code == code && (
            forall|j: int| 0 <= j < i ==> (#[trigger] assets[j]).code != code),
    decreases assets.len(),
{
    if assets.len() > 0 {
        let rest = assets.drop_first();
        asset_lookup_is_exact(rest, code);
        if assets[0].code == code {
            assert(codes(assets)[0] == code);
        } else {
            if codes(rest).contains(code) {
                let i = codes(rest).index_of(code);
                assert(codes(assets)[i + 1] == code);
            }
            if codes(assets).contains(code) {
                let i = codes(assets).index_of(code);
                assert(codes(rest)[i - 1] == code);
            }
            match find_asset(rest, code) {
                Some(asset) => {
                    let i = choose|i: int|
                        0 <= i < rest.len() && #[trigger] rest[i] == asset && asset.code == code
                            && (forall|j: int| 0 <= j < i ==> (#[trigger] rest[j]).code != code);
                    assert(assets[i + 1] == asset);
                    assert forall|j: int| 0 <= j < i + 1 implies (#[trigger] assets[j]).code
                        != code by {
                        if j > 0 {
                            assert(rest[j - 1].code != code);
                        }
                    }
                },
                None => {},
            }
        }
    }
}

/// What an anchor publishes is cached as given, now, and dropped without a trace, both
/// only if the anchor authorizes it; nothing else changes. It is served while the time
/// is before the end of its lifetime.
pub proof fn published_info_is_exact(
    s: State,
    anchor: Seq<u8>,
    toml: StellarTomlView,
    ttl_seconds: u64,
)
    ensures
        ({
            let t = s.cache_toml_effect(anchor, toml, ttl_seconds);
            let u = s.drop_toml_effect(anchor);
            let authorized = s.host.authorized.contains(anchor);
            let known = s.caches.tomls.dom().contains(anchor);
            let cached = s.caches.tomls[anchor].value;
            let end = cached.cached_at + cached.ttl_seconds;
            let answer = s.toml(anchor);
            &&& s.own_refusal(anchor) is None <==> authorized
            &&& !authorized ==> s.own_refusal(anchor) == Some(ErrorCode::Unauthorized)
            &&& written(
                s.caches.tomls,
                t.caches.tomls,
                anchor,
                CachedTomlView { toml, cached_at: s.ledger.timestamp, ttl_seconds },
                kept_ledgers(ttl_seconds),
            )
            &&& t == State { caches: CachesState { tomls: t.caches.tomls, ..s.caches }, ..s }
            &&& erased(s.caches.tomls, u.caches.tomls, anchor)
            &&& u == State { caches: CachesState { tomls: u.caches.tomls, ..s.caches }, ..s }
            &&& answer == Err::<StellarTomlView, ErrorCode>(ErrorCode::CacheNotFound) <==> !known
            &&& answer == Err::<StellarTomlView, ErrorCode>(ErrorCode::ArithmeticOverflow)
                <==> known && end > u64::MAX
            &&& answer == Err::<StellarTomlView, ErrorCode>(ErrorCode::CacheExpired) <==> known
                && end <= u64::MAX && s.ledger.timestamp >= end
            &&& known && end <= u64::MAX && s.ledger.timestamp < end ==> answer == Ok::<
                StellarTomlView,
                ErrorCode,
            >(cached.toml)
        }),
{
}

/// What is served of an asset is the first entry with its code in what the anchor
/// publishes, and an error if there is none or if nothing is served of the anchor.
pub proof fn published_asset_is_exact(s: State, anchor: Seq<u8>, code: Seq<u8>)
    ensures
        s.toml(anchor) matches Err(e) ==> s.asset(anchor, code) == Err::<AssetInfoView, ErrorCode>(
            e,
        ),
        s.toml(anchor) matches Ok(toml) ==> {
            &&& s.asset(anchor, code) is Err <==> !codes(toml.currencies).contains(code)
            &&& s.asset(anchor, code) is Err ==> s.asset(anchor, code) == Err::<
                AssetInfoView,
                ErrorCode,
            >(ErrorCode::ValidationError)
            &&& s.asset(anchor, code) matches Ok(asset) ==> exists|i: int|
                0 <= i < toml.currencies.len() && #[trigger] toml.currencies[i] == asset
                    && asset.code == code && (forall|j: int|
                    0 <= j < i ==> (#[trigger] toml.currencies[j]).code != code)
            &&& codes(toml.currencies).len() == toml.currencies.len()
            &&& forall|i: int|
                0 <= i < toml.currencies.len() ==> #[trigger] codes(toml.currencies)[i]
                    == toml.currencies[i].code
        },
{
    if let Ok(toml) = s.toml(anchor) {
        asset_lookup_is_exact(toml.currencies, code);
    }
}

} // verus!
