//! Gun skins: which assets are skins for a weapon, when a player owns one,
//! which selections stay valid, and the list of weapons that have skins.
use vstd::prelude::*;
use crate::ownership::{AssetDefinitionRecord, AssetKind, OwnershipError, OwnershipModel, SkinRarity};
use crate::text::{chars_of, is_blank, is_blank_str, str_equal};

verus! {

#[derive(Clone, Copy, Debug, PartialEq, Eq, Structural)]
pub enum GunskinError {
    Ownership(OwnershipError),
    NotFound,
    Inactive,
    NotASkin,
    CurrencySkin,
    MissingWeaponKey,
    MissingRarity,
    NotApplicable,
    NotOwned,
    UserNotFound,
}

impl GunskinError {
    pub open spec fn message_spec(self) -> Seq<char> {
        match self {
            GunskinError::Ownership(e) => e.message_spec(),
            GunskinError::NotFound => "Gunskin not found"@,
            GunskinError::Inactive => "Gunskin is inactive"@,
            GunskinError::NotASkin => "Asset is not a gunskin"@,
            GunskinError::CurrencySkin => "Gunskin cannot be a currency asset"@,
            GunskinError::MissingWeaponKey => "Gunskin is missing weapon key"@,
            GunskinError::MissingRarity => "Gunskin is missing rarity"@,
            GunskinError::NotApplicable => "Gunskin is not applicable to the requested weapon"@,
            GunskinError::NotOwned => "User does not own this gunskin"@,
            GunskinError::UserNotFound => "User not found"@,
        }
    }

    /// The problem as text.
    pub fn message(&self) -> (r: &'static str)
        ensures
            r@ == self.message_spec(),
    {
        match self {
            GunskinError::Ownership(e) => e.message(),
            GunskinError::NotFound => "Gunskin not found",
            GunskinError::Inactive => "Gunskin is inactive",
            GunskinError::NotASkin => "Asset is not a gunskin",
            GunskinError::CurrencySkin => "Gunskin cannot be a currency asset",
            GunskinError::MissingWeaponKey => "Gunskin is missing weapon key",
            GunskinError::MissingRarity => "Gunskin is missing rarity",
            GunskinError::NotApplicable => "Gunskin is not applicable to the requested weapon",
            GunskinError::NotOwned => "User does not own this gunskin",
            GunskinError::UserNotFound => "User not found",
        }
    }
}

pub open spec fn blank_or_missing(v: Option<String>) -> bool {
    match v {
        Some(s) => is_blank(s@),
        None => true,
    }
}

/// A selectable skin: active, of the skin kind, not a currency, with a
/// weapon key and a rarity.
pub open spec fn skin_asset_outcome(asset: AssetDefinitionRecord) -> Result<(), GunskinError> {
    if !asset.is_active {
        Err(GunskinError::Inactive)
    } else if asset.asset_kind@ != "skin"@ {
        Err(GunskinError::NotASkin)
    } else if asset.is_currency {
        Err(GunskinError::CurrencySkin)
    } else if blank_or_missing(asset.weapon_key) {
        Err(GunskinError::MissingWeaponKey)
    } else if blank_or_missing(asset.rarity) {
        Err(GunskinError::MissingRarity)
    } else {
        Ok(())
    }
}

fn is_blank_or_missing(v: &Option<String>) -> (r: bool)
    ensures
        r == blank_or_missing(*v),
{
    match v {
        Some(s) => is_blank_str(s.as_str()),
        None => true,
    }
}

pub fn check_skin_asset(asset: &AssetDefinitionRecord) -> (r: Result<(), GunskinError>)
    ensures
        r == skin_asset_outcome(*asset),
{
    if !asset.is_active {
        return Err(GunskinError::Inactive);
    }
    if !str_equal(asset.asset_kind.as_str(), AssetKind::Skin.as_str()) {
        return Err(GunskinError::NotASkin);
    }
    if asset.is_currency {
        return Err(GunskinError::CurrencySkin);
    }
    if is_blank_or_missing(&asset.weapon_key) {
        return Err(GunskinError::MissingWeaponKey);
    }
    if is_blank_or_missing(&asset.rarity) {
        return Err(GunskinError::MissingRarity);
    }
    Ok(())
}

/// What a player holds of an asset.
#[derive(Clone, Copy, Debug)]
pub struct Holding {
    pub stackable_amount: Option<i64>,
    pub has_entitlement: bool,
    pub expires_at: Option<i64>,
}

/// A player owns an asset when they hold a positive amount of a stackable
/// one, the entitlement, or an unexpired expirable one.
pub open spec fn owns(model: OwnershipModel, holding: Holding, now: i64) -> bool {
    match model {
        OwnershipModel::Stackable => holding.stackable_amount matches Some(a) && a > 0,
        OwnershipModel::Entitlement => holding.has_entitlement,
        OwnershipModel::Expirable => holding.expires_at matches Some(e) && e > now,
    }
}

pub fn is_asset_owned(asset: &AssetDefinitionRecord, holding: Holding, now: i64) -> (r: Result<
    bool,
    GunskinError,
>)
    ensures
        match OwnershipModel::from_name(asset.ownership_model@) {
            Some(m) => r == Ok::<bool, GunskinError>(owns(m, holding, now)),
            None => r == Err::<bool, GunskinError>(
                GunskinError::Ownership(OwnershipError::UnsupportedOwnershipModel),
            ),
        },
{
    match OwnershipModel::parse(asset.ownership_model.as_str()) {
        Ok(OwnershipModel::Stackable) => Ok(
            match holding.stackable_amount {
                Some(a) => a > 0,
                None => false,
            },
        ),
        Ok(OwnershipModel::Entitlement) => Ok(holding.has_entitlement),
        Ok(OwnershipModel::Expirable) => Ok(
            match holding.expires_at {
                Some(e) => e > now,
                None => false,
            },
        ),
        Err(e) => Err(GunskinError::Ownership(e)),
    }
}

pub open spec fn weapon_matches(asset_weapon_key: Option<String>, weapon_key: Seq<char>) -> bool {
    asset_weapon_key matches Some(w) && w@ == weapon_key
}

fn weapon_key_matches(asset_weapon_key: &Option<String>, weapon_key: &str) -> (r: bool)
    ensures
        r == weapon_matches(*asset_weapon_key, weapon_key@),
{
    match asset_weapon_key {
        Some(w) => str_equal(w.as_str(), weapon_key),
        None => false,
    }
}

/// Selecting a skin for a weapon: the skin must be for that weapon and be
/// owned.
pub fn check_selection(asset: &AssetDefinitionRecord, weapon_key: &str, owned: bool) -> (r: Result<
    (),
    GunskinError,
>)
    ensures
        !weapon_matches(asset.weapon_key, weapon_key@) ==> r == Err::<(), GunskinError>(
            GunskinError::NotApplicable,
        ),
        weapon_matches(asset.weapon_key, weapon_key@) && !owned ==> r == Err::<(), GunskinError>(
            GunskinError::NotOwned,
        ),
        weapon_matches(asset.weapon_key, weapon_key@) && owned ==> r is Ok,
{
    if !weapon_key_matches(&asset.weapon_key, weapon_key) {
        return Err(GunskinError::NotApplicable);
    }
    if !owned {
        return Err(GunskinError::NotOwned);
    }
    Ok(())
}

/// A stored selection stays valid while its asset is an active skin for the
/// weapon that the player owns.
pub fn selection_is_valid(asset: &AssetDefinitionRecord, weapon_key: &str, owned: bool) -> (r: bool)
    ensures
        r == (asset.asset_kind@ == "skin"@ && weapon_matches(asset.weapon_key, weapon_key@)
            && asset.is_active && owned),
{
    str_equal(asset.asset_kind.as_str(), AssetKind::Skin.as_str()) && weapon_key_matches(
        &asset.weapon_key,
        weapon_key,
    ) && asset.is_active && owned
}

/// When an asset leaves a player's holdings, the selection made with it is
/// cleared: only for a skin with a weapon key, selected for that weapon,
/// and no longer owned.
pub fn should_clear_selection(
    asset: &AssetDefinitionRecord,
    selected_asset_id: Option<u128>,
    owned: bool,
) -> (r: bool)
    ensures
        r == (asset.asset_kind@ == "skin"@ && asset.weapon_key is Some && selected_asset_id == Some(
            asset.id,
        ) && !owned),
{
    if !str_equal(asset.asset_kind.as_str(), AssetKind::Skin.as_str()) {
        return false;
    }
    if asset.weapon_key.is_none() {
        return false;
    }
    match selected_asset_id {
        Some(id) => id == asset.id && !owned,
        None => false,
    }
}

/// A skin as offered to a player.
#[derive(Clone, Debug)]
pub struct GunskinAssetView {
    pub id: u128,
    pub key: String,
    pub display_name: String,
    pub description: Option<String>,
    pub weapon_key: String,
    pub rarity: SkinRarity,
    pub ownership_model: OwnershipModel,
}

/// A skin as selected for a weapon.
#[derive(Clone, Debug)]
pub struct SelectedGunskinView {
    pub weapon_key: String,
    pub asset_definition_id: u128,
    pub asset_key: String,
    pub display_name: String,
    pub description: Option<String>,
    pub rarity: SkinRarity,
    pub selected_at: i64,
    pub updated_at: i64,
}

fn skin_rarity(rarity: &Option<String>) -> (r: Result<SkinRarity, GunskinError>)
    ensures
        match *rarity {
            None => r == Err::<SkinRarity, GunskinError>(GunskinError::MissingRarity),
            Some(s) => match SkinRarity::from_name(s@) {
                Some(k) => r == Ok::<SkinRarity, GunskinError>(k),
                None => r == Err::<SkinRarity, GunskinError>(
                    GunskinError::Ownership(OwnershipError::UnsupportedSkinRarity),
                ),
            },
        },
{
    match rarity {
        None => Err(GunskinError::MissingRarity),
        Some(s) => match SkinRarity::parse(s.as_str()) {
            Ok(k) => Ok(k),
            Err(e) => Err(GunskinError::Ownership(e)),
        },
    }
}

pub fn map_gunskin_asset(asset: &AssetDefinitionRecord) -> (r: Result<GunskinAssetView, GunskinError>)
    ensures
        match asset.weapon_key {
            None => r == Err::<GunskinAssetView, GunskinError>(GunskinError::MissingWeaponKey),
            Some(w) => match asset.rarity {
                None => r == Err::<GunskinAssetView, GunskinError>(GunskinError::MissingRarity),
                Some(rr) => match SkinRarity::from_name(rr@) {
                    None => r == Err::<GunskinAssetView, GunskinError>(
                        GunskinError::Ownership(OwnershipError::UnsupportedSkinRarity),
                    ),
                    Some(k) => match OwnershipModel::from_name(asset.ownership_model@) {
                        None => r == Err::<GunskinAssetView, GunskinError>(
                            GunskinError::Ownership(OwnershipError::UnsupportedOwnershipModel),
                        ),
                        Some(m) => r matches Ok(v) && v.id == asset.id && v.key@ == asset.key@
                            && v.display_name@ == asset.display_name@ && v.weapon_key@ == w@
                            && v.rarity == k && v.ownership_model == m,
                    },
                },
            },
        },
{
    let weapon_key = match &asset.weapon_key {
        Some(w) => w.clone(),
        None => {
            return Err(GunskinError::MissingWeaponKey);
        },
    };
    let rarity = skin_rarity(&asset.rarity)?;
    let ownership_model = match OwnershipModel::parse(asset.ownership_model.as_str()) {
        Ok(m) => m,
        Err(e) => {
            return Err(GunskinError::Ownership(e));
        },
    };
    Ok(
        GunskinAssetView {
            id: asset.id,
            key: asset.key.clone(),
            display_name: asset.display_name.clone(),
            description: asset.description.clone(),
            weapon_key,
            rarity,
            ownership_model,
        },
    )
}

pub fn map_selected_gunskin(
    weapon_key: String,
    selected_at: i64,
    updated_at: i64,
    asset: &AssetDefinitionRecord,
) -> (r: Result<SelectedGunskinView, GunskinError>)
    ensures
        match *&asset.rarity {
            None => r == Err::<SelectedGunskinView, GunskinError>(GunskinError::MissingRarity),
            Some(s) => match SkinRarity::from_name(s@) {
                None => r == Err::<SelectedGunskinView, GunskinError>(
                    GunskinError::Ownership(OwnershipError::UnsupportedSkinRarity),
                ),
                Some(k) => r matches Ok(v) && v.weapon_key@ == weapon_key@ && v.asset_definition_id
                    == asset.id && v.asset_key@ == asset.key@ && v.display_name@
                    == asset.display_name@ && v.rarity == k && v.selected_at == selected_at
                    && v.updated_at == updated_at,
            },
        },
{
    let rarity = skin_rarity(&asset.rarity)?;
    Ok(
        SelectedGunskinView {
            weapon_key,
            asset_definition_id: asset.id,
            asset_key: asset.key.clone(),
            display_name: asset.display_name.clone(),
            description: asset.description.clone(),
            rarity,
            selected_at,
            updated_at,
        },
    )
}

// ---------------------------------------------------------------------------
// Weapon keys, sorted and without repeats.
// ---------------------------------------------------------------------------

/// Lexicographic order of texts by characters, which is the order of their
/// UTF-8 bytes and so that of `Ord for String`.
pub open spec fn text_lt(a: Seq<char>, b: Seq<char>) -> bool
    decreases a.len(),
{
    if a.len() == 0 {
        b.len() > 0
    } else if b.len() == 0 {
        false
    } else if a[0] != b[0] {
        a[0] < b[0]
    } else {
        text_lt(a.drop_first(), b.drop_first())
    }
}

pub(crate) proof fn lemma_text_lt_trans(a: Seq<char>, b: Seq<char>, c: Seq<char>)
    requires
        text_lt(a, b),
        text_lt(b, c),
    ensures
        text_lt(a, c),
    decreases a.len(),
{
    if a.len() > 0 && b.len() > 0 && c.len() > 0 && a[0] == b[0] && b[0] == c[0] {
        lemma_text_lt_trans(a.drop_first(), b.drop_first(), c.drop_first());
    }
}

pub(crate) proof fn lemma_text_lt_total(a: Seq<char>, b: Seq<char>)
    ensures
        a == b || text_lt(a, b) || text_lt(b, a),
    decreases a.len(),
{
    if a.len() > 0 && b.len() > 0 {
        if a[0] == b[0] {
            lemma_text_lt_total(a.drop_first(), b.drop_first());
            if a.drop_first() == b.drop_first() {
                assert(a =~= seq![a[0]] + a.drop_first());
                assert(b =~= seq![b[0]] + b.drop_first());
            }
        }
    } else if a.len() == 0 && b.len() == 0 {
        assert(a =~= b);
    }
}

pub(crate) proof fn lemma_text_lt_irreflexive(a: Seq<char>)
    ensures
        !text_lt(a, a),
    decreases a.len(),
{
    if a.len() > 0 {
        lemma_text_lt_irreflexive(a.drop_first());
    }
}

/// `a < b` on texts.
pub fn text_less(a: &str, b: &str) -> (r: bool)
    ensures
        r == text_lt(a@, b@),
{
    let x = chars_of(a);
    let y = chars_of(b);
    let mut i: usize = 0;
    assert(x@.subrange(0, x@.len() as int) =~= x@);
    assert(y@.subrange(0, y@.len() as int) =~= y@);
    while i < x.len() && i < y.len() && x[i] == y[i]
        invariant
            0 <= i <= x@.len(),
            i <= y@.len(),
            forall|k: int| 0 <= k < i ==> x@[k] == y@[k],
            text_lt(a@, b@) == text_lt(x@.subrange(i as int, x@.len() as int), y@.subrange(
                i as int,
                y@.len() as int,
            )),
            x@ == a@,
            y@ == b@,
        decreases x@.len() - i,
    {
        assert(x@.subrange(i as int, x@.len() as int).drop_first() =~= x@.subrange(
            i + 1,
            x@.len() as int,
        ));
        assert(y@.subrange(i as int, y@.len() as int).drop_first() =~= y@.subrange(
            i + 1,
            y@.len() as int,
        ));
        i = i + 1;
    }
    if i == x.len() {
        i < y.len()
    } else if i == y.len() {
        false
    } else {
        x[i] < y[i]
    }
}

pub open spec fn strictly_sorted(v: Seq<String>) -> bool {
    forall|i: int, j: int| 0 <= i < j < v.len() ==> text_lt(#[trigger] v[i]@, #[trigger] v[j]@)
}

pub open spec fn has_text(v: Seq<String>, t: Seq<char>) -> bool {
    exists|i: int| 0 <= i < v.len() && (#[trigger] v[i])@ == t
}

/// Inserts a key into a strictly sorted list unless it is already there.
fn insert_sorted(out: &mut Vec<String>, key: String)
    requires
        strictly_sorted(old(out)@),
    ensures
        strictly_sorted(final(out)@),
        forall|t: Seq<char>| has_text(final(out)@, t) <==> (has_text(old(out)@, t) || t == key@),
{
    let n: usize = out.len();
    let mut i: usize = 0;
    while i < n && text_less(out[i].as_str(), key.as_str())
        invariant
            0 <= i <= n,
            n == out@.len(),
            forall|k: int| 0 <= k < i ==> text_lt(#[trigger] out@[k]@, key@),
        decreases n - i,
    {
        i = i + 1;
    }
    if i < n && str_equal(out[i].as_str(), key.as_str()) {
        assert(has_text(out@, key@));
        return;
    }
    proof {
        if i < n {
            lemma_text_lt_total(out@[i as int]@, key@);
            assert(text_lt(key@, out@[i as int]@));
        }
    }
    let ghost before = out@;
    assert(before == old(out)@);
    out.insert(i, key);
    proof {
        assert forall|a: int, b: int| 0 <= a < b < out@.len() implies text_lt(
            #[trigger] out@[a]@,
            #[trigger] out@[b]@,
        ) by {
            if b < i {
                assert(out@[a] == before[a] && out@[b] == before[b]);
            } else if b == i {
                assert(out@[a] == before[a]);
            } else if a < i {
                assert(out@[a] == before[a] && out@[b] == before[b - 1]);
                assert(text_lt(before[a]@, key@));
                if b - 1 > i {
                    assert(text_lt(before[i as int]@, before[b - 1]@));
                    lemma_text_lt_trans(key@, before[i as int]@, before[b - 1]@);
                }
                lemma_text_lt_trans(before[a]@, key@, before[b - 1]@);
            } else if a == i {
                assert(out@[b] == before[b - 1]);
                if b - 1 > i {
                    assert(text_lt(before[i as int]@, before[b - 1]@));
                    lemma_text_lt_trans(key@, before[i as int]@, before[b - 1]@);
                }
            } else {
                assert(out@[a] == before[a - 1] && out@[b] == before[b - 1]);
            }
        }
        assert forall|t: Seq<char>| has_text(out@, t) <==> (has_text(before, t) || t == key@) by {
            if has_text(out@, t) {
                let k = choose|k: int| 0 <= k < out@.len() && (#[trigger] out@[k])@ == t;
                if k < i {
                    assert(before[k]@ == t);
                } else if k > i {
                    assert(before[k - 1]@ == t);
                }
            }
            if has_text(before, t) {
                let k = choose|k: int| 0 <= k < before.len() && (#[trigger] before[k])@ == t;
                if k < i {
                    assert(out@[k]@ == t);
                } else {
                    assert(out@[k + 1]@ == t);
                }
            }
            if t == key@ {
                assert(out@[i as int]@ == t);
            }
        }
        assert(forall|t: Seq<char>| #[trigger] has_text(out@, t) <==> (has_text(old(out)@, t) || t == key@));
    }
}

/// The weapon keys of the given skins, sorted and each once (`sort` then
/// `dedup`).
pub fn sorted_weapon_keys(keys: Vec<String>) -> (r: Vec<String>)
    ensures
        strictly_sorted(r@),
        forall|t: Seq<char>| has_text(r@, t) <==> has_text(keys@, t),
{
    let mut out: Vec<String> = Vec::new();
    let n: usize = keys.len();
    let mut i: usize = 0;
    while i < n
        invariant
            0 <= i <= n,
            n == keys@.len(),
            strictly_sorted(out@),
            forall|t: Seq<char>| has_text(out@, t) <==> has_text(keys@.subrange(0, i as int), t),
        decreases n - i,
    {
        let ghost before = out@;
        insert_sorted(&mut out, keys[i].clone());
        proof {
            assert forall|t: Seq<char>| has_text(out@, t) <==> has_text(
                keys@.subrange(0, i + 1),
                t,
            ) by {
                let p = keys@.subrange(0, i as int);
                let q = keys@.subrange(0, i + 1);
                if has_text(p, t) {
                    let k = choose|k: int| 0 <= k < p.len() && (#[trigger] p[k])@ == t;
                    assert(q[k] == p[k]);
                }
                if has_text(q, t) {
                    let k = choose|k: int| 0 <= k < q.len() && (#[trigger] q[k])@ == t;
                    if k < i {
                        assert(p[k] == q[k]);
                    }
                }
                assert(q[i as int] == keys@[i as int]);
            }
        }
        i = i + 1;
    }
    assert(keys@.subrange(0, n as int) =~= keys@);
    out
}

} // verus!
