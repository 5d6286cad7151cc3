//! Asset ownership vocabulary: asset kinds, skin rarities, ownership models,
//! actors, and the validation of asset keys and asset definitions.
use vstd::prelude::*;
use crate::text::{
    is_blank, is_blank_str, is_ws, lowercase_of, push_str, str_equal, string_of, to_lowercase, trim, trim_spec,
};
use crate::json::{json_view, JsonModel, JsonValue};
use crate::pattern::{ASSET_KEY_PATTERN, pattern_compiles, pattern_matches, regex_matches};

verus! {

/// Errors of the ownership rules; `message` gives the text shown to clients.
#[derive(Clone, Copy, Debug, PartialEq, Eq, Structural)]
pub enum OwnershipError {
    UnsupportedSkinRarity,
    UnsupportedAssetKind,
    UnsupportedOwnershipModel,
    SystemActorWithoutServiceName,
    UserActorWithoutUserId,
    AssetKeyEmpty,
    AssetKeyNotLowercase,
    AssetKeyInvalidCharacters,
    AssetKeyPatternUnavailable,
    WeaponKeyEmpty,
    OwnershipModelMismatch,
    CurrencyMustBeStackable,
    CurrencyKindRequiresCurrencyFlag,
    CurrencyRequiresCurrencyKind,
}

impl OwnershipError {
    pub open spec fn message_spec(self) -> Seq<char> {
        match self {
            OwnershipError::UnsupportedSkinRarity => "Unsupported skin rarity"@,
            OwnershipError::UnsupportedAssetKind => "Unsupported asset kind"@,
            OwnershipError::UnsupportedOwnershipModel => "Unsupported ownership model"@,
            OwnershipError::SystemActorWithoutServiceName => "System actor must include service name"@,
            OwnershipError::UserActorWithoutUserId => "User actor must include user id"@,
            OwnershipError::AssetKeyEmpty => "Asset key cannot be empty"@,
            OwnershipError::AssetKeyNotLowercase => "Asset key must be lowercase"@,
            OwnershipError::AssetKeyInvalidCharacters => "Asset key must contain only lowercase latin letters, numbers, underscores, and hyphens"@,
            OwnershipError::AssetKeyPatternUnavailable => "Asset key pattern could not be compiled"@,
            OwnershipError::WeaponKeyEmpty => "Weapon key cannot be empty"@,
            OwnershipError::OwnershipModelMismatch => "Ownership model mismatch"@,
            OwnershipError::CurrencyMustBeStackable => "Currency assets must use stackable ownership"@,
            OwnershipError::CurrencyKindRequiresCurrencyFlag => "Currency asset kind must set is_currency=true"@,
            OwnershipError::CurrencyRequiresCurrencyKind => "Currency assets must use currency asset kind"@,
        }
    }

    pub fn message(&self) -> (r: &'static str)
        ensures
            r@ == self.message_spec(),
    {
        match self {
            OwnershipError::UnsupportedSkinRarity => "Unsupported skin rarity",
            OwnershipError::UnsupportedAssetKind => "Unsupported asset kind",
            OwnershipError::UnsupportedOwnershipModel => "Unsupported ownership model",
            OwnershipError::SystemActorWithoutServiceName => "System actor must include service name",
            OwnershipError::UserActorWithoutUserId => "User actor must include user id",
            OwnershipError::AssetKeyEmpty => "Asset key cannot be empty",
            OwnershipError::AssetKeyNotLowercase => "Asset key must be lowercase",
            OwnershipError::AssetKeyInvalidCharacters =>
                "Asset key must contain only lowercase latin letters, numbers, underscores, and hyphens",
            OwnershipError::AssetKeyPatternUnavailable => "Asset key pattern could not be compiled",
            OwnershipError::WeaponKeyEmpty => "Weapon key cannot be empty",
            OwnershipError::OwnershipModelMismatch => "Ownership model mismatch",
            OwnershipError::CurrencyMustBeStackable => "Currency assets must use stackable ownership",
            OwnershipError::CurrencyKindRequiresCurrencyFlag =>
                "Currency asset kind must set is_currency=true",
            OwnershipError::CurrencyRequiresCurrencyKind => "Currency assets must use currency asset kind",
        }
    }
}

// ---------------------------------------------------------------------------
// Asset kinds.
// ---------------------------------------------------------------------------

#[derive(Clone, Copy, Debug, PartialEq, Eq, Structural)]
pub enum AssetKind {
    Item,
    Skin,
    Subscription,
    Cosmetic,
    Lootbox,
    Currency,
    Ticket,
    Token,
    Kit,
}

impl AssetKind {
    /// The stored name of the kind.
    pub open spec fn name(self) -> Seq<char> {
        match self {
            AssetKind::Item => "item"@,
            AssetKind::Skin => "skin"@,
            AssetKind::Subscription => "subscription"@,
            AssetKind::Cosmetic => "cosmetic"@,
            AssetKind::Lootbox => "lootbox"@,
            AssetKind::Currency => "currency"@,
            AssetKind::Ticket => "ticket"@,
            AssetKind::Token => "token"@,
            AssetKind::Kit => "kit"@,
        }
    }

    /// The kind a stored name denotes, if any.
    pub open spec fn from_name(s: Seq<char>) -> Option<AssetKind> {
        if s == "item"@ {
            Some(AssetKind::Item)
        } else if s == "skin"@ {
            Some(AssetKind::Skin)
        } else if s == "subscription"@ {
            Some(AssetKind::Subscription)
        } else if s == "cosmetic"@ {
            Some(AssetKind::Cosmetic)
        } else if s == "lootbox"@ {
            Some(AssetKind::Lootbox)
        } else if s == "currency"@ {
            Some(AssetKind::Currency)
        } else if s == "ticket"@ {
            Some(AssetKind::Ticket)
        } else if s == "token"@ {
            Some(AssetKind::Token)
        } else if s == "kit"@ {
            Some(AssetKind::Kit)
        } else {
            None
        }
    }

    pub fn as_str(&self) -> (r: &'static str)
        ensures
            r@ == self.name(),
    {
        match self {
            AssetKind::Item => "item",
            AssetKind::Skin => "skin",
            AssetKind::Subscription => "subscription",
            AssetKind::Cosmetic => "cosmetic",
            AssetKind::Lootbox => "lootbox",
            AssetKind::Currency => "currency",
            AssetKind::Ticket => "ticket",
            AssetKind::Token => "token",
            AssetKind::Kit => "kit",
        }
    }

    pub fn parse(value: &str) -> (r: Result<AssetKind, OwnershipError>)
        ensures
            match r {
                Ok(k) => AssetKind::from_name(value@) == Some(k),
                Err(e) => AssetKind::from_name(value@) is None && e
                    == OwnershipError::UnsupportedAssetKind,
            },
    {
        if str_equal(value, "item") {
            Ok(AssetKind::Item)
        } else if str_equal(value, "skin") {
            Ok(AssetKind::Skin)
        } else if str_equal(value, "subscription") {
            Ok(AssetKind::Subscription)
        } else if str_equal(value, "cosmetic") {
            Ok(AssetKind::Cosmetic)
        } else if str_equal(value, "lootbox") {
            Ok(AssetKind::Lootbox)
        } else if str_equal(value, "currency") {
            Ok(AssetKind::Currency)
        } else if str_equal(value, "ticket") {
            Ok(AssetKind::Ticket)
        } else if str_equal(value, "token") {
            Ok(AssetKind::Token)
        } else if str_equal(value, "kit") {
            Ok(AssetKind::Kit)
        } else {
            Err(OwnershipError::UnsupportedAssetKind)
        }
    }
}

/// Parsing the stored name of a kind gives the kind back.
pub proof fn lemma_asset_kind_round_trip(k: AssetKind)
    ensures
        AssetKind::from_name(k.name()) == Some(k),
{
    reveal_strlit("item");
    reveal_strlit("skin");
    reveal_strlit("subscription");
    reveal_strlit("cosmetic");
    reveal_strlit("lootbox");
    reveal_strlit("currency");
    reveal_strlit("ticket");
    reveal_strlit("token");
    reveal_strlit("kit");
    match k {
        AssetKind::Item => {
        },
        AssetKind::Skin => {
            assert("skin"@[0] != "item"@[0]);
        },
        AssetKind::Subscription => {
            assert("subscription"@[0] != "item"@[0]);
            assert("subscription"@[1] != "skin"@[1]);
        },
        AssetKind::Cosmetic => {
            assert("cosmetic"@[0] != "item"@[0]);
            assert("cosmetic"@[0] != "skin"@[0]);
            assert("cosmetic"@[0] != "subscription"@[0]);
        },
        AssetKind::Lootbox => {
            assert("lootbox"@[0] != "item"@[0]);
            assert("lootbox"@[0] != "skin"@[0]);
            assert("lootbox"@[0] != "subscription"@[0]);
            assert("lootbox"@[0] != "cosmetic"@[0]);
        },
        AssetKind::Currency => {
            assert("currency"@[0] != "item"@[0]);
            assert("currency"@[0] != "skin"@[0]);
            assert("currency"@[0] != "subscription"@[0]);
            assert("currency"@[1] != "cosmetic"@[1]);
            assert("currency"@[0] != "lootbox"@[0]);
        },
        AssetKind::Ticket => {
            assert("ticket"@[0] != "item"@[0]);
            assert("ticket"@[0] != "skin"@[0]);
            assert("ticket"@[0] != "subscription"@[0]);
            assert("ticket"@[0] != "cosmetic"@[0]);
            assert("ticket"@[0] != "lootbox"@[0]);
            assert("ticket"@[0] != "currency"@[0]);
        },
        AssetKind::Token => {
            assert("token"@[0] != "item"@[0]);
            assert("token"@[0] != "skin"@[0]);
            assert("token"@[0] != "subscription"@[0]);
            assert("token"@[0] != "cosmetic"@[0]);
            assert("token"@[0] != "lootbox"@[0]);
            assert("token"@[0] != "currency"@[0]);
            assert("token"@[1] != "ticket"@[1]);
        },
        AssetKind::Kit => {
            assert("kit"@[0] != "item"@[0]);
            assert("kit"@[0] != "skin"@[0]);
            assert("kit"@[0] != "subscription"@[0]);
            assert("kit"@[0] != "cosmetic"@[0]);
            assert("kit"@[0] != "lootbox"@[0]);
            assert("kit"@[0] != "currency"@[0]);
            assert("kit"@[0] != "ticket"@[0]);
            assert("kit"@[0] != "token"@[0]);
        },
    }
}

// ---------------------------------------------------------------------------
// Skin rarities.
// ---------------------------------------------------------------------------

#[derive(Clone, Copy, Debug, PartialEq, Eq, Structural)]
pub enum SkinRarity {
    Common,
    Rare,
    Legendary,
}

impl SkinRarity {
    pub open spec fn name(self) -> Seq<char> {
        match self {
            SkinRarity::Common => "common"@,
            SkinRarity::Rare => "rare"@,
            SkinRarity::Legendary => "legendary"@,
        }
    }

    pub open spec fn from_name(s: Seq<char>) -> Option<SkinRarity> {
        if s == "common"@ {
            Some(SkinRarity::Common)
        } else if s == "rare"@ {
            Some(SkinRarity::Rare)
        } else if s == "legendary"@ {
            Some(SkinRarity::Legendary)
        } else {
            None
        }
    }

    pub fn as_str(&self) -> (r: &'static str)
        ensures
            r@ == self.name(),
    {
        match self {
            SkinRarity::Common => "common",
            SkinRarity::Rare => "rare",
            SkinRarity::Legendary => "legendary",
        }
    }

    pub fn parse(value: &str) -> (r: Result<SkinRarity, OwnershipError>)
        ensures
            match r {
                Ok(k) => SkinRarity::from_name(value@) == Some(k),
                Err(e) => SkinRarity::from_name(value@) is None && e
                    == OwnershipError::UnsupportedSkinRarity,
            },
    {
        if str_equal(value, "common") {
            Ok(SkinRarity::Common)
        } else if str_equal(value, "rare") {
            Ok(SkinRarity::Rare)
        } else if str_equal(value, "legendary") {
            Ok(SkinRarity::Legendary)
        } else {
            Err(OwnershipError::UnsupportedSkinRarity)
        }
    }
}

/// Parsing the stored name of a rarity gives the rarity back.
pub proof fn lemma_skin_rarity_round_trip(k: SkinRarity)
    ensures
        SkinRarity::from_name(k.name()) == Some(k),
{
    reveal_strlit("common");
    reveal_strlit("rare");
    reveal_strlit("legendary");
    match k {
        SkinRarity::Common => {
        },
        SkinRarity::Rare => {
            assert("rare"@[0] != "common"@[0]);
        },
        SkinRarity::Legendary => {
            assert("legendary"@[0] != "common"@[0]);
            assert("legendary"@[0] != "rare"@[0]);
        },
    }
}

// ---------------------------------------------------------------------------
// Ownership models.
// ---------------------------------------------------------------------------

#[derive(Clone, Copy, Debug, PartialEq, Eq, Structural)]
pub enum OwnershipModel {
    Stackable,
    Entitlement,
    Expirable,
}

impl OwnershipModel {
    pub open spec fn name(self) -> Seq<char> {
        match self {
            OwnershipModel::Stackable => "stackable"@,
            OwnershipModel::Entitlement => "entitlement"@,
            OwnershipModel::Expirable => "expirable"@,
        }
    }

    pub open spec fn from_name(s: Seq<char>) -> Option<OwnershipModel> {
        if s == "stackable"@ {
            Some(OwnershipModel::Stackable)
        } else if s == "entitlement"@ {
            Some(OwnershipModel::Entitlement)
        } else if s == "expirable"@ {
            Some(OwnershipModel::Expirable)
        } else {
            None
        }
    }

    pub fn as_str(&self) -> (r: &'static str)
        ensures
            r@ == self.name(),
    {
        match self {
            OwnershipModel::Stackable => "stackable",
            OwnershipModel::Entitlement => "entitlement",
            OwnershipModel::Expirable => "expirable",
        }
    }

    pub fn parse(value: &str) -> (r: Result<OwnershipModel, OwnershipError>)
        ensures
            match r {
                Ok(k) => OwnershipModel::from_name(value@) == Some(k),
                Err(e) => OwnershipModel::from_name(value@) is None && e
                    == OwnershipError::UnsupportedOwnershipModel,
            },
    {
        if str_equal(value, "stackable") {
            Ok(OwnershipModel::Stackable)
        } else if str_equal(value, "entitlement") {
            Ok(OwnershipModel::Entitlement)
        } else if str_equal(value, "expirable") {
            Ok(OwnershipModel::Expirable)
        } else {
            Err(OwnershipError::UnsupportedOwnershipModel)
        }
    }
}

/// Parsing the stored name of an ownership model gives the model back.
pub proof fn lemma_ownership_model_round_trip(k: OwnershipModel)
    ensures
        OwnershipModel::from_name(k.name()) == Some(k),
{
    reveal_strlit("stackable");
    reveal_strlit("entitlement");
    reveal_strlit("expirable");
    match k {
        OwnershipModel::Stackable => {
        },
        OwnershipModel::Entitlement => {
            assert("entitlement"@[0] != "stackable"@[0]);
        },
        OwnershipModel::Expirable => {
            assert("expirable"@[0] != "stackable"@[0]);
            assert("expirable"@[1] != "entitlement"@[1]);
        },
    }
}

// ---------------------------------------------------------------------------
// Actors.
// ---------------------------------------------------------------------------

#[derive(Clone, Copy, Debug, PartialEq, Eq, Structural)]
pub enum OwnershipActorKind {
    System,
    User,
    Admin,
}

impl OwnershipActorKind {
    pub open spec fn name(self) -> Seq<char> {
        match self {
            OwnershipActorKind::System => "system"@,
            OwnershipActorKind::User => "user"@,
            OwnershipActorKind::Admin => "admin"@,
        }
    }

    pub fn as_str(&self) -> (r: &'static str)
        ensures
            r@ == self.name(),
    {
        match self {
            OwnershipActorKind::System => "system",
            OwnershipActorKind::User => "user",
            OwnershipActorKind::Admin => "admin",
        }
    }
}

/// Who performs an ownership operation: a service (by name) or a user or an
/// administrator (by user id).
#[derive(Clone, Debug)]
pub struct OwnershipActor {
    pub kind: OwnershipActorKind,
    pub user_id: Option<u128>,
    pub service_name: Option<String>,
}

impl OwnershipActor {
    /// The actor is well formed: a service names itself, a user or an
    /// administrator carries a user id.
    pub open spec fn is_valid(&self) -> bool {
        match self.kind {
            OwnershipActorKind::System => match self.service_name {
                Some(name) => !is_blank(name@),
                None => false,
            },
            _ => self.user_id is Some,
        }
    }

    pub fn admin(user_id: u128) -> (r: OwnershipActor)
        ensures
            r.kind == OwnershipActorKind::Admin,
            r.user_id == Some(user_id),
            r.service_name is None,
    {
        OwnershipActor { kind: OwnershipActorKind::Admin, user_id: Some(user_id), service_name: None }
    }

    pub fn user(user_id: u128) -> (r: OwnershipActor)
        ensures
            r.kind == OwnershipActorKind::User,
            r.user_id == Some(user_id),
            r.service_name is None,
    {
        OwnershipActor { kind: OwnershipActorKind::User, user_id: Some(user_id), service_name: None }
    }

    pub fn system(service_name: &str) -> (r: OwnershipActor)
        ensures
            r.kind == OwnershipActorKind::System,
            r.user_id is None,
            r.service_name matches Some(name) && name@ == service_name@,
    {
        OwnershipActor {
            kind: OwnershipActorKind::System,
            user_id: None,
            service_name: Some(service_name.to_string()),
        }
    }

    pub fn validate(&self) -> (r: Result<(), OwnershipError>)
        ensures
            r is Ok <==> self.is_valid(),
            r matches Err(e) ==> e == (if self.kind == OwnershipActorKind::System {
                OwnershipError::SystemActorWithoutServiceName
            } else {
                OwnershipError::UserActorWithoutUserId
            }),
    {
        match self.kind {
            OwnershipActorKind::System => {
                let blank: bool = match &self.service_name {
                    Some(name) => is_blank_str(name.as_str()),
                    None => true,
                };
                if blank {
                    return Err(OwnershipError::SystemActorWithoutServiceName);
                }
            },
            OwnershipActorKind::User | OwnershipActorKind::Admin => {
                if self.user_id.is_none() {
                    return Err(OwnershipError::UserActorWithoutUserId);
                }
            },
        }
        Ok(())
    }
}

/// An actor built for a user or an administrator is valid, and a service
/// actor is valid exactly when its name is not blank.
pub proof fn lemma_actor_constructors_valid(user_id: u128, service_name: Seq<char>)
    ensures
        (OwnershipActor { kind: OwnershipActorKind::Admin, user_id: Some(user_id), service_name: None }).is_valid(),
        (OwnershipActor { kind: OwnershipActorKind::User, user_id: Some(user_id), service_name: None }).is_valid(),
        forall|s: String| s@ == service_name ==> ((OwnershipActor {
            kind: OwnershipActorKind::System,
            user_id: None,
            service_name: Some(s),
        }).is_valid() <==> !is_blank(service_name)),
{
}

// ---------------------------------------------------------------------------
// Keys.
// ---------------------------------------------------------------------------

/// What `validate_asset_key` accepts, given the trimmed key `t`: not empty,
/// unchanged by lower-casing, and matched by the asset key pattern.
pub open spec fn asset_key_outcome(key: Seq<char>) -> Result<Seq<char>, OwnershipError> {
    let t = trim_spec(key);
    if t.len() == 0 {
        Err(OwnershipError::AssetKeyEmpty)
    } else if t != lowercase_of(t) {
        Err(OwnershipError::AssetKeyNotLowercase)
    } else if !pattern_compiles(ASSET_KEY_PATTERN@) {
        Err(OwnershipError::AssetKeyPatternUnavailable)
    } else if !pattern_matches(ASSET_KEY_PATTERN@, t) {
        Err(OwnershipError::AssetKeyInvalidCharacters)
    } else {
        Ok(t)
    }
}

pub open spec fn result_view(r: Result<String, OwnershipError>) -> Result<Seq<char>, OwnershipError> {
    match r {
        Ok(s) => Ok(s@),
        Err(e) => Err(e),
    }
}

/// Normalizes and checks an asset key: trimmed, non-empty, lower case and
/// made of `[a-z0-9_-]`.
pub fn validate_asset_key(key: &str) -> (r: Result<String, OwnershipError>)
    ensures
        result_view(r) == asset_key_outcome(key@),
{
    let normalized = trim(key);
    if is_blank_str(normalized.as_str()) {
        proof {
            crate::text::lemma_trim_empty_iff_blank(normalized@);
            assert(trim_spec(key@).len() == 0) by {
                if trim_spec(key@).len() > 0 {
                    crate::text::lemma_trimmed_not_blank(key@);
                }
            }
        }
        return Err(OwnershipError::AssetKeyEmpty);
    }
    proof {
        assert(normalized@.len() > 0);
    }
    let lowered = to_lowercase(normalized.as_str());
    if !str_equal(normalized.as_str(), lowered.as_str()) {
        return Err(OwnershipError::AssetKeyNotLowercase);
    }
    match regex_matches(ASSET_KEY_PATTERN, normalized.as_str()) {
        Err(_) => Err(OwnershipError::AssetKeyPatternUnavailable),
        Ok(false) => Err(OwnershipError::AssetKeyInvalidCharacters),
        Ok(true) => Ok(normalized),
    }
}

/// Normalizes a weapon key: the trimmed text, which must not be empty.
pub fn validate_weapon_key(value: &str) -> (r: Result<String, OwnershipError>)
    ensures
        match r {
            Ok(s) => s@ == trim_spec(value@) && s@.len() > 0,
            Err(e) => trim_spec(value@).len() == 0 && e == OwnershipError::WeaponKeyEmpty,
        },
{
    let normalized = trim(value);
    if normalized.as_str().unicode_len() == 0 {
        return Err(OwnershipError::WeaponKeyEmpty);
    }
    Ok(normalized)
}

// ---------------------------------------------------------------------------
// Asset definitions.
// ---------------------------------------------------------------------------

/// The stored definition of an asset, as the services read it.
#[derive(Clone, Debug)]
pub struct AssetDefinitionRecord {
    pub id: u128,
    pub key: String,
    pub display_name: String,
    pub description: Option<String>,
    pub asset_kind: String,
    pub ownership_model: String,
    pub is_currency: bool,
    pub is_user_purchasable: bool,
    pub is_public: bool,
    pub is_active: bool,
    pub weapon_key: Option<String>,
    pub rarity: Option<String>,
}

/// The currency flag, kind and ownership model of an asset agree: currencies
/// are stackable assets of the currency kind, and only currencies have that
/// kind.
pub open spec fn type_compatibility_outcome(
    is_currency: bool,
    asset_kind: AssetKind,
    ownership_model: OwnershipModel,
) -> Result<(), OwnershipError> {
    if is_currency && ownership_model != OwnershipModel::Stackable {
        Err(OwnershipError::CurrencyMustBeStackable)
    } else if asset_kind == AssetKind::Currency && !is_currency {
        Err(OwnershipError::CurrencyKindRequiresCurrencyFlag)
    } else if is_currency && asset_kind != AssetKind::Currency {
        Err(OwnershipError::CurrencyRequiresCurrencyKind)
    } else {
        Ok(())
    }
}

pub fn validate_asset_type_compatibility(
    is_currency: bool,
    asset_kind: &AssetKind,
    ownership_model: &OwnershipModel,
) -> (r: Result<(), OwnershipError>)
    ensures
        r == type_compatibility_outcome(is_currency, *asset_kind, *ownership_model),
{
    if is_currency && *ownership_model != OwnershipModel::Stackable {
        return Err(OwnershipError::CurrencyMustBeStackable);
    }
    if *asset_kind == AssetKind::Currency && !is_currency {
        return Err(OwnershipError::CurrencyKindRequiresCurrencyFlag);
    }
    if is_currency && *asset_kind != AssetKind::Currency {
        return Err(OwnershipError::CurrencyRequiresCurrencyKind);
    }
    Ok(())
}

/// The ownership model stored on an asset definition.
pub fn parse_ownership_model(asset: &AssetDefinitionRecord) -> (r: Result<
    OwnershipModel,
    OwnershipError,
>)
    ensures
        match r {
            Ok(m) => OwnershipModel::from_name(asset.ownership_model@) == Some(m),
            Err(e) => OwnershipModel::from_name(asset.ownership_model@) is None && e
                == OwnershipError::UnsupportedOwnershipModel,
        },
{
    OwnershipModel::parse(asset.ownership_model.as_str())
}

/// The asset uses the expected ownership model.
pub fn ensure_ownership_model(asset: &AssetDefinitionRecord, expected: OwnershipModel) -> (r: Result<
    (),
    OwnershipError,
>)
    ensures
        match OwnershipModel::from_name(asset.ownership_model@) {
            None => r == Err::<(), OwnershipError>(OwnershipError::UnsupportedOwnershipModel),
            Some(m) => r == (if m == expected {
                Ok::<(), OwnershipError>(())
            } else {
                Err(OwnershipError::OwnershipModelMismatch)
            }),
        },
{
    let actual = parse_ownership_model(asset)?;
    if actual != expected {
        return Err(OwnershipError::OwnershipModelMismatch);
    }
    Ok(())
}

/// Asset metadata: missing or null reads as an empty object.
pub fn normalize_metadata(metadata: Option<JsonValue>) -> (r: JsonValue)
    ensures
        match metadata {
            Some(v) => if json_view(v) == JsonModel::Null {
                json_view(r) == JsonModel::Object(Seq::empty())
            } else {
                json_view(r) == json_view(v)
            },
            None => json_view(r) == JsonModel::Object(Seq::empty()),
        },
{
    match metadata {
        Some(JsonValue::Null) | None => {
            let members: Vec<(String, JsonValue)> = Vec::new();
            let v = JsonValue::Object(members);
            proof {
                match json_view(v) {
                    JsonModel::Object(ms) => {
                        assert(ms =~= Seq::empty());
                    },
                    _ => {},
                }
            }
            v
        },
        Some(v) => v,
    }
}

/// The key of the service's default coin, the currency that compensates a
/// duplicate reward.
pub const DEFAULT_COIN_ASSET_KEY: &'static str = "coin_default";

pub open spec fn system_asset_problem(
    key: Seq<char>,
    kind: AssetKind,
    model: OwnershipModel,
    is_currency: bool,
    found_kind: AssetKind,
    found_model: OwnershipModel,
    found_currency: bool,
) -> Option<Seq<char>> {
    if found_kind != kind {
        Some("System asset '"@ + key + "' must keep asset_kind='"@ + kind.name() + "', found '"@ + found_kind.name()
            + "'"@)
    } else if found_model != model {
        Some("System asset '"@ + key + "' must keep ownership_model='"@ + model.name() + "', found '"@
            + found_model.name() + "'"@)
    } else if found_currency != is_currency {
        Some("System asset '"@ + key + "' must keep is_currency='"@ + bool_name(is_currency) + "', found '"@
            + bool_name(found_currency) + "'"@)
    } else {
        None
    }
}

pub open spec fn bool_name(b: bool) -> Seq<char> {
    if b {
        "true"@
    } else {
        "false"@
    }
}

fn bool_str(b: bool) -> (r: &'static str)
    ensures
        r@ == bool_name(b),
{
    if b {
        "true"
    } else {
        "false"
    }
}

fn mismatch_text(key: &str, field: &str, expected: &str, found: &str) -> (r: String)
    ensures
        r@ == "System asset '"@ + key@ + "' must keep "@ + field@ + "='"@ + expected@ + "', found '"@ + found@ + "'"@,
{
    let mut out: Vec<char> = Vec::new();
    push_str(&mut out, "System asset '");
    push_str(&mut out, key);
    push_str(&mut out, "' must keep ");
    push_str(&mut out, field);
    push_str(&mut out, "='");
    push_str(&mut out, expected);
    push_str(&mut out, "', found '");
    push_str(&mut out, found);
    push_str(&mut out, "'");
    assert(out@ =~= "System asset '"@ + key@ + "' must keep "@ + field@ + "='"@ + expected@ + "', found '"@ + found@
        + "'"@);
    string_of(out.as_slice())
}

/// A system asset found stored keeps the kind, ownership model and currency
/// flag it is required to have.
pub fn validate_system_asset_invariants(
    key: &str,
    kind: AssetKind,
    model: OwnershipModel,
    is_currency: bool,
    found_kind: AssetKind,
    found_model: OwnershipModel,
    found_currency: bool,
) -> (r: Result<(), String>)
    ensures
        match system_asset_problem(key@, kind, model, is_currency, found_kind, found_model, found_currency) {
            Some(t) => r matches Err(e) && e@ == t,
            None => r is Ok,
        },
{
    proof {
        reveal_strlit("System asset '");
        reveal_strlit("' must keep ");
        reveal_strlit("asset_kind");
        reveal_strlit("ownership_model");
        reveal_strlit("is_currency");
        reveal_strlit("='");
        reveal_strlit("' must keep asset_kind='");
        reveal_strlit("' must keep ownership_model='");
        reveal_strlit("' must keep is_currency='");
    }
    if found_kind != kind {
        let r = mismatch_text(key, "asset_kind", kind.as_str(), found_kind.as_str());
        assert("' must keep "@ + "asset_kind"@ + "='"@ =~= "' must keep asset_kind='"@);
        assert(r@ =~= "System asset '"@ + key@ + "' must keep asset_kind='"@ + kind.name() + "', found '"@
            + found_kind.name() + "'"@);
        return Err(r);
    }
    if found_model != model {
        let r = mismatch_text(key, "ownership_model", model.as_str(), found_model.as_str());
        assert("' must keep "@ + "ownership_model"@ + "='"@ =~= "' must keep ownership_model='"@);
        assert(r@ =~= "System asset '"@ + key@ + "' must keep ownership_model='"@ + model.name() + "', found '"@
            + found_model.name() + "'"@);
        return Err(r);
    }
    if found_currency != is_currency {
        let r = mismatch_text(key, "is_currency", bool_str(is_currency), bool_str(found_currency));
        assert("' must keep "@ + "is_currency"@ + "='"@ =~= "' must keep is_currency='"@);
        assert(r@ =~= "System asset '"@ + key@ + "' must keep is_currency='"@ + bool_name(is_currency) + "', found '"@
            + bool_name(found_currency) + "'"@);
        return Err(r);
    }
    Ok(())
}

} // verus!
