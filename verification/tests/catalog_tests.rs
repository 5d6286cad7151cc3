use svo_backend::lootbox::{
    check_open_request, localize_title, plan_reward, primary_language_of, validate_drop_payload, validate_reward_asset,
    validate_feed_length, validate_lootbox_asset, LootboxError, RewardAction, TitleTranslations,
};
use svo_backend::ledger::wallet_credit;
use svo_backend::lootbox::{reward_application, reward_credit, selected_reward};
use svo_backend::ownership::{AssetDefinitionRecord, OwnershipActor, OwnershipModel, DEFAULT_COIN_ASSET_KEY};
use svo_backend::shop_catalog::{
    check_stackable_limit, ensure_product_is_sellable, granted_quantity, validate_order_quantity,
    validate_price_rub, validate_reward_configuration,
};
use svo_backend::shop_locale::{normalize_locale_inputs, ProductLocaleInput};
use svo_backend::shop_order::ProblemKind;

fn asset(kind: &str, model: &str, currency: bool, active: bool) -> AssetDefinitionRecord {
    AssetDefinitionRecord {
        id: 7,
        key: "box".to_string(),
        display_name: "Box".to_string(),
        description: None,
        asset_kind: kind.to_string(),
        ownership_model: model.to_string(),
        is_currency: currency,
        is_user_purchasable: true,
        is_public: true,
        is_active: active,
        weapon_key: None,
        rarity: None,
    }
}

#[test]
fn lootbox_assets_are_active_stackable_lootboxes() {
    assert_eq!(validate_lootbox_asset(&asset("lootbox", "stackable", false, true)), Ok(()));
    assert_eq!(validate_lootbox_asset(&asset("lootbox", "stackable", false, false)), Err(LootboxError::AssetInactive));
    assert_eq!(validate_lootbox_asset(&asset("item", "stackable", false, true)), Err(LootboxError::NotLootboxKind));
    assert_eq!(
        validate_lootbox_asset(&asset("lootbox", "entitlement", false, true)),
        Err(LootboxError::LootboxNotStackable)
    );
}

#[test]
fn drop_payloads_match_the_reward_model() {
    let reward = asset("item", "stackable", false, true);
    assert_eq!(validate_drop_payload(&reward, OwnershipModel::Stackable, Some(2), None, None, 5), Ok(()));
    assert_eq!(
        validate_drop_payload(&reward, OwnershipModel::Stackable, Some(2), None, None, 0),
        Err(LootboxError::WeightNotPositive)
    );
    assert_eq!(
        validate_drop_payload(&reward, OwnershipModel::Stackable, None, None, None, 1),
        Err(LootboxError::StackableAmountRequired)
    );
    assert_eq!(
        validate_drop_payload(&reward, OwnershipModel::Stackable, Some(1), Some(5), None, 1),
        Err(LootboxError::DurationNotAllowedForStackable)
    );
    let expirable = asset("subscription", "expirable", false, true);
    assert_eq!(
        validate_drop_payload(&expirable, OwnershipModel::Expirable, None, None, None, 1),
        Err(LootboxError::DurationRequired)
    );
    let inactive = asset("item", "stackable", false, false);
    assert_eq!(validate_reward_asset(&inactive), Err(LootboxError::RewardAssetInactive));
}

#[test]
fn rewards_are_planned_by_model_and_ownership() {
    assert_eq!(
        plan_reward(true, OwnershipModel::Stackable, Some(10), None, None, false),
        Ok(RewardAction::CreditCurrency { amount: 10 })
    );
    assert_eq!(
        plan_reward(false, OwnershipModel::Expirable, None, Some(60), None, false),
        Ok(RewardAction::ProlongExpirable { duration_seconds: 60 })
    );
    assert_eq!(
        plan_reward(false, OwnershipModel::Entitlement, None, None, Some(5), true),
        Ok(RewardAction::CompensateDuplicate { amount: 5 })
    );
    assert_eq!(
        plan_reward(false, OwnershipModel::Entitlement, None, None, None, false),
        Ok(RewardAction::GrantEntitlement)
    );
    assert_eq!(
        plan_reward(false, OwnershipModel::Entitlement, None, None, None, true),
        Err(LootboxError::MissingCompensationAmount)
    );
    assert_eq!(
        plan_reward(false, OwnershipModel::Stackable, None, None, None, false),
        Err(LootboxError::MissingStackableAmount)
    );
}

#[test]
fn feeds_are_one_to_two_hundred_long() {
    assert_eq!(validate_feed_length(Some(1)), Ok(1));
    assert_eq!(validate_feed_length(Some(200)), Ok(200));
    assert_eq!(validate_feed_length(Some(0)), Err(LootboxError::FeedLengthOutOfRange));
    assert_eq!(validate_feed_length(Some(201)), Err(LootboxError::FeedLengthOutOfRange));
    assert_eq!(LootboxError::FeedLengthOutOfRange.message(), "feedLength must be between 1 and 200");
    let user = OwnershipActor::user(5);
    assert!(check_open_request(&user, "box", Some(10)).is_ok());
}

#[test]
fn titles_follow_locale_then_language_then_english() {
    let titles = TitleTranslations::Object(vec![
        ("de".to_string(), Some("Kiste".to_string())),
        ("en".to_string(), Some("Box".to_string())),
        ("ru-RU".to_string(), Some("Ящик".to_string())),
    ]);
    assert_eq!(localize_title(&titles, Some("ru-RU"), "fallback"), "Ящик");
    assert_eq!(localize_title(&titles, Some("de-AT"), "fallback"), "Kiste");
    assert_eq!(localize_title(&titles, Some("fr"), "fallback"), "Box");
    assert_eq!(localize_title(&TitleTranslations::NotAnObject, Some("fr"), "fallback"), "fallback");
    assert_eq!(primary_language_of("pt-BR"), "pt");
}

#[test]
fn shop_reward_configurations_are_checked() {
    assert!(validate_reward_configuration(OwnershipModel::Stackable, Some(5), None, Some(3), Some(10)).is_ok());
    let err = validate_reward_configuration(OwnershipModel::Stackable, None, None, None, None).unwrap_err();
    assert_eq!(err.kind, ProblemKind::BadRequest);
    assert_eq!(err.message, "stackable_amount is required for stackable products");
    let err = validate_reward_configuration(OwnershipModel::Expirable, None, None, None, None).unwrap_err();
    assert_eq!(err.message, "durationSeconds is required for subscription products");
    assert!(validate_reward_configuration(OwnershipModel::Entitlement, None, None, None, None).is_ok());
}

#[test]
fn prices_windows_and_quantities() {
    assert_eq!(validate_price_rub(100).unwrap(), 100);
    assert!(validate_price_rub(0).is_err());
    assert!(ensure_product_is_sellable(true, true, None, None, 5).is_ok());
    assert!(ensure_product_is_sellable(false, true, None, None, 5).is_err());
    assert!(ensure_product_is_sellable(true, true, Some(10), None, 5).is_err());
    assert!(validate_order_quantity(OwnershipModel::Stackable, Some(3), 3).is_ok());
    assert!(validate_order_quantity(OwnershipModel::Stackable, Some(3), 4).is_err());
    assert!(validate_order_quantity(OwnershipModel::Entitlement, None, 2).is_err());
    assert_eq!(granted_quantity(Some(5), 3, "missing", "overflow").unwrap(), 15);
    assert_eq!(granted_quantity(Some(i64::MAX), 2, "missing", "overflow").unwrap_err().message, "overflow");
    assert_eq!(granted_quantity(None, 2, "missing", "overflow").unwrap_err().message, "missing");
    assert!(check_stackable_limit(5, 5, Some(10)).is_ok());
    assert!(check_stackable_limit(6, 5, Some(10)).is_err());
}

#[test]
fn product_locales_are_normalized_and_unique() {
    let input = |locale: &str, name: &str| ProductLocaleInput {
        locale: locale.to_string(),
        name: name.to_string(),
        description: None,
    };
    let ok = normalize_locale_inputs(vec![input("ru", "Ящик"), input("en", "Box")]).expect("locales");
    assert_eq!(ok.len(), 2);
    let dup = normalize_locale_inputs(vec![input("ru", "a"), input(" RU ", "b")]).unwrap_err();
    assert_eq!(dup.message, "Duplicate locale 'ru' in shop product locales");
    let blank = normalize_locale_inputs(vec![input("ru", "  ")]).unwrap_err();
    assert_eq!(blank.message, "Localized product name for 'ru' cannot be empty");
    let none = normalize_locale_inputs(vec![]).unwrap_err();
    assert_eq!(none.message, "At least one localized shop product title is required");
}

#[test]
fn duplicate_entitlement_is_compensated_in_the_default_coin() {
    let reward = AssetDefinitionRecord { id: 11, key: "skin_gold".to_string(), ..asset("item", "entitlement", false, true) };
    let coin = AssetDefinitionRecord {
        id: 99,
        key: DEFAULT_COIN_ASSET_KEY.to_string(),
        display_name: "Default Coin".to_string(),
        ..asset("currency", "stackable", true, true)
    };
    let action = plan_reward(false, OwnershipModel::Entitlement, None, None, Some(25), true).unwrap();
    assert_eq!(action, RewardAction::CompensateDuplicate { amount: 25 });
    assert_eq!(reward_credit(action, "skin_gold"), Some(("coin_default".to_string(), 25)));
    let selected = selected_reward(&reward, OwnershipModel::Entitlement, "Gold".to_string(), None, None);
    let app = reward_application(&selected, action, None, Some(&coin)).unwrap();
    assert!(app.was_compensated);
    assert_eq!(app.granted.asset_key, "coin_default");
    assert_eq!(app.granted.asset_definition_id, 99);
    assert_eq!(app.granted.amount, Some(25));
    assert_eq!(app.granted.ownership_model, "stackable");
    assert_eq!(app.granted.title, "Duplicate compensation");
    assert_eq!(app.selected.asset_definition_id, 11);
    assert_eq!(wallet_credit(100, 25).unwrap().new_value, 125);
    assert_eq!(reward_application(&selected, action, None, None).unwrap_err(), LootboxError::DefaultCurrencyMissing);
    let granted = plan_reward(false, OwnershipModel::Entitlement, None, None, Some(25), false).unwrap();
    assert_eq!(granted, RewardAction::GrantEntitlement);
    assert_eq!(reward_credit(granted, "skin_gold"), None);
    let currency = plan_reward(true, OwnershipModel::Stackable, Some(5), None, None, false).unwrap();
    assert_eq!(reward_credit(currency, "coin_gold"), Some(("coin_gold".to_string(), 5)));
}
