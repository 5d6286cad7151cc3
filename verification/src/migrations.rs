//! Database migrations: their names, the order in which the service runs
//! them, the SQL of the migrations written as statements, and which
//! failures of such a statement are expected on an already migrated
//! database.
use vstd::prelude::*;
use crate::text::{contains, lowercase_of, str_equal, to_lowercase, contains_spec};

verus! {

/// A migration of the service's database.
#[derive(Clone, Copy, Debug, PartialEq, Eq, Structural)]
pub enum Migration {
    CreateAuthRayTable,
    AddAuthRayRegistrationColumns,
    CreateUserTable,
    CreateLittlemiceCheckTable,
    AddLittlemiceCheckScreenshot2Columns,
    AddUserSuperuserColumn,
    AddUserDeactivationReasonColumn,
    AddUserSquadIdColumn,
    CreateAuditLogTable,
    CreateSquadTable,
    CreateSquadInviteTable,
    CreateUserRestrictionTable,
    CreateAssetDefinitionTable,
    CreateUserStackableAssetTable,
    CreateUserEntitlementTable,
    CreateUserExpirableAssetTable,
    CreateInventoryOperationTable,
    CreateWalletBalanceTable,
    CreateWalletTransactionTable,
    CreateDefaultSkinTable,
    CreateServiceTokenTable,
    CreateServiceTokenAuditTable,
    CreateLootboxDefinitionTable,
    CreateLootboxDropDefinitionTable,
    CreateLootboxOpenOperationTable,
    AddLootboxRewardCompensationColumns,
    CreateShopProductTable,
    CreateShopProductLocaleTable,
    CreateShopOrderTable,
    CreateShopPaymentAttemptTable,
    AddShopOrderPaymentLifecycleColumns,
    AddShopPaymentAttemptProviderIndex,
    CreateDiscordBroadcastTable,
    CreateDiscordDeliveryTable,
    CreateEmailDeliveryTable,
    AddAssetDefinitionGunskinColumns,
    CreateUserSelectedGunskinTable,
    CreateAppKvTable,
    CreateShopReceiptTable,
    CreateMetricsTables,
}

impl Migration {
    pub open spec fn name_spec(self) -> Seq<char> {
        match self {
            Migration::CreateAuthRayTable => "m20251206_000001_create_auth_ray_table"@,
            Migration::AddAuthRayRegistrationColumns => "m20260412_000023_add_auth_ray_registration_columns"@,
            Migration::CreateUserTable => "m20251206_000002_create_user_table"@,
            Migration::CreateLittlemiceCheckTable => "m20260510_000001_create_littlemice_check_table"@,
            Migration::AddLittlemiceCheckScreenshot2Columns => "m20260510_000002_add_littlemice_check_screenshot2_columns"@,
            Migration::AddUserSuperuserColumn => "m20260407_000003_add_user_is_superuser_column"@,
            Migration::AddUserDeactivationReasonColumn => "m20260407_000004_add_user_deactivation_reason_column"@,
            Migration::AddUserSquadIdColumn => "m20260407_000006_add_user_squad_id_column"@,
            Migration::CreateAuditLogTable => "m20260407_000005_create_audit_log_table"@,
            Migration::CreateSquadTable => "m20260407_000007_create_squad_table"@,
            Migration::CreateSquadInviteTable => "m20260407_000008_create_squad_invite_table"@,
            Migration::CreateUserRestrictionTable => "m20260407_000009_create_user_restriction_table"@,
            Migration::CreateAssetDefinitionTable => "m20260408_000010_create_asset_definition_table"@,
            Migration::CreateUserStackableAssetTable => "m20260408_000011_create_user_stackable_asset_table"@,
            Migration::CreateUserEntitlementTable => "m20260408_000012_create_user_entitlement_table"@,
            Migration::CreateUserExpirableAssetTable => "m20260408_000013_create_user_expirable_asset_table"@,
            Migration::CreateInventoryOperationTable => "m20260408_000014_create_inventory_operation_table"@,
            Migration::CreateWalletBalanceTable => "m20260408_000015_create_wallet_balance_table"@,
            Migration::CreateWalletTransactionTable => "m20260408_000016_create_wallet_transaction_table"@,
            Migration::CreateDefaultSkinTable => "m20260408_000017_create_default_skin_table"@,
            Migration::CreateServiceTokenTable => "m20260408_000018_create_service_token_table"@,
            Migration::CreateServiceTokenAuditTable => "m20260408_000019_create_service_token_audit_table"@,
            Migration::CreateLootboxDefinitionTable => "m20260409_000020_create_lootbox_definition_table"@,
            Migration::CreateLootboxDropDefinitionTable => "m20260409_000021_create_lootbox_drop_definition_table"@,
            Migration::CreateLootboxOpenOperationTable => "m20260409_000022_create_lootbox_open_operation_table"@,
            Migration::AddLootboxRewardCompensationColumns => "m20260417_000036_add_lootbox_reward_compensation_columns"@,
            Migration::CreateShopProductTable => "m20260412_000024_create_shop_product_table"@,
            Migration::CreateShopProductLocaleTable => "m20260412_000025_create_shop_product_locale_table"@,
            Migration::CreateShopOrderTable => "m20260412_000026_create_shop_order_table"@,
            Migration::CreateShopPaymentAttemptTable => "m20260412_000027_create_shop_payment_attempt_table"@,
            Migration::AddShopOrderPaymentLifecycleColumns => "m20260413_000028_add_shop_order_payment_lifecycle_columns"@,
            Migration::AddShopPaymentAttemptProviderIndex => "m20260413_000029_add_shop_payment_attempt_provider_index"@,
            Migration::CreateDiscordBroadcastTable => "m20260413_000030_create_discord_broadcast_table"@,
            Migration::CreateDiscordDeliveryTable => "m20260413_000031_create_discord_delivery_table"@,
            Migration::CreateEmailDeliveryTable => "m20260419_000036_create_email_delivery_table"@,
            Migration::AddAssetDefinitionGunskinColumns => "m20260413_000032_add_asset_definition_gunskin_columns"@,
            Migration::CreateUserSelectedGunskinTable => "m20260413_000033_create_user_selected_gunskin_table"@,
            Migration::CreateAppKvTable => "m20260417_000034_create_app_kv_table"@,
            Migration::CreateShopReceiptTable => "m20260417_000035_create_shop_receipt_table"@,
            Migration::CreateMetricsTables => "m20260710_000001_create_metrics_tables"@,
        }
    }

    pub open spec fn from_name(s: Seq<char>) -> Option<Migration> {
        if s == "m20251206_000001_create_auth_ray_table"@ {
            Some(Migration::CreateAuthRayTable)
        } else if s == "m20260412_000023_add_auth_ray_registration_columns"@ {
            Some(Migration::AddAuthRayRegistrationColumns)
        } else if s == "m20251206_000002_create_user_table"@ {
            Some(Migration::CreateUserTable)
        } else if s == "m20260510_000001_create_littlemice_check_table"@ {
            Some(Migration::CreateLittlemiceCheckTable)
        } else if s == "m20260510_000002_add_littlemice_check_screenshot2_columns"@ {
            Some(Migration::AddLittlemiceCheckScreenshot2Columns)
        } else if s == "m20260407_000003_add_user_is_superuser_column"@ {
            Some(Migration::AddUserSuperuserColumn)
        } else if s == "m20260407_000004_add_user_deactivation_reason_column"@ {
            Some(Migration::AddUserDeactivationReasonColumn)
        } else if s == "m20260407_000006_add_user_squad_id_column"@ {
            Some(Migration::AddUserSquadIdColumn)
        } else if s == "m20260407_000005_create_audit_log_table"@ {
            Some(Migration::CreateAuditLogTable)
        } else if s == "m20260407_000007_create_squad_table"@ {
            Some(Migration::CreateSquadTable)
        } else if s == "m20260407_000008_create_squad_invite_table"@ {
            Some(Migration::CreateSquadInviteTable)
        } else if s == "m20260407_000009_create_user_restriction_table"@ {
            Some(Migration::CreateUserRestrictionTable)
        } else if s == "m20260408_000010_create_asset_definition_table"@ {
            Some(Migration::CreateAssetDefinitionTable)
        } else if s == "m20260408_000011_create_user_stackable_asset_table"@ {
            Some(Migration::CreateUserStackableAssetTable)
        } else if s == "m20260408_000012_create_user_entitlement_table"@ {
            Some(Migration::CreateUserEntitlementTable)
        } else if s == "m20260408_000013_create_user_expirable_asset_table"@ {
            Some(Migration::CreateUserExpirableAssetTable)
        } else if s == "m20260408_000014_create_inventory_operation_table"@ {
            Some(Migration::CreateInventoryOperationTable)
        } else if s == "m20260408_000015_create_wallet_balance_table"@ {
            Some(Migration::CreateWalletBalanceTable)
        } else if s == "m20260408_000016_create_wallet_transaction_table"@ {
            Some(Migration::CreateWalletTransactionTable)
        } else if s == "m20260408_000017_create_default_skin_table"@ {
            Some(Migration::CreateDefaultSkinTable)
        } else if s == "m20260408_000018_create_service_token_table"@ {
            Some(Migration::CreateServiceTokenTable)
        } else if s == "m20260408_000019_create_service_token_audit_table"@ {
            Some(Migration::CreateServiceTokenAuditTable)
        } else if s == "m20260409_000020_create_lootbox_definition_table"@ {
            Some(Migration::CreateLootboxDefinitionTable)
        } else if s == "m20260409_000021_create_lootbox_drop_definition_table"@ {
            Some(Migration::CreateLootboxDropDefinitionTable)
        } else if s == "m20260409_000022_create_lootbox_open_operation_table"@ {
            Some(Migration::CreateLootboxOpenOperationTable)
        } else if s == "m20260417_000036_add_lootbox_reward_compensation_columns"@ {
            Some(Migration::AddLootboxRewardCompensationColumns)
        } else if s == "m20260412_000024_create_shop_product_table"@ {
            Some(Migration::CreateShopProductTable)
        } else if s == "m20260412_000025_create_shop_product_locale_table"@ {
            Some(Migration::CreateShopProductLocaleTable)
        } else if s == "m20260412_000026_create_shop_order_table"@ {
            Some(Migration::CreateShopOrderTable)
        } else if s == "m20260412_000027_create_shop_payment_attempt_table"@ {
            Some(Migration::CreateShopPaymentAttemptTable)
        } else if s == "m20260413_000028_add_shop_order_payment_lifecycle_columns"@ {
            Some(Migration::AddShopOrderPaymentLifecycleColumns)
        } else if s == "m20260413_000029_add_shop_payment_attempt_provider_index"@ {
            Some(Migration::AddShopPaymentAttemptProviderIndex)
        } else if s == "m20260413_000030_create_discord_broadcast_table"@ {
            Some(Migration::CreateDiscordBroadcastTable)
        } else if s == "m20260413_000031_create_discord_delivery_table"@ {
            Some(Migration::CreateDiscordDeliveryTable)
        } else if s == "m20260419_000036_create_email_delivery_table"@ {
            Some(Migration::CreateEmailDeliveryTable)
        } else if s == "m20260413_000032_add_asset_definition_gunskin_columns"@ {
            Some(Migration::AddAssetDefinitionGunskinColumns)
        } else if s == "m20260413_000033_create_user_selected_gunskin_table"@ {
            Some(Migration::CreateUserSelectedGunskinTable)
        } else if s == "m20260417_000034_create_app_kv_table"@ {
            Some(Migration::CreateAppKvTable)
        } else if s == "m20260417_000035_create_shop_receipt_table"@ {
            Some(Migration::CreateShopReceiptTable)
        } else if s == "m20260710_000001_create_metrics_tables"@ {
            Some(Migration::CreateMetricsTables)
        } else {
            None
        }
    }

    /// The name recorded for the migration.
    pub fn name(&self) -> (r: &'static str)
        ensures
            r@ == self.name_spec(),
    {
        match self {
            Migration::CreateAuthRayTable => "m20251206_000001_create_auth_ray_table",
            Migration::AddAuthRayRegistrationColumns => "m20260412_000023_add_auth_ray_registration_columns",
            Migration::CreateUserTable => "m20251206_000002_create_user_table",
            Migration::CreateLittlemiceCheckTable => "m20260510_000001_create_littlemice_check_table",
            Migration::AddLittlemiceCheckScreenshot2Columns => "m20260510_000002_add_littlemice_check_screenshot2_columns",
            Migration::AddUserSuperuserColumn => "m20260407_000003_add_user_is_superuser_column",
            Migration::AddUserDeactivationReasonColumn => "m20260407_000004_add_user_deactivation_reason_column",
            Migration::AddUserSquadIdColumn => "m20260407_000006_add_user_squad_id_column",
            Migration::CreateAuditLogTable => "m20260407_000005_create_audit_log_table",
            Migration::CreateSquadTable => "m20260407_000007_create_squad_table",
            Migration::CreateSquadInviteTable => "m20260407_000008_create_squad_invite_table",
            Migration::CreateUserRestrictionTable => "m20260407_000009_create_user_restriction_table",
            Migration::CreateAssetDefinitionTable => "m20260408_000010_create_asset_definition_table",
            Migration::CreateUserStackableAssetTable => "m20260408_000011_create_user_stackable_asset_table",
            Migration::CreateUserEntitlementTable => "m20260408_000012_create_user_entitlement_table",
            Migration::CreateUserExpirableAssetTable => "m20260408_000013_create_user_expirable_asset_table",
            Migration::CreateInventoryOperationTable => "m20260408_000014_create_inventory_operation_table",
            Migration::CreateWalletBalanceTable => "m20260408_000015_create_wallet_balance_table",
            Migration::CreateWalletTransactionTable => "m20260408_000016_create_wallet_transaction_table",
            Migration::CreateDefaultSkinTable => "m20260408_000017_create_default_skin_table",
            Migration::CreateServiceTokenTable => "m20260408_000018_create_service_token_table",
            Migration::CreateServiceTokenAuditTable => "m20260408_000019_create_service_token_audit_table",
            Migration::CreateLootboxDefinitionTable => "m20260409_000020_create_lootbox_definition_table",
            Migration::CreateLootboxDropDefinitionTable => "m20260409_000021_create_lootbox_drop_definition_table",
            Migration::CreateLootboxOpenOperationTable => "m20260409_000022_create_lootbox_open_operation_table",
            Migration::AddLootboxRewardCompensationColumns => "m20260417_000036_add_lootbox_reward_compensation_columns",
            Migration::CreateShopProductTable => "m20260412_000024_create_shop_product_table",
            Migration::CreateShopProductLocaleTable => "m20260412_000025_create_shop_product_locale_table",
            Migration::CreateShopOrderTable => "m20260412_000026_create_shop_order_table",
            Migration::CreateShopPaymentAttemptTable => "m20260412_000027_create_shop_payment_attempt_table",
            Migration::AddShopOrderPaymentLifecycleColumns => "m20260413_000028_add_shop_order_payment_lifecycle_columns",
            Migration::AddShopPaymentAttemptProviderIndex => "m20260413_000029_add_shop_payment_attempt_provider_index",
            Migration::CreateDiscordBroadcastTable => "m20260413_000030_create_discord_broadcast_table",
            Migration::CreateDiscordDeliveryTable => "m20260413_000031_create_discord_delivery_table",
            Migration::CreateEmailDeliveryTable => "m20260419_000036_create_email_delivery_table",
            Migration::AddAssetDefinitionGunskinColumns => "m20260413_000032_add_asset_definition_gunskin_columns",
            Migration::CreateUserSelectedGunskinTable => "m20260413_000033_create_user_selected_gunskin_table",
            Migration::CreateAppKvTable => "m20260417_000034_create_app_kv_table",
            Migration::CreateShopReceiptTable => "m20260417_000035_create_shop_receipt_table",
            Migration::CreateMetricsTables => "m20260710_000001_create_metrics_tables",
        }
    }
}

/// Each migration has its own name: reading a name back gives its
/// migration.
pub proof fn lemma_migration_name_round_trip(k: Migration)
    ensures
        Migration::from_name(k.name_spec()) == Some(k),
{
    reveal_strlit("m20251206_000001_create_auth_ray_table");
    reveal_strlit("m20260412_000023_add_auth_ray_registration_columns");
    reveal_strlit("m20251206_000002_create_user_table");
    reveal_strlit("m20260510_000001_create_littlemice_check_table");
    reveal_strlit("m20260510_000002_add_littlemice_check_screenshot2_columns");
    reveal_strlit("m20260407_000003_add_user_is_superuser_column");
    reveal_strlit("m20260407_000004_add_user_deactivation_reason_column");
    reveal_strlit("m20260407_000006_add_user_squad_id_column");
    reveal_strlit("m20260407_000005_create_audit_log_table");
    reveal_strlit("m20260407_000007_create_squad_table");
    reveal_strlit("m20260407_000008_create_squad_invite_table");
    reveal_strlit("m20260407_000009_create_user_restriction_table");
    reveal_strlit("m20260408_000010_create_asset_definition_table");
    reveal_strlit("m20260408_000011_create_user_stackable_asset_table");
    reveal_strlit("m20260408_000012_create_user_entitlement_table");
    reveal_strlit("m20260408_000013_create_user_expirable_asset_table");
    reveal_strlit("m20260408_000014_create_inventory_operation_table");
    reveal_strlit("m20260408_000015_create_wallet_balance_table");
    reveal_strlit("m20260408_000016_create_wallet_transaction_table");
    reveal_strlit("m20260408_000017_create_default_skin_table");
    reveal_strlit("m20260408_000018_create_service_token_table");
    reveal_strlit("m20260408_000019_create_service_token_audit_table");
    reveal_strlit("m20260409_000020_create_lootbox_definition_table");
    reveal_strlit("m20260409_000021_create_lootbox_drop_definition_table");
    reveal_strlit("m20260409_000022_create_lootbox_open_operation_table");
    reveal_strlit("m20260417_000036_add_lootbox_reward_compensation_columns");
    reveal_strlit("m20260412_000024_create_shop_product_table");
    reveal_strlit("m20260412_000025_create_shop_product_locale_table");
    reveal_strlit("m20260412_000026_create_shop_order_table");
    reveal_strlit("m20260412_000027_create_shop_payment_attempt_table");
    reveal_strlit("m20260413_000028_add_shop_order_payment_lifecycle_columns");
    reveal_strlit("m20260413_000029_add_shop_payment_attempt_provider_index");
    reveal_strlit("m20260413_000030_create_discord_broadcast_table");
    reveal_strlit("m20260413_000031_create_discord_delivery_table");
    reveal_strlit("m20260419_000036_create_email_delivery_table");
    reveal_strlit("m20260413_000032_add_asset_definition_gunskin_columns");
    reveal_strlit("m20260413_000033_create_user_selected_gunskin_table");
    reveal_strlit("m20260417_000034_create_app_kv_table");
    reveal_strlit("m20260417_000035_create_shop_receipt_table");
    reveal_strlit("m20260710_000001_create_metrics_tables");
    match k {
        Migration::CreateAuthRayTable => {
        },
        Migration::AddAuthRayRegistrationColumns => {
            assert("m20260412_000023_add_auth_ray_registration_columns"@[4] != "m20251206_000001_create_auth_ray_table"@[4]);
        },
        Migration::CreateUserTable => {
            assert("m20251206_000002_create_user_table"@[15] != "m20251206_000001_create_auth_ray_table"@[15]);
            assert("m20251206_000002_create_user_table"@[4] != "m20260412_000023_add_auth_ray_registration_columns"@[4]);
        },
        Migration::CreateLittlemiceCheckTable => {
            assert("m20260510_000001_create_littlemice_check_table"@[4] != "m20251206_000001_create_auth_ray_table"@[4]);
            assert("m20260510_000001_create_littlemice_check_table"@[6] != "m20260412_000023_add_auth_ray_registration_columns"@[6]);
            assert("m20260510_000001_create_littlemice_check_table"@[4] != "m20251206_000002_create_user_table"@[4]);
        },
        Migration::AddLittlemiceCheckScreenshot2Columns => {
            assert("m20260510_000002_add_littlemice_check_screenshot2_columns"@[4] != "m20251206_000001_create_auth_ray_table"@[4]);
            assert("m20260510_000002_add_littlemice_check_screenshot2_columns"@[6] != "m20260412_000023_add_auth_ray_registration_columns"@[6]);
            assert("m20260510_000002_add_littlemice_check_screenshot2_columns"@[4] != "m20251206_000002_create_user_table"@[4]);
            assert("m20260510_000002_add_littlemice_check_screenshot2_columns"@[15] != "m20260510_000001_create_littlemice_check_table"@[15]);
        },
        Migration::AddUserSuperuserColumn => {
            assert("m20260407_000003_add_user_is_superuser_column"@[4] != "m20251206_000001_create_auth_ray_table"@[4]);
            assert("m20260407_000003_add_user_is_superuser_column"@[7] != "m20260412_000023_add_auth_ray_registration_columns"@[7]);
            assert("m20260407_000003_add_user_is_superuser_column"@[4] != "m20251206_000002_create_user_table"@[4]);
            assert("m20260407_000003_add_user_is_superuser_column"@[6] != "m20260510_000001_create_littlemice_check_table"@[6]);
            assert("m20260407_000003_add_user_is_superuser_column"@[6] != "m20260510_000002_add_littlemice_check_screenshot2_columns"@[6]);
        },
        Migration::AddUserDeactivationReasonColumn => {
            assert("m20260407_000004_add_user_deactivation_reason_column"@[4] != "m20251206_000001_create_auth_ray_table"@[4]);
            assert("m20260407_000004_add_user_deactivation_reason_column"@[7] != "m20260412_000023_add_auth_ray_registration_columns"@[7]);
            assert("m20260407_000004_add_user_deactivation_reason_column"@[4] != "m20251206_000002_create_user_table"@[4]);
            assert("m20260407_000004_add_user_deactivation_reason_column"@[6] != "m20260510_000001_create_littlemice_check_table"@[6]);
            assert("m20260407_000004_add_user_deactivation_reason_column"@[6] != "m20260510_000002_add_littlemice_check_screenshot2_columns"@[6]);
            assert("m20260407_000004_add_user_deactivation_reason_column"@[15] != "m20260407_000003_add_user_is_superuser_column"@[15]);
        },
        Migration::AddUserSquadIdColumn => {
            assert("m20260407_000006_add_user_squad_id_column"@[4] != "m20251206_000001_create_auth_ray_table"@[4]);
            assert("m20260407_000006_add_user_squad_id_column"@[7] != "m20260412_000023_add_auth_ray_registration_columns"@[7]);
            assert("m20260407_000006_add_user_squad_id_column"@[4] != "m20251206_000002_create_user_table"@[4]);
            assert("m20260407_000006_add_user_squad_id_column"@[6] != "m20260510_000001_create_littlemice_check_table"@[6]);
            assert("m20260407_000006_add_user_squad_id_column"@[6] != "m20260510_000002_add_littlemice_check_screenshot2_columns"@[6]);
            assert("m20260407_000006_add_user_squad_id_column"@[15] != "m20260407_000003_add_user_is_superuser_column"@[15]);
            assert("m20260407_000006_add_user_squad_id_column"@[15] != "m20260407_000004_add_user_deactivation_reason_column"@[15]);
        },
        Migration::CreateAuditLogTable => {
            assert("m20260407_000005_create_audit_log_table"@[4] != "m20251206_000001_create_auth_ray_table"@[4]);
            assert("m20260407_000005_create_audit_log_table"@[7] != "m20260412_000023_add_auth_ray_registration_columns"@[7]);
            assert("m20260407_000005_create_audit_log_table"@[4] != "m20251206_000002_create_user_table"@[4]);
            assert("m20260407_000005_create_audit_log_table"@[6] != "m20260510_000001_create_littlemice_check_table"@[6]);
            assert("m20260407_000005_create_audit_log_table"@[6] != "m20260510_000002_add_littlemice_check_screenshot2_columns"@[6]);
            assert("m20260407_000005_create_audit_log_table"@[15] != "m20260407_000003_add_user_is_superuser_column"@[15]);
            assert("m20260407_000005_create_audit_log_table"@[15] != "m20260407_000004_add_user_deactivation_reason_column"@[15]);
            assert("m20260407_000005_create_audit_log_table"@[15] != "m20260407_000006_add_user_squad_id_column"@[15]);
        },
        Migration::CreateSquadTable => {
            assert("m20260407_000007_create_squad_table"@[4] != "m20251206_000001_create_auth_ray_table"@[4]);
            assert("m20260407_000007_create_squad_table"@[7] != "m20260412_000023_add_auth_ray_registration_columns"@[7]);
            assert("m20260407_000007_create_squad_table"@[4] != "m20251206_000002_create_user_table"@[4]);
            assert("m20260407_000007_create_squad_table"@[6] != "m20260510_000001_create_littlemice_check_table"@[6]);
            assert("m20260407_000007_create_squad_table"@[6] != "m20260510_000002_add_littlemice_check_screenshot2_columns"@[6]);
            assert("m20260407_000007_create_squad_table"@[15] != "m20260407_000003_add_user_is_superuser_column"@[15]);
            assert("m20260407_000007_create_squad_table"@[15] != "m20260407_000004_add_user_deactivation_reason_column"@[15]);
            assert("m20260407_000007_create_squad_table"@[15] != "m20260407_000006_add_user_squad_id_column"@[15]);
            assert("m20260407_000007_create_squad_table"@[15] != "m20260407_000005_create_audit_log_table"@[15]);
        },
        Migration::CreateSquadInviteTable => {
            assert("m20260407_000008_create_squad_invite_table"@[4] != "m20251206_000001_create_auth_ray_table"@[4]);
            assert("m20260407_000008_create_squad_invite_table"@[7] != "m20260412_000023_add_auth_ray_registration_columns"@[7]);
            assert("m20260407_000008_create_squad_invite_table"@[4] != "m20251206_000002_create_user_table"@[4]);
            assert("m20260407_000008_create_squad_invite_table"@[6] != "m20260510_000001_create_littlemice_check_table"@[6]);
            assert("m20260407_000008_create_squad_invite_table"@[6] != "m20260510_000002_add_littlemice_check_screenshot2_columns"@[6]);
            assert("m20260407_000008_create_squad_invite_table"@[15] != "m20260407_000003_add_user_is_superuser_column"@[15]);
            assert("m20260407_000008_create_squad_invite_table"@[15] != "m20260407_000004_add_user_deactivation_reason_column"@[15]);
            assert("m20260407_000008_create_squad_invite_table"@[15] != "m20260407_000006_add_user_squad_id_column"@[15]);
            assert("m20260407_000008_create_squad_invite_table"@[15] != "m20260407_000005_create_audit_log_table"@[15]);
            assert("m20260407_000008_create_squad_invite_table"@[15] != "m20260407_000007_create_squad_table"@[15]);
        },
        Migration::CreateUserRestrictionTable => {
            assert("m20260407_000009_create_user_restriction_table"@[4] != "m20251206_000001_create_auth_ray_table"@[4]);
            assert("m20260407_000009_create_user_restriction_table"@[7] != "m20260412_000023_add_auth_ray_registration_columns"@[7]);
            assert("m20260407_000009_create_user_restriction_table"@[4] != "m20251206_000002_create_user_table"@[4]);
            assert("m20260407_000009_create_user_restriction_table"@[6] != "m20260510_000001_create_littlemice_check_table"@[6]);
            assert("m20260407_000009_create_user_restriction_table"@[6] != "m20260510_000002_add_littlemice_check_screenshot2_columns"@[6]);
            assert("m20260407_000009_create_user_restriction_table"@[15] != "m20260407_000003_add_user_is_superuser_column"@[15]);
            assert("m20260407_000009_create_user_restriction_table"@[15] != "m20260407_000004_add_user_deactivation_reason_column"@[15]);
            assert("m20260407_000009_create_user_restriction_table"@[15] != "m20260407_000006_add_user_squad_id_column"@[15]);
            assert("m20260407_000009_create_user_restriction_table"@[15] != "m20260407_000005_create_audit_log_table"@[15]);
            assert("m20260407_000009_create_user_restriction_table"@[15] != "m20260407_000007_create_squad_table"@[15]);
            assert("m20260407_000009_create_user_restriction_table"@[15] != "m20260407_000008_create_squad_invite_table"@[15]);
        },
        Migration::CreateAssetDefinitionTable => {
            assert("m20260408_000010_create_asset_definition_table"@[4] != "m20251206_000001_create_auth_ray_table"@[4]);
            assert("m20260408_000010_create_asset_definition_table"@[7] != "m20260412_000023_add_auth_ray_registration_columns"@[7]);
            assert("m20260408_000010_create_asset_definition_table"@[4] != "m20251206_000002_create_user_table"@[4]);
            assert("m20260408_000010_create_asset_definition_table"@[6] != "m20260510_000001_create_littlemice_check_table"@[6]);
            assert("m20260408_000010_create_asset_definition_table"@[6] != "m20260510_000002_add_littlemice_check_screenshot2_columns"@[6]);
            assert("m20260408_000010_create_asset_definition_table"@[8] != "m20260407_000003_add_user_is_superuser_column"@[8]);
            assert("m20260408_000010_create_asset_definition_table"@[8] != "m20260407_000004_add_user_deactivation_reason_column"@[8]);
            assert("m20260408_000010_create_asset_definition_table"@[8] != "m20260407_000006_add_user_squad_id_column"@[8]);
            assert("m20260408_000010_create_asset_definition_table"@[8] != "m20260407_000005_create_audit_log_table"@[8]);
            assert("m20260408_000010_create_asset_definition_table"@[8] != "m20260407_000007_create_squad_table"@[8]);
            assert("m20260408_000010_create_asset_definition_table"@[8] != "m20260407_000008_create_squad_invite_table"@[8]);
            assert("m20260408_000010_create_asset_definition_table"@[8] != "m20260407_000009_create_user_restriction_table"@[8]);
        },
        Migration::CreateUserStackableAssetTable => {
            assert("m20260408_000011_create_user_stackable_asset_table"@[4] != "m20251206_000001_create_auth_ray_table"@[4]);
            assert("m20260408_000011_create_user_stackable_asset_table"@[7] != "m20260412_000023_add_auth_ray_registration_columns"@[7]);
            assert("m20260408_000011_create_user_stackable_asset_table"@[4] != "m20251206_000002_create_user_table"@[4]);
            assert("m20260408_000011_create_user_stackable_asset_table"@[6] != "m20260510_000001_create_littlemice_check_table"@[6]);
            assert("m20260408_000011_create_user_stackable_asset_table"@[6] != "m20260510_000002_add_littlemice_check_screenshot2_columns"@[6]);
            assert("m20260408_000011_create_user_stackable_asset_table"@[8] != "m20260407_000003_add_user_is_superuser_column"@[8]);
            assert("m20260408_000011_create_user_stackable_asset_table"@[8] != "m20260407_000004_add_user_deactivation_reason_column"@[8]);
            assert("m20260408_000011_create_user_stackable_asset_table"@[8] != "m20260407_000006_add_user_squad_id_column"@[8]);
            assert("m20260408_000011_create_user_stackable_asset_table"@[8] != "m20260407_000005_create_audit_log_table"@[8]);
            assert("m20260408_000011_create_user_stackable_asset_table"@[8] != "m20260407_000007_create_squad_table"@[8]);
            assert("m20260408_000011_create_user_stackable_asset_table"@[8] != "m20260407_000008_create_squad_invite_table"@[8]);
            assert("m20260408_000011_create_user_stackable_asset_table"@[8] != "m20260407_000009_create_user_restriction_table"@[8]);
            assert("m20260408_000011_create_user_stackable_asset_table"@[15] != "m20260408_000010_create_asset_definition_table"@[15]);
        },
        Migration::CreateUserEntitlementTable => {
            assert("m20260408_000012_create_user_entitlement_table"@[4] != "m20251206_000001_create_auth_ray_table"@[4]);
            assert("m20260408_000012_create_user_entitlement_table"@[7] != "m20260412_000023_add_auth_ray_registration_columns"@[7]);
            assert("m20260408_000012_create_user_entitlement_table"@[4] != "m20251206_000002_create_user_table"@[4]);
            assert("m20260408_000012_create_user_entitlement_table"@[6] != "m20260510_000001_create_littlemice_check_table"@[6]);
            assert("m20260408_000012_create_user_entitlement_table"@[6] != "m20260510_000002_add_littlemice_check_screenshot2_columns"@[6]);
            assert("m20260408_000012_create_user_entitlement_table"@[8] != "m20260407_000003_add_user_is_superuser_column"@[8]);
            assert("m20260408_000012_create_user_entitlement_table"@[8] != "m20260407_000004_add_user_deactivation_reason_column"@[8]);
            assert("m20260408_000012_create_user_entitlement_table"@[8] != "m20260407_000006_add_user_squad_id_column"@[8]);
            assert("m20260408_000012_create_user_entitlement_table"@[8] != "m20260407_000005_create_audit_log_table"@[8]);
            assert("m20260408_000012_create_user_entitlement_table"@[8] != "m20260407_000007_create_squad_table"@[8]);
            assert("m20260408_000012_create_user_entitlement_table"@[8] != "m20260407_000008_create_squad_invite_table"@[8]);
            assert("m20260408_000012_create_user_entitlement_table"@[8] != "m20260407_000009_create_user_restriction_table"@[8]);
            assert("m20260408_000012_create_user_entitlement_table"@[15] != "m20260408_000010_create_asset_definition_table"@[15]);
            assert("m20260408_000012_create_user_entitlement_table"@[15] != "m20260408_000011_create_user_stackable_asset_table"@[15]);
        },
        Migration::CreateUserExpirableAssetTable => {
            assert("m20260408_000013_create_user_expirable_asset_table"@[4] != "m20251206_000001_create_auth_ray_table"@[4]);
            assert("m20260408_000013_create_user_expirable_asset_table"@[7] != "m20260412_000023_add_auth_ray_registration_columns"@[7]);
            assert("m20260408_000013_create_user_expirable_asset_table"@[4] != "m20251206_000002_create_user_table"@[4]);
            assert("m20260408_000013_create_user_expirable_asset_table"@[6] != "m20260510_000001_create_littlemice_check_table"@[6]);
            assert("m20260408_000013_create_user_expirable_asset_table"@[6] != "m20260510_000002_add_littlemice_check_screenshot2_columns"@[6]);
            assert("m20260408_000013_create_user_expirable_asset_table"@[8] != "m20260407_000003_add_user_is_superuser_column"@[8]);
            assert("m20260408_000013_create_user_expirable_asset_table"@[8] != "m20260407_000004_add_user_deactivation_reason_column"@[8]);
            assert("m20260408_000013_create_user_expirable_asset_table"@[8] != "m20260407_000006_add_user_squad_id_column"@[8]);
            assert("m20260408_000013_create_user_expirable_asset_table"@[8] != "m20260407_000005_create_audit_log_table"@[8]);
            assert("m20260408_000013_create_user_expirable_asset_table"@[8] != "m20260407_000007_create_squad_table"@[8]);
            assert("m20260408_000013_create_user_expirable_asset_table"@[8] != "m20260407_000008_create_squad_invite_table"@[8]);
            assert("m20260408_000013_create_user_expirable_asset_table"@[8] != "m20260407_000009_create_user_restriction_table"@[8]);
            assert("m20260408_000013_create_user_expirable_asset_table"@[15] != "m20260408_000010_create_asset_definition_table"@[15]);
            assert("m20260408_000013_create_user_expirable_asset_table"@[15] != "m20260408_000011_create_user_stackable_asset_table"@[15]);
            assert("m20260408_000013_create_user_expirable_asset_table"@[15] != "m20260408_000012_create_user_entitlement_table"@[15]);
        },
        Migration::CreateInventoryOperationTable => {
            assert("m20260408_000014_create_inventory_operation_table"@[4] != "m20251206_000001_create_auth_ray_table"@[4]);
            assert("m20260408_000014_create_inventory_operation_table"@[7] != "m20260412_000023_add_auth_ray_registration_columns"@[7]);
            assert("m20260408_000014_create_inventory_operation_table"@[4] != "m20251206_000002_create_user_table"@[4]);
            assert("m20260408_000014_create_inventory_operation_table"@[6] != "m20260510_000001_create_littlemice_check_table"@[6]);
            assert("m20260408_000014_create_inventory_operation_table"@[6] != "m20260510_000002_add_littlemice_check_screenshot2_columns"@[6]);
            assert("m20260408_000014_create_inventory_operation_table"@[8] != "m20260407_000003_add_user_is_superuser_column"@[8]);
            assert("m20260408_000014_create_inventory_operation_table"@[8] != "m20260407_000004_add_user_deactivation_reason_column"@[8]);
            assert("m20260408_000014_create_inventory_operation_table"@[8] != "m20260407_000006_add_user_squad_id_column"@[8]);
            assert("m20260408_000014_create_inventory_operation_table"@[8] != "m20260407_000005_create_audit_log_table"@[8]);
            assert("m20260408_000014_create_inventory_operation_table"@[8] != "m20260407_000007_create_squad_table"@[8]);
            assert("m20260408_000014_create_inventory_operation_table"@[8] != "m20260407_000008_create_squad_invite_table"@[8]);
            assert("m20260408_000014_create_inventory_operation_table"@[8] != "m20260407_000009_create_user_restriction_table"@[8]);
            assert("m20260408_000014_create_inventory_operation_table"@[15] != "m20260408_000010_create_asset_definition_table"@[15]);
            assert("m20260408_000014_create_inventory_operation_table"@[15] != "m20260408_000011_create_user_stackable_asset_table"@[15]);
            assert("m20260408_000014_create_inventory_operation_table"@[15] != "m20260408_000012_create_user_entitlement_table"@[15]);
            assert("m20260408_000014_create_inventory_operation_table"@[15] != "m20260408_000013_create_user_expirable_asset_table"@[15]);
        },
        Migration::CreateWalletBalanceTable => {
            assert("m20260408_000015_create_wallet_balance_table"@[4] != "m20251206_000001_create_auth_ray_table"@[4]);
            assert("m20260408_000015_create_wallet_balance_table"@[7] != "m20260412_000023_add_auth_ray_registration_columns"@[7]);
            assert("m20260408_000015_create_wallet_balance_table"@[4] != "m20251206_000002_create_user_table"@[4]);
            assert("m20260408_000015_create_wallet_balance_table"@[6] != "m20260510_000001_create_littlemice_check_table"@[6]);
            assert("m20260408_000015_create_wallet_balance_table"@[6] != "m20260510_000002_add_littlemice_check_screenshot2_columns"@[6]);
            assert("m20260408_000015_create_wallet_balance_table"@[8] != "m20260407_000003_add_user_is_superuser_column"@[8]);
            assert("m20260408_000015_create_wallet_balance_table"@[8] != "m20260407_000004_add_user_deactivation_reason_column"@[8]);
            assert("m20260408_000015_create_wallet_balance_table"@[8] != "m20260407_000006_add_user_squad_id_column"@[8]);
            assert("m20260408_000015_create_wallet_balance_table"@[8] != "m20260407_000005_create_audit_log_table"@[8]);
            assert("m20260408_000015_create_wallet_balance_table"@[8] != "m20260407_000007_create_squad_table"@[8]);
            assert("m20260408_000015_create_wallet_balance_table"@[8] != "m20260407_000008_create_squad_invite_table"@[8]);
            assert("m20260408_000015_create_wallet_balance_table"@[8] != "m20260407_000009_create_user_restriction_table"@[8]);
            assert("m20260408_000015_create_wallet_balance_table"@[15] != "m20260408_000010_create_asset_definition_table"@[15]);
            assert("m20260408_000015_create_wallet_balance_table"@[15] != "m20260408_000011_create_user_stackable_asset_table"@[15]);
            assert("m20260408_000015_create_wallet_balance_table"@[15] != "m20260408_000012_create_user_entitlement_table"@[15]);
            assert("m20260408_000015_create_wallet_balance_table"@[15] != "m20260408_000013_create_user_expirable_asset_table"@[15]);
            assert("m20260408_000015_create_wallet_balance_table"@[15] != "m20260408_000014_create_inventory_operation_table"@[15]);
        },
        Migration::CreateWalletTransactionTable => {
            assert("m20260408_000016_create_wallet_transaction_table"@[4] != "m20251206_000001_create_auth_ray_table"@[4]);
            assert("m20260408_000016_create_wallet_transaction_table"@[7] != "m20260412_000023_add_auth_ray_registration_columns"@[7]);
            assert("m20260408_000016_create_wallet_transaction_table"@[4] != "m20251206_000002_create_user_table"@[4]);
            assert("m20260408_000016_create_wallet_transaction_table"@[6] != "m20260510_000001_create_littlemice_check_table"@[6]);
            assert("m20260408_000016_create_wallet_transaction_table"@[6] != "m20260510_000002_add_littlemice_check_screenshot2_columns"@[6]);
            assert("m20260408_000016_create_wallet_transaction_table"@[8] != "m20260407_000003_add_user_is_superuser_column"@[8]);
            assert("m20260408_000016_create_wallet_transaction_table"@[8] != "m20260407_000004_add_user_deactivation_reason_column"@[8]);
            assert("m20260408_000016_create_wallet_transaction_table"@[8] != "m20260407_000006_add_user_squad_id_column"@[8]);
            assert("m20260408_000016_create_wallet_transaction_table"@[8] != "m20260407_000005_create_audit_log_table"@[8]);
            assert("m20260408_000016_create_wallet_transaction_table"@[8] != "m20260407_000007_create_squad_table"@[8]);
            assert("m20260408_000016_create_wallet_transaction_table"@[8] != "m20260407_000008_create_squad_invite_table"@[8]);
            assert("m20260408_000016_create_wallet_transaction_table"@[8] != "m20260407_000009_create_user_restriction_table"@[8]);
            assert("m20260408_000016_create_wallet_transaction_table"@[15] != "m20260408_000010_create_asset_definition_table"@[15]);
            assert("m20260408_000016_create_wallet_transaction_table"@[15] != "m20260408_000011_create_user_stackable_asset_table"@[15]);
            assert("m20260408_000016_create_wallet_transaction_table"@[15] != "m20260408_000012_create_user_entitlement_table"@[15]);
            assert("m20260408_000016_create_wallet_transaction_table"@[15] != "m20260408_000013_create_user_expirable_asset_table"@[15]);
            assert("m20260408_000016_create_wallet_transaction_table"@[15] != "m20260408_000014_create_inventory_operation_table"@[15]);
            assert("m20260408_000016_create_wallet_transaction_table"@[15] != "m20260408_000015_create_wallet_balance_table"@[15]);
        },
        Migration::CreateDefaultSkinTable => {
            assert("m20260408_000017_create_default_skin_table"@[4] != "m20251206_000001_create_auth_ray_table"@[4]);
            assert("m20260408_000017_create_default_skin_table"@[7] != "m20260412_000023_add_auth_ray_registration_columns"@[7]);
            assert("m20260408_000017_create_default_skin_table"@[4] != "m20251206_000002_create_user_table"@[4]);
            assert("m20260408_000017_create_default_skin_table"@[6] != "m20260510_000001_create_littlemice_check_table"@[6]);
            assert("m20260408_000017_create_default_skin_table"@[6] != "m20260510_000002_add_littlemice_check_screenshot2_columns"@[6]);
            assert("m20260408_000017_create_default_skin_table"@[8] != "m20260407_000003_add_user_is_superuser_column"@[8]);
            assert("m20260408_000017_create_default_skin_table"@[8] != "m20260407_000004_add_user_deactivation_reason_column"@[8]);
            assert("m20260408_000017_create_default_skin_table"@[8] != "m20260407_000006_add_user_squad_id_column"@[8]);
            assert("m20260408_000017_create_default_skin_table"@[8] != "m20260407_000005_create_audit_log_table"@[8]);
            assert("m20260408_000017_create_default_skin_table"@[8] != "m20260407_000007_create_squad_table"@[8]);
            assert("m20260408_000017_create_default_skin_table"@[8] != "m20260407_000008_create_squad_invite_table"@[8]);
            assert("m20260408_000017_create_default_skin_table"@[8] != "m20260407_000009_create_user_restriction_table"@[8]);
            assert("m20260408_000017_create_default_skin_table"@[15] != "m20260408_000010_create_asset_definition_table"@[15]);
            assert("m20260408_000017_create_default_skin_table"@[15] != "m20260408_000011_create_user_stackable_asset_table"@[15]);
            assert("m20260408_000017_create_default_skin_table"@[15] != "m20260408_000012_create_user_entitlement_table"@[15]);
            assert("m20260408_000017_create_default_skin_table"@[15] != "m20260408_000013_create_user_expirable_asset_table"@[15]);
            assert("m20260408_000017_create_default_skin_table"@[15] != "m20260408_000014_create_inventory_operation_table"@[15]);
            assert("m20260408_000017_create_default_skin_table"@[15] != "m20260408_000015_create_wallet_balance_table"@[15]);
            assert("m20260408_000017_create_default_skin_table"@[15] != "m20260408_000016_create_wallet_transaction_table"@[15]);
        },
        Migration::CreateServiceTokenTable => {
            assert("m20260408_000018_create_service_token_table"@[4] != "m20251206_000001_create_auth_ray_table"@[4]);
            assert("m20260408_000018_create_service_token_table"@[7] != "m20260412_000023_add_auth_ray_registration_columns"@[7]);
            assert("m20260408_000018_create_service_token_table"@[4] != "m20251206_000002_create_user_table"@[4]);
            assert("m20260408_000018_create_service_token_table"@[6] != "m20260510_000001_create_littlemice_check_table"@[6]);
            assert("m20260408_000018_create_service_token_table"@[6] != "m20260510_000002_add_littlemice_check_screenshot2_columns"@[6]);
            assert("m20260408_000018_create_service_token_table"@[8] != "m20260407_000003_add_user_is_superuser_column"@[8]);
            assert("m20260408_000018_create_service_token_table"@[8] != "m20260407_000004_add_user_deactivation_reason_column"@[8]);
            assert("m20260408_000018_create_service_token_table"@[8] != "m20260407_000006_add_user_squad_id_column"@[8]);
            assert("m20260408_000018_create_service_token_table"@[8] != "m20260407_000005_create_audit_log_table"@[8]);
            assert("m20260408_000018_create_service_token_table"@[8] != "m20260407_000007_create_squad_table"@[8]);
            assert("m20260408_000018_create_service_token_table"@[8] != "m20260407_000008_create_squad_invite_table"@[8]);
            assert("m20260408_000018_create_service_token_table"@[8] != "m20260407_000009_create_user_restriction_table"@[8]);
            assert("m20260408_000018_create_service_token_table"@[15] != "m20260408_000010_create_asset_definition_table"@[15]);
            assert("m20260408_000018_create_service_token_table"@[15] != "m20260408_000011_create_user_stackable_asset_table"@[15]);
            assert("m20260408_000018_create_service_token_table"@[15] != "m20260408_000012_create_user_entitlement_table"@[15]);
            assert("m20260408_000018_create_service_token_table"@[15] != "m20260408_000013_create_user_expirable_asset_table"@[15]);
            assert("m20260408_000018_create_service_token_table"@[15] != "m20260408_000014_create_inventory_operation_table"@[15]);
            assert("m20260408_000018_create_service_token_table"@[15] != "m20260408_000015_create_wallet_balance_table"@[15]);
            assert("m20260408_000018_create_service_token_table"@[15] != "m20260408_000016_create_wallet_transaction_table"@[15]);
            assert("m20260408_000018_create_service_token_table"@[15] != "m20260408_000017_create_default_skin_table"@[15]);
        },
        Migration::CreateServiceTokenAuditTable => {
            assert("m20260408_000019_create_service_token_audit_table"@[4] != "m20251206_000001_create_auth_ray_table"@[4]);
            assert("m20260408_000019_create_service_token_audit_table"@[7] != "m20260412_000023_add_auth_ray_registration_columns"@[7]);
            assert("m20260408_000019_create_service_token_audit_table"@[4] != "m20251206_000002_create_user_table"@[4]);
            assert("m20260408_000019_create_service_token_audit_table"@[6] != "m20260510_000001_create_littlemice_check_table"@[6]);
            assert("m20260408_000019_create_service_token_audit_table"@[6] != "m20260510_000002_add_littlemice_check_screenshot2_columns"@[6]);
            assert("m20260408_000019_create_service_token_audit_table"@[8] != "m20260407_000003_add_user_is_superuser_column"@[8]);
            assert("m20260408_000019_create_service_token_audit_table"@[8] != "m20260407_000004_add_user_deactivation_reason_column"@[8]);
            assert("m20260408_000019_create_service_token_audit_table"@[8] != "m20260407_000006_add_user_squad_id_column"@[8]);
            assert("m20260408_000019_create_service_token_audit_table"@[8] != "m20260407_000005_create_audit_log_table"@[8]);
            assert("m20260408_000019_create_service_token_audit_table"@[8] != "m20260407_000007_create_squad_table"@[8]);
            assert("m20260408_000019_create_service_token_audit_table"@[8] != "m20260407_000008_create_squad_invite_table"@[8]);
            assert("m20260408_000019_create_service_token_audit_table"@[8] != "m20260407_000009_create_user_restriction_table"@[8]);
            assert("m20260408_000019_create_service_token_audit_table"@[15] != "m20260408_000010_create_asset_definition_table"@[15]);
            assert("m20260408_000019_create_service_token_audit_table"@[15] != "m20260408_000011_create_user_stackable_asset_table"@[15]);
            assert("m20260408_000019_create_service_token_audit_table"@[15] != "m20260408_000012_create_user_entitlement_table"@[15]);
            assert("m20260408_000019_create_service_token_audit_table"@[15] != "m20260408_000013_create_user_expirable_asset_table"@[15]);
            assert("m20260408_000019_create_service_token_audit_table"@[15] != "m20260408_000014_create_inventory_operation_table"@[15]);
            assert("m20260408_000019_create_service_token_audit_table"@[15] != "m20260408_000015_create_wallet_balance_table"@[15]);
            assert("m20260408_000019_create_service_token_audit_table"@[15] != "m20260408_000016_create_wallet_transaction_table"@[15]);
            assert("m20260408_000019_create_service_token_audit_table"@[15] != "m20260408_000017_create_default_skin_table"@[15]);
            assert("m20260408_000019_create_service_token_audit_table"@[15] != "m20260408_000018_create_service_token_table"@[15]);
        },
        Migration::CreateLootboxDefinitionTable => {
            assert("m20260409_000020_create_lootbox_definition_table"@[4] != "m20251206_000001_create_auth_ray_table"@[4]);
            assert("m20260409_000020_create_lootbox_definition_table"@[7] != "m20260412_000023_add_auth_ray_registration_columns"@[7]);
            assert("m20260409_000020_create_lootbox_definition_table"@[4] != "m20251206_000002_create_user_table"@[4]);
            assert("m20260409_000020_create_lootbox_definition_table"@[6] != "m20260510_000001_create_littlemice_check_table"@[6]);
            assert("m20260409_000020_create_lootbox_definition_table"@[6] != "m20260510_000002_add_littlemice_check_screenshot2_columns"@[6]);
            assert("m20260409_000020_create_lootbox_definition_table"@[8] != "m20260407_000003_add_user_is_superuser_column"@[8]);
            assert("m20260409_000020_create_lootbox_definition_table"@[8] != "m20260407_000004_add_user_deactivation_reason_column"@[8]);
            assert("m20260409_000020_create_lootbox_definition_table"@[8] != "m20260407_000006_add_user_squad_id_column"@[8]);
            assert("m20260409_000020_create_lootbox_definition_table"@[8] != "m20260407_000005_create_audit_log_table"@[8]);
            assert("m20260409_000020_create_lootbox_definition_table"@[8] != "m20260407_000007_create_squad_table"@[8]);
            assert("m20260409_000020_create_lootbox_definition_table"@[8] != "m20260407_000008_create_squad_invite_table"@[8]);
            assert("m20260409_000020_create_lootbox_definition_table"@[8] != "m20260407_000009_create_user_restriction_table"@[8]);
            assert("m20260409_000020_create_lootbox_definition_table"@[8] != "m20260408_000010_create_asset_definition_table"@[8]);
            assert("m20260409_000020_create_lootbox_definition_table"@[8] != "m20260408_000011_create_user_stackable_asset_table"@[8]);
            assert("m20260409_000020_create_lootbox_definition_table"@[8] != "m20260408_000012_create_user_entitlement_table"@[8]);
            assert("m20260409_000020_create_lootbox_definition_table"@[8] != "m20260408_000013_create_user_expirable_asset_table"@[8]);
            assert("m20260409_000020_create_lootbox_definition_table"@[8] != "m20260408_000014_create_inventory_operation_table"@[8]);
            assert("m20260409_000020_create_lootbox_definition_table"@[8] != "m20260408_000015_create_wallet_balance_table"@[8]);
            assert("m20260409_000020_create_lootbox_definition_table"@[8] != "m20260408_000016_create_wallet_transaction_table"@[8]);
            assert("m20260409_000020_create_lootbox_definition_table"@[8] != "m20260408_000017_create_default_skin_table"@[8]);
            assert("m20260409_000020_create_lootbox_definition_table"@[8] != "m20260408_000018_create_service_token_table"@[8]);
            assert("m20260409_000020_create_lootbox_definition_table"@[8] != "m20260408_000019_create_service_token_audit_table"@[8]);
        },
        Migration::CreateLootboxDropDefinitionTable => {
            assert("m20260409_000021_create_lootbox_drop_definition_table"@[4] != "m20251206_000001_create_auth_ray_table"@[4]);
            assert("m20260409_000021_create_lootbox_drop_definition_table"@[7] != "m20260412_000023_add_auth_ray_registration_columns"@[7]);
            assert("m20260409_000021_create_lootbox_drop_definition_table"@[4] != "m20251206_000002_create_user_table"@[4]);
            assert("m20260409_000021_create_lootbox_drop_definition_table"@[6] != "m20260510_000001_create_littlemice_check_table"@[6]);
            assert("m20260409_000021_create_lootbox_drop_definition_table"@[6] != "m20260510_000002_add_littlemice_check_screenshot2_columns"@[6]);
            assert("m20260409_000021_create_lootbox_drop_definition_table"@[8] != "m20260407_000003_add_user_is_superuser_column"@[8]);
            assert("m20260409_000021_create_lootbox_drop_definition_table"@[8] != "m20260407_000004_add_user_deactivation_reason_column"@[8]);
            assert("m20260409_000021_create_lootbox_drop_definition_table"@[8] != "m20260407_000006_add_user_squad_id_column"@[8]);
            assert("m20260409_000021_create_lootbox_drop_definition_table"@[8] != "m20260407_000005_create_audit_log_table"@[8]);
            assert("m20260409_000021_create_lootbox_drop_definition_table"@[8] != "m20260407_000007_create_squad_table"@[8]);
            assert("m20260409_000021_create_lootbox_drop_definition_table"@[8] != "m20260407_000008_create_squad_invite_table"@[8]);
            assert("m20260409_000021_create_lootbox_drop_definition_table"@[8] != "m20260407_000009_create_user_restriction_table"@[8]);
            assert("m20260409_000021_create_lootbox_drop_definition_table"@[8] != "m20260408_000010_create_asset_definition_table"@[8]);
            assert("m20260409_000021_create_lootbox_drop_definition_table"@[8] != "m20260408_000011_create_user_stackable_asset_table"@[8]);
            assert("m20260409_000021_create_lootbox_drop_definition_table"@[8] != "m20260408_000012_create_user_entitlement_table"@[8]);
            assert("m20260409_000021_create_lootbox_drop_definition_table"@[8] != "m20260408_000013_create_user_expirable_asset_table"@[8]);
            assert("m20260409_000021_create_lootbox_drop_definition_table"@[8] != "m20260408_000014_create_inventory_operation_table"@[8]);
            assert("m20260409_000021_create_lootbox_drop_definition_table"@[8] != "m20260408_000015_create_wallet_balance_table"@[8]);
            assert("m20260409_000021_create_lootbox_drop_definition_table"@[8] != "m20260408_000016_create_wallet_transaction_table"@[8]);
            assert("m20260409_000021_create_lootbox_drop_definition_table"@[8] != "m20260408_000017_create_default_skin_table"@[8]);
            assert("m20260409_000021_create_lootbox_drop_definition_table"@[8] != "m20260408_000018_create_service_token_table"@[8]);
            assert("m20260409_000021_create_lootbox_drop_definition_table"@[8] != "m20260408_000019_create_service_token_audit_table"@[8]);
            assert("m20260409_000021_create_lootbox_drop_definition_table"@[15] != "m20260409_000020_create_lootbox_definition_table"@[15]);
        },
        Migration::CreateLootboxOpenOperationTable => {
            assert("m20260409_000022_create_lootbox_open_operation_table"@[4] != "m20251206_000001_create_auth_ray_table"@[4]);
            assert("m20260409_000022_create_lootbox_open_operation_table"@[7] != "m20260412_000023_add_auth_ray_registration_columns"@[7]);
            assert("m20260409_000022_create_lootbox_open_operation_table"@[4] != "m20251206_000002_create_user_table"@[4]);
            assert("m20260409_000022_create_lootbox_open_operation_table"@[6] != "m20260510_000001_create_littlemice_check_table"@[6]);
            assert("m20260409_000022_create_lootbox_open_operation_table"@[6] != "m20260510_000002_add_littlemice_check_screenshot2_columns"@[6]);
            assert("m20260409_000022_create_lootbox_open_operation_table"@[8] != "m20260407_000003_add_user_is_superuser_column"@[8]);
            assert("m20260409_000022_create_lootbox_open_operation_table"@[8] != "m20260407_000004_add_user_deactivation_reason_column"@[8]);
            assert("m20260409_000022_create_lootbox_open_operation_table"@[8] != "m20260407_000006_add_user_squad_id_column"@[8]);
            assert("m20260409_000022_create_lootbox_open_operation_table"@[8] != "m20260407_000005_create_audit_log_table"@[8]);
            assert("m20260409_000022_create_lootbox_open_operation_table"@[8] != "m20260407_000007_create_squad_table"@[8]);
            assert("m20260409_000022_create_lootbox_open_operation_table"@[8] != "m20260407_000008_create_squad_invite_table"@[8]);
            assert("m20260409_000022_create_lootbox_open_operation_table"@[8] != "m20260407_000009_create_user_restriction_table"@[8]);
            assert("m20260409_000022_create_lootbox_open_operation_table"@[8] != "m20260408_000010_create_asset_definition_table"@[8]);
            assert("m20260409_000022_create_lootbox_open_operation_table"@[8] != "m20260408_000011_create_user_stackable_asset_table"@[8]);
            assert("m20260409_000022_create_lootbox_open_operation_table"@[8] != "m20260408_000012_create_user_entitlement_table"@[8]);
            assert("m20260409_000022_create_lootbox_open_operation_table"@[8] != "m20260408_000013_create_user_expirable_asset_table"@[8]);
            assert("m20260409_000022_create_lootbox_open_operation_table"@[8] != "m20260408_000014_create_inventory_operation_table"@[8]);
            assert("m20260409_000022_create_lootbox_open_operation_table"@[8] != "m20260408_000015_create_wallet_balance_table"@[8]);
            assert("m20260409_000022_create_lootbox_open_operation_table"@[8] != "m20260408_000016_create_wallet_transaction_table"@[8]);
            assert("m20260409_000022_create_lootbox_open_operation_table"@[8] != "m20260408_000017_create_default_skin_table"@[8]);
            assert("m20260409_000022_create_lootbox_open_operation_table"@[8] != "m20260408_000018_create_service_token_table"@[8]);
            assert("m20260409_000022_create_lootbox_open_operation_table"@[8] != "m20260408_000019_create_service_token_audit_table"@[8]);
            assert("m20260409_000022_create_lootbox_open_operation_table"@[15] != "m20260409_000020_create_lootbox_definition_table"@[15]);
            assert("m20260409_000022_create_lootbox_open_operation_table"@[15] != "m20260409_000021_create_lootbox_drop_definition_table"@[15]);
        },
        Migration::AddLootboxRewardCompensationColumns => {
            assert("m20260417_000036_add_lootbox_reward_compensation_columns"@[4] != "m20251206_000001_create_auth_ray_table"@[4]);
            assert("m20260417_000036_add_lootbox_reward_compensation_columns"@[8] != "m20260412_000023_add_auth_ray_registration_columns"@[8]);
            assert("m20260417_000036_add_lootbox_reward_compensation_columns"@[4] != "m20251206_000002_create_user_table"@[4]);
            assert("m20260417_000036_add_lootbox_reward_compensation_columns"@[6] != "m20260510_000001_create_littlemice_check_table"@[6]);
            assert("m20260417_000036_add_lootbox_reward_compensation_columns"@[6] != "m20260510_000002_add_littlemice_check_screenshot2_columns"@[6]);
            assert("m20260417_000036_add_lootbox_reward_compensation_columns"@[7] != "m20260407_000003_add_user_is_superuser_column"@[7]);
            assert("m20260417_000036_add_lootbox_reward_compensation_columns"@[7] != "m20260407_000004_add_user_deactivation_reason_column"@[7]);
            assert("m20260417_000036_add_lootbox_reward_compensation_columns"@[7] != "m20260407_000006_add_user_squad_id_column"@[7]);
            assert("m20260417_000036_add_lootbox_reward_compensation_columns"@[7] != "m20260407_000005_create_audit_log_table"@[7]);
            assert("m20260417_000036_add_lootbox_reward_compensation_columns"@[7] != "m20260407_000007_create_squad_table"@[7]);
            assert("m20260417_000036_add_lootbox_reward_compensation_columns"@[7] != "m20260407_000008_create_squad_invite_table"@[7]);
            assert("m20260417_000036_add_lootbox_reward_compensation_columns"@[7] != "m20260407_000009_create_user_restriction_table"@[7]);
            assert("m20260417_000036_add_lootbox_reward_compensation_columns"@[7] != "m20260408_000010_create_asset_definition_table"@[7]);
            assert("m20260417_000036_add_lootbox_reward_compensation_columns"@[7] != "m20260408_000011_create_user_stackable_asset_table"@[7]);
            assert("m20260417_000036_add_lootbox_reward_compensation_columns"@[7] != "m20260408_000012_create_user_entitlement_table"@[7]);
            assert("m20260417_000036_add_lootbox_reward_compensation_columns"@[7] != "m20260408_000013_create_user_expirable_asset_table"@[7]);
            assert("m20260417_000036_add_lootbox_reward_compensation_columns"@[7] != "m20260408_000014_create_inventory_operation_table"@[7]);
            assert("m20260417_000036_add_lootbox_reward_compensation_columns"@[7] != "m20260408_000015_create_wallet_balance_table"@[7]);
            assert("m20260417_000036_add_lootbox_reward_compensation_columns"@[7] != "m20260408_000016_create_wallet_transaction_table"@[7]);
            assert("m20260417_000036_add_lootbox_reward_compensation_columns"@[7] != "m20260408_000017_create_default_skin_table"@[7]);
            assert("m20260417_000036_add_lootbox_reward_compensation_columns"@[7] != "m20260408_000018_create_service_token_table"@[7]);
            assert("m20260417_000036_add_lootbox_reward_compensation_columns"@[7] != "m20260408_000019_create_service_token_audit_table"@[7]);
            assert("m20260417_000036_add_lootbox_reward_compensation_columns"@[7] != "m20260409_000020_create_lootbox_definition_table"@[7]);
            assert("m20260417_000036_add_lootbox_reward_compensation_columns"@[7] != "m20260409_000021_create_lootbox_drop_definition_table"@[7]);
            assert("m20260417_000036_add_lootbox_reward_compensation_columns"@[7] != "m20260409_000022_create_lootbox_open_operation_table"@[7]);
        },
        Migration::CreateShopProductTable => {
            assert("m20260412_000024_create_shop_product_table"@[4] != "m20251206_000001_create_auth_ray_table"@[4]);
            assert("m20260412_000024_create_shop_product_table"@[15] != "m20260412_000023_add_auth_ray_registration_columns"@[15]);
            assert("m20260412_000024_create_shop_product_table"@[4] != "m20251206_000002_create_user_table"@[4]);
            assert("m20260412_000024_create_shop_product_table"@[6] != "m20260510_000001_create_littlemice_check_table"@[6]);
            assert("m20260412_000024_create_shop_product_table"@[6] != "m20260510_000002_add_littlemice_check_screenshot2_columns"@[6]);
            assert("m20260412_000024_create_shop_product_table"@[7] != "m20260407_000003_add_user_is_superuser_column"@[7]);
            assert("m20260412_000024_create_shop_product_table"@[7] != "m20260407_000004_add_user_deactivation_reason_column"@[7]);
            assert("m20260412_000024_create_shop_product_table"@[7] != "m20260407_000006_add_user_squad_id_column"@[7]);
            assert("m20260412_000024_create_shop_product_table"@[7] != "m20260407_000005_create_audit_log_table"@[7]);
            assert("m20260412_000024_create_shop_product_table"@[7] != "m20260407_000007_create_squad_table"@[7]);
            assert("m20260412_000024_create_shop_product_table"@[7] != "m20260407_000008_create_squad_invite_table"@[7]);
            assert("m20260412_000024_create_shop_product_table"@[7] != "m20260407_000009_create_user_restriction_table"@[7]);
            assert("m20260412_000024_create_shop_product_table"@[7] != "m20260408_000010_create_asset_definition_table"@[7]);
            assert("m20260412_000024_create_shop_product_table"@[7] != "m20260408_000011_create_user_stackable_asset_table"@[7]);
            assert("m20260412_000024_create_shop_product_table"@[7] != "m20260408_000012_create_user_entitlement_table"@[7]);
            assert("m20260412_000024_create_shop_product_table"@[7] != "m20260408_000013_create_user_expirable_asset_table"@[7]);
            assert("m20260412_000024_create_shop_product_table"@[7] != "m20260408_000014_create_inventory_operation_table"@[7]);
            assert("m20260412_000024_create_shop_product_table"@[7] != "m20260408_000015_create_wallet_balance_table"@[7]);
            assert("m20260412_000024_create_shop_product_table"@[7] != "m20260408_000016_create_wallet_transaction_table"@[7]);
            assert("m20260412_000024_create_shop_product_table"@[7] != "m20260408_000017_create_default_skin_table"@[7]);
            assert("m20260412_000024_create_shop_product_table"@[7] != "m20260408_000018_create_service_token_table"@[7]);
            assert("m20260412_000024_create_shop_product_table"@[7] != "m20260408_000019_create_service_token_audit_table"@[7]);
            assert("m20260412_000024_create_shop_product_table"@[7] != "m20260409_000020_create_lootbox_definition_table"@[7]);
            assert("m20260412_000024_create_shop_product_table"@[7] != "m20260409_000021_create_lootbox_drop_definition_table"@[7]);
            assert("m20260412_000024_create_shop_product_table"@[7] != "m20260409_000022_create_lootbox_open_operation_table"@[7]);
            assert("m20260412_000024_create_shop_product_table"@[8] != "m20260417_000036_add_lootbox_reward_compensation_columns"@[8]);
        },
        Migration::CreateShopProductLocaleTable => {
            assert("m20260412_000025_create_shop_product_locale_table"@[4] != "m20251206_000001_create_auth_ray_table"@[4]);
            assert("m20260412_000025_create_shop_product_locale_table"@[15] != "m20260412_000023_add_auth_ray_registration_columns"@[15]);
            assert("m20260412_000025_create_shop_product_locale_table"@[4] != "m20251206_000002_create_user_table"@[4]);
            assert("m20260412_000025_create_shop_product_locale_table"@[6] != "m20260510_000001_create_littlemice_check_table"@[6]);
            assert("m20260412_000025_create_shop_product_locale_table"@[6] != "m20260510_000002_add_littlemice_check_screenshot2_columns"@[6]);
            assert("m20260412_000025_create_shop_product_locale_table"@[7] != "m20260407_000003_add_user_is_superuser_column"@[7]);
            assert("m20260412_000025_create_shop_product_locale_table"@[7] != "m20260407_000004_add_user_deactivation_reason_column"@[7]);
            assert("m20260412_000025_create_shop_product_locale_table"@[7] != "m20260407_000006_add_user_squad_id_column"@[7]);
            assert("m20260412_000025_create_shop_product_locale_table"@[7] != "m20260407_000005_create_audit_log_table"@[7]);
            assert("m20260412_000025_create_shop_product_locale_table"@[7] != "m20260407_000007_create_squad_table"@[7]);
            assert("m20260412_000025_create_shop_product_locale_table"@[7] != "m20260407_000008_create_squad_invite_table"@[7]);
            assert("m20260412_000025_create_shop_product_locale_table"@[7] != "m20260407_000009_create_user_restriction_table"@[7]);
            assert("m20260412_000025_create_shop_product_locale_table"@[7] != "m20260408_000010_create_asset_definition_table"@[7]);
            assert("m20260412_000025_create_shop_product_locale_table"@[7] != "m20260408_000011_create_user_stackable_asset_table"@[7]);
            assert("m20260412_000025_create_shop_product_locale_table"@[7] != "m20260408_000012_create_user_entitlement_table"@[7]);
            assert("m20260412_000025_create_shop_product_locale_table"@[7] != "m20260408_000013_create_user_expirable_asset_table"@[7]);
            assert("m20260412_000025_create_shop_product_locale_table"@[7] != "m20260408_000014_create_inventory_operation_table"@[7]);
            assert("m20260412_000025_create_shop_product_locale_table"@[7] != "m20260408_000015_create_wallet_balance_table"@[7]);
            assert("m20260412_000025_create_shop_product_locale_table"@[7] != "m20260408_000016_create_wallet_transaction_table"@[7]);
            assert("m20260412_000025_create_shop_product_locale_table"@[7] != "m20260408_000017_create_default_skin_table"@[7]);
            assert("m20260412_000025_create_shop_product_locale_table"@[7] != "m20260408_000018_create_service_token_table"@[7]);
            assert("m20260412_000025_create_shop_product_locale_table"@[7] != "m20260408_000019_create_service_token_audit_table"@[7]);
            assert("m20260412_000025_create_shop_product_locale_table"@[7] != "m20260409_000020_create_lootbox_definition_table"@[7]);
            assert("m20260412_000025_create_shop_product_locale_table"@[7] != "m20260409_000021_create_lootbox_drop_definition_table"@[7]);
            assert("m20260412_000025_create_shop_product_locale_table"@[7] != "m20260409_000022_create_lootbox_open_operation_table"@[7]);
            assert("m20260412_000025_create_shop_product_locale_table"@[8] != "m20260417_000036_add_lootbox_reward_compensation_columns"@[8]);
            assert("m20260412_000025_create_shop_product_locale_table"@[15] != "m20260412_000024_create_shop_product_table"@[15]);
        },
        Migration::CreateShopOrderTable => {
            assert("m20260412_000026_create_shop_order_table"@[4] != "m20251206_000001_create_auth_ray_table"@[4]);
            assert("m20260412_000026_create_shop_order_table"@[15] != "m20260412_000023_add_auth_ray_registration_columns"@[15]);
            assert("m20260412_000026_create_shop_order_table"@[4] != "m20251206_000002_create_user_table"@[4]);
            assert("m20260412_000026_create_shop_order_table"@[6] != "m20260510_000001_create_littlemice_check_table"@[6]);
            assert("m20260412_000026_create_shop_order_table"@[6] != "m20260510_000002_add_littlemice_check_screenshot2_columns"@[6]);
            assert("m20260412_000026_create_shop_order_table"@[7] != "m20260407_000003_add_user_is_superuser_column"@[7]);
            assert("m20260412_000026_create_shop_order_table"@[7] != "m20260407_000004_add_user_deactivation_reason_column"@[7]);
            assert("m20260412_000026_create_shop_order_table"@[7] != "m20260407_000006_add_user_squad_id_column"@[7]);
            assert("m20260412_000026_create_shop_order_table"@[7] != "m20260407_000005_create_audit_log_table"@[7]);
            assert("m20260412_000026_create_shop_order_table"@[7] != "m20260407_000007_create_squad_table"@[7]);
            assert("m20260412_000026_create_shop_order_table"@[7] != "m20260407_000008_create_squad_invite_table"@[7]);
            assert("m20260412_000026_create_shop_order_table"@[7] != "m20260407_000009_create_user_restriction_table"@[7]);
            assert("m20260412_000026_create_shop_order_table"@[7] != "m20260408_000010_create_asset_definition_table"@[7]);
            assert("m20260412_000026_create_shop_order_table"@[7] != "m20260408_000011_create_user_stackable_asset_table"@[7]);
            assert("m20260412_000026_create_shop_order_table"@[7] != "m20260408_000012_create_user_entitlement_table"@[7]);
            assert("m20260412_000026_create_shop_order_table"@[7] != "m20260408_000013_create_user_expirable_asset_table"@[7]);
            assert("m20260412_000026_create_shop_order_table"@[7] != "m20260408_000014_create_inventory_operation_table"@[7]);
            assert("m20260412_000026_create_shop_order_table"@[7] != "m20260408_000015_create_wallet_balance_table"@[7]);
            assert("m20260412_000026_create_shop_order_table"@[7] != "m20260408_000016_create_wallet_transaction_table"@[7]);
            assert("m20260412_000026_create_shop_order_table"@[7] != "m20260408_000017_create_default_skin_table"@[7]);
            assert("m20260412_000026_create_shop_order_table"@[7] != "m20260408_000018_create_service_token_table"@[7]);
            assert("m20260412_000026_create_shop_order_table"@[7] != "m20260408_000019_create_service_token_audit_table"@[7]);
            assert("m20260412_000026_create_shop_order_table"@[7] != "m20260409_000020_create_lootbox_definition_table"@[7]);
            assert("m20260412_000026_create_shop_order_table"@[7] != "m20260409_000021_create_lootbox_drop_definition_table"@[7]);
            assert("m20260412_000026_create_shop_order_table"@[7] != "m20260409_000022_create_lootbox_open_operation_table"@[7]);
            assert("m20260412_000026_create_shop_order_table"@[8] != "m20260417_000036_add_lootbox_reward_compensation_columns"@[8]);
            assert("m20260412_000026_create_shop_order_table"@[15] != "m20260412_000024_create_shop_product_table"@[15]);
            assert("m20260412_000026_create_shop_order_table"@[15] != "m20260412_000025_create_shop_product_locale_table"@[15]);
        },
        Migration::CreateShopPaymentAttemptTable => {
            assert("m20260412_000027_create_shop_payment_attempt_table"@[4] != "m20251206_000001_create_auth_ray_table"@[4]);
            assert("m20260412_000027_create_shop_payment_attempt_table"@[15] != "m20260412_000023_add_auth_ray_registration_columns"@[15]);
            assert("m20260412_000027_create_shop_payment_attempt_table"@[4] != "m20251206_000002_create_user_table"@[4]);
            assert("m20260412_000027_create_shop_payment_attempt_table"@[6] != "m20260510_000001_create_littlemice_check_table"@[6]);
            assert("m20260412_000027_create_shop_payment_attempt_table"@[6] != "m20260510_000002_add_littlemice_check_screenshot2_columns"@[6]);
            assert("m20260412_000027_create_shop_payment_attempt_table"@[7] != "m20260407_000003_add_user_is_superuser_column"@[7]);
            assert("m20260412_000027_create_shop_payment_attempt_table"@[7] != "m20260407_000004_add_user_deactivation_reason_column"@[7]);
            assert("m20260412_000027_create_shop_payment_attempt_table"@[7] != "m20260407_000006_add_user_squad_id_column"@[7]);
            assert("m20260412_000027_create_shop_payment_attempt_table"@[7] != "m20260407_000005_create_audit_log_table"@[7]);
            assert("m20260412_000027_create_shop_payment_attempt_table"@[7] != "m20260407_000007_create_squad_table"@[7]);
            assert("m20260412_000027_create_shop_payment_attempt_table"@[7] != "m20260407_000008_create_squad_invite_table"@[7]);
            assert("m20260412_000027_create_shop_payment_attempt_table"@[7] != "m20260407_000009_create_user_restriction_table"@[7]);
            assert("m20260412_000027_create_shop_payment_attempt_table"@[7] != "m20260408_000010_create_asset_definition_table"@[7]);
            assert("m20260412_000027_create_shop_payment_attempt_table"@[7] != "m20260408_000011_create_user_stackable_asset_table"@[7]);
            assert("m20260412_000027_create_shop_payment_attempt_table"@[7] != "m20260408_000012_create_user_entitlement_table"@[7]);
            assert("m20260412_000027_create_shop_payment_attempt_table"@[7] != "m20260408_000013_create_user_expirable_asset_table"@[7]);
            assert("m20260412_000027_create_shop_payment_attempt_table"@[7] != "m20260408_000014_create_inventory_operation_table"@[7]);
            assert("m20260412_000027_create_shop_payment_attempt_table"@[7] != "m20260408_000015_create_wallet_balance_table"@[7]);
            assert("m20260412_000027_create_shop_payment_attempt_table"@[7] != "m20260408_000016_create_wallet_transaction_table"@[7]);
            assert("m20260412_000027_create_shop_payment_attempt_table"@[7] != "m20260408_000017_create_default_skin_table"@[7]);
            assert("m20260412_000027_create_shop_payment_attempt_table"@[7] != "m20260408_000018_create_service_token_table"@[7]);
            assert("m20260412_000027_create_shop_payment_attempt_table"@[7] != "m20260408_000019_create_service_token_audit_table"@[7]);
            assert("m20260412_000027_create_shop_payment_attempt_table"@[7] != "m20260409_000020_create_lootbox_definition_table"@[7]);
            assert("m20260412_000027_create_shop_payment_attempt_table"@[7] != "m20260409_000021_create_lootbox_drop_definition_table"@[7]);
            assert("m20260412_000027_create_shop_payment_attempt_table"@[7] != "m20260409_000022_create_lootbox_open_operation_table"@[7]);
            assert("m20260412_000027_create_shop_payment_attempt_table"@[8] != "m20260417_000036_add_lootbox_reward_compensation_columns"@[8]);
            assert("m20260412_000027_create_shop_payment_attempt_table"@[15] != "m20260412_000024_create_shop_product_table"@[15]);
            assert("m20260412_000027_create_shop_payment_attempt_table"@[15] != "m20260412_000025_create_shop_product_locale_table"@[15]);
            assert("m20260412_000027_create_shop_payment_attempt_table"@[15] != "m20260412_000026_create_shop_order_table"@[15]);
        },
        Migration::AddShopOrderPaymentLifecycleColumns => {
            assert("m20260413_000028_add_shop_order_payment_lifecycle_columns"@[4] != "m20251206_000001_create_auth_ray_table"@[4]);
            assert("m20260413_000028_add_shop_order_payment_lifecycle_columns"@[8] != "m20260412_000023_add_auth_ray_registration_columns"@[8]);
            assert("m20260413_000028_add_shop_order_payment_lifecycle_columns"@[4] != "m20251206_000002_create_user_table"@[4]);
            assert("m20260413_000028_add_shop_order_payment_lifecycle_columns"@[6] != "m20260510_000001_create_littlemice_check_table"@[6]);
            assert("m20260413_000028_add_shop_order_payment_lifecycle_columns"@[6] != "m20260510_000002_add_littlemice_check_screenshot2_columns"@[6]);
            assert("m20260413_000028_add_shop_order_payment_lifecycle_columns"@[7] != "m20260407_000003_add_user_is_superuser_column"@[7]);
            assert("m20260413_000028_add_shop_order_payment_lifecycle_columns"@[7] != "m20260407_000004_add_user_deactivation_reason_column"@[7]);
            assert("m20260413_000028_add_shop_order_payment_lifecycle_columns"@[7] != "m20260407_000006_add_user_squad_id_column"@[7]);
            assert("m20260413_000028_add_shop_order_payment_lifecycle_columns"@[7] != "m20260407_000005_create_audit_log_table"@[7]);
            assert("m20260413_000028_add_shop_order_payment_lifecycle_columns"@[7] != "m20260407_000007_create_squad_table"@[7]);
            assert("m20260413_000028_add_shop_order_payment_lifecycle_columns"@[7] != "m20260407_000008_create_squad_invite_table"@[7]);
            assert("m20260413_000028_add_shop_order_payment_lifecycle_columns"@[7] != "m20260407_000009_create_user_restriction_table"@[7]);
            assert("m20260413_000028_add_shop_order_payment_lifecycle_columns"@[7] != "m20260408_000010_create_asset_definition_table"@[7]);
            assert("m20260413_000028_add_shop_order_payment_lifecycle_columns"@[7] != "m20260408_000011_create_user_stackable_asset_table"@[7]);
            assert("m20260413_000028_add_shop_order_payment_lifecycle_columns"@[7] != "m20260408_000012_create_user_entitlement_table"@[7]);
            assert("m20260413_000028_add_shop_order_payment_lifecycle_columns"@[7] != "m20260408_000013_create_user_expirable_asset_table"@[7]);
            assert("m20260413_000028_add_shop_order_payment_lifecycle_columns"@[7] != "m20260408_000014_create_inventory_operation_table"@[7]);
            assert("m20260413_000028_add_shop_order_payment_lifecycle_columns"@[7] != "m20260408_000015_create_wallet_balance_table"@[7]);
            assert("m20260413_000028_add_shop_order_payment_lifecycle_columns"@[7] != "m20260408_000016_create_wallet_transaction_table"@[7]);
            assert("m20260413_000028_add_shop_order_payment_lifecycle_columns"@[7] != "m20260408_000017_create_default_skin_table"@[7]);
            assert("m20260413_000028_add_shop_order_payment_lifecycle_columns"@[7] != "m20260408_000018_create_service_token_table"@[7]);
            assert("m20260413_000028_add_shop_order_payment_lifecycle_columns"@[7] != "m20260408_000019_create_service_token_audit_table"@[7]);
            assert("m20260413_000028_add_shop_order_payment_lifecycle_columns"@[7] != "m20260409_000020_create_lootbox_definition_table"@[7]);
            assert("m20260413_000028_add_shop_order_payment_lifecycle_columns"@[7] != "m20260409_000021_create_lootbox_drop_definition_table"@[7]);
            assert("m20260413_000028_add_shop_order_payment_lifecycle_columns"@[7] != "m20260409_000022_create_lootbox_open_operation_table"@[7]);
            assert("m20260413_000028_add_shop_order_payment_lifecycle_columns"@[8] != "m20260417_000036_add_lootbox_reward_compensation_columns"@[8]);
            assert("m20260413_000028_add_shop_order_payment_lifecycle_columns"@[8] != "m20260412_000024_create_shop_product_table"@[8]);
            assert("m20260413_000028_add_shop_order_payment_lifecycle_columns"@[8] != "m20260412_000025_create_shop_product_locale_table"@[8]);
            assert("m20260413_000028_add_shop_order_payment_lifecycle_columns"@[8] != "m20260412_000026_create_shop_order_table"@[8]);
            assert("m20260413_000028_add_shop_order_payment_lifecycle_columns"@[8] != "m20260412_000027_create_shop_payment_attempt_table"@[8]);
        },
        Migration::AddShopPaymentAttemptProviderIndex => {
            assert("m20260413_000029_add_shop_payment_attempt_provider_index"@[4] != "m20251206_000001_create_auth_ray_table"@[4]);
            assert("m20260413_000029_add_shop_payment_attempt_provider_index"@[8] != "m20260412_000023_add_auth_ray_registration_columns"@[8]);
            assert("m20260413_000029_add_shop_payment_attempt_provider_index"@[4] != "m20251206_000002_create_user_table"@[4]);
            assert("m20260413_000029_add_shop_payment_attempt_provider_index"@[6] != "m20260510_000001_create_littlemice_check_table"@[6]);
            assert("m20260413_000029_add_shop_payment_attempt_provider_index"@[6] != "m20260510_000002_add_littlemice_check_screenshot2_columns"@[6]);
            assert("m20260413_000029_add_shop_payment_attempt_provider_index"@[7] != "m20260407_000003_add_user_is_superuser_column"@[7]);
            assert("m20260413_000029_add_shop_payment_attempt_provider_index"@[7] != "m20260407_000004_add_user_deactivation_reason_column"@[7]);
            assert("m20260413_000029_add_shop_payment_attempt_provider_index"@[7] != "m20260407_000006_add_user_squad_id_column"@[7]);
            assert("m20260413_000029_add_shop_payment_attempt_provider_index"@[7] != "m20260407_000005_create_audit_log_table"@[7]);
            assert("m20260413_000029_add_shop_payment_attempt_provider_index"@[7] != "m20260407_000007_create_squad_table"@[7]);
            assert("m20260413_000029_add_shop_payment_attempt_provider_index"@[7] != "m20260407_000008_create_squad_invite_table"@[7]);
            assert("m20260413_000029_add_shop_payment_attempt_provider_index"@[7] != "m20260407_000009_create_user_restriction_table"@[7]);
            assert("m20260413_000029_add_shop_payment_attempt_provider_index"@[7] != "m20260408_000010_create_asset_definition_table"@[7]);
            assert("m20260413_000029_add_shop_payment_attempt_provider_index"@[7] != "m20260408_000011_create_user_stackable_asset_table"@[7]);
            assert("m20260413_000029_add_shop_payment_attempt_provider_index"@[7] != "m20260408_000012_create_user_entitlement_table"@[7]);
            assert("m20260413_000029_add_shop_payment_attempt_provider_index"@[7] != "m20260408_000013_create_user_expirable_asset_table"@[7]);
            assert("m20260413_000029_add_shop_payment_attempt_provider_index"@[7] != "m20260408_000014_create_inventory_operation_table"@[7]);
            assert("m20260413_000029_add_shop_payment_attempt_provider_index"@[7] != "m20260408_000015_create_wallet_balance_table"@[7]);
            assert("m20260413_000029_add_shop_payment_attempt_provider_index"@[7] != "m20260408_000016_create_wallet_transaction_table"@[7]);
            assert("m20260413_000029_add_shop_payment_attempt_provider_index"@[7] != "m20260408_000017_create_default_skin_table"@[7]);
            assert("m20260413_000029_add_shop_payment_attempt_provider_index"@[7] != "m20260408_000018_create_service_token_table"@[7]);
            assert("m20260413_000029_add_shop_payment_attempt_provider_index"@[7] != "m20260408_000019_create_service_token_audit_table"@[7]);
            assert("m20260413_000029_add_shop_payment_attempt_provider_index"@[7] != "m20260409_000020_create_lootbox_definition_table"@[7]);
            assert("m20260413_000029_add_shop_payment_attempt_provider_index"@[7] != "m20260409_000021_create_lootbox_drop_definition_table"@[7]);
            assert("m20260413_000029_add_shop_payment_attempt_provider_index"@[7] != "m20260409_000022_create_lootbox_open_operation_table"@[7]);
            assert("m20260413_000029_add_shop_payment_attempt_provider_index"@[8] != "m20260417_000036_add_lootbox_reward_compensation_columns"@[8]);
            assert("m20260413_000029_add_shop_payment_attempt_provider_index"@[8] != "m20260412_000024_create_shop_product_table"@[8]);
            assert("m20260413_000029_add_shop_payment_attempt_provider_index"@[8] != "m20260412_000025_create_shop_product_locale_table"@[8]);
            assert("m20260413_000029_add_shop_payment_attempt_provider_index"@[8] != "m20260412_000026_create_shop_order_table"@[8]);
            assert("m20260413_000029_add_shop_payment_attempt_provider_index"@[8] != "m20260412_000027_create_shop_payment_attempt_table"@[8]);
            assert("m20260413_000029_add_shop_payment_attempt_provider_index"@[15] != "m20260413_000028_add_shop_order_payment_lifecycle_columns"@[15]);
        },
        Migration::CreateDiscordBroadcastTable => {
            assert("m20260413_000030_create_discord_broadcast_table"@[4] != "m20251206_000001_create_auth_ray_table"@[4]);
            assert("m20260413_000030_create_discord_broadcast_table"@[8] != "m20260412_000023_add_auth_ray_registration_columns"@[8]);
            assert("m20260413_000030_create_discord_broadcast_table"@[4] != "m20251206_000002_create_user_table"@[4]);
            assert("m20260413_000030_create_discord_broadcast_table"@[6] != "m20260510_000001_create_littlemice_check_table"@[6]);
            assert("m20260413_000030_create_discord_broadcast_table"@[6] != "m20260510_000002_add_littlemice_check_screenshot2_columns"@[6]);
            assert("m20260413_000030_create_discord_broadcast_table"@[7] != "m20260407_000003_add_user_is_superuser_column"@[7]);
            assert("m20260413_000030_create_discord_broadcast_table"@[7] != "m20260407_000004_add_user_deactivation_reason_column"@[7]);
            assert("m20260413_000030_create_discord_broadcast_table"@[7] != "m20260407_000006_add_user_squad_id_column"@[7]);
            assert("m20260413_000030_create_discord_broadcast_table"@[7] != "m20260407_000005_create_audit_log_table"@[7]);
            assert("m20260413_000030_create_discord_broadcast_table"@[7] != "m20260407_000007_create_squad_table"@[7]);
            assert("m20260413_000030_create_discord_broadcast_table"@[7] != "m20260407_000008_create_squad_invite_table"@[7]);
            assert("m20260413_000030_create_discord_broadcast_table"@[7] != "m20260407_000009_create_user_restriction_table"@[7]);
            assert("m20260413_000030_create_discord_broadcast_table"@[7] != "m20260408_000010_create_asset_definition_table"@[7]);
            assert("m20260413_000030_create_discord_broadcast_table"@[7] != "m20260408_000011_create_user_stackable_asset_table"@[7]);
            assert("m20260413_000030_create_discord_broadcast_table"@[7] != "m20260408_000012_create_user_entitlement_table"@[7]);
            assert("m20260413_000030_create_discord_broadcast_table"@[7] != "m20260408_000013_create_user_expirable_asset_table"@[7]);
            assert("m20260413_000030_create_discord_broadcast_table"@[7] != "m20260408_000014_create_inventory_operation_table"@[7]);
            assert("m20260413_000030_create_discord_broadcast_table"@[7] != "m20260408_000015_create_wallet_balance_table"@[7]);
            assert("m20260413_000030_create_discord_broadcast_table"@[7] != "m20260408_000016_create_wallet_transaction_table"@[7]);
            assert("m20260413_000030_create_discord_broadcast_table"@[7] != "m20260408_000017_create_default_skin_table"@[7]);
            assert("m20260413_000030_create_discord_broadcast_table"@[7] != "m20260408_000018_create_service_token_table"@[7]);
            assert("m20260413_000030_create_discord_broadcast_table"@[7] != "m20260408_000019_create_service_token_audit_table"@[7]);
            assert("m20260413_000030_create_discord_broadcast_table"@[7] != "m20260409_000020_create_lootbox_definition_table"@[7]);
            assert("m20260413_000030_create_discord_broadcast_table"@[7] != "m20260409_000021_create_lootbox_drop_definition_table"@[7]);
            assert("m20260413_000030_create_discord_broadcast_table"@[7] != "m20260409_000022_create_lootbox_open_operation_table"@[7]);
            assert("m20260413_000030_create_discord_broadcast_table"@[8] != "m20260417_000036_add_lootbox_reward_compensation_columns"@[8]);
            assert("m20260413_000030_create_discord_broadcast_table"@[8] != "m20260412_000024_create_shop_product_table"@[8]);
            assert("m20260413_000030_create_discord_broadcast_table"@[8] != "m20260412_000025_create_shop_product_locale_table"@[8]);
            assert("m20260413_000030_create_discord_broadcast_table"@[8] != "m20260412_000026_create_shop_order_table"@[8]);
            assert("m20260413_000030_create_discord_broadcast_table"@[8] != "m20260412_000027_create_shop_payment_attempt_table"@[8]);
            assert("m20260413_000030_create_discord_broadcast_table"@[14] != "m20260413_000028_add_shop_order_payment_lifecycle_columns"@[14]);
            assert("m20260413_000030_create_discord_broadcast_table"@[14] != "m20260413_000029_add_shop_payment_attempt_provider_index"@[14]);
        },
        Migration::CreateDiscordDeliveryTable => {
            assert("m20260413_000031_create_discord_delivery_table"@[4] != "m20251206_000001_create_auth_ray_table"@[4]);
            assert("m20260413_000031_create_discord_delivery_table"@[8] != "m20260412_000023_add_auth_ray_registration_columns"@[8]);
            assert("m20260413_000031_create_discord_delivery_table"@[4] != "m20251206_000002_create_user_table"@[4]);
            assert("m20260413_000031_create_discord_delivery_table"@[6] != "m20260510_000001_create_littlemice_check_table"@[6]);
            assert("m20260413_000031_create_discord_delivery_table"@[6] != "m20260510_000002_add_littlemice_check_screenshot2_columns"@[6]);
            assert("m20260413_000031_create_discord_delivery_table"@[7] != "m20260407_000003_add_user_is_superuser_column"@[7]);
            assert("m20260413_000031_create_discord_delivery_table"@[7] != "m20260407_000004_add_user_deactivation_reason_column"@[7]);
            assert("m20260413_000031_create_discord_delivery_table"@[7] != "m20260407_000006_add_user_squad_id_column"@[7]);
            assert("m20260413_000031_create_discord_delivery_table"@[7] != "m20260407_000005_create_audit_log_table"@[7]);
            assert("m20260413_000031_create_discord_delivery_table"@[7] != "m20260407_000007_create_squad_table"@[7]);
            assert("m20260413_000031_create_discord_delivery_table"@[7] != "m20260407_000008_create_squad_invite_table"@[7]);
            assert("m20260413_000031_create_discord_delivery_table"@[7] != "m20260407_000009_create_user_restriction_table"@[7]);
            assert("m20260413_000031_create_discord_delivery_table"@[7] != "m20260408_000010_create_asset_definition_table"@[7]);
            assert("m20260413_000031_create_discord_delivery_table"@[7] != "m20260408_000011_create_user_stackable_asset_table"@[7]);
            assert("m20260413_000031_create_discord_delivery_table"@[7] != "m20260408_000012_create_user_entitlement_table"@[7]);
            assert("m20260413_000031_create_discord_delivery_table"@[7] != "m20260408_000013_create_user_expirable_asset_table"@[7]);
            assert("m20260413_000031_create_discord_delivery_table"@[7] != "m20260408_000014_create_inventory_operation_table"@[7]);
            assert("m20260413_000031_create_discord_delivery_table"@[7] != "m20260408_000015_create_wallet_balance_table"@[7]);
            assert("m20260413_000031_create_discord_delivery_table"@[7] != "m20260408_000016_create_wallet_transaction_table"@[7]);
            assert("m20260413_000031_create_discord_delivery_table"@[7] != "m20260408_000017_create_default_skin_table"@[7]);
            assert("m20260413_000031_create_discord_delivery_table"@[7] != "m20260408_000018_create_service_token_table"@[7]);
            assert("m20260413_000031_create_discord_delivery_table"@[7] != "m20260408_000019_create_service_token_audit_table"@[7]);
            assert("m20260413_000031_create_discord_delivery_table"@[7] != "m20260409_000020_create_lootbox_definition_table"@[7]);
            assert("m20260413_000031_create_discord_delivery_table"@[7] != "m20260409_000021_create_lootbox_drop_definition_table"@[7]);
            assert("m20260413_000031_create_discord_delivery_table"@[7] != "m20260409_000022_create_lootbox_open_operation_table"@[7]);
            assert("m20260413_000031_create_discord_delivery_table"@[8] != "m20260417_000036_add_lootbox_reward_compensation_columns"@[8]);
            assert("m20260413_000031_create_discord_delivery_table"@[8] != "m20260412_000024_create_shop_product_table"@[8]);
            assert("m20260413_000031_create_discord_delivery_table"@[8] != "m20260412_000025_create_shop_product_locale_table"@[8]);
            assert("m20260413_000031_create_discord_delivery_table"@[8] != "m20260412_000026_create_shop_order_table"@[8]);
            assert("m20260413_000031_create_discord_delivery_table"@[8] != "m20260412_000027_create_shop_payment_attempt_table"@[8]);
            assert("m20260413_000031_create_discord_delivery_table"@[14] != "m20260413_000028_add_shop_order_payment_lifecycle_columns"@[14]);
            assert("m20260413_000031_create_discord_delivery_table"@[14] != "m20260413_000029_add_shop_payment_attempt_provider_index"@[14]);
            assert("m20260413_000031_create_discord_delivery_table"@[15] != "m20260413_000030_create_discord_broadcast_table"@[15]);
        },
        Migration::CreateEmailDeliveryTable => {
            assert("m20260419_000036_create_email_delivery_table"@[4] != "m20251206_000001_create_auth_ray_table"@[4]);
            assert("m20260419_000036_create_email_delivery_table"@[8] != "m20260412_000023_add_auth_ray_registration_columns"@[8]);
            assert("m20260419_000036_create_email_delivery_table"@[4] != "m20251206_000002_create_user_table"@[4]);
            assert("m20260419_000036_create_email_delivery_table"@[6] != "m20260510_000001_create_littlemice_check_table"@[6]);
            assert("m20260419_000036_create_email_delivery_table"@[6] != "m20260510_000002_add_littlemice_check_screenshot2_columns"@[6]);
            assert("m20260419_000036_create_email_delivery_table"@[7] != "m20260407_000003_add_user_is_superuser_column"@[7]);
            assert("m20260419_000036_create_email_delivery_table"@[7] != "m20260407_000004_add_user_deactivation_reason_column"@[7]);
            assert("m20260419_000036_create_email_delivery_table"@[7] != "m20260407_000006_add_user_squad_id_column"@[7]);
            assert("m20260419_000036_create_email_delivery_table"@[7] != "m20260407_000005_create_audit_log_table"@[7]);
            assert("m20260419_000036_create_email_delivery_table"@[7] != "m20260407_000007_create_squad_table"@[7]);
            assert("m20260419_000036_create_email_delivery_table"@[7] != "m20260407_000008_create_squad_invite_table"@[7]);
            assert("m20260419_000036_create_email_delivery_table"@[7] != "m20260407_000009_create_user_restriction_table"@[7]);
            assert("m20260419_000036_create_email_delivery_table"@[7] != "m20260408_000010_create_asset_definition_table"@[7]);
            assert("m20260419_000036_create_email_delivery_table"@[7] != "m20260408_000011_create_user_stackable_asset_table"@[7]);
            assert("m20260419_000036_create_email_delivery_table"@[7] != "m20260408_000012_create_user_entitlement_table"@[7]);
            assert("m20260419_000036_create_email_delivery_table"@[7] != "m20260408_000013_create_user_expirable_asset_table"@[7]);
            assert("m20260419_000036_create_email_delivery_table"@[7] != "m20260408_000014_create_inventory_operation_table"@[7]);
            assert("m20260419_000036_create_email_delivery_table"@[7] != "m20260408_000015_create_wallet_balance_table"@[7]);
            assert("m20260419_000036_create_email_delivery_table"@[7] != "m20260408_000016_create_wallet_transaction_table"@[7]);
            assert("m20260419_000036_create_email_delivery_table"@[7] != "m20260408_000017_create_default_skin_table"@[7]);
            assert("m20260419_000036_create_email_delivery_table"@[7] != "m20260408_000018_create_service_token_table"@[7]);
            assert("m20260419_000036_create_email_delivery_table"@[7] != "m20260408_000019_create_service_token_audit_table"@[7]);
            assert("m20260419_000036_create_email_delivery_table"@[7] != "m20260409_000020_create_lootbox_definition_table"@[7]);
            assert("m20260419_000036_create_email_delivery_table"@[7] != "m20260409_000021_create_lootbox_drop_definition_table"@[7]);
            assert("m20260419_000036_create_email_delivery_table"@[7] != "m20260409_000022_create_lootbox_open_operation_table"@[7]);
            assert("m20260419_000036_create_email_delivery_table"@[8] != "m20260417_000036_add_lootbox_reward_compensation_columns"@[8]);
            assert("m20260419_000036_create_email_delivery_table"@[8] != "m20260412_000024_create_shop_product_table"@[8]);
            assert("m20260419_000036_create_email_delivery_table"@[8] != "m20260412_000025_create_shop_product_locale_table"@[8]);
            assert("m20260419_000036_create_email_delivery_table"@[8] != "m20260412_000026_create_shop_order_table"@[8]);
            assert("m20260419_000036_create_email_delivery_table"@[8] != "m20260412_000027_create_shop_payment_attempt_table"@[8]);
            assert("m20260419_000036_create_email_delivery_table"@[8] != "m20260413_000028_add_shop_order_payment_lifecycle_columns"@[8]);
            assert("m20260419_000036_create_email_delivery_table"@[8] != "m20260413_000029_add_shop_payment_attempt_provider_index"@[8]);
            assert("m20260419_000036_create_email_delivery_table"@[8] != "m20260413_000030_create_discord_broadcast_table"@[8]);
            assert("m20260419_000036_create_email_delivery_table"@[8] != "m20260413_000031_create_discord_delivery_table"@[8]);
        },
        Migration::AddAssetDefinitionGunskinColumns => {
            assert("m20260413_000032_add_asset_definition_gunskin_columns"@[4] != "m20251206_000001_create_auth_ray_table"@[4]);
            assert("m20260413_000032_add_asset_definition_gunskin_columns"@[8] != "m20260412_000023_add_auth_ray_registration_columns"@[8]);
            assert("m20260413_000032_add_asset_definition_gunskin_columns"@[4] != "m20251206_000002_create_user_table"@[4]);
            assert("m20260413_000032_add_asset_definition_gunskin_columns"@[6] != "m20260510_000001_create_littlemice_check_table"@[6]);
            assert("m20260413_000032_add_asset_definition_gunskin_columns"@[6] != "m20260510_000002_add_littlemice_check_screenshot2_columns"@[6]);
            assert("m20260413_000032_add_asset_definition_gunskin_columns"@[7] != "m20260407_000003_add_user_is_superuser_column"@[7]);
            assert("m20260413_000032_add_asset_definition_gunskin_columns"@[7] != "m20260407_000004_add_user_deactivation_reason_column"@[7]);
            assert("m20260413_000032_add_asset_definition_gunskin_columns"@[7] != "m20260407_000006_add_user_squad_id_column"@[7]);
            assert("m20260413_000032_add_asset_definition_gunskin_columns"@[7] != "m20260407_000005_create_audit_log_table"@[7]);
            assert("m20260413_000032_add_asset_definition_gunskin_columns"@[7] != "m20260407_000007_create_squad_table"@[7]);
            assert("m20260413_000032_add_asset_definition_gunskin_columns"@[7] != "m20260407_000008_create_squad_invite_table"@[7]);
            assert("m20260413_000032_add_asset_definition_gunskin_columns"@[7] != "m20260407_000009_create_user_restriction_table"@[7]);
            assert("m20260413_000032_add_asset_definition_gunskin_columns"@[7] != "m20260408_000010_create_asset_definition_table"@[7]);
            assert("m20260413_000032_add_asset_definition_gunskin_columns"@[7] != "m20260408_000011_create_user_stackable_asset_table"@[7]);
            assert("m20260413_000032_add_asset_definition_gunskin_columns"@[7] != "m20260408_000012_create_user_entitlement_table"@[7]);
            assert("m20260413_000032_add_asset_definition_gunskin_columns"@[7] != "m20260408_000013_create_user_expirable_asset_table"@[7]);
            assert("m20260413_000032_add_asset_definition_gunskin_columns"@[7] != "m20260408_000014_create_inventory_operation_table"@[7]);
            assert("m20260413_000032_add_asset_definition_gunskin_columns"@[7] != "m20260408_000015_create_wallet_balance_table"@[7]);
            assert("m20260413_000032_add_asset_definition_gunskin_columns"@[7] != "m20260408_000016_create_wallet_transaction_table"@[7]);
            assert("m20260413_000032_add_asset_definition_gunskin_columns"@[7] != "m20260408_000017_create_default_skin_table"@[7]);
            assert("m20260413_000032_add_asset_definition_gunskin_columns"@[7] != "m20260408_000018_create_service_token_table"@[7]);
            assert("m20260413_000032_add_asset_definition_gunskin_columns"@[7] != "m20260408_000019_create_service_token_audit_table"@[7]);
            assert("m20260413_000032_add_asset_definition_gunskin_columns"@[7] != "m20260409_000020_create_lootbox_definition_table"@[7]);
            assert("m20260413_000032_add_asset_definition_gunskin_columns"@[7] != "m20260409_000021_create_lootbox_drop_definition_table"@[7]);
            assert("m20260413_000032_add_asset_definition_gunskin_columns"@[7] != "m20260409_000022_create_lootbox_open_operation_table"@[7]);
            assert("m20260413_000032_add_asset_definition_gunskin_columns"@[8] != "m20260417_000036_add_lootbox_reward_compensation_columns"@[8]);
            assert("m20260413_000032_add_asset_definition_gunskin_columns"@[8] != "m20260412_000024_create_shop_product_table"@[8]);
            assert("m20260413_000032_add_asset_definition_gunskin_columns"@[8] != "m20260412_000025_create_shop_product_locale_table"@[8]);
            assert("m20260413_000032_add_asset_definition_gunskin_columns"@[8] != "m20260412_000026_create_shop_order_table"@[8]);
            assert("m20260413_000032_add_asset_definition_gunskin_columns"@[8] != "m20260412_000027_create_shop_payment_attempt_table"@[8]);
            assert("m20260413_000032_add_asset_definition_gunskin_columns"@[14] != "m20260413_000028_add_shop_order_payment_lifecycle_columns"@[14]);
            assert("m20260413_000032_add_asset_definition_gunskin_columns"@[14] != "m20260413_000029_add_shop_payment_attempt_provider_index"@[14]);
            assert("m20260413_000032_add_asset_definition_gunskin_columns"@[15] != "m20260413_000030_create_discord_broadcast_table"@[15]);
            assert("m20260413_000032_add_asset_definition_gunskin_columns"@[15] != "m20260413_000031_create_discord_delivery_table"@[15]);
            assert("m20260413_000032_add_asset_definition_gunskin_columns"@[8] != "m20260419_000036_create_email_delivery_table"@[8]);
        },
        Migration::CreateUserSelectedGunskinTable => {
            assert("m20260413_000033_create_user_selected_gunskin_table"@[4] != "m20251206_000001_create_auth_ray_table"@[4]);
            assert("m20260413_000033_create_user_selected_gunskin_table"@[8] != "m20260412_000023_add_auth_ray_registration_columns"@[8]);
            assert("m20260413_000033_create_user_selected_gunskin_table"@[4] != "m20251206_000002_create_user_table"@[4]);
            assert("m20260413_000033_create_user_selected_gunskin_table"@[6] != "m20260510_000001_create_littlemice_check_table"@[6]);
            assert("m20260413_000033_create_user_selected_gunskin_table"@[6] != "m20260510_000002_add_littlemice_check_screenshot2_columns"@[6]);
            assert("m20260413_000033_create_user_selected_gunskin_table"@[7] != "m20260407_000003_add_user_is_superuser_column"@[7]);
            assert("m20260413_000033_create_user_selected_gunskin_table"@[7] != "m20260407_000004_add_user_deactivation_reason_column"@[7]);
            assert("m20260413_000033_create_user_selected_gunskin_table"@[7] != "m20260407_000006_add_user_squad_id_column"@[7]);
            assert("m20260413_000033_create_user_selected_gunskin_table"@[7] != "m20260407_000005_create_audit_log_table"@[7]);
            assert("m20260413_000033_create_user_selected_gunskin_table"@[7] != "m20260407_000007_create_squad_table"@[7]);
            assert("m20260413_000033_create_user_selected_gunskin_table"@[7] != "m20260407_000008_create_squad_invite_table"@[7]);
            assert("m20260413_000033_create_user_selected_gunskin_table"@[7] != "m20260407_000009_create_user_restriction_table"@[7]);
            assert("m20260413_000033_create_user_selected_gunskin_table"@[7] != "m20260408_000010_create_asset_definition_table"@[7]);
            assert("m20260413_000033_create_user_selected_gunskin_table"@[7] != "m20260408_000011_create_user_stackable_asset_table"@[7]);
            assert("m20260413_000033_create_user_selected_gunskin_table"@[7] != "m20260408_000012_create_user_entitlement_table"@[7]);
            assert("m20260413_000033_create_user_selected_gunskin_table"@[7] != "m20260408_000013_create_user_expirable_asset_table"@[7]);
            assert("m20260413_000033_create_user_selected_gunskin_table"@[7] != "m20260408_000014_create_inventory_operation_table"@[7]);
            assert("m20260413_000033_create_user_selected_gunskin_table"@[7] != "m20260408_000015_create_wallet_balance_table"@[7]);
            assert("m20260413_000033_create_user_selected_gunskin_table"@[7] != "m20260408_000016_create_wallet_transaction_table"@[7]);
            assert("m20260413_000033_create_user_selected_gunskin_table"@[7] != "m20260408_000017_create_default_skin_table"@[7]);
            assert("m20260413_000033_create_user_selected_gunskin_table"@[7] != "m20260408_000018_create_service_token_table"@[7]);
            assert("m20260413_000033_create_user_selected_gunskin_table"@[7] != "m20260408_000019_create_service_token_audit_table"@[7]);
            assert("m20260413_000033_create_user_selected_gunskin_table"@[7] != "m20260409_000020_create_lootbox_definition_table"@[7]);
            assert("m20260413_000033_create_user_selected_gunskin_table"@[7] != "m20260409_000021_create_lootbox_drop_definition_table"@[7]);
            assert("m20260413_000033_create_user_selected_gunskin_table"@[7] != "m20260409_000022_create_lootbox_open_operation_table"@[7]);
            assert("m20260413_000033_create_user_selected_gunskin_table"@[8] != "m20260417_000036_add_lootbox_reward_compensation_columns"@[8]);
            assert("m20260413_000033_create_user_selected_gunskin_table"@[8] != "m20260412_000024_create_shop_product_table"@[8]);
            assert("m20260413_000033_create_user_selected_gunskin_table"@[8] != "m20260412_000025_create_shop_product_locale_table"@[8]);
            assert("m20260413_000033_create_user_selected_gunskin_table"@[8] != "m20260412_000026_create_shop_order_table"@[8]);
            assert("m20260413_000033_create_user_selected_gunskin_table"@[8] != "m20260412_000027_create_shop_payment_attempt_table"@[8]);
            assert("m20260413_000033_create_user_selected_gunskin_table"@[14] != "m20260413_000028_add_shop_order_payment_lifecycle_columns"@[14]);
            assert("m20260413_000033_create_user_selected_gunskin_table"@[14] != "m20260413_000029_add_shop_payment_attempt_provider_index"@[14]);
            assert("m20260413_000033_create_user_selected_gunskin_table"@[15] != "m20260413_000030_create_discord_broadcast_table"@[15]);
            assert("m20260413_000033_create_user_selected_gunskin_table"@[15] != "m20260413_000031_create_discord_delivery_table"@[15]);
            assert("m20260413_000033_create_user_selected_gunskin_table"@[8] != "m20260419_000036_create_email_delivery_table"@[8]);
            assert("m20260413_000033_create_user_selected_gunskin_table"@[15] != "m20260413_000032_add_asset_definition_gunskin_columns"@[15]);
        },
        Migration::CreateAppKvTable => {
            assert("m20260417_000034_create_app_kv_table"@[4] != "m20251206_000001_create_auth_ray_table"@[4]);
            assert("m20260417_000034_create_app_kv_table"@[8] != "m20260412_000023_add_auth_ray_registration_columns"@[8]);
            assert("m20260417_000034_create_app_kv_table"@[4] != "m20251206_000002_create_user_table"@[4]);
            assert("m20260417_000034_create_app_kv_table"@[6] != "m20260510_000001_create_littlemice_check_table"@[6]);
            assert("m20260417_000034_create_app_kv_table"@[6] != "m20260510_000002_add_littlemice_check_screenshot2_columns"@[6]);
            assert("m20260417_000034_create_app_kv_table"@[7] != "m20260407_000003_add_user_is_superuser_column"@[7]);
            assert("m20260417_000034_create_app_kv_table"@[7] != "m20260407_000004_add_user_deactivation_reason_column"@[7]);
            assert("m20260417_000034_create_app_kv_table"@[7] != "m20260407_000006_add_user_squad_id_column"@[7]);
            assert("m20260417_000034_create_app_kv_table"@[7] != "m20260407_000005_create_audit_log_table"@[7]);
            assert("m20260417_000034_create_app_kv_table"@[7] != "m20260407_000007_create_squad_table"@[7]);
            assert("m20260417_000034_create_app_kv_table"@[7] != "m20260407_000008_create_squad_invite_table"@[7]);
            assert("m20260417_000034_create_app_kv_table"@[7] != "m20260407_000009_create_user_restriction_table"@[7]);
            assert("m20260417_000034_create_app_kv_table"@[7] != "m20260408_000010_create_asset_definition_table"@[7]);
            assert("m20260417_000034_create_app_kv_table"@[7] != "m20260408_000011_create_user_stackable_asset_table"@[7]);
            assert("m20260417_000034_create_app_kv_table"@[7] != "m20260408_000012_create_user_entitlement_table"@[7]);
            assert("m20260417_000034_create_app_kv_table"@[7] != "m20260408_000013_create_user_expirable_asset_table"@[7]);
            assert("m20260417_000034_create_app_kv_table"@[7] != "m20260408_000014_create_inventory_operation_table"@[7]);
            assert("m20260417_000034_create_app_kv_table"@[7] != "m20260408_000015_create_wallet_balance_table"@[7]);
            assert("m20260417_000034_create_app_kv_table"@[7] != "m20260408_000016_create_wallet_transaction_table"@[7]);
            assert("m20260417_000034_create_app_kv_table"@[7] != "m20260408_000017_create_default_skin_table"@[7]);
            assert("m20260417_000034_create_app_kv_table"@[7] != "m20260408_000018_create_service_token_table"@[7]);
            assert("m20260417_000034_create_app_kv_table"@[7] != "m20260408_000019_create_service_token_audit_table"@[7]);
            assert("m20260417_000034_create_app_kv_table"@[7] != "m20260409_000020_create_lootbox_definition_table"@[7]);
            assert("m20260417_000034_create_app_kv_table"@[7] != "m20260409_000021_create_lootbox_drop_definition_table"@[7]);
            assert("m20260417_000034_create_app_kv_table"@[7] != "m20260409_000022_create_lootbox_open_operation_table"@[7]);
            assert("m20260417_000034_create_app_kv_table"@[15] != "m20260417_000036_add_lootbox_reward_compensation_columns"@[15]);
            assert("m20260417_000034_create_app_kv_table"@[8] != "m20260412_000024_create_shop_product_table"@[8]);
            assert("m20260417_000034_create_app_kv_table"@[8] != "m20260412_000025_create_shop_product_locale_table"@[8]);
            assert("m20260417_000034_create_app_kv_table"@[8] != "m20260412_000026_create_shop_order_table"@[8]);
            assert("m20260417_000034_create_app_kv_table"@[8] != "m20260412_000027_create_shop_payment_attempt_table"@[8]);
            assert("m20260417_000034_create_app_kv_table"@[8] != "m20260413_000028_add_shop_order_payment_lifecycle_columns"@[8]);
            assert("m20260417_000034_create_app_kv_table"@[8] != "m20260413_000029_add_shop_payment_attempt_provider_index"@[8]);
            assert("m20260417_000034_create_app_kv_table"@[8] != "m20260413_000030_create_discord_broadcast_table"@[8]);
            assert("m20260417_000034_create_app_kv_table"@[8] != "m20260413_000031_create_discord_delivery_table"@[8]);
            assert("m20260417_000034_create_app_kv_table"@[8] != "m20260419_000036_create_email_delivery_table"@[8]);
            assert("m20260417_000034_create_app_kv_table"@[8] != "m20260413_000032_add_asset_definition_gunskin_columns"@[8]);
            assert("m20260417_000034_create_app_kv_table"@[8] != "m20260413_000033_create_user_selected_gunskin_table"@[8]);
        },
        Migration::CreateShopReceiptTable => {
            assert("m20260417_000035_create_shop_receipt_table"@[4] != "m20251206_000001_create_auth_ray_table"@[4]);
            assert("m20260417_000035_create_shop_receipt_table"@[8] != "m20260412_000023_add_auth_ray_registration_columns"@[8]);
            assert("m20260417_000035_create_shop_receipt_table"@[4] != "m20251206_000002_create_user_table"@[4]);
            assert("m20260417_000035_create_shop_receipt_table"@[6] != "m20260510_000001_create_littlemice_check_table"@[6]);
            assert("m20260417_000035_create_shop_receipt_table"@[6] != "m20260510_000002_add_littlemice_check_screenshot2_columns"@[6]);
            assert("m20260417_000035_create_shop_receipt_table"@[7] != "m20260407_000003_add_user_is_superuser_column"@[7]);
            assert("m20260417_000035_create_shop_receipt_table"@[7] != "m20260407_000004_add_user_deactivation_reason_column"@[7]);
            assert("m20260417_000035_create_shop_receipt_table"@[7] != "m20260407_000006_add_user_squad_id_column"@[7]);
            assert("m20260417_000035_create_shop_receipt_table"@[7] != "m20260407_000005_create_audit_log_table"@[7]);
            assert("m20260417_000035_create_shop_receipt_table"@[7] != "m20260407_000007_create_squad_table"@[7]);
            assert("m20260417_000035_create_shop_receipt_table"@[7] != "m20260407_000008_create_squad_invite_table"@[7]);
            assert("m20260417_000035_create_shop_receipt_table"@[7] != "m20260407_000009_create_user_restriction_table"@[7]);
            assert("m20260417_000035_create_shop_receipt_table"@[7] != "m20260408_000010_create_asset_definition_table"@[7]);
            assert("m20260417_000035_create_shop_receipt_table"@[7] != "m20260408_000011_create_user_stackable_asset_table"@[7]);
            assert("m20260417_000035_create_shop_receipt_table"@[7] != "m20260408_000012_create_user_entitlement_table"@[7]);
            assert("m20260417_000035_create_shop_receipt_table"@[7] != "m20260408_000013_create_user_expirable_asset_table"@[7]);
            assert("m20260417_000035_create_shop_receipt_table"@[7] != "m20260408_000014_create_inventory_operation_table"@[7]);
            assert("m20260417_000035_create_shop_receipt_table"@[7] != "m20260408_000015_create_wallet_balance_table"@[7]);
            assert("m20260417_000035_create_shop_receipt_table"@[7] != "m20260408_000016_create_wallet_transaction_table"@[7]);
            assert("m20260417_000035_create_shop_receipt_table"@[7] != "m20260408_000017_create_default_skin_table"@[7]);
            assert("m20260417_000035_create_shop_receipt_table"@[7] != "m20260408_000018_create_service_token_table"@[7]);
            assert("m20260417_000035_create_shop_receipt_table"@[7] != "m20260408_000019_create_service_token_audit_table"@[7]);
            assert("m20260417_000035_create_shop_receipt_table"@[7] != "m20260409_000020_create_lootbox_definition_table"@[7]);
            assert("m20260417_000035_create_shop_receipt_table"@[7] != "m20260409_000021_create_lootbox_drop_definition_table"@[7]);
            assert("m20260417_000035_create_shop_receipt_table"@[7] != "m20260409_000022_create_lootbox_open_operation_table"@[7]);
            assert("m20260417_000035_create_shop_receipt_table"@[15] != "m20260417_000036_add_lootbox_reward_compensation_columns"@[15]);
            assert("m20260417_000035_create_shop_receipt_table"@[8] != "m20260412_000024_create_shop_product_table"@[8]);
            assert("m20260417_000035_create_shop_receipt_table"@[8] != "m20260412_000025_create_shop_product_locale_table"@[8]);
            assert("m20260417_000035_create_shop_receipt_table"@[8] != "m20260412_000026_create_shop_order_table"@[8]);
            assert("m20260417_000035_create_shop_receipt_table"@[8] != "m20260412_000027_create_shop_payment_attempt_table"@[8]);
            assert("m20260417_000035_create_shop_receipt_table"@[8] != "m20260413_000028_add_shop_order_payment_lifecycle_columns"@[8]);
            assert("m20260417_000035_create_shop_receipt_table"@[8] != "m20260413_000029_add_shop_payment_attempt_provider_index"@[8]);
            assert("m20260417_000035_create_shop_receipt_table"@[8] != "m20260413_000030_create_discord_broadcast_table"@[8]);
            assert("m20260417_000035_create_shop_receipt_table"@[8] != "m20260413_000031_create_discord_delivery_table"@[8]);
            assert("m20260417_000035_create_shop_receipt_table"@[8] != "m20260419_000036_create_email_delivery_table"@[8]);
            assert("m20260417_000035_create_shop_receipt_table"@[8] != "m20260413_000032_add_asset_definition_gunskin_columns"@[8]);
            assert("m20260417_000035_create_shop_receipt_table"@[8] != "m20260413_000033_create_user_selected_gunskin_table"@[8]);
            assert("m20260417_000035_create_shop_receipt_table"@[15] != "m20260417_000034_create_app_kv_table"@[15]);
        },
        Migration::CreateMetricsTables => {
            assert("m20260710_000001_create_metrics_tables"@[4] != "m20251206_000001_create_auth_ray_table"@[4]);
            assert("m20260710_000001_create_metrics_tables"@[6] != "m20260412_000023_add_auth_ray_registration_columns"@[6]);
            assert("m20260710_000001_create_metrics_tables"@[4] != "m20251206_000002_create_user_table"@[4]);
            assert("m20260710_000001_create_metrics_tables"@[6] != "m20260510_000001_create_littlemice_check_table"@[6]);
            assert("m20260710_000001_create_metrics_tables"@[6] != "m20260510_000002_add_littlemice_check_screenshot2_columns"@[6]);
            assert("m20260710_000001_create_metrics_tables"@[6] != "m20260407_000003_add_user_is_superuser_column"@[6]);
            assert("m20260710_000001_create_metrics_tables"@[6] != "m20260407_000004_add_user_deactivation_reason_column"@[6]);
            assert("m20260710_000001_create_metrics_tables"@[6] != "m20260407_000006_add_user_squad_id_column"@[6]);
            assert("m20260710_000001_create_metrics_tables"@[6] != "m20260407_000005_create_audit_log_table"@[6]);
            assert("m20260710_000001_create_metrics_tables"@[6] != "m20260407_000007_create_squad_table"@[6]);
            assert("m20260710_000001_create_metrics_tables"@[6] != "m20260407_000008_create_squad_invite_table"@[6]);
            assert("m20260710_000001_create_metrics_tables"@[6] != "m20260407_000009_create_user_restriction_table"@[6]);
            assert("m20260710_000001_create_metrics_tables"@[6] != "m20260408_000010_create_asset_definition_table"@[6]);
            assert("m20260710_000001_create_metrics_tables"@[6] != "m20260408_000011_create_user_stackable_asset_table"@[6]);
            assert("m20260710_000001_create_metrics_tables"@[6] != "m20260408_000012_create_user_entitlement_table"@[6]);
            assert("m20260710_000001_create_metrics_tables"@[6] != "m20260408_000013_create_user_expirable_asset_table"@[6]);
            assert("m20260710_000001_create_metrics_tables"@[6] != "m20260408_000014_create_inventory_operation_table"@[6]);
            assert("m20260710_000001_create_metrics_tables"@[6] != "m20260408_000015_create_wallet_balance_table"@[6]);
            assert("m20260710_000001_create_metrics_tables"@[6] != "m20260408_000016_create_wallet_transaction_table"@[6]);
            assert("m20260710_000001_create_metrics_tables"@[6] != "m20260408_000017_create_default_skin_table"@[6]);
            assert("m20260710_000001_create_metrics_tables"@[6] != "m20260408_000018_create_service_token_table"@[6]);
            assert("m20260710_000001_create_metrics_tables"@[6] != "m20260408_000019_create_service_token_audit_table"@[6]);
            assert("m20260710_000001_create_metrics_tables"@[6] != "m20260409_000020_create_lootbox_definition_table"@[6]);
            assert("m20260710_000001_create_metrics_tables"@[6] != "m20260409_000021_create_lootbox_drop_definition_table"@[6]);
            assert("m20260710_000001_create_metrics_tables"@[6] != "m20260409_000022_create_lootbox_open_operation_table"@[6]);
            assert("m20260710_000001_create_metrics_tables"@[6] != "m20260417_000036_add_lootbox_reward_compensation_columns"@[6]);
            assert("m20260710_000001_create_metrics_tables"@[6] != "m20260412_000024_create_shop_product_table"@[6]);
            assert("m20260710_000001_create_metrics_tables"@[6] != "m20260412_000025_create_shop_product_locale_table"@[6]);
            assert("m20260710_000001_create_metrics_tables"@[6] != "m20260412_000026_create_shop_order_table"@[6]);
            assert("m20260710_000001_create_metrics_tables"@[6] != "m20260412_000027_create_shop_payment_attempt_table"@[6]);
            assert("m20260710_000001_create_metrics_tables"@[6] != "m20260413_000028_add_shop_order_payment_lifecycle_columns"@[6]);
            assert("m20260710_000001_create_metrics_tables"@[6] != "m20260413_000029_add_shop_payment_attempt_provider_index"@[6]);
            assert("m20260710_000001_create_metrics_tables"@[6] != "m20260413_000030_create_discord_broadcast_table"@[6]);
            assert("m20260710_000001_create_metrics_tables"@[6] != "m20260413_000031_create_discord_delivery_table"@[6]);
            assert("m20260710_000001_create_metrics_tables"@[6] != "m20260419_000036_create_email_delivery_table"@[6]);
            assert("m20260710_000001_create_metrics_tables"@[6] != "m20260413_000032_add_asset_definition_gunskin_columns"@[6]);
            assert("m20260710_000001_create_metrics_tables"@[6] != "m20260413_000033_create_user_selected_gunskin_table"@[6]);
            assert("m20260710_000001_create_metrics_tables"@[6] != "m20260417_000034_create_app_kv_table"@[6]);
            assert("m20260710_000001_create_metrics_tables"@[6] != "m20260417_000035_create_shop_receipt_table"@[6]);
        },
    }
}

/// The migrations the service runs at start-up, in order.
pub fn run_order() -> (r: Vec<Migration>)
    ensures
        r@ == seq![
            Migration::CreateAppKvTable,
            Migration::CreateAuthRayTable,
            Migration::AddAuthRayRegistrationColumns,
            Migration::CreateUserTable,
            Migration::AddUserSuperuserColumn,
            Migration::AddUserDeactivationReasonColumn,
            Migration::AddUserSquadIdColumn,
            Migration::CreateAuditLogTable,
            Migration::CreateSquadTable,
            Migration::CreateSquadInviteTable,
            Migration::CreateUserRestrictionTable,
            Migration::CreateAssetDefinitionTable,
            Migration::CreateUserStackableAssetTable,
            Migration::CreateUserEntitlementTable,
            Migration::CreateUserExpirableAssetTable,
            Migration::CreateInventoryOperationTable,
            Migration::CreateWalletBalanceTable,
            Migration::CreateWalletTransactionTable,
            Migration::CreateDefaultSkinTable,
            Migration::CreateServiceTokenTable,
            Migration::CreateServiceTokenAuditTable,
            Migration::CreateLootboxDefinitionTable,
            Migration::CreateLootboxDropDefinitionTable,
            Migration::CreateLootboxOpenOperationTable,
            Migration::AddLootboxRewardCompensationColumns,
            Migration::CreateShopProductTable,
            Migration::CreateShopProductLocaleTable,
            Migration::CreateShopOrderTable,
            Migration::CreateShopPaymentAttemptTable,
            Migration::CreateShopReceiptTable,
            Migration::CreateDiscordBroadcastTable,
            Migration::CreateDiscordDeliveryTable,
            Migration::CreateEmailDeliveryTable,
            Migration::AddShopOrderPaymentLifecycleColumns,
            Migration::AddShopPaymentAttemptProviderIndex,
            Migration::AddAssetDefinitionGunskinColumns,
            Migration::CreateUserSelectedGunskinTable,
        ],
{
    let mut v: Vec<Migration> = Vec::new();
    v.push(Migration::CreateAppKvTable);
    v.push(Migration::CreateAuthRayTable);
    v.push(Migration::AddAuthRayRegistrationColumns);
    v.push(Migration::CreateUserTable);
    v.push(Migration::AddUserSuperuserColumn);
    v.push(Migration::AddUserDeactivationReasonColumn);
    v.push(Migration::AddUserSquadIdColumn);
    v.push(Migration::CreateAuditLogTable);
    v.push(Migration::CreateSquadTable);
    v.push(Migration::CreateSquadInviteTable);
    v.push(Migration::CreateUserRestrictionTable);
    v.push(Migration::CreateAssetDefinitionTable);
    v.push(Migration::CreateUserStackableAssetTable);
    v.push(Migration::CreateUserEntitlementTable);
    v.push(Migration::CreateUserExpirableAssetTable);
    v.push(Migration::CreateInventoryOperationTable);
    v.push(Migration::CreateWalletBalanceTable);
    v.push(Migration::CreateWalletTransactionTable);
    v.push(Migration::CreateDefaultSkinTable);
    v.push(Migration::CreateServiceTokenTable);
    v.push(Migration::CreateServiceTokenAuditTable);
    v.push(Migration::CreateLootboxDefinitionTable);
    v.push(Migration::CreateLootboxDropDefinitionTable);
    v.push(Migration::CreateLootboxOpenOperationTable);
    v.push(Migration::AddLootboxRewardCompensationColumns);
    v.push(Migration::CreateShopProductTable);
    v.push(Migration::CreateShopProductLocaleTable);
    v.push(Migration::CreateShopOrderTable);
    v.push(Migration::CreateShopPaymentAttemptTable);
    v.push(Migration::CreateShopReceiptTable);
    v.push(Migration::CreateDiscordBroadcastTable);
    v.push(Migration::CreateDiscordDeliveryTable);
    v.push(Migration::CreateEmailDeliveryTable);
    v.push(Migration::AddShopOrderPaymentLifecycleColumns);
    v.push(Migration::AddShopPaymentAttemptProviderIndex);
    v.push(Migration::AddAssetDefinitionGunskinColumns);
    v.push(Migration::CreateUserSelectedGunskinTable);
    assert(v@ =~= seq![
        Migration::CreateAppKvTable,
        Migration::CreateAuthRayTable,
        Migration::AddAuthRayRegistrationColumns,
        Migration::CreateUserTable,
        Migration::AddUserSuperuserColumn,
        Migration::AddUserDeactivationReasonColumn,
        Migration::AddUserSquadIdColumn,
        Migration::CreateAuditLogTable,
        Migration::CreateSquadTable,
        Migration::CreateSquadInviteTable,
        Migration::CreateUserRestrictionTable,
        Migration::CreateAssetDefinitionTable,
        Migration::CreateUserStackableAssetTable,
        Migration::CreateUserEntitlementTable,
        Migration::CreateUserExpirableAssetTable,
        Migration::CreateInventoryOperationTable,
        Migration::CreateWalletBalanceTable,
        Migration::CreateWalletTransactionTable,
        Migration::CreateDefaultSkinTable,
        Migration::CreateServiceTokenTable,
        Migration::CreateServiceTokenAuditTable,
        Migration::CreateLootboxDefinitionTable,
        Migration::CreateLootboxDropDefinitionTable,
        Migration::CreateLootboxOpenOperationTable,
        Migration::AddLootboxRewardCompensationColumns,
        Migration::CreateShopProductTable,
        Migration::CreateShopProductLocaleTable,
        Migration::CreateShopOrderTable,
        Migration::CreateShopPaymentAttemptTable,
        Migration::CreateShopReceiptTable,
        Migration::CreateDiscordBroadcastTable,
        Migration::CreateDiscordDeliveryTable,
        Migration::CreateEmailDeliveryTable,
        Migration::AddShopOrderPaymentLifecycleColumns,
        Migration::AddShopPaymentAttemptProviderIndex,
        Migration::AddAssetDefinitionGunskinColumns,
        Migration::CreateUserSelectedGunskinTable,
    ]);
    v
}

/// The database systems the service can run on.
#[derive(Clone, Copy, Debug, PartialEq, Eq, Structural)]
pub enum Backend {
    Postgres,
    Sqlite,
    MySql,
}

/// How a migration is written.
#[derive(Clone, Copy, Debug, PartialEq, Eq, Structural)]
pub enum MigrationKind {
    /// Column additions and indexes written as SQL, run on Postgres and
    /// SQLite only.
    Statements,
    /// A table built with the schema builder, followed by SQL index
    /// statements run on every backend.
    TableWithIndexes,
    /// A table built with the schema builder only.
    Table,
}

pub open spec fn kind_of(m: Migration) -> MigrationKind {
    match m {
        Migration::AddAuthRayRegistrationColumns => MigrationKind::Statements,
        Migration::AddLittlemiceCheckScreenshot2Columns => MigrationKind::Statements,
        Migration::AddUserSuperuserColumn => MigrationKind::Statements,
        Migration::AddUserDeactivationReasonColumn => MigrationKind::Statements,
        Migration::AddUserSquadIdColumn => MigrationKind::Statements,
        Migration::AddLootboxRewardCompensationColumns => MigrationKind::Statements,
        Migration::AddShopOrderPaymentLifecycleColumns => MigrationKind::Statements,
        Migration::AddShopPaymentAttemptProviderIndex => MigrationKind::Statements,
        Migration::AddAssetDefinitionGunskinColumns => MigrationKind::Statements,
        Migration::CreateDiscordDeliveryTable => MigrationKind::TableWithIndexes,
        Migration::CreateEmailDeliveryTable => MigrationKind::TableWithIndexes,
        Migration::CreateUserSelectedGunskinTable => MigrationKind::TableWithIndexes,
        Migration::CreateShopReceiptTable => MigrationKind::TableWithIndexes,
        _ => MigrationKind::Table,
    }
}

pub fn migration_kind(m: Migration) -> (r: MigrationKind)
    ensures
        r == kind_of(m),
{
    match m {
        Migration::AddAuthRayRegistrationColumns => MigrationKind::Statements,
        Migration::AddLittlemiceCheckScreenshot2Columns => MigrationKind::Statements,
        Migration::AddUserSuperuserColumn => MigrationKind::Statements,
        Migration::AddUserDeactivationReasonColumn => MigrationKind::Statements,
        Migration::AddUserSquadIdColumn => MigrationKind::Statements,
        Migration::AddLootboxRewardCompensationColumns => MigrationKind::Statements,
        Migration::AddShopOrderPaymentLifecycleColumns => MigrationKind::Statements,
        Migration::AddShopPaymentAttemptProviderIndex => MigrationKind::Statements,
        Migration::AddAssetDefinitionGunskinColumns => MigrationKind::Statements,
        Migration::CreateDiscordDeliveryTable => MigrationKind::TableWithIndexes,
        Migration::CreateEmailDeliveryTable => MigrationKind::TableWithIndexes,
        Migration::CreateUserSelectedGunskinTable => MigrationKind::TableWithIndexes,
        Migration::CreateShopReceiptTable => MigrationKind::TableWithIndexes,
        _ => MigrationKind::Table,
    }
}

/// The SQL statements of a migration, in order.
pub open spec fn statements_spec(m: Migration) -> Seq<Seq<char>> {
    match m {
        Migration::AddAuthRayRegistrationColumns => seq![
            "ALTER TABLE \"auth_ray\" ADD COLUMN \"registration_token\" varchar NULL"@,
            "ALTER TABLE \"auth_ray\" ADD COLUMN \"pending_discord_id\" varchar NULL"@,
            "ALTER TABLE \"auth_ray\" ADD COLUMN \"pending_username\" varchar NULL"@,
            "ALTER TABLE \"auth_ray\" ADD COLUMN \"pending_avatar_url\" varchar NULL"@,
            "ALTER TABLE \"auth_ray\" ADD COLUMN \"pending_email\" varchar NULL"@,
        ],
        Migration::AddLittlemiceCheckScreenshot2Columns => seq![
            "ALTER TABLE \"littlemice_check\" ADD COLUMN \"screenshot2_s3_key\" varchar NULL"@,
            "ALTER TABLE \"littlemice_check\" ADD COLUMN \"screenshot2_content_type\" varchar NULL"@,
            "ALTER TABLE \"littlemice_check\" ADD COLUMN \"screenshot2_size_bytes\" bigint NULL"@,
        ],
        Migration::AddUserSuperuserColumn => seq![
            "ALTER TABLE \"user\" ADD COLUMN \"is_superuser\" boolean NOT NULL DEFAULT false"@,
        ],
        Migration::AddUserDeactivationReasonColumn => seq![
            "ALTER TABLE \"user\" ADD COLUMN \"deactivation_reason\" varchar NULL"@,
        ],
        Migration::AddUserSquadIdColumn => seq![
            "ALTER TABLE \"user\" ADD COLUMN \"squad_id\" uuid NULL"@,
        ],
        Migration::AddLootboxRewardCompensationColumns => seq![
            "ALTER TABLE \"lootbox_drop_definition\" ADD COLUMN \"duplicate_compensation_amount\" bigint NULL"@,
            "ALTER TABLE \"lootbox_open_operation\" ADD COLUMN \"granted_asset_definition_id\" uuid NULL"@,
            "ALTER TABLE \"lootbox_open_operation\" ADD COLUMN \"granted_ownership_model\" varchar NULL"@,
            "ALTER TABLE \"lootbox_open_operation\" ADD COLUMN \"granted_amount\" bigint NULL"@,
            "ALTER TABLE \"lootbox_open_operation\" ADD COLUMN \"granted_duration_seconds\" bigint NULL"@,
            "ALTER TABLE \"lootbox_open_operation\" ADD COLUMN \"granted_expires_at\" timestamptz NULL"@,
            "ALTER TABLE \"lootbox_open_operation\" ADD COLUMN \"granted_title\" varchar NULL"@,
            "ALTER TABLE \"lootbox_open_operation\" ADD COLUMN \"was_compensated\" boolean NOT NULL DEFAULT false"@,
            "UPDATE \"lootbox_open_operation\" SET \"granted_asset_definition_id\" = \"reward_asset_definition_id\" WHERE \"granted_asset_definition_id\" IS NULL"@,
            "UPDATE \"lootbox_open_operation\" SET \"granted_ownership_model\" = \"reward_ownership_model\" WHERE \"granted_ownership_model\" IS NULL"@,
            "UPDATE \"lootbox_open_operation\" SET \"granted_amount\" = \"reward_amount\" WHERE \"granted_amount\" IS NULL"@,
            "UPDATE \"lootbox_open_operation\" SET \"granted_duration_seconds\" = \"reward_duration_seconds\" WHERE \"granted_duration_seconds\" IS NULL"@,
            "UPDATE \"lootbox_open_operation\" SET \"granted_expires_at\" = \"reward_expires_at\" WHERE \"granted_expires_at\" IS NULL"@,
            "UPDATE \"lootbox_open_operation\" SET \"granted_title\" = \"reward_title\" WHERE \"granted_title\" IS NULL"@,
        ],
        Migration::AddShopOrderPaymentLifecycleColumns => seq![
            "ALTER TABLE \"shop_order\" ADD COLUMN \"payment_expires_at\" timestamptz NULL"@,
            "CREATE INDEX IF NOT EXISTS \"idx_shop_order_status_payment_expires_at\" ON \"shop_order\" (\"status\", \"payment_expires_at\")"@,
        ],
        Migration::AddShopPaymentAttemptProviderIndex => seq![
            "CREATE UNIQUE INDEX IF NOT EXISTS \"idx_shop_payment_attempt_provider_payment_id\" ON \"shop_payment_attempt\" (\"provider\", \"provider_payment_id\")"@,
        ],
        Migration::AddAssetDefinitionGunskinColumns => seq![
            "ALTER TABLE \"asset_definition\" ADD COLUMN \"weapon_key\" varchar NULL"@,
            "ALTER TABLE \"asset_definition\" ADD COLUMN \"rarity\" varchar NULL"@,
            "ALTER TABLE \"asset_definition\" ADD COLUMN \"image_key\" varchar NULL"@,
            "ALTER TABLE \"asset_definition\" ADD COLUMN \"image_content_type\" varchar NULL"@,
            "CREATE INDEX IF NOT EXISTS \"idx_asset_definition_weapon_key\" ON \"asset_definition\" (\"weapon_key\")"@,
        ],
        Migration::CreateDiscordDeliveryTable => seq![
            "CREATE INDEX IF NOT EXISTS \"idx_discord_delivery_status_created_at\" ON \"discord_delivery\" (\"status\", \"created_at\")"@,
            "CREATE INDEX IF NOT EXISTS \"idx_discord_delivery_broadcast_id\" ON \"discord_delivery\" (\"broadcast_id\")"@,
        ],
        Migration::CreateEmailDeliveryTable => seq![
            "CREATE INDEX IF NOT EXISTS \"idx_email_delivery_status_created_at\" ON \"email_delivery\" (\"status\", \"created_at\")"@,
            "CREATE INDEX IF NOT EXISTS \"idx_email_delivery_user_id\" ON \"email_delivery\" (\"user_id\")"@,
        ],
        Migration::CreateUserSelectedGunskinTable => seq![
            "CREATE INDEX IF NOT EXISTS \"idx_user_selected_gunskin_asset_definition_id\" ON \"user_selected_gunskin\" (\"asset_definition_id\")"@,
            "CREATE INDEX IF NOT EXISTS \"idx_user_selected_gunskin_weapon_key\" ON \"user_selected_gunskin\" (\"weapon_key\")"@,
        ],
        Migration::CreateShopReceiptTable => seq![
            "CREATE UNIQUE INDEX IF NOT EXISTS \"idx_shop_receipt_order_id\" ON \"shop_receipt\" (\"order_id\")"@,
            "CREATE INDEX IF NOT EXISTS \"idx_shop_receipt_status_next_attempt_at\" ON \"shop_receipt\" (\"status\", \"next_attempt_at\")"@,
            "CREATE INDEX IF NOT EXISTS \"idx_shop_receipt_locked_until\" ON \"shop_receipt\" (\"locked_until\")"@,
        ],
        _ => Seq::empty(),
    }
}

/// The SQL statements a migration runs on a backend: the written
/// statements of a statement migration only on Postgres and SQLite, the
/// index statements after a table on every backend.
pub open spec fn statements_for(m: Migration, backend: Backend) -> Seq<Seq<char>> {
    if kind_of(m) == MigrationKind::Statements && backend == Backend::MySql {
        Seq::empty()
    } else {
        statements_spec(m)
    }
}

pub open spec fn views(v: Seq<&'static str>) -> Seq<Seq<char>> {
    v.map_values(|s: &'static str| s@)
}

pub fn sql_statements(m: Migration, backend: Backend) -> (r: Vec<&'static str>)
    ensures
        views(r@) == statements_for(m, backend),
{
    let mut v: Vec<&'static str> = Vec::new();
    if migration_kind(m) == MigrationKind::Statements && backend == Backend::MySql {
        assert(views(v@) =~= Seq::<Seq<char>>::empty());
        return v;
    }
    match m {
        Migration::AddAuthRayRegistrationColumns => {
            v.push("ALTER TABLE \"auth_ray\" ADD COLUMN \"registration_token\" varchar NULL");
            v.push("ALTER TABLE \"auth_ray\" ADD COLUMN \"pending_discord_id\" varchar NULL");
            v.push("ALTER TABLE \"auth_ray\" ADD COLUMN \"pending_username\" varchar NULL");
            v.push("ALTER TABLE \"auth_ray\" ADD COLUMN \"pending_avatar_url\" varchar NULL");
            v.push("ALTER TABLE \"auth_ray\" ADD COLUMN \"pending_email\" varchar NULL");
            assert(views(v@) =~= seq![
                "ALTER TABLE \"auth_ray\" ADD COLUMN \"registration_token\" varchar NULL"@,
                "ALTER TABLE \"auth_ray\" ADD COLUMN \"pending_discord_id\" varchar NULL"@,
                "ALTER TABLE \"auth_ray\" ADD COLUMN \"pending_username\" varchar NULL"@,
                "ALTER TABLE \"auth_ray\" ADD COLUMN \"pending_avatar_url\" varchar NULL"@,
                "ALTER TABLE \"auth_ray\" ADD COLUMN \"pending_email\" varchar NULL"@,
            ]);
        },
        Migration::AddLittlemiceCheckScreenshot2Columns => {
            v.push("ALTER TABLE \"littlemice_check\" ADD COLUMN \"screenshot2_s3_key\" varchar NULL");
            v.push("ALTER TABLE \"littlemice_check\" ADD COLUMN \"screenshot2_content_type\" varchar NULL");
            v.push("ALTER TABLE \"littlemice_check\" ADD COLUMN \"screenshot2_size_bytes\" bigint NULL");
            assert(views(v@) =~= seq![
                "ALTER TABLE \"littlemice_check\" ADD COLUMN \"screenshot2_s3_key\" varchar NULL"@,
                "ALTER TABLE \"littlemice_check\" ADD COLUMN \"screenshot2_content_type\" varchar NULL"@,
                "ALTER TABLE \"littlemice_check\" ADD COLUMN \"screenshot2_size_bytes\" bigint NULL"@,
            ]);
        },
        Migration::AddUserSuperuserColumn => {
            v.push("ALTER TABLE \"user\" ADD COLUMN \"is_superuser\" boolean NOT NULL DEFAULT false");
            assert(views(v@) =~= seq![
                "ALTER TABLE \"user\" ADD COLUMN \"is_superuser\" boolean NOT NULL DEFAULT false"@,
            ]);
        },
        Migration::AddUserDeactivationReasonColumn => {
            v.push("ALTER TABLE \"user\" ADD COLUMN \"deactivation_reason\" varchar NULL");
            assert(views(v@) =~= seq![
                "ALTER TABLE \"user\" ADD COLUMN \"deactivation_reason\" varchar NULL"@,
            ]);
        },
        Migration::AddUserSquadIdColumn => {
            v.push("ALTER TABLE \"user\" ADD COLUMN \"squad_id\" uuid NULL");
            assert(views(v@) =~= seq![
                "ALTER TABLE \"user\" ADD COLUMN \"squad_id\" uuid NULL"@,
            ]);
        },
        Migration::AddLootboxRewardCompensationColumns => {
            v.push("ALTER TABLE \"lootbox_drop_definition\" ADD COLUMN \"duplicate_compensation_amount\" bigint NULL");
            v.push("ALTER TABLE \"lootbox_open_operation\" ADD COLUMN \"granted_asset_definition_id\" uuid NULL");
            v.push("ALTER TABLE \"lootbox_open_operation\" ADD COLUMN \"granted_ownership_model\" varchar NULL");
            v.push("ALTER TABLE \"lootbox_open_operation\" ADD COLUMN \"granted_amount\" bigint NULL");
            v.push("ALTER TABLE \"lootbox_open_operation\" ADD COLUMN \"granted_duration_seconds\" bigint NULL");
            v.push("ALTER TABLE \"lootbox_open_operation\" ADD COLUMN \"granted_expires_at\" timestamptz NULL");
            v.push("ALTER TABLE \"lootbox_open_operation\" ADD COLUMN \"granted_title\" varchar NULL");
            v.push("ALTER TABLE \"lootbox_open_operation\" ADD COLUMN \"was_compensated\" boolean NOT NULL DEFAULT false");
            v.push("UPDATE \"lootbox_open_operation\" SET \"granted_asset_definition_id\" = \"reward_asset_definition_id\" WHERE \"granted_asset_definition_id\" IS NULL");
            v.push("UPDATE \"lootbox_open_operation\" SET \"granted_ownership_model\" = \"reward_ownership_model\" WHERE \"granted_ownership_model\" IS NULL");
            v.push("UPDATE \"lootbox_open_operation\" SET \"granted_amount\" = \"reward_amount\" WHERE \"granted_amount\" IS NULL");
            v.push("UPDATE \"lootbox_open_operation\" SET \"granted_duration_seconds\" = \"reward_duration_seconds\" WHERE \"granted_duration_seconds\" IS NULL");
            v.push("UPDATE \"lootbox_open_operation\" SET \"granted_expires_at\" = \"reward_expires_at\" WHERE \"granted_expires_at\" IS NULL");
            v.push("UPDATE \"lootbox_open_operation\" SET \"granted_title\" = \"reward_title\" WHERE \"granted_title\" IS NULL");
            assert(views(v@) =~= seq![
                "ALTER TABLE \"lootbox_drop_definition\" ADD COLUMN \"duplicate_compensation_amount\" bigint NULL"@,
                "ALTER TABLE \"lootbox_open_operation\" ADD COLUMN \"granted_asset_definition_id\" uuid NULL"@,
                "ALTER TABLE \"lootbox_open_operation\" ADD COLUMN \"granted_ownership_model\" varchar NULL"@,
                "ALTER TABLE \"lootbox_open_operation\" ADD COLUMN \"granted_amount\" bigint NULL"@,
                "ALTER TABLE \"lootbox_open_operation\" ADD COLUMN \"granted_duration_seconds\" bigint NULL"@,
                "ALTER TABLE \"lootbox_open_operation\" ADD COLUMN \"granted_expires_at\" timestamptz NULL"@,
                "ALTER TABLE \"lootbox_open_operation\" ADD COLUMN \"granted_title\" varchar NULL"@,
                "ALTER TABLE \"lootbox_open_operation\" ADD COLUMN \"was_compensated\" boolean NOT NULL DEFAULT false"@,
                "UPDATE \"lootbox_open_operation\" SET \"granted_asset_definition_id\" = \"reward_asset_definition_id\" WHERE \"granted_asset_definition_id\" IS NULL"@,
                "UPDATE \"lootbox_open_operation\" SET \"granted_ownership_model\" = \"reward_ownership_model\" WHERE \"granted_ownership_model\" IS NULL"@,
                "UPDATE \"lootbox_open_operation\" SET \"granted_amount\" = \"reward_amount\" WHERE \"granted_amount\" IS NULL"@,
                "UPDATE \"lootbox_open_operation\" SET \"granted_duration_seconds\" = \"reward_duration_seconds\" WHERE \"granted_duration_seconds\" IS NULL"@,
                "UPDATE \"lootbox_open_operation\" SET \"granted_expires_at\" = \"reward_expires_at\" WHERE \"granted_expires_at\" IS NULL"@,
                "UPDATE \"lootbox_open_operation\" SET \"granted_title\" = \"reward_title\" WHERE \"granted_title\" IS NULL"@,
            ]);
        },
        Migration::AddShopOrderPaymentLifecycleColumns => {
            v.push("ALTER TABLE \"shop_order\" ADD COLUMN \"payment_expires_at\" timestamptz NULL");
            v.push("CREATE INDEX IF NOT EXISTS \"idx_shop_order_status_payment_expires_at\" ON \"shop_order\" (\"status\", \"payment_expires_at\")");
            assert(views(v@) =~= seq![
                "ALTER TABLE \"shop_order\" ADD COLUMN \"payment_expires_at\" timestamptz NULL"@,
                "CREATE INDEX IF NOT EXISTS \"idx_shop_order_status_payment_expires_at\" ON \"shop_order\" (\"status\", \"payment_expires_at\")"@,
            ]);
        },
        Migration::AddShopPaymentAttemptProviderIndex => {
            v.push("CREATE UNIQUE INDEX IF NOT EXISTS \"idx_shop_payment_attempt_provider_payment_id\" ON \"shop_payment_attempt\" (\"provider\", \"provider_payment_id\")");
            assert(views(v@) =~= seq![
                "CREATE UNIQUE INDEX IF NOT EXISTS \"idx_shop_payment_attempt_provider_payment_id\" ON \"shop_payment_attempt\" (\"provider\", \"provider_payment_id\")"@,
            ]);
        },
        Migration::AddAssetDefinitionGunskinColumns => {
            v.push("ALTER TABLE \"asset_definition\" ADD COLUMN \"weapon_key\" varchar NULL");
            v.push("ALTER TABLE \"asset_definition\" ADD COLUMN \"rarity\" varchar NULL");
            v.push("ALTER TABLE \"asset_definition\" ADD COLUMN \"image_key\" varchar NULL");
            v.push("ALTER TABLE \"asset_definition\" ADD COLUMN \"image_content_type\" varchar NULL");
            v.push("CREATE INDEX IF NOT EXISTS \"idx_asset_definition_weapon_key\" ON \"asset_definition\" (\"weapon_key\")");
            assert(views(v@) =~= seq![
                "ALTER TABLE \"asset_definition\" ADD COLUMN \"weapon_key\" varchar NULL"@,
                "ALTER TABLE \"asset_definition\" ADD COLUMN \"rarity\" varchar NULL"@,
                "ALTER TABLE \"asset_definition\" ADD COLUMN \"image_key\" varchar NULL"@,
                "ALTER TABLE \"asset_definition\" ADD COLUMN \"image_content_type\" varchar NULL"@,
                "CREATE INDEX IF NOT EXISTS \"idx_asset_definition_weapon_key\" ON \"asset_definition\" (\"weapon_key\")"@,
            ]);
        },
        Migration::CreateDiscordDeliveryTable => {
            v.push("CREATE INDEX IF NOT EXISTS \"idx_discord_delivery_status_created_at\" ON \"discord_delivery\" (\"status\", \"created_at\")");
            v.push("CREATE INDEX IF NOT EXISTS \"idx_discord_delivery_broadcast_id\" ON \"discord_delivery\" (\"broadcast_id\")");
            assert(views(v@) =~= seq![
                "CREATE INDEX IF NOT EXISTS \"idx_discord_delivery_status_created_at\" ON \"discord_delivery\" (\"status\", \"created_at\")"@,
                "CREATE INDEX IF NOT EXISTS \"idx_discord_delivery_broadcast_id\" ON \"discord_delivery\" (\"broadcast_id\")"@,
            ]);
        },
        Migration::CreateEmailDeliveryTable => {
            v.push("CREATE INDEX IF NOT EXISTS \"idx_email_delivery_status_created_at\" ON \"email_delivery\" (\"status\", \"created_at\")");
            v.push("CREATE INDEX IF NOT EXISTS \"idx_email_delivery_user_id\" ON \"email_delivery\" (\"user_id\")");
            assert(views(v@) =~= seq![
                "CREATE INDEX IF NOT EXISTS \"idx_email_delivery_status_created_at\" ON \"email_delivery\" (\"status\", \"created_at\")"@,
                "CREATE INDEX IF NOT EXISTS \"idx_email_delivery_user_id\" ON \"email_delivery\" (\"user_id\")"@,
            ]);
        },
        Migration::CreateUserSelectedGunskinTable => {
            v.push("CREATE INDEX IF NOT EXISTS \"idx_user_selected_gunskin_asset_definition_id\" ON \"user_selected_gunskin\" (\"asset_definition_id\")");
            v.push("CREATE INDEX IF NOT EXISTS \"idx_user_selected_gunskin_weapon_key\" ON \"user_selected_gunskin\" (\"weapon_key\")");
            assert(views(v@) =~= seq![
                "CREATE INDEX IF NOT EXISTS \"idx_user_selected_gunskin_asset_definition_id\" ON \"user_selected_gunskin\" (\"asset_definition_id\")"@,
                "CREATE INDEX IF NOT EXISTS \"idx_user_selected_gunskin_weapon_key\" ON \"user_selected_gunskin\" (\"weapon_key\")"@,
            ]);
        },
        Migration::CreateShopReceiptTable => {
            v.push("CREATE UNIQUE INDEX IF NOT EXISTS \"idx_shop_receipt_order_id\" ON \"shop_receipt\" (\"order_id\")");
            v.push("CREATE INDEX IF NOT EXISTS \"idx_shop_receipt_status_next_attempt_at\" ON \"shop_receipt\" (\"status\", \"next_attempt_at\")");
            v.push("CREATE INDEX IF NOT EXISTS \"idx_shop_receipt_locked_until\" ON \"shop_receipt\" (\"locked_until\")");
            assert(views(v@) =~= seq![
                "CREATE UNIQUE INDEX IF NOT EXISTS \"idx_shop_receipt_order_id\" ON \"shop_receipt\" (\"order_id\")"@,
                "CREATE INDEX IF NOT EXISTS \"idx_shop_receipt_status_next_attempt_at\" ON \"shop_receipt\" (\"status\", \"next_attempt_at\")"@,
                "CREATE INDEX IF NOT EXISTS \"idx_shop_receipt_locked_until\" ON \"shop_receipt\" (\"locked_until\")"@,
            ]);
        },
        _ => {
            assert(views(v@) =~= Seq::<Seq<char>>::empty());
        },
    }
    v
}

/// The error text reports a column that exists already.
pub open spec fn duplicate_column_text(t: Seq<char>) -> bool {
    let l = lowercase_of(t);
    contains_spec(l, "duplicate column"@) || contains_spec(l, "duplicate column name"@) || contains_spec(
        l,
        "already exists"@,
    )
}

pub fn is_duplicate_column_error(error_text: &str) -> (r: bool)
    ensures
        r == duplicate_column_text(error_text@),
{
    let l = to_lowercase(error_text);
    contains(l.as_str(), "duplicate column") || contains(l.as_str(), "duplicate column name") || contains(
        l.as_str(),
        "already exists",
    )
}

/// The error text reports an index (or another object) that exists
/// already.
pub open spec fn duplicate_index_text(t: Seq<char>) -> bool {
    let l = lowercase_of(t);
    contains_spec(l, "already exists"@) || contains_spec(l, "duplicate"@) || contains_spec(l, "exists"@)
}

pub fn is_duplicate_index_error(error_text: &str) -> (r: bool)
    ensures
        r == duplicate_index_text(error_text@),
{
    let l = to_lowercase(error_text);
    contains(l.as_str(), "already exists") || contains(l.as_str(), "duplicate") || contains(
        l.as_str(),
        "exists",
    )
}

/// Which failures of its statements a migration passes over: a migration
/// that adds columns again finds them present, one that adds indexes finds
/// them present.
pub open spec fn tolerated(m: Migration, error_text: Seq<char>) -> bool {
    match m {
        Migration::AddAuthRayRegistrationColumns => duplicate_column_text(error_text),
        Migration::AddLittlemiceCheckScreenshot2Columns => duplicate_column_text(error_text),
        Migration::AddUserSuperuserColumn => duplicate_column_text(error_text),
        Migration::AddUserDeactivationReasonColumn => duplicate_column_text(error_text),
        Migration::AddUserSquadIdColumn => duplicate_column_text(error_text),
        Migration::AddLootboxRewardCompensationColumns => duplicate_column_text(error_text),
        Migration::AddShopOrderPaymentLifecycleColumns => duplicate_column_text(error_text) || duplicate_index_text(error_text),
        Migration::AddAssetDefinitionGunskinColumns => duplicate_column_text(error_text) || duplicate_index_text(error_text),
        Migration::AddShopPaymentAttemptProviderIndex => duplicate_index_text(error_text),
        Migration::CreateDiscordDeliveryTable => duplicate_index_text(error_text),
        Migration::CreateEmailDeliveryTable => duplicate_index_text(error_text),
        Migration::CreateUserSelectedGunskinTable => duplicate_index_text(error_text),
        Migration::CreateShopReceiptTable => duplicate_index_text(error_text),
        _ => false,
    }
}

/// Whether a migration goes on after a statement failed with the given
/// text.
pub fn statement_failure_tolerated(m: Migration, error_text: &str) -> (r: bool)
    ensures
        r == tolerated(m, error_text@),
{
    match m {
        Migration::AddAuthRayRegistrationColumns => is_duplicate_column_error(error_text),
        Migration::AddLittlemiceCheckScreenshot2Columns => is_duplicate_column_error(error_text),
        Migration::AddUserSuperuserColumn => is_duplicate_column_error(error_text),
        Migration::AddUserDeactivationReasonColumn => is_duplicate_column_error(error_text),
        Migration::AddUserSquadIdColumn => is_duplicate_column_error(error_text),
        Migration::AddLootboxRewardCompensationColumns => is_duplicate_column_error(error_text),
        Migration::AddShopOrderPaymentLifecycleColumns => is_duplicate_column_error(error_text) || is_duplicate_index_error(error_text),
        Migration::AddAssetDefinitionGunskinColumns => is_duplicate_column_error(error_text) || is_duplicate_index_error(error_text),
        Migration::AddShopPaymentAttemptProviderIndex => is_duplicate_index_error(error_text),
        Migration::CreateDiscordDeliveryTable => is_duplicate_index_error(error_text),
        Migration::CreateEmailDeliveryTable => is_duplicate_index_error(error_text),
        Migration::CreateUserSelectedGunskinTable => is_duplicate_index_error(error_text),
        Migration::CreateShopReceiptTable => is_duplicate_index_error(error_text),
        _ => false,
    }
}


// ---------------------------------------------------------------------------
// The migrations as the migrator lists them: one type each.
// ---------------------------------------------------------------------------

/// The `CreateAuthRayTable` migration.
#[derive(Clone, Copy, Debug)]
pub struct CreateAuthRayTable;

impl CreateAuthRayTable {
    /// The name the migration is recorded under.
    pub fn name(&self) -> (r: &'static str)
        ensures
            r@ == Migration::CreateAuthRayTable.name_spec(),
    {
        Migration::CreateAuthRayTable.name()
    }

    /// The migration it is.
    pub fn migration(&self) -> (r: Migration)
        ensures
            r == Migration::CreateAuthRayTable,
    {
        Migration::CreateAuthRayTable
    }
}

/// The `AddAuthRayRegistrationColumns` migration.
#[derive(Clone, Copy, Debug)]
pub struct AddAuthRayRegistrationColumns;

impl AddAuthRayRegistrationColumns {
    /// The name the migration is recorded under.
    pub fn name(&self) -> (r: &'static str)
        ensures
            r@ == Migration::AddAuthRayRegistrationColumns.name_spec(),
    {
        Migration::AddAuthRayRegistrationColumns.name()
    }

    /// The migration it is.
    pub fn migration(&self) -> (r: Migration)
        ensures
            r == Migration::AddAuthRayRegistrationColumns,
    {
        Migration::AddAuthRayRegistrationColumns
    }
}

/// The `CreateUserTable` migration.
#[derive(Clone, Copy, Debug)]
pub struct CreateUserTable;

impl CreateUserTable {
    /// The name the migration is recorded under.
    pub fn name(&self) -> (r: &'static str)
        ensures
            r@ == Migration::CreateUserTable.name_spec(),
    {
        Migration::CreateUserTable.name()
    }

    /// The migration it is.
    pub fn migration(&self) -> (r: Migration)
        ensures
            r == Migration::CreateUserTable,
    {
        Migration::CreateUserTable
    }
}

/// The `CreateLittlemiceCheckTable` migration.
#[derive(Clone, Copy, Debug)]
pub struct CreateLittlemiceCheckTable;

impl CreateLittlemiceCheckTable {
    /// The name the migration is recorded under.
    pub fn name(&self) -> (r: &'static str)
        ensures
            r@ == Migration::CreateLittlemiceCheckTable.name_spec(),
    {
        Migration::CreateLittlemiceCheckTable.name()
    }

    /// The migration it is.
    pub fn migration(&self) -> (r: Migration)
        ensures
            r == Migration::CreateLittlemiceCheckTable,
    {
        Migration::CreateLittlemiceCheckTable
    }
}

/// The `AddLittlemiceCheckScreenshot2Columns` migration.
#[derive(Clone, Copy, Debug)]
pub struct AddLittlemiceCheckScreenshot2Columns;

impl AddLittlemiceCheckScreenshot2Columns {
    /// The name the migration is recorded under.
    pub fn name(&self) -> (r: &'static str)
        ensures
            r@ == Migration::AddLittlemiceCheckScreenshot2Columns.name_spec(),
    {
        Migration::AddLittlemiceCheckScreenshot2Columns.name()
    }

    /// The migration it is.
    pub fn migration(&self) -> (r: Migration)
        ensures
            r == Migration::AddLittlemiceCheckScreenshot2Columns,
    {
        Migration::AddLittlemiceCheckScreenshot2Columns
    }
}

/// The `AddUserSuperuserColumn` migration.
#[derive(Clone, Copy, Debug)]
pub struct AddUserSuperuserColumn;

impl AddUserSuperuserColumn {
    /// The name the migration is recorded under.
    pub fn name(&self) -> (r: &'static str)
        ensures
            r@ == Migration::AddUserSuperuserColumn.name_spec(),
    {
        Migration::AddUserSuperuserColumn.name()
    }

    /// The migration it is.
    pub fn migration(&self) -> (r: Migration)
        ensures
            r == Migration::AddUserSuperuserColumn,
    {
        Migration::AddUserSuperuserColumn
    }
}

/// The `AddUserDeactivationReasonColumn` migration.
#[derive(Clone, Copy, Debug)]
pub struct AddUserDeactivationReasonColumn;

impl AddUserDeactivationReasonColumn {
    /// The name the migration is recorded under.
    pub fn name(&self) -> (r: &'static str)
        ensures
            r@ == Migration::AddUserDeactivationReasonColumn.name_spec(),
    {
        Migration::AddUserDeactivationReasonColumn.name()
    }

    /// The migration it is.
    pub fn migration(&self) -> (r: Migration)
        ensures
            r == Migration::AddUserDeactivationReasonColumn,
    {
        Migration::AddUserDeactivationReasonColumn
    }
}

/// The `AddUserSquadIdColumn` migration.
#[derive(Clone, Copy, Debug)]
pub struct AddUserSquadIdColumn;

impl AddUserSquadIdColumn {
    /// The name the migration is recorded under.
    pub fn name(&self) -> (r: &'static str)
        ensures
            r@ == Migration::AddUserSquadIdColumn.name_spec(),
    {
        Migration::AddUserSquadIdColumn.name()
    }

    /// The migration it is.
    pub fn migration(&self) -> (r: Migration)
        ensures
            r == Migration::AddUserSquadIdColumn,
    {
        Migration::AddUserSquadIdColumn
    }
}

/// The `CreateAuditLogTable` migration.
#[derive(Clone, Copy, Debug)]
pub struct CreateAuditLogTable;

impl CreateAuditLogTable {
    /// The name the migration is recorded under.
    pub fn name(&self) -> (r: &'static str)
        ensures
            r@ == Migration::CreateAuditLogTable.name_spec(),
    {
        Migration::CreateAuditLogTable.name()
    }

    /// The migration it is.
    pub fn migration(&self) -> (r: Migration)
        ensures
            r == Migration::CreateAuditLogTable,
    {
        Migration::CreateAuditLogTable
    }
}

/// The `CreateSquadTable` migration.
#[derive(Clone, Copy, Debug)]
pub struct CreateSquadTable;

impl CreateSquadTable {
    /// The name the migration is recorded under.
    pub fn name(&self) -> (r: &'static str)
        ensures
            r@ == Migration::CreateSquadTable.name_spec(),
    {
        Migration::CreateSquadTable.name()
    }

    /// The migration it is.
    pub fn migration(&self) -> (r: Migration)
        ensures
            r == Migration::CreateSquadTable,
    {
        Migration::CreateSquadTable
    }
}

/// The `CreateSquadInviteTable` migration.
#[derive(Clone, Copy, Debug)]
pub struct CreateSquadInviteTable;

impl CreateSquadInviteTable {
    /// The name the migration is recorded under.
    pub fn name(&self) -> (r: &'static str)
        ensures
            r@ == Migration::CreateSquadInviteTable.name_spec(),
    {
        Migration::CreateSquadInviteTable.name()
    }

    /// The migration it is.
    pub fn migration(&self) -> (r: Migration)
        ensures
            r == Migration::CreateSquadInviteTable,
    {
        Migration::CreateSquadInviteTable
    }
}

/// The `CreateUserRestrictionTable` migration.
#[derive(Clone, Copy, Debug)]
pub struct CreateUserRestrictionTable;

impl CreateUserRestrictionTable {
    /// The name the migration is recorded under.
    pub fn name(&self) -> (r: &'static str)
        ensures
            r@ == Migration::CreateUserRestrictionTable.name_spec(),
    {
        Migration::CreateUserRestrictionTable.name()
    }

    /// The migration it is.
    pub fn migration(&self) -> (r: Migration)
        ensures
            r == Migration::CreateUserRestrictionTable,
    {
        Migration::CreateUserRestrictionTable
    }
}

/// The `CreateAssetDefinitionTable` migration.
#[derive(Clone, Copy, Debug)]
pub struct CreateAssetDefinitionTable;

impl CreateAssetDefinitionTable {
    /// The name the migration is recorded under.
    pub fn name(&self) -> (r: &'static str)
        ensures
            r@ == Migration::CreateAssetDefinitionTable.name_spec(),
    {
        Migration::CreateAssetDefinitionTable.name()
    }

    /// The migration it is.
    pub fn migration(&self) -> (r: Migration)
        ensures
            r == Migration::CreateAssetDefinitionTable,
    {
        Migration::CreateAssetDefinitionTable
    }
}

/// The `CreateUserStackableAssetTable` migration.
#[derive(Clone, Copy, Debug)]
pub struct CreateUserStackableAssetTable;

impl CreateUserStackableAssetTable {
    /// The name the migration is recorded under.
    pub fn name(&self) -> (r: &'static str)
        ensures
            r@ == Migration::CreateUserStackableAssetTable.name_spec(),
    {
        Migration::CreateUserStackableAssetTable.name()
    }

    /// The migration it is.
    pub fn migration(&self) -> (r: Migration)
        ensures
            r == Migration::CreateUserStackableAssetTable,
    {
        Migration::CreateUserStackableAssetTable
    }
}

/// The `CreateUserEntitlementTable` migration.
#[derive(Clone, Copy, Debug)]
pub struct CreateUserEntitlementTable;

impl CreateUserEntitlementTable {
    /// The name the migration is recorded under.
    pub fn name(&self) -> (r: &'static str)
        ensures
            r@ == Migration::CreateUserEntitlementTable.name_spec(),
    {
        Migration::CreateUserEntitlementTable.name()
    }

    /// The migration it is.
    pub fn migration(&self) -> (r: Migration)
        ensures
            r == Migration::CreateUserEntitlementTable,
    {
        Migration::CreateUserEntitlementTable
    }
}

/// The `CreateUserExpirableAssetTable` migration.
#[derive(Clone, Copy, Debug)]
pub struct CreateUserExpirableAssetTable;

impl CreateUserExpirableAssetTable {
    /// The name the migration is recorded under.
    pub fn name(&self) -> (r: &'static str)
        ensures
            r@ == Migration::CreateUserExpirableAssetTable.name_spec(),
    {
        Migration::CreateUserExpirableAssetTable.name()
    }

    /// The migration it is.
    pub fn migration(&self) -> (r: Migration)
        ensures
            r == Migration::CreateUserExpirableAssetTable,
    {
        Migration::CreateUserExpirableAssetTable
    }
}

/// The `CreateInventoryOperationTable` migration.
#[derive(Clone, Copy, Debug)]
pub struct CreateInventoryOperationTable;

impl CreateInventoryOperationTable {
    /// The name the migration is recorded under.
    pub fn name(&self) -> (r: &'static str)
        ensures
            r@ == Migration::CreateInventoryOperationTable.name_spec(),
    {
        Migration::CreateInventoryOperationTable.name()
    }

    /// The migration it is.
    pub fn migration(&self) -> (r: Migration)
        ensures
            r == Migration::CreateInventoryOperationTable,
    {
        Migration::CreateInventoryOperationTable
    }
}

/// The `CreateWalletBalanceTable` migration.
#[derive(Clone, Copy, Debug)]
pub struct CreateWalletBalanceTable;

impl CreateWalletBalanceTable {
    /// The name the migration is recorded under.
    pub fn name(&self) -> (r: &'static str)
        ensures
            r@ == Migration::CreateWalletBalanceTable.name_spec(),
    {
        Migration::CreateWalletBalanceTable.name()
    }

    /// The migration it is.
    pub fn migration(&self) -> (r: Migration)
        ensures
            r == Migration::CreateWalletBalanceTable,
    {
        Migration::CreateWalletBalanceTable
    }
}

/// The `CreateWalletTransactionTable` migration.
#[derive(Clone, Copy, Debug)]
pub struct CreateWalletTransactionTable;

impl CreateWalletTransactionTable {
    /// The name the migration is recorded under.
    pub fn name(&self) -> (r: &'static str)
        ensures
            r@ == Migration::CreateWalletTransactionTable.name_spec(),
    {
        Migration::CreateWalletTransactionTable.name()
    }

    /// The migration it is.
    pub fn migration(&self) -> (r: Migration)
        ensures
            r == Migration::CreateWalletTransactionTable,
    {
        Migration::CreateWalletTransactionTable
    }
}

/// The `CreateDefaultSkinTable` migration.
#[derive(Clone, Copy, Debug)]
pub struct CreateDefaultSkinTable;

impl CreateDefaultSkinTable {
    /// The name the migration is recorded under.
    pub fn name(&self) -> (r: &'static str)
        ensures
            r@ == Migration::CreateDefaultSkinTable.name_spec(),
    {
        Migration::CreateDefaultSkinTable.name()
    }

    /// The migration it is.
    pub fn migration(&self) -> (r: Migration)
        ensures
            r == Migration::CreateDefaultSkinTable,
    {
        Migration::CreateDefaultSkinTable
    }
}

/// The `CreateServiceTokenTable` migration.
#[derive(Clone, Copy, Debug)]
pub struct CreateServiceTokenTable;

impl CreateServiceTokenTable {
    /// The name the migration is recorded under.
    pub fn name(&self) -> (r: &'static str)
        ensures
            r@ == Migration::CreateServiceTokenTable.name_spec(),
    {
        Migration::CreateServiceTokenTable.name()
    }

    /// The migration it is.
    pub fn migration(&self) -> (r: Migration)
        ensures
            r == Migration::CreateServiceTokenTable,
    {
        Migration::CreateServiceTokenTable
    }
}

/// The `CreateServiceTokenAuditTable` migration.
#[derive(Clone, Copy, Debug)]
pub struct CreateServiceTokenAuditTable;

impl CreateServiceTokenAuditTable {
    /// The name the migration is recorded under.
    pub fn name(&self) -> (r: &'static str)
        ensures
            r@ == Migration::CreateServiceTokenAuditTable.name_spec(),
    {
        Migration::CreateServiceTokenAuditTable.name()
    }

    /// The migration it is.
    pub fn migration(&self) -> (r: Migration)
        ensures
            r == Migration::CreateServiceTokenAuditTable,
    {
        Migration::CreateServiceTokenAuditTable
    }
}

/// The `CreateLootboxDefinitionTable` migration.
#[derive(Clone, Copy, Debug)]
pub struct CreateLootboxDefinitionTable;

impl CreateLootboxDefinitionTable {
    /// The name the migration is recorded under.
    pub fn name(&self) -> (r: &'static str)
        ensures
            r@ == Migration::CreateLootboxDefinitionTable.name_spec(),
    {
        Migration::CreateLootboxDefinitionTable.name()
    }

    /// The migration it is.
    pub fn migration(&self) -> (r: Migration)
        ensures
            r == Migration::CreateLootboxDefinitionTable,
    {
        Migration::CreateLootboxDefinitionTable
    }
}

/// The `CreateLootboxDropDefinitionTable` migration.
#[derive(Clone, Copy, Debug)]
pub struct CreateLootboxDropDefinitionTable;

impl CreateLootboxDropDefinitionTable {
    /// The name the migration is recorded under.
    pub fn name(&self) -> (r: &'static str)
        ensures
            r@ == Migration::CreateLootboxDropDefinitionTable.name_spec(),
    {
        Migration::CreateLootboxDropDefinitionTable.name()
    }

    /// The migration it is.
    pub fn migration(&self) -> (r: Migration)
        ensures
            r == Migration::CreateLootboxDropDefinitionTable,
    {
        Migration::CreateLootboxDropDefinitionTable
    }
}

/// The `CreateLootboxOpenOperationTable` migration.
#[derive(Clone, Copy, Debug)]
pub struct CreateLootboxOpenOperationTable;

impl CreateLootboxOpenOperationTable {
    /// The name the migration is recorded under.
    pub fn name(&self) -> (r: &'static str)
        ensures
            r@ == Migration::CreateLootboxOpenOperationTable.name_spec(),
    {
        Migration::CreateLootboxOpenOperationTable.name()
    }

    /// The migration it is.
    pub fn migration(&self) -> (r: Migration)
        ensures
            r == Migration::CreateLootboxOpenOperationTable,
    {
        Migration::CreateLootboxOpenOperationTable
    }
}

/// The `AddLootboxRewardCompensationColumns` migration.
#[derive(Clone, Copy, Debug)]
pub struct AddLootboxRewardCompensationColumns;

impl AddLootboxRewardCompensationColumns {
    /// The name the migration is recorded under.
    pub fn name(&self) -> (r: &'static str)
        ensures
            r@ == Migration::AddLootboxRewardCompensationColumns.name_spec(),
    {
        Migration::AddLootboxRewardCompensationColumns.name()
    }

    /// The migration it is.
    pub fn migration(&self) -> (r: Migration)
        ensures
            r == Migration::AddLootboxRewardCompensationColumns,
    {
        Migration::AddLootboxRewardCompensationColumns
    }
}

/// The `CreateShopProductTable` migration.
#[derive(Clone, Copy, Debug)]
pub struct CreateShopProductTable;

impl CreateShopProductTable {
    /// The name the migration is recorded under.
    pub fn name(&self) -> (r: &'static str)
        ensures
            r@ == Migration::CreateShopProductTable.name_spec(),
    {
        Migration::CreateShopProductTable.name()
    }

    /// The migration it is.
    pub fn migration(&self) -> (r: Migration)
        ensures
            r == Migration::CreateShopProductTable,
    {
        Migration::CreateShopProductTable
    }
}

/// The `CreateShopProductLocaleTable` migration.
#[derive(Clone, Copy, Debug)]
pub struct CreateShopProductLocaleTable;

impl CreateShopProductLocaleTable {
    /// The name the migration is recorded under.
    pub fn name(&self) -> (r: &'static str)
        ensures
            r@ == Migration::CreateShopProductLocaleTable.name_spec(),
    {
        Migration::CreateShopProductLocaleTable.name()
    }

    /// The migration it is.
    pub fn migration(&self) -> (r: Migration)
        ensures
            r == Migration::CreateShopProductLocaleTable,
    {
        Migration::CreateShopProductLocaleTable
    }
}

/// The `CreateShopOrderTable` migration.
#[derive(Clone, Copy, Debug)]
pub struct CreateShopOrderTable;

impl CreateShopOrderTable {
    /// The name the migration is recorded under.
    pub fn name(&self) -> (r: &'static str)
        ensures
            r@ == Migration::CreateShopOrderTable.name_spec(),
    {
        Migration::CreateShopOrderTable.name()
    }

    /// The migration it is.
    pub fn migration(&self) -> (r: Migration)
        ensures
            r == Migration::CreateShopOrderTable,
    {
        Migration::CreateShopOrderTable
    }
}

/// The `CreateShopPaymentAttemptTable` migration.
#[derive(Clone, Copy, Debug)]
pub struct CreateShopPaymentAttemptTable;

impl CreateShopPaymentAttemptTable {
    /// The name the migration is recorded under.
    pub fn name(&self) -> (r: &'static str)
        ensures
            r@ == Migration::CreateShopPaymentAttemptTable.name_spec(),
    {
        Migration::CreateShopPaymentAttemptTable.name()
    }

    /// The migration it is.
    pub fn migration(&self) -> (r: Migration)
        ensures
            r == Migration::CreateShopPaymentAttemptTable,
    {
        Migration::CreateShopPaymentAttemptTable
    }
}

/// The `AddShopOrderPaymentLifecycleColumns` migration.
#[derive(Clone, Copy, Debug)]
pub struct AddShopOrderPaymentLifecycleColumns;

impl AddShopOrderPaymentLifecycleColumns {
    /// The name the migration is recorded under.
    pub fn name(&self) -> (r: &'static str)
        ensures
            r@ == Migration::AddShopOrderPaymentLifecycleColumns.name_spec(),
    {
        Migration::AddShopOrderPaymentLifecycleColumns.name()
    }

    /// The migration it is.
    pub fn migration(&self) -> (r: Migration)
        ensures
            r == Migration::AddShopOrderPaymentLifecycleColumns,
    {
        Migration::AddShopOrderPaymentLifecycleColumns
    }
}

/// The `AddShopPaymentAttemptProviderIndex` migration.
#[derive(Clone, Copy, Debug)]
pub struct AddShopPaymentAttemptProviderIndex;

impl AddShopPaymentAttemptProviderIndex {
    /// The name the migration is recorded under.
    pub fn name(&self) -> (r: &'static str)
        ensures
            r@ == Migration::AddShopPaymentAttemptProviderIndex.name_spec(),
    {
        Migration::AddShopPaymentAttemptProviderIndex.name()
    }

    /// The migration it is.
    pub fn migration(&self) -> (r: Migration)
        ensures
            r == Migration::AddShopPaymentAttemptProviderIndex,
    {
        Migration::AddShopPaymentAttemptProviderIndex
    }
}

/// The `CreateDiscordBroadcastTable` migration.
#[derive(Clone, Copy, Debug)]
pub struct CreateDiscordBroadcastTable;

impl CreateDiscordBroadcastTable {
    /// The name the migration is recorded under.
    pub fn name(&self) -> (r: &'static str)
        ensures
            r@ == Migration::CreateDiscordBroadcastTable.name_spec(),
    {
        Migration::CreateDiscordBroadcastTable.name()
    }

    /// The migration it is.
    pub fn migration(&self) -> (r: Migration)
        ensures
            r == Migration::CreateDiscordBroadcastTable,
    {
        Migration::CreateDiscordBroadcastTable
    }
}

/// The `CreateDiscordDeliveryTable` migration.
#[derive(Clone, Copy, Debug)]
pub struct CreateDiscordDeliveryTable;

impl CreateDiscordDeliveryTable {
    /// The name the migration is recorded under.
    pub fn name(&self) -> (r: &'static str)
        ensures
            r@ == Migration::CreateDiscordDeliveryTable.name_spec(),
    {
        Migration::CreateDiscordDeliveryTable.name()
    }

    /// The migration it is.
    pub fn migration(&self) -> (r: Migration)
        ensures
            r == Migration::CreateDiscordDeliveryTable,
    {
        Migration::CreateDiscordDeliveryTable
    }
}

/// The `CreateEmailDeliveryTable` migration.
#[derive(Clone, Copy, Debug)]
pub struct CreateEmailDeliveryTable;

impl CreateEmailDeliveryTable {
    /// The name the migration is recorded under.
    pub fn name(&self) -> (r: &'static str)
        ensures
            r@ == Migration::CreateEmailDeliveryTable.name_spec(),
    {
        Migration::CreateEmailDeliveryTable.name()
    }

    /// The migration it is.
    pub fn migration(&self) -> (r: Migration)
        ensures
            r == Migration::CreateEmailDeliveryTable,
    {
        Migration::CreateEmailDeliveryTable
    }
}

/// The `AddAssetDefinitionGunskinColumns` migration.
#[derive(Clone, Copy, Debug)]
pub struct AddAssetDefinitionGunskinColumns;

impl AddAssetDefinitionGunskinColumns {
    /// The name the migration is recorded under.
    pub fn name(&self) -> (r: &'static str)
        ensures
            r@ == Migration::AddAssetDefinitionGunskinColumns.name_spec(),
    {
        Migration::AddAssetDefinitionGunskinColumns.name()
    }

    /// The migration it is.
    pub fn migration(&self) -> (r: Migration)
        ensures
            r == Migration::AddAssetDefinitionGunskinColumns,
    {
        Migration::AddAssetDefinitionGunskinColumns
    }
}

/// The `CreateUserSelectedGunskinTable` migration.
#[derive(Clone, Copy, Debug)]
pub struct CreateUserSelectedGunskinTable;

impl CreateUserSelectedGunskinTable {
    /// The name the migration is recorded under.
    pub fn name(&self) -> (r: &'static str)
        ensures
            r@ == Migration::CreateUserSelectedGunskinTable.name_spec(),
    {
        Migration::CreateUserSelectedGunskinTable.name()
    }

    /// The migration it is.
    pub fn migration(&self) -> (r: Migration)
        ensures
            r == Migration::CreateUserSelectedGunskinTable,
    {
        Migration::CreateUserSelectedGunskinTable
    }
}

/// The `CreateAppKvTable` migration.
#[derive(Clone, Copy, Debug)]
pub struct CreateAppKvTable;

impl CreateAppKvTable {
    /// The name the migration is recorded under.
    pub fn name(&self) -> (r: &'static str)
        ensures
            r@ == Migration::CreateAppKvTable.name_spec(),
    {
        Migration::CreateAppKvTable.name()
    }

    /// The migration it is.
    pub fn migration(&self) -> (r: Migration)
        ensures
            r == Migration::CreateAppKvTable,
    {
        Migration::CreateAppKvTable
    }
}

/// The `CreateShopReceiptTable` migration.
#[derive(Clone, Copy, Debug)]
pub struct CreateShopReceiptTable;

impl CreateShopReceiptTable {
    /// The name the migration is recorded under.
    pub fn name(&self) -> (r: &'static str)
        ensures
            r@ == Migration::CreateShopReceiptTable.name_spec(),
    {
        Migration::CreateShopReceiptTable.name()
    }

    /// The migration it is.
    pub fn migration(&self) -> (r: Migration)
        ensures
            r == Migration::CreateShopReceiptTable,
    {
        Migration::CreateShopReceiptTable
    }
}

/// The `CreateMetricsTables` migration.
#[derive(Clone, Copy, Debug)]
pub struct CreateMetricsTables;

impl CreateMetricsTables {
    /// The name the migration is recorded under.
    pub fn name(&self) -> (r: &'static str)
        ensures
            r@ == Migration::CreateMetricsTables.name_spec(),
    {
        Migration::CreateMetricsTables.name()
    }

    /// The migration it is.
    pub fn migration(&self) -> (r: Migration)
        ensures
            r == Migration::CreateMetricsTables,
    {
        Migration::CreateMetricsTables
    }
}

} // verus!
