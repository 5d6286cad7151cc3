# svo_backend

The rules of the SVO game backend as a verified library: what its
services decide and compute, with contracts proved by Verus.

- `src/` holds the library. Each module states its model in spec
  functions and proves every public function against it; laws that relate
  several calls stand as public proof functions (`lemma_*`).
  - `text`, `json`, `ids`, `pattern`: strings, JSON documents, UUIDs and
    the regular expressions the services use.
  - `ownership`, `ledger`, `restrictions`, `gunskins`, `lootbox`: assets,
    wallets and holdings, lootbox rewards and feeds.
  - `shop_order`, `shop_catalog`, `shop_locale`, `yookassa`, `receipts`:
    the shop, payments and fiscal receipts.
  - `referrals`, `service_tokens`, `littlemice`, `squads`: campaigns,
    service tokens, anti-cheat checks and squads.
  - `templates`, `delivery`, `discord_api`: Discord and e-mail messages.
  - `metrics_event`, `metrics_fields`, `metrics_tally`, `metrics_stream`,
    `metrics_summary`, `count_order`: match timelines, from the uploaded
    bytes (their lines and digest) and the fields of each event to the
    tally of a match, its counts in key order, and the stored summaries.
  - `migrations`: the database migrations and their SQL.
- `app/` holds what works with fractional damage amounts: typed timeline
  events, damage sums beside the verified tally, leaderboard ratios and the
  Discord summary embeds.
- `tests/` runs the library on concrete values.
