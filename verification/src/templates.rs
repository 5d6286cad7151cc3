//! Notification texts: Discord direct-message templates, the e-mail
//! receipt, and the mapping of Discord scheduled events.
use vstd::prelude::*;
use crate::json::{as_int, as_text, get_member, get_spec, int_of, json_view, text_of, JsonModel, JsonValue};
use crate::text::{int_text, push_i64, push_str, str_equal, string_of};

verus! {

pub const SITE_URL: &'static str = "https://svocraft.xyz";

pub const SQUADS_URL: &'static str = "https://svocraft.xyz/profile?tab=squads";

pub const SHOP_URL: &'static str = "https://svocraft.xyz/profile";

/// A Discord embed: title, text, link and footer.
#[derive(Clone, Debug)]
pub struct DiscordTemplate {
    pub title: String,
    pub description: String,
    pub url: String,
    pub footer_text: String,
}

fn join3(a: &str, b: &str, c: &str) -> (r: String)
    ensures
        r@ == a@ + b@ + c@,
{
    let mut out: Vec<char> = Vec::new();
    push_str(&mut out, a);
    push_str(&mut out, b);
    push_str(&mut out, c);
    string_of(out.as_slice())
}

fn join5(a: &str, b: &str, c: &str, d: &str, e: &str) -> (r: String)
    ensures
        r@ == a@ + b@ + c@ + d@ + e@,
{
    let mut out: Vec<char> = Vec::new();
    push_str(&mut out, a);
    push_str(&mut out, b);
    push_str(&mut out, c);
    push_str(&mut out, d);
    push_str(&mut out, e);
    string_of(out.as_slice())
}

pub const ADMIN_TITLE: &'static str = "✨ Уведомление от SVO";

pub const ADMIN_FOOTER: &'static str = "🌐 Тыкай сюда: ";

/// A message written by an administrator.
pub fn admin_custom(message: String) -> (t: DiscordTemplate)
    ensures
        t.title@ == ADMIN_TITLE@,
        t.description@ == message@,
        t.url@ == SITE_URL@,
        t.footer_text@ == ADMIN_FOOTER@ + SITE_URL@,
{
    DiscordTemplate {
        title: ADMIN_TITLE.to_string(),
        description: message,
        url: SITE_URL.to_string(),
        footer_text: crate::text::concat_str(ADMIN_FOOTER, SITE_URL),
    }
}

pub const INVITE_TITLE: &'static str = "💌 Приглашение в сквадик";

pub const INVITE_TEXT_1: &'static str = "Тебя позвали в сквад **\"";

pub const INVITE_TEXT_2: &'static str = "\"**~\nПриглашение отправил: **";

pub const INVITE_TEXT_3: &'static str =
    "**.\nЗагляни на страницу сквадов, чтобы принять его или вежливо отказаться ✨";

pub const INVITE_FOOTER: &'static str = "👥 Открыть сквадики: ";

pub fn squad_invite_received(squad_name: &str, inviter_username: &str) -> (t: DiscordTemplate)
    ensures
        t.title@ == INVITE_TITLE@,
        t.description@ == INVITE_TEXT_1@ + squad_name@ + INVITE_TEXT_2@ + inviter_username@
            + INVITE_TEXT_3@,
        t.url@ == SQUADS_URL@,
        t.footer_text@ == INVITE_FOOTER@ + SQUADS_URL@,
{
    DiscordTemplate {
        title: INVITE_TITLE.to_string(),
        description: join5(INVITE_TEXT_1, squad_name, INVITE_TEXT_2, inviter_username, INVITE_TEXT_3),
        url: SQUADS_URL.to_string(),
        footer_text: crate::text::concat_str(INVITE_FOOTER, SQUADS_URL),
    }
}

pub const KICK_TITLE: &'static str = "💔 Исключение из сквада";

pub const KICK_TEXT_1: &'static str = "Похоже, тебя исключили из сквада **\"";

pub const KICK_TEXT_2: &'static str = "\"**...\nЭто сделал лидер: **";

pub const KICK_TEXT_3: &'static str = "**.";

pub const KICK_FOOTER: &'static str = "👥 Открыть страницу сквадов: ";

pub fn squad_kicked(squad_name: &str, leader_username: &str) -> (t: DiscordTemplate)
    ensures
        t.title@ == KICK_TITLE@,
        t.description@ == KICK_TEXT_1@ + squad_name@ + KICK_TEXT_2@ + leader_username@ + KICK_TEXT_3@,
        t.url@ == SQUADS_URL@,
        t.footer_text@ == KICK_FOOTER@ + SQUADS_URL@,
{
    DiscordTemplate {
        title: KICK_TITLE.to_string(),
        description: join5(KICK_TEXT_1, squad_name, KICK_TEXT_2, leader_username, KICK_TEXT_3),
        url: SQUADS_URL.to_string(),
        footer_text: crate::text::concat_str(KICK_FOOTER, SQUADS_URL),
    }
}

pub const PURCHASE_TITLE: &'static str = "🛍️ Покупка завершена";

pub const PURCHASE_TEXT: &'static str = "Покупка прошла успешно, ура-ура~ ✨\nТы получил: **";

pub const PURCHASE_FOOTER: &'static str = "🌸 Открыть профиль: ";

/// The purchase line names the product, with ` x<quantity>` for more than
/// one unit.
pub open spec fn purchase_text(product_name: Seq<char>, quantity: i64) -> Seq<char> {
    if quantity > 1 {
        PURCHASE_TEXT@ + product_name + " x"@ + int_text(quantity as int) + "**."@
    } else {
        PURCHASE_TEXT@ + product_name + "**."@
    }
}

pub fn shop_purchase_completed(product_name: &str, quantity: i64) -> (t: DiscordTemplate)
    ensures
        t.title@ == PURCHASE_TITLE@,
        t.description@ == purchase_text(product_name@, quantity),
        t.url@ == SHOP_URL@,
        t.footer_text@ == PURCHASE_FOOTER@ + SHOP_URL@,
{
    let mut out: Vec<char> = Vec::new();
    push_str(&mut out, PURCHASE_TEXT);
    push_str(&mut out, product_name);
    if quantity > 1 {
        push_str(&mut out, " x");
        push_i64(&mut out, quantity);
    }
    push_str(&mut out, "**.");
    DiscordTemplate {
        title: PURCHASE_TITLE.to_string(),
        description: string_of(out.as_slice()),
        url: SHOP_URL.to_string(),
        footer_text: crate::text::concat_str(PURCHASE_FOOTER, SHOP_URL),
    }
}

pub const UNKNOWN_SQUAD: &'static str = "неизвестный сквадик";

pub const UNKNOWN_PLAYER: &'static str = "неизвестный игрок";

pub const UNKNOWN_LEADER: &'static str = "неизвестный лидер";

pub const UNKNOWN_PURCHASE: &'static str = "неизвестная покупочка";

/// A string member of the metadata, or the default.
pub open spec fn text_or(metadata: JsonModel, key: Seq<char>, default: Seq<char>) -> Seq<char> {
    match text_of(get_spec(metadata, key)) {
        Some(s) => s,
        None => default,
    }
}

fn member_text_or<'a>(metadata: &'a JsonValue, key: &str, default: &'a str) -> (r: &'a str)
    ensures
        r@ == text_or(json_view(*metadata), key@, default@),
{
    match as_text(get_member(metadata, key)) {
        Some(s) => s,
        None => default,
    }
}

/// Which template a queued notification uses: its title, text, link and
/// footer.
pub open spec fn rendered_template(template_key: Seq<char>, message: Seq<char>, metadata: JsonModel) -> (
    Seq<char>,
    Seq<char>,
    Seq<char>,
    Seq<char>,
) {
    if template_key == "squad.invite_received"@ {
        (
            INVITE_TITLE@,
            INVITE_TEXT_1@ + text_or(metadata, "squadName"@, UNKNOWN_SQUAD@) + INVITE_TEXT_2@
                + text_or(metadata, "inviterUsername"@, UNKNOWN_PLAYER@) + INVITE_TEXT_3@,
            SQUADS_URL@,
            INVITE_FOOTER@ + SQUADS_URL@,
        )
    } else if template_key == "squad.kicked"@ {
        (
            KICK_TITLE@,
            KICK_TEXT_1@ + text_or(metadata, "squadName"@, UNKNOWN_SQUAD@) + KICK_TEXT_2@
                + text_or(metadata, "leaderUsername"@, UNKNOWN_LEADER@) + KICK_TEXT_3@,
            SQUADS_URL@,
            KICK_FOOTER@ + SQUADS_URL@,
        )
    } else if template_key == "shop.purchase_completed"@ {
        (
            PURCHASE_TITLE@,
            purchase_text(
                text_or(metadata, "productName"@, UNKNOWN_PURCHASE@),
                match int_of(get_spec(metadata, "quantity"@)) {
                    Some(q) => q,
                    None => 1,
                },
            ),
            SHOP_URL@,
            PURCHASE_FOOTER@ + SHOP_URL@,
        )
    } else {
        (ADMIN_TITLE@, message, SITE_URL@, ADMIN_FOOTER@ + SITE_URL@)
    }
}

/// Renders a queued notification: the template named by its key, filled
/// from its metadata, or the administrator's own message.
pub fn render(template_key: &str, message: &str, metadata: &JsonValue) -> (t: DiscordTemplate)
    ensures
        (t.title@, t.description@, t.url@, t.footer_text@) == rendered_template(
            template_key@,
            message@,
            json_view(*metadata),
        ),
{
    if str_equal(template_key, "squad.invite_received") {
        squad_invite_received(
            member_text_or(metadata, "squadName", UNKNOWN_SQUAD),
            member_text_or(metadata, "inviterUsername", UNKNOWN_PLAYER),
        )
    } else if str_equal(template_key, "squad.kicked") {
        squad_kicked(
            member_text_or(metadata, "squadName", UNKNOWN_SQUAD),
            member_text_or(metadata, "leaderUsername", UNKNOWN_LEADER),
        )
    } else if str_equal(template_key, "shop.purchase_completed") {
        let quantity: i64 = match as_int(get_member(metadata, "quantity")) {
            Some(q) => q,
            None => 1,
        };
        shop_purchase_completed(member_text_or(metadata, "productName", UNKNOWN_PURCHASE), quantity)
    } else {
        admin_custom(message.to_string())
    }
}

// ---------------------------------------------------------------------------
// The e-mail receipt.
// ---------------------------------------------------------------------------

pub const TEMPLATE_SHOP_RECEIPT: &'static str = "shop.receipt";

#[derive(Clone, Debug)]
pub struct EmailTemplate {
    pub subject: String,
    pub html_body: String,
}

/// The HTML escape of one character.
pub open spec fn escape_char(c: char) -> Seq<char> {
    if c == '&' {
        "&amp;"@
    } else if c == '<' {
        "&lt;"@
    } else if c == '>' {
        "&gt;"@
    } else if c == '"' {
        "&quot;"@
    } else {
        seq![c]
    }
}

/// A text with `&`, `<`, `>` and `"` escaped for HTML.
pub open spec fn escape_html_spec(s: Seq<char>) -> Seq<char>
    decreases s.len(),
{
    if s.len() == 0 {
        Seq::empty()
    } else {
        escape_html_spec(s.drop_last()) + escape_char(s.last())
    }
}

pub fn escape_html(value: &str) -> (r: String)
    ensures
        r@ == escape_html_spec(value@),
{
    let cs = crate::text::chars_of(value);
    let n: usize = cs.len();
    let mut out: Vec<char> = Vec::new();
    let mut i: usize = 0;
    while i < n
        invariant
            0 <= i <= n,
            n == cs@.len(),
            out@ == escape_html_spec(cs@.subrange(0, i as int)),
        decreases n - i,
    {
        let c = cs[i];
        assert(cs@.subrange(0, i + 1).drop_last() =~= cs@.subrange(0, i as int));
        if c == '&' {
            push_str(&mut out, "&amp;");
        } else if c == '<' {
            push_str(&mut out, "&lt;");
        } else if c == '>' {
            push_str(&mut out, "&gt;");
        } else if c == '"' {
            push_str(&mut out, "&quot;");
        } else {
            out.push(c);
        }
        i = i + 1;
    }
    assert(cs@.subrange(0, n as int) =~= cs@);
    string_of(out.as_slice())
}

/// Escaped text holds no `<`, `>` or `"`: nothing a value brings can open
/// a tag or close an attribute.
pub proof fn lemma_escaped_has_no_markup(s: Seq<char>)
    ensures
        forall|i: int|
            0 <= i < escape_html_spec(s).len() ==> #[trigger] escape_html_spec(s)[i] != '<'
                && escape_html_spec(s)[i] != '>' && escape_html_spec(s)[i] != '"',
    decreases s.len(),
{
    reveal_strlit("&amp;");
    reveal_strlit("&lt;");
    reveal_strlit("&gt;");
    reveal_strlit("&quot;");
    if s.len() > 0 {
        lemma_escaped_has_no_markup(s.drop_last());
        let a = escape_html_spec(s.drop_last());
        let b = escape_char(s.last());
        assert forall|i: int| 0 <= i < (a + b).len() implies #[trigger] (a + b)[i] != '<' && (a
            + b)[i] != '>' && (a + b)[i] != '"' by {
            if i < a.len() {
                assert((a + b)[i] == a[i]);
            } else {
                assert((a + b)[i] == b[i - a.len()]);
            }
        }
    }
}

pub const RECEIPT_HTML_1: &'static str = "<!doctype html>
<html>
<body style=\"margin:0;padding:24px;background:#f6f7fb;font-family:Arial,sans-serif;color:#1f2937\">
  <div style=\"max-width:620px;margin:0 auto;background:#ffffff;border:1px solid #e5e7eb;padding:24px\">
    <h1 style=\"margin:0 0 16px;font-size:22px;line-height:1.25;color:#111827\">Спасибо за покупку</h1>
    <p style=\"margin:0 0 14px;font-size:15px;line-height:1.5\">Мы выписали чек по твоему заказу на SvoCraft.</p>
    <table style=\"width:100%;border-collapse:collapse;margin:18px 0;font-size:14px\">
      <tr>
        <td style=\"padding:8px 0;color:#6b7280\">Покупка</td>
        <td style=\"padding:8px 0;text-align:right;color:#111827\">";

pub const RECEIPT_HTML_2: &'static str = "</td>
      </tr>
      <tr>
        <td style=\"padding:8px 0;color:#6b7280\">Сумма</td>
        <td style=\"padding:8px 0;text-align:right;color:#111827\">";

pub const RECEIPT_HTML_3: &'static str = " ₽</td>
      </tr>
      <tr>
        <td style=\"padding:8px 0;color:#6b7280\">Заказ</td>
        <td style=\"padding:8px 0;text-align:right;color:#111827\">";

pub const RECEIPT_HTML_4: &'static str = "</td>
      </tr>
      <tr>
        <td style=\"padding:8px 0;color:#6b7280\">Номер чека</td>
        <td style=\"padding:8px 0;text-align:right;color:#111827\">";

pub const RECEIPT_HTML_5: &'static str = "</td>
      </tr>
    </table>
    <p style=\"margin:0 0 12px;font-size:14px;line-height:1.5\">Картинка чека приложена к письму и показана ниже.</p>
    <div style=\"margin:0 0 16px;text-align:center\">
      <img src=\"__SVO_RECEIPT_IMAGE_SRC__\" alt=\"Чек SvoCraft\" style=\"max-width:100%;height:auto;border:1px solid #e5e7eb\" />
    </div>
    <p style=\"margin:0 0 16px;font-size:14px;line-height:1.5\">Если картинка не открылась, чек можно посмотреть по ссылке:</p>
    <p style=\"margin:0\">
      <a href=\"";

pub const RECEIPT_HTML_6: &'static str = "\" style=\"color:#2563eb;text-decoration:none\">Открыть чек</a>
    </p>
  </div>
</body>
</html>";

/// The placeholder the sender replaces with the receipt image.
pub const RECEIPT_IMAGE_PLACEHOLDER: &'static str = "__SVO_RECEIPT_IMAGE_SRC__";

/// The values a receipt e-mail shows.
#[derive(Clone, Debug)]
pub struct ShopReceiptTemplateData {
    pub subject: String,
    pub product_name: String,
    pub order_id: String,
    pub total_price_rub: i64,
    pub receipt_uuid: String,
    pub receipt_url: String,
}

pub open spec fn receipt_html(
    product_name: Seq<char>,
    total_price_rub: i64,
    order_id: Seq<char>,
    receipt_uuid: Seq<char>,
    receipt_url: Seq<char>,
) -> Seq<char> {
    RECEIPT_HTML_1@ + escape_html_spec(product_name) + RECEIPT_HTML_2@ + int_text(total_price_rub as int)
        + RECEIPT_HTML_3@ + escape_html_spec(order_id) + RECEIPT_HTML_4@ + escape_html_spec(
        receipt_uuid,
    ) + RECEIPT_HTML_5@ + escape_html_spec(receipt_url) + RECEIPT_HTML_6@
}

/// The receipt e-mail: the given subject, and the receipt page with every
/// shown text escaped.
pub fn render_shop_receipt(data: ShopReceiptTemplateData) -> (t: EmailTemplate)
    ensures
        t.subject@ == data.subject@,
        t.html_body@ == receipt_html(
            data.product_name@,
            data.total_price_rub,
            data.order_id@,
            data.receipt_uuid@,
            data.receipt_url@,
        ),
{
    let product_name = escape_html(data.product_name.as_str());
    let order_id = escape_html(data.order_id.as_str());
    let receipt_uuid = escape_html(data.receipt_uuid.as_str());
    let receipt_url = escape_html(data.receipt_url.as_str());
    let mut out: Vec<char> = Vec::new();
    push_str(&mut out, RECEIPT_HTML_1);
    push_str(&mut out, product_name.as_str());
    push_str(&mut out, RECEIPT_HTML_2);
    push_i64(&mut out, data.total_price_rub);
    push_str(&mut out, RECEIPT_HTML_3);
    push_str(&mut out, order_id.as_str());
    push_str(&mut out, RECEIPT_HTML_4);
    push_str(&mut out, receipt_uuid.as_str());
    push_str(&mut out, RECEIPT_HTML_5);
    push_str(&mut out, receipt_url.as_str());
    push_str(&mut out, RECEIPT_HTML_6);
    EmailTemplate { subject: data.subject, html_body: string_of(out.as_slice()) }
}

pub const RECEIPT_SUBJECT_1: &'static str = "Чек по заказу #";

pub const RECEIPT_SUBJECT_2: &'static str = " на SvoCraft";

/// The receipt e-mail of an order: its receipt page link (`#` when there is
/// none) and receipt number (`unknown` when there is none).
pub fn shop_receipt(
    order_id: u128,
    product_name: &str,
    total_price_rub: i64,
    print_url: Option<&str>,
    receipt_uuid: Option<&str>,
) -> (t: EmailTemplate)
    ensures
        t.subject@ == RECEIPT_SUBJECT_1@ + crate::ids::uuid_hyphenated(order_id) + RECEIPT_SUBJECT_2@,
        t.html_body@ == receipt_html(
            product_name@,
            total_price_rub,
            crate::ids::uuid_hyphenated(order_id),
            match receipt_uuid {
                Some(u) => u@,
                None => "unknown"@,
            },
            match print_url {
                Some(u) => u@,
                None => "#"@,
            },
        ),
{
    let id = crate::ids::uuid_string(order_id);
    let subject = join3(RECEIPT_SUBJECT_1, id.as_str(), RECEIPT_SUBJECT_2);
    render_shop_receipt(
        ShopReceiptTemplateData {
            subject,
            product_name: product_name.to_string(),
            order_id: id,
            total_price_rub,
            receipt_uuid: match receipt_uuid {
                Some(u) => u.to_string(),
                None => "unknown".to_string(),
            },
            receipt_url: match print_url {
                Some(u) => u.to_string(),
                None => "#".to_string(),
            },
        },
    )
}

/// The receipt e-mail sent to test the mail setup.
pub fn test_shop_receipt(receipt_print_url: &str) -> (t: EmailTemplate)
    ensures
        t.subject@ == "Тестовая отправка чека SVO"@,
        t.html_body@ == receipt_html(
            "Тестовая покупка SVO"@,
            0,
            "test-order"@,
            "test-receipt"@,
            receipt_print_url@,
        ),
{
    render_shop_receipt(
        ShopReceiptTemplateData {
            subject: "Тестовая отправка чека SVO".to_string(),
            product_name: "Тестовая покупка SVO".to_string(),
            order_id: "test-order".to_string(),
            total_price_rub: 0,
            receipt_uuid: "test-receipt".to_string(),
            receipt_url: receipt_print_url.to_string(),
        },
    )
}

// ---------------------------------------------------------------------------
// Discord scheduled events.
// ---------------------------------------------------------------------------

/// The name of a Discord scheduled event status code.
pub open spec fn event_status_name(status: u8) -> Seq<char> {
    if status == 1 {
        "scheduled"@
    } else if status == 2 {
        "active"@
    } else if status == 3 {
        "completed"@
    } else if status == 4 {
        "canceled"@
    } else {
        "unknown"@
    }
}

pub fn map_status(status: u8) -> (r: &'static str)
    ensures
        r@ == event_status_name(status),
{
    match status {
        1 => "scheduled",
        2 => "active",
        3 => "completed",
        4 => "canceled",
        _ => "unknown",
    }
}

/// The cover image of an event on Discord's CDN.
pub fn event_image_url(event_id: &str, image_hash: &str) -> (r: String)
    ensures
        r@ == "https://cdn.discordapp.com/guild-events/"@ + event_id@ + "/"@ + image_hash@ + ".png"@,
{
    join5("https://cdn.discordapp.com/guild-events/", event_id, "/", image_hash, ".png")
}

/// How long fetched events are served from the cache, in milliseconds.
pub const EVENTS_CACHE_TTL_MILLIS: u64 = 300_000;

/// Fetched events are reused while younger than the cache lifetime.
pub fn events_cache_fresh(fetched_age_millis: Option<u64>) -> (r: bool)
    ensures
        r == (fetched_age_millis matches Some(a) && a < EVENTS_CACHE_TTL_MILLIS),
{
    match fetched_age_millis {
        Some(a) => a < EVENTS_CACHE_TTL_MILLIS,
        None => false,
    }
}

/// A failed fetch is answered from the cache when it holds events.
pub fn serve_cached_after_failure(cached_count: usize) -> (r: bool)
    ensures
        r == (cached_count > 0),
{
    cached_count > 0
}

} // verus!
