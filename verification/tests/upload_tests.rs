use svo_backend::json::JsonValue;
use svo_backend::text::parse_decimal;
use svo_backend::metrics_stream::{TimelineStreamError, TimelineUpload, UploadTotals};
use svo_backend::templates::{
    admin_custom, render, shop_purchase_completed, squad_invite_received, squad_kicked, DiscordTemplate,
};

fn same_template(a: &DiscordTemplate, b: &DiscordTemplate) -> bool {
    a.title == b.title && a.description == b.description && a.url == b.url && a.footer_text == b.footer_text
}

fn upload(chunks: &[&[u8]], max_bytes: usize) -> (Vec<(u64, Vec<u8>)>, UploadTotals) {
    let mut u = TimelineUpload::new(max_bytes);
    let mut lines = Vec::new();
    for chunk in chunks {
        for line in u.push_chunk(chunk).unwrap() {
            lines.push((line.number, line.bytes));
        }
        u.check_pending().unwrap();
    }
    let (last, totals) = u.finish();
    if let Some(line) = last {
        lines.push((line.number, line.bytes));
    }
    (lines, totals)
}

#[test]
fn digest_of_chunks_is_the_digest_of_the_whole() {
    let (_, abc) = upload(&[b"a", b"", b"bc"], 16);
    assert_eq!(abc.content_sha256, "ba7816bf8f01cfea414140de5dae2223b00361a396177a9cb410ff61f20015ad");
    let (lines, empty) = upload(&[], 16);
    assert!(lines.is_empty());
    assert_eq!(empty.content_sha256, "e3b0c44298fc1c149afbf4c8996fb92427ae41e4649b934ca495991b7852b855");
    assert_eq!((empty.byte_count, empty.line_count), (0, 0));
}

#[test]
fn upload_gives_the_same_lines_and_totals_however_split() {
    let body: &[u8] = b"{\"a\":1}\r\n\n{\"b\":2}\nlast";
    let (whole_lines, whole) = upload(&[body], 1024);
    let (split_lines, split) = upload(&[&body[..3], &body[3..8], &body[8..9], &body[9..]], 1024);
    assert_eq!(whole_lines, split_lines);
    assert_eq!(
        whole_lines,
        vec![
            (1, b"{\"a\":1}".to_vec()),
            (2, Vec::new()),
            (3, b"{\"b\":2}".to_vec()),
            (4, b"last".to_vec()),
        ]
    );
    assert_eq!(whole.content_sha256, split.content_sha256);
    assert_eq!(whole.byte_count, body.len());
    assert_eq!(split.byte_count, body.len());
    assert_eq!(whole.line_count, 4);
    assert_eq!(split.line_count, 4);
    let (_, abc) = upload(&[b"ab", b"c"], 8);
    assert_eq!(abc.content_sha256, "ba7816bf8f01cfea414140de5dae2223b00361a396177a9cb410ff61f20015ad");
    assert_eq!(abc.line_count, 1);
}

#[test]
fn upload_over_the_limit_is_refused_and_takes_nothing() {
    let mut u = TimelineUpload::new(4);
    assert_eq!(u.push_chunk(b"ab\n").unwrap().len(), 1);
    assert!(matches!(u.push_chunk(b"cd"), Err(TimelineStreamError::TooLarge { max_bytes: 4 })));
    let (last, totals) = u.finish();
    assert!(last.is_none());
    assert_eq!(totals.byte_count, 3);
    assert_eq!(totals.line_count, 1);
}

#[test]
fn render_gives_the_per_kind_templates_field_by_field() {
    let empty = JsonValue::Object(Vec::new());
    assert!(same_template(&render("admin.custom", "Hi", &empty), &admin_custom("Hi".to_string())));
    let product = JsonValue::Object(vec![("productName".to_string(), JsonValue::Text("Coins".to_string()))]);
    assert!(same_template(
        &render("shop.purchase_completed", "x", &product),
        &shop_purchase_completed("Coins", 1)
    ));
    assert!(same_template(
        &render("squad.kicked", "x", &empty),
        &squad_kicked("неизвестный сквадик", "неизвестный лидер")
    ));
    let invite = JsonValue::Object(vec![
        ("squadName".to_string(), JsonValue::Text("Wolves".to_string())),
        ("inviterUsername".to_string(), JsonValue::Text("Ann".to_string())),
    ]);
    let t = render("squad.invite_received", "x", &invite);
    assert!(same_template(&t, &squad_invite_received("Wolves", "Ann")));
    assert_eq!(t.url, "https://svocraft.xyz/profile?tab=squads");
}

#[test]
fn decimals_are_read_as_str_parse_reads_them() {
    let (lo, hi) = (i64::MIN as i128, i64::MAX as i128);
    for text in ["0", "+5", "-0", "0042", "-9223372036854775808", "9223372036854775807", "", "+", "-", " 1",
        "1 ", "1_0", "9223372036854775808", "-9223372036854775809", "99999999999999999999999999999999999999999"]
    {
        let expected = text.parse::<i64>().ok().map(|v| v as i128);
        assert_eq!(parse_decimal(text, lo, hi), expected, "{text}");
    }
    assert_eq!(parse_decimal("2147483648", i32::MIN as i128, i32::MAX as i128), None);
    assert_eq!(parse_decimal("-2147483648", i32::MIN as i128, i32::MAX as i128), Some(-2147483648));
}

#[test]
fn replacing_agrees_with_str_replace() {
    use_replace("abc", "", "x");
    use_replace("", "", "x");
    use_replace("aaa", "aa", "b");
    use_replace("{{img}} and {{img}}", "{{img}}", "src");
}

fn use_replace(text: &str, from: &str, to: &str) {
    assert_eq!(svo_backend::delivery::replace_all(text, from, to), text.replace(from, to));
}

#[test]
fn inline_images_are_standard_base64() {
    use_inline(b"Man", "TWFu");
    use_inline(b"Ma", "TWE=");
    use_inline(b"M", "TQ==");
    use_inline(&[0xfb, 0xff], "+/8=");
    use_inline(b"", "");
}

fn use_inline(bytes: &[u8], encoded: &str) {
    assert_eq!(
        svo_backend::delivery::inline_image_src("image/png", bytes),
        format!("data:image/png;base64,{encoded}")
    );
}
