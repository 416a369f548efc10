use discord_bot::ayarlar::MESAJ_SINIRI;
use discord_bot::bolme::bol;
use discord_bot::yardimci::{
    dusunce_sayaci, json_ayikla, kirp_hata, onbellek_destekler, reasoning_zorunlu_hatasi, soy,
    spoiler, tek_satir, temizle,
};

#[test]
fn bol_cumle_siniri() {
    let m = "birinci cümle burada. ikinci cümle şurada. üçüncüsü de ötede.";
    let p = bol(m, 30);
    assert!(p.len() >= 2);
    for parca in &p {
        assert!(parca.chars().count() <= 30);
    }
    let birlesik: String = p.join(" ");
    assert_eq!(birlesik.replace(' ', ""), m.replace(' ', ""));
}

#[test]
fn bol_bosluga_duser() {
    let m = "aaaa bbbb cccc dddd eeee";
    let p = bol(m, 12);
    assert_eq!(p, vec!["aaaa bbbb", "cccc dddd", "eeee"]);
}

#[test]
fn bol_sert_keser() {
    let m = "a".repeat(50);
    let p = bol(&m, 20);
    assert_eq!(p.len(), 3);
    assert_eq!(p.iter().map(|s| s.chars().count()).sum::<usize>(), 50);
}

#[test]
fn kisaysa_degmez() {
    assert_eq!(bol("kısa", 100), vec!["kısa"]);
    assert_eq!(bol("  ", 100), Vec::<String>::new());
}

#[test]
fn bol_cok_baytlida_sinirda_paniklemez() {
    let m = "üğşçöı ğüşçöı ğüşçöı ğüşçöı ğüşçöı";
    let p = bol(m, 8);
    for parca in &p {
        assert!(parca.chars().count() <= 8);
    }
    assert_eq!(p.join(" ").replace(' ', ""), m.replace(' ', ""));
}

#[test]
fn spoiler_kacar() {
    assert_eq!(spoiler("düşünce"), "||düşünce||");
    assert_eq!(spoiler("a|b"), "||a\\|b||");
}

#[test]
fn soy_ad_onekini_alir() {
    assert_eq!(soy("cicikus: selam", "cicikus"), "selam");
    assert_eq!(soy("Cicikus: selam", "cicikus"), "selam");
    assert_eq!(soy("selam", "cicikus"), "selam");
}

#[test]
fn soy_turkce_adlarda_paniklemez() {
    assert_eq!(soy("Çöp: selam", "çöp"), "selam");
    assert_eq!(soy("İsim: merhaba", "İsim"), "merhaba");
    assert_eq!(soy("ŞAHİN: tamam", "şahin"), "tamam");
}

#[test]
fn soy_tirnak_soyar() {
    assert_eq!(soy("\"selam\"", "bot"), "selam");
    assert_eq!(soy("\"", "bot"), "\"");
    assert_eq!(soy("\"selam", "bot"), "\"selam");
}

#[test]
fn soy_birlesik_kalip() {
    assert_eq!(soy("bot: \"selam dünya\"", "bot"), "selam dünya");
}

#[test]
fn soy_dilim_dondurur() {
    let metin = String::from("cicikus: merhaba dünya");
    let dilim: &str = soy(&metin, "cicikus");
    assert_eq!(dilim, "merhaba dünya");
}

#[test]
fn reasoning_zorunlu_hatasi_tanir() {
    assert!(reasoning_zorunlu_hatasi(
        r#"{"error":{"message":"Reasoning is mandatory for this endpoint and cannot be disabled.","code":400}}"#
    ));
    assert!(!reasoning_zorunlu_hatasi(
        r#"{"error":{"message":"model not found","code":404}}"#
    ));
    assert!(!reasoning_zorunlu_hatasi("rate limit exceeded"));
}

#[test]
fn onbellek_destek_openrouter_adresine_gore() {
    assert!(onbellek_destekler(
        "https://openrouter.ai/api/v1/chat/completions"
    ));
    assert!(!onbellek_destekler(
        "https://api.mistral.ai/v1/chat/completions"
    ));
    assert!(!onbellek_destekler(
        "http://localhost:8080/v1/chat/completions"
    ));
}

#[test]
fn dusunce_sayaci_artar() {
    assert_eq!(
        dusunce_sayaci("tek"),
        "Düşünüyorum... Şu ana kadar 1 kelime düşündüm."
    );
    assert_eq!(
        dusunce_sayaci("a b\nc  d"),
        "Düşünüyorum... Şu ana kadar 4 kelime düşündüm."
    );
}

#[test]
fn tek_satira_indirgenir() {
    assert_eq!(tek_satir("a\nb\n\nc"), "a b c");
    assert_eq!(tek_satir("  boşluk   ve\nsatır  "), "boşluk ve satır");
}

#[test]
fn kirp_hata_tek_satir_ve_sinir() {
    assert_eq!(kirp_hata("  hata:\n  bozuk\tistek "), "hata: bozuk istek");
    let uzun = "x ".repeat(400);
    assert_eq!(kirp_hata(&uzun).chars().count(), 300);
}

#[test]
fn json_ayikla_suslerden_ceker() {
    assert_eq!(json_ayikla("```json\n{\"puan\": 3}\n```"), "{\"puan\": 3}");
    assert_eq!(json_ayikla("json yok"), "json yok");
    assert_eq!(json_ayikla("} ters {"), "} ters {");
}

#[test]
fn temizle_soyar_ve_sinirda_keser() {
    assert_eq!(temizle("kaju: selam", "kaju"), "selam");
    let uzun = "a".repeat(MESAJ_SINIRI + 50);
    assert_eq!(temizle(&uzun, "kaju").chars().count(), MESAJ_SINIRI);
}
