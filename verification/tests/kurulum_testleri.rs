use discord_bot::arastirma::{
    arama_metni, arama_sonuclari, arastirma_plani, basliklar_metni, link_metni, sorgu, ArastirmaPlani,
};
use discord_bot::ayarlar::{MISTRAL_ADRES, OPENROUTER_ADRES, OPENROUTER_MODEL};
use discord_bot::kurulum::{
    debug_hedefi, debug_satiri, iz_satiri, kur, sayi_coz, secili_model, KurulumHatasi,
    OrtamDegerleri,
};

fn ortam() -> OrtamDegerleri {
    OrtamDegerleri {
        saglayici: None,
        openrouter_key: None,
        mistral_key: None,
        model: None,
        api_adres: None,
        resim_analizi: None,
        haber_kanali: None,
        guild_id: None,
        kanallar: None,
        firecrawl_key: None,
        debug_kanali: None,
    }
}

fn sayi(s: &str) -> Option<u64> {
    let v: Vec<char> = s.chars().collect();
    sayi_coz(&v, 0, v.len())
}

#[test]
fn sayilar_std_gibi_cozulur() {
    assert_eq!(sayi("123"), Some(123));
    assert_eq!(sayi("+7"), Some(7));
    assert_eq!(sayi("18446744073709551615"), Some(u64::MAX));
    assert_eq!(sayi("18446744073709551616"), None);
    assert_eq!(sayi(""), None);
    assert_eq!(sayi("+"), None);
    assert_eq!(sayi("-1"), None);
    assert_eq!(sayi("12a"), None);
    for s in ["0", "42", "+9", "007", "99999999999999999999", "1 2"] {
        assert_eq!(sayi(s), s.parse::<u64>().ok(), "{s}");
    }
}

#[test]
fn saglayici_secimi() {
    // anahtar yoksa hata
    match kur(&ortam()) {
        Err(KurulumHatasi::AyarYok(a)) => assert_eq!(a, "OPENROUTER_KEY"),
        _ => panic!("hata bekleniyordu"),
    }
    // yalnız mistral anahtarı varsa mistral
    let mut o = ortam();
    o.mistral_key = Some(" m-anahtar ".into());
    let y = kur(&o).unwrap();
    assert_eq!(y.api_adres, MISTRAL_ADRES);
    assert_eq!(y.anahtar, "m-anahtar");
    // ikisi de varsa openrouter; SAGLAYICI=Mistral zorlar
    o.openrouter_key = Some("o-anahtar".into());
    let y = kur(&o).unwrap();
    assert_eq!(y.api_adres, OPENROUTER_ADRES);
    assert_eq!(y.model, OPENROUTER_MODEL);
    assert!(y.resim_analizi);
    o.saglayici = Some("Mistral".into());
    assert_eq!(kur(&o).unwrap().anahtar, "m-anahtar");
    // mistral istendi ama anahtarı boş
    o.mistral_key = Some("  ".into());
    match kur(&o) {
        Err(KurulumHatasi::AyarYok(a)) => assert_eq!(a, "MISTRAL_KEY"),
        _ => panic!("hata bekleniyordu"),
    }
}

#[test]
fn kisitlar_ve_secimler() {
    let mut o = ortam();
    o.openrouter_key = Some("k".into());
    o.model = Some(" x/y ".into());
    o.api_adres = Some("http://localhost:8080/v1".into());
    o.resim_analizi = Some(" kapalı ".into());
    o.haber_kanali = Some("12".into());
    o.guild_id = Some(" ".into());
    o.kanallar = Some("1, 2,,3 ".into());
    o.firecrawl_key = Some(" fc ".into());
    o.debug_kanali = Some("yok".into());
    let y = kur(&o).unwrap();
    assert_eq!(y.model, "x/y");
    assert_eq!(y.api_adres, "http://localhost:8080/v1");
    assert!(!y.resim_analizi);
    assert_eq!(y.haber_kanali, Some(12));
    assert_eq!(y.guild_id, None);
    let k = y.izinli_kanallar.unwrap();
    assert_eq!(k.len(), 3);
    assert!(k.contains(&1) && k.contains(&2) && k.contains(&3));
    assert_eq!(y.firecrawl.as_deref(), Some("fc"));
    assert_eq!(y.debug_kanali, None);
    o.kanallar = Some("1,x".into());
    match kur(&o) {
        Err(KurulumHatasi::GecersizSayi(a)) => assert_eq!(a, "KANALLAR"),
        _ => panic!("hata bekleniyordu"),
    }
    o.guild_id = Some("g".into());
    match kur(&o) {
        Err(KurulumHatasi::GecersizSayi(a)) => assert_eq!(a, "GUILD_ID"),
        _ => panic!("hata bekleniyordu"),
    }
    assert_eq!(secili_model(" \n", "a".into()), "a");
    assert_eq!(secili_model(" b \n", "a".into()), "b");
}

#[test]
fn debug_satirlari() {
    assert_eq!(debug_satiri("karar"), "⚙ karar");
    assert_eq!(debug_satiri(&"x".repeat(400)).chars().count(), 300);
    assert_eq!(debug_hedefi(Some(9), 1), 9);
    assert_eq!(debug_hedefi(None, 1), 1);
    assert_eq!(
        iz_satiri(true, &vec!["a".into(), "b".into()]).as_deref(),
        Some("a · b")
    );
    assert_eq!(iz_satiri(false, &vec!["a".into()]), None);
    assert_eq!(iz_satiri(true, &vec![]), None);
}

#[test]
fn arastirma_plani_linki_once_gorur() {
    match arastirma_plani("şuna bak https://a.b/c).", true) {
        ArastirmaPlani::Link(u) => assert_eq!(u, "https://a.b/c"),
        _ => panic!("link bekleniyordu"),
    }
    match arastirma_plani("bak https://x.y/z), araştır", true) {
        ArastirmaPlani::Link(u) => assert_eq!(u, "https://x.y/z"),
        _ => panic!("link bekleniyordu"),
    }
    match arastirma_plani("Rust 2.0 çıktı mı araştır lan @emin", true) {
        ArastirmaPlani::Diger { arama, basliklar } => {
            assert_eq!(arama.as_deref(), Some("rust 2.0 çıktı mı"));
            assert!(basliklar);
        }
        _ => panic!("arama bekleniyordu"),
    }
    match arastirma_plani("araştır", false) {
        ArastirmaPlani::Diger { arama, basliklar } => {
            assert_eq!(arama, None);
            assert!(basliklar);
        }
        _ => panic!("plan bekleniyordu"),
    }
    match arastirma_plani("Gündem ne", false) {
        ArastirmaPlani::Diger { arama, basliklar } => {
            assert_eq!(arama, None);
            assert!(basliklar);
        }
        _ => panic!("plan bekleniyordu"),
    }
    match arastirma_plani("selam", true) {
        ArastirmaPlani::Diger { arama, basliklar } => {
            assert_eq!(arama, None);
            assert!(!basliklar);
        }
        _ => panic!("plan bekleniyordu"),
    }
    // sorgu boş kalırsa mesajın kendisi
    assert_eq!(sorgu("Araştır"), "Araştır");
}

#[test]
fn arastirma_metinleri() {
    assert_eq!(link_metni("u", Some("içerik")), "Atılan link (u):\niçerik");
    assert_eq!(link_metni("u", None), "Link açılamadı: u");
    assert_eq!(arama_metni("rust", "sonuç"), "\"rust\" araması:\nsonuç");
    let hs: Vec<(String, String)> = (0..15)
        .map(|i| (format!("b{i}"), format!("ö{i}")))
        .collect();
    let m = basliklar_metni(&hs);
    assert!(m.starts_with("Sözcü'den şu anki başlıklar:\n- b0 — ö0\n- b1 — ö1"));
    assert_eq!(m.lines().count(), 13);
    assert_eq!(basliklar_metni(&vec![]), "Sözcü'den şu anki başlıklar:\n");
}

#[test]
fn arama_sonuclari_basliksizlari_atlar() {
    let s = |t: &str, a: &str, u: &str| (t.to_string(), a.to_string(), u.to_string());
    assert_eq!(
        arama_sonuclari(&vec![s("Rust", "dil", "https://r.s"), s("", "boş", "x"), s("Verus", "doğrulama", "https://v")]),
        Some("- Rust — dil (https://r.s)\n- Verus — doğrulama (https://v)".to_string())
    );
    assert_eq!(arama_sonuclari(&vec![s("", "boş", "x")]), None);
    assert_eq!(arama_sonuclari(&Vec::new()), None);
}
