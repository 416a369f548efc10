use discord_bot::ayarlar::{MESAJ_SINIRI, PATLAMA_SINIRI};
use discord_bot::protokol::{cevap_parcala, numara_oneki, slop_temizle, tepki_basligi_korunur};

#[test]
fn cevap_satirlara_bolunur() {
    let c = cevap_parcala("ilk satır\n\nikinci satır");
    assert_eq!(c.satirlar, vec!["ilk satır", "ikinci satır"]);
    assert!(c.tepki.is_none() && !c.sus);
    assert!(cevap_parcala("").bos());
}

#[test]
fn cevap_tepki_ayiklar() {
    assert_eq!(cevap_parcala("tepki: 💀").tepki.as_deref(), Some("💀"));
    assert_eq!(cevap_parcala("Tepki : 💀").tepki.as_deref(), Some("💀"));
    let c = cevap_parcala("tepki: 😂 aynen");
    assert_eq!(c.tepki.as_deref(), Some("😂"));
    assert!(c.satirlar.is_empty());
    let c = cevap_parcala("tepki: :kekw:");
    assert!(c.tepki.is_none() && c.satirlar.is_empty());
    let c = cevap_parcala("hahaha\ntepki: 💀\ntepki: 😂");
    assert_eq!(c.satirlar, vec!["hahaha"]);
    assert_eq!(c.tepki.as_deref(), Some("💀"));
    assert_eq!(cevap_parcala("saat 3: gidiyoruz").satirlar.len(), 1);
    let c = cevap_parcala("tepki: 💀\n-");
    assert!(c.sus && c.satirlar.is_empty());
    assert_eq!(c.tepki.as_deref(), Some("💀"));
}

#[test]
fn tepki_emoji_olmayani_almaz() {
    for satir in ["tepki: —", "tepki: …", "tepki: →", "tepki: ¯\\_(ツ)_/¯"] {
        assert!(
            cevap_parcala(satir).tepki.is_none(),
            "{satir} emoji sayıldı"
        );
    }
    assert_eq!(cevap_parcala("tepki: “👍”").tepki.as_deref(), Some("👍"));
    assert_eq!(cevap_parcala("tepki: ⭐").tepki.as_deref(), Some("⭐"));
}

#[test]
fn cevap_sus_isareti() {
    let c = cevap_parcala("-");
    assert!(c.sus && c.satirlar.is_empty() && !c.bos());
    assert!(cevap_parcala("\"-\"").sus);
    assert!(cevap_parcala("'-'").sus);
    assert!(cevap_parcala("[sus]").sus);
    assert!(cevap_parcala("(sus)").sus);
    assert!(!cevap_parcala("yok artık").sus);
}

#[test]
fn cevap_patlama_siniri() {
    let c = cevap_parcala("bir\niki\nüç\ndört\nbeş");
    assert_eq!(c.satirlar.len(), PATLAMA_SINIRI);
    assert_eq!(c.satirlar.last().unwrap(), "dört");
}

#[test]
fn cevap_kirinti_gider_kisa_kalir() {
    assert!(cevap_parcala("'cım").satirlar.is_empty());
    assert_eq!(cevap_parcala("he").satirlar, vec!["he"]);
    assert_eq!(cevap_parcala("yok\nla").satirlar, vec!["yok", "la"]);
}

#[test]
fn slop_onekleri_silinir() {
    assert_eq!(slop_temizle("- madde"), "madde");
    assert_eq!(slop_temizle("* madde"), "madde");
    assert_eq!(slop_temizle("• madde"), "madde");
    assert_eq!(slop_temizle("**kalın** laf"), "kalın laf");
    assert_eq!(slop_temizle("__altı__ çizili"), "altı çizili");
    assert_eq!(slop_temizle("`kod` çalışmıyor"), "`kod` çalışmıyor");
    assert_eq!(
        slop_temizle("`__init__` fonksiyonu"),
        "`__init__` fonksiyonu"
    );
    assert_eq!(slop_temizle("3.14 sayısı"), "3.14 sayısı");
    assert_eq!(cevap_parcala("- bir\n- iki").satirlar, vec!["bir", "iki"]);
}

#[test]
fn numara_oneki_yalniz_gercek_listede_silinir() {
    let c = cevap_parcala("1. şunu yap\n2) sonra bunu");
    assert_eq!(c.satirlar, vec!["şunu yap", "sonra bunu"]);
    assert_eq!(
        cevap_parcala("3. sınıftayım").satirlar,
        vec!["3. sınıftayım"]
    );
    assert_eq!(
        cevap_parcala("2. el araba aldım").satirlar,
        vec!["2. el araba aldım"]
    );
    assert_eq!(numara_oneki("12) madde"), Some("madde"));
    assert_eq!(numara_oneki("3.14 sayısı"), None);
}

#[test]
fn ayni_satir_iki_kez_gitmez() {
    assert_eq!(cevap_parcala("he\nhe").satirlar, vec!["he"]);
}

#[test]
fn cevap_uzun_satir_bolunur() {
    let uzun = "a".repeat(MESAJ_SINIRI + 100);
    let c = cevap_parcala(&uzun);
    assert_eq!(c.satirlar.len(), 2);
    for s in &c.satirlar {
        assert!(s.chars().count() <= MESAJ_SINIRI);
    }
}

#[test]
fn protokol_metni_geri_yazilir() {
    assert_eq!(
        cevap_parcala("hahaha\ntepki: 💀").protokol_metni(),
        "hahaha\ntepki: 💀"
    );
    assert_eq!(cevap_parcala("tepki: 💀").protokol_metni(), "tepki: 💀");
    assert_eq!(cevap_parcala("bir\niki").protokol_metni(), "bir\niki");
}

#[test]
fn protokol_metni_geri_cozulur() {
    let c = cevap_parcala("selam\nnasılsın bugün\ntepki: 💀");
    assert_eq!(c.satirlar, vec!["selam".to_string(), "nasılsın bugün".to_string()]);
    assert_eq!(c.tepki.as_deref(), Some("💀"));
    let d = cevap_parcala(&c.protokol_metni());
    assert_eq!(d.satirlar, c.satirlar);
    assert_eq!(d.tepki, c.tepki);
    assert!(!d.sus);
    let yalniz = cevap_parcala("tepki: 👍");
    let e = cevap_parcala(&yalniz.protokol_metni());
    assert!(e.satirlar.is_empty());
    assert_eq!(e.tepki.as_deref(), Some("👍"));
}

#[test]
fn giden_parcalar_kirpik_ve_tek_satir() {
    let uzun = "kelime ".repeat(400);
    let metin = format!("  - **merhaba**  \n\n{uzun}\n\t`kod` __burada__ \r\n-");
    let c = cevap_parcala(&metin);
    assert!(c.satirlar.len() >= 3);
    assert_eq!(c.satirlar[0], "merhaba");
    for p in &c.satirlar {
        assert_eq!(p.trim(), p.as_str());
        assert!(!p.contains('\n'));
        assert!(!p.is_empty() && p.chars().count() <= MESAJ_SINIRI);
    }
    assert!(c.sus);
}

#[test]
fn tepki_basligi_kucuk_harfle_ayni_kalir() {
    tepki_basligi_korunur();
    let c = cevap_parcala("Evet\ntepki: 🔥");
    let d = cevap_parcala(&c.protokol_metni());
    assert_eq!(d.satirlar, vec!["Evet".to_string()]);
    assert_eq!(d.tepki.as_deref(), Some("🔥"));
}
