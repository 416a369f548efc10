use discord_bot::ayiklama::{hedef_adayi, hedef_sonucu, isteklilik_degeri, ruh_hali_metni};
use discord_bot::gunluk::{
    kayit_islenir, kisiyi_guncelle, konu_islenir, DiaristSummary, Kisi, KisiKaydi, KonuKaydi,
};
use discord_bot::sistem::{
    gonderileni_kaydet, katilimcilar, mesaj_json, sistem_json, sistem_metni, MesajIcerigi, SistemMesaji,
    SistemParcalari,
};
use discord_bot::sohbet::{asistan, kullanici, kullanici_resimli, Durum};

fn bos_kisi() -> Kisi {
    Kisi {
        isim: String::new(),
        eski_isimler: vec![],
        kullanici_adi: String::new(),
        puan: 0,
        not: String::new(),
        bilgiler: vec![],
        etiketler: vec![],
        olaylar: vec![],
    }
}

fn kayit(isim: &str, puan: i32) -> KisiKaydi {
    KisiKaydi {
        isim: isim.into(),
        puan_degisimi: puan,
        not: String::new(),
        bilgiler: vec![],
        etiketler: vec![],
    }
}

#[test]
fn isteklilik_puani_sinirlanir() {
    assert_eq!(isteklilik_degeri(7, " bana soruldu "), (7, "bana soruldu".to_string()));
    assert_eq!(isteklilik_degeri(25, "").0, 10);
    assert_eq!(isteklilik_degeri(-4, "").0, 0);
}

#[test]
fn hedef_bilinen_adla_eslesir() {
    let bilinenler = vec!["Emin".to_string(), "Zeynep".to_string()];
    let a = hedef_adayi(Some(" Zeynep "), "{\"hedef\": \"Zeynep\"}");
    assert_eq!(hedef_sonucu(a, &bilinenler), Some("Zeynep".into()));
    let a = hedef_adayi(None, "emin");
    assert_eq!(hedef_sonucu(a, &bilinenler), Some("Emin".into()));
    let a = hedef_adayi(Some("Misafir"), "");
    assert_eq!(hedef_sonucu(a, &bilinenler), Some("Misafir".into()));
    let a = hedef_adayi(None, "");
    assert_eq!(hedef_sonucu(a, &bilinenler), None);
    assert_eq!(hedef_adayi(None, " \"Ali\" \nikinci satır"), "Ali");
    assert_eq!(hedef_adayi(None, "\"\"\""), "");
}

#[test]
fn ruh_hali_yogunlukla() {
    assert_eq!(
        ruh_hali_metni("kafa karışıklığı", 6).as_deref(),
        Some("kafa karışıklığı (6)")
    );
    assert_eq!(ruh_hali_metni("öfke", 15).as_deref(), Some("öfke (10)"));
    assert_eq!(ruh_hali_metni("huzur", 2), None);
    assert_eq!(ruh_hali_metni("", 8), None);
    assert_eq!(ruh_hali_metni(" sakin ", 3).as_deref(), Some("sakin (3)"));
}

#[test]
fn kisi_karti_guncellenir() {
    let mut k = bos_kisi();
    let mut r = kayit("Emin", 5);
    r.not = "  iyi biri ".into();
    r.bilgiler = vec![" kedisi var".into(), "kedisi var".into(), " ".into()];
    r.etiketler = vec!["Şaka".into(), "şaka".into(), "Oyun".into()];
    kisiyi_guncelle(&mut k, &r, Some("emin42"), Some("dün: maç".into()), false, None, "favori");
    assert_eq!(k.isim, "Emin");
    assert_eq!(k.kullanici_adi, "emin42");
    assert_eq!(k.puan, 3);
    assert_eq!(k.not, "iyi biri");
    assert_eq!(k.bilgiler, vec!["kedisi var".to_string()]);
    assert_eq!(k.etiketler, vec!["şaka".to_string(), "oyun".to_string()]);
    assert_eq!(k.olaylar, vec!["dün: maç".to_string()]);
    // ad değişti: eski ad saklanır; puan ±10'da kalır
    k.puan = 9;
    kisiyi_guncelle(&mut k, &kayit("Emo", 3), Some("x"), None, false, None, "favori");
    assert_eq!(k.isim, "Emo");
    assert_eq!(k.eski_isimler, vec!["Emin".to_string()]);
    assert_eq!(k.kullanici_adi, "emin42");
    assert_eq!(k.puan, 10);
    assert_eq!(k.not, "iyi biri");
    // aynı ad farklı harf büyüklüğüyle: eski adlara girmez
    kisiyi_guncelle(&mut k, &kayit("EMO", -9), None, None, false, None, "favori");
    assert_eq!(k.isim, "Emo");
    assert_eq!(k.eski_isimler.len(), 1);
    assert_eq!(k.puan, 7);
    // favori her zaman en yüksek puanda, sabit notla
    kisiyi_guncelle(&mut k, &kayit("Emo", -3), None, None, false, Some("Emo"), "favori");
    assert_eq!(k.puan, 10);
    assert_eq!(k.not, "favori");
}

#[test]
fn etiketler_altida_kalir() {
    let mut k = bos_kisi();
    let mut r = kayit("a", 0);
    r.etiketler = (0..9).map(|i| format!("e{i}")).collect();
    kisiyi_guncelle(&mut k, &r, None, None, false, None, "");
    assert_eq!(k.etiketler.len(), 6);
    assert_eq!(k.etiketler[5], "e5");
    let mut eski = bos_kisi();
    eski.isim = "a0".into();
    for i in 1..6 {
        kisiyi_guncelle(&mut eski, &kayit(&format!("a{i}"), 0), None, None, false, None, "");
    }
    assert_eq!(eski.eski_isimler.len(), 5);
    kisiyi_guncelle(&mut eski, &kayit("a9", 0), None, None, true, None, "f");
    assert_eq!(eski.eski_isimler.len(), 5);
    assert_eq!(eski.puan, 10);
}

#[test]
fn kayit_ve_konu_suzgeci() {
    assert!(kayit_islenir("Emin", "kaju"));
    assert!(!kayit_islenir("KAJU", "kaju"));
    assert!(!kayit_islenir("", "kaju"));
    assert!(konu_islenir(&KonuKaydi {
        ad: "oyun".into(),
        not: "yeni çıktı".into()
    }));
    assert!(!konu_islenir(&KonuKaydi {
        ad: " ".into(),
        not: "x".into()
    }));
    let s = DiaristSummary::default();
    assert_eq!((s.people, s.topics, s.events, s.output_chars), (0, 0, 0, 0));
}

#[test]
fn sistem_metni_bolumleri() {
    let mut d = Durum {
        bot_adi: "kaju".into(),
        ..Durum::default()
    };
    d.profil = "  oyuncu grup ".into();
    d.favori_adi = Some("Emin".into());
    let p = SistemParcalari {
        kisilik: "Sen {ad}.{favori_satiri}".into(),
        favori_satiri: " {favori} favorin.".into(),
        evre_metni: String::new(),
        an_metni: "gece".into(),
    };
    let (sabit, degisken) = sistem_metni(&d, &p, "cevap ver", "");
    assert_eq!(
        sabit,
        "Sen kaju. Emin favorin.\n\nBU GRUP HAKKINDA BİLDİKLERİN\noyuncu grup"
    );
    assert_eq!(degisken, "ŞU AN\ngece\n\nŞU ANKİ GÖREVİN\ncevap ver");
}

#[test]
fn sistem_json_onbellek_yalniz_openrouterda() {
    let or = "https://openrouter.ai/api/v1/chat/completions";
    match sistem_json("sabit", "degisken", or) {
        SistemMesaji::Bloklu { sabit, onbellek, degisken } => {
            assert_eq!(sabit, "sabit");
            assert!(onbellek);
            assert_eq!(degisken, "degisken");
        }
        SistemMesaji::Duz(_) => panic!("bloklu bekleniyordu"),
    }
    match sistem_json("sabit", "degisken", "https://api.mistral.ai/v1/chat/completions") {
        SistemMesaji::Bloklu { onbellek, .. } => assert!(!onbellek),
        SistemMesaji::Duz(_) => panic!("bloklu bekleniyordu"),
    }
    assert!(matches!(sistem_json("sabit", "", or), SistemMesaji::Duz(s) if s == "sabit"));
}

#[test]
fn katilimcilar_tekrarsiz() {
    let g = vec![
        kullanici("emin: selam"),
        asistan("naber"),
        kullanici("zeynep: iyi"),
        kullanici("emin: ne var"),
        kullanici("adsız satır"),
    ];
    let (k, m) = katilimcilar(&g);
    assert_eq!(k, vec!["emin".to_string(), "zeynep".to_string()]);
    assert_eq!(m, vec!["selam", "iyi", "ne var", "adsız satır"]);
}

#[test]
fn gonderilen_kayda_gecer() {
    let mut d = Durum {
        bot_adi: "kaju".into(),
        ..Durum::default()
    };
    assert_eq!(gonderileni_kaydet(&mut d, 1, "selam"), "kaju: selam");
    assert_eq!(d.kendi_mesajlarim.len(), 1);
    for i in 0..60 {
        gonderileni_kaydet(&mut d, 1, &format!("m{i}"));
    }
    assert_eq!(d.kendi_mesajlarim.len(), 50);
}

#[test]
fn mesaj_json_resimli_dizi_olur() {
    // resimsiz: düz metin content
    let j = mesaj_json(&kullanici("emin: selam"));
    assert_eq!(j.role, "user");
    assert!(matches!(&j.content, MesajIcerigi::Duz(s) if s == "emin: selam"));
    // resimli: metin + görsel parçaları
    let j = mesaj_json(&kullanici_resimli("emin: [resim] şuna bak", "https://cdn.discordapp.com/a.png"));
    assert_eq!(j.role, "user");
    match &j.content {
        MesajIcerigi::Resimli { metin, url } => {
            assert_eq!(metin, "emin: [resim] şuna bak");
            assert_eq!(url, "https://cdn.discordapp.com/a.png");
        }
        MesajIcerigi::Duz(_) => panic!("resimli içerik bekleniyordu"),
    }
    // asistan mesajında resim hiç olmaz
    let j = mesaj_json(&asistan("he"));
    assert_eq!(j.role, "assistant");
    assert!(matches!(&j.content, MesajIcerigi::Duz(s) if s == "he"));
}

#[test]
fn harf_buyuklugu_farkinda_ad_ve_favori_korunur() {
    let mut k = bos_kisi();
    k.isim = "Emin".into();
    k.puan = 2;
    kisiyi_guncelle(&mut k, &kayit("emin", 1), None, None, false, Some("Emin"), "favori");
    assert_eq!(k.isim, "Emin");
    assert!(k.eski_isimler.is_empty());
    assert_eq!(k.puan, 10);
    assert_eq!(k.not, "favori");
}
