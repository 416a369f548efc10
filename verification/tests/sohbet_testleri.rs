use discord_bot::sohbet::{
    asistan, bos_kanal, dokum, hatirla, kanal_not, kanal_not_coklu, kullanici, sohbet_baslat,
    sohbet_bitir, son_mesajlar, soru_fazla_mi, tekrar_mi, yeni_mesaj_var, Durum, Rol, Sohbet,
};
use discord_bot::ayarlar::{HAFIZA_BOYU, KANAL_GECMIS};
use std::collections::VecDeque;

fn kuyruk(satirlar: &[&str]) -> VecDeque<String> {
    satirlar.iter().map(|s| s.to_string()).collect()
}

#[test]
fn yeni_mesaj_eski_cevabi_gecersiz_kilar() {
    let kanal: u64 = 7;
    let mut d = Durum::default();
    d.sohbetler.insert(
        kanal,
        Sohbet {
            gelen: 3,
            ..Sohbet::default()
        },
    );
    assert!(yeni_mesaj_var(&d, kanal, 2));
    assert!(!yeni_mesaj_var(&d, kanal, 3));
}

#[test]
fn dokum_her_bot_satirina_onek_koyar() {
    let g = vec![kullanici("emin: naber"), asistan("iyidir\ntepki: 💀")];
    assert_eq!(
        dokum(&g, "kaju"),
        "emin: naber\nkaju: iyidir\nkaju: tepki: 💀"
    );
}

#[test]
fn acilis_tohuma_iki_kez_girmez() {
    let kanal: u64 = 7;
    let mut d = Durum {
        bot_adi: "kaju".into(),
        ..Durum::default()
    };
    let g = kuyruk(&["emin: selam", "kaju: bir", "kaju: iki", "kaju: https://a.b"]);
    d.kanal_gecmisi.insert(kanal, g);
    sohbet_baslat(&mut d, kanal, Some("bir\niki".to_string()), 0);
    let s = d.sohbetler.get(&kanal).unwrap();
    let dizi: Vec<&str> = s.gecmis.iter().map(|m| m.content.as_str()).collect();
    assert_eq!(dizi, vec!["emin: selam", "https://a.b", "bir\niki"]);
}

#[test]
fn soru_tavani_dolar() {
    let kanal: u64 = 3;
    let mut d = Durum {
        bot_adi: "kaju".into(),
        ..Durum::default()
    };
    let dolu = kuyruk(&[
        "emin: naber",
        "kaju: iyidir sen?",
        "emin: iyi",
        "kaju: ne yapıyosun?",
    ]);
    d.kanal_gecmisi.insert(kanal, dolu);
    assert!(soru_fazla_mi(&d, kanal));
    let seyrek = kuyruk(&["kaju: iyidir sen?", "kaju: tepki: 💀", "kaju: aynen"]);
    d.kanal_gecmisi.insert(kanal, seyrek);
    assert!(!soru_fazla_mi(&d, kanal));
    assert!(!soru_fazla_mi(&d, 99));
}

#[test]
fn hafiza_penceresi_tasmaz() {
    let mut d = Durum::default();
    for i in 0..HAFIZA_BOYU + 3 {
        hatirla(&mut d, "emin", &format!("m{i}"));
    }
    assert_eq!(d.hafiza.len(), HAFIZA_BOYU);
    assert_eq!(d.hafiza.front().unwrap(), "emin: m3");
    assert_eq!(
        d.hafiza.back().unwrap(),
        &format!("emin: m{}", HAFIZA_BOYU + 2)
    );
    assert_eq!(
        son_mesajlar(&d, 2),
        format!("emin: m{}\nemin: m{}", HAFIZA_BOYU + 1, HAFIZA_BOYU + 2)
    );
}

#[test]
fn son_mesajlar_pencereden_uzun_istenirse_hepsi() {
    let mut d = Durum::default();
    hatirla(&mut d, "a", "bir");
    hatirla(&mut d, "b", "iki");
    assert_eq!(son_mesajlar(&d, 10), "a: bir\nb: iki");
    assert_eq!(son_mesajlar(&d, 0), "");
}

#[test]
fn kanal_notu_dosya_icerigini_dondurur() {
    let mut d = Durum::default();
    assert_eq!(kanal_not(&mut d, 5, "emin: selam".to_string()), "emin: selam");
    let icerik = kanal_not_coklu(&mut d, 5, vec!["kaju: bir".into(), "kaju: iki".into()]);
    assert_eq!(icerik.as_deref(), Some("emin: selam\nkaju: bir\nkaju: iki"));
    assert_eq!(kanal_not_coklu(&mut d, 5, vec![]), None);
    assert_eq!(d.kanal_gecmisi.get(&5).unwrap().len(), 3);
}

#[test]
fn kanal_gecmisi_sinirda_kalir() {
    let mut d = Durum::default();
    let satirlar: Vec<String> = (0..KANAL_GECMIS + 5).map(|i| format!("s{i}")).collect();
    kanal_not_coklu(&mut d, 1, satirlar);
    let g = d.kanal_gecmisi.get(&1).unwrap();
    assert_eq!(g.len(), KANAL_GECMIS);
    assert_eq!(g.front().unwrap(), "s5");
}

#[test]
fn tekrar_son_bot_satirlarina_bakar() {
    let mut d = Durum {
        bot_adi: "kaju".into(),
        ..Durum::default()
    };
    d.kanal_gecmisi
        .insert(2, kuyruk(&["kaju: Aynen Öyle", "emin: ne"]));
    assert!(tekrar_mi(&d, 2, "  aynen öyle "));
    assert!(!tekrar_mi(&d, 2, "ne"));
    assert!(!tekrar_mi(&d, 9, "aynen öyle"));
}

#[test]
fn bitmis_sohbete_yeni_mesaj_yok() {
    let mut d = Durum::default();
    d.sohbetler.insert(
        4,
        Sohbet {
            gelen: 5,
            ..Sohbet::default()
        },
    );
    let s = sohbet_bitir(&mut d, 4).unwrap();
    assert_eq!(s.gelen, 5);
    assert!(!yeni_mesaj_var(&d, 4, 0));
    assert!(sohbet_bitir(&mut d, 4).is_none());
}

#[test]
fn bos_kanal_son_satiri_dondurur() {
    let mut d = Durum::default();
    assert!(bos_kanal(&d).is_none());
    d.son_kanal = Some(8);
    hatirla(&mut d, "emin", "selam");
    hatirla(&mut d, "zeynep", "naber");
    // grup profili yokken boş sohbet açılmaz
    assert!(bos_kanal(&d).is_none());
    d.profil = "sakin bir grup".into();
    let (k, son) = bos_kanal(&d).unwrap();
    assert_eq!(k, 8);
    assert_eq!(son, "emin: selam\nzeynep: naber");
    d.sohbetler.insert(8, Sohbet::default());
    assert!(bos_kanal(&d).is_none());
}

#[test]
fn sohbet_tohumu_bot_satirlarini_ayirir() {
    let mut d = Durum {
        bot_adi: "kaju".into(),
        ..Durum::default()
    };
    d.kanal_gecmisi
        .insert(1, kuyruk(&["emin: selam", "kaju: naber"]));
    sohbet_baslat(&mut d, 1, None, 42);
    let s = d.sohbetler.get(&1).unwrap();
    assert_eq!(s.gecmis.len(), 2);
    assert!(s.gecmis[0].role == Rol::Kullanici);
    assert_eq!(s.gecmis[0].content, "emin: selam");
    assert!(s.gecmis[1].role == Rol::Asistan);
    assert_eq!(s.gecmis[1].content, "naber");
    assert_eq!(s.sayac, 0);
    assert_eq!(d.son_aktivite.get(&1), Some(&42));
    // açık sohbet yeniden başlatılmaz
    sohbet_baslat(&mut d, 1, Some("yeni".into()), 50);
    assert_eq!(d.sohbetler.get(&1).unwrap().gecmis.len(), 2);
    assert_eq!(d.son_aktivite.get(&1), Some(&50));
}
