use discord_bot::akis::{akis_gorunum, akis_kesiti, dusunce_gosterim, DusunmeKip};
use discord_bot::ayarlar::MESAJ_SINIRI;

#[test]
fn gorunum_bolunur() {
    let dusunce = "düşün ".repeat(700);
    let cevap = "kelime ".repeat(400);
    let v = akis_gorunum(DusunmeKip::Goster, &dusunce, &cevap, true);
    assert!(v.len() >= 5);
    for (i, m) in v.iter().enumerate() {
        assert!(m.chars().count() <= MESAJ_SINIRI, "parça {i} çok uzun");
    }
    assert!(v[0].starts_with("||") && v[0].ends_with("||"));
    assert!(v.iter().any(|m| m.starts_with("```")));
    assert!(!v[v.len() - 1].starts_with("||"));
    let v = akis_gorunum(DusunmeKip::Gizle, &dusunce, &cevap, true);
    assert!(v
        .iter()
        .all(|m| !m.starts_with("||") && !m.starts_with("```")));
}

#[test]
fn gorunum_dusuncesiz() {
    let v = akis_gorunum(DusunmeKip::Goster, "", "kısa cevap", true);
    assert_eq!(v, vec!["kısa cevap"]);
}

#[test]
fn dusunme_kip_ayristirilir() {
    assert_eq!(DusunmeKip::arg_ile("göster"), Some(DusunmeKip::Goster));
    assert_eq!(DusunmeKip::arg_ile("aç"), Some(DusunmeKip::Goster));
    assert_eq!(DusunmeKip::arg_ile("gizle"), Some(DusunmeKip::Gizle));
    assert_eq!(DusunmeKip::arg_ile("sessiz"), Some(DusunmeKip::Sessiz));
    assert_eq!(DusunmeKip::arg_ile("kapat"), Some(DusunmeKip::Kapali));
    assert_eq!(DusunmeKip::arg_ile("kapalı"), Some(DusunmeKip::Kapali));
    assert_eq!(DusunmeKip::arg_ile("saçma"), None);
    assert_eq!(DusunmeKip::Goster.dosya_degeri(), "goster");
    assert_eq!(DusunmeKip::Sessiz.dosya_degeri(), "sessiz");
}

#[test]
fn kip_dosya_degerinden_geri_okunur() {
    for k in [DusunmeKip::Goster, DusunmeKip::Gizle, DusunmeKip::Sessiz, DusunmeKip::Kapali] {
        assert_eq!(DusunmeKip::arg_ile(k.dosya_degeri()), Some(k));
    }
}

#[test]
fn gorunum_dusunurken_placeholder() {
    let v = akis_gorunum(DusunmeKip::Goster, "hmm düşünüyorum", "", true);
    assert_eq!(v, vec!["Düşünüyorum..."]);
    let v = akis_gorunum(DusunmeKip::Gizle, "bir iki üç dört beş", "", true);
    assert_eq!(v, vec!["Düşünüyorum... Şu ana kadar 5 kelime düşündüm."]);
    let v = akis_gorunum(DusunmeKip::Sessiz, "hmm düşünüyorum", "", true);
    assert!(v.is_empty());
    let v = akis_gorunum(DusunmeKip::Kapali, "", "", true);
    assert!(v.is_empty());
}

#[test]
fn gorunum_cevap_basladi() {
    let v = akis_gorunum(DusunmeKip::Goster, "düşündüm", "cevap bu", true);
    assert_eq!(v.len(), 3);
    assert!(v[0].starts_with("||") && v[0].ends_with("||"));
    assert!(v[1].starts_with("```"));
    assert_eq!(v[2], "cevap bu");
    let v = akis_gorunum(DusunmeKip::Gizle, "düşündüm", "cevap bu", true);
    assert_eq!(v, vec!["cevap bu"]);
    let v = akis_gorunum(DusunmeKip::Sessiz, "düşündüm", "cevap bu", true);
    assert_eq!(v, vec!["cevap bu"]);
}

#[test]
fn dusunce_gosterim_kod_bloku() {
    let s = dusunce_gosterim("düşünce metni");
    assert!(s.starts_with("```\n") && s.ends_with("\n```"));
    assert!(s.contains("düşünce metni"));
    let uzun = "a".repeat(5000);
    let s = dusunce_gosterim(&uzun);
    assert!(s.chars().count() <= MESAJ_SINIRI);
    assert!(s.contains("kısaltıldı"));
}

#[test]
fn akis_kesiti_yarim_satiri_bekletir() {
    assert_eq!(akis_kesiti("selam\ntep", false), "selam");
    let m = "selam\nbu satır yeterince uzun";
    assert_eq!(akis_kesiti(m, false), m);
    assert_eq!(akis_kesiti("kısa", false), "");
    assert_eq!(akis_kesiti("selam\ntep", true), "selam\ntep");
}

#[test]
fn gorunum_satirlari_mesaja_cevirir() {
    let v = akis_gorunum(DusunmeKip::Kapali, "", "bir\niki", true);
    assert_eq!(v, vec!["bir", "iki"]);
    let v = akis_gorunum(DusunmeKip::Kapali, "", "hahaha\ntep", false);
    assert_eq!(v, vec!["hahaha"]);
    let v = akis_gorunum(DusunmeKip::Kapali, "", "hahaha\ntepki: 💀", true);
    assert_eq!(v, vec!["hahaha"]);
    assert!(akis_gorunum(DusunmeKip::Kapali, "", "-", true).is_empty());
}

#[test]
fn akis_mesajlari_sinira_sigar_ornek() {
    let dusunce = "düşünce ".repeat(600);
    let cevap = "a".repeat(5000);
    for kip in [DusunmeKip::Goster, DusunmeKip::Gizle, DusunmeKip::Sessiz, DusunmeKip::Kapali] {
        for m in akis_gorunum(kip, &dusunce, &cevap, true) {
            assert!(!m.is_empty() && m.chars().count() <= MESAJ_SINIRI);
        }
        for m in akis_gorunum(kip, &dusunce, "", false) {
            assert!(!m.is_empty() && m.chars().count() <= MESAJ_SINIRI);
        }
    }
    // düşüncedeki '|' spoiler kaçışında ikiye katlanır: blok sınırı aşar
    let borulu = "|".repeat(1000);
    let g = akis_gorunum(DusunmeKip::Goster, &borulu, "cevap", true);
    assert_eq!(g[0].chars().count(), 2004);
}
