use discord_bot::akis::DusunmeKip;
use discord_bot::ayarlar::{DEGERLENDIRME_ARALIGI, ISTEK_ESIGI, SOHBET_BOYU};
use discord_bot::gonderim::{
    akis_sonu, akisi_kaydet, tekrarlari_ayikla, yeniden_uretim_kabul, AkisSonu, AkisToplayici,
};
use discord_bot::karar::{
    ad_satiri, degerlendirme_uygun, devam_eden_diyalog, etiketi_beklet, etiketlendi_mi,
    haber_beklentisi_doldu, isteklilik_esigi, isteklilik_karari, mesaj_metni, mesaji_isle, Cesaret,
};
use discord_bot::protokol::{cevap_parcala, Cevap};
use discord_bot::sohbet::{asistan, kullanici, kullanici_resimli, Durum, Rol, Sohbet};
use discord_bot::tur::{
    ascii_esit_mi, cevabi_kaydet, farkli_konusan_var, hack_talimati, hedef_mesaji, ilk_talimat,
    kilit_al, kilit_birak, ruh_hali_tazelenir, son_kullanici_metni, susunca, talimata_ekle,
    yanit_hedefi, HackTalimati, TalimatEki,
};
use std::collections::{HashMap, VecDeque};

#[test]
fn mesaj_metni_resmi_isaretler() {
    assert_eq!(mesaj_metni("selam", false).as_deref(), Some("selam"));
    assert_eq!(mesaj_metni("   ", false), None);
    assert_eq!(mesaj_metni(" ", true).as_deref(), Some("[resim attı]"));
    assert_eq!(mesaj_metni("bak", true).as_deref(), Some("[resim] bak"));
}

#[test]
fn etiket_ad_ya_da_bahisle() {
    assert!(etiketlendi_mi(true, false, "x", "kaju", "kajubot"));
    assert!(etiketlendi_mi(false, true, "x", "kaju", "kajubot"));
    assert!(etiketlendi_mi(false, false, "naber KAJU", "kaju", ""));
    assert!(etiketlendi_mi(false, false, "selam kajubot", "", "KajuBot"));
    assert!(!etiketlendi_mi(false, false, "naber", "kaju", "kajubot"));
    // boş ad her metinde geçer sayılmaz
    assert!(!etiketlendi_mi(false, false, "naber", "", ""));
}

#[test]
fn diyalog_ayni_kisiyle_surer() {
    let mut d = Durum::default();
    let mut s = Sohbet::default();
    s.gecmis.push(kullanici("ŞAHİN: selam"));
    s.gecmis.push(asistan("naber"));
    d.sohbetler.insert(1, s);
    assert!(devam_eden_diyalog(&d, 1, "şahin"));
    assert!(!devam_eden_diyalog(&d, 1, "emin"));
    assert!(!devam_eden_diyalog(&d, 2, "şahin"));
}

#[test]
fn degerlendirme_iki_dakikada_bir() {
    let mut son: HashMap<u64, u64> = HashMap::new();
    assert!(degerlendirme_uygun(&mut son, 1, 1000));
    assert!(!degerlendirme_uygun(&mut son, 1, 1000 + DEGERLENDIRME_ARALIGI - 1));
    assert_eq!(son.get(&1), Some(&1000));
    assert!(degerlendirme_uygun(&mut son, 1, 1000 + DEGERLENDIRME_ARALIGI));
    assert_eq!(son.get(&1), Some(&(1000 + DEGERLENDIRME_ARALIGI)));
    assert!(degerlendirme_uygun(&mut son, 2, 5));
}

#[test]
fn esik_evreye_ve_yolculuga_gore() {
    assert_eq!(isteklilik_esigi(Cesaret::Olagan, false), ISTEK_ESIGI);
    assert_eq!(isteklilik_esigi(Cesaret::Dusuk, false), ISTEK_ESIGI + 1);
    assert_eq!(isteklilik_esigi(Cesaret::Yuksek, true), ISTEK_ESIGI + 1);
    assert!(isteklilik_karari(Some(7), 7, false));
    assert!(!isteklilik_karari(Some(6), 7, true));
    assert!(isteklilik_karari(None, 7, true));
    assert!(!isteklilik_karari(None, 7, false));
}

#[test]
fn bekleyen_etiketler_yirmide_kalir() {
    let mut b: Vec<(u64, String)> = Vec::new();
    for i in 0..25u64 {
        etiketi_beklet(&mut b, i, format!("emin: {i}"));
    }
    assert_eq!(b.len(), 20);
    assert_eq!(b[0].0, 5);
    assert_eq!(b[19].1, "emin: 24");
}

#[test]
fn haber_beklentisi_dolunca_sohbet_kapanir() {
    let mut d = Durum::default();
    d.sohbetler.insert(3, Sohbet::default());
    d.haber_bekleyen.insert(3, 100);
    assert!(!haber_beklentisi_doldu(&mut d, 3, 100));
    assert!(d.sohbetler.contains_key(&3));
    assert!(haber_beklentisi_doldu(&mut d, 3, 101));
    assert!(!d.sohbetler.contains_key(&3));
    assert!(!d.haber_bekleyen.contains_key(&3));
}

#[test]
fn mesaj_sohbete_islenir() {
    let mut d = Durum {
        bot_adi: "kaju".into(),
        ..Durum::default()
    };
    // katılmıyorsa sohbet açılmaz ama satır kanal notuna düşer
    let (cevap, icerik) = mesaji_isle(&mut d, 4, "emin", "selam", None, 10, false, false, 50);
    assert!(!cevap);
    assert_eq!(icerik, "emin: selam");
    assert!(!d.sohbetler.contains_key(&4));
    // katılıyorsa sohbet açılır, kanal tohumu ve yeni mesaj girer
    let (cevap, icerik) = mesaji_isle(
        &mut d,
        4,
        "zeynep",
        "[resim] bak",
        Some("https://cdn/a.png".into()),
        11,
        true,
        true,
        60,
    );
    assert!(cevap);
    assert_eq!(icerik, "emin: selam\nzeynep: [resim] bak");
    let s = d.sohbetler.get(&4).unwrap();
    let dizi: Vec<&str> = s.gecmis.iter().map(|m| m.content.as_str()).collect();
    assert_eq!(dizi, vec!["emin: selam", "zeynep: [resim] bak"]);
    assert_eq!(s.gecmis[1].resim.as_deref(), Some("https://cdn/a.png"));
    assert_eq!(s.gelen, 1);
    assert_eq!(s.son_mesaj, Some(11));
    assert!(s.son_etiketlendi);
    assert_eq!(s.son_gelenler.len(), 1);
    assert_eq!(d.son_aktivite.get(&4), Some(&60));
    // yalnız son görsel kalır
    mesaji_isle(&mut d, 4, "emin", "tamam", None, 12, false, true, 70);
    let s = d.sohbetler.get(&4).unwrap();
    assert!(s.gecmis.iter().all(|m| m.resim.is_none()));
    assert_eq!(s.gelen, 2);
}

#[test]
fn sohbet_gecmisi_sinirda_kalir() {
    let mut d = Durum::default();
    let mut s = Sohbet::default();
    for i in 0..SOHBET_BOYU {
        s.gecmis.push(kullanici(&format!("a: {i}")));
    }
    d.sohbetler.insert(1, s);
    mesaji_isle(&mut d, 1, "b", "son", None, 1, false, false, 0);
    let s = d.sohbetler.get(&1).unwrap();
    assert_eq!(s.gecmis.len(), SOHBET_BOYU);
    assert_eq!(s.gecmis[0].content, "a: 1");
    assert_eq!(s.gecmis[SOHBET_BOYU - 1].content, "b: son");
    assert_eq!(ad_satiri("b", "son"), "b: son");
}

#[test]
fn tur_kilidi_tek_cevap() {
    let mut d = Durum::default();
    assert!(!kilit_al(&mut d, 1));
    d.sohbetler.insert(1, Sohbet::default());
    assert!(kilit_al(&mut d, 1));
    assert!(!kilit_al(&mut d, 1));
    kilit_birak(&mut d.mesgul, 1);
    assert!(kilit_al(&mut d, 1));
}

#[test]
fn turun_girdileri() {
    assert_eq!(hack_talimati(3), HackTalimati::Devam);
    assert_eq!(hack_talimati(1), HackTalimati::Cikis);
    assert_eq!(hack_talimati(0), HackTalimati::Yok);
    let g = vec![kullanici("emin: naber: iyi"), asistan("iyi")];
    assert_eq!(son_kullanici_metni(&g), "naber: iyi");
    assert_eq!(son_kullanici_metni(&vec![kullanici("adsız")]), "adsız");
    assert_eq!(son_kullanici_metni(&vec![asistan("x")]), "");
    assert_eq!(yanit_hedefi(true, 0, Some(5)), Some(5));
    assert_eq!(yanit_hedefi(false, 2, Some(5)), Some(5));
    assert_eq!(yanit_hedefi(false, 1, Some(5)), None);
    assert!(ruh_hali_tazelenir(0));
    assert!(ruh_hali_tazelenir(8));
    assert!(!ruh_hali_tazelenir(3));
}

#[test]
fn talimat_bolumleri() {
    assert_eq!(
        talimata_ekle("görev", &TalimatEki::SoruYok),
        "görev\n\nBu sefer soru sorma; düz laf et ya da sus."
    );
    assert_eq!(
        talimata_ekle("", &TalimatEki::Hedef("Zeynep".into())),
        "\n\nBirden çok kişi yazdı; sen Zeynep adlı kişiye dönmeyi seçtin. Cevabın doğrudan ona seslensin."
    );
    assert_eq!(
        talimata_ekle("t", &TalimatEki::Tekrar(vec!["a".into(), "b".into()])),
        "t\n\nAz önce aynen şunu yazdın: \"a / b\". Aynısını ya da benzerini yazma; başka bir açıdan gir ya da konuyu değiştir."
    );
    assert_eq!(ilk_talimat("t", "", None), "t");
    assert_eq!(
        ilk_talimat("t", "neşeli", Some("haber".into())),
        "t\n\nŞU ANKİ RUH HALİN: neşeli — bunu ilan etme, üslubuna ve kelime seçimine yedir.\n\nİNTERNETTEN ŞİMDİ ÇEKTİKLERİN (istendiği için baktın; kendi ağzınla anlat, liste yapma, \"kaynak\" deme):\nhaber"
    );
}

#[test]
fn hedef_son_mesajina_baglanir() {
    let mut q: VecDeque<(String, u64)> = VecDeque::new();
    assert!(!farkli_konusan_var(&q));
    q.push_back(("Emin".into(), 1));
    q.push_back(("Emin".into(), 2));
    assert!(!farkli_konusan_var(&q));
    q.push_back(("Zeynep".into(), 3));
    q.push_back(("emin".into(), 4));
    assert!(farkli_konusan_var(&q));
    assert_eq!(hedef_mesaji(&q, "EMIN"), Some(4));
    assert_eq!(hedef_mesaji(&q, "zeynep"), Some(3));
    assert_eq!(hedef_mesaji(&q, "ali"), None);
    assert!(ascii_esit_mi("AbC", "aBc"));
    assert!(!ascii_esit_mi("İ", "i"));
}

#[test]
fn tur_sonu_kaydi() {
    let mut d = Durum::default();
    let mut s = Sohbet::default();
    s.hackli = 2;
    s.son_gelenler.push_back(("a".into(), 1));
    d.sohbetler.insert(1, s);
    cevabi_kaydet(&mut d, 1, "selam", 9);
    let s = d.sohbetler.get(&1).unwrap();
    assert_eq!(s.gecmis.len(), 1);
    assert!(s.gecmis[0].role == Rol::Asistan);
    assert_eq!(s.sayac, 1);
    assert_eq!(s.hackli, 1);
    assert!(s.son_gelenler.is_empty());
    assert_eq!(d.son_aktivite.get(&1), Some(&9));
    susunca(&mut d, 1);
    susunca(&mut d, 1);
    let s = d.sohbetler.get(&1).unwrap();
    assert_eq!(s.hackli, 0);
    assert_eq!(s.sayac, 1);
}

#[test]
fn akis_toplayici_duzenleme_araligi() {
    let mut t = AkisToplayici::yeni(DusunmeKip::Gizle, 0);
    // yarım satır: görünüm boş, ilk yazım harcanmaz
    assert!(t.parca_al("sel", "", "kaju", 10).is_none());
    assert!(t.ilk);
    let v = t.parca_al("am\nnasılsın", "", "kaju", 20).unwrap();
    assert_eq!(v, vec!["selam".to_string()]);
    assert!(!t.ilk);
    // çok erken: yazılmaz ama birikir
    assert!(t.parca_al(" iyi misin", "", "kaju", 100).is_none());
    assert_eq!(t.metin, "selam\nnasılsın iyi misin");
    let v = t.parca_al("", "", "kaju", 20 + 1200).unwrap();
    assert_eq!(v, vec!["selam".to_string(), "nasılsın iyi misin".to_string()]);
    // sessiz kipte düşünce birikmez
    let mut s = AkisToplayici::yeni(DusunmeKip::Sessiz, 0);
    s.parca_al("", "düşünce", "kaju", 0);
    assert_eq!(s.dusunce, "");
}

#[test]
fn akis_sonu_siniflanir() {
    assert_eq!(akis_sonu(&cevap_parcala("-")), AkisSonu::Sus);
    assert_eq!(akis_sonu(&cevap_parcala("tepki: 💀\n-")), AkisSonu::Gonder);
    assert_eq!(akis_sonu(&cevap_parcala("   ")), AkisSonu::Bos);
    assert_eq!(akis_sonu(&cevap_parcala("selam")), AkisSonu::Gonder);
}

#[test]
fn tekrarlar_ayiklanir_ve_kayit() {
    let mut d = Durum {
        bot_adi: "kaju".into(),
        ..Durum::default()
    };
    d.kanal_gecmisi
        .insert(1, ["kaju: aynen"].iter().map(|s| s.to_string()).collect());
    let (kalan, tekrar) =
        tekrarlari_ayikla(&d, 1, vec!["Aynen".into(), "yeni laf".into()]);
    assert_eq!(kalan, vec!["yeni laf".to_string()]);
    assert_eq!(tekrar, vec!["Aynen".to_string()]);
    assert!(!yeniden_uretim_kabul(&d, 1, &cevap_parcala("aynen")));
    assert!(!yeniden_uretim_kabul(&d, 1, &cevap_parcala("")));
    assert!(yeniden_uretim_kabul(&d, 1, &cevap_parcala("tepki: 💀")));
    let c = Cevap {
        satirlar: vec!["bir".into(), "iki".into()],
        tepki: Some("💀".into()),
        sus: false,
    };
    let icerik = akisi_kaydet(&mut d, 1, "kaju", &c).unwrap();
    assert_eq!(icerik, "kaju: aynen\nkaju: bir\nkaju: iki\nkaju: tepki: 💀");
    assert_eq!(d.kendi_mesajlarim.len(), 2);
    for i in 0..60 {
        let c = Cevap {
            satirlar: vec![format!("s{i}")],
            tepki: None,
            sus: false,
        };
        akisi_kaydet(&mut d, 2, "kaju", &c);
    }
    assert_eq!(d.kendi_mesajlarim.len(), 50);
    assert_eq!(d.kendi_mesajlarim.back().unwrap(), "s59");
    let bos = Cevap {
        satirlar: vec![],
        tepki: None,
        sus: true,
    };
    assert_eq!(akisi_kaydet(&mut d, 3, "kaju", &bos), None);
    let _ = kullanici_resimli("a", "b");
}
