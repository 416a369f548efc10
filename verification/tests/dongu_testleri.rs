use discord_bot::ayarlar::{HAFIZA_BOYU, SOHBET_ZAMAN_ASIMI, YORUM_SURESI};
use discord_bot::dongu::{
    ad, durtme_karari, haber_atildi, saka_basladi, gece_gozlemi_gerekir, gece_yazilanlar, gonderim_plani, haber_linki,
    kuyruktan_al, reaction_label, saka_satiri, satir_gecikmesi, tepkiyi_kaydet, unix_saniye,
    uyandim_istegi, uyanis_kanali, uyku_gecisi, varsayilan_kanal, BellekIsi, DurtmeKarari,
    SunucuBilgisi, TepkiEmojisi, UykuGecisi, SATIR_GECIKME_TABAN, SATIR_GECIKME_TAVAN,
};
use discord_bot::kapanis::zaman_asimi_kapat;
use discord_bot::protokol::Cevap;
use discord_bot::sohbet::{hatirla, Durum, Sohbet};
use discord_bot::tarama::{sayfa_isle, taramayi_isle, TaramaMesaji, Toplanan};
use std::collections::{HashSet, VecDeque};

fn cevap(satirlar: &[&str], tepki: Option<&str>) -> Cevap {
    Cevap {
        satirlar: satirlar.iter().map(|s| s.to_string()).collect(),
        tepki: tepki.map(|t| t.to_string()),
        sus: false,
    }
}

#[test]
fn gonderim_plani_ilk_satira_etiket() {
    let p = gonderim_plani(cevap(&["selam", "nasılsın"], Some("💀")), Some(5), Some(6), Some(42)).unwrap();
    assert_eq!(p.mesajlar.len(), 2);
    assert_eq!(p.mesajlar[0].metin, "<@42> selam");
    assert_eq!(p.mesajlar[0].bekle_ms, 0);
    assert_eq!(p.mesajlar[0].ping, Some(42));
    assert_eq!(p.mesajlar[0].yanit, Some(5));
    assert_eq!(p.mesajlar[1].metin, "nasılsın");
    assert_eq!(p.mesajlar[1].bekle_ms, SATIR_GECIKME_TABAN + 40 * 8);
    assert_eq!(p.mesajlar[1].ping, None);
    assert_eq!(p.tepki, Some(("💀".to_string(), 6)));
    assert_eq!(p.protokol, "selam\nnasılsın\ntepki: 💀");
    // tepkinin hedefi yoksa tepki düşer; geriye bir şey kalmazsa hiçbir şey gitmez
    assert!(gonderim_plani(cevap(&[], Some("💀")), None, None, None).is_none());
    let p = gonderim_plani(cevap(&["a"], Some("💀")), None, None, None).unwrap();
    assert_eq!(p.tepki, None);
    assert_eq!(p.protokol, "a");
    assert_eq!(satir_gecikmesi(&"x".repeat(1000)), SATIR_GECIKME_TAVAN);
}

#[test]
fn haber_linki_ve_saka() {
    assert_eq!(haber_linki("https://a.b", 1), "https://a.b");
    assert_eq!(haber_linki("", 123), "https://news.ycombinator.com/item?id=123");
    assert_eq!(haber_linki("ftp://x", 7), "https://news.ycombinator.com/item?id=7");
    assert_eq!(saka_satiri("kaju: \"haha\nikinci\"", "kaju").as_deref(), Some("haha"));
    assert_eq!(saka_satiri("-", "kaju"), None);
}

#[test]
fn bellek_kuyrugu() {
    let is = |i: usize| BellekIsi {
        dokum: format!("d{i}"),
        kaynak: "k".into(),
        kanal_adi: "c".into(),
        elestir: false,
    };
    let mut k: VecDeque<BellekIsi> = (0..52).map(is).collect();
    let ilk = kuyruktan_al(&mut k).unwrap();
    assert_eq!(ilk.dokum, "d1");
    assert_eq!(k.len(), 50);
    let ilk = kuyruktan_al(&mut k).unwrap();
    assert_eq!(ilk.dokum, "d2");
    let mut bos: VecDeque<BellekIsi> = VecDeque::new();
    assert!(kuyruktan_al(&mut bos).is_none());
    assert!(gece_gozlemi_gerekir(false, 10_000, 2_000));
    assert!(!gece_gozlemi_gerekir(false, 9_000, 2_000));
    assert!(!gece_gozlemi_gerekir(true, 10_000, 2_000));
}

#[test]
fn uyku_gecisleri() {
    let mut uyuyor = false;
    assert_eq!(uyku_gecisi(&mut uyuyor, true), UykuGecisi::Yok);
    assert_eq!(uyku_gecisi(&mut uyuyor, false), UykuGecisi::Uyudu);
    assert!(uyuyor);
    assert_eq!(uyku_gecisi(&mut uyuyor, false), UykuGecisi::Yok);
    assert_eq!(uyku_gecisi(&mut uyuyor, true), UykuGecisi::Uyandi);
    assert!(!uyuyor);
    let b = vec![(3u64, "emin: kaju?".to_string()), (4, "zeynep: uyan".to_string())];
    let (k, m) = uyandim_istegi(&b).unwrap();
    assert_eq!(k, 4);
    assert_eq!(m, "uyurken sana yazılanlar:\n- emin: kaju?\n- zeynep: uyan");
    assert!(uyandim_istegi(&vec![]).is_none());
    let mut d = Durum::default();
    hatirla(&mut d, "a", "1");
    hatirla(&mut d, "b", "2");
    assert_eq!(gece_yazilanlar(&d, 1), vec!["b: 2".to_string()]);
    assert!(gece_yazilanlar(&d, 5).is_empty());
    d.son_kanal = Some(9);
    assert_eq!(uyanis_kanali(&d, 5), Some(9));
    assert_eq!(uyanis_kanali(&d, 4), None);
    d.sohbetler.insert(9, Sohbet::default());
    assert_eq!(uyanis_kanali(&d, 8), None);
}

#[test]
fn durtme_kararlari() {
    let (mut son, mut duyurulan) = (0i64, 0i64);
    assert_eq!(
        durtme_karari(Some(5), &mut son, None, &mut duyurulan, false, false, false),
        DurtmeKarari::Yolda
    );
    assert_eq!(son, 5);
    // aynı gün ikinci kez yol mesajı yok
    assert_eq!(
        durtme_karari(Some(5), &mut son, None, &mut duyurulan, false, false, false),
        DurtmeKarari::Atla
    );
    assert_eq!(
        durtme_karari(None, &mut son, Some(20), &mut duyurulan, false, false, false),
        DurtmeKarari::Gidiyorum
    );
    assert_eq!(duyurulan, 20);
    assert_eq!(
        durtme_karari(None, &mut son, Some(20), &mut duyurulan, false, false, false),
        DurtmeKarari::Atla
    );
    assert_eq!(
        durtme_karari(None, &mut son, None, &mut duyurulan, false, true, false),
        DurtmeKarari::Atla
    );
    assert_eq!(
        durtme_karari(None, &mut son, None, &mut duyurulan, false, false, true),
        DurtmeKarari::SorunAt
    );
    assert_eq!(
        durtme_karari(None, &mut son, None, &mut duyurulan, false, false, false),
        DurtmeKarari::DurupDururken
    );
}

#[test]
fn kanal_secimi() {
    let sunucular = vec![
        SunucuBilgisi {
            id: 1,
            sistem_kanali: Some(10),
            metin_kanallari: vec![(0, 11)],
        },
        SunucuBilgisi {
            id: 2,
            sistem_kanali: None,
            metin_kanallari: vec![(3, 21), (1, 22), (1, 23)],
        },
    ];
    assert_eq!(varsayilan_kanal(Some(99), None, &None, &sunucular), Some(99));
    assert_eq!(varsayilan_kanal(None, None, &None, &sunucular), Some(10));
    assert_eq!(varsayilan_kanal(None, Some(2), &None, &sunucular), Some(22));
    let izinli: HashSet<u64> = [11u64, 23].into_iter().collect();
    assert_eq!(varsayilan_kanal(None, None, &Some(izinli.clone()), &sunucular), Some(11));
    assert_eq!(varsayilan_kanal(None, Some(2), &Some(izinli), &sunucular), Some(23));
    assert_eq!(varsayilan_kanal(None, Some(3), &None, &sunucular), None);
}

#[test]
fn tepkiler_ve_adlar() {
    assert_eq!(ad(Some("Emin".into()), "emin42".into()), "Emin");
    assert_eq!(ad(None, "emin42".into()), "emin42");
    assert_eq!(reaction_label(&TepkiEmojisi::Unicode("💀".into())), "💀");
    assert_eq!(reaction_label(&TepkiEmojisi::Ozel(Some("kekw".into()))), ":kekw:");
    assert_eq!(reaction_label(&TepkiEmojisi::Ozel(None)), "bilinmeyen emoji");
    let mut d = Durum::default();
    d.sohbetler.insert(1, Sohbet::default());
    let icerik = tepkiyi_kaydet(&mut d, 1, "emin", "💀", "selam");
    assert_eq!(icerik, "emin: (tepki 💀) \"selam\" mesajına tepki verdi");
    let s = d.sohbetler.get(&1).unwrap();
    assert_eq!(s.gecmis.len(), 1);
    assert_eq!(s.gelen, 0);
    assert_eq!(d.hafiza.len(), 1);
    assert_eq!(unix_saniye(Some(5)), 5);
    assert_eq!(unix_saniye(None), 0);
}

#[test]
fn sessiz_sohbet_kapanir() {
    let mut d = Durum::default();
    for k in [1u64, 2, 3] {
        d.sohbetler.insert(k, Sohbet::default());
    }
    d.son_aktivite.insert(1, 0);
    d.son_aktivite.insert(2, 0);
    d.son_aktivite.insert(3, 1000);
    d.son_aktivite.insert(4, 0); // sohbeti yok: kayıt temizlenir
    d.mesgul.insert(2); // cevap üretiliyor: kapanmaz
    let simdi = SOHBET_ZAMAN_ASIMI;
    let kapanan = zaman_asimi_kapat(&mut d, simdi);
    let kanallar: Vec<u64> = kapanan.iter().map(|(k, _)| *k).collect();
    assert_eq!(kanallar, vec![1]);
    assert!(!d.sohbetler.contains_key(&1));
    assert!(d.sohbetler.contains_key(&2) && d.sohbetler.contains_key(&3));
    assert!(!d.son_aktivite.contains_key(&4));
    assert!(!d.son_aktivite.contains_key(&1));
}

#[test]
fn yorumsuz_haber_kapanir() {
    let mut d = Durum::default();
    d.sohbetler.insert(5, Sohbet::default());
    d.sohbetler.insert(6, Sohbet::default());
    d.haber_bekleyen.insert(5, 100);
    d.haber_bekleyen.insert(6, 100);
    d.son_aktivite.insert(5, 100 + YORUM_SURESI - 1); // yorum geldi
    let simdi = 100 + YORUM_SURESI;
    // 6'nın etkinlik kaydı yok: haber sessizce kapanır
    let kapanan = zaman_asimi_kapat(&mut d, simdi);
    assert!(kapanan.is_empty());
    assert!(d.sohbetler.contains_key(&5));
    assert!(!d.sohbetler.contains_key(&6));
    assert!(!d.haber_bekleyen.contains_key(&6));
    assert!(d.haber_bekleyen.contains_key(&5));
}

fn mesaj(zaman: i64, isim: &str, yazar: u64, bot: bool, icerik: &str) -> TaramaMesaji {
    TaramaMesaji {
        zaman,
        isim: isim.into(),
        yazar,
        bot,
        icerik: icerik.into(),
        guvenli: icerik.into(),
    }
}

#[test]
fn tarama_sayfalari() {
    let mut toplam: Vec<Toplanan> = Vec::new();
    let sayfa = vec![
        mesaj(50, "emin", 1, false, "selam"),
        mesaj(40, "bot", 2, true, "ben"),
        mesaj(30, "zeynep", 3, false, "  "),
        mesaj(5, "eski", 4, false, "çok eski"),
        mesaj(45, "sonra", 5, false, "görülmez"),
    ];
    let devam = sayfa_isle(&sayfa, 10, &mut toplam);
    assert!(!devam);
    assert_eq!(toplam.len(), 1);
    assert_eq!(toplam[0].1, "emin");
    let dolu: Vec<TaramaMesaji> = (0..100).map(|i| mesaj(100 + i, "a", 1, false, "x")).collect();
    assert!(sayfa_isle(&dolu, 10, &mut toplam));
    assert_eq!(toplam.len(), 101);
}

#[test]
fn tarama_hafizanin_onune_eklenir() {
    let mut d = Durum::default();
    hatirla(&mut d, "canli", "yeni");
    let toplam: Vec<Toplanan> = vec![
        (30, "c".into(), 3, "üç".into()),
        (10, "a".into(), 7, "bir".into()),
        (20, "b".into(), 2, "iki".into()),
        (10, "a2".into(), 7, "bir-iki".into()),
    ];
    taramayi_isle(&mut d, &toplam, 7);
    let h: Vec<&str> = d.hafiza.iter().map(|s| s.as_str()).collect();
    assert_eq!(h, vec!["a: bir", "a2: bir-iki", "b: iki", "c: üç", "canli: yeni"]);
    assert_eq!(d.favori_adi.as_deref(), Some("a2"));
    let cok: Vec<Toplanan> = (0..(HAFIZA_BOYU as i64 + 5))
        .map(|i| (i, "x".to_string(), 1, format!("{i}")))
        .collect();
    taramayi_isle(&mut d, &cok, 99);
    assert_eq!(d.hafiza.len(), HAFIZA_BOYU);
}

#[test]
fn hack_sakasi_uc_cevap_surer() {
    let mut d = Durum::default();
    d.bot_adi = "kaju".into();
    saka_basladi(&mut d, 4, "bak şuna".into(), true, 100);
    let s = d.sohbetler.get(&4).unwrap();
    assert_eq!(s.hackli, 3);
    assert_eq!(s.sayac, 1);
    assert_eq!(s.gecmis.last().unwrap().content, "bak şuna");
    assert_eq!(d.son_aktivite.get(&4), Some(&100));
    // hacksiz şaka açık sohbetin sayacına dokunmaz
    saka_basladi(&mut d, 4, "yine".into(), false, 150);
    assert_eq!(d.sohbetler.get(&4).unwrap().hackli, 3);
    assert_eq!(d.son_aktivite.get(&4), Some(&150));
}

#[test]
fn atilan_habere_yorum_beklenir() {
    let mut d = Durum::default();
    let mut atilan: HashSet<u64> = HashSet::new();
    haber_atildi(&mut d, &mut atilan, 9, "şu habere bakın".into(), 1234, 1000);
    assert!(d.sohbetler.contains_key(&9));
    assert_eq!(d.haber_bekleyen.get(&9), Some(&(1000 + YORUM_SURESI)));
    assert!(atilan.contains(&1234));
}
