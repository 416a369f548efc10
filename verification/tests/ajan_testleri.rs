use discord_bot::ajan::{
    aday_kimlikler, aday_listesi, gezgin_secimi, gundem_adaylari, gundem_guncelle, haber_listesi, hn_adayi,
    kanaatleri_duzenle, rastgele_resim, resim_sec, resim_turu, resim_uzantisi_mi, secim_numarasi, veri_adresi,
    veri_adresi_yap, Haber, Kanaat, News,
};
use discord_bot::gundem::{link_id, RssNews};
use std::collections::HashSet;

fn haber(id: u64, baslik: &str, puan: i64) -> Haber {
    Haber { id, title: baslik.to_string(), url: String::new(), score: puan }
}

#[test]
fn atilan_haberler_aday_olmaz() {
    let idler = vec![1, 2, 3, 4, 5, 6];
    let atilan: HashSet<u64> = [2u64, 4].into_iter().collect();
    assert_eq!(aday_kimlikler(&idler, &atilan, 15), vec![1, 3, 5, 6]);
    assert_eq!(aday_kimlikler(&idler, &atilan, 2), vec![1, 3]);
    assert_eq!(aday_kimlikler(&idler, &atilan, 0), Vec::<u64>::new());
}

#[test]
fn haber_listesi_sifirdan_sayar() {
    let hs = vec![haber(10, "Rust 2.0", 420), haber(11, "Eksi puanlı", -3)];
    assert_eq!(haber_listesi(&hs), "0. Rust 2.0 (420 puan)\n1. Eksi puanlı (-3 puan)\n");
    assert_eq!(haber_listesi(&Vec::new()), "");
}

#[test]
fn haber_secimi_rakamlari_okur() {
    assert_eq!(secim_numarasi("3", 5), 3);
    assert_eq!(secim_numarasi("bence 4. haber", 5), 4);
    // listede olmayan numara ilk habere düşer
    assert_eq!(secim_numarasi("99", 5), 0);
    assert_eq!(secim_numarasi("5", 5), 0);
    // rakam yoksa ilk haber
    assert_eq!(secim_numarasi("abc", 5), 0);
    // bütün rakamlar birleşir: "1 ve 2" -> 12
    assert_eq!(secim_numarasi("1 ve 2", 20), 12);
}

#[test]
fn gundem_adaylari_atilanlari_eler() {
    let rss = vec![
        RssNews { title: "bir".into(), link: "https://a.com/1".into(), summary: String::new() },
        RssNews { title: "iki".into(), link: "https://a.com/2".into(), summary: String::new() },
    ];
    let atilan: HashSet<u64> = [link_id("https://a.com/1")].into_iter().collect();
    let a = gundem_adaylari(&rss, &atilan);
    assert_eq!(a.len(), 1);
    assert_eq!(a[0].title, "iki");
    assert_eq!(a[0].url, "https://a.com/2");
    assert_eq!(a[0].id, link_id("https://a.com/2"));
    assert_eq!(a[0].score, 0);
    assert_eq!(a[0].source, "gündem");
}

#[test]
fn gundem_adaylari_on_ikiyle_sinirli() {
    let rss: Vec<RssNews> = (0..20)
        .map(|i| RssNews { title: format!("b{i}"), link: format!("https://a.com/{i}"), summary: String::new() })
        .collect();
    let a = gundem_adaylari(&rss, &HashSet::new());
    assert_eq!(a.len(), 12);
    assert_eq!(a[11].title, "b11");
}

#[test]
fn aday_listesi_kaynagi_gosterir() {
    let adaylar = vec![
        News { id: 1, title: "HN başlığı".into(), url: String::new(), score: 5, source: "hn" },
        News { id: 2, title: "RSS başlığı".into(), url: String::new(), score: 0, source: "gündem" },
    ];
    assert_eq!(aday_listesi(&adaylar), "0. [hn] HN başlığı\n1. [gündem] RSS başlığı");
}

#[test]
fn gezgin_en_cok_uc_gecerli_secim_alir() {
    assert_eq!(gezgin_secimi("1, 5 ve 30", 10), vec![1, 5]);
    assert_eq!(gezgin_secimi("0 1 2 3 4", 10), vec![0, 1, 2]);
    assert_eq!(gezgin_secimi("hiçbiri", 10), Vec::<usize>::new());
    // liste yirmiden uzunsa yirmi ve üstü alınmaz
    assert_eq!(gezgin_secimi("19 20 25", 40), vec![19]);
}

#[test]
fn gundem_defteri_sinirda_kalir() {
    let girdiler = vec!["a".to_string(), "b".to_string()];
    let (liste, arsiv) = gundem_guncelle(girdiler.clone(), "c".into(), 5);
    assert_eq!(liste, vec!["a", "b", "c"]);
    assert!(arsiv.is_empty());
    let (liste, arsiv) = gundem_guncelle(girdiler, "c".into(), 2);
    assert_eq!(liste, vec!["b", "c"]);
    assert_eq!(arsiv, vec!["a"]);
}

fn kanaat(isim: &str, puan: i32) -> Kanaat {
    Kanaat { isim: isim.into(), puan, not: format!("{isim} notu") }
}

#[test]
fn kanaatler_sinirlanir() {
    let mut ks = vec![kanaat("emin", 25), kanaat("zeynep", -40), kanaat("ali", 3)];
    kanaatleri_duzenle(&mut ks, None, "favori");
    let puanlar: Vec<i32> = ks.iter().map(|k| k.puan).collect();
    assert_eq!(puanlar, vec![10, -10, 3]);
    let mut cok: Vec<Kanaat> = (0..40).map(|i| kanaat(&format!("k{i}"), i)).collect();
    kanaatleri_duzenle(&mut cok, None, "favori");
    assert_eq!(cok.len(), 30);
    assert_eq!(cok[29].isim, "k29");
}

#[test]
fn favori_basa_gecer() {
    let mut ks = vec![kanaat("emin", -5), kanaat("zeynep", 2)];
    kanaatleri_duzenle(&mut ks, Some("zeynep"), "canın ciğerin");
    assert_eq!(ks.len(), 2);
    assert_eq!(ks[0].isim, "zeynep");
    assert_eq!(ks[0].puan, 10);
    assert_eq!(ks[0].not, "canın ciğerin");
    assert_eq!(ks[1].isim, "emin");
    assert_eq!(ks[1].puan, -5);
}

#[test]
fn gorsel_turu_uzantidan() {
    assert!(resim_uzantisi_mi("PNG"));
    assert!(resim_uzantisi_mi("jpeg"));
    assert!(!resim_uzantisi_mi("txt"));
    assert_eq!(resim_turu("JPG"), "image/jpeg");
    assert_eq!(resim_turu("gif"), "image/gif");
    assert_eq!(resim_turu("webp"), "image/webp");
    assert_eq!(resim_turu("bmp"), "image/png");
}

#[test]
fn veri_adresi_base64_tasir() {
    assert_eq!(veri_adresi_yap("image/png", "QUJD"), "data:image/png;base64,QUJD");
    assert_eq!(veri_adresi("png", &b"hi".to_vec()), "data:image/png;base64,aGk=");
    assert_eq!(veri_adresi("jpg", &Vec::new()), "data:image/jpeg;base64,");
}

#[test]
fn rastgele_resim_yalniz_gorsel_secer() {
    let dosyalar = vec![
        ("resimler/a.txt".to_string(), "txt".to_string()),
        ("resimler/b.PNG".to_string(), "PNG".to_string()),
    ];
    for _ in 0..10 {
        assert_eq!(rastgele_resim(&dosyalar), Some("resimler/b.PNG".to_string()));
    }
    let yok = vec![("resimler/a.txt".to_string(), "txt".to_string())];
    assert_eq!(rastgele_resim(&yok), None);
}

#[test]
fn basliksiz_hn_haberi_aday_olmaz() {
    assert!(hn_adayi(haber(1, "", 10)).is_none());
    let n = hn_adayi(Haber { id: 2, title: "Başlık".into(), url: "https://a.b".into(), score: 7 }).unwrap();
    assert_eq!((n.id, n.title.as_str(), n.url.as_str(), n.score, n.source), (2, "Başlık", "https://a.b", 7, "hn"));
}

#[test]
fn veri_adresi_standart_base64() {
    assert_eq!(veri_adresi("gif", &b"Man".to_vec()), "data:image/gif;base64,TWFu");
    assert_eq!(veri_adresi("png", &b"M".to_vec()), "data:image/png;base64,TQ==");
    assert_eq!(veri_adresi("webp", &vec![0xfb, 0xff, 0xbf, 0x00]), "data:image/webp;base64,+/+/AA==");
}

#[test]
fn cekilen_sayi_gorseli_belirler() {
    let dosyalar = vec![
        ("a.txt".to_string(), "txt".to_string()),
        ("b.png".to_string(), "png".to_string()),
        ("c.JPG".to_string(), "JPG".to_string()),
        ("d.md".to_string(), "md".to_string()),
        ("e.webp".to_string(), "webp".to_string()),
    ];
    assert_eq!(resim_sec(&dosyalar, 0), Some("b.png".to_string()));
    assert_eq!(resim_sec(&dosyalar, 1), Some("c.JPG".to_string()));
    assert_eq!(resim_sec(&dosyalar, 2), Some("e.webp".to_string()));
    assert_eq!(resim_sec(&dosyalar, 7), Some("c.JPG".to_string()));
    assert_eq!(resim_sec(&dosyalar, usize::MAX), Some(if usize::MAX % 3 == 0 { "b.png" } else if usize::MAX % 3 == 1 { "c.JPG" } else { "e.webp" }.to_string()));
    assert_eq!(resim_sec(&dosyalar[..1].to_vec(), 5), None);
}
