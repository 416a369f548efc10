use discord_bot::gundem::{sayfa_metni, SayfaKaynagi, SAYFA_SINIRI};
use discord_bot::istem::{
    analiz_girdisi, hedef_istegi, hoca_girdisi, isteklilik_istegi, ruh_hali_gecmisi, yerlestir,
};
use discord_bot::olay::{
    bot_adi, duyuru_aciklamasi, dusunce_yaniti, hos_geldin, mesaj_kabul, sunucu_geldi, sunucu_izinli,
    tezgah_girdisi, TezgahGirdisi,
};
use discord_bot::sohbet::{asistan, hatirla, kullanici_resimli, sohbet_baslat, Durum};
use std::collections::{HashMap, HashSet};

#[test]
fn ayarli_sunucu_disindakiler_yok_sayilir() {
    assert!(sunucu_izinli(None, 5));
    assert!(sunucu_izinli(Some(5), 5));
    assert!(!sunucu_izinli(Some(5), 6));
}

#[test]
fn bot_adi_secilen_isimden() {
    assert_eq!(bot_adi(Some("kaju"), "BotHesabi"), "kaju");
    assert_eq!(bot_adi(None, "BotHesabi"), "BotHesabi");
}

#[test]
fn sunucu_bir_kez_taranir() {
    let mut taranan: HashSet<u64> = HashSet::new();
    assert_eq!(sunucu_geldi(&mut taranan, 42), Some("42".to_string()));
    assert_eq!(sunucu_geldi(&mut taranan, 42), None);
    let liste = sunucu_geldi(&mut taranan, 7).unwrap();
    let mut satirlar: Vec<&str> = liste.split('\n').collect();
    satirlar.sort();
    assert_eq!(satirlar, vec!["42", "7"]);
    assert_eq!(taranan.len(), 2);
}

#[test]
fn surum_duyurusu() {
    assert_eq!(duyuru_aciklamasi("glm", "gizle"), "model glm · düşünme gizle");
}

#[test]
fn yeni_uyeye_selam() {
    let mut d = Durum::default();
    // sistem kanalı önce gelir
    assert_eq!(
        hos_geldin(&mut d, Some(1), Some(2), false, "zeynep"),
        Some((1, "zeynep sunucuya yeni katıldı.".to_string()))
    );
    assert_eq!(hos_geldin(&mut d, None, Some(2), false, "ali").map(|x| x.0), Some(2));
    // kanal yoksa hiçbir şey olmaz, favori de hatırlanmaz
    assert_eq!(hos_geldin(&mut d, None, None, true, "emin"), None);
    assert_eq!(d.favori_adi, None);
    // açık sohbet varsa selam verilmez ama favori hatırlanır
    sohbet_baslat(&mut d, 3, None, 100);
    assert_eq!(hos_geldin(&mut d, Some(3), None, true, "emin"), None);
    assert_eq!(d.favori_adi, Some("emin".to_string()));
}

#[test]
fn dusunce_dugmesi_depodan_okur() {
    let mut depo: HashMap<u64, String> = HashMap::new();
    depo.insert(9, "düşünce metni".into());
    assert_eq!(dusunce_yaniti(&depo, 9), "```\ndüşünce metni\n```");
    assert_eq!(dusunce_yaniti(&depo, 10), "düşünce bulunamadı (bot yeniden başlamış olabilir)");
}

#[test]
fn sayfa_metni_sinirlanir() {
    let uzun = "a".repeat(SAYFA_SINIRI + 10);
    assert_eq!(sayfa_metni(SayfaKaynagi::Markdown(uzun)).chars().count(), SAYFA_SINIRI);
    assert_eq!(sayfa_metni(SayfaKaynagi::Markdown("# başlık".into())), "# başlık");
    assert_eq!(sayfa_metni(SayfaKaynagi::Html("<p>Selam <b>dünya</b></p>".into())), "Selam dünya");
}

#[test]
fn sablon_doldurulur() {
    assert_eq!(yerlestir("sen {ad}sın, {ad}!", "{ad}", "kaju"), "sen kajusın, kaju!");
    assert_eq!(yerlestir("yer tutucu yok", "{ad}", "kaju"), "yer tutucu yok");
    assert_eq!(analiz_girdisi("metin", "talimat"), "metin\n\n---\n\ntalimat");
}

#[test]
fn isteklilik_istegi_bos_baglamda_sorulmaz() {
    let mut d = Durum::default();
    assert_eq!(isteklilik_istegi("ANALİST", &d), None);
    d.profil = "profil".into();
    d.dizin = "dizin".into();
    hatirla(&mut d, "emin", "selam");
    let (sabit, girdi) = isteklilik_istegi("ANALİST", &d).unwrap();
    assert_eq!(sabit, "ANALİST\n\nGRUP PROFİLİ\nprofil\n\nKİŞİ DİZİNİ\ndizin");
    assert_eq!(girdi, "SON MESAJLAR\nemin: selam");
}

#[test]
fn hedef_istegi_bekleyenleri_listeler() {
    let mut d = Durum::default();
    d.bot_adi = "kaju".into();
    hatirla(&mut d, "emin", "selam");
    let bekleyenler = vec!["emin".to_string(), "zeynep".to_string()];
    let (sabit, degisken, girdi) = hedef_istegi("ANALİST", "{ad} kime dönsün?", &d, &bekleyenler);
    assert_eq!(sabit, "ANALİST\n\nkaju kime dönsün?");
    assert_eq!(degisken, "BEKLEYENLER\n- emin\n- zeynep");
    assert_eq!(girdi, "SON MESAJLAR\nemin: selam");
}

#[test]
fn hoca_girdisi_bos_bolumleri_aciklar() {
    let mut d = Durum::default();
    assert_eq!(hoca_girdisi(&d), None);
    hatirla(&mut d, "emin", "selam");
    d.profil = "profil".into();
    let g = hoca_girdisi(&d).unwrap();
    assert_eq!(
        g,
        "GRUP PROFİLİ\nprofil\n\nKİŞİ DİZİNİ\n\n\nGÜNDEM NOTLARI (internette okuyup düşündükleri)\n(henüz gezmedi)\n\nBOTUN SON HALİ\n(bir şey yok)\n\nŞU ANKİ HUYUN\n(henüz yok, ilk kez yazıyorsun)\n\nSON KONUŞMALAR\nemin: selam\n\nBOTUN KENDİ SON MESAJLARI\n(henüz konuşmadı)"
    );
}

#[test]
fn bot_webhook_ve_ozel_mesaj_islenmez() {
    let kanallar: Option<HashSet<u64>> = Some([10u64].into_iter().collect());
    assert!(mesaj_kabul(false, false, Some(1), 10, None, &None));
    assert!(!mesaj_kabul(true, false, Some(1), 10, None, &None));
    assert!(!mesaj_kabul(false, true, Some(1), 10, None, &None));
    assert!(!mesaj_kabul(false, false, None, 10, None, &None));
    assert!(!mesaj_kabul(false, false, Some(2), 10, Some(1), &None));
    assert!(mesaj_kabul(false, false, Some(1), 10, Some(1), &kanallar));
    assert!(!mesaj_kabul(false, false, Some(1), 11, Some(1), &kanallar));
}

fn mesaj(satir: &str) -> Option<(String, String)> {
    match tezgah_girdisi(satir) {
        TezgahGirdisi::Mesaj(a, m) => Some((a, m)),
        _ => None,
    }
}

#[test]
fn tezgah_satiri_ad_ve_metne_ayrilir() {
    assert_eq!(mesaj("emin: selam millet"), Some(("emin".into(), "selam millet".into())));
    assert_eq!(mesaj("  selam  "), Some(("misafir".into(), "selam".into())));
    assert_eq!(mesaj(": boş ad"), Some(("misafir".into(), "boş ad".into())));
    assert_eq!(mesaj("saat: 3: olur"), Some(("saat".into(), "3: olur".into())));
    assert!(matches!(tezgah_girdisi(" !quit "), TezgahGirdisi::Cik));
    assert!(matches!(tezgah_girdisi("   "), TezgahGirdisi::Bos));
}

#[test]
fn ruh_hali_cagrisina_gorsel_gitmez() {
    assert!(ruh_hali_gecmisi(&Vec::new()).is_none());
    let g = vec![kullanici_resimli("emin: bak", "https://a/b.png"), asistan("güzelmiş")];
    let r = ruh_hali_gecmisi(&g).unwrap();
    assert_eq!(r.len(), 2);
    assert!(r.iter().all(|m| m.resim.is_none()));
    assert_eq!(r[0].content, "emin: bak");
    assert_eq!(r[1].content, "güzelmiş");
}
