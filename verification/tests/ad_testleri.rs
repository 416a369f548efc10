use discord_bot::gunluk::kisiyi_coz;
use discord_bot::karar::mesaji_kaydet;
use discord_bot::sohbet::{ad_kaydet, ad_kimligi, ad_yoksa_kaydet, Durum};
use discord_bot::tarama::{taramayi_isle, Toplanan};

#[test]
fn ad_kaydi_ezilir() {
    let mut adlar: Vec<(String, u64)> = Vec::new();
    ad_kaydet(&mut adlar, "ayşe", 1);
    ad_kaydet(&mut adlar, "mehmet", 2);
    ad_kaydet(&mut adlar, "ayşe", 3);
    assert_eq!(ad_kimligi(&adlar, "ayşe"), Some(3));
    assert_eq!(ad_kimligi(&adlar, "mehmet"), Some(2));
    assert_eq!(ad_kimligi(&adlar, "zeynep"), None);
}

#[test]
fn ad_yoksa_kaydedilir() {
    let mut adlar: Vec<(String, u64)> = Vec::new();
    ad_yoksa_kaydet(&mut adlar, "ayşe", 1);
    ad_yoksa_kaydet(&mut adlar, "ayşe", 9);
    ad_yoksa_kaydet(&mut adlar, "ali", 4);
    assert_eq!(ad_kimligi(&adlar, "ayşe"), Some(1));
    assert_eq!(ad_kimligi(&adlar, "ali"), Some(4));
}

#[test]
fn mesaj_kaydi_adi_ve_kullanici_adini_yazar() {
    let mut d = Durum::default();
    mesaji_kaydet(&mut d, 5, "Ayşe", "selam", 11, "ayse_k", false);
    assert_eq!(d.hafiza.back().map(|s| s.as_str()), Some("Ayşe: selam"));
    assert_eq!(ad_kimligi(&d.ad_kimlikleri, "ayşe"), Some(11));
    assert_eq!(ad_kimligi(&d.ad_kimlikleri, "Ayşe"), None);
    assert_eq!(d.kullanici_adlari.get(&11).map(|s| s.as_str()), Some("ayse_k"));
    assert_eq!(d.son_kanal, Some(5));
    assert_eq!(d.favori_adi, None);
    // aynı ad başka kimlikle gelirse son gelen geçerli olur
    mesaji_kaydet(&mut d, 6, "AYŞE", "ben de", 12, "baska", true);
    assert_eq!(ad_kimligi(&d.ad_kimlikleri, "ayşe"), Some(12));
    assert_eq!(d.favori_adi.as_deref(), Some("AYŞE"));
    assert_eq!(d.son_kanal, Some(6));
}

#[test]
fn tarama_canli_adlari_ezmez() {
    let mut d = Durum::default();
    mesaji_kaydet(&mut d, 1, "Ali", "canlı", 50, "ali50", false);
    let toplam: Vec<Toplanan> = vec![
        (20, "ali".into(), 7, "eski".into()),
        (10, "Veli".into(), 8, "daha eski".into()),
        (30, "veli".into(), 9, "sonra".into()),
    ];
    taramayi_isle(&mut d, &toplam, 0);
    // canlı mesajdan gelen eşleşme kalır
    assert_eq!(ad_kimligi(&d.ad_kimlikleri, "ali"), Some(50));
    // taramada adı ilk gören (zamanca en eski) kayıt geçerlidir
    assert_eq!(ad_kimligi(&d.ad_kimlikleri, "veli"), Some(8));
    assert_eq!(d.kullanici_adlari.len(), 1);
}

#[test]
fn gunlukcu_adi_kimlige_cozer() {
    let mut d = Durum::default();
    mesaji_kaydet(&mut d, 1, "Zeynep", "merhaba", 21, "zey", false);
    let r = kisiyi_coz(&d, "ZEYNEP");
    assert_eq!(r, Some((21, Some("zey".to_string()))));
    assert_eq!(kisiyi_coz(&d, "yok"), None);
    let mut d2 = Durum::default();
    let toplam: Vec<Toplanan> = vec![(1, "Can".into(), 4, "x".into())];
    taramayi_isle(&mut d2, &toplam, 0);
    assert_eq!(kisiyi_coz(&d2, "can"), Some((4, None)));
}
