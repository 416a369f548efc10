use discord_bot::ayiklama::{hedef_adayi, hedef_sonucu, isteklilik_degeri, ruh_hali_metni};
use discord_bot::yardimci::json_ayikla;
use serde_json::Value;

type Nesne = serde_json::Map<String, Value>;

// uygulamadaki serde adımının karşılığı: alanlar varsayılanlıdır, tür tutmazsa çözülemez
fn nesne(cevap: &str) -> Option<Nesne> {
    let v: Value = serde_json::from_str(json_ayikla(cevap)).ok()?;
    v.as_object().cloned()
}

fn tamsayi(o: &Nesne, alan: &str) -> Option<i32> {
    match o.get(alan) {
        None => Some(0),
        Some(x) => i32::try_from(x.as_i64()?).ok(),
    }
}

fn metin(o: &Nesne, alan: &str) -> Option<String> {
    match o.get(alan) {
        None => Some(String::new()),
        Some(x) => x.as_str().map(|s| s.to_string()),
    }
}

fn isteklilik_puan(cevap: &str) -> Option<u8> {
    let o = nesne(cevap)?;
    let puan = tamsayi(&o, "puan")?;
    let sebep = metin(&o, "sebep")?;
    Some(isteklilik_degeri(puan, &sebep).0)
}

fn hedef_ayikla(cevap: &str, bilinenler: &[String]) -> Option<String> {
    let json_hedef = nesne(cevap).and_then(|o| metin(&o, "hedef"));
    let aday = hedef_adayi(json_hedef.as_deref(), cevap);
    hedef_sonucu(aday, &bilinenler.to_vec())
}

fn ruh_hali_ayikla(cevap: &str) -> Option<String> {
    let o = nesne(cevap)?;
    let durum = metin(&o, "durum")?;
    let yogunluk = tamsayi(&o, "yogunluk")?;
    ruh_hali_metni(&durum, yogunluk)
}

#[test]
fn isteklilik_puani_ayiklanir() {
    assert_eq!(isteklilik_puan(r#"{"puan": 7, "sebep": "bana soruldu"}"#), Some(7));
    assert_eq!(isteklilik_puan("```json\n{\"puan\": 3}\n```"), Some(3));
    assert_eq!(isteklilik_puan(r#"{"puan": 25}"#), Some(10)); // clamp
    assert_eq!(isteklilik_puan(r#"{"puan": -4}"#), Some(0));
    assert_eq!(isteklilik_puan("puan veremem"), None);
}

#[test]
fn isteklilik_sebebi_kirpilir() {
    assert_eq!(isteklilik_degeri(4, "  bana soruldu \n"), (4, "bana soruldu".to_string()));
    assert_eq!(isteklilik_degeri(i32::MIN, ""), (0, String::new()));
    assert_eq!(isteklilik_degeri(11, "x"), (10, "x".to_string()));
}

#[test]
fn hedef_ayiklanir() {
    let bilinenler = vec!["Emin".to_string(), "Zeynep".to_string()];
    assert_eq!(hedef_ayikla(r#"{"hedef": "Zeynep"}"#, &bilinenler), Some("Zeynep".into()));
    // düz metin de olur, bilinen adla eşleşir
    assert_eq!(hedef_ayikla("emin", &bilinenler), Some("Emin".into()));
    // bilinmeyen ad olduğu gibi döner
    assert_eq!(hedef_ayikla(r#"{"hedef": "Misafir"}"#, &bilinenler), Some("Misafir".into()));
    assert_eq!(hedef_ayikla("", &bilinenler), None);
}

#[test]
fn hedef_ilk_satirdan_tirnaksiz_alinir() {
    assert_eq!(hedef_adayi(None, "  \"Zeynep\"  \nbaşka satır"), "Zeynep");
    assert_eq!(hedef_adayi(Some("  Ali "), "yok sayılır"), "Ali");
    assert_eq!(hedef_sonucu("ZEYNEP".into(), &vec!["Zeynep".into()]), Some("Zeynep".into()));
    assert_eq!(hedef_sonucu(String::new(), &vec!["Zeynep".into()]), None);
}

#[test]
fn ruh_hali_ayiklanir() {
    assert_eq!(
        ruh_hali_ayikla(r#"{"durum": "kafa karışıklığı", "yogunluk": 6}"#),
        Some("kafa karışıklığı (6)".into())
    );
    // clamp: 15 -> 10
    assert_eq!(ruh_hali_ayikla(r#"{"durum": "öfke", "yogunluk": 15}"#), Some("öfke (10)".into()));
    // düşük yoğunluk: nötr sayılır, hiç yansıtılmaz
    assert_eq!(ruh_hali_ayikla(r#"{"durum": "huzur", "yogunluk": 2}"#), None);
    assert_eq!(ruh_hali_ayikla(r#"{"durum": "", "yogunluk": 8}"#), None);
    assert_eq!(ruh_hali_ayikla("bozuk cevap"), None);
}

#[test]
fn ruh_hali_yogunlugu_sinirlanir() {
    assert_eq!(ruh_hali_metni(" sevinç ", 3), Some("sevinç (3)".into()));
    assert_eq!(ruh_hali_metni("sevinç", -5), None);
    assert_eq!(ruh_hali_metni("sevinç", i32::MAX), Some("sevinç (10)".into()));
}
