use discord_bot::gonderim::{yazim_plani, YazimIsi};
use discord_bot::sohbet::{sohbet_baslat, Durum};
use discord_bot::tur::{tur_adimi, TurEylemi, TurOlayi};

fn is(x: &YazimIsi) -> (bool, usize, String, Option<u64>) {
    match x {
        YazimIsi::Duzenle { sira, icerik } => (false, *sira, icerik.clone(), None),
        YazimIsi::Gonder { sira, icerik, yanit } => (true, *sira, icerik.clone(), *yanit),
    }
}

#[test]
fn degisen_mesaj_duzenlenir_yenisi_gonderilir() {
    let gonderilen = vec!["Düşünüyorum...".to_string(), "aynı".to_string()];
    let yerlesim = vec!["cevap".to_string(), "aynı".to_string(), "devamı".to_string()];
    let plan: Vec<_> = yazim_plani(&gonderilen, &yerlesim, Some(77)).iter().map(is).collect();
    assert_eq!(
        plan,
        vec![(false, 0, "cevap".to_string(), None), (true, 2, "devamı".to_string(), None)]
    );
}

#[test]
fn yanit_bagi_yalniz_ilk_mesajda() {
    let yerlesim = vec!["bir".to_string(), "iki".to_string()];
    let plan: Vec<_> = yazim_plani(&Vec::new(), &yerlesim, Some(5)).iter().map(is).collect();
    assert_eq!(
        plan,
        vec![(true, 0, "bir".to_string(), Some(5)), (true, 1, "iki".to_string(), None)]
    );
    assert!(yazim_plani(&yerlesim, &yerlesim, Some(5)).is_empty());
}

#[test]
fn tur_kilidi_her_cikista_birakilir() {
    let mut d = Durum::default();
    // açık sohbet yoksa tur başlamaz
    assert_eq!(tur_adimi(&mut d, 7, TurOlayi::Basla), TurEylemi::Birak);
    assert!(d.mesgul.is_empty());
    sohbet_baslat(&mut d, 7, None, 1);
    assert_eq!(tur_adimi(&mut d, 7, TurOlayi::Basla), TurEylemi::Uret);
    assert!(d.mesgul.contains(&7));
    // kilitliyken ikinci tur başlamaz
    assert_eq!(tur_adimi(&mut d, 7, TurOlayi::Basla), TurEylemi::Birak);
    assert_eq!(tur_adimi(&mut d, 7, TurOlayi::Bitti { yeni_mesaj: true }), TurEylemi::Yeniden);
    assert!(!d.mesgul.contains(&7));
    assert_eq!(tur_adimi(&mut d, 7, TurOlayi::Basla), TurEylemi::Uret);
    assert_eq!(tur_adimi(&mut d, 7, TurOlayi::Bitti { yeni_mesaj: false }), TurEylemi::Son);
    assert!(d.mesgul.is_empty());
}

#[test]
fn mesgul_kanalda_durum_degismez() {
    let mut d = Durum::default();
    sohbet_baslat(&mut d, 7, None, 1);
    d.son_kanal = Some(7);
    d.bekleyen_etiketler.push((7, "ali: selam".to_string()));
    d.profil = "profil".to_string();
    assert_eq!(tur_adimi(&mut d, 7, TurOlayi::Basla), TurEylemi::Uret);
    assert_eq!(tur_adimi(&mut d, 7, TurOlayi::Basla), TurEylemi::Birak);
    assert_eq!(d.son_kanal, Some(7));
    assert_eq!(d.bekleyen_etiketler, vec![(7, "ali: selam".to_string())]);
    assert_eq!(d.profil, "profil");
    assert!(d.sohbetler.contains_key(&7));
    assert_eq!(d.mesgul.len(), 1);
}
