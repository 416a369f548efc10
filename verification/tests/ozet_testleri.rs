use discord_bot::ozet::{olay_dosyasi, olay_dosyasi_bol, ozet_sonucu};

#[test]
fn olay_dosyasi_onda_altida_bolunur() {
    let eski = "# olaylar\n- 1\n- 2\n- 3\n- 4\n- 5\n- 6\n- 7\n- 8\n- 9\n- 10\nnot";
    let (diger, eskiler, yeniler) = olay_dosyasi_bol(eski);
    assert_eq!(diger, vec!["# olaylar", "not"]);
    assert_eq!(eskiler, vec!["- 1", "- 2", "- 3", "- 4", "- 5", "- 6"]);
    assert_eq!(yeniler, vec!["- 7", "- 8", "- 9", "- 10"]);
}

#[test]
fn az_olayda_kesim_asagi_yuvarlanir() {
    // 3 * 6 / 10 = 1
    let (_, eskiler, yeniler) = olay_dosyasi_bol("- a\n- b\n- c\n");
    assert_eq!(eskiler, vec!["- a"]);
    assert_eq!(yeniler, vec!["- b", "- c"]);
    // tek olay özetlenmez
    let (_, eskiler, yeniler) = olay_dosyasi_bol("- a");
    assert!(eskiler.is_empty());
    assert_eq!(yeniler, vec!["- a"]);
    // "-" ile başlayıp boşluk gelmeyen satır olay değildir
    let (diger, eskiler, yeniler) = olay_dosyasi_bol("-x\r\n");
    assert_eq!(diger, vec!["-x"]);
    assert!(eskiler.is_empty() && yeniler.is_empty());
}

#[test]
fn olay_dosyasi_yeniden_yazilir() {
    let diger = vec!["# olaylar".to_string(), "  ".to_string()];
    let yeniler = vec!["- 7".to_string(), "- 8".to_string()];
    assert_eq!(
        olay_dosyasi(&diger, "  özet satırı \n", &yeniler),
        "# olaylar\nözet satırı\n\n- 7\n- 8\n"
    );
}

#[test]
fn kuculmeyen_ozet_yazilmaz() {
    assert_eq!(ozet_sonucu("kısa  \n", "uzun bir metin burada"), Some("kısa".to_string()));
    assert_eq!(ozet_sonucu("   \n", "uzun bir metin"), None);
    assert_eq!(ozet_sonucu("aynı uzunlukta", "aynı uzunlukta"), None);
    // bayt olarak karşılaştırılır: "ğğ" 4 bayt, "abc" 3 bayt
    assert_eq!(ozet_sonucu("ğğ", "abc"), None);
    assert_eq!(ozet_sonucu("ab", "ğğ"), Some("ab".to_string()));
}
