use discord_bot::akis::DusunmeKip;
use discord_bot::istek::{
    butce_buyut, butce_tabanini_uygula, deneme_sonucu, dusunce_uzunlugu, dusunceden_json, durum_denenebilir,
    reasoning_alanlarini_kaldir, reasoning_dusuk_efor, reasoning_kapat, yanit_icerigi, Deneme,
    Icerik, IstekAyarlari, IstekKarari, IstekOlayi, Kullanim, ReasoningAlani,
};

fn ayar(max_tokens: Option<u64>) -> IstekAyarlari {
    IstekAyarlari {
        model: None,
        max_tokens,
        reasoning: None,
        enable_thinking: None,
    }
}

#[test]
fn butce_buyut_ikiye_katlar_tabani_gozetir() {
    let mut g = ayar(Some(1200));
    assert_eq!(butce_buyut(&mut g, 1500), Some(2400));
    let mut k = ayar(Some(80));
    assert_eq!(butce_buyut(&mut k, 1500), Some(1500));
    // bütçesiz çağrıya dokunmaz
    let mut yok = IstekAyarlari {
        model: Some("x".into()),
        ..ayar(None)
    };
    assert_eq!(butce_buyut(&mut yok, 1500), None);
    assert!(yok.max_tokens.is_none());
}

#[test]
fn butce_taban_altindaysa_yukselir() {
    let mut govde = ayar(Some(20));
    assert!(butce_tabanini_uygula(&mut govde, 500));
    assert_eq!(govde.max_tokens, Some(500));
    let mut govde = ayar(Some(800));
    assert!(!butce_tabanini_uygula(&mut govde, 500));
    assert_eq!(govde.max_tokens, Some(800));
    let mut govde = ayar(None);
    assert!(!butce_tabanini_uygula(&mut govde, 500));
    assert!(govde.max_tokens.is_none());
}

#[test]
fn butce_tavanda_buyumez() {
    let mut g = ayar(Some(u32::MAX as u64));
    assert_eq!(butce_buyut(&mut g, 1500), None);
    assert_eq!(g.max_tokens, Some(u32::MAX as u64));
}

#[test]
fn yanit_icerigi_dusunceden_json_alir() {
    let dolu = Icerik {
        content: Some(" {\"puan\": 4} ".into()),
        reasoning: None,
        reasoning_content: None,
    };
    assert_eq!(
        yanit_icerigi(&dolu, "isteklilik").as_deref(),
        Some("{\"puan\": 4}")
    );
    let gomulu = Icerik {
        content: None,
        reasoning: None,
        reasoning_content: Some(
            "düşünüyorum... sonuç: {\"puan\": 7, \"sebep\": \"bana soruldu\"} bitti".into(),
        ),
    };
    assert_eq!(
        yanit_icerigi(&gomulu, "isteklilik").as_deref(),
        Some("{\"puan\": 7, \"sebep\": \"bana soruldu\"}")
    );
    assert_eq!(yanit_icerigi(&gomulu, "hoca"), None);
    let duz = Icerik {
        content: Some(String::new()),
        reasoning: Some("sadece düşünce, { yarım".into()),
        reasoning_content: None,
    };
    assert_eq!(yanit_icerigi(&duz, "gunlukcu"), None);
    assert_eq!(dusunce_uzunlugu(&duz), 23);
}

#[test]
fn bozuk_json_dusunceden_alinmaz() {
    let bozuk = Icerik {
        content: None,
        reasoning: Some("sonuç {puan: 7}".into()),
        reasoning_content: None,
    };
    assert_eq!(yanit_icerigi(&bozuk, "ruh_hali"), None);
    assert_eq!(dusunce_uzunlugu(&bozuk), 15);
    let bos = Icerik {
        content: None,
        reasoning: None,
        reasoning_content: None,
    };
    assert_eq!(dusunce_uzunlugu(&bos), 0);
}

#[test]
fn reasoning_adrese_gore_kapatilir() {
    let or = "https://OpenRouter.ai/api/v1/chat/completions";
    let mut a = ayar(Some(100));
    assert!(reasoning_kapat(&mut a, DusunmeKip::Kapali, or, false));
    assert_eq!(a.reasoning, Some(ReasoningAlani::Kapali));
    assert_eq!(a.enable_thinking, None);
    let mut b = ayar(Some(100));
    assert!(reasoning_kapat(&mut b, DusunmeKip::Goster, "http://localhost:8080/v1", true));
    assert_eq!(b.enable_thinking, Some(false));
    assert_eq!(b.reasoning, None);
    let mut c = ayar(Some(100));
    assert!(!reasoning_kapat(&mut c, DusunmeKip::Kapali, "https://api.mistral.ai/v1", true));
    assert_eq!(c.reasoning, None);
    assert_eq!(c.enable_thinking, None);
    // kullanıcı düşünmeyi açık tuttuysa ve zorunlu değilse dokunulmaz
    let mut e = ayar(Some(100));
    assert!(!reasoning_kapat(&mut e, DusunmeKip::Gizle, or, false));
    assert_eq!(e.reasoning, None);
    reasoning_dusuk_efor(&mut a, or);
    assert_eq!(a.reasoning, Some(ReasoningAlani::DusukEfor));
    reasoning_alanlarini_kaldir(&mut b);
    assert_eq!(b.enable_thinking, None);
    let mut m = ayar(None);
    reasoning_dusuk_efor(&mut m, "https://api.mistral.ai/v1");
    assert_eq!(m.reasoning, None);
}

#[test]
fn gecici_durumlar_denenir() {
    for d in [429u16, 500, 501, 502, 503, 504, 599] {
        assert!(durum_denenebilir(d));
    }
    for d in [400u16, 401, 404, 428, 600] {
        assert!(!durum_denenebilir(d));
    }
}

fn deneme() -> Deneme {
    Deneme {
        sira: 0,
        kapatildi: true,
        son_hata: String::new(),
        kategori: "sohbet".into(),
    }
}

#[test]
fn gecici_hata_iki_kez_geri_cekilip_denenir() {
    let mut d = deneme();
    let mut a = ayar(Some(100));
    let adres = "https://openrouter.ai/api/v1/chat/completions";
    let olay = || IstekOlayi::HttpHatasi {
        durum: 503,
        durum_metni: "503 Service Unavailable".into(),
        govde: "meşgul".into(),
    };
    assert!(matches!(deneme_sonucu(&mut d, &mut a, adres, olay()), IstekKarari::Bekle(2)));
    assert!(matches!(deneme_sonucu(&mut d, &mut a, adres, olay()), IstekKarari::Bekle(4)));
    match deneme_sonucu(&mut d, &mut a, adres, olay()) {
        IstekKarari::Hata(h) => assert_eq!(h, "503 Service Unavailable (model: ?): meşgul"),
        _ => panic!("üçüncü denemede hata bekleniyordu"),
    }
}

#[test]
fn kalici_hata_hemen_biter() {
    let mut d = deneme();
    let mut a = IstekAyarlari {
        model: Some("glm".into()),
        ..ayar(Some(100))
    };
    match deneme_sonucu(
        &mut d,
        &mut a,
        "x",
        IstekOlayi::HttpHatasi {
            durum: 404,
            durum_metni: "404 Not Found".into(),
            govde: "model\n  not   found".into(),
        },
    ) {
        IstekKarari::Hata(h) => assert_eq!(h, "404 Not Found (model: glm): model not found"),
        _ => panic!("hata bekleniyordu"),
    }
    let mut d = deneme();
    match deneme_sonucu(
        &mut d,
        &mut a,
        "x",
        IstekOlayi::GonderimHatasi {
            gecici: false,
            aciklama: "tls".into(),
        },
    ) {
        IstekKarari::Hata(h) => assert_eq!(h, "tls"),
        _ => panic!("hata bekleniyordu"),
    }
}

#[test]
fn zorunlu_reasoning_acik_yeniden_denenir() {
    let mut d = deneme();
    let mut a = ayar(Some(1200));
    a.reasoning = Some(ReasoningAlani::Kapali);
    let adres = "https://openrouter.ai/api/v1/chat/completions";
    let sonuc = deneme_sonucu(
        &mut d,
        &mut a,
        adres,
        IstekOlayi::HttpHatasi {
            durum: 400,
            durum_metni: "400 Bad Request".into(),
            govde: "Reasoning is mandatory for this endpoint and cannot be disabled.".into(),
        },
    );
    assert!(matches!(sonuc, IstekKarari::Bekle(2)));
    assert!(!d.kapatildi);
    assert_eq!(a.reasoning, Some(ReasoningAlani::DusukEfor));
    assert_eq!(a.max_tokens, Some(2400));
}

#[test]
fn bos_yanit_son_denemede_aciklanir() {
    let mut d = deneme();
    let mut a = ayar(None);
    let bos = || IstekOlayi::Yanit {
        icerik: None,
        dusunce_kr: 42,
    };
    assert!(matches!(deneme_sonucu(&mut d, &mut a, "x", bos()), IstekKarari::Bekle(2)));
    assert_eq!(d.son_hata, "modelden boş yanıt geldi");
    assert!(matches!(deneme_sonucu(&mut d, &mut a, "x", bos()), IstekKarari::Bekle(4)));
    match deneme_sonucu(&mut d, &mut a, "x", bos()) {
        IstekKarari::Hata(h) => assert_eq!(
            h,
            "modelden boş yanıt geldi [sohbet] (model: ?, max_tokens: bütçesiz, düşünce: 42 kr)"
        ),
        _ => panic!("hata bekleniyordu"),
    }
    let mut d = deneme();
    match deneme_sonucu(
        &mut d,
        &mut a,
        "x",
        IstekOlayi::Yanit {
            icerik: Some("selam".into()),
            dusunce_kr: 0,
        },
    ) {
        IstekKarari::Tamam(t) => assert_eq!(t, "selam"),
        _ => panic!("içerik bekleniyordu"),
    }
}

#[test]
fn kullanim_toplanir() {
    let mut k = Kullanim {
        prompt_tokens: 10,
        completion_tokens: 3,
        cached_tokens: 1,
    };
    k.topla(Kullanim {
        prompt_tokens: 7,
        completion_tokens: 13,
        cached_tokens: 0,
    });
    assert_eq!(k.prompt_tokens, 17);
    assert_eq!(k.completion_tokens, 16);
    assert_eq!(k.cached_tokens, 1);
}

#[test]
fn dusunceden_json_yalniz_gecerli_nesne() {
    assert_eq!(dusunceden_json("{\"puan\": 4}", true), Some("{\"puan\": 4}".to_string()));
    assert_eq!(dusunceden_json("{\"puan\": 4", false), None);
    assert_eq!(dusunceden_json("[1, 2]", true), None);
}

#[test]
fn bos_yanitta_dusuk_efor_ve_buyuk_butce() {
    let mut d = deneme();
    let mut a = ayar(Some(500));
    let adres = "https://openrouter.ai/api/v1/chat/completions";
    let sonuc = deneme_sonucu(&mut d, &mut a, adres, IstekOlayi::Yanit { icerik: None, dusunce_kr: 3 });
    assert!(matches!(sonuc, IstekKarari::Bekle(2)));
    assert_eq!(a.reasoning, Some(ReasoningAlani::DusukEfor));
    assert_eq!(a.max_tokens, Some(1500));
    // 501 de sunucu hatasıdır: ayar değişmeden yeniden denenir
    let sonuc = deneme_sonucu(
        &mut d,
        &mut a,
        adres,
        IstekOlayi::HttpHatasi { durum: 501, durum_metni: "501 Not Implemented".into(), govde: String::new() },
    );
    assert!(matches!(sonuc, IstekKarari::Bekle(4)));
    assert_eq!(a.max_tokens, Some(1500));
}
