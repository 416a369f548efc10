use discord_bot::akis_okuyucu::{
    sse_satiri, sse_sonucu, sse_verisi, AkisOkuyucu, AkisParcasi, AkisYaniti, OkuyucuAdimi,
    Parca, SseSatiri, SseVeri,
};
use discord_bot::istek::Kullanim;

// "data:" yükünün JSON çözümü (uygulamada serde ile yapılan adım)
fn coz(j: &str) -> Option<AkisYaniti> {
    let v: serde_json::Value = serde_json::from_str(j).ok()?;
    if !v.is_object() {
        return None;
    }
    let ilk = v
        .get("choices")
        .and_then(|c| c.as_array())
        .and_then(|a| a.first())
        .map(|s| {
            let d = &s["delta"];
            let al = |k: &str| d.get(k).and_then(|x| x.as_str()).map(|x| x.to_string());
            AkisParcasi {
                content: al("content"),
                reasoning: al("reasoning"),
                reasoning_content: al("reasoning_content"),
            }
        });
    let usage = v.get("usage").filter(|u| !u.is_null()).map(|u| Kullanim {
        prompt_tokens: u["prompt_tokens"].as_u64().unwrap_or(0),
        completion_tokens: u["completion_tokens"].as_u64().unwrap_or(0),
        cached_tokens: u["prompt_tokens_details"]["cached_tokens"].as_u64().unwrap_or(0),
    });
    Some(AkisYaniti { ilk, usage })
}

fn sse_ayikla(satir: &str) -> Option<SseVeri> {
    let s = sse_satiri(satir);
    let cozum = match &s {
        SseSatiri::Veri(j) => coz(j),
        _ => None,
    };
    sse_verisi(s, cozum)
}

#[test]
fn sse_ayristirilir() {
    let v = sse_ayikla(r#"data: {"choices":[{"delta":{"content":"sel","reasoning":"düş"}}]}"#)
        .unwrap();
    let p = v.parca.unwrap();
    assert_eq!(p.metin, "sel");
    assert_eq!(p.dusunce, "düş");
    assert!(v.kullanim.is_none());
    // reasoning yoksa (mistral tarzı) content yine gelir
    let p = sse_ayikla(r#"data: {"choices":[{"delta":{"content":"merhaba"}}]}"#)
        .unwrap()
        .parca
        .unwrap();
    assert_eq!(p.metin, "merhaba");
    assert!(p.dusunce.is_empty());
    // openai uyumlu router'lar reasoning_content kullanır
    let p = sse_ayikla(
        r#"data: {"choices":[{"delta":{"content":"","reasoning_content":"qwen düşüncesi"}}]}"#,
    )
    .unwrap()
    .parca
    .unwrap();
    assert_eq!(p.dusunce, "qwen düşüncesi");
    assert!(p.metin.is_empty());
    // [DONE] işareti ayrı yakalanır
    let v = sse_ayikla("data: [DONE]").unwrap();
    assert!(v.done && v.parca.is_none());
    // usage son chunk'ta choices boşken gelir
    let v = sse_ayikla(
        r#"data: {"choices":[],"usage":{"prompt_tokens":7,"completion_tokens":13}}"#,
    )
    .unwrap();
    assert!(v.parca.is_none());
    assert_eq!(v.kullanim.unwrap().prompt_tokens, 7);
    assert_eq!(v.kullanim.unwrap().completion_tokens, 13);
    assert!(sse_ayikla(": keepalive").is_none());
    assert!(sse_ayikla("data: bozuk json").is_none());
    assert!(sse_ayikla(r#"data: {"choices":[{"delta":{}}]}"#).is_none());
}

#[test]
fn sse_satiri_kirpilir() {
    assert!(matches!(sse_satiri("  data:   [DONE]  "), SseSatiri::Bitti));
    assert!(matches!(sse_satiri("event: ping"), SseSatiri::Bos));
    assert!(matches!(sse_satiri("data"), SseSatiri::Bos));
    match sse_satiri("data:{\"a\":1}\r") {
        SseSatiri::Veri(v) => assert_eq!(v, "{\"a\":1}"),
        _ => panic!("veri satırı bekleniyordu"),
    }
}

#[test]
fn dusunce_reasoning_once_gelir() {
    let y = AkisYaniti {
        ilk: Some(AkisParcasi {
            content: None,
            reasoning: Some("birinci".into()),
            reasoning_content: Some("ikinci".into()),
        }),
        usage: None,
    };
    let p = sse_sonucu(y).unwrap().parca.unwrap();
    assert_eq!(p.dusunce, "birinci");
    assert!(p.metin.is_empty());
    // boş reasoning atlanır
    let y = AkisYaniti {
        ilk: Some(AkisParcasi {
            content: Some("x".into()),
            reasoning: Some(String::new()),
            reasoning_content: Some("ikinci".into()),
        }),
        usage: None,
    };
    let p = sse_sonucu(y).unwrap().parca.unwrap();
    assert_eq!(p.dusunce, "ikinci");
    assert_eq!(p.metin, "x");
}

#[test]
fn baytlar_satir_satir_islenir() {
    let mut o = AkisOkuyucu::yeni();
    let satirlar = o.bayt_ekle(b"data: a\ndata: b\nyar");
    assert_eq!(satirlar, vec!["data: a", "data: b"]);
    assert_eq!(o.tampon, b"yar".to_vec());
    // satır tamamlanınca kalan baytlar öne eklenir
    let satirlar = o.bayt_ekle(b"im\n");
    assert_eq!(satirlar, vec!["yarim"]);
    assert!(o.tampon.is_empty());
    // çok baytlı karakter iki parçaya bölünse de satır bütün okunur
    let s = "düş\n".as_bytes();
    let satirlar = o.bayt_ekle(&s[..2]);
    assert!(satirlar.is_empty());
    let satirlar = o.bayt_ekle(&s[2..]);
    assert_eq!(satirlar, vec!["düş"]);
    // geçersiz bayt yerine U+FFFD
    let satirlar = o.bayt_ekle(&[0x61, 0xff, b'\n']);
    assert_eq!(satirlar, vec!["a\u{fffd}"]);
}

fn parca(m: &str) -> SseVeri {
    SseVeri { parca: Some(Parca { metin: m.into(), dusunce: String::new() }), kullanim: None, done: false }
}

#[test]
fn okuyucu_parcalari_gelis_sirasiyla_verir() {
    let mut o = AkisOkuyucu::yeni();
    assert!(matches!(o.adim(), OkuyucuAdimi::Oku));
    o.veri_al(parca("Güne"));
    o.veri_al(parca("ş"));
    o.veri_al(SseVeri {
        parca: None,
        kullanim: Some(Kullanim { prompt_tokens: 7, completion_tokens: 13, cached_tokens: 2 }),
        done: false,
    });
    o.veri_al(SseVeri { parca: None, kullanim: None, done: true });
    match o.adim() {
        OkuyucuAdimi::Ver(p) => assert_eq!(p.metin, "Güne"),
        _ => panic!("parça bekleniyordu"),
    }
    match o.adim() {
        OkuyucuAdimi::Ver(p) => assert_eq!(p.metin, "ş"),
        _ => panic!("parça bekleniyordu"),
    }
    assert!(matches!(o.adim(), OkuyucuAdimi::Oku));
    assert!(o.done);
    assert_eq!(o.kullanim.prompt_tokens, 7);
    assert_eq!(o.kullanim.completion_tokens, 13);
    assert_eq!(o.kullanim.cached_tokens, 2);
    // bağlantı biter, sonda satır sonu olmayan bir satır kalmıştır
    o.bayt_ekle(b"data: son");
    o.baglanti_bitti();
    match o.adim() {
        OkuyucuAdimi::SonSatir(s) => assert_eq!(s, "data: son"),
        _ => panic!("son satır bekleniyordu"),
    }
    let p = o.son_veri(parca("son")).unwrap();
    assert_eq!(p.metin, "son");
    assert!(matches!(o.adim(), OkuyucuAdimi::Son));
}

#[test]
fn akis_okuyucu_sse_ayiklar() {
    // sunucunun parça parça gönderdiği gövde, okuyucu üzerinden
    let govde = "data: {\"choices\":[{\"delta\":{\"reasoning\":\"önce düşün\"}}]}\n\n\
                 data: {\"choices\":[{\"delta\":{\"content\":\"Güne\"}}]}\n\n\
                 data: {\"choices\":[{\"delta\":{\"content\":\"ş bugün güzel\"}}]}\n\n\
                 data: [DONE]\n\n";
    let baytlar = govde.as_bytes();
    let mut o = AkisOkuyucu::yeni();
    let mut dusunce = String::new();
    let mut metin = String::new();
    let mut konum = 0;
    loop {
        match o.adim() {
            OkuyucuAdimi::Ver(p) => {
                dusunce += &p.dusunce;
                metin += &p.metin;
            }
            OkuyucuAdimi::Son => break,
            OkuyucuAdimi::SonSatir(s) => {
                if let Some(v) = sse_ayikla(&s) {
                    if let Some(p) = o.son_veri(v) {
                        dusunce += &p.dusunce;
                        metin += &p.metin;
                    }
                }
            }
            OkuyucuAdimi::Oku => {
                if konum >= baytlar.len() {
                    o.baglanti_bitti();
                    continue;
                }
                let son = (konum + 7).min(baytlar.len());
                for satir in o.bayt_ekle(&baytlar[konum..son]) {
                    if let Some(v) = sse_ayikla(&satir) {
                        o.veri_al(v);
                    }
                }
                konum = son;
            }
        }
    }
    assert_eq!(dusunce, "önce düşün");
    assert_eq!(metin, "Güneş bugün güzel");
    assert!(o.done);
}
