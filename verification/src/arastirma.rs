//! Mesaj internete bakmayı gerektiriyor mu: atılan link, arama isteği, haber isteği; ve
//! bulunanların talimata giren metni.
use vstd::prelude::*;
use crate::metin::{
    basla, basliyor, birlestir, degistir, degistirilmis, icerir, iceriyor, karakterler,
    kelime_araliklari, kelimeler, kirp, kirp_sinir, kopya, metin_yap, metne,
};
use crate::yardimci::{birlestirilmis, ekle_metin, kucuk_harf_metni, kucuk_harfe_cevir};

verus! {

broadcast use vstd::string::group_string_axioms;

// ---------- link ----------

/// Linkin sonundaki noktalama (`>`, `)`, `,`, `.`) atılır.
pub open spec fn link_sonu_temiz(w: Seq<char>) -> Seq<char>
    decreases w.len(),
{
    if w.len() > 0 && (w.last() == '>' || w.last() == ')' || w.last() == ',' || w.last() == '.') {
        link_sonu_temiz(w.drop_last())
    } else {
        w
    }
}

pub open spec fn link_mi(w: Seq<char>) -> bool {
    basla(w, "http://"@) || basla(w, "https://"@)
}

/// Mesajdaki ilk link (boşluklarla ayrılmış kelimelerden "http://" ya da "https://" ile
/// başlayan ilki).
pub open spec fn ilk_link(ws: Seq<Seq<char>>) -> Option<Seq<char>>
    decreases ws.len(),
{
    if ws.len() == 0 {
        None
    } else if link_mi(ws[0]) {
        Some(link_sonu_temiz(ws[0]))
    } else {
        ilk_link(ws.drop_first())
    }
}

// ---------- anahtar kelimeler ----------

/// Haber/gündem soruluyor mu (küçük harfli metinde).
pub open spec fn haber_istegi(m: Seq<char>) -> bool {
    icerir(m, "haber"@) || icerir(m, "gündem"@) || icerir(m, "ne oldu"@) || icerir(m, "son dakika"@)
        || icerir(m, "neler oluyor"@) || icerir(m, "güncel"@)
}

/// Araştırma isteniyor mu (küçük harfli metinde).
pub open spec fn arama_istegi(m: Seq<char>) -> bool {
    icerir(m, "araştır"@) || icerir(m, "bak bakalım"@) || icerir(m, "baksana"@) || icerir(m, "bi bak"@)
        || icerir(m, "googlela"@) || icerir(m, "ara bakalım"@) || icerir(m, "arasana"@) || icerir(
        m,
        "internete bak"@,
    ) || icerir(m, "internetten bak"@)
}

/// Arama sorgusundan tetik sözleri ve dolgu sözleri boşlukla değiştirilir (sırayla).
pub open spec fn tetiksiz(m: Seq<char>) -> Seq<char> {
    let b = " "@;
    let s1 = degistir(degistir(degistir(m, "araştır"@, b), "bak bakalım"@, b), "baksana"@, b);
    let s2 = degistir(degistir(degistir(s1, "bi bak"@, b), "googlela"@, b), "ara bakalım"@, b);
    let s3 = degistir(degistir(degistir(s2, "arasana"@, b), "internete bak"@, b), "internetten bak"@, b);
    degistir(degistir(degistir(degistir(s3, "bakar mısın"@, b), " lan"@, b), " la "@, b), " aq"@, b)
}

/// "@" ile başlamayan kelimeler.
pub open spec fn etiketsiz_kelimeler(ws: Seq<Seq<char>>) -> Seq<Seq<char>> {
    ws.filter(|w: Seq<char>| !(w.len() > 0 && w[0] == '@'))
}

/// Arama sorgusu: tetikler atılmış, etiketler atılmış kelimeler; boş kalırsa mesajın kendisi.
pub open spec fn sorgu_spec(metin: Seq<char>) -> Seq<char> {
    let s = birlestir(etiketsiz_kelimeler(kelimeler(tetiksiz(kucuk_harf_metni(metin)))), " "@);
    if kirp(s).len() == 0 {
        metin
    } else {
        s
    }
}

/// Ne yapılacağı.
pub enum ArastirmaPlani {
    /// Atılan link okunur.
    Link(String),
    /// Arama (anahtar varsa ve istendiyse) ve/veya haber başlıkları; arama başarısız
    /// olursa başlıklara düşülür.
    Diger { arama: Option<String>, basliklar: bool },
}

pub open spec fn plan_spec(metin: Seq<char>, arama_anahtari: bool) -> (Option<Seq<char>>, Option<Seq<char>>, bool) {
    let m = kucuk_harf_metni(metin);
    match ilk_link(kelimeler(metin)) {
        Some(u) => (Some(u), None, false),
        None => {
            let ara = arama_istegi(m);
            (None, if ara && arama_anahtari {
                Some(sorgu_spec(metin))
            } else {
                None
            }, haber_istegi(m) || ara)
        },
    }
}

fn dahil(m: &Vec<char>, p: &str) -> (r: bool)
    ensures
        r == icerir(m@, p@),
{
    iceriyor(m, &karakterler(p))
}

fn haber_istegi_mi(m: &Vec<char>) -> (r: bool)
    ensures
        r == haber_istegi(m@),
{
    dahil(m, "haber") || dahil(m, "gündem") || dahil(m, "ne oldu") || dahil(m, "son dakika")
        || dahil(m, "neler oluyor") || dahil(m, "güncel")
}

fn arama_istegi_mi(m: &Vec<char>) -> (r: bool)
    ensures
        r == arama_istegi(m@),
{
    dahil(m, "araştır") || dahil(m, "bak bakalım") || dahil(m, "baksana") || dahil(m, "bi bak")
        || dahil(m, "googlela") || dahil(m, "ara bakalım") || dahil(m, "arasana") || dahil(
        m,
        "internete bak",
    ) || dahil(m, "internetten bak")
}

fn yerine_bosluk(v: Vec<char>, p: &str) -> (r: Vec<char>)
    ensures
        r@ == degistir(v@, p@, " "@),
{
    degistirilmis(&v, &karakterler(p), &karakterler(" "))
}

fn tetikleri_at(m: Vec<char>) -> (r: Vec<char>)
    ensures
        r@ == tetiksiz(m@),
{
    let s = yerine_bosluk(m, "araştır");
    let s = yerine_bosluk(s, "bak bakalım");
    let s = yerine_bosluk(s, "baksana");
    let s = yerine_bosluk(s, "bi bak");
    let s = yerine_bosluk(s, "googlela");
    let s = yerine_bosluk(s, "ara bakalım");
    let s = yerine_bosluk(s, "arasana");
    let s = yerine_bosluk(s, "internete bak");
    let s = yerine_bosluk(s, "internetten bak");
    let s = yerine_bosluk(s, "bakar mısın");
    let s = yerine_bosluk(s, " lan");
    let s = yerine_bosluk(s, " la ");
    yerine_bosluk(s, " aq")
}

/// Arama sorgusu.
pub fn sorgu(metin: &str) -> (r: String)
    ensures
        r@ == sorgu_spec(metin@),
{
    let k = kucuk_harfe_cevir(metin);
    let t = tetikleri_at(karakterler(k.as_str()));
    let ar = kelime_araliklari(&t);
    let ghost ws = kelimeler(t@);
    let ghost p = |w: Seq<char>| !(w.len() > 0 && w[0] == '@');
    let mut secilen: Vec<String> = Vec::new();
    let mut i: usize = 0;
    while i < ar.len()
        invariant
            i <= ar@.len() == ws.len(),
            ws == kelimeler(t@),
            p == (|w: Seq<char>| !(w.len() > 0 && w[0] == '@')),
            forall|x: int|
                #![trigger ar@[x]]
                0 <= x < ar@.len() ==> ar@[x].0 <= ar@[x].1 <= t@.len() && ws[x] == t@.subrange(
                    ar@[x].0 as int,
                    ar@[x].1 as int,
                ),
            secilen.deep_view() == ws.take(i as int).filter(p),
        decreases ar@.len() - i,
    {
        let (a, b) = ar[i];
        proof {
            assert(ws.take(i + 1) =~= ws.take(i as int).push(ws[i as int]));
            ws.take(i as int).lemma_filter_push(ws[i as int], p);
        }
        let etiket = a < b && t[a] == '@';
        if !etiket {
            let ghost s0 = secilen.deep_view();
            secilen.push(metin_yap(&t, a, b));
            assert(secilen.deep_view() =~= s0.push(ws[i as int]));
        }
        i += 1;
    }
    assert(ws.take(i as int) =~= ws);
    let s = birlestirilmis(&secilen, " ");
    let sv = karakterler(s.as_str());
    let n = sv.len();
    assert(sv@.subrange(0, n as int) =~= sv@);
    let (x, y) = kirp_sinir(&sv, 0, n);
    if x == y {
        metin.to_owned()
    } else {
        s
    }
}

fn link_sonu_temizle(v: &Vec<char>, a: usize, b: usize) -> (r: usize)
    requires
        a <= b <= v@.len(),
    ensures
        a <= r <= b,
        v@.subrange(a as int, r as int) == link_sonu_temiz(v@.subrange(a as int, b as int)),
{
    let mut e = b;
    while e > a && (v[e - 1] == '>' || v[e - 1] == ')' || v[e - 1] == ',' || v[e - 1] == '.')
        invariant
            a <= e <= b <= v@.len(),
            link_sonu_temiz(v@.subrange(a as int, b as int)) == link_sonu_temiz(v@.subrange(a as int, e as int)),
        decreases e - a,
    {
        assert(v@.subrange(a as int, e as int).drop_last() =~= v@.subrange(a as int, e - 1));
        e -= 1;
    }
    e
}

/// Mesajın araştırma planı.
pub fn arastirma_plani(metin: &str, arama_anahtari: bool) -> (r: ArastirmaPlani)
    ensures
        ({
            let (link, arama, basliklar) = plan_spec(metin@, arama_anahtari);
            match r {
                ArastirmaPlani::Link(u) => link == Some(u@),
                ArastirmaPlani::Diger { arama: a, basliklar: b } => link is None && b == basliklar
                    && match a {
                    Some(s) => arama == Some(s@),
                    None => arama is None,
                },
            }
        }),
{
    let v = karakterler(metin);
    let ar = kelime_araliklari(&v);
    let ghost ws = kelimeler(v@);
    let h = karakterler("http://");
    let hs = karakterler("https://");
    let mut i: usize = 0;
    assert(ws.skip(0) =~= ws);
    while i < ar.len()
        invariant
            i <= ar@.len() == ws.len(),
            ws == kelimeler(v@),
            v@ == metin@,
            h@ == "http://"@,
            hs@ == "https://"@,
            forall|x: int|
                #![trigger ar@[x]]
                0 <= x < ar@.len() ==> ar@[x].0 <= ar@[x].1 <= v@.len() && ws[x] == v@.subrange(
                    ar@[x].0 as int,
                    ar@[x].1 as int,
                ),
            ilk_link(ws) == ilk_link(ws.skip(i as int)),
        decreases ar@.len() - i,
    {
        let (a, b) = ar[i];
        let w = kopya(&v, a, b);
        assert(w@ == ws[i as int]);
        assert(ws.skip(i as int)[0] == ws[i as int]);
        assert(w@.skip(0) =~= w@);
        if basliyor(&w, 0, &h) || basliyor(&w, 0, &hs) {
            let e = link_sonu_temizle(&v, a, b);
            assert(link_mi(ws[i as int]));
            assert(ilk_link(ws.skip(i as int)) == Some(link_sonu_temiz(ws[i as int])));
            let u = metin_yap(&v, a, e);
            assert(u@ == link_sonu_temiz(ws[i as int]));
            assert(ilk_link(kelimeler(metin@)) == Some(u@));
            assert(plan_spec(metin@, arama_anahtari).0 == Some(u@));
            return ArastirmaPlani::Link(u);
        }
        assert(ws.skip(i as int).drop_first() =~= ws.skip(i + 1));
        i += 1;
    }
    let mk = kucuk_harfe_cevir(metin);
    let m = karakterler(mk.as_str());
    let ara = arama_istegi_mi(&m);
    let haber = haber_istegi_mi(&m);
    let arama = if ara && arama_anahtari {
        Some(sorgu(metin))
    } else {
        None
    };
    ArastirmaPlani::Diger { arama, basliklar: haber || ara }
}

// ---------- bulunanların metni ----------

/// Okunan link: sayfa (kısaltılmış) boş değilse içeriğiyle, açılamadıysa bildirimle.
pub open spec fn link_metni_spec(url: Seq<char>, sayfa: Option<Seq<char>>) -> Seq<char> {
    match sayfa {
        Some(s) => "Atılan link ("@ + url + "):\n"@ + s,
        None => "Link açılamadı: "@ + url,
    }
}

pub fn link_metni(url: &str, sayfa: Option<&str>) -> (r: String)
    ensures
        r@ == link_metni_spec(
            url@,
            match sayfa {
                Some(s) => Some(s@),
                None => None,
            },
        ),
{
    let mut v: Vec<char> = Vec::new();
    match sayfa {
        Some(s) => {
            ekle_metin(&mut v, "Atılan link (");
            ekle_metin(&mut v, url);
            ekle_metin(&mut v, "):\n");
            ekle_metin(&mut v, s);
        },
        None => {
            ekle_metin(&mut v, "Link açılamadı: ");
            ekle_metin(&mut v, url);
        },
    }
    metne(&v)
}

/// Arama sonucunun metni.
pub fn arama_metni(sorgu: &str, sonuc: &str) -> (r: String)
    ensures
        r@ == "\""@ + sorgu@ + "\" araması:\n"@ + sonuc@,
{
    let mut v: Vec<char> = Vec::new();
    ekle_metin(&mut v, "\"");
    ekle_metin(&mut v, sorgu);
    ekle_metin(&mut v, "\" araması:\n");
    ekle_metin(&mut v, sonuc);
    metne(&v)
}

/// Haber başlıklarının metni: ilk on iki başlık, her biri kısa özetiyle.
pub open spec fn basliklar_metni_spec(hs: Seq<(Seq<char>, Seq<char>)>) -> Seq<char> {
    let ilk = if hs.len() > 12 {
        hs.take(12)
    } else {
        hs
    };
    "Sözcü'den şu anki başlıklar:\n"@ + birlestir(
        ilk.map_values(|h: (Seq<char>, Seq<char>)| "- "@ + h.0 + " — "@ + h.1),
        seq!['\n'],
    )
}

pub fn basliklar_metni(hs: &Vec<(String, String)>) -> (r: String)
    ensures
        r@ == basliklar_metni_spec(hs@.map_values(|h: (String, String)| (h.0@, h.1@))),
{
    let ghost hv = hs@.map_values(|h: (String, String)| (h.0@, h.1@));
    let n: usize = if hs.len() > 12 {
        12
    } else {
        hs.len()
    };
    let ghost ilk = if hv.len() > 12 {
        hv.take(12)
    } else {
        hv
    };
    let ghost f = |h: (Seq<char>, Seq<char>)| "- "@ + h.0 + " — "@ + h.1;
    let mut satirlar: Vec<String> = Vec::new();
    let mut i: usize = 0;
    assert(ilk.len() == n);
    while i < n
        invariant
            i <= n <= hs@.len(),
            n == ilk.len(),
            hv == hs@.map_values(|h: (String, String)| (h.0@, h.1@)),
            ilk == (if hv.len() > 12 { hv.take(12) } else { hv }),
            f == (|h: (Seq<char>, Seq<char>)| "- "@ + h.0 + " — "@ + h.1),
            satirlar.deep_view() == ilk.take(i as int).map_values(f),
        decreases n - i,
    {
        let mut v: Vec<char> = Vec::new();
        ekle_metin(&mut v, "- ");
        ekle_metin(&mut v, hs[i].0.as_str());
        ekle_metin(&mut v, " — ");
        ekle_metin(&mut v, hs[i].1.as_str());
        assert(ilk[i as int] == hv[i as int]);
        let ghost s0 = satirlar.deep_view();
        satirlar.push(metne(&v));
        assert(satirlar.deep_view() =~= s0.push(f(ilk[i as int])));
        assert(ilk.take(i + 1) =~= ilk.take(i as int).push(ilk[i as int]));
        assert(ilk.take(i + 1).map_values(f) =~= ilk.take(i as int).map_values(f).push(f(ilk[i as int])));
        i += 1;
    }
    assert(ilk.take(n as int) =~= ilk);
    let govde = birlestirilmis(&satirlar, "\n");
    assert("\n"@ =~= seq!['\n']) by {
        reveal_strlit("\n");
    }
    let mut v: Vec<char> = Vec::new();
    ekle_metin(&mut v, "Sözcü'den şu anki başlıklar:\n");
    ekle_metin(&mut v, govde.as_str());
    metne(&v)
}

/// Firecrawl aramasının sonuçları (başlık, kısaltılmış açıklama, adres): başlığı boş
/// olanlar atlanır, her biri "- başlık — açıklama (adres)" satırı; hiç kalmazsa yok.
pub open spec fn arama_sonuclari_spec(s: Seq<(Seq<char>, Seq<char>, Seq<char>)>) -> Option<Seq<char>> {
    let kalan = s.filter(|x: (Seq<char>, Seq<char>, Seq<char>)| x.0.len() > 0);
    if kalan.len() == 0 {
        None
    } else {
        Some(
            birlestir(
                kalan.map_values(
                    |x: (Seq<char>, Seq<char>, Seq<char>)| "- "@ + x.0 + " — "@ + x.1 + " ("@ + x.2 + ")"@,
                ),
                seq!['\n'],
            ),
        )
    }
}

pub fn arama_sonuclari(sonuclar: &Vec<(String, String, String)>) -> (r: Option<String>)
    ensures
        match r {
            None => arama_sonuclari_spec(sonuclar@.map_values(|x: (String, String, String)| (x.0@, x.1@, x.2@))) is None,
            Some(t) => arama_sonuclari_spec(sonuclar@.map_values(|x: (String, String, String)| (x.0@, x.1@, x.2@)))
                == Some(t@),
        },
{
    let ghost sv = sonuclar@.map_values(|x: (String, String, String)| (x.0@, x.1@, x.2@));
    let ghost p = |x: (Seq<char>, Seq<char>, Seq<char>)| x.0.len() > 0;
    let ghost f = |x: (Seq<char>, Seq<char>, Seq<char>)| "- "@ + x.0 + " — "@ + x.1 + " ("@ + x.2 + ")"@;
    let mut satirlar: Vec<String> = Vec::new();
    let mut i: usize = 0;
    while i < sonuclar.len()
        invariant
            i <= sonuclar@.len(),
            sv == sonuclar@.map_values(|x: (String, String, String)| (x.0@, x.1@, x.2@)),
            p == (|x: (Seq<char>, Seq<char>, Seq<char>)| x.0.len() > 0),
            f == (|x: (Seq<char>, Seq<char>, Seq<char>)| "- "@ + x.0 + " — "@ + x.1 + " ("@ + x.2 + ")"@),
            satirlar.deep_view() == sv.take(i as int).filter(p).map_values(f),
        decreases sonuclar@.len() - i,
    {
        let ghost x = sv[i as int];
        proof {
            assert(sv.take(i + 1) =~= sv.take(i as int).push(x));
            sv.take(i as int).lemma_filter_push(x, p);
        }
        let (t, a, u) = (&sonuclar[i].0, &sonuclar[i].1, &sonuclar[i].2);
        assert(t@ == x.0 && a@ == x.1 && u@ == x.2);
        if t.as_str().unicode_len() > 0 {
            let mut v: Vec<char> = Vec::new();
            ekle_metin(&mut v, "- ");
            ekle_metin(&mut v, t.as_str());
            ekle_metin(&mut v, " — ");
            ekle_metin(&mut v, a.as_str());
            ekle_metin(&mut v, " (");
            ekle_metin(&mut v, u.as_str());
            ekle_metin(&mut v, ")");
            let ghost s0 = satirlar.deep_view();
            satirlar.push(metne(&v));
            assert(satirlar.deep_view() =~= s0.push(f(x)));
            assert(sv.take(i as int).filter(p).push(x).map_values(f) =~= sv.take(i as int).filter(p).map_values(f).push(f(x)));
        }
        i += 1;
    }
    assert(sv.take(i as int) =~= sv);
    if satirlar.len() == 0 {
        return None;
    }
    assert("\n"@ =~= seq!['\n']) by {
        reveal_strlit("\n");
    }
    Some(birlestirilmis(&satirlar, "\n"))
}

} // verus!
