//! Akışlı (SSE) cevabın okunuşu: baytlar satırlara bölünür, "data:" satırları ayıklanır,
//! parçalar geliş sırasıyla verilir; [DONE] işareti ve token sayacı toplanır.
use vstd::prelude::*;
use std::collections::VecDeque;
use crate::istek::Kullanim;
use crate::metin::{ayni_dizi, basla, basliyor, karakterler, kirp, kirp_sinir, kopya, metin_yap};

verus! {

broadcast use vstd::std_specs::vecdeque::group_vec_dequeue_axioms;

/// Akıştan gelen bir parça: cevap metni ve (varsa) düşünce.
pub struct Parca {
    pub metin: String,
    pub dusunce: String,
}

pub open spec fn parca_gorunum(p: Parca) -> (Seq<char>, Seq<char>) {
    (p.metin@, p.dusunce@)
}

/// Bir SSE satırından çıkanlar: içerik parçası ve/veya kullanım sayacı, ya da bitiş işareti.
pub struct SseVeri {
    pub parca: Option<Parca>,
    pub kullanim: Option<Kullanim>,
    pub done: bool,
}

/// Bir seçeneğin `delta` alanı.
pub struct AkisParcasi {
    pub content: Option<String>,
    pub reasoning: Option<String>,
    pub reasoning_content: Option<String>,
}

/// Bir "data:" yükünün çözülmüş hâli: ilk seçeneğin delta'sı ve kullanım sayacı.
pub struct AkisYaniti {
    pub ilk: Option<AkisParcasi>,
    pub usage: Option<Kullanim>,
}

/// Satırın türü: veri satırı değil, bitiş işareti ya da çözülecek yük.
pub enum SseSatiri {
    Bos,
    Bitti,
    Veri(String),
}

// ---------- satırın ayıklanması ----------

pub open spec fn veri_satiri(s: Seq<char>) -> bool {
    basla(kirp(s), "data:"@)
}

/// "data:" önekinden sonrası, kırpılmış.
pub open spec fn yuk(s: Seq<char>) -> Seq<char> {
    kirp(kirp(s).skip(5))
}

/// Satır kırpılır, "data:" ile başlamıyorsa veri satırı değildir (keepalive vb.);
/// yük "[DONE]" ise bitiş işaretidir.
pub fn sse_satiri(satir: &str) -> (r: SseSatiri)
    ensures
        match r {
            SseSatiri::Bos => !veri_satiri(satir@),
            SseSatiri::Bitti => veri_satiri(satir@) && yuk(satir@) == "[DONE]"@,
            SseSatiri::Veri(v) => veri_satiri(satir@) && yuk(satir@) != "[DONE]"@ && v@ == yuk(satir@),
        },
{
    let v = karakterler(satir);
    let (a, b) = kirp_sinir(&v, 0, v.len());
    assert(v@.subrange(0, v@.len() as int) =~= v@);
    let tv = kopya(&v, a, b);
    let onek = karakterler("data:");
    proof {
        reveal_strlit("data:");
    }
    assert(tv@.skip(0) =~= tv@);
    if !basliyor(&tv, 0, &onek) {
        return SseSatiri::Bos;
    }
    let (c, d) = kirp_sinir(&tv, 5, tv.len());
    assert(tv@.subrange(5, tv@.len() as int) =~= tv@.skip(5));
    let y = metin_yap(&tv, c, d);
    let yv = kopya(&tv, c, d);
    let bitis = karakterler("[DONE]");
    if ayni_dizi(&yv, &bitis) {
        SseSatiri::Bitti
    } else {
        SseSatiri::Veri(y)
    }
}

pub open spec fn secenek_metni(o: Option<String>) -> Seq<char> {
    match o {
        Some(s) => s@,
        None => seq![],
    }
}

/// Düşünce: "reasoning" doluysa o, değilse "reasoning_content".
pub open spec fn dusunce_spec(d: AkisParcasi) -> Seq<char> {
    if secenek_metni(d.reasoning).len() > 0 {
        secenek_metni(d.reasoning)
    } else {
        secenek_metni(d.reasoning_content)
    }
}

/// İlk seçenekten çıkan parça: metin ya da düşünce boş değilse.
pub open spec fn parca_spec(ilk: Option<AkisParcasi>) -> Option<(Seq<char>, Seq<char>)> {
    match ilk {
        Some(d) => if secenek_metni(d.content).len() > 0 || dusunce_spec(d).len() > 0 {
            Some((secenek_metni(d.content), dusunce_spec(d)))
        } else {
            None
        },
        None => None,
    }
}

fn secenek_kopya(o: &Option<String>) -> (r: String)
    ensures
        r@ == secenek_metni(*o),
{
    match o {
        Some(s) => s.clone(),
        None => String::new(),
    }
}

/// Çözülmüş yükten veri: parça yoksa ve sayaç da yoksa satır bir şey taşımaz.
pub fn sse_sonucu(y: AkisYaniti) -> (r: Option<SseVeri>)
    ensures
        r is None <==> (parca_spec(y.ilk) is None && y.usage is None),
        match r {
            None => parca_spec(y.ilk) is None && y.usage is None,
            Some(v) => !v.done && v.kullanim == y.usage && match v.parca {
                None => parca_spec(y.ilk) is None,
                Some(p) => parca_spec(y.ilk) == Some(parca_gorunum(p)),
            },
        },
{
    let parca = match &y.ilk {
        Some(d) => {
            let metin = secenek_kopya(&d.content);
            let r1 = secenek_kopya(&d.reasoning);
            let dusunce = if r1.as_str().unicode_len() > 0 {
                r1
            } else {
                secenek_kopya(&d.reasoning_content)
            };
            if metin.as_str().unicode_len() > 0 || dusunce.as_str().unicode_len() > 0 {
                Some(Parca { metin, dusunce })
            } else {
                None
            }
        },
        None => None,
    };
    if parca.is_some() || y.usage.is_some() {
        Some(SseVeri { parca, kullanim: y.usage, done: false })
    } else {
        None
    }
}

/// Satırın verisi: veri satırı değilse yok; [DONE] bitiş işaretidir; yük çözülemediyse
/// (`cozum` yok) yok; çözüldüyse ilk seçenek ve sayaç.
pub fn sse_verisi(satir: SseSatiri, cozum: Option<AkisYaniti>) -> (r: Option<SseVeri>)
    ensures
        match satir {
            SseSatiri::Bos => r is None,
            SseSatiri::Bitti => r matches Some(v) && v.done && v.parca is None && v.kullanim is None,
            SseSatiri::Veri(_) => match cozum {
                None => r is None,
                Some(y) => (r is None <==> (parca_spec(y.ilk) is None && y.usage is None)) && match r {
                    None => parca_spec(y.ilk) is None && y.usage is None,
                    Some(v) => !v.done && v.kullanim == y.usage && match v.parca {
                        None => parca_spec(y.ilk) is None,
                        Some(p) => parca_spec(y.ilk) == Some(parca_gorunum(p)),
                    },
                },
            },
        },
{
    match satir {
        SseSatiri::Bos => None,
        SseSatiri::Bitti => Some(SseVeri { parca: None, kullanim: None, done: true }),
        SseSatiri::Veri(_) => match cozum {
            None => None,
            Some(y) => sse_sonucu(y),
        },
    }
}

// ---------- baytların satırlara bölünmesi ----------

/// Son satır sonundan sonra kalan baytlar.
pub open spec fn kalan(b: Seq<u8>) -> Seq<u8>
    decreases b.len(),
{
    if b.len() == 0 {
        seq![]
    } else if b.last() == 10 {
        seq![]
    } else {
        kalan(b.drop_last()).push(b.last())
    }
}

/// Satır sonuyla biten tam satırlar (satır sonu hariç).
pub open spec fn tam_satirlar(b: Seq<u8>) -> Seq<Seq<u8>>
    decreases b.len(),
{
    if b.len() == 0 {
        seq![]
    } else if b.last() == 10 {
        tam_satirlar(b.drop_last()).push(kalan(b.drop_last()))
    } else {
        tam_satirlar(b.drop_last())
    }
}

/// Satırlar, her birinin ardına satır sonu konarak birleştirilir.
pub open spec fn satir_sonlu(ls: Seq<Seq<u8>>) -> Seq<u8>
    decreases ls.len(),
{
    if ls.len() == 0 {
        seq![]
    } else {
        satir_sonlu(ls.drop_last()) + ls.last() + seq![10u8]
    }
}

/// Bölmede bayt kaybolmaz: tam satırlar satır sonlarıyla, ardından kalan, baytların
/// kendisidir; kalanda satır sonu yoktur.
pub proof fn satirlara_bolme_kayipsiz(b: Seq<u8>)
    ensures
        satir_sonlu(tam_satirlar(b)) + kalan(b) == b,
        !kalan(b).contains(10u8),
    decreases b.len(),
{
    if b.len() > 0 {
        satirlara_bolme_kayipsiz(b.drop_last());
        let o = b.drop_last();
        if b.last() == 10 {
            assert(tam_satirlar(b).drop_last() =~= tam_satirlar(o));
            assert(satir_sonlu(tam_satirlar(b)) =~= satir_sonlu(tam_satirlar(o)) + kalan(o) + seq![10u8]);
            assert(kalan(b) =~= Seq::<u8>::empty());
            assert(b =~= o.push(10u8));
            assert(satir_sonlu(tam_satirlar(b)) + kalan(b) =~= b);
        } else {
            assert(kalan(b) =~= kalan(o).push(b.last()));
            assert(satir_sonlu(tam_satirlar(b)) + kalan(b) =~= (satir_sonlu(tam_satirlar(o)) + kalan(o)).push(
                b.last(),
            ));
            assert(b =~= o.push(b.last()));
            assert forall|i: int| 0 <= i < kalan(b).len() implies kalan(b)[i] != 10u8 by {
                if i < kalan(o).len() {
                    assert(kalan(o).contains(kalan(o)[i]));
                }
            }
        }
    }
}

/// `String::from_utf8_lossy(..).into_owned()` sonucunun adı.
pub uninterp spec fn utf8_kayipli_metin(b: Seq<u8>) -> Seq<char>;

/// `String::from_utf8_lossy`: baytlar UTF-8 olarak okunur, geçersiz diziler yerine U+FFFD
/// konur; sonuç yalnız baytlara bağlıdır.
#[verifier::external_body]
fn utf8_kayipli(b: &[u8]) -> (r: String)
    ensures
        r@ == utf8_kayipli_metin(b@),
{
    String::from_utf8_lossy(b).into_owned()
}

// ---------- okuyucunun durumu ----------

/// Akış okuyucusunun bağlantıdan bağımsız durumu.
pub struct AkisOkuyucu {
    /// Henüz satıra bölünmemiş baytlar.
    pub tampon: Vec<u8>,
    /// Çözülmüş, verilmeyi bekleyen parçalar (geliş sırasıyla).
    pub kuyruk: VecDeque<Parca>,
    /// Toplanan token sayacı.
    pub kullanim: Kullanim,
    /// [DONE] görüldü mü.
    pub done: bool,
    /// Bağlantı bitti mi.
    pub bitti: bool,
}

/// Okuyucunun sıradaki adımı.
pub enum OkuyucuAdimi {
    /// Bekleyen ilk parça.
    Ver(Parca),
    /// Akış bitti, verilecek bir şey kalmadı.
    Son,
    /// Bağlantı bitti, sonda satır sonu olmayan bir satır kaldı: çözülüp verilmeli.
    SonSatir(String),
    /// Bağlantıdan yeni bayt okunmalı.
    Oku,
}

pub open spec fn kuyruk_gorunum(k: Seq<Parca>) -> Seq<(Seq<char>, Seq<char>)> {
    k.map_values(|p: Parca| parca_gorunum(p))
}

pub open spec fn kullanim_eklenmis(k: Kullanim, v: Option<Kullanim>) -> Kullanim {
    match v {
        Some(d) => Kullanim {
            prompt_tokens: (k.prompt_tokens + d.prompt_tokens) as u64,
            completion_tokens: (k.completion_tokens + d.completion_tokens) as u64,
            cached_tokens: (k.cached_tokens + d.cached_tokens) as u64,
        },
        None => k,
    }
}

pub open spec fn toplanabilir(k: Kullanim, v: Option<Kullanim>) -> bool {
    match v {
        Some(d) => k.prompt_tokens + d.prompt_tokens <= u64::MAX && k.completion_tokens
            + d.completion_tokens <= u64::MAX && k.cached_tokens + d.cached_tokens <= u64::MAX,
        None => true,
    }
}

/// Sayaç eklenince taşar mı (taşmıyorsa true).
pub fn toplanabilir_mi(k: &Kullanim, v: &Option<Kullanim>) -> (r: bool)
    ensures
        r == toplanabilir(*k, *v),
{
    match v {
        Some(d) => k.prompt_tokens.checked_add(d.prompt_tokens).is_some() && k.completion_tokens.checked_add(
            d.completion_tokens,
        ).is_some() && k.cached_tokens.checked_add(d.cached_tokens).is_some(),
        None => true,
    }
}

impl AkisOkuyucu {
    pub fn yeni() -> (r: Self)
        ensures
            r.tampon@.len() == 0,
            r.kuyruk@.len() == 0,
            r.kullanim == (Kullanim { prompt_tokens: 0, completion_tokens: 0, cached_tokens: 0 }),
            !r.done,
            !r.bitti,
    {
        AkisOkuyucu {
            tampon: Vec::new(),
            kuyruk: VecDeque::new(),
            kullanim: Kullanim { prompt_tokens: 0, completion_tokens: 0, cached_tokens: 0 },
            done: false,
            bitti: false,
        }
    }

    /// Sıradaki adım: bekleyen parça varsa ilki verilir; bağlantı bittiyse kalan baytlar son
    /// satır olarak verilir (tampon boşalır) ya da akış biter; yoksa okunmalı.
    pub fn adim(&mut self) -> (r: OkuyucuAdimi)
        ensures
            final(self).kullanim == old(self).kullanim,
            final(self).done == old(self).done,
            final(self).bitti == old(self).bitti,
            old(self).kuyruk@.len() > 0 ==> (r matches OkuyucuAdimi::Ver(p) && p == old(self).kuyruk@[0]
                && final(self).kuyruk@ == old(self).kuyruk@.drop_first() && final(self).tampon@
                == old(self).tampon@),
            old(self).kuyruk@.len() == 0 && old(self).bitti && old(self).tampon@.len() == 0 ==> r is Son
                && final(self).kuyruk@.len() == 0 && final(self).tampon@.len() == 0,
            old(self).kuyruk@.len() == 0 && old(self).bitti && old(self).tampon@.len() > 0 ==> (r matches OkuyucuAdimi::SonSatir(s)
                && s@ == utf8_kayipli_metin(old(self).tampon@) && final(self).tampon@.len() == 0
                && final(self).kuyruk@.len() == 0),
            old(self).kuyruk@.len() == 0 && !old(self).bitti ==> r is Oku && final(self).kuyruk@.len() == 0
                && final(self).tampon@ == old(self).tampon@,
    {
        if self.kuyruk.len() > 0 {
            let p = self.kuyruk.pop_front();
            match p {
                Some(p) => OkuyucuAdimi::Ver(p),
                None => OkuyucuAdimi::Son,
            }
        } else if self.bitti {
            if self.tampon.len() == 0 {
                OkuyucuAdimi::Son
            } else {
                let s = utf8_kayipli(self.tampon.as_slice());
                self.tampon.clear();
                OkuyucuAdimi::SonSatir(s)
            }
        } else {
            OkuyucuAdimi::Oku
        }
    }

    /// Bağlantının bittiği kaydedilir.
    pub fn baglanti_bitti(&mut self)
        ensures
            final(self).bitti,
            final(self).tampon@ == old(self).tampon@,
            final(self).kuyruk@ == old(self).kuyruk@,
            final(self).kullanim == old(self).kullanim,
            final(self).done == old(self).done,
    {
        self.bitti = true;
    }

    /// Gelen baytlar tampona eklenir; tamamlanan satırlar (UTF-8 olarak, geçersiz baytlar
    /// yerine U+FFFD) sırayla döner, son satır sonundan sonrası tamponda bekler. Bir
    /// karakter iki parçaya bölünse bile satır tamamlanınca bütün okunur.
    pub fn bayt_ekle(&mut self, gelen: &[u8]) -> (r: Vec<String>)
        ensures
            ({
                let hepsi = old(self).tampon@ + gelen@;
                &&& r@.map_values(|s: String| s@) == tam_satirlar(hepsi).map_values(
                    |l: Seq<u8>| utf8_kayipli_metin(l),
                )
                &&& final(self).tampon@ == kalan(hepsi)
            }),
            final(self).kuyruk@ == old(self).kuyruk@,
            final(self).kullanim == old(self).kullanim,
            final(self).done == old(self).done,
            final(self).bitti == old(self).bitti,
    {
        let ghost hepsi = self.tampon@ + gelen@;
        let mut b: Vec<u8> = Vec::new();
        let mut i: usize = 0;
        while i < self.tampon.len()
            invariant
                i <= self.tampon@.len(),
                b@ == self.tampon@.take(i as int),
            decreases self.tampon@.len() - i,
        {
            b.push(self.tampon[i]);
            i += 1;
            assert(b@ =~= self.tampon@.take(i as int));
        }
        let mut j: usize = 0;
        while j < gelen.len()
            invariant
                j <= gelen@.len(),
                b@ == self.tampon@ + gelen@.take(j as int),
            decreases gelen@.len() - j,
        {
            b.push(gelen[j]);
            j += 1;
            assert(b@ =~= self.tampon@ + gelen@.take(j as int));
        }
        assert(self.tampon@.take(self.tampon@.len() as int) =~= self.tampon@);
        assert(gelen@.take(gelen@.len() as int) =~= gelen@);
        assert(b@ == hepsi);
        let mut satirlar: Vec<String> = Vec::new();
        let mut cur: Vec<u8> = Vec::new();
        let mut k: usize = 0;
        while k < b.len()
            invariant
                k <= b@.len(),
                b@ == hepsi,
                cur@ == kalan(hepsi.take(k as int)),
                satirlar@.map_values(|s: String| s@) == tam_satirlar(hepsi.take(k as int)).map_values(
                    |l: Seq<u8>| utf8_kayipli_metin(l),
                ),
            decreases b@.len() - k,
        {
            let x = b[k];
            let ghost onceki = hepsi.take(k as int);
            assert(hepsi.take(k + 1).drop_last() =~= onceki);
            assert(hepsi.take(k + 1).last() == x);
            if x == 10 {
                let s = utf8_kayipli(cur.as_slice());
                let ghost s0 = satirlar@.map_values(|s: String| s@);
                satirlar.push(s);
                assert(satirlar@.map_values(|s: String| s@) =~= s0.push(utf8_kayipli_metin(kalan(onceki))));
                assert(tam_satirlar(hepsi.take(k + 1)).map_values(|l: Seq<u8>| utf8_kayipli_metin(l))
                    =~= tam_satirlar(onceki).map_values(|l: Seq<u8>| utf8_kayipli_metin(l)).push(
                    utf8_kayipli_metin(kalan(onceki)),
                ));
                cur = Vec::new();
                assert(cur@ =~= kalan(hepsi.take(k + 1)));
            } else {
                cur.push(x);
                assert(cur@ =~= kalan(hepsi.take(k + 1)));
            }
            k += 1;
        }
        assert(hepsi.take(k as int) =~= hepsi);
        self.tampon = cur;
        satirlar
    }

    /// Bir satırın verisi uygulanır: [DONE] işaretlenir, sayaç toplanır, parça kuyruğun
    /// sonuna girer.
    pub fn veri_al(&mut self, v: SseVeri)
        requires
            toplanabilir(old(self).kullanim, v.kullanim),
        ensures
            final(self).done == (old(self).done || v.done),
            final(self).kullanim == kullanim_eklenmis(old(self).kullanim, v.kullanim),
            final(self).kuyruk@ == match v.parca {
                Some(p) => old(self).kuyruk@.push(p),
                None => old(self).kuyruk@,
            },
            final(self).tampon@ == old(self).tampon@,
            final(self).bitti == old(self).bitti,
    {
        if v.done {
            self.done = true;
        }
        if let Some(k) = v.kullanim {
            self.kullanim.topla(k);
        }
        if let Some(p) = v.parca {
            self.kuyruk.push_back(p);
        }
    }

    /// Son satırın verisi uygulanır; parçası kuyruğa girmeden doğrudan verilir.
    pub fn son_veri(&mut self, v: SseVeri) -> (r: Option<Parca>)
        requires
            toplanabilir(old(self).kullanim, v.kullanim),
        ensures
            final(self).done == (old(self).done || v.done),
            final(self).kullanim == kullanim_eklenmis(old(self).kullanim, v.kullanim),
            r == v.parca,
            final(self).kuyruk@ == old(self).kuyruk@,
            final(self).tampon@ == old(self).tampon@,
            final(self).bitti == old(self).bitti,
    {
        if v.done {
            self.done = true;
        }
        if let Some(k) = v.kullanim {
            self.kullanim.topla(k);
        }
        v.parca
    }
}

} // verus!
