//! Akışlı cevabın gönderim kararları: akış sürerken ne zaman ne yazılır, akış bitince
//! cevap susma mı, boş mu, tekrar mı; gönderilen cevap nasıl kayda geçer.
use vstd::prelude::*;
use crate::akis::{akis_gorunum, akis_gorunum_spec, DusunmeKip};
use crate::ayarlar::{AKIS_DUZENLEME_MS, KANAL_GECMIS};
use crate::metin::birlestir;
use crate::protokol::{Cevap, CevapModeli};
use crate::sohbet::{
    kanal_not_coklu, kanal_satirlari, metinler, son_n, tekrar_mi, tekrar_spec,
    Durum,
};
use crate::yardimci::{ekle_metin, soy, soy_spec};

verus! {

broadcast use {vstd::string::group_string_axioms, vstd::std_specs::hash::group_hash_axioms};

// ---------- akış sürerken ----------

/// Düşünce bu kipte biriktirilir mi (gösterilen ya da sayılan kiplerde).
pub open spec fn dusunce_biriktirilir(kip: DusunmeKip) -> bool {
    kip == DusunmeKip::Goster || kip == DusunmeKip::Gizle
}

/// Akıştan gelen parçaları biriktirir, mesajın ne zaman düzenleneceğine karar verir.
pub struct AkisToplayici {
    pub kip: DusunmeKip,
    pub metin: String,
    pub dusunce: String,
    /// Henüz hiçbir şey yazılmadı.
    pub ilk: bool,
    /// Son düzenlemenin anı (milisaniye).
    pub son_yazma: u64,
}

impl AkisToplayici {
    pub fn yeni(kip: DusunmeKip, simdi: u64) -> (r: Self)
        ensures
            r.kip == kip,
            r.metin@.len() == 0,
            r.dusunce@.len() == 0,
            r.ilk,
            r.son_yazma == simdi,
    {
        AkisToplayici { kip, metin: String::new(), dusunce: String::new(), ilk: true, son_yazma: simdi }
    }

    /// Bir parça alınır. İlk yazımda ya da son düzenlemeden beri yeterince zaman geçtiyse
    /// görünüm hesaplanır; boş değilse yazılacak mesajlar döner ve an kaydedilir.
    pub fn parca_al(&mut self, metin: &str, dusunce: &str, bot_adi: &str, simdi: u64) -> (r: Option<
        Vec<String>,
    >)
        ensures
            final(self).kip == old(self).kip,
            final(self).metin@ == old(self).metin@ + metin@,
            final(self).dusunce@ == old(self).dusunce@ + (if dusunce_biriktirilir(old(self).kip) {
                dusunce@
            } else {
                seq![]
            }),
            ({
                let zamani = old(self).ilk || old(self).son_yazma + AKIS_DUZENLEME_MS <= simdi;
                let gorunum = akis_gorunum_spec(
                    old(self).kip,
                    final(self).dusunce@,
                    soy_spec(final(self).metin@, bot_adi@),
                    false,
                );
                &&& r is Some <==> zamani && gorunum.len() > 0
                &&& r matches Some(v) ==> v.deep_view() == gorunum
            }),
            r is Some ==> !final(self).ilk && final(self).son_yazma == simdi,
            r is None ==> final(self).ilk == old(self).ilk && final(self).son_yazma == old(
                self,
            ).son_yazma,
    {
        self.metin.append(metin);
        if self.kip == DusunmeKip::Goster || self.kip == DusunmeKip::Gizle {
            self.dusunce.append(dusunce);
        } else {
            assert(self.dusunce@ + seq![] =~= self.dusunce@);
        }
        let zamani = self.ilk || (self.son_yazma <= simdi && simdi - self.son_yazma
            >= AKIS_DUZENLEME_MS);
        if !zamani {
            return None;
        }
        let yerlesim = akis_gorunum(self.kip, self.dusunce.as_str(), soy(self.metin.as_str(), bot_adi), false);
        if yerlesim.len() == 0 {
            return None;
        }
        self.ilk = false;
        self.son_yazma = simdi;
        Some(yerlesim)
    }
}

// ---------- akış bitince ----------

/// Akışın sonucu.
#[derive(Clone, Copy, Debug, PartialEq, Eq, Structural)]
pub enum AkisSonu {
    /// Model susmayı seçti: açılan mesajlar silinir, kayda hiçbir şey girmez.
    Sus,
    /// Kullanılır bir şey çıkmadı.
    Bos,
    /// Gönderilecek söz ya da tepki var.
    Gonder,
}

/// Yalnız susma işareti geldiyse sus; tepkiyle birlikte geldiyse tepki yine düşer.
pub open spec fn akis_sonu_spec(c: CevapModeli) -> AkisSonu {
    if c.sus && c.satirlar.len() == 0 && c.tepki is None {
        AkisSonu::Sus
    } else if c.satirlar.len() == 0 && c.tepki is None && !c.sus {
        AkisSonu::Bos
    } else {
        AkisSonu::Gonder
    }
}

pub fn akis_sonu(c: &Cevap) -> (r: AkisSonu)
    ensures
        r == akis_sonu_spec(c@),
{
    if c.sus && c.satirlar.len() == 0 && c.tepki.is_none() {
        AkisSonu::Sus
    } else if c.bos() {
        AkisSonu::Bos
    } else {
        AkisSonu::Gonder
    }
}

/// Satırlar ikiye ayrılır: botun bu kanalda yakın zamanda aynen söylemedikleri ve
/// söyledikleri (sıra korunur).
pub open spec fn tekrar_degil(g: Seq<Seq<char>>, bot_adi: Seq<char>, xs: Seq<Seq<char>>) -> Seq<Seq<char>> {
    xs.filter(|x: Seq<char>| !tekrar_spec(g, bot_adi, x))
}

pub open spec fn tekrar_olan(g: Seq<Seq<char>>, bot_adi: Seq<char>, xs: Seq<Seq<char>>) -> Seq<Seq<char>> {
    xs.filter(|x: Seq<char>| tekrar_spec(g, bot_adi, x))
}

pub fn tekrarlari_ayikla(d: &Durum, kanal: u64, satirlar: Vec<String>) -> (r: (Vec<String>, Vec<String>))
    ensures
        r.0.deep_view() == tekrar_degil(kanal_satirlari(*d, kanal), d.bot_adi@, satirlar.deep_view()),
        r.1.deep_view() == tekrar_olan(kanal_satirlari(*d, kanal), d.bot_adi@, satirlar.deep_view()),
{
    let ghost g = kanal_satirlari(*d, kanal);
    let ghost xs = satirlar.deep_view();
    let ghost p = |x: Seq<char>| !tekrar_spec(g, d.bot_adi@, x);
    let ghost q = |x: Seq<char>| tekrar_spec(g, d.bot_adi@, x);
    let mut kalan: Vec<String> = Vec::new();
    let mut tekrar: Vec<String> = Vec::new();
    let mut i: usize = 0;
    while i < satirlar.len()
        invariant
            i <= satirlar@.len(),
            xs == satirlar.deep_view(),
            g == kanal_satirlari(*d, kanal),
            p == (|x: Seq<char>| !tekrar_spec(g, d.bot_adi@, x)),
            q == (|x: Seq<char>| tekrar_spec(g, d.bot_adi@, x)),
            kalan.deep_view() == xs.take(i as int).filter(p),
            tekrar.deep_view() == xs.take(i as int).filter(q),
        decreases satirlar@.len() - i,
    {
        let x = satirlar[i].clone();
        proof {
            assert(xs.take(i + 1) =~= xs.take(i as int).push(xs[i as int]));
            xs.take(i as int).lemma_filter_push(xs[i as int], p);
            xs.take(i as int).lemma_filter_push(xs[i as int], q);
        }
        let ghost k0 = kalan.deep_view();
        let ghost t0 = tekrar.deep_view();
        if tekrar_mi(d, kanal, x.as_str()) {
            tekrar.push(x);
            assert(tekrar.deep_view() =~= t0.push(xs[i as int]));
        } else {
            kalan.push(x);
            assert(kalan.deep_view() =~= k0.push(xs[i as int]));
        }
        i += 1;
    }
    assert(xs.take(i as int) =~= xs);
    (kalan, tekrar)
}

/// Tekrar sonrası yeniden üretilen cevap kabul edilir mi: söz ya da tepki olmalı, hiçbir
/// satırı tekrar olmamalı.
pub open spec fn yeniden_kabul_spec(g: Seq<Seq<char>>, bot_adi: Seq<char>, c: CevapModeli) -> bool {
    &&& !(c.satirlar.len() == 0 && c.tepki is None)
    &&& forall|i: int| 0 <= i < c.satirlar.len() ==> !tekrar_spec(g, bot_adi, #[trigger] c.satirlar[i])
}

pub fn yeniden_uretim_kabul(d: &Durum, kanal: u64, yeni: &Cevap) -> (r: bool)
    ensures
        r == yeniden_kabul_spec(kanal_satirlari(*d, kanal), d.bot_adi@, yeni@),
{
    if yeni.satirlar.len() == 0 && yeni.tepki.is_none() {
        return false;
    }
    let ghost xs = yeni@.satirlar;
    let mut i: usize = 0;
    while i < yeni.satirlar.len()
        invariant
            i <= yeni.satirlar@.len(),
            xs == yeni@.satirlar,
            forall|k: int| 0 <= k < i ==> !tekrar_spec(kanal_satirlari(*d, kanal), d.bot_adi@, #[trigger] xs[k]),
        decreases yeni.satirlar@.len() - i,
    {
        if tekrar_mi(d, kanal, yeni.satirlar[i].as_str()) {
            assert(xs[i as int] == yeni.satirlar@[i as int]@);
            return false;
        }
        i += 1;
    }
    true
}

// ---------- kayıt ----------

/// Gönderilen cevabın kanal notları: her satır "ad: satır", varsa tepki "ad: tepki: emoji".
pub open spec fn cevap_notlari(bot_adi: Seq<char>, c: CevapModeli) -> Seq<Seq<char>> {
    let satirlar = c.satirlar.map_values(|s: Seq<char>| bot_adi + ": "@ + s);
    match c.tepki {
        Some(e) => satirlar.push(bot_adi + ": tepki: "@ + e),
        None => satirlar,
    }
}

/// Botun kendi mesajlarının penceresi: yeni satırlar eklenir, en çok elli tane kalır.
pub open spec fn kendi_penceresi(eski: Seq<Seq<char>>, yeni: Seq<Seq<char>>) -> Seq<Seq<char>> {
    son_n(eski + yeni, 50)
}

/// Gönderilen cevap kayda geçer: satırlar botun kendi mesajlarına ve kanal notuna girer
/// (düşünce kayda girmez). Kanal dosyasının yeni içeriği döner.
pub fn akisi_kaydet(d: &mut Durum, kanal: u64, bot_adi: &str, cevap: &Cevap) -> (r: Option<String>)
    ensures
        metinler(final(d).kendi_mesajlarim@) == kendi_penceresi(
            metinler(old(d).kendi_mesajlarim@),
            cevap@.satirlar,
        ),
        ({
            let notlar = cevap_notlari(bot_adi@, cevap@);
            &&& notlar.len() == 0 ==> r is None && final(d).kanal_gecmisi@ == old(d).kanal_gecmisi@
            &&& notlar.len() > 0 ==> {
                let yeni = son_n(kanal_satirlari(*old(d), kanal) + notlar, KANAL_GECMIS as nat);
                &&& kanal_satirlari(*final(d), kanal) == yeni
                &&& r matches Some(icerik) && icerik@ == birlestir(yeni, seq!['\n'])
            }
        }),
        final(d).sohbetler@ == old(d).sohbetler@,
        final(d).hafiza@ == old(d).hafiza@,
        final(d).son_aktivite@ == old(d).son_aktivite@,
        final(d).bot_adi == old(d).bot_adi,
        final(d).mesgul@ == old(d).mesgul@,
{
    let ghost e = metinler(d.kendi_mesajlarim@);
    let ghost ys = cevap@.satirlar;
    let mut i: usize = 0;
    while i < cevap.satirlar.len()
        invariant
            i <= cevap.satirlar@.len(),
            ys == cevap@.satirlar,
            metinler(d.kendi_mesajlarim@) == e + ys.take(i as int),
            d.sohbetler@ == old(d).sohbetler@,
            d.hafiza@ == old(d).hafiza@,
            d.son_aktivite@ == old(d).son_aktivite@,
            d.bot_adi == old(d).bot_adi,
            d.mesgul@ == old(d).mesgul@,
            d.kanal_gecmisi@ == old(d).kanal_gecmisi@,
            e == metinler(old(d).kendi_mesajlarim@),
        decreases cevap.satirlar@.len() - i,
    {
        let x = cevap.satirlar[i].clone();
        assert(x@ == ys[i as int]);
        let ghost once = d.kendi_mesajlarim@;
        d.kendi_mesajlarim.push_back(x);
        assert(d.kendi_mesajlarim@ == once.push(x));
        assert(metinler(once.push(x)) =~= metinler(once).push(x@));
        assert(ys.take(i + 1) =~= ys.take(i as int).push(ys[i as int]));
        assert(metinler(d.kendi_mesajlarim@) =~= e + ys.take(i + 1));
        i += 1;
    }
    assert(ys.take(i as int) =~= ys);
    let ghost mut k: int = 0;
    assert((e + ys).skip(0) =~= e + ys);
    while d.kendi_mesajlarim.len() > 50
        invariant
            0 <= k <= (e + ys).len(),
            metinler(d.kendi_mesajlarim@) == (e + ys).skip(k),
            k == 0 || d.kendi_mesajlarim@.len() >= 50,
            d.sohbetler@ == old(d).sohbetler@,
            d.hafiza@ == old(d).hafiza@,
            d.son_aktivite@ == old(d).son_aktivite@,
            d.bot_adi == old(d).bot_adi,
            d.mesgul@ == old(d).mesgul@,
            d.kanal_gecmisi@ == old(d).kanal_gecmisi@,
        decreases d.kendi_mesajlarim@.len(),
    {
        let ghost once = d.kendi_mesajlarim@;
        assert(metinler(once).len() == once.len());
        assert((e + ys).skip(k).len() > 0);
        let _ = d.kendi_mesajlarim.pop_front();
        proof {
            assert(d.kendi_mesajlarim@ == once.subrange(1, once.len() as int));
            assert(metinler(d.kendi_mesajlarim@) =~= metinler(once).subrange(1, once.len() as int));
            assert(metinler(d.kendi_mesajlarim@) =~= (e + ys).skip(k + 1));
            k = k + 1;
        }
    }
    assert(metinler(d.kendi_mesajlarim@) == son_n(e + ys, 50));
    // kanal notları
    let mut notlar: Vec<String> = Vec::new();
    let mut j: usize = 0;
    let ghost f = |s: Seq<char>| bot_adi@ + ": "@ + s;
    while j < cevap.satirlar.len()
        invariant
            j <= cevap.satirlar@.len(),
            ys == cevap@.satirlar,
            f == (|s: Seq<char>| bot_adi@ + ": "@ + s),
            notlar.deep_view() == ys.take(j as int).map_values(f),
        decreases cevap.satirlar@.len() - j,
    {
        let mut v: Vec<char> = Vec::new();
        ekle_metin(&mut v, bot_adi);
        ekle_metin(&mut v, ": ");
        ekle_metin(&mut v, cevap.satirlar[j].as_str());
        assert(cevap.satirlar@[j as int]@ == ys[j as int]);
        let ghost n0 = notlar.deep_view();
        notlar.push(crate::metin::metne(&v));
        assert(notlar.deep_view() =~= n0.push(f(ys[j as int])));
        assert(ys.take(j + 1) =~= ys.take(j as int).push(ys[j as int]));
        assert(notlar.deep_view() =~= ys.take(j + 1).map_values(f));
        j += 1;
    }
    assert(ys.take(j as int) =~= ys);
    match &cevap.tepki {
        Some(e) => {
            let mut v: Vec<char> = Vec::new();
            ekle_metin(&mut v, bot_adi);
            ekle_metin(&mut v, ": tepki: ");
            ekle_metin(&mut v, e.as_str());
            let ghost n0 = notlar.deep_view();
            notlar.push(crate::metin::metne(&v));
            assert(notlar.deep_view() =~= n0.push(bot_adi@ + ": tepki: "@ + e@));
        },
        None => {},
    }
    assert(notlar.deep_view() == cevap_notlari(bot_adi@, cevap@));
    assert(metinler(notlar@) =~= notlar.deep_view());
    kanal_not_coklu(d, kanal, notlar)
}

// ---------- mesajların yazılması ----------

/// Görünümün bir mesajı için yapılacak: var olan mesaj düzenlenir ya da yeni mesaj gönderilir.
pub enum YazimIsi {
    Duzenle { sira: usize, icerik: String },
    /// Yanıt bağı yalnız ilk mesajda olur.
    Gonder { sira: usize, icerik: String, yanit: Option<u64> },
}

/// İşin modeli: gönderim mi, sırası, içeriği, yanıt bağı.
pub open spec fn yazim_modeli(x: YazimIsi) -> (bool, int, Seq<char>, Option<u64>) {
    match x {
        YazimIsi::Duzenle { sira, icerik } => (false, sira as int, icerik@, None),
        YazimIsi::Gonder { sira, icerik, yanit } => (true, sira as int, icerik@, yanit),
    }
}

/// Görünümün her mesajı için: daha önce gönderilmişse içeriği değiştiyse düzenlenir (aynıysa
/// dokunulmaz); gönderilmemişse gönderilir, ilk mesajsa yanıt bağıyla.
pub open spec fn yazim_plani_spec(g: Seq<Seq<char>>, y: Seq<Seq<char>>, yanit: Option<u64>) -> Seq<
    (bool, int, Seq<char>, Option<u64>),
>
    decreases y.len(),
{
    if y.len() == 0 {
        seq![]
    } else {
        let onceki = yazim_plani_spec(g, y.drop_last(), yanit);
        let i = y.len() - 1;
        if i < g.len() {
            if g[i] != y[i] {
                onceki.push((false, i, y[i], None))
            } else {
                onceki
            }
        } else {
            onceki.push((true, i, y[i], if i == 0 { yanit } else { None }))
        }
    }
}

pub fn yazim_plani(gonderilenler: &Vec<String>, yerlesim: &Vec<String>, yanit: Option<u64>) -> (r: Vec<
    YazimIsi,
>)
    ensures
        r@.map_values(|x: YazimIsi| yazim_modeli(x)) == yazim_plani_spec(
            gonderilenler.deep_view(),
            yerlesim.deep_view(),
            yanit,
        ),
{
    let ghost g = gonderilenler.deep_view();
    let ghost y = yerlesim.deep_view();
    let mut r: Vec<YazimIsi> = Vec::new();
    let mut i: usize = 0;
    while i < yerlesim.len()
        invariant
            i <= yerlesim@.len(),
            g == gonderilenler.deep_view(),
            y == yerlesim.deep_view(),
            r@.map_values(|x: YazimIsi| yazim_modeli(x)) == yazim_plani_spec(g, y.take(i as int), yanit),
        decreases yerlesim@.len() - i,
    {
        let ghost r0 = r@.map_values(|x: YazimIsi| yazim_modeli(x));
        assert(y.take(i + 1).drop_last() =~= y.take(i as int));
        assert(y.take(i + 1)[i as int] == y[i as int]);
        let icerik = yerlesim[i].clone();
        if i < gonderilenler.len() {
            let ayni = crate::metin::ayni_dizi(
                &crate::metin::karakterler(gonderilenler[i].as_str()),
                &crate::metin::karakterler(icerik.as_str()),
            );
            if !ayni {
                r.push(YazimIsi::Duzenle { sira: i, icerik });
                assert(r@.map_values(|x: YazimIsi| yazim_modeli(x)) =~= r0.push(
                    (false, i as int, y[i as int], None),
                ));
            }
        } else {
            let bag = if i == 0 {
                yanit
            } else {
                None
            };
            r.push(YazimIsi::Gonder { sira: i, icerik, yanit: bag });
            assert(r@.map_values(|x: YazimIsi| yazim_modeli(x)) =~= r0.push(
                (true, i as int, y[i as int], if i == 0 { yanit } else { None }),
            ));
        }
        i += 1;
    }
    assert(y.take(i as int) =~= y);
    r
}

} // verus!
