//! Sunucuya ilk girişte geçmişin taranması: sayfalardan toplanacak mesajlar, taramanın
//! sürüp sürmeyeceği ve toplananların zamana göre sıralanıp hafızanın önüne eklenmesi.
use vstd::prelude::*;
use crate::akis::bos_mu_kirpik;
use crate::ayarlar::HAFIZA_BOYU;
use crate::karar::ad_satiri;
use crate::metin::kirp;
use crate::sohbet::{ad_haritasi, ad_yoksa_kaydet, metinler, son_n, Durum};
use crate::yardimci::{kucuk_harf_metni, kucuk_harfe_cevir};

verus! {

broadcast use {vstd::string::group_string_axioms, vstd::std_specs::hash::group_hash_axioms};

/// Taranan bir mesaj.
pub struct TaramaMesaji {
    /// Unix zamanı (saniye).
    pub zaman: i64,
    pub isim: String,
    pub yazar: u64,
    pub bot: bool,
    /// Ham içerik (boş mu diye bakılır).
    pub icerik: String,
    /// Etiketleri okunur hâle getirilmiş içerik (kayda giren).
    pub guvenli: String,
}

/// Toplanan bir satır: zaman, ad, kimlik, metin.
pub type Toplanan = (i64, String, u64, String);

pub open spec fn toplanan_modeli(t: Toplanan) -> (i64, Seq<char>, u64, Seq<char>) {
    (t.0, t.1@, t.2, t.3@)
}

pub open spec fn toplananlar_modeli(ts: Seq<Toplanan>) -> Seq<(i64, Seq<char>, u64, Seq<char>)> {
    ts.map_values(|t: Toplanan| toplanan_modeli(t))
}

/// Sayfada sınırdan eski ilk mesajın konumu (yoksa sayfanın sonu).
pub open spec fn eski_konum(s: Seq<TaramaMesaji>, sinir: i64) -> int
    decreases s.len(),
{
    if s.len() == 0 {
        0
    } else if s[0].zaman < sinir {
        0
    } else {
        1 + eski_konum(s.drop_first(), sinir)
    }
}

/// Toplanan mesajlar: sınırdan eskiye gelene kadar, botlar ve boş mesajlar hariç.
pub open spec fn sayfadan_toplanan(s: Seq<TaramaMesaji>, sinir: i64) -> Seq<(i64, Seq<char>, u64, Seq<char>)> {
    s.take(eski_konum(s, sinir)).filter(|m: TaramaMesaji| !m.bot && kirp(m.icerik@).len() > 0).map_values(
        |m: TaramaMesaji| (m.zaman, m.isim@, m.yazar, m.guvenli@),
    )
}

proof fn lemma_eski_konum(s: Seq<TaramaMesaji>, sinir: i64)
    ensures
        0 <= eski_konum(s, sinir) <= s.len(),
        forall|i: int| 0 <= i < eski_konum(s, sinir) ==> (#[trigger] s[i]).zaman >= sinir,
        eski_konum(s, sinir) < s.len() ==> s[eski_konum(s, sinir)].zaman < sinir,
    decreases s.len(),
{
    if s.len() > 0 && s[0].zaman >= sinir {
        lemma_eski_konum(s.drop_first(), sinir);
        assert forall|i: int| 0 <= i < eski_konum(s, sinir) implies (#[trigger] s[i]).zaman >= sinir by {
            if i > 0 {
                assert(s[i] == s.drop_first()[i - 1]);
            }
        }
    }
}

/// Bir sayfa işlenir: toplananlar eklenir; sınırdan eskiye gelinmediyse ve sayfa doluysa
/// (yüz mesaj) tarama sürer.
pub fn sayfa_isle(sayfa: &Vec<TaramaMesaji>, sinir: i64, toplam: &mut Vec<Toplanan>) -> (devam: bool)
    ensures
        toplananlar_modeli(final(toplam)@) == toplananlar_modeli(old(toplam)@) + sayfadan_toplanan(sayfa@, sinir),
        devam == (eski_konum(sayfa@, sinir) == sayfa@.len() && sayfa@.len() >= 100),
{
    let ghost s = sayfa@;
    let ghost t0 = toplananlar_modeli(toplam@);
    let ghost p = |m: TaramaMesaji| !m.bot && kirp(m.icerik@).len() > 0;
    let ghost f = |m: TaramaMesaji| (m.zaman, m.isim@, m.yazar, m.guvenli@);
    proof {
        lemma_eski_konum(s, sinir);
    }
    let mut i: usize = 0;
    let mut eskiye_gecti = false;
    while i < sayfa.len()
        invariant_except_break
            !eskiye_gecti,
        invariant
            i <= s.len(),
            s == sayfa@,
            0 <= eski_konum(s, sinir) <= s.len(),
            forall|k: int| 0 <= k < eski_konum(s, sinir) ==> (#[trigger] s[k]).zaman >= sinir,
            eski_konum(s, sinir) < s.len() ==> s[eski_konum(s, sinir)].zaman < sinir,
            i <= eski_konum(s, sinir),
            p == (|m: TaramaMesaji| !m.bot && kirp(m.icerik@).len() > 0),
            f == (|m: TaramaMesaji| (m.zaman, m.isim@, m.yazar, m.guvenli@)),
            t0 == toplananlar_modeli(old(toplam)@),
            toplananlar_modeli(toplam@) == t0 + s.take(i as int).filter(p).map_values(f),
        ensures
            eskiye_gecti ==> i == eski_konum(s, sinir) && i < s.len(),
            !eskiye_gecti ==> i == s.len() && eski_konum(s, sinir) == s.len(),
            toplananlar_modeli(toplam@) == t0 + s.take(i as int).filter(p).map_values(f),
        decreases s.len() - i,
    {
        let m = &sayfa[i];
        if m.zaman < sinir {
            eskiye_gecti = true;
            break;
        }
        proof {
            assert(s.take(i + 1) =~= s.take(i as int).push(s[i as int]));
            s.take(i as int).lemma_filter_push(s[i as int], p);
        }
        let ghost once = toplam@;
        if !m.bot && !bos_mu_kirpik(m.icerik.as_str()) {
            toplam.push((m.zaman, m.isim.clone(), m.yazar, m.guvenli.clone()));
            assert(toplananlar_modeli(toplam@) =~= toplananlar_modeli(once).push(f(s[i as int])));
            assert(s.take(i as int).filter(p).push(s[i as int]).map_values(f) =~= s.take(i as int).filter(
                p,
            ).map_values(f).push(f(s[i as int])));
        }
        i += 1;
    }
    !(eskiye_gecti || sayfa.len() < 100)
}

// ---------- sıralama ----------

/// Sıralı diziye eleman, anahtarı kendisininkinden büyük olan ilk elemanın önüne girer
/// (eşit anahtarlılar geliş sırasını korur).
pub open spec fn yer(s: Seq<(i64, Seq<char>, u64, Seq<char>)>, x: (i64, Seq<char>, u64, Seq<char>)) -> int
    decreases s.len(),
{
    if s.len() == 0 {
        0
    } else if s[0].0 > x.0 {
        0
    } else {
        1 + yer(s.drop_first(), x)
    }
}

/// Zamana göre kararlı sıralama (araya ekleyerek).
pub open spec fn zamana_gore(s: Seq<(i64, Seq<char>, u64, Seq<char>)>) -> Seq<(i64, Seq<char>, u64, Seq<char>)>
    decreases s.len(),
{
    if s.len() == 0 {
        seq![]
    } else {
        let r = zamana_gore(s.drop_last());
        r.insert(yer(r, s.last()), s.last())
    }
}

pub open spec fn sirali(s: Seq<(i64, Seq<char>, u64, Seq<char>)>) -> bool {
    forall|i: int, j: int| 0 <= i < j < s.len() ==> #[trigger] s[i].0 <= #[trigger] s[j].0
}

proof fn lemma_yer(s: Seq<(i64, Seq<char>, u64, Seq<char>)>, x: (i64, Seq<char>, u64, Seq<char>))
    requires
        sirali(s),
    ensures
        0 <= yer(s, x) <= s.len(),
        forall|i: int| 0 <= i < yer(s, x) ==> (#[trigger] s[i]).0 <= x.0,
        forall|i: int| yer(s, x) <= i < s.len() ==> (#[trigger] s[i]).0 > x.0,
    decreases s.len(),
{
    if s.len() > 0 && s[0].0 <= x.0 {
        assert(sirali(s.drop_first()));
        lemma_yer(s.drop_first(), x);
        assert forall|i: int| 0 <= i < yer(s, x) implies (#[trigger] s[i]).0 <= x.0 by {
            if i > 0 {
                assert(s[i] == s.drop_first()[i - 1]);
            }
        }
        assert forall|i: int| yer(s, x) <= i < s.len() implies (#[trigger] s[i]).0 > x.0 by {
            assert(s[i] == s.drop_first()[i - 1]);
        }
    } else if s.len() > 0 {
        assert forall|i: int| 0 <= i < s.len() implies (#[trigger] s[i]).0 > x.0 by {
            if i > 0 {
                assert(s[0].0 <= s[i].0);
            }
        }
    }
}

/// Sıralama gerçekten zamana göre sıralı bir dizi verir ve eleman sayısını korur.
pub proof fn zamana_gore_sirali(s: Seq<(i64, Seq<char>, u64, Seq<char>)>)
    ensures
        sirali(zamana_gore(s)),
        zamana_gore(s).len() == s.len(),
    decreases s.len(),
{
    if s.len() > 0 {
        let r = zamana_gore(s.drop_last());
        zamana_gore_sirali(s.drop_last());
        let x = s.last();
        lemma_yer(r, x);
        let p = yer(r, x);
        let t = r.insert(p, x);
        assert forall|i: int, j: int| 0 <= i < j < t.len() implies #[trigger] t[i].0 <= #[trigger] t[j].0 by {
            if j < p {
            } else if j == p {
                assert(t[i] == r[i]);
            } else if i < p {
                assert(t[i] == r[i]);
                assert(t[j] == r[j - 1]);
            } else if i == p {
                assert(t[j] == r[j - 1]);
            } else {
                assert(t[i] == r[i - 1]);
                assert(t[j] == r[j - 1]);
            }
        }
    }
}

fn sirala(ts: &Vec<Toplanan>) -> (r: Vec<Toplanan>)
    ensures
        toplananlar_modeli(r@) == zamana_gore(toplananlar_modeli(ts@)),
{
    let ghost tv = toplananlar_modeli(ts@);
    let mut r: Vec<Toplanan> = Vec::new();
    let mut i: usize = 0;
    while i < ts.len()
        invariant
            i <= ts@.len(),
            tv == toplananlar_modeli(ts@),
            toplananlar_modeli(r@) == zamana_gore(tv.take(i as int)),
        decreases ts@.len() - i,
    {
        let ghost rv = toplananlar_modeli(r@);
        let x = (ts[i].0, ts[i].1.clone(), ts[i].2, ts[i].3.clone());
        assert(toplanan_modeli(x) == tv[i as int]);
        proof {
            assert(tv.take(i + 1).drop_last() =~= tv.take(i as int));
            assert(tv.take(i + 1).last() == tv[i as int]);
            zamana_gore_sirali(tv.take(i as int));
            lemma_yer(rv, tv[i as int]);
        }
        let mut p: usize = 0;
        assert(rv.skip(0) =~= rv);
        while p < r.len() && r[p].0 <= x.0
            invariant
                p <= r@.len(),
                rv == toplananlar_modeli(r@),
                yer(rv, toplanan_modeli(x)) == p + yer(rv.skip(p as int), toplanan_modeli(x)),
            decreases r@.len() - p,
        {
            assert(rv.skip(p as int).drop_first() =~= rv.skip(p + 1));
            p += 1;
        }
        proof {
            if p < r.len() {
                assert(rv.skip(p as int)[0] == rv[p as int]);
            }
        }
        let ghost xv = toplanan_modeli(x);
        r.insert(p, x);
        assert(toplananlar_modeli(r@) =~= rv.insert(p as int, xv));
        i += 1;
    }
    assert(tv.take(i as int) =~= tv);
    r
}

// ---------- hafızaya ekleme ----------

/// Taranan geçmiş zamana göre sıralanır, en yeni hafıza boyu kadarı alınır; favori
/// kişinin adı (varsa en son görülen) kaydedilir; satırlar hafızanın önüne eklenir
/// (tarama sürerken gelen canlı mesajlar arkada kalır), pencere aşılırsa en eskiler düşer.
pub open spec fn taranan_satirlar(ts: Seq<(i64, Seq<char>, u64, Seq<char>)>) -> Seq<Seq<char>> {
    let sirali_ = zamana_gore(ts);
    son_n(sirali_, HAFIZA_BOYU as nat).map_values(
        |t: (i64, Seq<char>, u64, Seq<char>)| t.1 + ": "@ + t.3,
    )
}

/// Sondan geriye ilk favori kaydının adı.
pub open spec fn son_favori(ts: Seq<(i64, Seq<char>, u64, Seq<char>)>, favori: u64) -> Option<Seq<char>>
    decreases ts.len(),
{
    if ts.len() == 0 {
        None
    } else if ts.last().2 == favori {
        Some(ts.last().1)
    } else {
        son_favori(ts.drop_last(), favori)
    }
}

/// Taranan kayıtların adları (küçük harfle) kimliklerine bağlanır; adı zaten bilinen
/// kayda dokunulmaz: canlı mesajlardan gelen eşleşme taramadakinden önce gelir.
pub open spec fn adlari_doldur(m: Map<Seq<char>, u64>, ts: Seq<(i64, Seq<char>, u64, Seq<char>)>) -> Map<
    Seq<char>,
    u64,
>
    decreases ts.len(),
{
    if ts.len() == 0 {
        m
    } else {
        let m1 = adlari_doldur(m, ts.drop_last());
        let a = kucuk_harf_metni(ts.last().1);
        if m1.dom().contains(a) {
            m1
        } else {
            m1.insert(a, ts.last().2)
        }
    }
}

/// Taranan geçmiş işlenir: satırlar hafızanın önüne girer, favori kişinin adı ve
/// bilinmeyen adların kimlikleri kaydedilir; kullanıcı adlarına dokunulmaz.
pub fn taramayi_isle(d: &mut Durum, toplam: &Vec<Toplanan>, favori: u64)
    ensures
        metinler(final(d).hafiza@) == son_n(
            taranan_satirlar(toplananlar_modeli(toplam@)) + metinler(old(d).hafiza@),
            HAFIZA_BOYU as nat,
        ),
        ({
            let kuyruk = son_n(zamana_gore(toplananlar_modeli(toplam@)), HAFIZA_BOYU as nat);
            match son_favori(kuyruk, favori) {
                Some(ad) => final(d).favori_adi matches Some(f) && f@ == ad,
                None => final(d).favori_adi == old(d).favori_adi,
            }
        }),
        ad_haritasi(final(d).ad_kimlikleri@) == adlari_doldur(
            ad_haritasi(old(d).ad_kimlikleri@),
            son_n(zamana_gore(toplananlar_modeli(toplam@)), HAFIZA_BOYU as nat),
        ),
        final(d).kullanici_adlari@ == old(d).kullanici_adlari@,
        final(d).sohbetler@ == old(d).sohbetler@,
        final(d).kanal_gecmisi@ == old(d).kanal_gecmisi@,
        final(d).son_aktivite@ == old(d).son_aktivite@,
        final(d).bot_adi == old(d).bot_adi,
{
    let s = sirala(toplam);
    let ghost sv = toplananlar_modeli(s@);
    let n = s.len();
    let atla: usize = if n > HAFIZA_BOYU {
        n - HAFIZA_BOYU
    } else {
        0
    };
    let ghost kuyruk = son_n(sv, HAFIZA_BOYU as nat);
    assert(kuyruk =~= sv.subrange(atla as int, n as int));
    // favori
    let mut i = atla;
    let ghost f0 = d.favori_adi;
    assert(sv.subrange(atla as int, atla as int) =~= Seq::<(i64, Seq<char>, u64, Seq<char>)>::empty());
    while i < n
        invariant
            atla <= i <= n == s@.len(),
            sv == toplananlar_modeli(s@),
            match son_favori(sv.subrange(atla as int, i as int), favori) {
                Some(ad) => d.favori_adi matches Some(f) && f@ == ad,
                None => d.favori_adi == f0,
            },
            d.sohbetler@ == old(d).sohbetler@,
            d.kanal_gecmisi@ == old(d).kanal_gecmisi@,
            d.son_aktivite@ == old(d).son_aktivite@,
            d.bot_adi == old(d).bot_adi,
            d.hafiza@ == old(d).hafiza@,
            f0 == old(d).favori_adi,
            ad_haritasi(d.ad_kimlikleri@) == adlari_doldur(
                ad_haritasi(old(d).ad_kimlikleri@),
                sv.subrange(atla as int, i as int),
            ),
            d.kullanici_adlari@ == old(d).kullanici_adlari@,
        decreases n - i,
    {
        assert(sv.subrange(atla as int, i + 1).drop_last() =~= sv.subrange(atla as int, i as int));
        assert(sv.subrange(atla as int, i + 1).last() == sv[i as int]);
        if s[i].2 == favori {
            d.favori_adi = Some(s[i].1.clone());
        }
        let kucuk = kucuk_harfe_cevir(s[i].1.as_str());
        ad_yoksa_kaydet(&mut d.ad_kimlikleri, kucuk.as_str(), s[i].2);
        i += 1;
    }
    let ghost fav = d.favori_adi;
    let ghost ak = d.ad_kimlikleri@;
    assert(sv.subrange(atla as int, n as int) == kuyruk);
    // hafızanın önüne, sondan başa
    let ghost h0 = metinler(d.hafiza@);
    let ghost satirlar = kuyruk.map_values(|t: (i64, Seq<char>, u64, Seq<char>)| t.1 + ": "@ + t.3);
    let mut j = n;
    assert(satirlar.skip((j - atla) as int) =~= Seq::<Seq<char>>::empty());
    while j > atla
        invariant
            atla <= j <= n == s@.len(),
            sv == toplananlar_modeli(s@),
            kuyruk == sv.subrange(atla as int, n as int),
            satirlar == kuyruk.map_values(|t: (i64, Seq<char>, u64, Seq<char>)| t.1 + ": "@ + t.3),
            metinler(d.hafiza@) == satirlar.skip((j - atla) as int) + h0,
            d.sohbetler@ == old(d).sohbetler@,
            d.kanal_gecmisi@ == old(d).kanal_gecmisi@,
            d.son_aktivite@ == old(d).son_aktivite@,
            d.bot_adi == old(d).bot_adi,
            d.favori_adi == fav,
            d.ad_kimlikleri@ == ak,
            d.kullanici_adlari@ == old(d).kullanici_adlari@,
        decreases j,
    {
        let satir = ad_satiri(s[j - 1].1.as_str(), s[j - 1].3.as_str());
        let ghost once = d.hafiza@;
        d.hafiza.push_front(satir);
        proof {
            assert(satirlar[(j - 1 - atla) as int] == sv[j - 1].1 + ": "@ + sv[j - 1].3);
            assert(metinler(d.hafiza@) =~= seq![satir@] + metinler(once));
            assert(satirlar.skip((j - 1 - atla) as int) =~= seq![satirlar[(j - 1 - atla) as int]]
                + satirlar.skip((j - atla) as int));
        }
        j -= 1;
    }
    assert(satirlar.skip(0) =~= satirlar);
    let ghost tum = satirlar + h0;
    let ghost mut k: int = 0;
    assert(tum.skip(0) =~= tum);
    while d.hafiza.len() > HAFIZA_BOYU
        invariant
            0 <= k <= tum.len(),
            metinler(d.hafiza@) == tum.skip(k),
            k == 0 || d.hafiza@.len() >= HAFIZA_BOYU,
            d.favori_adi == fav,
            d.sohbetler@ == old(d).sohbetler@,
            d.kanal_gecmisi@ == old(d).kanal_gecmisi@,
            d.son_aktivite@ == old(d).son_aktivite@,
            d.bot_adi == old(d).bot_adi,
            d.ad_kimlikleri@ == ak,
            d.kullanici_adlari@ == old(d).kullanici_adlari@,
        decreases d.hafiza@.len(),
    {
        let ghost once = d.hafiza@;
        assert(metinler(once).len() == once.len());
        let _ = d.hafiza.pop_front();
        proof {
            assert(metinler(d.hafiza@) =~= metinler(once).subrange(1, once.len() as int));
            assert(metinler(d.hafiza@) =~= tum.skip(k + 1));
            k = k + 1;
        }
    }
    assert(satirlar == taranan_satirlar(toplananlar_modeli(toplam@)));
    assert(metinler(d.hafiza@) == son_n(tum, HAFIZA_BOYU as nat));
}

} // verus!
