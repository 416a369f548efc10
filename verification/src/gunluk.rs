//! Günlükçünün kayıtlarının kişi kartlarına işlenmesi: ad değişikliği, puan sınırları,
//! bilgi ve etiketlerin tekrarsız birikmesi, favori istisnası.
use vstd::prelude::*;
use crate::metin::{karakterler, kirp, kirp_sinir, metin_yap};
use crate::sohbet::{ad_haritasi, ad_kimligi, Durum};
use crate::tur::{ascii_esit, ascii_esit_mi};
use crate::yardimci::{kucuk_harf_metni, kucuk_harfe_cevir};

verus! {

broadcast use {vstd::string::group_string_axioms, vstd::std_specs::hash::group_hash_axioms};

/// Günlükçünün bir geçişte yazdıklarının sayıları ve modelin ham çıktısının uzunluğu.
#[derive(Clone, Copy, Debug)]
pub struct DiaristSummary {
    pub people: usize,
    pub topics: usize,
    pub events: usize,
    pub output_chars: usize,
}

impl Default for DiaristSummary {
    fn default() -> (r: Self)
        ensures
            r.people == 0 && r.topics == 0 && r.events == 0 && r.output_chars == 0,
    {
        DiaristSummary { people: 0, topics: 0, events: 0, output_chars: 0 }
    }
}

/// Günlükçünün bir kişi için yazdığı kayıt.
pub struct KisiKaydi {
    pub isim: String,
    /// Puan değişimi; en çok ±3 uygulanır.
    pub puan_degisimi: i32,
    pub not: String,
    pub bilgiler: Vec<String>,
    pub etiketler: Vec<String>,
}

/// Günlükçünün bir konu için yazdığı not.
pub struct KonuKaydi {
    pub ad: String,
    pub not: String,
}

/// Bir kişinin kartı.
pub struct Kisi {
    pub isim: String,
    pub eski_isimler: Vec<String>,
    pub kullanici_adi: String,
    /// -10 ile 10 arası.
    pub puan: i32,
    pub not: String,
    pub bilgiler: Vec<String>,
    pub etiketler: Vec<String>,
    pub olaylar: Vec<String>,
}

/// Kişi kaydı işlenir mi: adı boş değil ve botun kendisi değil.
pub open spec fn kayit_islenir_spec(isim: Seq<char>, bot_adi: Seq<char>) -> bool {
    isim.len() > 0 && !ascii_esit(isim, bot_adi)
}

pub fn kayit_islenir(isim: &str, bot_adi: &str) -> (r: bool)
    ensures
        r == kayit_islenir_spec(isim@, bot_adi@),
{
    isim.unicode_len() > 0 && !ascii_esit_mi(isim, bot_adi)
}

/// Konu notu işlenir mi: ad da not da (kırpılmış) boş değil.
pub fn konu_islenir(k: &KonuKaydi) -> (r: bool)
    ensures
        r == (kirp(k.ad@).len() > 0 && kirp(k.not@).len() > 0),
{
    kirpik(k.ad.as_str()).len() > 0 && kirpik(k.not.as_str()).len() > 0
}

fn kirpik(s: &str) -> (r: Vec<char>)
    ensures
        r@ == kirp(s@),
{
    let v = karakterler(s);
    let n = v.len();
    assert(v@.subrange(0, n as int) =~= v@);
    let (a, b) = kirp_sinir(&v, 0, n);
    crate::metin::kopya(&v, a, b)
}

// ---------- birikim ----------

/// Yeni bilgiler kırpılıp, boş ya da zaten var olanlar atlanarak sırayla eklenir.
pub open spec fn bilgi_eklenmis(var_olan: Seq<Seq<char>>, yeni: Seq<Seq<char>>) -> Seq<Seq<char>>
    decreases yeni.len(),
{
    if yeni.len() == 0 {
        var_olan
    } else {
        let f = bilgi_eklenmis(var_olan, yeni.drop_last());
        let t = kirp(yeni.last());
        if t.len() > 0 && !f.contains(t) {
            f.push(t)
        } else {
            f
        }
    }
}

/// Yeni etiketler kırpılıp küçük harfe çevrilir; boş ya da zaten var olanlar atlanır.
pub open spec fn etiket_eklenmis(var_olan: Seq<Seq<char>>, yeni: Seq<Seq<char>>) -> Seq<Seq<char>>
    decreases yeni.len(),
{
    if yeni.len() == 0 {
        var_olan
    } else {
        let f = etiket_eklenmis(var_olan, yeni.drop_last());
        let t = kucuk_harf_metni(kirp(yeni.last()));
        if t.len() > 0 && !f.contains(t) {
            f.push(t)
        } else {
            f
        }
    }
}

fn icinde(v: &Vec<String>, x: &Vec<char>) -> (r: bool)
    ensures
        r == v.deep_view().contains(x@),
{
    let ghost vs = v.deep_view();
    let mut i: usize = 0;
    while i < v.len()
        invariant
            i <= v@.len(),
            vs == v.deep_view(),
            forall|t: int| 0 <= t < i ==> vs[t] != x@,
        decreases v@.len() - i,
    {
        if crate::metin::ayni_dizi(&karakterler(v[i].as_str()), x) {
            assert(vs[i as int] == x@);
            return true;
        }
        i += 1;
    }
    proof {
        if vs.contains(x@) {
            let t = choose|t: int| 0 <= t < vs.len() && vs[t] == x@;
            assert(vs[t] != x@);
        }
    }
    false
}

fn ekle_tekrarsiz(hedef: &mut Vec<String>, yeni: &Vec<String>, kucuk: bool)
    ensures
        final(hedef).deep_view() == if kucuk {
            etiket_eklenmis(old(hedef).deep_view(), yeni.deep_view())
        } else {
            bilgi_eklenmis(old(hedef).deep_view(), yeni.deep_view())
        },
{
    let ghost h0 = hedef.deep_view();
    let ghost ys = yeni.deep_view();
    let mut i: usize = 0;
    assert(ys.take(0) =~= Seq::<Seq<char>>::empty());
    while i < yeni.len()
        invariant
            i <= yeni@.len(),
            ys == yeni.deep_view(),
            hedef.deep_view() == if kucuk {
                etiket_eklenmis(h0, ys.take(i as int))
            } else {
                bilgi_eklenmis(h0, ys.take(i as int))
            },
        decreases yeni@.len() - i,
    {
        assert(ys.take(i + 1).drop_last() =~= ys.take(i as int));
        assert(ys.take(i + 1).last() == ys[i as int]);
        let k = kirpik(yeni[i].as_str());
        let t: Vec<char> = if kucuk {
            let s = metin_yap(&k, 0, k.len());
            assert(k@.subrange(0, k@.len() as int) =~= k@);
            let l = kucuk_harfe_cevir(s.as_str());
            karakterler(l.as_str())
        } else {
            k
        };
        if t.len() > 0 && !icinde(hedef, &t) {
            let ghost once = hedef.deep_view();
            let s = metin_yap(&t, 0, t.len());
            assert(t@.subrange(0, t@.len() as int) =~= t@);
            hedef.push(s);
            assert(hedef.deep_view() =~= once.push(t@));
        }
        i += 1;
    }
    assert(ys.take(i as int) =~= ys);
}

// ---------- kişi kartı ----------

/// Puan değişimi ±3'e, sonuç ±10'a çekilir.
pub open spec fn sinirla(x: int, alt: int, ust: int) -> int {
    if x < alt {
        alt
    } else if x > ust {
        ust
    } else {
        x
    }
}

/// Kartın yeni adı ve eski adlar listesi: yeni kişiyse kayıttaki ad; ad değiştiyse eski ad
/// (listede yoksa) eski adlara eklenir, liste en çok beş ad tutar.
pub open spec fn eski_isimler_spec(eski: Seq<Seq<char>>, isim: Seq<char>, kayit_isim: Seq<char>) -> Seq<Seq<char>> {
    if isim.len() > 0 && !ascii_esit(isim, kayit_isim) && !(exists|i: int|
        0 <= i < eski.len() && ascii_esit(#[trigger] eski[i], isim)) {
        let e = eski.push(isim);
        if e.len() > 5 {
            e.take(5)
        } else {
            e
        }
    } else {
        eski
    }
}

/// Kartın yeni adı: yeni kişiyse ya da ad (ASCII büyük/küçük harf farkı dışında)
/// değiştiyse kayıttaki ad; yalnız harf büyüklüğü farklıysa kayıtlı ad kalır.
pub open spec fn yeni_isim(isim: Seq<char>, kayit_isim: Seq<char>) -> Seq<char> {
    if isim.len() == 0 || !ascii_esit(isim, kayit_isim) {
        kayit_isim
    } else {
        isim
    }
}

pub open spec fn secenek_gorunum(o: Option<&str>) -> Option<Seq<char>> {
    match o {
        Some(x) => Some(x@),
        None => None,
    }
}

/// Kayıttaki adın kişisi: ad küçük harfle kimliğe çözülür (çözülmezse kayıt bu tur
/// atlanır); kimliğin bilinen Discord kullanıcı adı varsa o da döner.
pub fn kisiyi_coz(d: &Durum, isim: &str) -> (r: Option<(u64, Option<String>)>)
    ensures
        ({
            let a = kucuk_harf_metni(isim@);
            let m = ad_haritasi(d.ad_kimlikleri@);
            match r {
                None => !m.dom().contains(a),
                Some((id, k)) => m.dom().contains(a) && m[a] == id && match k {
                    Some(u) => d.kullanici_adlari@.contains_key(id) && u@ == d.kullanici_adlari@[id]@,
                    None => !d.kullanici_adlari@.contains_key(id),
                },
            }
        }),
{
    let kucuk = kucuk_harfe_cevir(isim);
    match ad_kimligi(&d.ad_kimlikleri, kucuk.as_str()) {
        None => None,
        Some(id) => {
            let k = match d.kullanici_adlari.get(&id) {
                Some(u) => Some(u.clone()),
                None => None,
            };
            Some((id, k))
        },
    }
}

/// Kayıt kişi kartına işlenir. Kartın adı kayıttaki ad olur, yalnız harf büyüklüğü farklıysa
/// kayıtlı ad kalır; kullanıcı adı boşsa bilinenle dolar; puan sınırlar içinde değişir; not
/// kırpılmış boş değilse yenilenir; bilgi ve etiketler tekrarsız birikir (etiketler en çok
/// altı); olay satırı varsa eklenir. Favori kişinin (kimliğiyle ya da kartın adıyla) puanı
/// en yüksek, notu sabit nottur.
pub fn kisiyi_guncelle(
    kisi: &mut Kisi,
    kayit: &KisiKaydi,
    kullanici_adi: Option<&str>,
    olay_satiri: Option<String>,
    favori_kimlik: bool,
    favori_adi: Option<&str>,
    favori_notu: &str,
)
    requires
        i32::MIN <= old(kisi).puan + sinirla(kayit.puan_degisimi as int, -3, 3) <= i32::MAX,
    ensures
        final(kisi).isim@ == yeni_isim(old(kisi).isim@, kayit.isim@),
        final(kisi).eski_isimler.deep_view() == eski_isimler_spec(
            old(kisi).eski_isimler.deep_view(),
            old(kisi).isim@,
            kayit.isim@,
        ),
        final(kisi).kullanici_adi@ == (if old(kisi).kullanici_adi@.len() == 0 && kullanici_adi is Some {
            kullanici_adi->0@
        } else {
            old(kisi).kullanici_adi@
        }),
        ({
            let favori = favori_kimlik || secenek_gorunum(favori_adi) == Some(
                yeni_isim(old(kisi).isim@, kayit.isim@),
            );
            &&& final(kisi).puan == (if favori {
                10
            } else {
                sinirla(old(kisi).puan + sinirla(kayit.puan_degisimi as int, -3, 3), -10, 10)
            })
            &&& final(kisi).not@ == (if favori {
                favori_notu@
            } else if kirp(kayit.not@).len() > 0 {
                kirp(kayit.not@)
            } else {
                old(kisi).not@
            })
        }),
        final(kisi).bilgiler.deep_view() == bilgi_eklenmis(
            old(kisi).bilgiler.deep_view(),
            kayit.bilgiler.deep_view(),
        ),
        ({
            let e = etiket_eklenmis(old(kisi).etiketler.deep_view(), kayit.etiketler.deep_view());
            final(kisi).etiketler.deep_view() == if e.len() > 6 {
                e.take(6)
            } else {
                e
            }
        }),
        final(kisi).olaylar.deep_view() == match olay_satiri {
            Some(o) => old(kisi).olaylar.deep_view().push(o@),
            None => old(kisi).olaylar.deep_view(),
        },
{
    // ad
    let bos = kisi.isim.as_str().unicode_len() == 0;
    let farkli = !ascii_esit_mi(kisi.isim.as_str(), kayit.isim.as_str());
    if !bos && farkli {
        let ghost eski = kisi.eski_isimler.deep_view();
        let ghost ad = kisi.isim@;
        let mut var = false;
        let mut i: usize = 0;
        while i < kisi.eski_isimler.len()
            invariant
                i <= kisi.eski_isimler@.len(),
                eski == kisi.eski_isimler.deep_view(),
                ad == kisi.isim@,
                var == (exists|k: int| 0 <= k < i && ascii_esit(#[trigger] eski[k], ad)),
            decreases kisi.eski_isimler@.len() - i,
        {
            if ascii_esit_mi(kisi.eski_isimler[i].as_str(), kisi.isim.as_str()) {
                assert(ascii_esit(eski[i as int], ad));
                var = true;
            }
            i += 1;
        }
        if !var {
            let a = kisi.isim.clone();
            kisi.eski_isimler.push(a);
            assert(kisi.eski_isimler.deep_view() =~= eski.push(ad));
            if kisi.eski_isimler.len() > 5 {
                kisi.eski_isimler.truncate(5);
                assert(kisi.eski_isimler.deep_view() =~= eski.push(ad).take(5));
            }
        }
    }
    if bos || farkli {
        kisi.isim = kayit.isim.clone();
    }
    // kullanıcı adı
    if kisi.kullanici_adi.as_str().unicode_len() == 0 {
        match kullanici_adi {
            Some(u) => {
                kisi.kullanici_adi = u.to_owned();
            },
            None => {},
        }
    }
    // puan ve not
    let d: i32 = if kayit.puan_degisimi < -3 {
        -3
    } else if kayit.puan_degisimi > 3 {
        3
    } else {
        kayit.puan_degisimi
    };
    let p = kisi.puan + d;
    kisi.puan = if p < -10 {
        -10
    } else if p > 10 {
        10
    } else {
        p
    };
    let n = kirpik(kayit.not.as_str());
    if n.len() > 0 {
        kisi.not = metin_yap(&n, 0, n.len());
        assert(n@.subrange(0, n@.len() as int) =~= n@);
    }
    // bilgiler ve etiketler
    ekle_tekrarsiz(&mut kisi.bilgiler, &kayit.bilgiler, false);
    ekle_tekrarsiz(&mut kisi.etiketler, &kayit.etiketler, true);
    if kisi.etiketler.len() > 6 {
        let ghost e = kisi.etiketler.deep_view();
        kisi.etiketler.truncate(6);
        assert(kisi.etiketler.deep_view() =~= e.take(6));
    }
    match olay_satiri {
        Some(o) => {
            let ghost o0 = kisi.olaylar.deep_view();
            let ghost ov = o@;
            kisi.olaylar.push(o);
            assert(kisi.olaylar.deep_view() =~= o0.push(ov));
        },
        None => {},
    }
    // favori
    let favori = favori_kimlik || match favori_adi {
        Some(f) => crate::metin::ayni_dizi(&karakterler(f), &karakterler(kisi.isim.as_str())),
        None => false,
    };
    if favori {
        kisi.puan = 10;
        kisi.not = favori_notu.to_owned();
    }
}

} // verus!
