//! Yardımcı model çağrılarının çözülmüş cevaplarından kararlar: isteklilik puanı, seçilen
//! hedef kişi, ruh hali.
use vstd::prelude::*;
use crate::metin::{karakterler, kirp, kirp_sinir, metin_yap, metne, satir_araliklari, satirlar};
use crate::tur::{ascii_esit, ascii_esit_mi};
use crate::yardimci::{ekle, ekle_metin, ondalik, ondalik_yaz};

verus! {

broadcast use vstd::string::group_string_axioms;

fn kirpilmis_str(s: &str) -> (r: String)
    ensures
        r@ == kirp(s@),
{
    let v = karakterler(s);
    let n = v.len();
    assert(v@.subrange(0, n as int) =~= v@);
    let (a, b) = kirp_sinir(&v, 0, n);
    metin_yap(&v, a, b)
}

// ---------- isteklilik ----------

/// Puan 0 ile 10 arasına çekilir.
pub open spec fn puan_siniri(p: i32) -> u8 {
    if p < 0 {
        0
    } else if p > 10 {
        10
    } else {
        p as u8
    }
}

/// İsteklilik cevabının çözülmüş alanlarından puan (0-10) ve kırpılmış sebep.
pub fn isteklilik_degeri(puan: i32, sebep: &str) -> (r: (u8, String))
    ensures
        r.0 == puan_siniri(puan),
        r.1@ == kirp(sebep@),
{
    let p: u8 = if puan < 0 {
        0
    } else if puan > 10 {
        10
    } else {
        puan as u8
    };
    (p, kirpilmis_str(sebep))
}

// ---------- hedef ----------

/// Baştaki çift tırnaklar atılır.
pub open spec fn bastan_tirnaksiz(s: Seq<char>) -> Seq<char>
    decreases s.len(),
{
    if s.len() > 0 && s[0] == '"' {
        bastan_tirnaksiz(s.drop_first())
    } else {
        s
    }
}

/// Sondaki çift tırnaklar atılır.
pub open spec fn sondan_tirnaksiz(s: Seq<char>) -> Seq<char>
    decreases s.len(),
{
    if s.len() > 0 && s.last() == '"' {
        sondan_tirnaksiz(s.drop_last())
    } else {
        s
    }
}

/// `trim_matches('"')`.
pub open spec fn tirnaksiz(s: Seq<char>) -> Seq<char> {
    sondan_tirnaksiz(bastan_tirnaksiz(s))
}

fn tirnaksiz_yap(v: &Vec<char>) -> (r: Vec<char>)
    ensures
        r@ == tirnaksiz(v@),
{
    let n = v.len();
    let mut a: usize = 0;
    assert(v@.subrange(0, n as int) =~= v@);
    while a < n && v[a] == '"'
        invariant
            a <= n == v@.len(),
            bastan_tirnaksiz(v@) == bastan_tirnaksiz(v@.subrange(a as int, n as int)),
        decreases n - a,
    {
        assert(v@.subrange(a as int, n as int).drop_first() =~= v@.subrange(a + 1, n as int));
        a += 1;
    }
    let ghost b0 = v@.subrange(a as int, n as int);
    assert(bastan_tirnaksiz(v@) == b0);
    let mut b = n;
    assert(b0.subrange(0, (b - a) as int) =~= b0);
    while b > a && v[b - 1] == '"'
        invariant
            a <= b <= n == v@.len(),
            b0 == v@.subrange(a as int, n as int),
            sondan_tirnaksiz(b0) == sondan_tirnaksiz(v@.subrange(a as int, b as int)),
        decreases b - a,
    {
        assert(v@.subrange(a as int, b as int).drop_last() =~= v@.subrange(a as int, b - 1));
        b -= 1;
    }
    let mut r: Vec<char> = Vec::new();
    let mut i = a;
    while i < b
        invariant
            a <= i <= b <= n == v@.len(),
            r@ == v@.subrange(a as int, i as int),
        decreases b - i,
    {
        r.push(v[i]);
        assert(v@.subrange(a as int, i + 1) =~= v@.subrange(a as int, i as int).push(v@[i as int]));
        i += 1;
    }
    r
}

/// Cevabın ilk satırı (satır yoksa boş).
pub open spec fn ilk_satir(s: Seq<char>) -> Seq<char> {
    if satirlar(s).len() > 0 {
        satirlar(s)[0]
    } else {
        seq![]
    }
}

/// Hedef adayı: JSON çözüldüyse `hedef` alanı (kırpılmış), çözülmediyse cevabın ilk
/// satırı, kırpılmış ve tırnakları atılmış.
pub open spec fn hedef_adayi_spec(json_hedef: Option<Seq<char>>, cevap: Seq<char>) -> Seq<char> {
    match json_hedef {
        Some(h) => kirp(h),
        None => tirnaksiz(kirp(ilk_satir(cevap))),
    }
}

pub fn hedef_adayi(json_hedef: Option<&str>, cevap: &str) -> (r: String)
    ensures
        r@ == hedef_adayi_spec(
            match json_hedef {
                Some(h) => Some(h@),
                None => None,
            },
            cevap@,
        ),
{
    match json_hedef {
        Some(h) => kirpilmis_str(h),
        None => {
            let v = karakterler(cevap);
            let ar = satir_araliklari(&v);
            let ilk: Vec<char> = if ar.len() > 0 {
                let (x, y) = ar[0];
                let (a, b) = kirp_sinir(&v, x, y);
                crate::metin::kopya(&v, a, b)
            } else {
                assert(kirp(Seq::<char>::empty()) =~= Seq::<char>::empty()) by {
                    reveal_with_fuel(crate::metin::sol_kirp, 1);
                    reveal_with_fuel(crate::metin::sag_kirp, 1);
                }
                Vec::new()
            };
            let t = tirnaksiz_yap(&ilk);
            metne(&t)
        },
    }
}

/// Seçilen hedef: aday boşsa yok; bilinen adlardan biriyle ASCII harflerde büyük/küçük
/// gözetmeden eşleşiyorsa o ad (ilki), yoksa aday olduğu gibi.
pub open spec fn ilk_eslesen(bilinenler: Seq<Seq<char>>, aday: Seq<char>) -> Option<Seq<char>>
    decreases bilinenler.len(),
{
    if bilinenler.len() == 0 {
        None
    } else if ascii_esit(bilinenler[0], aday) {
        Some(bilinenler[0])
    } else {
        ilk_eslesen(bilinenler.drop_first(), aday)
    }
}

pub open spec fn hedef_spec(aday: Seq<char>, bilinenler: Seq<Seq<char>>) -> Option<Seq<char>> {
    if aday.len() == 0 {
        None
    } else {
        match ilk_eslesen(bilinenler, aday) {
            Some(b) => Some(b),
            None => Some(aday),
        }
    }
}

pub fn hedef_sonucu(aday: String, bilinenler: &Vec<String>) -> (r: Option<String>)
    ensures
        match r {
            Some(x) => hedef_spec(aday@, bilinenler.deep_view()) == Some(x@),
            None => hedef_spec(aday@, bilinenler.deep_view()) is None,
        },
{
    if aday.as_str().unicode_len() == 0 {
        return None;
    }
    assert(aday@.len() > 0);
    let ghost bs = bilinenler.deep_view();
    let mut i: usize = 0;
    assert(bs.skip(0) =~= bs);
    while i < bilinenler.len()
        invariant
            i <= bilinenler@.len(),
            bs == bilinenler.deep_view(),
            ilk_eslesen(bs, aday@) == ilk_eslesen(bs.skip(i as int), aday@),
            aday@.len() > 0,
        decreases bilinenler@.len() - i,
    {
        assert(bs.skip(i as int)[0] == bs[i as int]);
        if ascii_esit_mi(bilinenler[i].as_str(), aday.as_str()) {
            let b = bilinenler[i].clone();
            assert(b@ == bs[i as int]);
            assert(bs.skip(i as int).len() > 0);
            assert(ilk_eslesen(bs.skip(i as int), aday@) == Some(bs[i as int]));
            return Some(b);
        }
        assert(bs.skip(i as int).drop_first() =~= bs.skip(i + 1));
        i += 1;
    }
    Some(aday)
}

// ---------- ruh hali ----------

/// Ruh hali talimatı: durum kırpılır, boşsa yok; yoğunluk 1-10 arasına çekilir, 3'ün
/// altındaysa (nötr) yansıtmaya değmez; yoksa "durum (yoğunluk)".
pub open spec fn ruh_hali_spec(durum: Seq<char>, yogunluk: i32) -> Option<Seq<char>> {
    let d = kirp(durum);
    let y: int = if yogunluk < 1 {
        1
    } else if yogunluk > 10 {
        10
    } else {
        yogunluk as int
    };
    if d.len() == 0 || y < 3 {
        None
    } else {
        Some(d + " ("@ + ondalik(y as nat) + ")"@)
    }
}

pub fn ruh_hali_metni(durum: &str, yogunluk: i32) -> (r: Option<String>)
    ensures
        match r {
            Some(x) => ruh_hali_spec(durum@, yogunluk) == Some(x@),
            None => ruh_hali_spec(durum@, yogunluk) is None,
        },
{
    let d = kirpilmis_str(durum);
    if d.as_str().unicode_len() == 0 {
        return None;
    }
    let y: usize = if yogunluk < 1 {
        1
    } else if yogunluk > 10 {
        10
    } else {
        yogunluk as usize
    };
    if y < 3 {
        return None;
    }
    let mut v: Vec<char> = Vec::new();
    ekle_metin(&mut v, d.as_str());
    ekle_metin(&mut v, " (");
    let s = ondalik_yaz(y);
    ekle(&mut v, &s);
    ekle_metin(&mut v, ")");
    Some(metne(&v))
}

} // verus!
