//! Sınırı aşan hafıza dosyalarının küçültülmesi: olay dosyasının eski kısmı özetlenir,
//! yenisi olduğu gibi kalır; küçülmeyen sonuç yazılmaz.
use vstd::prelude::*;
use crate::metin::{
    basla, basliyor, birlestir, karakterler, kirp, kirp_sinir, metin_yap, sag_kirp, sag_sinir,
    satir_araliklari, satirlar,
};
use crate::yardimci::{birlestirilmis, ekle_metin};
use vstd::utf8::encode_utf8;

verus! {

/// Olay satırı: "- " ile başlar.
pub open spec fn olay_satiri(l: Seq<char>) -> bool {
    basla(l, "- "@)
}

/// Olay dosyasının bölünüşü: olay olmayan satırlar, özetlenecek eski olaylar (ilk onda altı),
/// olduğu gibi kalacak yeni olaylar.
pub open spec fn olay_bolumu(s: Seq<char>) -> (Seq<Seq<char>>, Seq<Seq<char>>, Seq<Seq<char>>) {
    let ls = satirlar(s);
    let olaylar = ls.filter(|l: Seq<char>| olay_satiri(l));
    let kesim = olaylar.len() * 6 / 10;
    (ls.filter(|l: Seq<char>| !olay_satiri(l)), olaylar.take(kesim as int), olaylar.skip(kesim as int))
}

pub fn olay_dosyasi_bol(eski: &str) -> (r: (Vec<String>, Vec<String>, Vec<String>))
    ensures
        (r.0.deep_view(), r.1.deep_view(), r.2.deep_view()) == olay_bolumu(eski@),
{
    let v = karakterler(eski);
    let ar = satir_araliklari(&v);
    let ghost ls = satirlar(v@);
    let ghost p = |l: Seq<char>| olay_satiri(l);
    let ghost q = |l: Seq<char>| !olay_satiri(l);
    let onek = karakterler("- ");
    proof {
        reveal_strlit("- ");
    }
    let mut diger: Vec<String> = Vec::new();
    let mut olaylar: Vec<String> = Vec::new();
    let mut i: usize = 0;
    while i < ar.len()
        invariant
            i <= ar@.len() == ls.len(),
            ls == satirlar(v@),
            onek@ == "- "@,
            p == (|l: Seq<char>| olay_satiri(l)),
            q == (|l: Seq<char>| !olay_satiri(l)),
            forall|k: int|
                #![trigger ar@[k]]
                0 <= k < ar@.len() ==> ar@[k].0 <= ar@[k].1 <= v@.len() && ls[k] == v@.subrange(
                    ar@[k].0 as int,
                    ar@[k].1 as int,
                ),
            diger.deep_view() == ls.take(i as int).filter(q),
            olaylar.deep_view() == ls.take(i as int).filter(p),
        decreases ar@.len() - i,
    {
        let (a, b) = ar[i];
        let satir = metin_yap(&v, a, b);
        let sv = karakterler(satir.as_str());
        let ghost l = ls[i as int];
        assert(sv@ == l);
        proof {
            assert(ls.take(i + 1) =~= ls.take(i as int).push(l));
            ls.take(i as int).lemma_filter_push(l, p);
            ls.take(i as int).lemma_filter_push(l, q);
            assert(sv@.skip(0) =~= sv@);
        }
        if basliyor(&sv, 0, &onek) {
            let ghost o0 = olaylar.deep_view();
            olaylar.push(satir);
            assert(olaylar.deep_view() =~= o0.push(l));
        } else {
            let ghost d0 = diger.deep_view();
            diger.push(satir);
            assert(diger.deep_view() =~= d0.push(l));
        }
        i += 1;
    }
    assert(ls.take(i as int) =~= ls);
    let n = olaylar.len();
    let kesim = n / 10 * 6 + n % 10 * 6 / 10;
    assert(kesim == n * 6 / 10) by (nonlinear_arith)
        requires
            kesim == n / 10 * 6 + n % 10 * 6 / 10,
    ;
    let ghost ov = olaylar.deep_view();
    let mut yeni: Vec<String> = Vec::new();
    let mut eskiler: Vec<String> = Vec::new();
    let mut k: usize = 0;
    while k < n
        invariant
            k <= n == olaylar@.len() == ov.len(),
            kesim <= n,
            ov == olaylar.deep_view(),
            k <= kesim ==> eskiler.deep_view() == ov.take(k as int) && yeni.deep_view().len() == 0,
            k > kesim ==> eskiler.deep_view() == ov.take(kesim as int) && yeni.deep_view() == ov.subrange(
                kesim as int,
                k as int,
            ),
        decreases n - k,
    {
        let x = olaylar[k].clone();
        assert(x@ == ov[k as int]);
        if k < kesim {
            let ghost e0 = eskiler.deep_view();
            eskiler.push(x);
            assert(eskiler.deep_view() =~= e0.push(ov[k as int]));
            assert(ov.take(k + 1) =~= ov.take(k as int).push(ov[k as int]));
        } else {
            let ghost y0 = yeni.deep_view();
            yeni.push(x);
            assert(yeni.deep_view() =~= y0.push(ov[k as int]));
            assert(ov.subrange(kesim as int, k + 1) =~= ov.subrange(kesim as int, k as int).push(ov[k as int]));
        }
        k += 1;
    }
    if n <= kesim {
        assert(ov.take(n as int) =~= ov);
        assert(ov.skip(kesim as int) =~= Seq::<Seq<char>>::empty());
    } else {
        assert(ov.subrange(kesim as int, n as int) =~= ov.skip(kesim as int));
    }
    (diger, eskiler, yeni)
}

/// Olay dosyasının yeni hâli: olay olmayan satırlar (kırpılmış), özet (kırpılmış), boş satır,
/// yeni olaylar, satır sonu.
pub open spec fn olay_dosyasi_spec(diger: Seq<Seq<char>>, ozet: Seq<char>, yeni: Seq<Seq<char>>) -> Seq<char> {
    kirp(birlestir(diger, "\n"@)) + "\n"@ + kirp(ozet) + "\n\n"@ + birlestir(yeni, "\n"@) + "\n"@
}

fn kirpilmis_metin(s: &str) -> (r: String)
    ensures
        r@ == kirp(s@),
{
    let v = karakterler(s);
    let (a, b) = kirp_sinir(&v, 0, v.len());
    assert(v@.subrange(0, v@.len() as int) =~= v@);
    metin_yap(&v, a, b)
}

pub fn olay_dosyasi(diger: &Vec<String>, ozet: &str, yeni: &Vec<String>) -> (r: String)
    ensures
        r@ == olay_dosyasi_spec(diger.deep_view(), ozet@, yeni.deep_view()),
{
    let d = birlestirilmis(diger, "\n");
    let dk = kirpilmis_metin(d.as_str());
    let ok = kirpilmis_metin(ozet);
    let y = birlestirilmis(yeni, "\n");
    let mut v: Vec<char> = Vec::new();
    ekle_metin(&mut v, dk.as_str());
    ekle_metin(&mut v, "\n");
    ekle_metin(&mut v, ok.as_str());
    ekle_metin(&mut v, "\n\n");
    ekle_metin(&mut v, y.as_str());
    ekle_metin(&mut v, "\n");
    crate::metin::metne(&v)
}

/// Olay dosyası özetlenirken olay satırlarından hiçbiri kaybolmaz: özetlenecekler ile
/// kalanlar sırasıyla bütün olaylardır; kalanlar yeni dosyanın sonunda olduğu gibi durur.
pub proof fn yeni_olaylar_aynen_kalir(eski: Seq<char>, ozet: Seq<char>)
    ensures
        ({
            let (diger, eskiler, yeniler) = olay_bolumu(eski);
            let olaylar = satirlar(eski).filter(|l: Seq<char>| olay_satiri(l));
            &&& eskiler + yeniler == olaylar
            &&& eskiler.len() == olaylar.len() * 6 / 10
            &&& crate::metin::bitir(
                olay_dosyasi_spec(diger, ozet, yeniler),
                birlestir(yeniler, "\n"@) + "\n"@,
            )
        }),
{
    let (diger, eskiler, yeniler) = olay_bolumu(eski);
    let olaylar = satirlar(eski).filter(|l: Seq<char>| olay_satiri(l));
    assert(eskiler + yeniler =~= olaylar);
    let dosya = olay_dosyasi_spec(diger, ozet, yeniler);
    let son = birlestir(yeniler, "\n"@) + "\n"@;
    let bas = kirp(birlestir(diger, "\n"@)) + "\n"@ + kirp(ozet) + "\n\n"@;
    assert(dosya =~= bas + son);
    assert(dosya.skip(dosya.len() - son.len()) =~= son);
}

// ---------- küçülme ----------

/// Yeni içerik ancak kırpılınca boş değilse ve bayt olarak eskisinden kısaysa yazılır;
/// yazılan, sondaki boşlukları atılmış hâlidir.
pub open spec fn ozet_sonucu_spec(yeni: Seq<char>, eski: Seq<char>) -> Option<Seq<char>> {
    if kirp(yeni).len() > 0 && encode_utf8(yeni).len() < encode_utf8(eski).len() {
        Some(sag_kirp(yeni))
    } else {
        None
    }
}

pub fn ozet_sonucu(yeni: &str, eski: &str) -> (r: Option<String>)
    ensures
        match r {
            Some(s) => ozet_sonucu_spec(yeni@, eski@) == Some(s@),
            None => ozet_sonucu_spec(yeni@, eski@) is None,
        },
{
    let v = karakterler(yeni);
    let (a, b) = kirp_sinir(&v, 0, v.len());
    assert(v@.subrange(0, v@.len() as int) =~= v@);
    if a < b && yeni.as_bytes().len() < eski.as_bytes().len() {
        let son = sag_sinir(&v, 0, v.len());
        Some(metin_yap(&v, 0, son))
    } else {
        None
    }
}

} // verus!
