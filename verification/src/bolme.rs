//! Uzun metni mesaj sınırına sığan parçalara bölme.
use vstd::prelude::*;
use crate::metin::{
    bosluk_mu, gecmez, lemma_kirp_gecmez, sag_kirp,
    dolu, karakterler, kirp, kirp_sinir, lemma_kirp_dolu, lemma_sag_kirp, lemma_sol_kirp,
    lemma_sol_kirp_dolu, metin_yap, sol_kirp, sol_sinir,
};

verus! {

/// Cümle sonu sayılan karakterler.
pub open spec fn cumle_sonu_mu(c: char) -> bool {
    c == '.' || c == '!' || c == '?' || c == '\n'
}

/// Son cümle sonundan hemen sonraki konum (yoksa 0).
pub open spec fn son_cumle(t: Seq<char>) -> nat
    decreases t.len(),
{
    if t.len() == 0 {
        0
    } else if cumle_sonu_mu(t.last()) {
        t.len()
    } else {
        son_cumle(t.drop_last())
    }
}

/// Son boşluk karakterinin konumu (yoksa 0).
pub open spec fn son_bosluk(t: Seq<char>) -> nat
    decreases t.len(),
{
    if t.len() == 0 {
        0
    } else if t.last() == ' ' {
        (t.len() - 1) as nat
    } else {
        son_bosluk(t.drop_last())
    }
}

/// İlk `sinir` karakter içindeki en iyi kesim yeri: sınırın dörtte birinden sonraysa son
/// cümle sonu, değilse son boşluk, o da değilse sınırın kendisi.
pub open spec fn kesim(s: Seq<char>, sinir: nat) -> nat {
    let t = if s.len() > sinir {
        s.take(sinir as int)
    } else {
        s
    };
    let asgari = sinir / 4;
    if son_cumle(t) > asgari {
        son_cumle(t)
    } else if son_bosluk(t) > asgari {
        son_bosluk(t)
    } else {
        t.len()
    }
}

proof fn lemma_son_sinir(t: Seq<char>)
    ensures
        son_cumle(t) <= t.len(),
        son_bosluk(t) <= t.len(),
    decreases t.len(),
{
    if t.len() > 0 {
        lemma_son_sinir(t.drop_last());
    }
}

pub proof fn lemma_kesim_sinir(s: Seq<char>, sinir: nat)
    requires
        s.len() > sinir > 0,
    ensures
        1 <= kesim(s, sinir) <= sinir,
{
    lemma_son_sinir(s.take(sinir as int));
}

/// Kırpılmış bir kalanın parçaları: sınırı aşıyorsa kesim yerinden bölünür, her parça
/// kırpılır, boş parça atılır.
pub open spec fn bol_kalan(kalan: Seq<char>, sinir: nat) -> Seq<Seq<char>>
    decreases kalan.len(),
{
    if sinir == 0 {
        seq![]
    } else if kalan.len() > sinir {
        let kes = kesim(kalan, sinir);
        proof {
            lemma_kesim_sinir(kalan, sinir);
            lemma_sol_kirp(kalan.skip(kes as int));
        }
        let bas = kirp(kalan.take(kes as int));
        let geri = sol_kirp(kalan.skip(kes as int));
        (if bas.len() > 0 {
            seq![bas]
        } else {
            seq![]
        }) + bol_kalan(geri, sinir)
    } else if kalan.len() > 0 {
        seq![kalan]
    } else {
        seq![]
    }
}

/// Metnin en çok `sinir` karakterlik parçaları.
pub open spec fn parcalar(s: Seq<char>, sinir: nat) -> Seq<Seq<char>> {
    bol_kalan(kirp(s), sinir)
}

/// `v[lo..hi]` için kesim yeri (`lo`'ya göre).
fn kesim_noktasi(v: &[char], lo: usize, hi: usize, sinir: usize) -> (k: usize)
    requires
        lo <= hi <= v@.len(),
    ensures
        k == kesim(v@.subrange(lo as int, hi as int), sinir as nat),
{
    let ghost s = v@.subrange(lo as int, hi as int);
    let n = hi - lo;
    let ust = if n > sinir {
        sinir
    } else {
        n
    };
    let ghost t = if s.len() > sinir {
        s.take(sinir as int)
    } else {
        s
    };
    assert(t =~= s.take(ust as int));
    let mut cumle: usize = 0;
    let mut bosluk: usize = 0;
    let mut i: usize = 0;
    while i < ust
        invariant
            i <= ust <= n == hi - lo,
            lo <= hi <= v@.len(),
            s == v@.subrange(lo as int, hi as int),
            cumle == son_cumle(s.take(i as int)),
            bosluk == son_bosluk(s.take(i as int)),
        decreases ust - i,
    {
        let c = v[lo + i];
        assert(s.take(i + 1).drop_last() =~= s.take(i as int));
        assert(s.take(i + 1).last() == c);
        if c == '.' || c == '!' || c == '?' || c == '\n' {
            cumle = i + 1;
        } else if c == ' ' {
            bosluk = i;
        }
        i += 1;
    }
    let asgari = sinir / 4;
    if cumle > asgari {
        cumle
    } else if bosluk > asgari {
        bosluk
    } else {
        ust
    }
}

/// Uzun metni en çok `sinir` karakterlik parçalara böler: önce cümle sınırı, sonra boşluk,
/// o da yoksa tam sınırdan keser; parçalar kırpılır, boş parça çıkmaz.
pub fn bol(metin: &str, sinir: usize) -> (r: Vec<String>)
    requires
        sinir > 0,
    ensures
        r.deep_view() == parcalar(metin@, sinir as nat),
{
    let v = karakterler(metin);
    let n = v.len();
    assert(v@.subrange(0, n as int) =~= v@);
    let (a, hi) = kirp_sinir(&v, 0, n);
    let mut lo = a;
    let mut r: Vec<String> = Vec::new();
    while hi - lo > sinir
        invariant
            a <= lo <= hi <= v@.len(),
            sinir > 0,
            parcalar(metin@, sinir as nat) == r.deep_view() + bol_kalan(
                v@.subrange(lo as int, hi as int),
                sinir as nat,
            ),
        decreases hi - lo,
    {
        let ghost kalan = v@.subrange(lo as int, hi as int);
        let kes = kesim_noktasi(&v, lo, hi, sinir);
        proof {
            lemma_kesim_sinir(kalan, sinir as nat);
        }
        let (b, e) = kirp_sinir(&v, lo, lo + kes);
        let ghost once = r.deep_view();
        assert(kalan.take(kes as int) =~= v@.subrange(lo as int, lo + kes));
        if b < e {
            let p = metin_yap(&v, b, e);
            r.push(p);
            assert(r.deep_view() =~= once.push(v@.subrange(b as int, e as int)));
        } else {
            assert(r.deep_view() =~= once);
        }
        let yeni = sol_sinir(&v, lo + kes, hi);
        assert(kalan.skip(kes as int) =~= v@.subrange(lo + kes, hi as int));
        proof {
            let bas = kirp(kalan.take(kes as int));
            assert(bol_kalan(kalan, sinir as nat) == (if bas.len() > 0 {
                seq![bas]
            } else {
                seq![]
            }) + bol_kalan(v@.subrange(yeni as int, hi as int), sinir as nat));
            if b < e {
                assert(once + bol_kalan(kalan, sinir as nat) =~= r.deep_view() + bol_kalan(
                    v@.subrange(yeni as int, hi as int),
                    sinir as nat,
                ));
            } else {
                assert(once + bol_kalan(kalan, sinir as nat) =~= r.deep_view() + bol_kalan(
                    v@.subrange(yeni as int, hi as int),
                    sinir as nat,
                ));
            }
        }
        lo = yeni;
    }
    let ghost once = r.deep_view();
    if lo < hi {
        let p = metin_yap(&v, lo, hi);
        r.push(p);
        assert(r.deep_view() =~= once.push(v@.subrange(lo as int, hi as int)));
    }
    assert(r.deep_view() =~= parcalar(metin@, sinir as nat));
    r
}


proof fn lemma_kirp_boyu(s: Seq<char>)
    ensures
        kirp(s).len() <= s.len(),
{
    lemma_sol_kirp(s);
    lemma_sag_kirp(sol_kirp(s));
}

proof fn lemma_dolu_ekle(a: Seq<char>, b: Seq<char>)
    ensures
        dolu(a + b) == dolu(a) + dolu(b),
{
    Seq::filter_distributes_over_add(a, b, |c: char| !crate::metin::bosluk_mu(c));
}

proof fn lemma_bol_kalan(kalan: Seq<char>, sinir: nat)
    requires
        sinir > 0,
    ensures
        forall|i: int|
            0 <= i < bol_kalan(kalan, sinir).len() ==> 0 < (#[trigger] bol_kalan(kalan, sinir)[i]).len()
                <= sinir,
        dolu(bol_kalan(kalan, sinir).flatten()) == dolu(kalan),
    decreases kalan.len(),
{
    let r = bol_kalan(kalan, sinir);
    if kalan.len() > sinir {
        let kes = kesim(kalan, sinir);
        lemma_kesim_sinir(kalan, sinir);
        lemma_sol_kirp(kalan.skip(kes as int));
        let bas = kirp(kalan.take(kes as int));
        let geri = sol_kirp(kalan.skip(kes as int));
        lemma_bol_kalan(geri, sinir);
        lemma_kirp_boyu(kalan.take(kes as int));
        let ilk: Seq<Seq<char>> = if bas.len() > 0 {
            seq![bas]
        } else {
            seq![]
        };
        assert(r == ilk + bol_kalan(geri, sinir));
        vstd::seq_lib::lemma_flatten_concat(ilk, bol_kalan(geri, sinir));
        lemma_kirp_dolu(kalan.take(kes as int));
        lemma_sol_kirp_dolu(kalan.skip(kes as int));
        assert(kalan =~= kalan.take(kes as int) + kalan.skip(kes as int));
        lemma_dolu_ekle(kalan.take(kes as int), kalan.skip(kes as int));
        if bas.len() > 0 {
            seq![bas].lemma_flatten_one_element();
            lemma_dolu_ekle(bas, bol_kalan(geri, sinir).flatten());
        } else {
            assert(ilk.flatten() =~= Seq::<char>::empty());
            reveal(Seq::filter);
            assert(dolu(bas) =~= Seq::<char>::empty());
            assert(ilk + bol_kalan(geri, sinir) =~= bol_kalan(geri, sinir));
        }
        assert forall|i: int| 0 <= i < r.len() implies 0 < (#[trigger] r[i]).len() <= sinir by {
            if bas.len() > 0 && i == 0 {
            } else if bas.len() > 0 {
                assert(r[i] == bol_kalan(geri, sinir)[i - 1]);
            } else {
                assert(r[i] == bol_kalan(geri, sinir)[i]);
            }
        }
    } else if kalan.len() > 0 {
        seq![kalan].lemma_flatten_one_element();
    } else {
        reveal(Seq::filter);
    }
}

/// Bölmede hiçbir şey atılmaz: parçaların boşluk olmayan karakterleri, sırasıyla, metnin
/// boşluk olmayan karakterleridir; her parça boş değildir ve en çok `sinir` karakterdir.
pub proof fn bol_kayipsiz(s: Seq<char>, sinir: nat)
    requires
        sinir > 0,
    ensures
        dolu(parcalar(s, sinir).flatten()) == dolu(s),
        forall|i: int|
            0 <= i < parcalar(s, sinir).len() ==> 0 < (#[trigger] parcalar(s, sinir)[i]).len()
                <= sinir,
{
    lemma_bol_kalan(kirp(s), sinir);
    lemma_kirp_dolu(s);
}

/// Kırpılmış kalanın parçaları da kırpılmıştır ve kalanda geçmeyen bir karakter
/// parçalarda da geçmez.
pub proof fn lemma_bol_kalan_kirpik(kalan: Seq<char>, sinir: nat, d: char)
    requires
        sinir > 0,
        kirp(kalan) == kalan,
        gecmez(kalan, d),
    ensures
        forall|i: int|
            0 <= i < bol_kalan(kalan, sinir).len() ==> kirp(#[trigger] bol_kalan(kalan, sinir)[i])
                == bol_kalan(kalan, sinir)[i] && gecmez(bol_kalan(kalan, sinir)[i], d),
    decreases kalan.len(),
{
    let r = bol_kalan(kalan, sinir);
    if kalan.len() > sinir {
        let kes = kesim(kalan, sinir) as int;
        lemma_kesim_sinir(kalan, sinir);
        let on = kalan.take(kes);
        let kuyruk = kalan.skip(kes);
        let bas = kirp(on);
        let geri = sol_kirp(kuyruk);
        assert(gecmez(on, d)) by {
            assert forall|j: int| 0 <= j < on.len() implies on[j] != d by {
                assert(on[j] == kalan[j]);
            }
        }
        assert(gecmez(kuyruk, d)) by {
            assert forall|j: int| 0 <= j < kuyruk.len() implies kuyruk[j] != d by {
                assert(kuyruk[j] == kalan[j + kes]);
            }
        }
        lemma_kirp_gecmez(on, d);
        lemma_kirp_gecmez(kuyruk, d);
        crate::protokol::lemma_kirp_kirp(on);
        lemma_sol_kirp(kuyruk);
        lemma_sol_kirp(kalan);
        lemma_sag_kirp(sol_kirp(kalan));
        assert(!bosluk_mu(kalan.last()));
        if geri.len() > 0 {
            assert(geri.last() == kalan.last()) by {
                assert(geri == kuyruk.skip(kuyruk.len() - geri.len()));
            }
            assert(sol_kirp(geri) == geri);
            assert(sag_kirp(geri) == geri);
        } else {
            assert(kirp(geri) == geri);
        }
        lemma_bol_kalan_kirpik(geri, sinir, d);
        let ilk: Seq<Seq<char>> = if bas.len() > 0 {
            seq![bas]
        } else {
            seq![]
        };
        let geri_r = bol_kalan(geri, sinir);
        assert(r == ilk + geri_r);
        assert forall|i: int| 0 <= i < r.len() implies kirp(#[trigger] r[i]) == r[i] && gecmez(r[i], d) by {
            if i < ilk.len() {
                assert(r[i] == bas);
            } else {
                assert(r[i] == geri_r[i - ilk.len()]);
            }
        }
    } else if kalan.len() > 0 {
        assert(r == seq![kalan]);
        assert forall|i: int| 0 <= i < r.len() implies kirp(#[trigger] r[i]) == r[i] && gecmez(r[i], d) by {
            assert(r[i] == kalan);
        }
    }
}

} // verus!
