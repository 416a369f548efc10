//! Sessiz kalan sohbetlerin ve yorumsuz kalan haberlerin kapanması.
use vstd::prelude::*;
use std::collections::HashMap;
use vstd::std_specs::hash::spec_keys_iter;
use vstd::std_specs::iter::IteratorSpec;
use crate::ayarlar::{SOHBET_ZAMAN_ASIMI, YORUM_SURESI};
use crate::sohbet::{ek_alanlar_ayni, sohbet_bitir, Durum, Sohbet};

verus! {

broadcast use {vstd::string::group_string_axioms, vstd::std_specs::hash::group_hash_axioms};

/// Haritanın anahtarları (sırası belirsiz, tekrarsız).
fn anahtarlar(m: &HashMap<u64, u64>) -> (r: Vec<u64>)
    ensures
        r@.to_set() == m@.dom(),
        r@.no_duplicates(),
{
    let mut r: Vec<u64> = Vec::new();
    for k in it: m.keys()
        invariant
            r@ == it.seq().take(it.index() as int).map_values(|x: &u64| *x),
    {
        r.push(*k);
    }
    proof {
        let ks = spec_keys_iter(m).remaining();
        assert(r@ =~= ks.unref());
    }
    r
}

/// Tekrarsız diziden süzülen de tekrarsızdır; süzülen her eleman dizidedir ve koşulu sağlar.
proof fn lemma_suzgec(s: Seq<u64>, p: spec_fn(u64) -> bool)
    requires
        s.no_duplicates(),
    ensures
        s.filter(p).no_duplicates(),
        forall|x: u64| #[trigger] s.filter(p).contains(x) ==> s.contains(x) && p(x),
    decreases s.len(),
{
    reveal(Seq::filter);
    if s.len() > 0 {
        let t = s.drop_last();
        assert(t.no_duplicates()) by {
            assert forall|i: int, j: int| 0 <= i < t.len() && 0 <= j < t.len() && i != j implies t[i] != t[j] by {
                assert(t[i] == s[i] && t[j] == s[j]);
            }
        }
        lemma_suzgec(t, p);
        let f = t.filter(p);
        let son = s.last();
        assert(!t.contains(son)) by {
            if t.contains(son) {
                let i = choose|i: int| 0 <= i < t.len() && t[i] == son;
                assert(s[i] == s[s.len() - 1]);
            }
        }
        if p(son) {
            let g = f.push(son);
            assert(s.filter(p) == g);
            assert forall|i: int, j: int| 0 <= i < g.len() && 0 <= j < g.len() && i != j implies g[i] != g[j] by {
                if i < f.len() && j < f.len() {
                } else if i == f.len() {
                    assert(f.contains(f[j]));
                } else {
                    assert(f.contains(f[i]));
                }
            }
            assert forall|x: u64| #[trigger] g.contains(x) implies s.contains(x) && p(x) by {
                if x != son {
                    let i = choose|i: int| 0 <= i < g.len() && g[i] == x;
                    assert(f.contains(g[i]));
                    assert(t.contains(x));
                    let k = choose|k: int| 0 <= k < t.len() && t[k] == x;
                    assert(s[k] == x);
                } else {
                    assert(s[s.len() - 1] == x);
                }
            }
        } else {
            assert(s.filter(p) == f);
            assert forall|x: u64| #[trigger] f.contains(x) implies s.contains(x) && p(x) by {
                let k = choose|k: int| 0 <= k < t.len() && t[k] == x;
                assert(s[k] == x);
            }
        }
    }
}

/// Açık sohbeti olan kanalların etkinlik kayıtları.
pub open spec fn acik_aktivite(d: Durum) -> Map<u64, u64> {
    d.son_aktivite@.restrict(d.sohbetler@.dom())
}

/// Zaman aşımına uğrayan sohbetler: cevap üretilmiyor ve son etkinlikten beri süre doldu.
pub open spec fn kapanacaklar(d: Durum, simdi: u64) -> Set<u64> {
    Set::new(
        |k: u64|
            acik_aktivite(d).contains_key(k) && !d.mesgul@.contains(k) && acik_aktivite(d)[k]
                + SOHBET_ZAMAN_ASIMI <= simdi,
    )
}

/// Yorum süresi dolan haberler: beklenen an geçti ve pencere boyunca etkinlik yok.
pub open spec fn yorumsuz_haberler(bekleyen: Map<u64, u64>, aktivite: Map<u64, u64>, simdi: u64) -> Set<u64> {
    Set::new(
        |k: u64|
            bekleyen.contains_key(k) && bekleyen[k] <= simdi && (!aktivite.contains_key(k)
                || aktivite[k] + YORUM_SURESI <= simdi),
    )
}

/// Zaman aşımı turu: açık sohbeti kalmayan etkinlik kayıtları temizlenir; süresi dolan
/// sohbetler kapanır (kapananlar kanalıyla döner, sırası belirsiz); yorum süresi dolan
/// haber sohbetleri sessizce kapanır.
pub fn zaman_asimi_kapat(d: &mut Durum, simdi: u64) -> (r: Vec<(u64, Sohbet)>)
    ensures
        ({
            let k = kapanacaklar(*old(d), simdi);
            let sohbet1 = old(d).sohbetler@.remove_keys(k);
            let haber1 = old(d).haber_bekleyen@.remove_keys(k);
            let akt1 = acik_aktivite(*old(d)).remove_keys(k);
            let h = yorumsuz_haberler(haber1, akt1, simdi);
            &&& final(d).sohbetler@ == sohbet1.remove_keys(h)
            &&& final(d).haber_bekleyen@ == haber1.remove_keys(h)
            &&& final(d).son_aktivite@ == akt1.remove_keys(h)
            &&& r@.map_values(|p: (u64, Sohbet)| p.0).to_set() == k
            &&& r@.map_values(|p: (u64, Sohbet)| p.0).no_duplicates()
            &&& forall|i: int| 0 <= i < r@.len() ==> (#[trigger] r@[i]).1 == old(d).sohbetler@[r@[i].0]
        }),
        final(d).kanal_gecmisi@ == old(d).kanal_gecmisi@,
        final(d).hafiza@ == old(d).hafiza@,
        final(d).bot_adi == old(d).bot_adi,
        final(d).son_kanal == old(d).son_kanal,
        ek_alanlar_ayni(*final(d), *old(d)),
{
    let ghost d0 = *d;
    // 1. açık sohbeti olmayan etkinlik kayıtları düşer
    let ks = anahtarlar(&d.son_aktivite);
    let mut akt: HashMap<u64, u64> = HashMap::new();
    let mut i: usize = 0;
    while i < ks.len()
        invariant
            i <= ks@.len(),
            ks@.to_set() == d0.son_aktivite@.dom(),
            ks@.no_duplicates(),
            *d == d0,
            akt@ == d0.son_aktivite@.restrict(ks@.take(i as int).to_set().intersect(d0.sohbetler@.dom())),
        decreases ks@.len() - i,
    {
        let k = ks[i];
        assert(ks@.take(i + 1).to_set() =~= ks@.take(i as int).to_set().insert(k)) by {
            assert(ks@.take(i + 1) =~= ks@.take(i as int).push(k));
            ks@.take(i as int).lemma_push_to_set_commute(k);
        }
        assert(d0.son_aktivite@.contains_key(k)) by {
            assert(ks@.to_set().contains(k));
        }
        if d.sohbetler.contains_key(&k) {
            let t = *d.son_aktivite.get(&k).unwrap();
            akt.insert(k, t);
        }
        assert(akt@ =~= d0.son_aktivite@.restrict(ks@.take(i + 1).to_set().intersect(d0.sohbetler@.dom())));
        i += 1;
    }
    assert(ks@.take(i as int) =~= ks@);
    assert(akt@ =~= acik_aktivite(d0));
    d.son_aktivite = akt;
    // 2. süresi dolanlar
    let ghost kapanacak_kume = kapanacaklar(d0, simdi);
    let ks2 = anahtarlar(&d.son_aktivite);
    let mut kapanacak: Vec<u64> = Vec::new();
    let mut j: usize = 0;
    while j < ks2.len()
        invariant
            j <= ks2@.len(),
            ks2@.to_set() == acik_aktivite(d0).dom(),
            ks2@.no_duplicates(),
            d.son_aktivite@ == acik_aktivite(d0),
            d.mesgul@ == d0.mesgul@,
            kapanacak_kume == kapanacaklar(d0, simdi),
            kapanacak@ == ks2@.take(j as int).filter(|k: u64| kapanacak_kume.contains(k)),
        decreases ks2@.len() - j,
    {
        let k = ks2[j];
        assert(ks2@.to_set().contains(k));
        proof {
            assert(ks2@.take(j + 1) =~= ks2@.take(j as int).push(k));
            ks2@.take(j as int).lemma_filter_push(k, |k: u64| kapanacak_kume.contains(k));
        }
        let t = *d.son_aktivite.get(&k).unwrap();
        if !d.mesgul.contains(&k) && t <= simdi && simdi - t >= SOHBET_ZAMAN_ASIMI {
            kapanacak.push(k);
        }
        j += 1;
    }
    assert(ks2@.take(j as int) =~= ks2@);
    proof {
        let p = |k: u64| kapanacak_kume.contains(k);
        lemma_suzgec(ks2@, p);
        assert(kapanacak@.to_set() =~= kapanacak_kume) by {
            assert forall|k: u64| kapanacak@.to_set().contains(k) <==> kapanacak_kume.contains(k) by {
                if kapanacak_kume.contains(k) {
                    assert(ks2@.to_set().contains(k));
                    let i = choose|i: int| 0 <= i < ks2@.len() && ks2@[i] == k;
                    ks2@.lemma_filter_contains(p, i);
                }
                if kapanacak@.to_set().contains(k) {
                    assert(kapanacak@.contains(k));
                }
            }
        }
    }
    // 3. kapat
    let mut kapananlar: Vec<(u64, Sohbet)> = Vec::new();
    let mut x: usize = 0;
    while x < kapanacak.len()
        invariant
            x <= kapanacak@.len(),
            kapanacak@.to_set() == kapanacak_kume,
            kapanacak@.no_duplicates(),
            kapanacak_kume == kapanacaklar(d0, simdi),
            ({
                let islenen = kapanacak@.take(x as int).to_set();
                &&& d.sohbetler@ == d0.sohbetler@.remove_keys(islenen)
                &&& d.haber_bekleyen@ == d0.haber_bekleyen@.remove_keys(islenen)
                &&& d.son_aktivite@ == acik_aktivite(d0).remove_keys(islenen)
                &&& kapananlar@.map_values(|p: (u64, Sohbet)| p.0) == kapanacak@.take(x as int)
            }),
            forall|i: int| 0 <= i < kapananlar@.len() ==> (#[trigger] kapananlar@[i]).1 == d0.sohbetler@[kapananlar@[i].0],
            d.kanal_gecmisi@ == d0.kanal_gecmisi@,
            d.hafiza@ == d0.hafiza@,
            d.bot_adi == d0.bot_adi,
            d.son_kanal == d0.son_kanal,
            ek_alanlar_ayni(*d, d0),
        decreases kapanacak@.len() - x,
    {
        let k = kapanacak[x];
        let ghost islenen = kapanacak@.take(x as int).to_set();
        proof {
            assert(kapanacak@.take(x + 1) =~= kapanacak@.take(x as int).push(k));
            kapanacak@.take(x as int).lemma_push_to_set_commute(k);
            assert(!islenen.contains(k)) by {
                if islenen.contains(k) {
                    let y = choose|y: int| 0 <= y < x && kapanacak@[y] == k;
                    assert(kapanacak@[y] == kapanacak@[x as int]);
                }
            }
            assert(kapanacak@.to_set().contains(k));
            assert(acik_aktivite(d0).contains_key(k));
            assert(d0.sohbetler@.contains_key(k));
        }
        let s = sohbet_bitir(d, k).unwrap();
        let _ = d.son_aktivite.remove(&k);
        let ghost once = kapananlar@;
        kapananlar.push((k, s));
        proof {
            assert(kapananlar@.map_values(|p: (u64, Sohbet)| p.0) =~= once.map_values(|p: (u64, Sohbet)| p.0).push(k));
            let sonra = islenen.insert(k);
            assert(d.sohbetler@ =~= d0.sohbetler@.remove_keys(sonra));
            assert(d.haber_bekleyen@ =~= d0.haber_bekleyen@.remove_keys(sonra));
            assert(d.son_aktivite@ =~= acik_aktivite(d0).remove_keys(sonra));
        }
        x += 1;
    }
    assert(kapanacak@.take(x as int) =~= kapanacak@);
    // 4. yorumsuz haberler
    let ghost haber1 = d.haber_bekleyen@;
    let ghost akt1 = d.son_aktivite@;
    let ghost h_kume = yorumsuz_haberler(haber1, akt1, simdi);
    let ks3 = anahtarlar(&d.haber_bekleyen);
    let mut dolan: Vec<u64> = Vec::new();
    let mut y: usize = 0;
    while y < ks3.len()
        invariant
            y <= ks3@.len(),
            ks3@.to_set() == haber1.dom(),
            ks3@.no_duplicates(),
            d.haber_bekleyen@ == haber1,
            d.son_aktivite@ == akt1,
            h_kume == yorumsuz_haberler(haber1, akt1, simdi),
            dolan@ == ks3@.take(y as int).filter(|k: u64| h_kume.contains(k)),
        decreases ks3@.len() - y,
    {
        let k = ks3[y];
        assert(ks3@.to_set().contains(k));
        proof {
            assert(ks3@.take(y + 1) =~= ks3@.take(y as int).push(k));
            ks3@.take(y as int).lemma_filter_push(k, |k: u64| h_kume.contains(k));
        }
        let t = *d.haber_bekleyen.get(&k).unwrap();
        let sessiz = match d.son_aktivite.get(&k) {
            None => true,
            Some(a) => *a <= simdi && simdi - *a >= YORUM_SURESI,
        };
        if t <= simdi && sessiz {
            dolan.push(k);
        }
        y += 1;
    }
    assert(ks3@.take(y as int) =~= ks3@);
    proof {
        let p = |k: u64| h_kume.contains(k);
        lemma_suzgec(ks3@, p);
        assert(dolan@.to_set() =~= h_kume) by {
            assert forall|k: u64| dolan@.to_set().contains(k) <==> h_kume.contains(k) by {
                if h_kume.contains(k) {
                    assert(ks3@.to_set().contains(k));
                    let i = choose|i: int| 0 <= i < ks3@.len() && ks3@[i] == k;
                    ks3@.lemma_filter_contains(p, i);
                }
                if dolan@.to_set().contains(k) {
                    assert(dolan@.contains(k));
                }
            }
        }
    }
    let ghost sohbet1 = d.sohbetler@;
    let mut z: usize = 0;
    while z < dolan.len()
        invariant
            z <= dolan@.len(),
            dolan@.to_set() == h_kume,
            d.haber_bekleyen@ == haber1.remove_keys(dolan@.take(z as int).to_set()),
            d.sohbetler@ == sohbet1.remove_keys(dolan@.take(z as int).to_set()),
            d.son_aktivite@ == akt1.remove_keys(dolan@.take(z as int).to_set()),
            d.kanal_gecmisi@ == d0.kanal_gecmisi@,
            d.hafiza@ == d0.hafiza@,
            d.bot_adi == d0.bot_adi,
            d.son_kanal == d0.son_kanal,
            ek_alanlar_ayni(*d, d0),
        decreases dolan@.len() - z,
    {
        let k = dolan[z];
        proof {
            assert(dolan@.take(z + 1) =~= dolan@.take(z as int).push(k));
            dolan@.take(z as int).lemma_push_to_set_commute(k);
        }
        let _ = d.haber_bekleyen.remove(&k);
        let _ = d.sohbetler.remove(&k);
        let _ = d.son_aktivite.remove(&k);
        proof {
            let sonra = dolan@.take(z as int).to_set().insert(k);
            assert(d.haber_bekleyen@ =~= haber1.remove_keys(sonra));
            assert(d.sohbetler@ =~= sohbet1.remove_keys(sonra));
            assert(d.son_aktivite@ =~= akt1.remove_keys(sonra));
        }
        z += 1;
    }
    assert(dolan@.take(z as int) =~= dolan@);
    kapananlar
}

} // verus!
