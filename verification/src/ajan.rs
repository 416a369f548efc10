//! Arka plan ajanlarının kararları: haber adayları ve seçimi, gezginin seçtiği başlıklar,
//! gündem defteri, kanaatlerin sınırları, görsel şakasının görseli.
use vstd::prelude::*;
use std::collections::HashSet;
use base64::Engine;
use crate::gundem::{link_id, link_kimligi, RssNews};
use crate::metin::{ayni_dizi, birlestir, karakterler, metne};
use crate::yardimci::{
    birlestirilmis, ekle, ekle_metin, kucuk_harf_metni, kucuk_harfe_cevir, ondalik, ondalik_yaz_u64,
};

verus! {

broadcast use {vstd::string::group_string_axioms, vstd::std_specs::hash::group_hash_axioms};

// ---------- haber ----------

/// Hacker News'ten seçilebilecek bir haber.
pub struct Haber {
    pub id: u64,
    pub title: String,
    pub url: String,
    pub score: i64,
}

/// Aday haber (Hacker News ya da gündem); kaynağı "hn" ya da "gündem".
pub struct News {
    pub id: u64,
    pub title: String,
    pub url: String,
    pub score: i64,
    pub source: &'static str,
}

/// Daha önce atılmamış ilk `sinir` kimlik.
pub open spec fn aday_kimlikler_spec(idler: Seq<u64>, atilan: Set<u64>, sinir: nat) -> Seq<u64> {
    let f = idler.filter(|id: u64| !atilan.contains(id));
    if f.len() > sinir {
        f.take(sinir as int)
    } else {
        f
    }
}

pub fn aday_kimlikler(idler: &Vec<u64>, atilan: &HashSet<u64>, sinir: usize) -> (r: Vec<u64>)
    ensures
        r@ == aday_kimlikler_spec(idler@, atilan@, sinir as nat),
{
    let ghost p = |id: u64| !atilan@.contains(id);
    let mut r: Vec<u64> = Vec::new();
    let mut i: usize = 0;
    while i < idler.len() && r.len() < sinir
        invariant
            i <= idler@.len(),
            p == (|id: u64| !atilan@.contains(id)),
            r@ == idler@.take(i as int).filter(p),
            r@.len() <= sinir,
        decreases idler@.len() - i,
    {
        let id = idler[i];
        proof {
            assert(idler@.take(i + 1) =~= idler@.take(i as int).push(id));
            idler@.take(i as int).lemma_filter_push(id, p);
        }
        if !atilan.contains(&id) {
            r.push(id);
        }
        i += 1;
    }
    proof {
        let f = idler@.filter(p);
        assert(idler@ =~= idler@.take(i as int) + idler@.skip(i as int));
        Seq::filter_distributes_over_add(idler@.take(i as int), idler@.skip(i as int), p);
        assert(f == r@ + idler@.skip(i as int).filter(p));
        if r@.len() == sinir {
            assert(f.take(sinir as int) =~= r@);
        } else {
            assert(idler@.skip(i as int) =~= Seq::<u64>::empty());
            assert(idler@.skip(i as int).filter(p) =~= Seq::<u64>::empty()) by {
                reveal(Seq::filter);
            }
            assert(f =~= r@);
        }
    }
    r
}

/// İşaretli sayının ondalık yazılışı.
pub open spec fn isaretli(n: i64) -> Seq<char> {
    if n < 0 {
        seq!['-'] + ondalik((-(n as int)) as nat)
    } else {
        ondalik(n as nat)
    }
}

fn isaretli_yaz(n: i64) -> (r: Vec<char>)
    ensures
        r@ == isaretli(n),
{
    if n < 0 {
        let m: u64 = (-(n as i128)) as u64;
        let mut v = vec!['-'];
        let s = ondalik_yaz_u64(m);
        ekle(&mut v, &s);
        v
    } else {
        ondalik_yaz_u64(n as u64)
    }
}

/// Modele gösterilen haber listesi: her satır "sıra. başlık (puan puan)".
pub open spec fn haber_listesi_spec(hs: Seq<(Seq<char>, i64)>) -> Seq<char>
    decreases hs.len(),
{
    if hs.len() == 0 {
        seq![]
    } else {
        haber_listesi_spec(hs.drop_last()) + ondalik((hs.len() - 1) as nat) + ". "@ + hs.last().0 + " ("@
            + isaretli(hs.last().1) + " puan)\n"@
    }
}

pub fn haber_listesi(haberler: &Vec<Haber>) -> (r: String)
    ensures
        r@ == haber_listesi_spec(haberler@.map_values(|h: Haber| (h.title@, h.score))),
{
    let ghost hv = haberler@.map_values(|h: Haber| (h.title@, h.score));
    let mut v: Vec<char> = Vec::new();
    let mut i: usize = 0;
    while i < haberler.len()
        invariant
            i <= haberler@.len(),
            hv == haberler@.map_values(|h: Haber| (h.title@, h.score)),
            v@ == haber_listesi_spec(hv.take(i as int)),
        decreases haberler@.len() - i,
    {
        assert(hv.take(i + 1).drop_last() =~= hv.take(i as int));
        assert(hv.take(i + 1).last() == hv[i as int]);
        let s = crate::yardimci::ondalik_yaz(i);
        ekle(&mut v, &s);
        ekle_metin(&mut v, ". ");
        ekle_metin(&mut v, haberler[i].title.as_str());
        ekle_metin(&mut v, " (");
        let p = isaretli_yaz(haberler[i].score);
        ekle(&mut v, &p);
        ekle_metin(&mut v, " puan)\n");
        i += 1;
    }
    assert(hv.take(i as int) =~= hv);
    metne(&v)
}

/// Modelin seçimi: cevaptaki bütün rakamlar birleştirilip sayı okunur; okunamazsa ya da
/// listede yoksa ilk haber.
pub open spec fn rakamlari(s: Seq<char>) -> Seq<char> {
    s.filter(|c: char| '0' <= c <= '9')
}

pub open spec fn secim_spec(secim: Seq<char>, n: usize) -> usize {
    match crate::kurulum::sayi_spec(rakamlari(secim)) {
        Some(k) => if k < n {
            k as usize
        } else {
            0
        },
        None => 0,
    }
}

pub fn secim_numarasi(secim: &str, n: usize) -> (r: usize)
    ensures
        r == secim_spec(secim@, n),
{
    let v = karakterler(secim);
    let ghost p = |c: char| '0' <= c <= '9';
    let mut d: Vec<char> = Vec::new();
    let mut i: usize = 0;
    while i < v.len()
        invariant
            i <= v@.len(),
            p == (|c: char| '0' <= c <= '9'),
            d@ == v@.take(i as int).filter(p),
        decreases v@.len() - i,
    {
        proof {
            assert(v@.take(i + 1) =~= v@.take(i as int).push(v@[i as int]));
            v@.take(i as int).lemma_filter_push(v@[i as int], p);
        }
        if '0' <= v[i] && v[i] <= '9' {
            d.push(v[i]);
        }
        i += 1;
    }
    assert(v@.take(i as int) =~= v@);
    assert(d@.subrange(0, d@.len() as int) =~= d@);
    match crate::kurulum::sayi_coz(&d, 0, d.len()) {
        Some(k) => if k < n as u64 {
            k as usize
        } else {
            0
        },
        None => 0,
    }
}

/// Adayın görünümü: kimlik, başlık, adres, puan, kaynak.
pub open spec fn haber_modeli(n: News) -> (u64, Seq<char>, Seq<char>, i64, Seq<char>) {
    (n.id, n.title@, n.url@, n.score, n.source@)
}

/// Gündem başlığından aday: kimliği bağlantıdan, puanı sıfır, kaynağı "gündem".
pub open spec fn gundem_haberi(a: RssNews) -> (u64, Seq<char>, Seq<char>, i64, Seq<char>) {
    (link_kimligi(a.link@), a.title@, a.link@, 0, "gündem"@)
}

/// İlk on iki başlıktan, kimliği daha önce atılmamış olanlar, sırasıyla.
pub open spec fn gundem_adaylari_spec(rss: Seq<RssNews>, atilan: Set<u64>) -> Seq<
    (u64, Seq<char>, Seq<char>, i64, Seq<char>),
> {
    let ilk = if rss.len() > 12 {
        rss.take(12)
    } else {
        rss
    };
    ilk.map_values(|a: RssNews| gundem_haberi(a)).filter(
        |h: (u64, Seq<char>, Seq<char>, i64, Seq<char>)| !atilan.contains(h.0),
    )
}

/// Gündem adayları: ilk on iki başlıktan daha önce atılmamış olanlar, bağlantının
/// kimliğiyle.
pub fn gundem_adaylari(rss: &Vec<RssNews>, atilan: &HashSet<u64>) -> (r: Vec<News>)
    ensures
        r@.map_values(|n: News| haber_modeli(n)) == gundem_adaylari_spec(rss@, atilan@),
{
    let ghost n = if rss@.len() > 12 {
        12
    } else {
        rss@.len()
    };
    let ghost ilk = if rss@.len() > 12 {
        rss@.take(12)
    } else {
        rss@
    };
    let ghost g = |a: RssNews| gundem_haberi(a);
    let ghost p = |h: (u64, Seq<char>, Seq<char>, i64, Seq<char>)| !atilan@.contains(h.0);
    let mut r: Vec<News> = Vec::new();
    let mut i: usize = 0;
    while i < rss.len() && i < 12
        invariant
            i <= n,
            n == (if rss@.len() > 12 { 12 } else { rss@.len() }),
            ilk == (if rss@.len() > 12 { rss@.take(12) } else { rss@ }),
            ilk.len() == n,
            g == (|a: RssNews| gundem_haberi(a)),
            p == (|h: (u64, Seq<char>, Seq<char>, i64, Seq<char>)| !atilan@.contains(h.0)),
            r@.map_values(|n: News| haber_modeli(n)) == ilk.take(i as int).map_values(g).filter(p),
        decreases rss@.len() - i,
    {
        let a = &rss[i];
        assert(ilk[i as int] == rss@[i as int]);
        let id = link_id(a.link.as_str());
        let ghost h = g(rss@[i as int]);
        assert(h.0 == id);
        proof {
            assert(ilk.take(i + 1).map_values(g) =~= ilk.take(i as int).map_values(g).push(h));
            ilk.take(i as int).map_values(g).lemma_filter_push(h, p);
        }
        if !atilan.contains(&id) {
            let haber = News { id, title: a.title.clone(), url: a.link.clone(), score: 0, source: "gündem" };
            let ghost r0 = r@.map_values(|n: News| haber_modeli(n));
            r.push(haber);
            assert(r@.map_values(|n: News| haber_modeli(n)) =~= r0.push(h));
        }
        i += 1;
    }
    assert(ilk.take(i as int) =~= ilk);
    r
}

/// Hacker News'ten okunan haber aday olur: başlığı boşsa atlanır, kaynağı "hn".
pub fn hn_adayi(h: Haber) -> (r: Option<News>)
    ensures
        match r {
            None => h.title@.len() == 0,
            Some(n) => h.title@.len() > 0 && n.id == h.id && n.title@ == h.title@ && n.url@ == h.url@
                && n.score == h.score && n.source@ == "hn"@,
        },
{
    if h.title.as_str().unicode_len() == 0 {
        return None;
    }
    Some(News { id: h.id, title: h.title, url: h.url, score: h.score, source: "hn" })
}

/// Haber adaylarının listesi: "sıra. [kaynak] başlık", satır satır.
pub open spec fn aday_listesi_spec(hs: Seq<(Seq<char>, Seq<char>)>) -> Seq<char> {
    birlestir(
        Seq::new(hs.len(), |i: int| ondalik(i as nat) + ". ["@ + hs[i].0 + "] "@ + hs[i].1),
        seq!['\n'],
    )
}

pub fn aday_listesi(adaylar: &Vec<News>) -> (r: String)
    ensures
        r@ == aday_listesi_spec(adaylar@.map_values(|n: News| (n.source@, n.title@))),
{
    let ghost hv = adaylar@.map_values(|n: News| (n.source@, n.title@));
    let ghost hepsi = Seq::new(hv.len(), |i: int| ondalik(i as nat) + ". ["@ + hv[i].0 + "] "@ + hv[i].1);
    let mut satirlar: Vec<String> = Vec::new();
    let mut i: usize = 0;
    while i < adaylar.len()
        invariant
            i <= adaylar@.len(),
            hv == adaylar@.map_values(|n: News| (n.source@, n.title@)),
            hepsi == Seq::new(hv.len(), |i: int| ondalik(i as nat) + ". ["@ + hv[i].0 + "] "@ + hv[i].1),
            satirlar.deep_view() == hepsi.take(i as int),
        decreases adaylar@.len() - i,
    {
        let mut v: Vec<char> = Vec::new();
        let s = crate::yardimci::ondalik_yaz(i);
        ekle(&mut v, &s);
        ekle_metin(&mut v, ". [");
        ekle_metin(&mut v, adaylar[i].source);
        ekle_metin(&mut v, "] ");
        ekle_metin(&mut v, adaylar[i].title.as_str());
        let ghost s0 = satirlar.deep_view();
        assert(hv[i as int] == (adaylar@[i as int].source@, adaylar@[i as int].title@));
        assert(v@ == hepsi[i as int]);
        satirlar.push(metne(&v));
        assert(satirlar.deep_view() =~= s0.push(hepsi[i as int]));
        assert(hepsi.take(i + 1) =~= hepsi.take(i as int).push(hepsi[i as int]));
        i += 1;
    }
    assert(hepsi.take(i as int) =~= hepsi);
    assert("\n"@ =~= seq!['\n']) by {
        reveal_strlit("\n");
    }
    birlestirilmis(&satirlar, "\n")
}

// ---------- gezgin ----------

/// Rakam olmayan karakterlerden bölünmüş parçalar.
pub open spec fn rakam_parcalari(s: Seq<char>) -> Seq<Seq<char>>
    decreases s.len(),
{
    if s.len() == 0 {
        seq![seq![]]
    } else {
        let onceki = rakam_parcalari(s.drop_last());
        let c = s.last();
        if '0' <= c <= '9' {
            onceki.update(onceki.len() - 1, onceki.last().push(c))
        } else {
            onceki.push(seq![])
        }
    }
}

proof fn lemma_rakam_parcalari(s: Seq<char>)
    ensures
        rakam_parcalari(s).len() >= 1,
    decreases s.len(),
{
    if s.len() > 0 {
        lemma_rakam_parcalari(s.drop_last());
    }
}

/// Gezginin seçtiği başlıklar: sayılar okunur, listedekiler (en çok yirmi) alınır, ilk üçü.
pub open spec fn gezgin_secimi_spec(secim: Seq<char>, n: nat) -> Seq<usize> {
    let sinir = if n < 20 {
        n
    } else {
        20
    };
    let sayilar = rakam_parcalari(secim).filter(
        |p: Seq<char>| crate::kurulum::sayi_spec(p) matches Some(k) && k < sinir,
    ).map_values(|p: Seq<char>| crate::kurulum::sayi_spec(p)->0 as usize);
    if sayilar.len() > 3 {
        sayilar.take(3)
    } else {
        sayilar
    }
}

pub fn gezgin_secimi(secim: &str, n: usize) -> (r: Vec<usize>)
    ensures
        r@ == gezgin_secimi_spec(secim@, n as nat),
{
    let v = karakterler(secim);
    // parçaları kur
    let mut parcalar: Vec<Vec<char>> = Vec::new();
    parcalar.push(Vec::new());
    let mut i: usize = 0;
    assert(v@.take(0) =~= Seq::<char>::empty());
    assert(parcalar@.map_values(|p: Vec<char>| p@) =~= rakam_parcalari(v@.take(0)));
    while i < v.len()
        invariant
            i <= v@.len(),
            parcalar@.map_values(|p: Vec<char>| p@) == rakam_parcalari(v@.take(i as int)),
            parcalar@.len() >= 1,
        decreases v@.len() - i,
    {
        let c = v[i];
        assert(v@.take(i + 1).drop_last() =~= v@.take(i as int));
        assert(v@.take(i + 1).last() == c);
        let ghost once = parcalar@.map_values(|p: Vec<char>| p@);
        if '0' <= c && c <= '9' {
            let son = parcalar.len() - 1;
            let mut p = parcalar.pop().unwrap();
            p.push(c);
            parcalar.push(p);
            assert(parcalar@.map_values(|p: Vec<char>| p@) =~= once.update(once.len() - 1, once.last().push(c)));
        } else {
            parcalar.push(Vec::new());
            assert(parcalar@.map_values(|p: Vec<char>| p@) =~= once.push(seq![]));
        }
        i += 1;
    }
    assert(v@.take(i as int) =~= v@);
    let sinir: u64 = if n < 20 {
        n as u64
    } else {
        20
    };
    let ghost ps = parcalar@.map_values(|p: Vec<char>| p@);
    let ghost q = |p: Seq<char>| crate::kurulum::sayi_spec(p) matches Some(k) && k < sinir;
    let ghost f = |p: Seq<char>| crate::kurulum::sayi_spec(p)->0 as usize;
    let mut r: Vec<usize> = Vec::new();
    let mut j: usize = 0;
    while j < parcalar.len() && r.len() < 3
        invariant
            j <= parcalar@.len(),
            ps == parcalar@.map_values(|p: Vec<char>| p@),
            q == (|p: Seq<char>| crate::kurulum::sayi_spec(p) matches Some(k) && k < sinir),
            f == (|p: Seq<char>| crate::kurulum::sayi_spec(p)->0 as usize),
            sinir <= 20,
            r@ == ps.take(j as int).filter(q).map_values(f),
            r@.len() <= 3,
        decreases parcalar@.len() - j,
    {
        proof {
            assert(ps.take(j + 1) =~= ps.take(j as int).push(ps[j as int]));
            ps.take(j as int).lemma_filter_push(ps[j as int], q);
        }
        let pj = &parcalar[j];
        assert(pj@.subrange(0, pj@.len() as int) =~= pj@);
        match crate::kurulum::sayi_coz(pj, 0, pj.len()) {
            Some(k) => {
                if k < sinir {
                    let ghost r0 = r@;
                    r.push(k as usize);
                    assert(r@ =~= r0.push(f(ps[j as int])));
                    assert(ps.take(j as int).filter(q).push(ps[j as int]).map_values(f) =~= ps.take(
                        j as int,
                    ).filter(q).map_values(f).push(f(ps[j as int])));
                }
            },
            None => {},
        }
        j += 1;
    }
    proof {
        let hepsi = ps.filter(q).map_values(f);
        assert(ps =~= ps.take(j as int) + ps.skip(j as int));
        Seq::filter_distributes_over_add(ps.take(j as int), ps.skip(j as int), q);
        assert(ps.filter(q) == ps.take(j as int).filter(q) + ps.skip(j as int).filter(q));
        assert(hepsi =~= r@ + ps.skip(j as int).filter(q).map_values(f));
        if r@.len() == 3 {
            assert(hepsi.take(3) =~= r@);
        } else {
            assert(ps.skip(j as int) =~= Seq::<Seq<char>>::empty());
            assert(ps.skip(j as int).filter(q) =~= Seq::<Seq<char>>::empty()) by {
                reveal(Seq::filter);
            }
            assert(hepsi =~= r@);
        }
        assert(rakam_parcalari(secim@) == ps);
    }
    r
}

/// Gündem defterine yeni not eklenir; sınırı aşarsa en eskiler arşive çıkar.
pub fn gundem_guncelle(girdiler: Vec<String>, yeni: String, sinir: usize) -> (r: (Vec<String>, Vec<String>))
    requires
        sinir > 0,
    ensures
        ({
            let e = girdiler.deep_view().push(yeni@);
            let atilan = if e.len() > sinir {
                e.len() - sinir
            } else {
                0
            };
            &&& r.0.deep_view() == e.skip(atilan)
            &&& r.1.deep_view() == e.take(atilan)
        }),
{
    let mut liste = girdiler;
    let ghost e = liste.deep_view().push(yeni@);
    liste.push(yeni);
    assert(liste.deep_view() =~= e);
    let mut arsiv: Vec<String> = Vec::new();
    let ghost mut k: int = 0;
    assert(e.skip(0) =~= e);
    while liste.len() > sinir
        invariant
            sinir > 0,
            0 <= k <= e.len(),
            liste.deep_view() == e.skip(k),
            arsiv.deep_view() == e.take(k),
            k == 0 || liste@.len() >= sinir,
        decreases liste@.len(),
    {
        let ghost l0 = liste.deep_view();
        let ghost lv = liste@;
        assert(l0.len() > 0);
        assert(l0[0] == lv[0]@);
        assert(l0[0] == e[k]);
        let ilk = liste.remove(0);
        assert(ilk@ == e[k]);
        assert(liste.deep_view() =~= l0.drop_first());
        let ghost a0 = arsiv.deep_view();
        arsiv.push(ilk);
        assert(e.take(k + 1) =~= e.take(k).push(e[k]));
        assert(arsiv.deep_view() =~= e.take(k + 1));
        assert(liste.deep_view() =~= e.skip(k + 1));
        proof {
            k = k + 1;
        }
    }
    (liste, arsiv)
}

// ---------- kanaatler ----------

/// Botun bir kişi hakkındaki kanaati.
pub struct Kanaat {
    pub isim: String,
    pub puan: i32,
    pub not: String,
}

/// Model ne derse desin sınırlar: puanlar -10 ile 10 arasına çekilir, en çok otuz kişi
/// kalır; favori kişi varsa listeden çıkarılıp başa en yüksek puan ve sabit notla girer.
pub fn kanaatleri_duzenle(ks: &mut Vec<Kanaat>, favori: Option<&str>, favori_notu: &str)
    ensures
        ({
            let sinirli = old(ks)@.map_values(|k: Kanaat| (k.isim@, crate::gunluk::sinirla(k.puan as int, -10, 10), k.not@));
            let ilk30 = if sinirli.len() > 30 {
                sinirli.take(30)
            } else {
                sinirli
            };
            let sonuc = final(ks)@.map_values(|k: Kanaat| (k.isim@, k.puan as int, k.not@));
            match favori {
                None => sonuc == ilk30,
                Some(f) => sonuc == seq![(f@, 10int, favori_notu@)] + ilk30.filter(
                    |k: (Seq<char>, int, Seq<char>)| k.0 != f@,
                ),
            }
        }),
{
    let ghost f = |k: Kanaat| (k.isim@, crate::gunluk::sinirla(k.puan as int, -10, 10), k.not@);
    let ghost g = |k: Kanaat| (k.isim@, k.puan as int, k.not@);
    let ghost sinirli = ks@.map_values(f);
    let n = ks.len();
    let mut yeni: Vec<Kanaat> = Vec::new();
    let mut i: usize = 0;
    let ust: usize = if n > 30 {
        30
    } else {
        n
    };
    let ghost ilk30 = if sinirli.len() > 30 {
        sinirli.take(30)
    } else {
        sinirli
    };
    let ghost p = |k: (Seq<char>, int, Seq<char>)| match favori {
        Some(x) => k.0 != x@,
        None => true,
    };
    while i < ust
        invariant
            i <= ust <= n == ks@.len(),
            ust == (if n > 30 { 30 } else { n }),
            sinirli == old(ks)@.map_values(f),
            ks@ == old(ks)@,
            f == (|k: Kanaat| (k.isim@, crate::gunluk::sinirla(k.puan as int, -10, 10), k.not@)),
            g == (|k: Kanaat| (k.isim@, k.puan as int, k.not@)),
            ilk30 == (if sinirli.len() > 30 { sinirli.take(30) } else { sinirli }),
            p == (|k: (Seq<char>, int, Seq<char>)| match favori {
                Some(x) => k.0 != x@,
                None => true,
            }),
            yeni@.map_values(g) == ilk30.take(i as int).filter(p),
        decreases ust - i,
    {
        let k = &ks[i];
        let puan: i32 = if k.puan < -10 {
            -10
        } else if k.puan > 10 {
            10
        } else {
            k.puan
        };
        let ghost x = f(ks@[i as int]);
        assert(ilk30[i as int] == x);
        proof {
            assert(ilk30.take(i + 1) =~= ilk30.take(i as int).push(x));
            ilk30.take(i as int).lemma_filter_push(x, p);
        }
        let ayni = match favori {
            Some(fv) => ayni_dizi(&karakterler(k.isim.as_str()), &karakterler(fv)),
            None => false,
        };
        if !ayni {
            let ghost y0 = yeni@.map_values(g);
            yeni.push(Kanaat { isim: k.isim.clone(), puan, not: k.not.clone() });
            assert(yeni@.map_values(g) =~= y0.push(x));
        }
        i += 1;
    }
    assert(ilk30.take(ust as int) =~= ilk30);
    match favori {
        Some(fv) => {
            let ghost y0 = yeni@.map_values(g);
            yeni.insert(0, Kanaat { isim: fv.to_owned(), puan: 10, not: favori_notu.to_owned() });
            assert(yeni@.map_values(g) =~= seq![(fv@, 10int, favori_notu@)] + y0);
            assert(p =~= (|k: (Seq<char>, int, Seq<char>)| k.0 != fv@));
        },
        None => {
            assert(ilk30.filter(p) =~= ilk30) by {
                reveal(Seq::filter);
                assert(forall|k: (Seq<char>, int, Seq<char>)| #[trigger] p(k));
                lemma_suzgec_hepsi(ilk30, p);
            }
        },
    }
    *ks = yeni;
}

proof fn lemma_suzgec_hepsi(s: Seq<(Seq<char>, int, Seq<char>)>, p: spec_fn((Seq<char>, int, Seq<char>)) -> bool)
    requires
        forall|k: (Seq<char>, int, Seq<char>)| #[trigger] p(k),
    ensures
        s.filter(p) == s,
    decreases s.len(),
{
    reveal(Seq::filter);
    if s.len() > 0 {
        lemma_suzgec_hepsi(s.drop_last(), p);
        assert(s.drop_last().push(s.last()) =~= s);
    }
}

// ---------- görsel ----------

/// Görsel dosyası uzantısı mı (büyük/küçük harf gözetmeden).
pub open spec fn resim_uzantisi(uz: Seq<char>) -> bool {
    let k = kucuk_harf_metni(uz);
    k == "png"@ || k == "jpg"@ || k == "jpeg"@ || k == "gif"@ || k == "webp"@
}

pub fn resim_uzantisi_mi(uz: &str) -> (r: bool)
    ensures
        r == resim_uzantisi(uz@),
{
    let k = karakterler(kucuk_harfe_cevir(uz).as_str());
    ayni_dizi(&k, &karakterler("png")) || ayni_dizi(&k, &karakterler("jpg")) || ayni_dizi(
        &k,
        &karakterler("jpeg"),
    ) || ayni_dizi(&k, &karakterler("gif")) || ayni_dizi(&k, &karakterler("webp"))
}

/// Uzantıya göre görselin türü: jpg/jpeg, gif, webp; diğerleri png sayılır.
pub open spec fn resim_turu_spec(uz: Seq<char>) -> Seq<char> {
    let k = kucuk_harf_metni(uz);
    if k == "jpg"@ || k == "jpeg"@ {
        "image/jpeg"@
    } else if k == "gif"@ {
        "image/gif"@
    } else if k == "webp"@ {
        "image/webp"@
    } else {
        "image/png"@
    }
}

pub fn resim_turu(uz: &str) -> (r: &'static str)
    ensures
        r@ == resim_turu_spec(uz@),
{
    let k = karakterler(kucuk_harfe_cevir(uz).as_str());
    if ayni_dizi(&k, &karakterler("jpg")) || ayni_dizi(&k, &karakterler("jpeg")) {
        "image/jpeg"
    } else if ayni_dizi(&k, &karakterler("gif")) {
        "image/gif"
    } else if ayni_dizi(&k, &karakterler("webp")) {
        "image/webp"
    } else {
        "image/png"
    }
}

/// Standart base64 alfabesinin (RFC 4648: `A-Z`, `a-z`, `0-9`, `+`, `/`) `n`'inci harfi.
pub open spec fn base64_harfi(n: int) -> char {
    if n < 26 {
        ('A' as int + n) as char
    } else if n < 52 {
        ('a' as int + (n - 26)) as char
    } else if n < 62 {
        ('0' as int + (n - 52)) as char
    } else if n == 62 {
        '+'
    } else {
        '/'
    }
}

/// Dolgulu standart base64 (RFC 4648): her üç bayt dört harf olur; kalan bir ya da iki
/// bayt "=" ile dörde tamamlanır.
pub open spec fn base64_standart(veri: Seq<u8>) -> Seq<char>
    decreases veri.len(),
{
    if veri.len() == 0 {
        seq![]
    } else if veri.len() == 1 {
        let a = veri[0] as int;
        seq![base64_harfi(a / 4), base64_harfi((a % 4) * 16), '=', '=']
    } else if veri.len() == 2 {
        let a = veri[0] as int;
        let b = veri[1] as int;
        seq![base64_harfi(a / 4), base64_harfi((a % 4) * 16 + b / 16), base64_harfi((b % 16) * 4), '=']
    } else {
        let a = veri[0] as int;
        let b = veri[1] as int;
        let c = veri[2] as int;
        seq![
            base64_harfi(a / 4),
            base64_harfi((a % 4) * 16 + b / 16),
            base64_harfi((b % 16) * 4 + c / 64),
            base64_harfi(c % 64),
        ] + base64_standart(veri.skip(3))
    }
}

/// `base64::engine::general_purpose::STANDARD.encode`: baytların standart alfabe ve
/// dolguyla base64 yazılışı. Çok büyük girdide (boyut hesabı taşarsa) panikler, o girdiler
/// dışarıda bırakılır.
#[verifier::external_body]
fn base64_yaz(veri: &[u8]) -> (r: String)
    requires
        veri@.len() < usize::MAX / 2,
    ensures
        r@ == base64_standart(veri@),
{
    base64::engine::general_purpose::STANDARD.encode(veri)
}

/// Görselin veri adresi: "data:tür;base64,kodlanmış".
pub fn veri_adresi_yap(tur: &str, kodlanmis: &str) -> (r: String)
    ensures
        r@ == "data:"@ + tur@ + ";base64,"@ + kodlanmis@,
{
    let mut v: Vec<char> = Vec::new();
    ekle_metin(&mut v, "data:");
    ekle_metin(&mut v, tur);
    ekle_metin(&mut v, ";base64,");
    ekle_metin(&mut v, kodlanmis);
    metne(&v)
}

/// Görselin modele giden veri adresi: uzantıdan tür, baytlardan base64.
pub fn veri_adresi(uzanti: &str, veri: &Vec<u8>) -> (r: String)
    requires
        veri@.len() < usize::MAX / 2,
    ensures
        r@ == "data:"@ + resim_turu_spec(uzanti@) + ";base64,"@ + base64_standart(veri@),
{
    let tur = resim_turu(uzanti);
    let b = base64_yaz(veri.as_slice());
    veri_adresi_yap(tur, b.as_str())
}

/// `rand::random::<usize>()`: rastgele bir sayı; hiçbir şey söylenmez.
#[verifier::external_body]
fn rastgele_sayi() -> (r: usize) {
    rand::random::<usize>()
}

/// Uzantısı görsel olan dosyaların sıraları, artan.
pub open spec fn gorsel_konumlari(ds: Seq<(String, String)>) -> Seq<int>
    decreases ds.len(),
{
    if ds.len() == 0 {
        seq![]
    } else {
        let o = gorsel_konumlari(ds.drop_last());
        if resim_uzantisi(ds.last().1@) {
            o.push(ds.len() - 1)
        } else {
            o
        }
    }
}

/// Görsel sıraları dosyaların içindedir, her biri görseldir; görsel olan her dosya listededir.
pub proof fn lemma_gorsel_konumlari(ds: Seq<(String, String)>)
    ensures
        forall|k: int|
            0 <= k < gorsel_konumlari(ds).len() ==> 0 <= #[trigger] gorsel_konumlari(ds)[k] < ds.len()
                && resim_uzantisi(ds[gorsel_konumlari(ds)[k]].1@),
        forall|i: int| 0 <= i < ds.len() && resim_uzantisi(#[trigger] ds[i].1@) ==> gorsel_konumlari(ds).contains(i),
    decreases ds.len(),
{
    if ds.len() > 0 {
        let d0 = ds.drop_last();
        lemma_gorsel_konumlari(d0);
        let o = gorsel_konumlari(d0);
        let g = gorsel_konumlari(ds);
        assert forall|k: int| 0 <= k < g.len() implies 0 <= #[trigger] g[k] < ds.len() && resim_uzantisi(ds[g[k]].1@) by {
            if k < o.len() {
                assert(g[k] == o[k]);
                assert(ds[o[k]] == d0[o[k]]);
            }
        }
        assert forall|i: int| 0 <= i < ds.len() && resim_uzantisi(#[trigger] ds[i].1@) implies g.contains(i) by {
            if i < ds.len() - 1 {
                assert(d0[i] == ds[i]);
                let k = choose|k: int| 0 <= k < o.len() && o[k] == i;
                assert(g[k] == i);
            } else {
                assert(g[g.len() - 1] == i);
            }
        }
    }
}

/// Çekilen sayıya göre görsel: görsel dosyalardan, sayının görsel sayısına bölümünden
/// kalan sıradaki (yol, uzantı çiftinin yolu); hiç görsel yoksa yok.
pub fn resim_sec(dosyalar: &Vec<(String, String)>, sayi: usize) -> (r: Option<String>)
    ensures
        r is None <==> gorsel_konumlari(dosyalar@).len() == 0,
        r matches Some(y) ==> y@ == dosyalar@[gorsel_konumlari(dosyalar@)[sayi as int % gorsel_konumlari(
            dosyalar@,
        ).len() as int]].0@,
{
    let ghost ds = dosyalar@;
    let mut uygun: Vec<usize> = Vec::new();
    let mut i: usize = 0;
    while i < dosyalar.len()
        invariant
            i <= ds.len(),
            ds == dosyalar@,
            uygun@.len() == gorsel_konumlari(ds.take(i as int)).len(),
            forall|k: int|
                #![trigger uygun@[k]]
                0 <= k < uygun@.len() ==> uygun@[k] < i && uygun@[k] as int == gorsel_konumlari(ds.take(i as int))[k],
        decreases ds.len() - i,
    {
        proof {
            assert(ds.take(i + 1).drop_last() =~= ds.take(i as int));
            assert(ds.take(i + 1).last() == ds[i as int]);
        }
        if resim_uzantisi_mi(dosyalar[i].1.as_str()) {
            uygun.push(i);
        }
        i += 1;
    }
    assert(ds.take(i as int) =~= ds);
    if uygun.len() == 0 {
        return None;
    }
    let s = sayi % uygun.len();
    let k = uygun[s];
    Some(dosyalar[k].0.clone())
}

/// Görsellerden rastgele biri: uzantısı görsel olan dosyalardan (yol, uzantı) çekilen
/// sayıyla seçilir; hiç yoksa yok.
pub fn rastgele_resim(dosyalar: &Vec<(String, String)>) -> (r: Option<String>)
    ensures
        r is None <==> forall|i: int| 0 <= i < dosyalar@.len() ==> !resim_uzantisi(#[trigger] dosyalar@[i].1@),
        r matches Some(y) ==> exists|i: int|
            0 <= i < dosyalar@.len() && resim_uzantisi(#[trigger] dosyalar@[i].1@) && dosyalar@[i].0@ == y@,
{
    proof {
        lemma_gorsel_konumlari(dosyalar@);
    }
    let sayi = rastgele_sayi();
    let r = resim_sec(dosyalar, sayi);
    proof {
        let g = gorsel_konumlari(dosyalar@);
        if g.len() > 0 {
            assert(resim_uzantisi(dosyalar@[g[0]].1@));
            let k = sayi as int % g.len() as int;
            assert(resim_uzantisi(dosyalar@[g[k]].1@));
        }
    }
    r
}

} // verus!
