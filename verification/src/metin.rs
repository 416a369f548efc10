use vstd::prelude::*;

verus! {

broadcast use vstd::string::group_string_axioms;

// ---------- karakter sınıfları ----------

/// Unicode White_Space özelliği: `char::is_whitespace`'in tanıdığı karakterler.
pub open spec fn bosluk_mu(c: char) -> bool {
    ||| ('\u{9}' <= c && c <= '\u{d}')
    ||| c == ' '
    ||| c == '\u{85}'
    ||| c == '\u{a0}'
    ||| c == '\u{1680}'
    ||| ('\u{2000}' <= c && c <= '\u{200a}')
    ||| c == '\u{2028}'
    ||| c == '\u{2029}'
    ||| c == '\u{202f}'
    ||| c == '\u{205f}'
    ||| c == '\u{3000}'
}

pub fn bosluk(c: char) -> (r: bool)
    ensures
        r == bosluk_mu(c),
{
    ('\u{9}' <= c && c <= '\u{d}') || c == ' ' || c == '\u{85}' || c == '\u{a0}' || c
        == '\u{1680}' || ('\u{2000}' <= c && c <= '\u{200a}') || c == '\u{2028}' || c
        == '\u{2029}' || c == '\u{202f}' || c == '\u{205f}' || c == '\u{3000}'
}

// ---------- str <-> karakter dizisi ----------

/// Bir metnin karakter dizisi.
pub fn karakterler(s: &str) -> (v: Vec<char>)
    ensures
        v@ == s@,
{
    let mut v: Vec<char> = Vec::new();
    for c in it: s.chars()
        invariant
            v@ == it.seq().take(it.index() as int),
            it.seq() == s@,
    {
        v.push(c);
    }
    v
}

/// `String::push`: metnin sonuna bir karakter ekler.
#[verifier::external_body]
fn harf_ekle(s: &mut String, c: char)
    ensures
        final(s)@ == old(s)@.push(c),
{
    s.push(c);
}

/// Karakter dizisinin `lo..hi` aralığından yeni bir metin.
pub fn metin_yap(v: &[char], lo: usize, hi: usize) -> (s: String)
    requires
        lo <= hi <= v@.len(),
    ensures
        s@ == v@.subrange(lo as int, hi as int),
{
    let mut s = String::new();
    let mut i = lo;
    while i < hi
        invariant
            lo <= i <= hi <= v@.len(),
            s@ == v@.subrange(lo as int, i as int),
        decreases hi - i,
    {
        harf_ekle(&mut s, v[i]);
        assert(v@.subrange(lo as int, i + 1) =~= v@.subrange(lo as int, i as int).push(v@[i as int]));
        i += 1;
    }
    s
}

/// Bütün karakter dizisinden metin.
pub fn metne(v: &[char]) -> (s: String)
    ensures
        s@ == v@,
{
    let s = metin_yap(v, 0, v.len());
    assert(v@.subrange(0, v@.len() as int) =~= v@);
    s
}

// ---------- kırpma ----------

/// Baştaki boşlukları atar (`trim_start`).
pub open spec fn sol_kirp(s: Seq<char>) -> Seq<char>
    decreases s.len(),
{
    if s.len() > 0 && bosluk_mu(s[0]) {
        sol_kirp(s.drop_first())
    } else {
        s
    }
}

/// Sondaki boşlukları atar (`trim_end`).
pub open spec fn sag_kirp(s: Seq<char>) -> Seq<char>
    decreases s.len(),
{
    if s.len() > 0 && bosluk_mu(s.last()) {
        sag_kirp(s.drop_last())
    } else {
        s
    }
}

/// İki baştaki boşlukları atar (`trim`).
pub open spec fn kirp(s: Seq<char>) -> Seq<char> {
    sag_kirp(sol_kirp(s))
}

/// `v[lo..hi]` içinde baştaki boşluklardan sonraki ilk konum.
pub fn sol_sinir(v: &[char], lo: usize, hi: usize) -> (k: usize)
    requires
        lo <= hi <= v@.len(),
    ensures
        lo <= k <= hi,
        sol_kirp(v@.subrange(lo as int, hi as int)) == v@.subrange(k as int, hi as int),
{
    let mut k = lo;
    while k < hi && bosluk(v[k])
        invariant
            lo <= k <= hi <= v@.len(),
            sol_kirp(v@.subrange(lo as int, hi as int)) == sol_kirp(
                v@.subrange(k as int, hi as int),
            ),
        decreases hi - k,
    {
        assert(v@.subrange(k as int, hi as int).drop_first() =~= v@.subrange(
            k + 1,
            hi as int,
        ));
        k += 1;
    }
    k
}

/// `v[lo..hi]` içinde sondaki boşluklardan önceki son konum.
pub fn sag_sinir(v: &[char], lo: usize, hi: usize) -> (k: usize)
    requires
        lo <= hi <= v@.len(),
    ensures
        lo <= k <= hi,
        sag_kirp(v@.subrange(lo as int, hi as int)) == v@.subrange(lo as int, k as int),
{
    let mut k = hi;
    while k > lo && bosluk(v[k - 1])
        invariant
            lo <= k <= hi <= v@.len(),
            sag_kirp(v@.subrange(lo as int, hi as int)) == sag_kirp(
                v@.subrange(lo as int, k as int),
            ),
        decreases k - lo,
    {
        assert(v@.subrange(lo as int, k as int).drop_last() =~= v@.subrange(
            lo as int,
            k - 1,
        ));
        k -= 1;
    }
    k
}

/// `v[lo..hi]`'nin kırpılmış hâlinin sınırları.
pub fn kirp_sinir(v: &[char], lo: usize, hi: usize) -> (r: (usize, usize))
    requires
        lo <= hi <= v@.len(),
    ensures
        lo <= r.0 <= r.1 <= hi,
        kirp(v@.subrange(lo as int, hi as int)) == v@.subrange(r.0 as int, r.1 as int),
{
    let a = sol_sinir(v, lo, hi);
    let b = sag_sinir(v, a, hi);
    (a, b)
}

/// Kırpılmış metin.
pub fn kirpilmis(v: &[char]) -> (s: Vec<char>)
    ensures
        s@ == kirp(v@),
{
    let (a, b) = kirp_sinir(v, 0, v.len());
    assert(v@.subrange(0, v@.len() as int) =~= v@);
    let mut s: Vec<char> = Vec::new();
    let mut i = a;
    while i < b
        invariant
            a <= i <= b <= v@.len(),
            s@ == v@.subrange(a as int, i as int),
        decreases b - i,
    {
        s.push(v[i]);
        assert(v@.subrange(a as int, i + 1) =~= v@.subrange(a as int, i as int).push(v@[i as int]));
        i += 1;
    }
    s
}


// ---------- kelimeler ----------

/// Baştaki boşluk olmayan karakter sayısı.
pub open spec fn kelime_boyu(s: Seq<char>) -> nat
    decreases s.len(),
{
    if s.len() > 0 && !bosluk_mu(s[0]) {
        1 + kelime_boyu(s.drop_first())
    } else {
        0
    }
}

pub proof fn lemma_kelime_boyu(s: Seq<char>)
    ensures
        kelime_boyu(s) <= s.len(),
        s.len() > 0 && !bosluk_mu(s[0]) ==> kelime_boyu(s) >= 1,
    decreases s.len(),
{
    if s.len() > 0 && !bosluk_mu(s[0]) {
        lemma_kelime_boyu(s.drop_first());
    }
}

/// Boşluklarla ayrılmış kelimeler (`split_whitespace`).
pub open spec fn kelimeler(s: Seq<char>) -> Seq<Seq<char>>
    decreases s.len(),
{
    if s.len() == 0 {
        seq![]
    } else if bosluk_mu(s[0]) {
        kelimeler(s.drop_first())
    } else {
        let n = kelime_boyu(s);
        proof {
            lemma_kelime_boyu(s);
        }
        seq![s.take(n as int)] + kelimeler(s.skip(n as int))
    }
}

/// Parçaları ayraçla birleştirir (`join`).
pub open spec fn birlestir(parcalar: Seq<Seq<char>>, ayrac: Seq<char>) -> Seq<char>
    decreases parcalar.len(),
{
    if parcalar.len() == 0 {
        seq![]
    } else if parcalar.len() == 1 {
        parcalar[0]
    } else {
        birlestir(parcalar.drop_last(), ayrac) + ayrac + parcalar.last()
    }
}

/// Boşluk dizilerini tek boşluğa indirir, baştaki ve sondakileri atar.
pub open spec fn daralt(s: Seq<char>) -> Seq<char> {
    birlestir(kelimeler(s), seq![' '])
}

/// `v[i..]` içinde boşluğa ya da sona kadar olan kelimenin sonu.
fn kelime_sonu(v: &[char], i: usize) -> (j: usize)
    requires
        i <= v@.len(),
    ensures
        i <= j <= v@.len(),
        kelime_boyu(v@.skip(i as int)) == j - i,
{
    let mut j = i;
    while j < v.len() && !bosluk(v[j])
        invariant
            i <= j <= v@.len(),
            kelime_boyu(v@.skip(i as int)) == (j - i) + kelime_boyu(v@.skip(j as int)),
        decreases v@.len() - j,
    {
        assert(v@.skip(j as int).drop_first() =~= v@.skip(j + 1));
        j += 1;
    }
    j
}

/// Kelimelerin `(başlangıç, bitiş)` aralıkları.
pub fn kelime_araliklari(v: &[char]) -> (r: Vec<(usize, usize)>)
    ensures
        r@.len() == kelimeler(v@).len(),
        forall|k: int|
            #![trigger r@[k]]
            0 <= k < r@.len() ==> r@[k].0 <= r@[k].1 <= v@.len() && kelimeler(v@)[k]
                == v@.subrange(r@[k].0 as int, r@[k].1 as int),
{
    let mut r: Vec<(usize, usize)> = Vec::new();
    let ghost mut yapilan: Seq<Seq<char>> = seq![];
    let mut i: usize = 0;
    assert(v@.skip(0) =~= v@);
    while i < v.len()
        invariant
            i <= v@.len(),
            kelimeler(v@) == yapilan + kelimeler(v@.skip(i as int)),
            r@.len() == yapilan.len(),
            forall|k: int|
                #![trigger r@[k]]
                0 <= k < r@.len() ==> r@[k].0 <= r@[k].1 <= v@.len() && yapilan[k]
                    == v@.subrange(r@[k].0 as int, r@[k].1 as int),
        decreases v@.len() - i,
    {
        if bosluk(v[i]) {
            assert(v@.skip(i as int).drop_first() =~= v@.skip(i + 1));
            i += 1;
        } else {
            let j = kelime_sonu(v, i);
            proof {
                lemma_kelime_boyu(v@.skip(i as int));
                assert(v@.skip(i as int).take((j - i) as int) =~= v@.subrange(
                    i as int,
                    j as int,
                ));
                assert(v@.skip(i as int).skip((j - i) as int) =~= v@.skip(j as int));
                yapilan = yapilan.push(v@.subrange(i as int, j as int));
                assert(seq![v@.subrange(i as int, j as int)] + kelimeler(v@.skip(j as int))
                    =~= kelimeler(v@.skip(i as int)));
            }
            r.push((i, j));
            i = j;
        }
    }
    assert(v@.skip(i as int) =~= Seq::<char>::empty());
    assert(kelimeler(v@) =~= yapilan);
    r
}

/// Kelime sayısı (`split_whitespace().count()`).
pub fn kelime_sayisi(v: &[char]) -> (n: usize)
    ensures
        n == kelimeler(v@).len(),
{
    kelime_araliklari(v).len()
}

/// `daralt`: kelimeler tek boşlukla birleştirilir.
pub fn daraltilmis(v: &[char]) -> (s: Vec<char>)
    ensures
        s@ == daralt(v@),
{
    let r = kelime_araliklari(v);
    let ghost kel = kelimeler(v@);
    let mut s: Vec<char> = Vec::new();
    let mut k: usize = 0;
    while k < r.len()
        invariant
            k <= r@.len() == kel.len(),
            kel == kelimeler(v@),
            forall|t: int|
                #![trigger r@[t]]
                0 <= t < r@.len() ==> r@[t].0 <= r@[t].1 <= v@.len() && kel[t]
                    == v@.subrange(r@[t].0 as int, r@[t].1 as int),
            s@ == birlestir(kel.take(k as int), seq![' ']),
        decreases r@.len() - k,
    {
        let (a, b) = r[k];
        assert(kel[k as int] == v@.subrange(a as int, b as int));
        if k > 0 {
            s.push(' ');
        }
        let ghost once = s@;
        let mut i = a;
        while i < b
            invariant
                a <= i <= b <= v@.len(),
                s@ == once + v@.subrange(a as int, i as int),
            decreases b - i,
        {
            s.push(v[i]);
            assert(v@.subrange(a as int, i + 1) =~= v@.subrange(a as int, i as int).push(
                v@[i as int],
            ));
            i += 1;
        }
        proof {
            assert(kel.take(k + 1).drop_last() =~= kel.take(k as int));
            assert(kel.take(k + 1).last() == kel[k as int]);
            if k == 0 {
                assert(kel.take(1) =~= seq![kel[0]]);
                assert(s@ =~= kel[0]);
            } else {
                assert(s@ =~= birlestir(kel.take(k as int), seq![' ']) + seq![' '] + kel[k as int]);
            }
        }
        k += 1;
    }
    assert(kel.take(k as int) =~= kel);
    s
}


// ---------- ayırma ----------

/// Tek bir karakterde ayırma (`split(c)`): `n` ayraç `n + 1` parça verir.
pub open spec fn ayir(s: Seq<char>, c: char) -> Seq<Seq<char>>
    decreases s.len(),
{
    if s.len() == 0 {
        seq![seq![]]
    } else {
        let once = ayir(s.drop_last(), c);
        if s.last() == c {
            once.push(seq![])
        } else {
            once.update(once.len() - 1, once.last().push(s.last()))
        }
    }
}

pub proof fn lemma_ayir_bos_degil(s: Seq<char>, c: char)
    ensures
        ayir(s, c).len() >= 1,
    decreases s.len(),
{
    if s.len() > 0 {
        lemma_ayir_bos_degil(s.drop_last(), c);
    }
}

/// Parçalar ayraç karakteri içermez.
pub proof fn lemma_ayir_ayracsiz(s: Seq<char>, c: char)
    ensures
        forall|i: int, j: int|
            0 <= i < ayir(s, c).len() && 0 <= j < ayir(s, c)[i].len() ==> #[trigger] ayir(
                s,
                c,
            )[i][j] != c,
    decreases s.len(),
{
    lemma_ayir_bos_degil(s, c);
    if s.len() > 0 {
        lemma_ayir_ayracsiz(s.drop_last(), c);
        lemma_ayir_bos_degil(s.drop_last(), c);
        let once = ayir(s.drop_last(), c);
        if s.last() != c {
            assert forall|i: int, j: int|
                0 <= i < ayir(s, c).len() && 0 <= j < ayir(s, c)[i].len() implies #[trigger] ayir(
                s,
                c,
            )[i][j] != c by {
                if i < once.len() - 1 {
                    assert(ayir(s, c)[i] == once[i]);
                } else {
                    assert(ayir(s, c)[i] == once.last().push(s.last()));
                    if j < once.last().len() {
                        assert(once[once.len() - 1][j] != c);
                    }
                }
            }
        }
    }
}

/// Ayırıp aynı ayraçla birleştirmek metni geri verir.
pub proof fn lemma_ayir_birlestir(s: Seq<char>, c: char)
    ensures
        birlestir(ayir(s, c), seq![c]) == s,
    decreases s.len(),
{
    if s.len() > 0 {
        let once = ayir(s.drop_last(), c);
        lemma_ayir_birlestir(s.drop_last(), c);
        lemma_ayir_bos_degil(s.drop_last(), c);
        if s.last() == c {
            let yeni = once.push(seq![]);
            assert(yeni.drop_last() =~= once);
            assert(birlestir(yeni, seq![c]) =~= s.drop_last() + seq![c]);
            assert(s =~= s.drop_last() + seq![c]);
        } else {
            let yeni = once.update(once.len() - 1, once.last().push(s.last()));
            if once.len() == 1 {
                assert(s =~= once[0].push(s.last()));
            } else {
                assert(yeni.drop_last() =~= once.drop_last());
                assert(birlestir(once, seq![c]) == birlestir(once.drop_last(), seq![c]) + seq![c]
                    + once.last());
                assert(birlestir(yeni, seq![c]) =~= birlestir(once, seq![c]).push(s.last()));
                assert(s =~= s.drop_last().push(s.last()));
            }
        }
    }
}

/// Ayraç içermeyen metin tek parçadır.
pub proof fn lemma_ayir_tek(s: Seq<char>, c: char)
    requires
        forall|j: int| 0 <= j < s.len() ==> s[j] != c,
    ensures
        ayir(s, c) == seq![s],
    decreases s.len(),
{
    if s.len() > 0 {
        lemma_ayir_tek(s.drop_last(), c);
        assert(s.last() != c);
        assert(s.drop_last().push(s.last()) =~= s);
        assert(seq![s.drop_last()].update(0, s.drop_last().push(s.last())) =~= seq![s]);
    } else {
        assert(s =~= Seq::<char>::empty());
    }
}

/// Ayraçla birleşik iki metnin parçaları, iki metnin parçalarının ardı ardınadır.
pub proof fn lemma_ayir_ekle(a: Seq<char>, b: Seq<char>, c: char)
    ensures
        ayir(a + seq![c] + b, c) == ayir(a, c) + ayir(b, c),
    decreases b.len(),
{
    lemma_ayir_bos_degil(a, c);
    if b.len() == 0 {
        assert((a + seq![c] + b).drop_last() =~= a);
        assert(ayir(a, c) + ayir(b, c) =~= ayir(a, c).push(seq![]));
    } else {
        lemma_ayir_ekle(a, b.drop_last(), c);
        lemma_ayir_bos_degil(b.drop_last(), c);
        assert((a + seq![c] + b).drop_last() =~= a + seq![c] + b.drop_last());
        let x = ayir(a, c);
        let y = ayir(b.drop_last(), c);
        if b.last() == c {
            assert((x + y).push(seq![]) =~= x + y.push(seq![]));
        } else {
            assert((x + y).update((x + y).len() - 1, (x + y).last().push(b.last())) =~= x + y.update(
                y.len() - 1,
                y.last().push(b.last()),
            ));
        }
    }
}

/// Parçaların her karakteri metinde vardır.
pub proof fn lemma_ayir_karakterleri(s: Seq<char>, c: char, d: char)
    requires
        forall|j: int| 0 <= j < s.len() ==> s[j] != d,
    ensures
        forall|i: int, j: int|
            0 <= i < ayir(s, c).len() && 0 <= j < ayir(s, c)[i].len() ==> #[trigger] ayir(s, c)[i][j]
                != d,
    decreases s.len(),
{
    lemma_ayir_bos_degil(s, c);
    if s.len() > 0 {
        lemma_ayir_karakterleri(s.drop_last(), c, d);
        lemma_ayir_bos_degil(s.drop_last(), c);
        let once = ayir(s.drop_last(), c);
        if s.last() != c {
            assert forall|i: int, j: int|
                0 <= i < ayir(s, c).len() && 0 <= j < ayir(s, c)[i].len() implies #[trigger] ayir(
                s,
                c,
            )[i][j] != d by {
                if i < once.len() - 1 {
                    assert(ayir(s, c)[i] == once[i]);
                } else {
                    assert(ayir(s, c)[i] == once.last().push(s.last()));
                    if j < once.last().len() {
                        assert(once[once.len() - 1][j] != d);
                    }
                }
            }
        } else {
            assert forall|i: int, j: int|
                0 <= i < ayir(s, c).len() && 0 <= j < ayir(s, c)[i].len() implies #[trigger] ayir(
                s,
                c,
            )[i][j] != d by {
                assert(ayir(s, c)[i] == once[i]);
            }
        }
    }
}

/// Metnin başını almak parçaları korur; yalnız kesilen son parça kısalır.
pub proof fn lemma_ayir_bas(s: Seq<char>, k: int, c: char)
    requires
        0 <= k <= s.len(),
    ensures
        ayir(s.take(k), c).len() <= ayir(s, c).len(),
        forall|i: int| 0 <= i < ayir(s.take(k), c).len() - 1 ==> #[trigger] ayir(s.take(k), c)[i] == ayir(s, c)[i],
        ayir(s.take(k), c).len() >= 1,
        ({
            let p = ayir(s.take(k), c);
            let q = ayir(s, c);
            p.last().len() <= q[p.len() - 1].len() && q[p.len() - 1].take(p.last().len() as int) == p.last()
        }),
    decreases s.len(),
{
    lemma_ayir_bos_degil(s, c);
    lemma_ayir_bos_degil(s.take(k), c);
    if k == s.len() {
        assert(s.take(k) =~= s);
        assert(ayir(s, c).last().take(ayir(s, c).last().len() as int) =~= ayir(s, c).last());
    } else {
        assert(s.take(k) =~= s.drop_last().take(k));
        lemma_ayir_bas(s.drop_last(), k, c);
        lemma_ayir_bos_degil(s.drop_last(), c);
        let once = ayir(s.drop_last(), c);
        let p = ayir(s.take(k), c);
        if s.last() != c {
            let q = ayir(s, c);
            assert(q == once.update(once.len() - 1, once.last().push(s.last())));
            if p.len() == once.len() {
                assert(q[p.len() - 1].take(p.last().len() as int) =~= once[p.len() - 1].take(
                    p.last().len() as int,
                ));
            } else {
                assert(q[p.len() - 1] == once[p.len() - 1]);
            }
            assert forall|i: int| 0 <= i < p.len() - 1 implies #[trigger] p[i] == q[i] by {
                assert(p[i] == once[i]);
            }
        }
    }
}

/// Birleşik metin ilk parçayla başlar.
pub proof fn lemma_birlestir_bas(xs: Seq<Seq<char>>, ayrac: Seq<char>)
    requires
        xs.len() > 0,
    ensures
        birlestir(xs, ayrac).len() >= xs[0].len(),
        birlestir(xs, ayrac).take(xs[0].len() as int) == xs[0],
    decreases xs.len(),
{
    if xs.len() == 1 {
        assert(xs[0].take(xs[0].len() as int) =~= xs[0]);
    } else {
        lemma_birlestir_bas(xs.drop_last(), ayrac);
        let b = birlestir(xs.drop_last(), ayrac);
        assert((b + ayrac + xs.last()).take(xs[0].len() as int) =~= b.take(xs[0].len() as int));
    }
}

/// Sondan kırpma, boşluk olmayan bir karakteri geçemez.
pub proof fn lemma_sag_kirp_korur(s: Seq<char>, j: int)
    requires
        0 <= j < s.len(),
        !bosluk_mu(s[j]),
    ensures
        sag_kirp(s).len() > j,
    decreases s.len(),
{
    if s.len() > 0 && bosluk_mu(s.last()) {
        lemma_sag_kirp_korur(s.drop_last(), j);
    }
}

/// Kırpılınca boş kalmayan metinde boşluk olmayan bir karakter vardır.
pub proof fn lemma_kirp_dolu_karakter(s: Seq<char>)
    requires
        kirp(s).len() > 0,
    ensures
        exists|j: int| 0 <= j < s.len() && !bosluk_mu(#[trigger] s[j]),
{
    lemma_sol_kirp(s);
    lemma_sag_kirp(sol_kirp(s));
    let t = sol_kirp(s);
    assert(t.len() > 0);
    let j = s.len() - t.len();
    assert(s[j] == t[0]);
}

/// `d` karakteri metinde geçmez.
pub open spec fn gecmez(s: Seq<char>, d: char) -> bool {
    forall|j: int| 0 <= j < s.len() ==> s[j] != d
}

/// Kırpmak yeni karakter getirmez.
pub proof fn lemma_kirp_gecmez(s: Seq<char>, d: char)
    requires
        gecmez(s, d),
    ensures
        gecmez(sol_kirp(s), d),
        gecmez(sag_kirp(s), d),
        gecmez(kirp(s), d),
{
    lemma_sol_kirp(s);
    lemma_sag_kirp(s);
    lemma_sag_kirp(sol_kirp(s));
    assert forall|j: int| 0 <= j < sol_kirp(s).len() implies sol_kirp(s)[j] != d by {
        assert(sol_kirp(s)[j] == s[j + s.len() - sol_kirp(s).len()]);
    }
    assert forall|j: int| 0 <= j < sag_kirp(s).len() implies sag_kirp(s)[j] != d by {
        assert(sag_kirp(s)[j] == s[j]);
    }
    assert forall|j: int| 0 <= j < kirp(s).len() implies kirp(s)[j] != d by {
        assert(kirp(s)[j] == sol_kirp(s)[j]);
    }
}

/// Boşlukla değiştirmek yeni karakter getirmez.
pub proof fn lemma_degistir_gecmez(s: Seq<char>, from: Seq<char>, to: Seq<char>, d: char)
    requires
        gecmez(s, d),
        gecmez(to, d),
    ensures
        gecmez(degistir(s, from, to), d),
    decreases s.len(),
{
    if s.len() > 0 {
        if from.len() > 0 && basla(s, from) {
            assert(gecmez(s.skip(from.len() as int), d)) by {
                assert forall|j: int| 0 <= j < s.skip(from.len() as int).len() implies s.skip(from.len() as int)[j] != d by {
                    assert(s.skip(from.len() as int)[j] == s[j + from.len()]);
                }
            }
            lemma_degistir_gecmez(s.skip(from.len() as int), from, to, d);
            let r = to + degistir(s.skip(from.len() as int), from, to);
            assert forall|j: int| 0 <= j < r.len() implies r[j] != d by {
                if j >= to.len() {
                    assert(r[j] == degistir(s.skip(from.len() as int), from, to)[j - to.len()]);
                }
            }
        } else {
            assert(gecmez(s.drop_first(), d)) by {
                assert forall|j: int| 0 <= j < s.drop_first().len() implies s.drop_first()[j] != d by {
                    assert(s.drop_first()[j] == s[j + 1]);
                }
            }
            lemma_degistir_gecmez(s.drop_first(), from, to, d);
            let r = seq![s[0]] + degistir(s.drop_first(), from, to);
            assert forall|j: int| 0 <= j < r.len() implies r[j] != d by {
                if j >= 1 {
                    assert(r[j] == degistir(s.drop_first(), from, to)[j - 1]);
                }
            }
        }
    }
}

/// Geçmeyen parçalar geçmeyen ayraçla birleşince de geçmez.
pub proof fn lemma_birlestir_gecmez(xs: Seq<Seq<char>>, ayrac: Seq<char>, d: char)
    requires
        forall|i: int| 0 <= i < xs.len() ==> gecmez(#[trigger] xs[i], d),
        gecmez(ayrac, d),
    ensures
        gecmez(birlestir(xs, ayrac), d),
    decreases xs.len(),
{
    if xs.len() == 1 {
        assert(gecmez(xs[0], d));
    } else if xs.len() > 1 {
        let x0 = xs.drop_last();
        assert forall|i: int| 0 <= i < x0.len() implies gecmez(#[trigger] x0[i], d) by {
            assert(x0[i] == xs[i]);
        }
        lemma_birlestir_gecmez(x0, ayrac, d);
        assert(gecmez(xs[xs.len() - 1], d));
        let b = birlestir(x0, ayrac);
        let r = b + ayrac + xs.last();
        assert forall|j: int| 0 <= j < r.len() implies r[j] != d by {
            if j < b.len() {
                assert(r[j] == b[j]);
            } else if j < b.len() + ayrac.len() {
                assert(r[j] == ayrac[j - b.len()]);
            } else {
                assert(r[j] == xs.last()[j - b.len() - ayrac.len()]);
            }
        }
    }
}

/// Ayırma parçalarının `(başlangıç, bitiş)` aralıkları.
pub fn ayir_araliklari(v: &[char], c: char) -> (r: Vec<(usize, usize)>)
    ensures
        r@.len() == ayir(v@, c).len(),
        forall|k: int|
            #![trigger r@[k]]
            0 <= k < r@.len() ==> r@[k].0 <= r@[k].1 <= v@.len() && ayir(v@, c)[k]
                == v@.subrange(r@[k].0 as int, r@[k].1 as int),
{
    let mut r: Vec<(usize, usize)> = Vec::new();
    let mut bas: usize = 0;
    let mut i: usize = 0;
    while i < v.len()
        invariant
            bas <= i <= v@.len(),
            r@.len() + 1 == ayir(v@.take(i as int), c).len(),
            forall|k: int|
                #![trigger r@[k]]
                0 <= k < r@.len() ==> r@[k].0 <= r@[k].1 <= v@.len() && ayir(
                    v@.take(i as int),
                    c,
                )[k] == v@.subrange(r@[k].0 as int, r@[k].1 as int),
            ayir(v@.take(i as int), c).last() == v@.subrange(bas as int, i as int),
        decreases v@.len() - i,
    {
        proof {
            assert(v@.take(i + 1).drop_last() =~= v@.take(i as int));
            assert(v@.take(i + 1).last() == v@[i as int]);
        }
        if v[i] == c {
            r.push((bas, i));
            bas = i + 1;
            assert(v@.subrange(bas as int, i + 1) =~= Seq::<char>::empty());
        } else {
            assert(v@.subrange(bas as int, i + 1) =~= v@.subrange(bas as int, i as int).push(
                v@[i as int],
            ));
        }
        i += 1;
    }
    r.push((bas, i));
    assert(v@.take(i as int) =~= v@);
    r
}

/// Satırlar (`str::lines`): son satır sonundan sonra boş satır sayılmaz, satır sonundaki
/// `\r` atılır.
pub open spec fn satirlar(s: Seq<char>) -> Seq<Seq<char>> {
    let p = ayir(s, '\n');
    let q = if p.last().len() == 0 {
        p.drop_last()
    } else {
        p
    };
    Seq::new(
        q.len(),
        |i: int|
            if i < p.len() - 1 && q[i].len() > 0 && q[i].last() == '\r' {
                q[i].drop_last()
            } else {
                q[i]
            },
    )
}

// ---------- arama ----------

/// `s`, `p` ile başlıyor mu (`starts_with`).
pub open spec fn basla(s: Seq<char>, p: Seq<char>) -> bool {
    p.len() <= s.len() && s.take(p.len() as int) == p
}

/// `s`, `p` ile bitiyor mu (`ends_with`).
pub open spec fn bitir(s: Seq<char>, p: Seq<char>) -> bool {
    p.len() <= s.len() && s.skip(s.len() - p.len()) == p
}

/// `p`'nin `s` içindeki ilk konumu (`find`).
pub open spec fn bul(s: Seq<char>, p: Seq<char>) -> Option<int>
    decreases s.len(),
{
    if basla(s, p) {
        Some(0)
    } else if s.len() == 0 {
        None
    } else {
        match bul(s.drop_first(), p) {
            Some(k) => Some(k + 1),
            None => None,
        }
    }
}

/// `s` içinde `p` geçiyor mu (`contains`).
pub open spec fn icerir(s: Seq<char>, p: Seq<char>) -> bool {
    bul(s, p) is Some
}

/// `v[i..]` `p` ile başlıyor mu.
pub fn basliyor(v: &[char], i: usize, p: &[char]) -> (r: bool)
    requires
        i <= v@.len(),
    ensures
        r == basla(v@.skip(i as int), p@),
{
    let n = v.len();
    if p.len() > n - i {
        return false;
    }
    let mut k: usize = 0;
    while k < p.len()
        invariant
            n == v@.len(),
            k <= p@.len(),
            i + p@.len() <= v@.len(),
            forall|t: int| 0 <= t < k ==> v@[i + t] == p@[t],
        decreases p@.len() - k,
    {
        if v[i + k] != p[k] {
            assert(v@.skip(i as int).take(p@.len() as int)[k as int] != p@[k as int]);
            return false;
        }
        k += 1;
    }
    assert(v@.skip(i as int).take(p@.len() as int) =~= p@);
    true
}

/// `v[i..]` içinde `p`'nin ilk konumu (`i`'ye göre değil, dizinin başına göre).
pub fn bul_konum(v: &[char], i: usize, p: &[char]) -> (r: Option<usize>)
    requires
        i <= v@.len(),
    ensures
        match bul(v@.skip(i as int), p@) {
            Some(k) => r is Some && r->0 == i + k,
            None => r is None,
        },
        r matches Some(k) ==> i <= k <= v@.len() && k + p@.len() <= v@.len(),
{
    proof {
        lemma_bul_sinir(v@.skip(i as int), p@);
    }
    let mut j = i;
    loop
        invariant
            i <= j <= v@.len(),
            bul(v@.skip(i as int), p@) == match bul(v@.skip(j as int), p@) {
                Some(k) => Some(k + (j - i)),
                None => None::<int>,
            },
        decreases v@.len() - j,
    {
        if basliyor(v, j, p) {
            return Some(j);
        }
        if j == v.len() {
            return None;
        }
        assert(v@.skip(j as int).drop_first() =~= v@.skip(j + 1));
        j += 1;
    }
}

pub proof fn lemma_bul_sinir(s: Seq<char>, p: Seq<char>)
    ensures
        bul(s, p) matches Some(k) ==> 0 <= k && k + p.len() <= s.len() && s.subrange(
            k,
            k + p.len(),
        ) == p,
    decreases s.len(),
{
    if basla(s, p) {
    } else if s.len() > 0 {
        lemma_bul_sinir(s.drop_first(), p);
        if let Some(k) = bul(s.drop_first(), p) {
            assert(s.subrange(k + 1, k + 1 + p.len()) =~= s.drop_first().subrange(k, k + p.len()));
        }
    }
}

/// `v` içinde `p` geçiyor mu.
pub fn iceriyor(v: &[char], p: &[char]) -> (r: bool)
    ensures
        r == icerir(v@, p@),
{
    assert(v@.skip(0) =~= v@);
    bul_konum(v, 0, p).is_some()
}

/// `c` karakterinin son konumu (`rfind`).
pub open spec fn son_konum(s: Seq<char>, c: char) -> Option<int>
    decreases s.len(),
{
    if s.len() == 0 {
        None
    } else if s.last() == c {
        Some(s.len() - 1)
    } else {
        son_konum(s.drop_last(), c)
    }
}

pub proof fn lemma_son_konum_sinir(s: Seq<char>, c: char)
    ensures
        son_konum(s, c) matches Some(k) ==> 0 <= k < s.len() && s[k] == c,
        son_konum(s, c) is None ==> forall|i: int| 0 <= i < s.len() ==> s[i] != c,
    decreases s.len(),
{
    if s.len() > 0 && s.last() != c {
        lemma_son_konum_sinir(s.drop_last(), c);
        assert forall|i: int| 0 <= i < s.len() && son_konum(s, c) is None implies s[i] != c by {
            if i < s.len() - 1 {
                assert(s.drop_last()[i] == s[i]);
            }
        }
    }
}

pub fn son_konum_bul(v: &[char], c: char) -> (r: Option<usize>)
    ensures
        son_konum(v@, c) matches Some(k) ==> r == Some(k as usize) && k == r->0,
        match son_konum(v@, c) {
            Some(k) => r == Some(k as usize),
            None => r is None,
        },
        r matches Some(k) ==> k < v@.len() && v@[k as int] == c,
{
    let mut j = v.len();
    proof {
        lemma_son_konum_sinir(v@, c);
    }
    assert(v@.take(j as int) =~= v@);
    while j > 0
        invariant
            j <= v@.len(),
            son_konum(v@, c) == son_konum(v@.take(j as int), c),
        decreases j,
    {
        if v[j - 1] == c {
            return Some(j - 1);
        }
        assert(v@.take(j as int).drop_last() =~= v@.take(j - 1));
        j -= 1;
    }
    None
}

/// `c` karakterinin ilk konumu.
pub open spec fn ilk_konum(s: Seq<char>, c: char) -> Option<int> {
    bul(s, seq![c])
}

// ---------- değiştirme ----------

/// `from`'un bütün örtüşmeyen geçişlerini soldan sağa `to` ile değiştirir (`replace`).
pub open spec fn degistir(s: Seq<char>, from: Seq<char>, to: Seq<char>) -> Seq<char>
    decreases s.len(),
{
    if s.len() == 0 {
        seq![]
    } else if from.len() > 0 && basla(s, from) {
        to + degistir(s.skip(from.len() as int), from, to)
    } else {
        seq![s[0]] + degistir(s.drop_first(), from, to)
    }
}

pub fn degistirilmis(v: &[char], from: &[char], to: &[char]) -> (r: Vec<char>)
    ensures
        r@ == degistir(v@, from@, to@),
{
    let mut r: Vec<char> = Vec::new();
    let mut i: usize = 0;
    assert(v@.skip(0) =~= v@);
    while i < v.len()
        invariant
            i <= v@.len(),
            degistir(v@, from@, to@) == r@ + degistir(v@.skip(i as int), from@, to@),
        decreases v@.len() - i,
    {
        if from.len() > 0 && basliyor(v, i, from) {
            let ghost once = r@;
            let mut k: usize = 0;
            while k < to.len()
                invariant
                    k <= to@.len(),
                    r@ == once + to@.take(k as int),
                decreases to@.len() - k,
            {
                r.push(to[k]);
                assert(to@.take(k + 1) =~= to@.take(k as int).push(to@[k as int]));
                k += 1;
            }
            assert(to@.take(to@.len() as int) =~= to@);
            assert(v@.skip(i as int).skip(from@.len() as int) =~= v@.skip(i + from@.len()));
            i = i + from.len();
        } else {
            r.push(v[i]);
            assert(v@.skip(i as int).drop_first() =~= v@.skip(i + 1));
            i += 1;
        }
    }
    assert(v@.skip(i as int) =~= Seq::<char>::empty());
    r
}


pub proof fn lemma_sol_kirp(s: Seq<char>)
    ensures
        sol_kirp(s).len() <= s.len(),
        s.len() > 0 && bosluk_mu(s[0]) ==> sol_kirp(s).len() < s.len(),
        sol_kirp(s).len() > 0 ==> !bosluk_mu(sol_kirp(s)[0]),
        s.skip(s.len() - sol_kirp(s).len()) == sol_kirp(s),
    decreases s.len(),
{
    if s.len() > 0 && bosluk_mu(s[0]) {
        lemma_sol_kirp(s.drop_first());
        assert(s.drop_first().skip(s.drop_first().len() - sol_kirp(s).len()) =~= s.skip(
            s.len() - sol_kirp(s).len(),
        ));
    } else {
        assert(s.skip(0) =~= s);
    }
}

pub proof fn lemma_sag_kirp(s: Seq<char>)
    ensures
        sag_kirp(s).len() <= s.len(),
        sag_kirp(s).len() > 0 ==> !bosluk_mu(sag_kirp(s).last()),
        s.take(sag_kirp(s).len() as int) == sag_kirp(s),
    decreases s.len(),
{
    if s.len() > 0 && bosluk_mu(s.last()) {
        lemma_sag_kirp(s.drop_last());
        assert(s.drop_last().take(sag_kirp(s).len() as int) =~= s.take(
            sag_kirp(s).len() as int,
        ));
    } else {
        assert(s.take(s.len() as int) =~= s);
    }
}

/// Boşluk olmayan karakterler.
pub open spec fn dolu(s: Seq<char>) -> Seq<char> {
    s.filter(|c: char| !bosluk_mu(c))
}

/// Baştan boşluk atmak dolu karakterleri değiştirmez.
pub proof fn lemma_sol_kirp_dolu(s: Seq<char>)
    ensures
        dolu(sol_kirp(s)) == dolu(s),
    decreases s.len(),
{
    if s.len() > 0 && bosluk_mu(s[0]) {
        lemma_sol_kirp_dolu(s.drop_first());
        assert(s =~= seq![s[0]] + s.drop_first());
        Seq::filter_distributes_over_add(seq![s[0]], s.drop_first(), |c: char| !bosluk_mu(c));
        reveal_with_fuel(Seq::filter, 2);
        assert(dolu(seq![s[0]]) =~= Seq::<char>::empty());
        assert(dolu(s) =~= dolu(s.drop_first()));
    }
}

/// Sondan boşluk atmak dolu karakterleri değiştirmez.
pub proof fn lemma_sag_kirp_dolu(s: Seq<char>)
    ensures
        dolu(sag_kirp(s)) == dolu(s),
    decreases s.len(),
{
    if s.len() > 0 && bosluk_mu(s.last()) {
        lemma_sag_kirp_dolu(s.drop_last());
        reveal(Seq::filter);
        assert(dolu(s) == dolu(s.drop_last()));
    }
}

pub proof fn lemma_kirp_dolu(s: Seq<char>)
    ensures
        dolu(kirp(s)) == dolu(s),
{
    lemma_sol_kirp_dolu(s);
    lemma_sag_kirp_dolu(sol_kirp(s));
}


/// Birleştirmeye bir parça daha eklemek.
pub proof fn lemma_birlestir_adim(xs: Seq<Seq<char>>, ayrac: Seq<char>, k: int)
    requires
        0 <= k < xs.len(),
    ensures
        birlestir(xs.take(k + 1), ayrac) == if k == 0 {
            xs[0]
        } else {
            birlestir(xs.take(k), ayrac) + ayrac + xs[k]
        },
{
    assert(xs.take(k + 1).drop_last() =~= xs.take(k));
    if k == 0 {
        assert(xs.take(1)[0] == xs[0]);
    }
}


/// Satırların (`str::lines`) `(başlangıç, bitiş)` aralıkları.
pub fn satir_araliklari(v: &[char]) -> (r: Vec<(usize, usize)>)
    ensures
        r@.len() == satirlar(v@).len(),
        forall|k: int|
            #![trigger r@[k]]
            0 <= k < r@.len() ==> r@[k].0 <= r@[k].1 <= v@.len() && satirlar(v@)[k]
                == v@.subrange(r@[k].0 as int, r@[k].1 as int),
{
    let p = ayir_araliklari(v, '\n');
    let ghost ps = ayir(v@, '\n');
    proof {
        lemma_ayir_bos_degil(v@, '\n');
    }
    let m = p.len();
    let son = p[m - 1];
    let adet = if son.0 == son.1 {
        m - 1
    } else {
        m
    };
    let ghost q = if ps.last().len() == 0 {
        ps.drop_last()
    } else {
        ps
    };
    assert(ps.last() == v@.subrange(son.0 as int, son.1 as int));
    assert(q.len() == adet);
    let mut r: Vec<(usize, usize)> = Vec::new();
    let mut k: usize = 0;
    while k < adet
        invariant
            k <= adet <= m == p@.len() == ps.len(),
            adet == q.len(),
            q == (if ps.last().len() == 0 {
                ps.drop_last()
            } else {
                ps
            }),
            ps == ayir(v@, '\n'),
            forall|t: int|
                #![trigger p@[t]]
                0 <= t < p@.len() ==> p@[t].0 <= p@[t].1 <= v@.len() && ps[t] == v@.subrange(
                    p@[t].0 as int,
                    p@[t].1 as int,
                ),
            r@.len() == k,
            forall|t: int|
                #![trigger r@[t]]
                0 <= t < k ==> r@[t].0 <= r@[t].1 <= v@.len() && satirlar(v@)[t]
                    == v@.subrange(r@[t].0 as int, r@[t].1 as int),
        decreases adet - k,
    {
        let (a, b) = p[k];
        assert(q[k as int] == ps[k as int]);
        if k + 1 < m && b > a && v[b - 1] == '\r' {
            r.push((a, b - 1));
            assert(v@.subrange(a as int, b - 1) =~= v@.subrange(a as int, b as int).drop_last());
        } else {
            r.push((a, b));
        }
        assert(r@[k as int] == r@.last());
        k += 1;
    }
    r
}


/// İki karakter dizisi aynı mı.
pub fn ayni_dizi(a: &[char], b: &[char]) -> (r: bool)
    ensures
        r == (a@ == b@),
{
    if a.len() != b.len() {
        return false;
    }
    let mut i: usize = 0;
    while i < a.len()
        invariant
            i <= a@.len() == b@.len(),
            forall|t: int| 0 <= t < i ==> a@[t] == b@[t],
        decreases a@.len() - i,
    {
        if a[i] != b[i] {
            assert(a@[i as int] != b@[i as int]);
            return false;
        }
        i += 1;
    }
    assert(a@ =~= b@);
    true
}

/// Karakter dizisinin kopyası.
pub fn kopya(v: &[char], lo: usize, hi: usize) -> (r: Vec<char>)
    requires
        lo <= hi <= v@.len(),
    ensures
        r@ == v@.subrange(lo as int, hi as int),
{
    let mut r: Vec<char> = Vec::new();
    let mut i = lo;
    while i < hi
        invariant
            lo <= i <= hi <= v@.len(),
            r@ == v@.subrange(lo as int, i as int),
        decreases hi - i,
    {
        r.push(v[i]);
        assert(v@.subrange(lo as int, i + 1) =~= v@.subrange(lo as int, i as int).push(v@[i as int]));
        i += 1;
    }
    r
}

} // verus!
