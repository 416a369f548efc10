//! Metin yardımcıları: küçük harf, spoiler, tek satır, sayaç, hata kırpma.
use vstd::prelude::*;
use crate::ayarlar::MESAJ_SINIRI;
use crate::metin::{
    basla, basliyor, daralt, daraltilmis, degistir, degistirilmis, icerir, iceriyor,
    karakterler, kelime_sayisi, kelimeler, kirp, kirp_sinir, metne, metin_yap, bul, bul_konum,
    son_konum, son_konum_bul, birlestir, lemma_birlestir_adim,
};

verus! {

broadcast use vstd::string::group_string_axioms;

/// `str::to_lowercase`'in sonucu.
pub uninterp spec fn kucuk_harf_metni(s: Seq<char>) -> Seq<char>;

/// `char::to_lowercase`'in verdiği karakterler.
pub uninterp spec fn kucuk_harf(c: char) -> Seq<char>;

/// `str::to_lowercase`: metnin küçük harfli karşılığı (Unicode küçük harf eşlemesi). Sonuç
/// yalnız metne bağlıdır; yalnız ASCII karakterlerden oluşan metinde her büyük harf ASCII
/// küçüğüne döner, diğer karakterler olduğu gibi kalır. ASCII dışındaki karakterlerin
/// eşlemesi belirtilmez.
#[verifier::external_body]
pub(crate) fn kucuk_harfe_cevir(s: &str) -> (r: String)
    ensures
        r@ == kucuk_harf_metni(s@),
        (forall|j: int| 0 <= j < s@.len() ==> (s@[j] as u32) < 128) ==> r@ == s@.map_values(
            |c: char| crate::tur::ascii_kucuk(c),
        ),
{
    s.to_lowercase()
}

/// `char::to_lowercase`: karakterin küçük harf karşılığı; belgesine göre bir ya da daha
/// çok karakterdir.
#[verifier::external_body]
fn harf_kucult(c: char) -> (r: Vec<char>)
    ensures
        r@ == kucuk_harf(c),
        r@.len() >= 1,
{
    c.to_lowercase().collect()
}

/// İ→i̇ dönüşümünün eklediği birleşik nokta (U+0307) dışındaki karakterler.
pub open spec fn noktasiz(s: Seq<char>) -> Seq<char> {
    s.filter(|c: char| c != '\u{307}')
}

/// Karşılaştırma için küçük harf: `to_lowercase`, ardından birleşik nokta atılır.
pub open spec fn kucult_spec(s: Seq<char>) -> Seq<char> {
    noktasiz(kucuk_harf_metni(s))
}

/// Birleşik nokta içermeyen metinden süzülecek bir şey yoktur.
pub proof fn lemma_noktasiz_ayni(s: Seq<char>)
    requires
        forall|j: int| 0 <= j < s.len() ==> s[j] != '\u{307}',
    ensures
        noktasiz(s) == s,
    decreases s.len(),
{
    reveal(Seq::filter);
    if s.len() > 0 {
        lemma_noktasiz_ayni(s.drop_last());
        assert(s.drop_last().push(s.last()) =~= s);
    } else {
        assert(noktasiz(s) =~= s);
    }
}

/// Birleşik noktayı süzer.
fn noktasiz_yap(v: &[char]) -> (r: Vec<char>)
    ensures
        r@ == noktasiz(v@),
{
    let mut r: Vec<char> = Vec::new();
    let mut i: usize = 0;
    while i < v.len()
        invariant
            i <= v@.len(),
            r@ == noktasiz(v@.take(i as int)),
        decreases v@.len() - i,
    {
        proof {
            reveal(Seq::filter);
            assert(v@.take(i + 1).drop_last() =~= v@.take(i as int));
        }
        if v[i] != '\u{307}' {
            r.push(v[i]);
        }
        i += 1;
    }
    assert(v@.take(v@.len() as int) =~= v@);
    r
}

/// Karşılaştırma için küçük harfe indirir; "ŞAHİN"/"şahin" gibi adlar eşleşsin diye
/// İ→i̇ dönüşümünün eklediği birleşik nokta atılır.
pub fn kucult(s: &str) -> (r: String)
    ensures
        r@ == kucult_spec(s@),
{
    let k = kucuk_harfe_cevir(s);
    let v = karakterler(k.as_str());
    let n = noktasiz_yap(&v);
    metne(&n)
}

/// Karakter karakter küçültülmüş, birleşik noktası atılmış dizi.
pub open spec fn harf_harf_kucult(s: Seq<char>) -> Seq<char>
    decreases s.len(),
{
    if s.len() == 0 {
        seq![]
    } else {
        harf_harf_kucult(s.drop_last()) + noktasiz(kucuk_harf(s.last()))
    }
}

/// `v[lo..hi]`'yi karakter karakter küçültür.
pub fn harf_harf_kucultulmus(v: &[char], lo: usize, hi: usize) -> (r: Vec<char>)
    requires
        lo <= hi <= v@.len(),
    ensures
        r@ == harf_harf_kucult(v@.subrange(lo as int, hi as int)),
{
    let mut r: Vec<char> = Vec::new();
    let mut i = lo;
    while i < hi
        invariant
            lo <= i <= hi <= v@.len(),
            r@ == harf_harf_kucult(v@.subrange(lo as int, i as int)),
        decreases hi - i,
    {
        let k = harf_kucult(v[i]);
        let n = noktasiz_yap(&k);
        let mut j: usize = 0;
        let ghost once = r@;
        while j < n.len()
            invariant
                j <= n@.len(),
                r@ == once + n@.take(j as int),
            decreases n@.len() - j,
        {
            r.push(n[j]);
            assert(n@.take(j + 1) =~= n@.take(j as int).push(n@[j as int]));
            j += 1;
        }
        assert(n@.take(n@.len() as int) =~= n@);
        assert(v@.subrange(lo as int, i + 1).drop_last() =~= v@.subrange(lo as int, i as int));
        i += 1;
    }
    r
}

// ---------- biçimler ----------

/// Discord spoiler'ı: içindeki dik çizgiler kaçırılır ki spoiler bozulmasın.
pub open spec fn spoiler_spec(s: Seq<char>) -> Seq<char> {
    seq!['|', '|'] + degistir(s, seq!['|'], seq!['\\', '|']) + seq!['|', '|']
}

pub fn ekle(r: &mut Vec<char>, p: &[char])
    ensures
        final(r)@ == old(r)@ + p@,
{
    let ghost once = r@;
    let mut j: usize = 0;
    while j < p.len()
        invariant
            j <= p@.len(),
            r@ == once + p@.take(j as int),
        decreases p@.len() - j,
    {
        r.push(p[j]);
        assert(p@.take(j + 1) =~= p@.take(j as int).push(p@[j as int]));
        j += 1;
    }
    assert(p@.take(p@.len() as int) =~= p@);
}

/// Karakter dizisinin sonuna bir metnin karakterleri eklenir.
pub fn ekle_metin(r: &mut Vec<char>, s: &str)
    ensures
        final(r)@ == old(r)@ + s@,
{
    let v = karakterler(s);
    ekle(r, &v);
}

/// Metinler aralarına ayraç konarak birleştirilir (`join`).
pub fn birlestirilmis(parcalar: &Vec<String>, ayrac: &str) -> (r: String)
    ensures
        r@ == birlestir(parcalar.deep_view(), ayrac@),
{
    let ghost xs = parcalar.deep_view();
    let mut v: Vec<char> = Vec::new();
    let mut k: usize = 0;
    while k < parcalar.len()
        invariant
            k <= parcalar@.len(),
            xs == parcalar.deep_view(),
            v@ == birlestir(xs.take(k as int), ayrac@),
        decreases parcalar@.len() - k,
    {
        proof {
            lemma_birlestir_adim(xs, ayrac@, k as int);
        }
        if k > 0 {
            ekle_metin(&mut v, ayrac);
        } else {
            assert(xs.take(0) =~= Seq::<Seq<char>>::empty());
        }
        ekle_metin(&mut v, parcalar[k].as_str());
        k += 1;
    }
    assert(xs.take(k as int) =~= xs);
    metne(&v)
}

pub fn spoiler(s: &str) -> (r: String)
    ensures
        r@ == spoiler_spec(s@),
{
    let v = karakterler(s);
    let from = vec!['|'];
    let to = vec!['\\', '|'];
    assert(from@ =~= seq!['|']);
    assert(to@ =~= seq!['\\', '|']);
    let ic = degistirilmis(&v, &from, &to);
    let mut r = vec!['|', '|'];
    let kapak = vec!['|', '|'];
    assert(r@ =~= seq!['|', '|']);
    assert(kapak@ =~= seq!['|', '|']);
    ekle(&mut r, &ic);
    ekle(&mut r, &kapak);
    metne(&r)
}

/// Boşluklar tek boşluğa indirilir: düşünce tek akıcı satır olur.
pub fn tek_satir(s: &str) -> (r: String)
    ensures
        r@ == daralt(s@),
{
    let v = karakterler(s);
    let d = daraltilmis(&v);
    metne(&d)
}

/// Hata gövdesini tek satıra indirir: en çok 300 karakter.
pub open spec fn kirp_hata_spec(s: Seq<char>) -> Seq<char> {
    let d = daralt(s);
    if d.len() > 300 {
        d.take(300)
    } else {
        d
    }
}

pub fn kirp_hata(s: &str) -> (r: String)
    ensures
        r@ == kirp_hata_spec(s@),
{
    let v = karakterler(s);
    let d = daraltilmis(&v);
    let n = if d.len() > 300 {
        300
    } else {
        d.len()
    };
    let r = metin_yap(&d, 0, n);
    assert(d@.subrange(0, n as int) =~= kirp_hata_spec(s@));
    r
}

// ---------- sayılar ----------

/// Bir rakamın karakteri.
pub open spec fn rakam(d: nat) -> char {
    if d == 0 { '0' } else if d == 1 { '1' } else if d == 2 { '2' } else if d == 3 { '3' }
    else if d == 4 { '4' } else if d == 5 { '5' } else if d == 6 { '6' } else if d == 7 { '7' }
    else if d == 8 { '8' } else { '9' }
}

/// Sayının ondalık yazılışı (`to_string`).
pub open spec fn ondalik(n: nat) -> Seq<char>
    decreases n,
{
    if n < 10 {
        seq![rakam(n)]
    } else {
        ondalik(n / 10).push(rakam(n % 10))
    }
}

fn rakam_karakteri(d: usize) -> (c: char)
    requires
        d < 10,
    ensures
        c == rakam(d as nat),
{
    if d == 0 { '0' } else if d == 1 { '1' } else if d == 2 { '2' } else if d == 3 { '3' }
    else if d == 4 { '4' } else if d == 5 { '5' } else if d == 6 { '6' } else if d == 7 { '7' }
    else if d == 8 { '8' } else { '9' }
}

/// 64 bitlik sayının ondalık yazılışı.
pub fn ondalik_yaz_u64(n: u64) -> (r: Vec<char>)
    ensures
        r@ == ondalik(n as nat),
    decreases n,
{
    if n < 10 {
        vec![rakam_karakteri(n as usize)]
    } else {
        let mut r = ondalik_yaz_u64(n / 10);
        r.push(rakam_karakteri((n % 10) as usize));
        r
    }
}

/// Sayının ondalık yazılışı.
pub fn ondalik_yaz(n: usize) -> (r: Vec<char>)
    ensures
        r@ == ondalik(n as nat),
    decreases n,
{
    if n < 10 {
        vec![rakam_karakteri(n)]
    } else {
        let mut r = ondalik_yaz(n / 10);
        r.push(rakam_karakteri(n % 10));
        r
    }
}

/// Gizli kipte düşünürken canlı sayaç metni.
pub open spec fn dusunce_sayaci_spec(d: Seq<char>) -> Seq<char> {
    "Düşünüyorum... Şu ana kadar "@ + ondalik(kelimeler(d).len()) + " kelime düşündüm."@
}

/// Gizli kipte düşünürken canlı sayaç: kaçıncı kelimede olduğu görünür.
pub fn dusunce_sayaci(dusunce: &str) -> (r: String)
    ensures
        r@ == dusunce_sayaci_spec(dusunce@),
{
    let v = karakterler(dusunce);
    let n = kelime_sayisi(&v);
    let mut r = karakterler("Düşünüyorum... Şu ana kadar ");
    let s = ondalik_yaz(n);
    ekle(&mut r, &s);
    let son = karakterler(" kelime düşündüm.");
    ekle(&mut r, &son);
    metne(&r)
}


// ---------- ad öneki ve tırnak ----------

/// Modelin başa ekleyebildiği "ad:" öneki ve sarmalayan çift tırnak soyulur.
pub open spec fn soy_spec(metin: Seq<char>, bot_adi: Seq<char>) -> Seq<char> {
    let m = kirp(metin);
    let onek = bot_adi.push(':');
    let k = onek.len();
    let bas = harf_harf_kucult(if m.len() > k {
        m.take(k as int)
    } else {
        m
    });
    let m2 = if basla(bas, kucult_spec(onek)) {
        if m.len() > k {
            kirp(m.skip(k as int))
        } else {
            seq![]
        }
    } else {
        m
    };
    if m2.len() > 1 && m2[0] == '"' && m2.last() == '"' {
        m2.subrange(1, m2.len() - 1)
    } else {
        m2
    }
}

/// `soy`'un vardığı karakter aralığı.
fn soy_araligi(v: &[char], bot_adi: &str) -> (r: (usize, usize))
    ensures
        r.0 <= r.1 <= v@.len(),
        v@.subrange(r.0 as int, r.1 as int) == soy_spec(v@, bot_adi@),
{
    let n = v.len();
    assert(v@.subrange(0, n as int) =~= v@);
    let (a, b) = kirp_sinir(v, 0, n);
    let ghost m = kirp(v@);
    let mut onek = karakterler(bot_adi);
    onek.push(':');
    let k = onek.len();
    let son = if b - a > k {
        a + k
    } else {
        b
    };
    assert(v@.subrange(a as int, son as int) =~= (if m.len() > k {
        m.take(k as int)
    } else {
        m
    }));
    let bas = harf_harf_kucultulmus(v, a, son);
    let onek_metni = metne(&onek);
    let kucuk = kucult(onek_metni.as_str());
    let kv = karakterler(kucuk.as_str());
    assert(bas@.skip(0) =~= bas@);
    let (mut x, mut y) = (a, b);
    if basliyor(&bas, 0, &kv) {
        if b - a > k {
            let (c, d) = kirp_sinir(v, a + k, b);
            assert(m.skip(k as int) =~= v@.subrange(a + k, b as int));
            x = c;
            y = d;
        } else {
            x = b;
            y = b;
        }
    }
    if y - x > 1 && v[x] == '"' && v[y - 1] == '"' {
        assert(v@.subrange(x as int, y as int).subrange(1, y - x - 1) =~= v@.subrange(
            x + 1,
            y - 1,
        ));
        x = x + 1;
        y = y - 1;
    }
    (x, y)
}

/// Modelin başa ekleyebildiği "ad:" önekini (büyük/küçük harf duyarsız) ve sarmalayan
/// çift tırnakları soyar; metnin bir dilimini döndürür.
pub fn soy<'a>(metin: &'a str, bot_adi: &str) -> (r: &'a str)
    ensures
        r@ == soy_spec(metin@, bot_adi@),
{
    let v = karakterler(metin);
    let (x, y) = soy_araligi(&v, bot_adi);
    metin.substring_char(x, y)
}

/// Akışsız yollar tek mesajla sınırlı: soyulur ve mesaj sınırında kesilir.
pub open spec fn temizle_spec(metin: Seq<char>, bot_adi: Seq<char>) -> Seq<char> {
    let m = soy_spec(metin, bot_adi);
    if m.len() > MESAJ_SINIRI {
        m.take(MESAJ_SINIRI as int)
    } else {
        m
    }
}

pub fn temizle(metin: &str, bot_adi: &str) -> (r: String)
    ensures
        r@ == temizle_spec(metin@, bot_adi@),
{
    let v = karakterler(metin);
    let (x, y) = soy_araligi(&v, bot_adi);
    let z = if y - x > MESAJ_SINIRI {
        x + MESAJ_SINIRI
    } else {
        y
    };
    let r = metin_yap(&v, x, z);
    assert(v@.subrange(x as int, z as int) =~= temizle_spec(metin@, bot_adi@));
    r
}

// ---------- süsler ve hata metinleri ----------

/// ```json ... ``` gibi süslerin içinden ilk `{` ile son `}` arası; yoksa metnin kendisi.
pub open spec fn json_ayikla_spec(s: Seq<char>) -> Seq<char> {
    match (bul(s, seq!['{']), son_konum(s, '}')) {
        (Some(b), Some(e)) => if e > b {
            s.subrange(b, e + 1)
        } else {
            s
        },
        _ => s,
    }
}

pub fn json_ayikla(metin: &str) -> (r: &str)
    ensures
        r@ == json_ayikla_spec(metin@),
{
    let v = karakterler(metin);
    let ac = vec!['{'];
    assert(ac@ =~= seq!['{']);
    assert(v@.skip(0) =~= v@);
    let n = v.len();
    let ilk = bul_konum(&v, 0, &ac);
    let son = son_konum_bul(&v, '}');
    proof {
        crate::metin::lemma_bul_sinir(v@, ac@);
        match bul(v@, ac@) {
            Some(k) => assert(k == ilk->0),
            None => {},
        }
        match son_konum(v@, '}') {
            Some(k) => assert(son == Some(k as usize) && k == son->0),
            None => {},
        }
        assert(v@ == metin@);
        assert(bul(metin@, seq!['{']) == bul(v@, ac@));
    }
    match (ilk, son) {
        (Some(b), Some(e)) => {
            assert(e < n);
            if e > b {
                metin.substring_char(b, e + 1)
            } else {
                metin
            }
        },
        _ => metin,
    }
}

/// Sağlayıcı "reasoning kapatılamaz" diye mi döndü.
pub open spec fn reasoning_zorunlu_spec(govde: Seq<char>) -> bool {
    let m = kucuk_harf_metni(govde);
    icerir(m, "reasoning"@) && (icerir(m, "mandatory"@) || icerir(m, "cannot be disabled"@))
}

pub fn reasoning_zorunlu_hatasi(govde_metni: &str) -> (r: bool)
    ensures
        r == reasoning_zorunlu_spec(govde_metni@),
{
    let m = kucuk_harfe_cevir(govde_metni);
    let v = karakterler(m.as_str());
    iceriyor(&v, &karakterler("reasoning")) && (iceriyor(&v, &karakterler("mandatory"))
        || iceriyor(&v, &karakterler("cannot be disabled")))
}

/// `cache_control` yalnız OpenRouter adresine giden isteğe eklenir.
pub fn onbellek_destekler(api_adres: &str) -> (r: bool)
    ensures
        r == icerir(api_adres@, "openrouter.ai"@),
{
    iceriyor(&karakterler(api_adres), &karakterler("openrouter.ai"))
}

} // verus!
