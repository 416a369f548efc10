//! Türkiye gündemi: RSS ayrıştırma, HTML temizliği, gündem günlüğünün girdileri.
use vstd::prelude::*;
use std::collections::hash_map::DefaultHasher;
use std::hash::Hasher;
use vstd::std_specs::hash::DefaultHasherAdditionalSpecFns;
use vstd::string::StringSliceAdditionalSpecFns;
use crate::metin::{
    ayir, bosluk_mu, lemma_ayir_ayracsiz, lemma_ayir_bas, lemma_ayir_karakterleri, lemma_ayir_birlestir, lemma_ayir_bos_degil, lemma_ayir_ekle,
    lemma_ayir_tek, lemma_birlestir_bas, lemma_kirp_dolu_karakter, lemma_sag_kirp,
    lemma_sag_kirp_korur, lemma_sol_kirp, sag_kirp, sol_kirp,
    basla, basliyor, birlestir, bul, bul_konum, daralt, daraltilmis,
    degistir, degistirilmis, karakterler, kirp, kirp_sinir, lemma_birlestir_adim, lemma_bul_sinir,
    metin_yap, metne, satir_araliklari, satirlar,
};
use crate::yardimci::ekle;

verus! {

broadcast use vstd::string::group_string_axioms;

// ---------- HTML temizliği ----------

/// `<etiket` ile `</etiket>` arası tek boşlukla değiştirilir; kapanışı olmayan açılışta durur.
pub open spec fn blok_sil(s: Seq<char>, etiket: Seq<char>) -> Seq<char>
    decreases s.len(),
{
    let ac = seq!['<'] + etiket;
    let kapa = seq!['<', '/'] + etiket + seq!['>'];
    match bul(s, ac) {
        Some(b) => match bul(s.skip(b), kapa) {
            Some(e) => {
                proof {
                    lemma_bul_sinir(s, ac);
                    lemma_bul_sinir(s.skip(b), kapa);
                }
                blok_sil(s.take(b) + seq![' '] + s.skip(b + e + kapa.len()), etiket)
            },
            None => s,
        },
        None => s,
    }
}

/// Etiketlerin (`<` ile `>` arasının) dışında kalan karakterler.
pub open spec fn etiket_disi(s: Seq<char>, ic: bool) -> Seq<char>
    decreases s.len(),
{
    if s.len() == 0 {
        seq![]
    } else if s[0] == '<' {
        etiket_disi(s.drop_first(), true)
    } else if s[0] == '>' {
        etiket_disi(s.drop_first(), false)
    } else if !ic {
        seq![s[0]] + etiket_disi(s.drop_first(), false)
    } else {
        etiket_disi(s.drop_first(), true)
    }
}

/// HTML karakter varlıkları çözülür.
pub open spec fn varlik_coz(s: Seq<char>) -> Seq<char> {
    degistir(
        degistir(
            degistir(
                degistir(degistir(degistir(s, "&amp;"@, "&"@), "&lt;"@, "<"@), "&gt;"@, ">"@),
                "&quot;"@,
                "\""@,
            ),
            "&#39;"@,
            "'"@,
        ),
        "&nbsp;"@,
        " "@,
    )
}

/// HTML'den düz metin: CDATA işaretleri, script/style blokları ve etiketler atılır, varlıklar
/// çözülür, boşluklar tek boşluğa indirilir.
pub open spec fn clean_html_spec(raw: Seq<char>) -> Seq<char> {
    let s = degistir(degistir(raw, "<![CDATA["@, ""@), "]]>"@, ""@);
    let s = blok_sil(blok_sil(s, "script"@), "style"@);
    daralt(varlik_coz(etiket_disi(s, false)))
}

fn blok_silinmis(girdi: &Vec<char>, etiket: &str) -> (r: Vec<char>)
    ensures
        r@ == blok_sil(girdi@, etiket@),
{
    let ghost ilk = girdi@;
    let mut s = girdi.clone();
    assert(s@ =~= ilk);
    let e = karakterler(etiket);
    let mut ac = vec!['<'];
    ekle(&mut ac, &e);
    let mut kapa = vec!['<', '/'];
    ekle(&mut kapa, &e);
    kapa.push('>');
    assert(ac@ =~= seq!['<'] + etiket@);
    assert(kapa@ =~= seq!['<', '/'] + etiket@ + seq!['>']);
    loop
        invariant
            ac@ == seq!['<'] + etiket@,
            kapa@ == seq!['<', '/'] + etiket@ + seq!['>'],
            ilk == girdi@,
            blok_sil(ilk, etiket@) == blok_sil(s@, etiket@),
        decreases s@.len(),
    {
        assert(s@.skip(0) =~= s@);
        let bas = bul_konum(&s, 0, &ac);
        proof {
            lemma_bul_sinir(s@, ac@);
            match bul(s@, ac@) {
                Some(k) => assert(k == bas->0),
                None => {},
            }
        }
        match bas {
            None => {
                assert(bul(s@, seq!['<'] + etiket@) is None);
                assert(blok_sil(s@, etiket@) == s@);
                return s;
            },
            Some(b) => {
                let son = bul_konum(&s, b, &kapa);
                proof {
                    lemma_bul_sinir(s@.skip(b as int), kapa@);
                    match bul(s@.skip(b as int), kapa@) {
                        Some(k) => assert(son->0 == b + k),
                        None => {},
                    }
                }
                match son {
                    None => {
                        assert(bul(s@.skip(b as int), seq!['<', '/'] + etiket@ + seq!['>']) is None);
                        assert(blok_sil(s@, etiket@) == s@);
                        return s;
                    },
                    Some(x) => {
                        let n = s.len();
                        let mut yeni: Vec<char> = Vec::new();
                        let mut i: usize = 0;
                        while i < b
                            invariant
                                i <= b <= n == s@.len(),
                                yeni@ == s@.take(i as int),
                            decreases b - i,
                        {
                            yeni.push(s[i]);
                            assert(s@.take(i + 1) =~= s@.take(i as int).push(s@[i as int]));
                            i += 1;
                        }
                        yeni.push(' ');
                        let mut j = x + kapa.len();
                        let ghost once = yeni@;
                        while j < n
                            invariant
                                x + kapa@.len() <= j <= n == s@.len(),
                                yeni@ == once + s@.subrange(x + kapa@.len(), j as int),
                            decreases n - j,
                        {
                            yeni.push(s[j]);
                            assert(s@.subrange(x + kapa@.len(), j + 1) =~= s@.subrange(
                                x + kapa@.len(),
                                j as int,
                            ).push(s@[j as int]));
                            j += 1;
                        }
                        assert(yeni@ =~= s@.take(b as int) + seq![' '] + s@.skip(
                            x + kapa@.len(),
                        ));
                        s = yeni;
                    },
                }
            },
        }
    }
}


fn etiketsiz(v: &[char]) -> (r: Vec<char>)
    ensures
        r@ == etiket_disi(v@, false),
{
    let mut r: Vec<char> = Vec::new();
    let mut ic = false;
    let mut i: usize = 0;
    assert(v@.skip(0) =~= v@);
    while i < v.len()
        invariant
            i <= v@.len(),
            etiket_disi(v@, false) == r@ + etiket_disi(v@.skip(i as int), ic),
        decreases v@.len() - i,
    {
        let c = v[i];
        assert(v@.skip(i as int).drop_first() =~= v@.skip(i + 1));
        if c == '<' {
            ic = true;
        } else if c == '>' {
            ic = false;
        } else if !ic {
            r.push(c);
        }
        i += 1;
    }
    assert(v@.skip(i as int) =~= Seq::<char>::empty());
    r
}

fn degistir_str(v: &[char], from: &str, to: &str) -> (r: Vec<char>)
    ensures
        r@ == degistir(v@, from@, to@),
{
    degistirilmis(v, &karakterler(from), &karakterler(to))
}

/// HTML'den düz metin: script/style blokları atılır, etiketler soyulur, varlıklar çözülür,
/// boşluklar tek boşluğa indirilir.
pub fn clean_html(raw: &str) -> (r: String)
    ensures
        r@ == clean_html_spec(raw@),
{
    let v = karakterler(raw);
    let v = degistir_str(&v, "<![CDATA[", "");
    let v = degistir_str(&v, "]]>", "");
    let v = blok_silinmis(&v, "script");
    let v = blok_silinmis(&v, "style");
    let v = etiketsiz(&v);
    let v = degistir_str(&v, "&amp;", "&");
    let v = degistir_str(&v, "&lt;", "<");
    let v = degistir_str(&v, "&gt;", ">");
    let v = degistir_str(&v, "&quot;", "\"");
    let v = degistir_str(&v, "&#39;", "'");
    let v = degistir_str(&v, "&nbsp;", " ");
    let d = daraltilmis(&v);
    metne(&d)
}

// ---------- RSS ----------

/// Bir XML parçasından `<etiket>`/`<etiket ...>` ile `</etiket>` arasının temizlenmiş metni.
pub open spec fn tag_content_spec(chunk: Seq<char>, etiket: Seq<char>) -> Option<Seq<char>> {
    let bas = match bul(chunk, seq!['<'] + etiket + seq!['>']) {
        Some(b) => Some(b),
        None => bul(chunk, seq!['<'] + etiket + seq![' ']),
    };
    match bas {
        Some(b) => match bul(chunk.skip(b), seq!['>']) {
            Some(g) => {
                let start = b + g + 1;
                match bul(chunk.skip(start), seq!['<', '/'] + etiket + seq!['>']) {
                    Some(e) => Some(clean_html_spec(chunk.subrange(start, start + e))),
                    None => None,
                }
            },
            None => None,
        },
        None => None,
    }
}

fn ac_kalibi(etiket: &str, son: char) -> (r: Vec<char>)
    ensures
        r@ == seq!['<'] + etiket@ + seq![son],
{
    let mut r: Vec<char> = Vec::new();
    r.push('<');
    ekle(&mut r, &karakterler(etiket));
    r.push(son);
    assert(r@ =~= seq!['<'] + etiket@ + seq![son]);
    r
}

fn kapa_kalibi(etiket: &str) -> (r: Vec<char>)
    ensures
        r@ == seq!['<', '/'] + etiket@ + seq!['>'],
{
    let mut r: Vec<char> = Vec::new();
    r.push('<');
    r.push('/');
    ekle(&mut r, &karakterler(etiket));
    r.push('>');
    assert(r@ =~= seq!['<', '/'] + etiket@ + seq!['>']);
    r
}

/// `v[lo..]` içinde ilk bulunuş, dizinin başına göre konum olarak.
fn bul_int(v: &[char], lo: usize, p: &[char]) -> (r: Option<usize>)
    requires
        lo <= v@.len(),
    ensures
        match bul(v@.skip(lo as int), p@) {
            Some(k) => r is Some && r->0 == lo + k && lo + k + p@.len() <= v@.len(),
            None => r is None,
        },
        r matches Some(x) ==> lo <= x && x + p@.len() <= v@.len(),
{
    let r = bul_konum(v, lo, p);
    proof {
        match bul(v@.skip(lo as int), p@) {
            Some(k) => {
                assert(r->0 == lo + k);
            },
            None => {},
        }
    }
    r
}

/// `v` içinde etiketin temizlenmiş içeriği.
fn etiket_icerigi(v: &[char], etiket: &str) -> (r: Option<String>)
    ensures
        match tag_content_spec(v@, etiket@) {
            Some(t) => r matches Some(x) && x@ == t,
            None => r is None,
        },
{
    assert(v@.skip(0) =~= v@);
    let n = v.len();
    let ac1 = ac_kalibi(etiket, '>');
    let ac2 = ac_kalibi(etiket, ' ');
    let kapa = kapa_kalibi(etiket);
    let kapanis = vec!['>'];
    assert(kapanis@ =~= seq!['>']);
    let bas = match bul_int(v, 0, &ac1) {
        Some(b) => Some(b),
        None => bul_int(v, 0, &ac2),
    };
    match bas {
        None => None,
        Some(b) => match bul_int(v, b, &kapanis) {
            None => None,
            Some(g) => {
                let start = g + 1;
                assert(v@.skip(b as int).skip((g - b + 1) as int) =~= v@.skip(start as int));
                match bul_int(v, start, &kapa) {
                    None => None,
                    Some(e) => {
                        let parca = metin_yap(v, start, e);
                        Some(clean_html(parca.as_str()))
                    },
                }
            },
        },
    }
}

/// Bir XML parçasından `<etiket>`/`<etiket ...>` ile `</etiket>` arasının temizlenmiş
/// metni; bulunamazsa `None`.
pub fn tag_content(chunk: &str, etiket: &str) -> (r: Option<String>)
    ensures
        match tag_content_spec(chunk@, etiket@) {
            Some(t) => r matches Some(x) && x@ == t,
            None => r is None,
        },
{
    let v = karakterler(chunk);
    etiket_icerigi(&v, etiket)
}


/// Bir kalıpta ayırma (`split(kalip)`), boş olmayan kalıp için.
pub open spec fn ayir_kalip(s: Seq<char>, p: Seq<char>) -> Seq<Seq<char>>
    decreases s.len(),
{
    if p.len() == 0 {
        seq![s]
    } else {
        match bul(s, p) {
            Some(i) => {
                proof {
                    lemma_bul_sinir(s, p);
                }
                seq![s.take(i)] + ayir_kalip(s.skip(i + p.len()), p)
            },
            None => seq![s],
        }
    }
}

/// `s[lo..]` ile başlayan ayırma parçalarının aralıkları.
fn ayir_kalip_araliklari(v: &[char], p: &[char]) -> (r: Vec<(usize, usize)>)
    requires
        p@.len() > 0,
    ensures
        r@.len() == ayir_kalip(v@, p@).len(),
        forall|k: int|
            #![trigger r@[k]]
            0 <= k < r@.len() ==> r@[k].0 <= r@[k].1 <= v@.len() && ayir_kalip(v@, p@)[k]
                == v@.subrange(r@[k].0 as int, r@[k].1 as int),
{
    let mut r: Vec<(usize, usize)> = Vec::new();
    let ghost mut yapilan: Seq<Seq<char>> = seq![];
    let mut lo: usize = 0;
    let n = v.len();
    assert(v@.skip(0) =~= v@);
    loop
        invariant
            n == v@.len(),
            lo <= v@.len(),
            p@.len() > 0,
            ayir_kalip(v@, p@) == yapilan + ayir_kalip(v@.skip(lo as int), p@),
            r@.len() == yapilan.len(),
            forall|k: int|
                #![trigger r@[k]]
                0 <= k < r@.len() ==> r@[k].0 <= r@[k].1 <= v@.len() && yapilan[k]
                    == v@.subrange(r@[k].0 as int, r@[k].1 as int),
        decreases v@.len() - lo,
    {
        match bul_int(v, lo, p) {
            Some(i) => {
                proof {
                    let k = bul(v@.skip(lo as int), p@)->0;
                    assert(v@.skip(lo as int).take(k) =~= v@.subrange(lo as int, i as int));
                    assert(v@.skip(lo as int).skip(k + p@.len()) =~= v@.skip(i + p@.len()));
                    yapilan = yapilan.push(v@.subrange(lo as int, i as int));
                }
                r.push((lo, i));
                lo = i + p.len();
            },
            None => {
                proof {
                    assert(v@.skip(lo as int) =~= v@.subrange(lo as int, v@.len() as int));
                    yapilan = yapilan.push(v@.subrange(lo as int, v@.len() as int));
                }
                r.push((lo, v.len()));
                assert(ayir_kalip(v@, p@) =~= yapilan);
                return r;
            },
        }
    }
}

/// Tek RSS öğesi: başlık, bağlantı, özet (akışın kendi açıklaması, HTML'den temizlenmiş).
pub struct RssNews {
    pub title: String,
    pub link: String,
    pub summary: String,
}

impl View for RssNews {
    type V = (Seq<char>, Seq<char>, Seq<char>);

    open spec fn view(&self) -> (Seq<char>, Seq<char>, Seq<char>) {
        (self.title@, self.link@, self.summary@)
    }
}

/// `<item` sonrası bir parçadan öğe: başlığı boş olmayan, bağlantısı "http" ile başlayan.
pub open spec fn rss_ogesi(parca: Seq<char>) -> Option<(Seq<char>, Seq<char>, Seq<char>)> {
    let c = ayir_kalip(parca, "</item>"@)[0];
    match (tag_content_spec(c, "title"@), tag_content_spec(c, "link"@)) {
        (Some(t), Some(l)) => if t.len() == 0 || !basla(l, "http"@) {
            None
        } else {
            Some(
                (
                    t,
                    l,
                    match tag_content_spec(c, "description"@) {
                        Some(d) => d,
                        None => seq![],
                    },
                ),
            )
        },
        _ => None,
    }
}

/// Parçalar sırayla öğeye çevrilir, olmayanlar atlanır.
pub open spec fn rss_ogeleri(ps: Seq<Seq<char>>) -> Seq<(Seq<char>, Seq<char>, Seq<char>)>
    decreases ps.len(),
{
    if ps.len() == 0 {
        seq![]
    } else {
        rss_ogeleri(ps.drop_last()) + match rss_ogesi(ps.last()) {
            Some(x) => seq![x],
            None => seq![],
        }
    }
}

/// Akıştaki öğeler: `<item` ile bölünen parçaların ilki dışındakiler.
pub open spec fn rss_spec(xml: Seq<char>) -> Seq<(Seq<char>, Seq<char>, Seq<char>)> {
    rss_ogeleri(ayir_kalip(xml, "<item"@).drop_first())
}

/// RSS akışından öğe çıkmadığında verilen hata.
#[derive(Debug)]
pub enum RssHatasi {
    Bos,
}

/// Sözcü RSS akışının metninden öğeler; hiç öğe çıkmazsa hata.
pub fn rss_haberleri(xml: &str) -> (r: Result<Vec<RssNews>, RssHatasi>)
    ensures
        match r {
            Ok(l) => l@.map_values(|h: RssNews| h@) == rss_spec(xml@) && l@.len() > 0,
            Err(_) => rss_spec(xml@).len() == 0,
        },
{
    let v = karakterler(xml);
    let item = karakterler("<item");
    let son = karakterler("</item>");
    proof {
        reveal_strlit("<item");
        reveal_strlit("</item>");
    }
    let araliklar = ayir_kalip_araliklari(&v, &item);
    let ghost ps = ayir_kalip(v@, item@);
    let ghost qs = ps.drop_first();
    let mut liste: Vec<RssNews> = Vec::new();
    let mut k: usize = 1;
    assert(qs.take(0) =~= Seq::<Seq<char>>::empty());
    assert(liste@.map_values(|h: RssNews| h@) =~= Seq::<(Seq<char>, Seq<char>, Seq<char>)>::empty());
    while k < araliklar.len()
        invariant
            1 <= k <= araliklar@.len() == ps.len(),
            ps.len() >= 1 ==> qs == ps.drop_first(),
            ps == ayir_kalip(v@, item@),
            son@ == "</item>"@,
            son@.len() > 0,
            forall|t: int|
                #![trigger araliklar@[t]]
                0 <= t < araliklar@.len() ==> araliklar@[t].0 <= araliklar@[t].1 <= v@.len()
                    && ps[t] == v@.subrange(araliklar@[t].0 as int, araliklar@[t].1 as int),
            liste@.map_values(|h: RssNews| h@) == rss_ogeleri(qs.take(k - 1)),
        decreases araliklar@.len() - k,
    {
        let (a, b) = araliklar[k];
        let parca = metin_yap(&v, a, b);
        let pv = karakterler(parca.as_str());
        let ic = ayir_kalip_araliklari(&pv, &son);
        let (x, y) = ic[0];
        let c = metin_yap(&pv, x, y);
        let cv = karakterler(c.as_str());
        proof {
            assert(qs[k - 1] == ps[k as int]);
            assert(qs.take(k as int).drop_last() =~= qs.take(k - 1));
            assert(qs.take(k as int).last() == pv@);
        }
        let baslik = etiket_icerigi(&cv, "title");
        let baglanti = etiket_icerigi(&cv, "link");
        let ghost once = liste@.map_values(|h: RssNews| h@);
        match (baslik, baglanti) {
            (Some(t), Some(l)) => {
                let lv = karakterler(l.as_str());
                let http = karakterler("http");
                assert(lv@.skip(0) =~= lv@);
                if t.as_str().is_empty() || !basliyor(&lv, 0, &http) {
                    assert(rss_ogesi(pv@) is None);
                    assert(once + Seq::<(Seq<char>, Seq<char>, Seq<char>)>::empty() =~= once);
                } else {
                    let ozet = match etiket_icerigi(&cv, "description") {
                        Some(d) => d,
                        None => String::new(),
                    };
                    let h = RssNews { title: t, link: l, summary: ozet };
                    liste.push(h);
                    assert(liste@.map_values(|h: RssNews| h@) =~= once + seq![h@]);
                }
            },
            _ => {
                assert(rss_ogesi(pv@) is None);
                assert(once + Seq::<(Seq<char>, Seq<char>, Seq<char>)>::empty() =~= once);
            },
        }
        k += 1;
    }
    proof {
        if ps.len() >= 1 {
            assert(qs.take(k - 1) =~= qs);
        }
    }
    if liste.len() == 0 {
        Err(RssHatasi::Bos)
    } else {
        Ok(liste)
    }
}

// ---------- haber kimliği ----------

/// Bağlantının kimliği: UTF-8 baytları ve ardından 0xFF, `DefaultHasher` ile.
pub open spec fn link_kimligi(link: Seq<char>) -> u64 {
    DefaultHasher::spec_finish(seq![vstd::utf8::encode_utf8(link), seq![0xffu8]])
}

/// Bağlantıdan türetilen kararlı bir sayı: RSS öğelerinin Hacker News'teki gibi sayısal
/// kimliği yok, daha önce atılan haberler bununla hatırlanır. `str`'nin `Hash`'i gibi
/// baytlar ve ardından 0xFF, `DefaultHasher` ile.
pub fn link_id(link: &str) -> (r: u64)
    ensures
        r == DefaultHasher::spec_finish(seq![link.spec_bytes(), seq![0xffu8]]),
        r == link_kimligi(link@),
{
    let mut h = DefaultHasher::new();
    h.write(link.as_bytes());
    let son = [0xffu8];
    h.write(&son);
    assert(son@ =~= seq![0xffu8]);
    assert(h@ =~= seq![link.spec_bytes(), seq![0xffu8]]);
    h.finish()
}


// ---------- gündem günlüğü ----------

/// Bir satırın girdilere katkısı: "## " ile başlayan satır yeni girdi açar, diğerleri son
/// girdiye eklenir, ilk başlıktan önceki satırlar atılır.
pub open spec fn girdi_adimi(liste: Seq<Seq<char>>, satir: Seq<char>) -> Seq<Seq<char>> {
    if basla(satir, "## "@) {
        liste.push(satir)
    } else if liste.len() > 0 {
        liste.update(liste.len() - 1, liste.last() + seq!['\n'] + satir)
    } else {
        liste
    }
}

pub open spec fn girdileri_topla(ss: Seq<Seq<char>>) -> Seq<Seq<char>>
    decreases ss.len(),
{
    if ss.len() == 0 {
        seq![]
    } else {
        girdi_adimi(girdileri_topla(ss.drop_last()), ss.last())
    }
}

/// Kırpılmış, boş olmayan girdiler.
pub open spec fn kirpik_dolu(ss: Seq<Seq<char>>) -> Seq<Seq<char>>
    decreases ss.len(),
{
    if ss.len() == 0 {
        seq![]
    } else {
        kirpik_dolu(ss.drop_last()) + if kirp(ss.last()).len() > 0 {
            seq![kirp(ss.last())]
        } else {
            seq![]
        }
    }
}

/// `gundem.md`'nin girdileri: her girdi "## tarih saat" satırıyla başlar.
pub open spec fn entries_spec(text: Seq<char>) -> Seq<Seq<char>> {
    kirpik_dolu(girdileri_topla(satirlar(text)))
}

// ---------- girdilerin yeniden okunması ----------

/// Girdi toplamanın verilen listeden başlayan hâli.
pub open spec fn topla_den(l: Seq<Seq<char>>, ss: Seq<Seq<char>>) -> Seq<Seq<char>>
    decreases ss.len(),
{
    if ss.len() == 0 {
        l
    } else {
        girdi_adimi(topla_den(l, ss.drop_last()), ss.last())
    }
}

/// Satırları başlıklı parçalara ayrılmış, kırpılmış girdi: ilk satır "## " ile başlar,
/// sonrakiler başlamaz; satırlarda `\r` yoktur.
pub open spec fn duzgun_girdi(e: Seq<char>) -> bool {
    let p = ayir(e, '\n');
    &&& e.len() > 0
    &&& kirp(e) == e
    &&& basla(p[0], "## "@)
    &&& forall|i: int| 1 <= i < p.len() ==> !basla(#[trigger] p[i], "## "@)
    &&& forall|i: int, j: int| 0 <= i < p.len() && 0 <= j < p[i].len() ==> #[trigger] p[i][j] != '\r'
}

/// Ham (kırpılmamış) girdinin satır yapısı; başlığın "## "den sonrası boş değildir.
pub open spec fn ham_girdi(r: Seq<char>) -> bool {
    let p = ayir(r, '\n');
    &&& basla(p[0], "## "@)
    &&& kirp(p[0].skip(3)).len() > 0
    &&& forall|i: int| 1 <= i < p.len() ==> !basla(#[trigger] p[i], "## "@)
    &&& forall|i: int, j: int| 0 <= i < p.len() && 0 <= j < p[i].len() ==> #[trigger] p[i][j] != '\r'
}

proof fn lemma_topla_den_bos(ss: Seq<Seq<char>>)
    ensures
        girdileri_topla(ss) == topla_den(seq![], ss),
    decreases ss.len(),
{
    if ss.len() > 0 {
        lemma_topla_den_bos(ss.drop_last());
    }
}

proof fn lemma_topla_den_ekle(l: Seq<Seq<char>>, xs: Seq<Seq<char>>, ys: Seq<Seq<char>>)
    ensures
        topla_den(l, xs + ys) == topla_den(topla_den(l, xs), ys),
    decreases ys.len(),
{
    if ys.len() == 0 {
        assert(xs + ys =~= xs);
    } else {
        assert((xs + ys).drop_last() =~= xs + ys.drop_last());
        lemma_topla_den_ekle(l, xs, ys.drop_last());
    }
}

/// Düzgün bir girdinin satırları listeye tek girdi olarak eklenir.
proof fn lemma_girdi_satirlari(l: Seq<Seq<char>>, p: Seq<Seq<char>>, m: int)
    requires
        1 <= m <= p.len(),
        basla(p[0], "## "@),
        forall|i: int| 1 <= i < p.len() ==> !basla(#[trigger] p[i], "## "@),
    ensures
        topla_den(l, p.take(m)) == l.push(birlestir(p.take(m), seq!['\n'])),
    decreases m,
{
    assert(p.take(m).drop_last() =~= p.take(m - 1));
    if m == 1 {
        assert(p.take(0) =~= Seq::<Seq<char>>::empty());
        assert(topla_den(l, p.take(0)) == l);
        assert(p.take(1)[0] == p[0]);
        assert(p.take(1).last() == p[0]);
        assert(birlestir(p.take(1), seq!['\n']) == p[0]);
    } else {
        lemma_girdi_satirlari(l, p, m - 1);
        lemma_birlestir_adim(p, seq!['\n'], m - 1);
        assert(!basla(p[m - 1], "## "@));
        let once = l.push(birlestir(p.take(m - 1), seq!['\n']));
        assert(once.update(once.len() - 1, once.last() + seq!['\n'] + p[m - 1]) =~= l.push(
            birlestir(p.take(m), seq!['\n']),
        ));
    }
}

proof fn lemma_duzgun_tek(l: Seq<Seq<char>>, e: Seq<char>)
    requires
        duzgun_girdi(e),
    ensures
        topla_den(l, ayir(e, '\n')) == l.push(e),
{
    let p = ayir(e, '\n');
    lemma_ayir_bos_degil(e, '\n');
    lemma_girdi_satirlari(l, p, p.len() as int);
    assert(p.take(p.len() as int) =~= p);
    lemma_ayir_birlestir(e, '\n');
}

/// Girdi kırpılmış ve boş değilse ilk karakteri de sonuncusu da boşluk değildir.
proof fn lemma_kirpik_uclar(e: Seq<char>)
    requires
        e.len() > 0,
        kirp(e) == e,
    ensures
        !bosluk_mu(e[0]),
        !bosluk_mu(e.last()),
        sol_kirp(e) == e,
{
    lemma_sol_kirp(e);
    lemma_sag_kirp(sol_kirp(e));
    assert(sol_kirp(e).len() == e.len());
    assert(e.skip(0) =~= e);
}

/// Düzgün girdinin ardına satır sonu eklense de kırpılınca kendisi kalır.
proof fn lemma_kirp_satir_sonu(e: Seq<char>)
    requires
        e.len() > 0,
        kirp(e) == e,
    ensures
        kirp(e.push('\n')) == e,
{
    lemma_kirpik_uclar(e);
    let x = e.push('\n');
    assert(x[0] == e[0]);
    assert(sol_kirp(x) == x);
    assert(x.drop_last() =~= e);
    assert(sag_kirp(x) == sag_kirp(e));
}

/// Birleşik girdilerin toplanışı: son girdi dışındakilerin ardında boş satır kalır.
pub open spec fn ara_girdiler(es: Seq<Seq<char>>) -> Seq<Seq<char>> {
    Seq::new(es.len(), |i: int| if i < es.len() - 1 { es[i].push('\n') } else { es[i] })
}

proof fn lemma_birlesik_toplanir(es: Seq<Seq<char>>)
    requires
        es.len() >= 1,
        forall|i: int| 0 <= i < es.len() ==> duzgun_girdi(#[trigger] es[i]),
    ensures
        ({
            let p = ayir(birlestir(es, seq!['\n', '\n']), '\n');
            &&& topla_den(seq![], p) == ara_girdiler(es)
            &&& p.last().len() > 0
            &&& forall|i: int, j: int| 0 <= i < p.len() && 0 <= j < p[i].len() ==> #[trigger] p[i][j] != '\r'
        }),
    decreases es.len(),
{
    let e = es.last();
    assert(duzgun_girdi(e));
    lemma_kirpik_uclar(e);
    lemma_ayir_bos_degil(e, '\n');
    lemma_ayir_bos_degil(e.drop_last(), '\n');
    assert(e.last() != '\n');
    let pe = ayir(e, '\n');
    assert(pe.last().len() > 0);
    if es.len() == 1 {
        assert(birlestir(es, seq!['\n', '\n']) == e);
        lemma_duzgun_tek(seq![], e);
        assert(ara_girdiler(es) =~= seq![e]);
        assert(seq![].push(e) =~= seq![e]);
    } else {
        let es0 = es.drop_last();
        assert forall|i: int| 0 <= i < es0.len() implies duzgun_girdi(#[trigger] es0[i]) by {
            assert(es0[i] == es[i]);
        }
        lemma_birlesik_toplanir(es0);
        let t0 = birlestir(es0, seq!['\n', '\n']);
        let p0 = ayir(t0, '\n');
        assert(birlestir(es, seq!['\n', '\n']) =~= t0 + seq!['\n'] + (Seq::<char>::empty() + seq!['\n'] + e));
        lemma_ayir_ekle(t0, Seq::<char>::empty() + seq!['\n'] + e, '\n');
        lemma_ayir_ekle(Seq::<char>::empty(), e, '\n');
        assert(ayir(Seq::<char>::empty(), '\n') == seq![Seq::<char>::empty()]);
        let p = ayir(birlestir(es, seq!['\n', '\n']), '\n');
        assert(p =~= p0 + seq![Seq::<char>::empty()] + pe);
        lemma_topla_den_ekle(seq![], p0 + seq![Seq::<char>::empty()], pe);
        lemma_topla_den_ekle(seq![], p0, seq![Seq::<char>::empty()]);
        let g0 = ara_girdiler(es0);
        assert(g0.len() >= 1);
        let g1 = topla_den(g0, seq![Seq::<char>::empty()]);
        assert(seq![Seq::<char>::empty()].drop_last() =~= Seq::<Seq<char>>::empty());
        reveal_strlit("## ");
        assert(!basla(Seq::<char>::empty(), "## "@));
        assert(topla_den(g0, Seq::<Seq<char>>::empty()) == g0);
        assert(seq![Seq::<char>::empty()].last() == Seq::<char>::empty());
        assert(g0.last() + seq!['\n'] + Seq::<char>::empty() =~= es0.last().push('\n'));
        assert(g1 == g0.update(g0.len() - 1, es0.last().push('\n')));
        lemma_duzgun_tek(g1, e);
        let ag = ara_girdiler(es);
        assert forall|i: int| 0 <= i < ag.len() implies #[trigger] ag[i] == g1.push(e)[i] by {
            if i < es.len() - 1 {
                assert(es[i] == es0[i]);
            }
        }
        assert(g1.push(e) =~= ara_girdiler(es));
        assert forall|i: int, j: int| 0 <= i < p.len() && 0 <= j < p[i].len() implies #[trigger] p[i][j] != '\r' by {
            if i < p0.len() {
                assert(p[i] == p0[i]);
            } else if i > p0.len() {
                assert(p[i] == pe[i - p0.len() - 1]);
            }
        }
    }
}

/// Her biri kırpıldığında boş olmayan `es[i]`'yi veren liste, kırpık girdiler olarak `es`'tir.
proof fn lemma_kirpik_dolu_esit(xs: Seq<Seq<char>>, es: Seq<Seq<char>>)
    requires
        xs.len() == es.len(),
        forall|i: int| 0 <= i < xs.len() ==> kirp(#[trigger] xs[i]) == es[i] && es[i].len() > 0,
    ensures
        kirpik_dolu(xs) == es,
    decreases xs.len(),
{
    if xs.len() > 0 {
        lemma_kirpik_dolu_esit(xs.drop_last(), es.drop_last());
        assert(kirp(xs.last()) == es.last());
        assert(es.drop_last() + seq![es.last()] =~= es);
    } else {
        assert(es =~= Seq::<Seq<char>>::empty());
    }
}

/// Düzgün girdiler boş satırla birleştirilip yeniden okunursa aynı girdiler çıkar.
pub proof fn lemma_duzgunler_geri_okunur(es: Seq<Seq<char>>)
    requires
        forall|i: int| 0 <= i < es.len() ==> duzgun_girdi(#[trigger] es[i]),
    ensures
        entries_spec(birlestir(es, seq!['\n', '\n'])) == es,
{
    if es.len() == 0 {
        let t = birlestir(es, seq!['\n', '\n']);
        assert(t == Seq::<char>::empty());
        assert(satirlar(t) =~= Seq::<Seq<char>>::empty());
        assert(es =~= Seq::<Seq<char>>::empty());
    } else {
        lemma_birlesik_toplanir(es);
        let t = birlestir(es, seq!['\n', '\n']);
        let p = ayir(t, '\n');
        assert(satirlar(t) =~= p);
        lemma_topla_den_bos(p);
        let g = ara_girdiler(es);
        assert forall|i: int| 0 <= i < g.len() implies kirp(#[trigger] g[i]) == es[i] && es[i].len() > 0 by {
            assert(duzgun_girdi(es[i]));
            if i < es.len() - 1 {
                lemma_kirp_satir_sonu(es[i]);
            }
        }
        lemma_kirpik_dolu_esit(g, es);
    }
}

/// Satırların toplanışı ham girdiler verir.
proof fn lemma_ham_girdiler(ss: Seq<Seq<char>>)
    requires
        forall|i: int, j: int| 0 <= i < ss.len() && 0 <= j < ss[i].len() ==> #[trigger] ss[i][j] != '\n' && ss[i][j] != '\r',
        forall|i: int| 0 <= i < ss.len() && basla(#[trigger] ss[i], "## "@) ==> kirp(ss[i].skip(3)).len() > 0,
    ensures
        forall|i: int| 0 <= i < topla_den(seq![], ss).len() ==> ham_girdi(#[trigger] topla_den(seq![], ss)[i]),
    decreases ss.len(),
{
    if ss.len() > 0 {
        let s0 = ss.drop_last();
        assert forall|i: int, j: int| 0 <= i < s0.len() && 0 <= j < s0[i].len() implies #[trigger] s0[i][j] != '\n' && s0[i][j] != '\r' by {
            assert(s0[i] == ss[i]);
        }
        assert forall|i: int| 0 <= i < s0.len() && basla(#[trigger] s0[i], "## "@) implies kirp(s0[i].skip(3)).len() > 0 by {
            assert(s0[i] == ss[i]);
        }
        lemma_ham_girdiler(s0);
        let l = topla_den(seq![], s0);
        let x = ss.last();
        assert(forall|j: int| 0 <= j < x.len() ==> x[j] != '\n' && x[j] != '\r') by {
            assert forall|j: int| 0 <= j < x.len() implies x[j] != '\n' && x[j] != '\r' by {
                assert(ss[ss.len() - 1][j] != '\n');
            }
        }
        lemma_ayir_tek(x, '\n');
        let n = topla_den(seq![], ss);
        if basla(x, "## "@) {
            assert(ayir(x, '\n')[0] == x);
            assert(ham_girdi(x));
            assert forall|i: int| 0 <= i < n.len() implies ham_girdi(#[trigger] n[i]) by {
                if i < l.len() {
                    assert(n[i] == l[i]);
                }
            }
        } else if l.len() > 0 {
            let r = l.last();
            assert(ham_girdi(l[l.len() - 1]));
            lemma_ayir_ekle(r, x, '\n');
            lemma_ayir_bos_degil(r, '\n');
            let pr = ayir(r, '\n');
            let y = r + seq!['\n'] + x;
            assert(ayir(y, '\n') =~= pr.push(x));
            assert(ayir(y, '\n')[0] == pr[0]);
            assert forall|i: int| 1 <= i < ayir(y, '\n').len() implies !basla(#[trigger] ayir(y, '\n')[i], "## "@) by {
                if i < pr.len() {
                    assert(ayir(y, '\n')[i] == pr[i]);
                }
            }
            assert forall|i: int, j: int| 0 <= i < ayir(y, '\n').len() && 0 <= j < ayir(y, '\n')[i].len() implies #[trigger] ayir(y, '\n')[i][j] != '\r' by {
                if i < pr.len() {
                    assert(ayir(y, '\n')[i] == pr[i]);
                }
            }
            assert(ham_girdi(y));
            assert forall|i: int| 0 <= i < n.len() implies ham_girdi(#[trigger] n[i]) by {
                if i < l.len() - 1 {
                    assert(n[i] == l[i]);
                }
            }
        }
    }
}

/// Ham girdinin kırpılmışı düzgün girdidir.
proof fn lemma_ham_duzgun(r: Seq<char>)
    requires
        ham_girdi(r),
    ensures
        duzgun_girdi(kirp(r)),
{
    reveal_strlit("## ");
    let p = ayir(r, '\n');
    lemma_ayir_bos_degil(r, '\n');
    lemma_ayir_birlestir(r, '\n');
    lemma_birlestir_bas(p, seq!['\n']);
    assert(p[0].len() >= 3);
    assert(p[0].take(3) == "## "@);
    assert(r[0] == p[0][0]);
    assert(p[0].take(3)[0] == p[0][0]);
    assert("## "@[0] == '#');
    assert(p[0][0] == '#');
    lemma_kirp_dolu_karakter(p[0].skip(3));
    let j0 = choose|j: int| 0 <= j < p[0].skip(3).len() && !bosluk_mu(#[trigger] p[0].skip(3)[j]);
    let j = j0 + 3;
    assert(r[j] == p[0][j]);
    assert(sol_kirp(r) == r);
    lemma_sag_kirp_korur(r, j);
    lemma_sag_kirp(r);
    let k = sag_kirp(r).len() as int;
    let e = kirp(r);
    assert(e == r.take(k));
    assert(e[0] == '#');
    assert(!bosluk_mu(e.last()));
    assert(sol_kirp(e) == e);
    assert(sag_kirp(e) == e);
    lemma_ayir_bas(r, k, '\n');
    let q = ayir(e, '\n');
    lemma_ayir_birlestir(e, '\n');
    // ilk satır
    if q.len() == 1 {
        assert(q[0] == e);
        assert(q.last() == q[0]);
        assert(q[0] == p[0].take(q[0].len() as int));
        assert(q[0].len() >= 3);
        assert(q[0].take(3) =~= p[0].take(3));
    } else {
        assert(q[0] == p[0]);
    }
    assert(basla(q[0], "## "@));
    assert forall|i: int| 0 <= i < q.len() implies q[i].len() <= p[i].len() && #[trigger] q[i] == p[i].take(q[i].len() as int) by {
        if i < q.len() - 1 {
            assert(q[i] == p[i]);
            assert(p[i].take(p[i].len() as int) =~= p[i]);
        }
    }
    assert forall|i: int| 1 <= i < q.len() implies !basla(#[trigger] q[i], "## "@) by {
        assert(q[i] == p[i].take(q[i].len() as int));
        if basla(q[i], "## "@) {
            assert(p[i].take(3) =~= q[i].take(3));
        }
    }
    assert forall|i: int, jj: int| 0 <= i < q.len() && 0 <= jj < q[i].len() implies #[trigger] q[i][jj] != '\r' by {
        assert(q[i] == p[i].take(q[i].len() as int));
        assert(q[i][jj] == p[i][jj]);
    }
}

/// Ham girdilerin kırpık, boş olmayanları düzgündür.
proof fn lemma_kirpik_dolu_duzgun(xs: Seq<Seq<char>>)
    requires
        forall|i: int| 0 <= i < xs.len() ==> ham_girdi(#[trigger] xs[i]),
    ensures
        forall|i: int| 0 <= i < kirpik_dolu(xs).len() ==> duzgun_girdi(#[trigger] kirpik_dolu(xs)[i]),
    decreases xs.len(),
{
    if xs.len() > 0 {
        let x0 = xs.drop_last();
        assert forall|i: int| 0 <= i < x0.len() implies ham_girdi(#[trigger] x0[i]) by {
            assert(x0[i] == xs[i]);
        }
        lemma_kirpik_dolu_duzgun(x0);
        assert(ham_girdi(xs[xs.len() - 1]));
        lemma_ham_duzgun(xs.last());
        let k = kirpik_dolu(xs);
        let k0 = kirpik_dolu(x0);
        assert forall|i: int| 0 <= i < k.len() implies duzgun_girdi(#[trigger] k[i]) by {
            if i < k0.len() {
                assert(k[i] == k0[i]);
            }
        }
    }
}

/// Metinde `\r` yoksa ve her başlık satırında "## "den sonra boş olmayan bir şey varsa
/// okunan girdilerin hepsi düzgündür.
pub proof fn lemma_girdiler_duzgun(t: Seq<char>)
    requires
        forall|j: int| 0 <= j < t.len() ==> t[j] != '\r',
        forall|i: int| 0 <= i < satirlar(t).len() && basla(#[trigger] satirlar(t)[i], "## "@) ==> kirp(
            satirlar(t)[i].skip(3),
        ).len() > 0,
    ensures
        forall|i: int| 0 <= i < entries_spec(t).len() ==> duzgun_girdi(#[trigger] entries_spec(t)[i]),
{
    let p = ayir(t, '\n');
    lemma_ayir_bos_degil(t, '\n');
    lemma_ayir_ayracsiz(t, '\n');
    lemma_ayir_karakterleri(t, '\n', '\r');
    let ss = satirlar(t);
    assert forall|i: int| 0 <= i < ss.len() implies #[trigger] ss[i] == p[i] by {}
    assert forall|i: int, j: int| 0 <= i < ss.len() && 0 <= j < ss[i].len() implies #[trigger] ss[i][j] != '\n' && ss[i][j] != '\r' by {
        assert(ss[i] == p[i]);
        assert(p[i][j] != '\n');
    }
    lemma_ham_girdiler(ss);
    lemma_topla_den_bos(ss);
    lemma_kirpik_dolu_duzgun(girdileri_topla(ss));
}

/// Gündem günlüğünü `"## ..."` başlıklı girdilere böler; kırpılır, boşlar atılır.
pub fn entries(text: &str) -> (r: Vec<String>)
    ensures
        r.deep_view() == entries_spec(text@),
{
    let v = karakterler(text);
    let ar = satir_araliklari(&v);
    let ghost ss = satirlar(v@);
    let baslik = karakterler("## ");
    let mut liste: Vec<Vec<char>> = Vec::new();
    let ghost mut lv: Seq<Seq<char>> = seq![];
    let mut k: usize = 0;
    assert(ss.take(0) =~= Seq::<Seq<char>>::empty());
    while k < ar.len()
        invariant
            k <= ar@.len() == ss.len(),
            ss == satirlar(v@),
            baslik@ == "## "@,
            forall|t: int|
                #![trigger ar@[t]]
                0 <= t < ar@.len() ==> ar@[t].0 <= ar@[t].1 <= v@.len() && ss[t] == v@.subrange(
                    ar@[t].0 as int,
                    ar@[t].1 as int,
                ),
            liste@.len() == lv.len(),
            forall|t: int| 0 <= t < lv.len() ==> (#[trigger] liste@[t])@ == lv[t],
            lv == girdileri_topla(ss.take(k as int)),
        decreases ar@.len() - k,
    {
        let (a, b) = ar[k];
        proof {
            assert(ss.take(k + 1).drop_last() =~= ss.take(k as int));
            assert(ss.take(k + 1).last() == ss[k as int]);
        }
        let mut satir: Vec<char> = Vec::new();
        let mut i = a;
        while i < b
            invariant
                a <= i <= b <= v@.len(),
                satir@ == v@.subrange(a as int, i as int),
            decreases b - i,
        {
            satir.push(v[i]);
            assert(v@.subrange(a as int, i + 1) =~= v@.subrange(a as int, i as int).push(
                v@[i as int],
            ));
            i += 1;
        }
        assert(satir@.skip(0) =~= satir@);
        if basliyor(&satir, 0, &baslik) {
            proof {
                lv = lv.push(satir@);
            }
            liste.push(satir);
        } else if liste.len() > 0 {
            let m = liste.len();
            let mut son = liste.pop().unwrap();
            son.push('\n');
            ekle(&mut son, &satir);
            proof {
                lv = lv.update(lv.len() - 1, lv.last() + seq!['\n'] + satir@);
                assert(son@ =~= lv.last());
            }
            liste.push(son);
        }
        proof {
            assert forall|t: int| 0 <= t < lv.len() implies (#[trigger] liste@[t])@ == lv[t] by {
            }
        }
        k += 1;
    }
    assert(ss.take(k as int) =~= ss);
    // kırpılır, boşlar atılır
    let mut r: Vec<String> = Vec::new();
    let mut i: usize = 0;
    assert(lv.take(0) =~= Seq::<Seq<char>>::empty());
    assert(r.deep_view() =~= Seq::<Seq<char>>::empty());
    while i < liste.len()
        invariant
            i <= liste@.len() == lv.len(),
            forall|t: int| 0 <= t < lv.len() ==> (#[trigger] liste@[t])@ == lv[t],
            r.deep_view() == kirpik_dolu(lv.take(i as int)),
        decreases liste@.len() - i,
    {
        let g = &liste[i];
        let n = g.len();
        assert(g@.subrange(0, n as int) =~= g@);
        let (a, b) = kirp_sinir(g, 0, n);
        proof {
            assert(lv.take(i + 1).drop_last() =~= lv.take(i as int));
            assert(lv.take(i + 1).last() == lv[i as int]);
            assert(liste@[i as int]@ == lv[i as int]);
        }
        let ghost once = r.deep_view();
        if a < b {
            r.push(metin_yap(g, a, b));
            assert(r.deep_view() =~= once + seq![kirp(lv[i as int])]);
        } else {
            assert(r.deep_view() =~= once + Seq::<Seq<char>>::empty());
        }
        i += 1;
    }
    assert(lv.take(i as int) =~= lv);
    r
}

/// En son üç girdi, boş satırla ayrılarak.
pub open spec fn latest_agenda_spec(text: Seq<char>) -> Seq<char> {
    let l = entries_spec(text);
    let atla = if l.len() > 3 {
        l.len() - 3
    } else {
        0
    };
    birlestir(l.skip(atla as int), "\n\n"@)
}

/// Gündem günlüğünün son üç girdisi, boş satırla ayrılmış.
pub fn latest_agenda(text: &str) -> (r: String)
    ensures
        r@ == latest_agenda_spec(text@),
{
    let l = entries(text);
    let atla = if l.len() > 3 {
        l.len() - 3
    } else {
        0
    };
    let ghost xs = l.deep_view().skip(atla as int);
    let ayrac = karakterler("\n\n");
    let mut s: Vec<char> = Vec::new();
    let mut k: usize = 0;
    let n = l.len();
    while k < n - atla
        invariant
            n == l@.len(),
            atla <= l@.len(),
            atla + k <= l@.len(),
            xs == l.deep_view().skip(atla as int),
            ayrac@ == "\n\n"@,
            s@ == birlestir(xs.take(k as int), ayrac@),
        decreases l@.len() - atla - k,
    {
        proof {
            lemma_birlestir_adim(xs, ayrac@, k as int);
        }
        if k > 0 {
            ekle(&mut s, &ayrac);
        }
        let g = karakterler(l[atla + k].as_str());
        ekle(&mut s, &g);
        k += 1;
    }
    assert(xs.take(k as int) =~= xs);
    metne(&s)
}

// ---------- sayfa ----------

/// Gündem defterinde kalan en çok girdi; eskileri arşive çıkar.
pub const GUNDEM_GIRDI_SINIRI: usize = 12;

/// Bir sayfadan modele giden en çok karakter.
pub const SAYFA_SINIRI: usize = 3500;

/// Okunan sayfa: Firecrawl'dan markdown ya da düz indirilen HTML.
pub enum SayfaKaynagi {
    Markdown(String),
    Html(String),
}

/// Sayfanın metni: markdown olduğu gibi, HTML temizlenerek; ilk `SAYFA_SINIRI` karakter.
pub open spec fn sayfa_metni_spec(k: SayfaKaynagi) -> Seq<char> {
    let m = match k {
        SayfaKaynagi::Markdown(s) => s@,
        SayfaKaynagi::Html(h) => clean_html_spec(h@),
    };
    if m.len() > SAYFA_SINIRI {
        m.take(SAYFA_SINIRI as int)
    } else {
        m
    }
}

pub fn sayfa_metni(kaynak: SayfaKaynagi) -> (r: String)
    ensures
        r@ == sayfa_metni_spec(kaynak),
{
    let m = match &kaynak {
        SayfaKaynagi::Markdown(s) => karakterler(s.as_str()),
        SayfaKaynagi::Html(h) => karakterler(clean_html(h.as_str()).as_str()),
    };
    let son = if m.len() > SAYFA_SINIRI {
        SAYFA_SINIRI
    } else {
        m.len()
    };
    assert(m@.subrange(0, m@.len() as int) =~= m@);
    metin_yap(&m, 0, son)
}

} // verus!
