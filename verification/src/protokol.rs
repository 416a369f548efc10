//! Modelin satır bazlı çıktı protokolü: her satır ayrı mesaj, "tepki: 💀" emoji tepkisi,
//! tek başına "-" susma işareti.
use vstd::prelude::*;
use crate::metin::{
    basla, basliyor, birlestir, degistir, degistirilmis, ilk_konum, karakterler, kirp, kirp_sinir,
    metne, metin_yap, sol_kirp, sol_sinir, ayir, ayir_araliklari, bul, bul_konum,
};
use crate::ayarlar::{MESAJ_SINIRI, PATLAMA_SINIRI};
use crate::bolme::{bol, parcalar};
use crate::metin::{
    gecmez, lemma_ayir_karakterleri, lemma_birlestir_gecmez, lemma_degistir_gecmez, lemma_kirp_gecmez,
    bosluk_mu, lemma_ayir_bos_degil, lemma_ayir_ekle, lemma_ayir_tek, lemma_birlestir_adim, lemma_sag_kirp,
    lemma_sol_kirp, sag_kirp,
};
use crate::bolme::bol_kalan;
use crate::yardimci::{ekle, kucuk_harfe_cevir, kucult, kucult_spec, lemma_noktasiz_ayni};

verus! {

broadcast use vstd::string::group_string_axioms;

// ---------- tepki satırı ----------

/// Satır "tepki:" ile mi başlıyor (büyük/küçük harf farketmez, "tepki :" de olur);
/// öyleyse iki noktadan sonrası.
pub open spec fn tepki_govdesi_spec(s: Seq<char>) -> Option<Seq<char>> {
    match ilk_konum(s, ':') {
        Some(i) => if kucult_spec(kirp(s.take(i))) == "tepki"@ {
            Some(s.skip(i + 1))
        } else {
            None
        },
        None => None,
    }
}

pub fn tepki_govdesi(satir: &str) -> (r: Option<&str>)
    ensures
        match tepki_govdesi_spec(satir@) {
            Some(g) => r matches Some(x) && x@ == g,
            None => r is None,
        },
{
    let v = karakterler(satir);
    let iki_nokta = vec![':'];
    assert(iki_nokta@ =~= seq![':']);
    assert(v@.skip(0) =~= v@);
    let n = v.len();
    let konum = bul_konum(&v, 0, &iki_nokta);
    proof {
        crate::metin::lemma_bul_sinir(v@, iki_nokta@);
        match bul(v@, iki_nokta@) {
            Some(k) => assert(k == konum->0),
            None => {},
        }
    }
    match konum {
        Some(i) => {
            let (a, b) = kirp_sinir(&v, 0, i);
            assert(v@.subrange(0, i as int) =~= v@.take(i as int));
            let bas = metin_yap(&v, a, b);
            let k = kucult(bas.as_str());
            let kv = karakterler(k.as_str());
            let hedef = karakterler("tepki");
            let esit = kv.len() == hedef.len() && basliyor(&kv, 0, &hedef);
            proof {
                assert(kv@.skip(0) =~= kv@);
                if esit {
                    assert(kv@ =~= hedef@.take(hedef@.len() as int));
                    assert(hedef@.take(hedef@.len() as int) =~= hedef@);
                }
            }
            if esit {
                assert(v@.subrange(i + 1, v@.len() as int) =~= v@.skip(i + 1));
                Some(satir.substring_char(i + 1, n))
            } else {
                None
            }
        },
        None => None,
    }
}

// ---------- emoji ----------

/// Bilinen emoji bloklarından bir karakter mi. Tipografik işaretler ("—", "…", "→")
/// emoji sayılmaz: Discord onları tepki olarak reddeder.
pub open spec fn emoji_basi_spec(c: char) -> bool {
    let n = c as u32;
    ||| n == 0xA9 || n == 0xAE || n == 0x2122 || n == 0x3030 || n == 0x303D || n == 0x3297
        || n == 0x3299
    ||| 0x2600 <= n <= 0x27BF
    ||| 0x2B00 <= n <= 0x2BFF
    ||| 0x1F000 <= n <= 0x1FAFF
}

pub fn emoji_basi(c: char) -> (r: bool)
    ensures
        r == emoji_basi_spec(c),
{
    let n = c as u32;
    n == 0xA9 || n == 0xAE || n == 0x2122 || n == 0x3030 || n == 0x303D || n == 0x3297 || n
        == 0x3299 || (0x2600 <= n && n <= 0x27BF) || (0x2B00 <= n && n <= 0x2BFF) || (0x1F000
        <= n && n <= 0x1FAFF)
}

/// Emoji dizisinin devamına takılabilecekler: varyasyon seçici, ZWJ, keycap.
pub open spec fn emoji_devami_spec(c: char) -> bool {
    let n = c as u32;
    emoji_basi_spec(c) || n == 0xFE0F || n == 0xFE0E || n == 0x200D || n == 0x20E3
}

pub fn emoji_devami(c: char) -> (r: bool)
    ensures
        r == emoji_devami_spec(c),
{
    let n = c as u32;
    emoji_basi(c) || n == 0xFE0F || n == 0xFE0E || n == 0x200D || n == 0x20E3
}

/// İlk emoji karakterinin konumu.
pub open spec fn ilk_emoji(s: Seq<char>) -> Option<int>
    decreases s.len(),
{
    if s.len() == 0 {
        None
    } else if emoji_basi_spec(s[0]) {
        Some(0)
    } else {
        match ilk_emoji(s.drop_first()) {
            Some(k) => Some(k + 1),
            None => None,
        }
    }
}

/// Baştaki emoji-devamı karakterlerinin sayısı.
pub open spec fn devam_boyu(s: Seq<char>) -> nat
    decreases s.len(),
{
    if s.len() > 0 && emoji_devami_spec(s[0]) {
        1 + devam_boyu(s.drop_first())
    } else {
        0
    }
}

/// Metindeki ilk emoji dizisi (en çok 8 karakter); ":kekw:" gibi özel biçimde ya da emoji
/// yoksa `None`.
pub open spec fn emoji_ayikla_spec(s: Seq<char>) -> Option<Seq<char>> {
    match ilk_emoji(s) {
        Some(i) => {
            let d = devam_boyu(s.skip(i));
            Some(s.skip(i).take(if d > 8 {
                8
            } else {
                d as int
            }))
        },
        None => None,
    }
}

proof fn lemma_ilk_emoji(s: Seq<char>)
    ensures
        ilk_emoji(s) matches Some(k) ==> 0 <= k < s.len() && emoji_basi_spec(s[k]),
    decreases s.len(),
{
    if s.len() > 0 && !emoji_basi_spec(s[0]) {
        lemma_ilk_emoji(s.drop_first());
    }
}

proof fn lemma_devam_boyu(s: Seq<char>)
    ensures
        devam_boyu(s) <= s.len(),
    decreases s.len(),
{
    if s.len() > 0 && emoji_devami_spec(s[0]) {
        lemma_devam_boyu(s.drop_first());
    }
}

pub fn emoji_ayikla(metin: &str) -> (r: Option<String>)
    ensures
        match emoji_ayikla_spec(metin@) {
            Some(e) => r matches Some(x) && x@ == e,
            None => r is None,
        },
{
    let v = karakterler(metin);
    let n = v.len();
    let mut i: usize = 0;
    assert(v@.skip(0) =~= v@);
    while i < n && !emoji_basi(v[i])
        invariant
            i <= n == v@.len(),
            ilk_emoji(v@) == match ilk_emoji(v@.skip(i as int)) {
                Some(k) => Some(k + i),
                None => None::<int>,
            },
        decreases n - i,
    {
        assert(v@.skip(i as int).drop_first() =~= v@.skip(i + 1));
        i += 1;
    }
    if i == n {
        return None;
    }
    let mut j = i;
    while j < n && j - i < 8 && emoji_devami(v[j])
        invariant
            i <= j <= n == v@.len(),
            j - i <= 8,
            devam_boyu(v@.skip(i as int)) == (j - i) + devam_boyu(v@.skip(j as int)),
        decreases n - j,
    {
        assert(v@.skip(j as int).drop_first() =~= v@.skip(j + 1));
        j += 1;
    }
    proof {
        lemma_devam_boyu(v@.skip(j as int));
        assert(v@.skip(i as int).take((j - i) as int) =~= v@.subrange(i as int, j as int));
    }
    Some(metin_yap(&v, i, j))
}

// ---------- susma işareti ----------

/// Satır tek başına susma işareti mi.
pub open spec fn sus_isareti_spec(s: Seq<char>) -> bool {
    ||| s == "-"@
    ||| s == "\"-\""@
    ||| s == "'-'"@
    ||| kucult_spec(s) == "[sus]"@
    ||| kucult_spec(s) == "(sus)"@
}

fn ayni(a: &[char], b: &[char]) -> (r: bool)
    ensures
        r == (a@ == b@),
{
    if a.len() != b.len() {
        return false;
    }
    let r = basliyor(a, 0, b);
    proof {
        assert(a@.skip(0) =~= a@);
        if r {
            assert(a@ =~= a@.take(b@.len() as int));
        }
    }
    r
}

pub fn sus_isareti(satir: &str) -> (r: bool)
    ensures
        r == sus_isareti_spec(satir@),
{
    let v = karakterler(satir);
    if ayni(&v, &karakterler("-")) || ayni(&v, &karakterler("\"-\"")) || ayni(
        &v,
        &karakterler("'-'"),
    ) {
        return true;
    }
    let k = kucult(satir);
    let kv = karakterler(k.as_str());
    ayni(&kv, &karakterler("[sus]")) || ayni(&kv, &karakterler("(sus)"))
}

// ---------- numara öneki ----------

/// Baştaki ASCII rakam sayısı.
pub open spec fn rakam_boyu(s: Seq<char>) -> nat
    decreases s.len(),
{
    if s.len() > 0 && '0' <= s[0] && s[0] <= '9' {
        1 + rakam_boyu(s.drop_first())
    } else {
        0
    }
}

proof fn lemma_rakam_boyu(s: Seq<char>)
    ensures
        rakam_boyu(s) <= s.len(),
    decreases s.len(),
{
    if s.len() > 0 && '0' <= s[0] && s[0] <= '9' {
        lemma_rakam_boyu(s.drop_first());
    }
}

/// "1. " / "2) " gibi numara önekinden sonrası, baştaki boşluklar atılmış.
pub open spec fn numara_oneki_spec(s: Seq<char>) -> Option<Seq<char>> {
    let d = rakam_boyu(s);
    let k = s.skip(d as int);
    if d == 0 {
        None
    } else if basla(k, ". "@) || basla(k, ") "@) {
        Some(sol_kirp(k.skip(2)))
    } else {
        None
    }
}

/// `numara_oneki`'nin `v[i..]` üzerinde vardığı başlangıç.
fn numara_sonu(v: &[char], i: usize) -> (r: Option<usize>)
    requires
        i <= v@.len(),
    ensures
        match numara_oneki_spec(v@.skip(i as int)) {
            Some(k) => r matches Some(x) && i <= x <= v@.len() && v@.skip(x as int) == k,
            None => r is None,
        },
{
    let n = v.len();
    let mut j = i;
    while j < n && '0' <= v[j] && v[j] <= '9'
        invariant
            i <= j <= n == v@.len(),
            rakam_boyu(v@.skip(i as int)) == (j - i) + rakam_boyu(v@.skip(j as int)),
        decreases n - j,
    {
        assert(v@.skip(j as int).drop_first() =~= v@.skip(j + 1));
        j += 1;
    }
    proof {
        lemma_rakam_boyu(v@.skip(i as int));
        assert(v@.skip(i as int).skip((j - i) as int) =~= v@.skip(j as int));
    }
    if j == i {
        return None;
    }
    let nokta = karakterler(". ");
    let parantez = karakterler(") ");
    proof {
        reveal_strlit(". ");
        reveal_strlit(") ");
    }
    if basliyor(v, j, &nokta) || basliyor(v, j, &parantez) {
        proof {
            crate::metin::lemma_sol_kirp(v@.skip(j + 2));
        }
        assert(v@.skip(j as int).skip(2) =~= v@.skip(j + 2));
        assert(v@.skip(j + 2) =~= v@.subrange(j + 2, n as int));
        let x = sol_sinir(v, j + 2, n);
        assert(v@.subrange(x as int, n as int) =~= v@.skip(x as int));
        Some(x)
    } else {
        None
    }
}

pub fn numara_oneki(s: &str) -> (r: Option<&str>)
    ensures
        match numara_oneki_spec(s@) {
            Some(k) => r matches Some(x) && x@ == k,
            None => r is None,
        },
{
    let v = karakterler(s);
    assert(v@.skip(0) =~= v@);
    match numara_sonu(&v, 0) {
        Some(x) => {
            assert(v@.subrange(x as int, v@.len() as int) =~= v@.skip(x as int));
            Some(s.substring_char(x, v.len()))
        },
        None => None,
    }
}


// ---------- süs temizliği ----------

/// Baştaki madde öneki ("- ", "* ", "• ") atılır.
pub open spec fn onek_at(s: Seq<char>) -> Seq<char> {
    if basla(s, "- "@) || basla(s, "* "@) || basla(s, "• "@) {
        sol_kirp(s.skip(2))
    } else {
        s
    }
}

/// Kalın/altı çizili markdown işaretleri silinir.
pub open spec fn isaret_sil(p: Seq<char>) -> Seq<char> {
    degistir(degistir(p, "**"@, seq![]), "__"@, seq![])
}

/// Backtick'le bölünen parçalardan çift sıradakiler temizlenir, kod içi (tek sıradakiler)
/// korunur.
pub open spec fn kod_korur(parcalar: Seq<Seq<char>>) -> Seq<Seq<char>> {
    Seq::new(
        parcalar.len(),
        |i: int|
            if i % 2 == 0 {
                isaret_sil(parcalar[i])
            } else {
                parcalar[i]
            },
    )
}

/// "Yapay zeka yazmış" izlerini siler: baştaki madde öneki, kalın/altı çizili işaretler;
/// backtick içi korunur.
pub open spec fn slop_temizle_spec(satir: Seq<char>) -> Seq<char> {
    kirp(birlestir(kod_korur(ayir(onek_at(kirp(satir)), '`')), seq!['`']))
}

pub fn slop_temizle(satir: &str) -> (r: String)
    ensures
        r@ == slop_temizle_spec(satir@),
{
    let v = karakterler(satir);
    let n = v.len();
    assert(v@.subrange(0, n as int) =~= v@);
    let (a, b) = kirp_sinir(&v, 0, n);
    let ghost s1 = v@.subrange(a as int, b as int);
    let tire = karakterler("- ");
    let yildiz = karakterler("* ");
    let nokta = karakterler("• ");
    proof {
        reveal_strlit("- ");
        reveal_strlit("* ");
        reveal_strlit("• ");
        assert(s1 =~= v@.skip(a as int).take(s1.len() as int));
    }
    let mut bas = a;
    if b - a >= 2 && (basliyor(&v, a, &tire) || basliyor(&v, a, &yildiz) || basliyor(
        &v,
        a,
        &nokta,
    )) {
        proof {
            assert(s1.take(2) =~= v@.skip(a as int).take(2));
            assert(s1.skip(2) =~= v@.subrange(a + 2, b as int));
        }
        bas = sol_sinir(&v, a + 2, b);
    } else {
        proof {
            if basla(s1, "- "@) {
                assert(v@.skip(a as int).take(2) =~= s1.take(2));
            }
            if basla(s1, "* "@) {
                assert(v@.skip(a as int).take(2) =~= s1.take(2));
            }
            if basla(s1, "• "@) {
                assert(v@.skip(a as int).take(2) =~= s1.take(2));
            }
        }
    }
    let mut s2: Vec<char> = Vec::new();
    let mut i = bas;
    while i < b
        invariant
            bas <= i <= b <= v@.len(),
            s2@ == v@.subrange(bas as int, i as int),
        decreases b - i,
    {
        s2.push(v[i]);
        assert(v@.subrange(bas as int, i + 1) =~= v@.subrange(bas as int, i as int).push(
            v@[i as int],
        ));
        i += 1;
    }
    assert(s2@ == onek_at(s1));
    let araliklar = ayir_araliklari(&s2, '`');
    let ghost kod = kod_korur(ayir(s2@, '`'));
    let yildizlar = karakterler("**");
    let alt = karakterler("__");
    let bos: Vec<char> = Vec::new();
    let mut cikti: Vec<char> = Vec::new();
    let mut k: usize = 0;
    while k < araliklar.len()
        invariant
            k <= araliklar@.len() == ayir(s2@, '`').len() == kod.len(),
            kod == kod_korur(ayir(s2@, '`')),
            yildizlar@ == "**"@,
            alt@ == "__"@,
            bos@ == Seq::<char>::empty(),
            forall|t: int|
                #![trigger araliklar@[t]]
                0 <= t < araliklar@.len() ==> araliklar@[t].0 <= araliklar@[t].1 <= s2@.len()
                    && ayir(s2@, '`')[t] == s2@.subrange(
                    araliklar@[t].0 as int,
                    araliklar@[t].1 as int,
                ),
            cikti@ == birlestir(kod.take(k as int), seq!['`']),
        decreases araliklar@.len() - k,
    {
        let (x, y) = araliklar[k];
        let mut parca: Vec<char> = Vec::new();
        let mut j = x;
        while j < y
            invariant
                x <= j <= y <= s2@.len(),
                parca@ == s2@.subrange(x as int, j as int),
            decreases y - j,
        {
            parca.push(s2[j]);
            assert(s2@.subrange(x as int, j + 1) =~= s2@.subrange(x as int, j as int).push(
                s2@[j as int],
            ));
            j += 1;
        }
        let yeni = if k % 2 == 0 {
            let p1 = degistirilmis(&parca, &yildizlar, &bos);
            degistirilmis(&p1, &alt, &bos)
        } else {
            parca
        };
        assert(yeni@ == kod[k as int]);
        proof {
            lemma_birlestir_adim(kod, seq!['`'], k as int);
        }
        if k > 0 {
            cikti.push('`');
        }
        ekle(&mut cikti, &yeni);
        k += 1;
    }
    assert(kod.take(k as int) =~= kod);
    let m = cikti.len();
    assert(cikti@.subrange(0, m as int) =~= cikti@);
    let (c, d) = kirp_sinir(&cikti, 0, m);
    metin_yap(&cikti, c, d)
}


// ---------- cevap ----------

/// Model cevabının protokole göre çözülmüş hâli: gidecek satırlar, emoji tepkisi, susma.
#[derive(Debug)]
pub struct Cevap {
    pub satirlar: Vec<String>,
    pub tepki: Option<String>,
    pub sus: bool,
}

/// `Cevap`'ın matematiksel karşılığı.
pub struct CevapModeli {
    pub satirlar: Seq<Seq<char>>,
    pub tepki: Option<Seq<char>>,
    pub sus: bool,
}

impl View for Cevap {
    type V = CevapModeli;

    open spec fn view(&self) -> CevapModeli {
        CevapModeli {
            satirlar: self.satirlar.deep_view(),
            tepki: match self.tepki {
                Some(t) => Some(t@),
                None => None,
            },
            sus: self.sus,
        }
    }
}

impl Cevap {
    /// Cevaptan kullanılır hiçbir şey çıkmadı mı (ne söz, ne tepki, ne susma kararı).
    pub fn bos(&self) -> (r: bool)
        ensures
            r == (self@.satirlar.len() == 0 && self@.tepki is None && !self@.sus),
    {
        self.satirlar.len() == 0 && self.tepki.is_none() && !self.sus
    }

    /// Sohbet geçmişine ve kanal notuna giren biçim: satırlar, ardından varsa
    /// "tepki: emoji" satırı; model kendi protokolünü geri görsün.
    pub fn protokol_metni(&self) -> (r: String)
        ensures
            r@ == protokol_metni_spec(self@),
    {
        let mut s: Vec<char> = Vec::new();
        let mut k: usize = 0;
        let ghost xs = self@.satirlar;
        while k < self.satirlar.len()
            invariant
                k <= self.satirlar@.len(),
                xs == self@.satirlar,
                s@ == birlestir(xs.take(k as int), seq!['\n']),
            decreases self.satirlar@.len() - k,
        {
            proof {
                lemma_birlestir_adim(xs, seq!['\n'], k as int);
            }
            if k > 0 {
                s.push('\n');
            }
            let satir = karakterler(self.satirlar[k].as_str());
            ekle(&mut s, &satir);
            k += 1;
        }
        assert(xs.take(k as int) =~= xs);
        match &self.tepki {
            Some(t) => {
                if s.len() > 0 {
                    s.push('\n');
                }
                ekle(&mut s, &karakterler("tepki: "));
                ekle(&mut s, &karakterler(t.as_str()));
            },
            None => {},
        }
        metne(&s)
    }
}

pub open spec fn protokol_metni_spec(c: CevapModeli) -> Seq<char> {
    let s = birlestir(c.satirlar, seq!['\n']);
    match c.tepki {
        Some(t) => (if s.len() > 0 {
            s.push('\n')
        } else {
            s
        }) + "tepki: "@ + t,
        None => s,
    }
}

/// Boş başlangıç durumu.
pub open spec fn bos_cevap() -> CevapModeli {
    CevapModeli { satirlar: seq![], tepki: None, sus: false }
}

/// Tek ham satırın cevaba katkısı. Boş satır atlanır; susma işareti susturur; tepki satırı
/// (ilk çözülebilen emoji kazanır) mesaj olmaz; "'" ile başlayan kırıntı atılır; gerçek
/// listede numara öneki silinir; süsler temizlenir; aynı satır ikinci kez girmez; en çok
/// `PATLAMA_SINIRI` satır girer.
pub open spec fn satir_adimi(st: CevapModeli, ham: Seq<char>, liste: bool) -> CevapModeli {
    let satir = kirp(ham);
    if satir.len() == 0 {
        st
    } else if sus_isareti_spec(satir) {
        CevapModeli { satirlar: st.satirlar, tepki: st.tepki, sus: true }
    } else if tepki_govdesi_spec(satir) is Some {
        if st.tepki is None {
            CevapModeli {
                satirlar: st.satirlar,
                tepki: emoji_ayikla_spec(tepki_govdesi_spec(satir)->0),
                sus: st.sus,
            }
        } else {
            st
        }
    } else if satir[0] == '\'' {
        st
    } else {
        let s2 = if liste && numara_oneki_spec(satir) is Some {
            numara_oneki_spec(satir)->0
        } else {
            satir
        };
        let temiz = slop_temizle_spec(s2);
        if temiz.len() == 0 || st.satirlar.contains(temiz) || st.satirlar.len()
            >= PATLAMA_SINIRI {
            st
        } else {
            CevapModeli { satirlar: st.satirlar.push(temiz), tepki: st.tepki, sus: st.sus }
        }
    }
}

/// Satırlar sırayla işlenir.
pub open spec fn satirlari_isle(satirlar: Seq<Seq<char>>, liste: bool) -> CevapModeli
    decreases satirlar.len(),
{
    if satirlar.len() == 0 {
        bos_cevap()
    } else {
        satir_adimi(satirlari_isle(satirlar.drop_last(), liste), satirlar.last(), liste)
    }
}

/// Numara önekiyle başlayan satır sayısı.
pub open spec fn numarali(satirlar: Seq<Seq<char>>) -> nat {
    satirlar.filter(|l: Seq<char>| numara_oneki_spec(kirp(l)) is Some).len()
}

/// Uzun satırın mesaj sınırına bölünmüş parçaları.
pub open spec fn mesaj_parcalari(s: Seq<char>) -> Seq<Seq<char>> {
    parcalar(s, MESAJ_SINIRI as nat)
}

/// Model cevabının protokole göre çözümü: iki ya da daha çok numaralı satır varsa cevap
/// gerçek bir listedir; sınırı aşan satırlar bölünür.
pub open spec fn cevap_parcala_spec(metin: Seq<char>) -> CevapModeli {
    let satirlar = ayir(metin, '\n');
    let st = satirlari_isle(satirlar, numarali(satirlar) >= 2);
    CevapModeli {
        satirlar: st.satirlar.map_values(|s: Seq<char>| mesaj_parcalari(s)).flatten(),
        tepki: st.tepki,
        sus: st.sus,
    }
}

fn satir_metni(v: &[char], aralik: (usize, usize)) -> (r: String)
    requires
        aralik.0 <= aralik.1 <= v@.len(),
    ensures
        r@ == v@.subrange(aralik.0 as int, aralik.1 as int),
{
    metin_yap(v, aralik.0, aralik.1)
}

fn iceriyor_mu(liste: &Vec<String>, x: &Vec<char>) -> (r: bool)
    ensures
        r == liste.deep_view().contains(x@),
{
    let mut i: usize = 0;
    while i < liste.len()
        invariant
            i <= liste@.len(),
            forall|t: int| 0 <= t < i ==> liste.deep_view()[t] != x@,
        decreases liste@.len() - i,
    {
        let e = karakterler(liste[i].as_str());
        if ayni(&e, x) {
            assert(liste.deep_view()[i as int] == x@);
            return true;
        }
        assert(liste.deep_view()[i as int] == liste@[i as int]@);
        i += 1;
    }
    proof {
        if liste.deep_view().contains(x@) {
            let t = choose|t: int| 0 <= t < liste.deep_view().len() && liste.deep_view()[t] == x@;
            assert(liste.deep_view()[t] != x@);
        }
    }
    false
}

/// Model cevabını protokole göre çözer. Kısa satır elenmez: "he", "yok", "la" da doğal
/// bir tepkidir.
pub fn cevap_parcala(metin: &str) -> (r: Cevap)
    ensures
        r@ == cevap_parcala_spec(metin@),
{
    let v = karakterler(metin);
    let araliklar = ayir_araliklari(&v, '\n');
    let ghost satirlar = ayir(v@, '\n');
    let ghost pred = |l: Seq<char>| numara_oneki_spec(kirp(l)) is Some;
    // numaralı satır sayısı
    let mut sayi: usize = 0;
    let mut k: usize = 0;
    while k < araliklar.len()
        invariant
            k <= araliklar@.len() == satirlar.len(),
            satirlar == ayir(v@, '\n'),
            pred == (|l: Seq<char>| numara_oneki_spec(kirp(l)) is Some),
            forall|t: int|
                #![trigger araliklar@[t]]
                0 <= t < araliklar@.len() ==> araliklar@[t].0 <= araliklar@[t].1 <= v@.len()
                    && satirlar[t] == v@.subrange(
                    araliklar@[t].0 as int,
                    araliklar@[t].1 as int,
                ),
            sayi == satirlar.take(k as int).filter(pred).len(),
            sayi <= k,
        decreases araliklar@.len() - k,
    {
        let ham = satir_metni(&v, araliklar[k]);
        let hv = karakterler(ham.as_str());
        let m = hv.len();
        assert(hv@.subrange(0, m as int) =~= hv@);
        let (x, y) = kirp_sinir(&hv, 0, m);
        let satir = metin_yap(&hv, x, y);
        let var = numara_oneki(satir.as_str()).is_some();
        proof {
            reveal(Seq::filter);
            assert(satirlar.take(k + 1).drop_last() =~= satirlar.take(k as int));
            assert(satirlar.take(k + 1).last() == satirlar[k as int]);
        }
        if var {
            sayi += 1;
        }
        k += 1;
    }
    assert(satirlar.take(k as int) =~= satirlar);
    let liste = sayi >= 2;
    // satırlar sırayla işlenir
    let mut secilen: Vec<String> = Vec::new();
    let mut tepki: Option<String> = None;
    let mut sus = false;
    let mut k: usize = 0;
    assert(satirlar.take(0) =~= Seq::<Seq<char>>::empty());
    assert(secilen.deep_view() =~= Seq::<Seq<char>>::empty());
    while k < araliklar.len()
        invariant
            k <= araliklar@.len() == satirlar.len(),
            satirlar == ayir(v@, '\n'),
            forall|t: int|
                #![trigger araliklar@[t]]
                0 <= t < araliklar@.len() ==> araliklar@[t].0 <= araliklar@[t].1 <= v@.len()
                    && satirlar[t] == v@.subrange(
                    araliklar@[t].0 as int,
                    araliklar@[t].1 as int,
                ),
            satirlari_isle(satirlar.take(k as int), liste) == (CevapModeli {
                satirlar: secilen.deep_view(),
                tepki: match tepki {
                    Some(t) => Some(t@),
                    None => None,
                },
                sus,
            }),
        decreases araliklar@.len() - k,
    {
        proof {
            assert(satirlar.take(k + 1).drop_last() =~= satirlar.take(k as int));
            assert(satirlar.take(k + 1).last() == satirlar[k as int]);
        }
        let ham = satir_metni(&v, araliklar[k]);
        let hv = karakterler(ham.as_str());
        let m = hv.len();
        assert(hv@.subrange(0, m as int) =~= hv@);
        let (x, y) = kirp_sinir(&hv, 0, m);
        let satir = metin_yap(&hv, x, y);
        if y > x {
            if sus_isareti(satir.as_str()) {
                sus = true;
            } else if let Some(g) = tepki_govdesi(satir.as_str()) {
                if tepki.is_none() {
                    tepki = emoji_ayikla(g);
                }
            } else if hv[x] == '\'' {
            } else {
                let s2: String = if liste {
                    match numara_oneki(satir.as_str()) {
                        Some(kalan) => kalan.to_owned(),
                        None => satir,
                    }
                } else {
                    satir
                };
                let temiz = slop_temizle(s2.as_str());
                let tv = karakterler(temiz.as_str());
                if tv.len() > 0 && !iceriyor_mu(&secilen, &tv) && secilen.len()
                    < PATLAMA_SINIRI {
                    let ghost once = secilen.deep_view();
                    secilen.push(temiz);
                    assert(secilen.deep_view() =~= once.push(tv@));
                }
            }
        }
        k += 1;
    }
    assert(satirlar.take(k as int) =~= satirlar);
    // sınırı aşan satırlar bölünür ve düzleştirilir
    let mut sonuc: Vec<String> = Vec::new();
    let ghost xs = secilen.deep_view();
    let ghost parcali = xs.map_values(|s: Seq<char>| mesaj_parcalari(s));
    let mut i: usize = 0;
    while i < secilen.len()
        invariant
            i <= secilen@.len() == xs.len() == parcali.len(),
            xs == secilen.deep_view(),
            parcali == xs.map_values(|s: Seq<char>| mesaj_parcalari(s)),
            sonuc.deep_view() == parcali.take(i as int).flatten(),
        decreases secilen@.len() - i,
    {
        let p = bol(secilen[i].as_str(), MESAJ_SINIRI);
        assert(parcali[i as int] == mesaj_parcalari(xs[i as int]));
        assert(xs[i as int] == secilen@[i as int]@);
        let ghost once = sonuc.deep_view();
        let mut j: usize = 0;
        while j < p.len()
            invariant
                j <= p@.len(),
                sonuc.deep_view() == once + p.deep_view().take(j as int),
            decreases p@.len() - j,
        {
            let ghost once2 = sonuc.deep_view();
            sonuc.push(p[j].clone());
            assert(sonuc.deep_view() =~= once2.push(p[j as int]@));
            assert(p.deep_view().take(j + 1) =~= p.deep_view().take(j as int).push(p[j as int]@));
            j += 1;
        }
        proof {
            assert(p.deep_view().take(p@.len() as int) =~= p.deep_view());
            assert(parcali.take(i + 1) =~= parcali.take(i as int).push(parcali[i as int]));
            parcali.take(i as int).lemma_flatten_push(parcali[i as int]);
        }
        i += 1;
    }
    assert(parcali.take(i as int) =~= parcali);
    Cevap { satirlar: sonuc, tepki, sus }
}

// ---------- protokol metninin yeniden çözülmesi ----------

/// Protokol metnine yazılıp geri okunabilen cevap satırı: boş değil, satır sonu içermiyor,
/// mesaj sınırını aşmıyor, süsten arınmış; susma işareti, tepki satırı, kırıntı ya da
/// numaralı satır gibi okunmuyor.
pub open spec fn yazilir_satir(l: Seq<char>) -> bool {
    &&& 0 < l.len() <= MESAJ_SINIRI
    &&& forall|j: int| 0 <= j < l.len() ==> l[j] != '\n'
    &&& slop_temizle_spec(l) == l
    &&& !sus_isareti_spec(l)
    &&& tepki_govdesi_spec(l) is None
    &&& l[0] != '\''
    &&& numara_oneki_spec(l) is None
}

/// Kırpmak ikinci kez bir şey değiştirmez.
pub proof fn lemma_kirp_kirp(x: Seq<char>)
    ensures
        kirp(kirp(x)) == kirp(x),
{
    let z = sol_kirp(x);
    lemma_sol_kirp(x);
    lemma_sag_kirp(z);
    let y = kirp(x);
    if y.len() > 0 {
        assert(y[0] == z[0]);
        assert(sol_kirp(y) == y);
        assert(sag_kirp(y) == y);
    } else {
        assert(sol_kirp(y) == y);
    }
}

/// Sınıra sığan kırpık satır tek parça gider.
proof fn lemma_tek_parca(l: Seq<char>)
    requires
        0 < l.len() <= MESAJ_SINIRI,
        kirp(l) == l,
    ensures
        mesaj_parcalari(l) == seq![l],
{
    assert(bol_kalan(l, MESAJ_SINIRI as nat) == seq![l]);
}

proof fn lemma_tekler_duzlesir(xs: Seq<Seq<char>>)
    requires
        forall|i: int| 0 <= i < xs.len() ==> mesaj_parcalari(#[trigger] xs[i]) == seq![xs[i]],
    ensures
        xs.map_values(|s: Seq<char>| mesaj_parcalari(s)).flatten() == xs,
    decreases xs.len(),
{
    let m = xs.map_values(|s: Seq<char>| mesaj_parcalari(s));
    if xs.len() > 0 {
        let x1 = xs.drop_first();
        assert forall|i: int| 0 <= i < x1.len() implies mesaj_parcalari(#[trigger] x1[i]) == seq![x1[i]] by {
            assert(x1[i] == xs[i + 1]);
        }
        lemma_tekler_duzlesir(x1);
        assert(m.drop_first() =~= x1.map_values(|s: Seq<char>| mesaj_parcalari(s)));
        assert(m.first() == seq![xs[0]]);
        assert(seq![xs[0]] + x1 =~= xs);
    } else {
        assert(m.flatten() =~= xs);
    }
}

/// Satırlar ayraçla birleşip yeniden ayrılırsa aynı satırlar çıkar.
pub proof fn lemma_birlestir_ayir(xs: Seq<Seq<char>>, c: char)
    requires
        xs.len() > 0,
        forall|i: int, j: int| 0 <= i < xs.len() && 0 <= j < xs[i].len() ==> #[trigger] xs[i][j] != c,
    ensures
        ayir(birlestir(xs, seq![c]), c) == xs,
    decreases xs.len(),
{
    let x = xs.last();
    assert(forall|j: int| 0 <= j < x.len() ==> x[j] != c) by {
        assert forall|j: int| 0 <= j < x.len() implies x[j] != c by {
            assert(xs[xs.len() - 1][j] != c);
        }
    }
    lemma_ayir_tek(x, c);
    if xs.len() == 1 {
        assert(xs =~= seq![x]);
    } else {
        let x0 = xs.drop_last();
        assert forall|i: int, j: int| 0 <= i < x0.len() && 0 <= j < x0[i].len() implies #[trigger] x0[i][j] != c by {
            assert(x0[i] == xs[i]);
        }
        lemma_birlestir_ayir(x0, c);
        lemma_ayir_ekle(birlestir(x0, seq![c]), x, c);
        assert(x0 + seq![x] =~= xs);
    }
}

/// Yazılır satırlar sırayla işlenince (liste olsun olmasın) aynen cevabın satırları olur.
proof fn lemma_yazilir_satirlar(xs: Seq<Seq<char>>, liste: bool, m: int)
    requires
        0 <= m <= xs.len() <= PATLAMA_SINIRI,
        forall|i: int, j: int| 0 <= i < j < xs.len() ==> xs[i] != xs[j],
        forall|i: int| 0 <= i < xs.len() ==> yazilir_satir(#[trigger] xs[i]),
    ensures
        satirlari_isle(xs.take(m), liste) == (CevapModeli { satirlar: xs.take(m), tepki: None, sus: false }),
    decreases m,
{
    if m == 0 {
        assert(xs.take(0) =~= Seq::<Seq<char>>::empty());
    } else {
        lemma_yazilir_satirlar(xs, liste, m - 1);
        assert(xs.take(m).drop_last() =~= xs.take(m - 1));
        let l = xs[m - 1];
        assert(yazilir_satir(l));
        lemma_kirp_kirp(birlestir(kod_korur(ayir(onek_at(kirp(l)), '`')), seq!['`']));
        assert(kirp(l) == l);
        assert(!xs.take(m - 1).contains(l)) by {
            if xs.take(m - 1).contains(l) {
                let k = choose|k: int| 0 <= k < xs.take(m - 1).len() && #[trigger] xs.take(m - 1)[k] == l;
                assert(xs[k] == xs[m - 1]);
            }
        }
        assert(xs.take(m - 1).push(l) =~= xs.take(m));
    }
}

/// `c` ilk kez `k`'de geçiyorsa `bul` onu `k`'de bulur.
proof fn lemma_ilk_gecis(s: Seq<char>, c: char, k: int)
    requires
        0 <= k < s.len(),
        s[k] == c,
        forall|j: int| 0 <= j < k ==> s[j] != c,
    ensures
        bul(s, seq![c]) == Some(k),
    decreases k,
{
    if k == 0 {
        assert(s.take(1) =~= seq![c]);
    } else {
        assert(s.take(1) != seq![c]) by {
            assert(s.take(1)[0] == s[0]);
        }
        assert forall|j: int| 0 <= j < k - 1 implies s.drop_first()[j] != c by {
            assert(s.drop_first()[j] == s[j + 1]);
        }
        lemma_ilk_gecis(s.drop_first(), c, k - 1);
    }
}

proof fn lemma_devam_karakterleri(s: Seq<char>)
    ensures
        forall|j: int| 0 <= j < devam_boyu(s) ==> emoji_devami_spec(#[trigger] s[j]),
    decreases s.len(),
{
    lemma_devam_boyu(s);
    if s.len() > 0 && emoji_devami_spec(s[0]) {
        lemma_devam_karakterleri(s.drop_first());
        assert forall|j: int| 0 <= j < devam_boyu(s) implies emoji_devami_spec(#[trigger] s[j]) by {
            if j > 0 {
                assert(s[j] == s.drop_first()[j - 1]);
            }
        }
    }
}

/// Kendi emojisi olan metin: boş değil, emojiyle başlar, her karakteri emoji parçasıdır;
/// önüne boşluk gelse de aynı emoji ayıklanır.
proof fn lemma_emoji_kendisi(e: Seq<char>)
    requires
        emoji_ayikla_spec(e) == Some(e),
    ensures
        e.len() > 0,
        emoji_basi_spec(e[0]),
        forall|j: int| 0 <= j < e.len() ==> emoji_devami_spec(#[trigger] e[j]),
        emoji_ayikla_spec(seq![' '] + e) == Some(e),
{
    lemma_ilk_emoji(e);
    let i = ilk_emoji(e)->0;
    lemma_devam_boyu(e.skip(i));
    assert(devam_boyu(e.skip(i)) >= 1) by {
        assert(e.skip(i)[0] == e[i]);
    }
    assert(i == 0);
    assert(e.skip(0) =~= e);
    lemma_devam_karakterleri(e);
    let d = devam_boyu(e);
    let m: int = if d > 8 { 8 } else { d as int };
    assert(e.take(m) == e);
    assert forall|j: int| 0 <= j < e.len() implies emoji_devami_spec(#[trigger] e[j]) by {
        assert(e.take(m)[j] == e[j]);
    }
    let b = seq![' '] + e;
    assert(!emoji_basi_spec(b[0]));
    assert(b.drop_first() =~= e);
    assert(ilk_emoji(b) == Some(1int));
    assert(b.skip(1) =~= e);
}

/// Yazılır satırın kırpılmışı kendisidir ve tek parça gider.
proof fn lemma_yazilir_kirpik(l: Seq<char>)
    requires
        yazilir_satir(l),
    ensures
        kirp(l) == l,
        mesaj_parcalari(l) == seq![l],
{
    lemma_kirp_kirp(birlestir(kod_korur(ayir(onek_at(kirp(l)), '`')), seq!['`']));
    lemma_tek_parca(l);
}

/// Protokol metnine yazılıp geri çözülebilen cevap: satırlar en çok dört ve birbirinden
/// farklı, her biri yazılır satır; tepki kendi emojisi ve tepki satırı susma işareti sayılmaz.
pub open spec fn geri_yazilir_cevap(c: CevapModeli) -> bool {
    &&& c.satirlar.len() <= PATLAMA_SINIRI
    &&& forall|i: int, j: int| 0 <= i < j < c.satirlar.len() ==> c.satirlar[i] != c.satirlar[j]
    &&& forall|i: int| 0 <= i < c.satirlar.len() ==> yazilir_satir(#[trigger] c.satirlar[i])
    &&& c.tepki matches Some(e) ==> emoji_ayikla_spec(e) == Some(e) && !sus_isareti_spec("tepki: "@ + e)
}

/// Protokol metni geri çözülünce aynı satırlar ve aynı tepki çıkar; susma çıkmaz.
pub(crate) proof fn lemma_protokol_geri_cozulur(c: CevapModeli)
    requires
        geri_yazilir_cevap(c),
        kucult_spec("tepki"@) == "tepki"@,
    ensures
        cevap_parcala_spec(protokol_metni_spec(c)).satirlar == c.satirlar,
        cevap_parcala_spec(protokol_metni_spec(c)).tepki == c.tepki,
        !cevap_parcala_spec(protokol_metni_spec(c)).sus,
{
    let xs = c.satirlar;
    let t = protokol_metni_spec(c);
    let b = birlestir(xs, seq!['\n']);
    let satirlar = ayir(t, '\n');
    let liste = numarali(satirlar) >= 2;
    assert forall|i: int| 0 <= i < xs.len() implies mesaj_parcalari(#[trigger] xs[i]) == seq![xs[i]] by {
        lemma_yazilir_kirpik(xs[i]);
    }
    lemma_tekler_duzlesir(xs);
    assert forall|i: int, j: int| 0 <= i < xs.len() && 0 <= j < xs[i].len() implies #[trigger] xs[i][j] != '\n' by {
        assert(yazilir_satir(xs[i]));
    }
    lemma_yazilir_satirlar(xs, liste, xs.len() as int);
    assert(xs.take(xs.len() as int) =~= xs);
    match c.tepki {
        None => {
            if xs.len() == 0 {
                assert(t == Seq::<char>::empty());
                assert(satirlar == seq![Seq::<char>::empty()]);
                assert(satirlar.drop_last() =~= Seq::<Seq<char>>::empty());
                assert(kirp(Seq::<char>::empty()) == Seq::<char>::empty());
            } else {
                lemma_birlestir_ayir(xs, '\n');
            }
        },
        Some(e) => {
            reveal_strlit("tepki: ");
            reveal_strlit("tepki");
            lemma_emoji_kendisi(e);
            let tl = "tepki: "@ + e;
            assert(tl.len() == 7 + e.len());
            assert forall|j: int| 0 <= j < tl.len() implies tl[j] != '\n' by {
                if j >= 7 {
                    assert(tl[j] == e[j - 7]);
                    assert(emoji_devami_spec(e[j - 7]));
                }
            }
            lemma_ayir_tek(tl, '\n');
            if xs.len() == 0 {
                assert(t =~= tl);
                assert(satirlar == seq![tl]);
                assert(satirlar.drop_last() =~= xs);
            } else {
                lemma_birlestir_ayir(xs, '\n');
                assert(t =~= b + seq!['\n'] + tl);
                lemma_ayir_ekle(b, tl, '\n');
                assert(satirlar =~= xs.push(tl));
                assert(satirlar.drop_last() =~= xs);
            }
            assert(satirlar.last() == tl);
            // tepki satırı olduğu gibi kırpılır
            assert(tl[0] == 't');
            assert(tl.last() == e.last());
            assert(emoji_devami_spec(e[e.len() - 1]));
            assert(!bosluk_mu(tl.last()));
            assert(sol_kirp(tl) == tl);
            assert(sag_kirp(tl) == tl);
            assert(kirp(tl) == tl);
            // "tepki" başlığı ve gövdesi
            lemma_ilk_gecis(tl, ':', 5);
            assert(ilk_konum(tl, ':') == Some(5int));
            let bas = tl.take(5);
            assert(bas =~= "tepki"@);
            assert(sol_kirp(bas) == bas);
            assert(sag_kirp(bas) == bas);
            assert(tl.skip(6) =~= seq![' '] + e);
            assert(tepki_govdesi_spec(tl) == Some(seq![' '] + e));
        },
    }
}

proof fn lemma_atla_gecmez(s: Seq<char>, n: int, d: char)
    requires
        0 <= n <= s.len(),
        gecmez(s, d),
    ensures
        gecmez(s.skip(n), d),
{
    assert forall|j: int| 0 <= j < s.skip(n).len() implies s.skip(n)[j] != d by {
        assert(s.skip(n)[j] == s[j + n]);
    }
}

/// Süs temizliği kırpılmış bir satır verir ve satırda geçmeyen karakteri (backtick dışında)
/// getirmez.
proof fn lemma_slop_gecmez(x: Seq<char>, d: char)
    requires
        gecmez(x, d),
        d != '`',
    ensures
        gecmez(slop_temizle_spec(x), d),
        kirp(slop_temizle_spec(x)) == slop_temizle_spec(x),
{
    reveal_strlit("- ");
    reveal_strlit("* ");
    reveal_strlit("• ");
    lemma_kirp_gecmez(x, d);
    let k = kirp(x);
    let o = onek_at(k);
    if basla(k, "- "@) || basla(k, "* "@) || basla(k, "• "@) {
        lemma_atla_gecmez(k, 2, d);
        lemma_kirp_gecmez(k.skip(2), d);
    }
    assert(gecmez(o, d));
    lemma_ayir_karakterleri(o, '`', d);
    let ps = ayir(o, '`');
    let kk = kod_korur(ps);
    assert forall|i: int| 0 <= i < kk.len() implies gecmez(#[trigger] kk[i], d) by {
        assert(gecmez(ps[i], d));
        if i % 2 == 0 {
            lemma_degistir_gecmez(ps[i], "**"@, seq![], d);
            lemma_degistir_gecmez(degistir(ps[i], "**"@, seq![]), "__"@, seq![], d);
        }
    }
    lemma_birlestir_gecmez(kk, seq!['`'], d);
    lemma_kirp_gecmez(birlestir(kk, seq!['`']), d);
    lemma_kirp_kirp(birlestir(kk, seq!['`']));
}

/// Çözülen her satır kırpılmıştır ve ham satırlarda geçmeyen karakteri (backtick dışında)
/// içermez.
pub proof fn lemma_satirlar_gecmez(xs: Seq<Seq<char>>, liste: bool, d: char)
    requires
        forall|i: int| 0 <= i < xs.len() ==> gecmez(#[trigger] xs[i], d),
        d != '`',
    ensures
        forall|i: int|
            0 <= i < satirlari_isle(xs, liste).satirlar.len() ==> gecmez(
                #[trigger] satirlari_isle(xs, liste).satirlar[i],
                d,
            ) && kirp(satirlari_isle(xs, liste).satirlar[i]) == satirlari_isle(xs, liste).satirlar[i],
    decreases xs.len(),
{
    if xs.len() > 0 {
        let x0 = xs.drop_last();
        assert forall|i: int| 0 <= i < x0.len() implies gecmez(#[trigger] x0[i], d) by {
            assert(x0[i] == xs[i]);
        }
        lemma_satirlar_gecmez(x0, liste, d);
        let st = satirlari_isle(x0, liste);
        let ham = xs.last();
        assert(gecmez(xs[xs.len() - 1], d));
        lemma_kirp_gecmez(ham, d);
        let satir = kirp(ham);
        if liste && numara_oneki_spec(satir) is Some {
            lemma_rakam_boyu(satir);
            let kk = satir.skip(rakam_boyu(satir) as int);
            lemma_atla_gecmez(satir, rakam_boyu(satir) as int, d);
            reveal_strlit(". ");
            reveal_strlit(") ");
            lemma_atla_gecmez(kk, 2, d);
            lemma_kirp_gecmez(kk.skip(2), d);
        }
        let s2 = if liste && numara_oneki_spec(satir) is Some {
            numara_oneki_spec(satir)->0
        } else {
            satir
        };
        assert(gecmez(s2, d));
        lemma_slop_gecmez(s2, d);
        let yeni = satirlari_isle(xs, liste);
        assert forall|i: int| 0 <= i < yeni.satirlar.len() implies gecmez(#[trigger] yeni.satirlar[i], d) && kirp(
            yeni.satirlar[i],
        ) == yeni.satirlar[i] by {
            if i < st.satirlar.len() {
                assert(yeni.satirlar[i] == st.satirlar[i]);
            }
        }
    }
}

/// "tepki" başlığı küçük harfe çevrilince değişmez (çeviri bir kez yapılır); bu yüzden geri
/// yazılır her cevabın protokol metni aynı satırlara ve aynı tepkiye geri çözülür, susma
/// çıkmaz.
pub fn tepki_basligi_korunur()
    ensures
        kucult_spec("tepki"@) == "tepki"@,
        forall|c: CevapModeli|
            geri_yazilir_cevap(c) ==> {
                let d = #[trigger] cevap_parcala_spec(protokol_metni_spec(c));
                &&& d.satirlar == c.satirlar
                &&& d.tepki == c.tepki
                &&& !d.sus
            },
{
    let k = kucuk_harfe_cevir("tepki");
    proof {
        reveal_strlit("tepki");
        assert(k@ =~= "tepki"@);
        lemma_noktasiz_ayni(k@);
        assert forall|c: CevapModeli| geri_yazilir_cevap(c) implies {
            let d = #[trigger] cevap_parcala_spec(protokol_metni_spec(c));
            &&& d.satirlar == c.satirlar
            &&& d.tepki == c.tepki
            &&& !d.sus
        } by {
            lemma_protokol_geri_cozulur(c);
        }
    }
}

} // verus!
