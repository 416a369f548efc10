//! Cevap turunun kararları: kanal kilidi, talimatın kurulması, kime dönüleceği ve
//! turun sonunda sohbetin güncellenmesi.
use vstd::prelude::*;
use std::collections::HashSet;
use std::collections::VecDeque;
use crate::karar::{konusulan, son_kullanici};
use crate::metin::{birlestir, bul_konum, karakterler, metin_yap};
use crate::sohbet::{asistan, ek_alanlar_ayni, gecmis_modeli, Durum, Mesaj, Rol};
use crate::yardimci::{birlestirilmis, ekle_metin};

verus! {

broadcast use {vstd::string::group_string_axioms, vstd::std_specs::hash::group_hash_axioms};

// ---------- kanal kilidi ----------

/// Meşgul kanallar dışında iki durumun bütün alanları aynı.
pub open spec fn mesgul_disinda_ayni(a: Durum, b: Durum) -> bool {
    &&& a.bot_adi == b.bot_adi
    &&& a.profil == b.profil
    &&& a.hafiza == b.hafiza
    &&& a.kanal_gecmisi == b.kanal_gecmisi
    &&& a.sohbetler == b.sohbetler
    &&& a.son_aktivite == b.son_aktivite
    &&& a.haber_bekleyen == b.haber_bekleyen
    &&& a.son_kanal == b.son_kanal
    &&& a.son_degerlendirme == b.son_degerlendirme
    &&& a.bekleyen_etiketler == b.bekleyen_etiketler
    &&& a.kendi_mesajlarim == b.kendi_mesajlarim
    &&& a.favori_adi == b.favori_adi
    &&& a.kullanici_adi == b.kullanici_adi
    &&& a.huy == b.huy
    &&& a.dizin == b.dizin
    &&& a.gundem == b.gundem
    &&& a.kendim == b.kendim
    &&& a.duzeltmeler == b.duzeltmeler
    &&& a.ad_kimlikleri == b.ad_kimlikleri
    &&& a.kullanici_adlari == b.kullanici_adlari
}

/// Kanalda aynı anda tek cevap üretilir: açık sohbet varsa ve kanal meşgul değilse kilit
/// alınır.
pub fn kilit_al(d: &mut Durum, kanal: u64) -> (r: bool)
    ensures
        r == (old(d).sohbetler@.contains_key(kanal) && !old(d).mesgul@.contains(kanal)),
        r ==> final(d).mesgul@ == old(d).mesgul@.insert(kanal),
        !r ==> *final(d) == *old(d),
        mesgul_disinda_ayni(*final(d), *old(d)),
{
    if d.mesgul.contains(&kanal) || !d.sohbetler.contains_key(&kanal) {
        return false;
    }
    d.mesgul.insert(kanal);
    true
}

/// Tur bitince (ya da yarıda kalınca) kilit bırakılır.
pub fn kilit_birak(mesgul: &mut HashSet<u64>, kanal: u64)
    ensures
        final(mesgul)@ == old(mesgul)@.remove(kanal),
{
    mesgul.remove(&kanal);
}

// ---------- turun akışı ----------

/// Cevap turunda olan.
#[derive(Clone, Copy, Debug, PartialEq, Eq, Structural)]
pub enum TurOlayi {
    /// Kanalda bir cevap turu başlamak istiyor.
    Basla,
    /// Tur hangi yoldan olursa olsun bitti (cevap gitti, model sustu, akış boş kaldı, hata
    /// oldu ya da tur yarıda kesildi); `yeni_mesaj`: bu sırada sohbete yeni mesaj geldi mi
    /// ve bir tur daha bakılacak mı.
    Bitti { yeni_mesaj: bool },
}

/// Turun sıradaki adımı.
#[derive(Clone, Copy, Debug, PartialEq, Eq, Structural)]
pub enum TurEylemi {
    /// Kanalda başka tur sürüyor ya da açık sohbet yok: hiçbir şey yapılmaz.
    Birak,
    /// Kanal kilitlendi: cevap üretilir.
    Uret,
    /// Kilit bırakıldı; yeni mesaj geldiği için baştan bir tur.
    Yeniden,
    /// Kilit bırakıldı; tur bitti.
    Son,
}

/// Turun bir adımı: meşgul kanallar ve eylem.
pub open spec fn tur_adimi_spec(mesgul: Set<u64>, acik: bool, kanal: u64, olay: TurOlayi) -> (Set<u64>, TurEylemi) {
    match olay {
        TurOlayi::Basla => if acik && !mesgul.contains(kanal) {
            (mesgul.insert(kanal), TurEylemi::Uret)
        } else {
            (mesgul, TurEylemi::Birak)
        },
        TurOlayi::Bitti { yeni_mesaj } => (mesgul.remove(kanal), if yeni_mesaj {
            TurEylemi::Yeniden
        } else {
            TurEylemi::Son
        }),
    }
}

/// Cevap turunun kilit adımı: başlarken kanal kilitlenir (kilitliyse ya da sohbet yoksa tur
/// hiç başlamaz), biterken her yoldan kilit bırakılır.
pub fn tur_adimi(d: &mut Durum, kanal: u64, olay: TurOlayi) -> (r: TurEylemi)
    ensures
        (final(d).mesgul@, r) == tur_adimi_spec(old(d).mesgul@, old(d).sohbetler@.contains_key(kanal), kanal, olay),
        r is Birak ==> *final(d) == *old(d),
        mesgul_disinda_ayni(*final(d), *old(d)),
{
    match olay {
        TurOlayi::Basla => {
            if kilit_al(d, kanal) {
                TurEylemi::Uret
            } else {
                TurEylemi::Birak
            }
        },
        TurOlayi::Bitti { yeni_mesaj } => {
            kilit_birak(&mut d.mesgul, kanal);
            if yeni_mesaj {
                TurEylemi::Yeniden
            } else {
                TurEylemi::Son
            }
        },
    }
}

// ---------- turun girdileri ----------

/// Hack şakasının bu turdaki talimatı.
#[derive(Clone, Copy, Debug, PartialEq, Eq, Structural)]
pub enum HackTalimati {
    Yok,
    /// Şaka sürüyor.
    Devam,
    /// Son tur: şakadan çıkılır.
    Cikis,
}

pub fn hack_talimati(hackli: u32) -> (r: HackTalimati)
    ensures
        r == (if hackli > 1 {
            HackTalimati::Devam
        } else if hackli == 1 {
            HackTalimati::Cikis
        } else {
            HackTalimati::Yok
        }),
{
    if hackli > 1 {
        HackTalimati::Devam
    } else if hackli == 1 {
        HackTalimati::Cikis
    } else {
        HackTalimati::Yok
    }
}

/// Son kullanıcı mesajının metni ("ad: " öneki atılmış); kullanıcı mesajı yoksa boş.
pub open spec fn son_kullanici_metni_spec(g: Seq<Mesaj>) -> Seq<char> {
    match son_kullanici(g) {
        Some(i) => konusulan(g[i].content@),
        None => seq![],
    }
}

pub fn son_kullanici_metni(gecmis: &Vec<Mesaj>) -> (r: String)
    ensures
        r@ == son_kullanici_metni_spec(gecmis@),
{
    let mut j = gecmis.len();
    assert(gecmis@.take(j as int) =~= gecmis@);
    while j > 0
        invariant
            j <= gecmis@.len(),
            son_kullanici(gecmis@) == son_kullanici(gecmis@.take(j as int)),
        decreases j,
    {
        if gecmis[j - 1].role == Rol::Kullanici {
            assert(gecmis@.take(j as int).last() == gecmis@[j - 1]);
            let v = karakterler(gecmis[j - 1].content.as_str());
            let p = karakterler(": ");
            proof {
                reveal_strlit(": ");
            }
            assert(p@.len() == 2);
            assert(v@.skip(0) =~= v@);
            let bulunan = bul_konum(&v, 0, &p);
            return match bulunan {
                Some(k) => {
                    let n = v.len();
                    assert(k + p@.len() <= v@.len());
                    assert(v@.subrange(k + 2, v@.len() as int) =~= v@.skip(k + 2));
                    metin_yap(&v, k + 2, n)
                },
                None => gecmis[j - 1].content.clone(),
            };
        }
        assert(gecmis@.take(j as int).drop_last() =~= gecmis@.take(j - 1));
        j -= 1;
    }
    String::new()
}

/// Cevap hangi mesaja "yanıt" olarak bağlanır: yalnız etiketlendiyse ya da araya birden
/// fazla mesaj girdiyse; yoksa düz mesaj gider.
pub fn yanit_hedefi(son_etiketlendi: bool, bekleyen_sayisi: usize, son_mesaj: Option<u64>) -> (r:
    Option<u64>)
    ensures
        r == (if son_etiketlendi || bekleyen_sayisi > 1 {
            son_mesaj
        } else {
            None
        }),
{
    if son_etiketlendi || bekleyen_sayisi > 1 {
        son_mesaj
    } else {
        None
    }
}

/// Ruh hali her cevapta değil, dört turda bir tazelenir.
pub fn ruh_hali_tazelenir(sayac: u32) -> (r: bool)
    ensures
        r == (sayac % 4 == 0),
{
    sayac % 4 == 0
}

// ---------- talimat ----------

/// Talimata eklenen bölümler.
pub enum TalimatEki {
    /// Tazelenmiş ruh hali.
    RuhHali(String),
    /// İnternetten çekilenler.
    Bulgu(String),
    /// Birden çok kişi yazdıysa seçilen kişi.
    Hedef(String),
    /// Üst üste soru sorulduysa bu tur soru yok.
    SoruYok,
    /// Tekrar edilen satırlar: aynısı yazılmasın.
    Tekrar(Vec<String>),
}

/// Eklenen bölümün metni.
pub open spec fn ek_metni(ek: TalimatEki) -> Seq<char> {
    match ek {
        TalimatEki::RuhHali(r) => "\n\nŞU ANKİ RUH HALİN: "@ + r@
            + " — bunu ilan etme, üslubuna ve kelime seçimine yedir."@,
        TalimatEki::Bulgu(b) => "\n\nİNTERNETTEN ŞİMDİ ÇEKTİKLERİN (istendiği için baktın; kendi ağzınla anlat, liste yapma, \"kaynak\" deme):\n"@
            + b@,
        TalimatEki::Hedef(h) => "\n\nBirden çok kişi yazdı; sen "@ + h@
            + " adlı kişiye dönmeyi seçtin. Cevabın doğrudan ona seslensin."@,
        TalimatEki::SoruYok => "\n\nBu sefer soru sorma; düz laf et ya da sus."@,
        TalimatEki::Tekrar(ts) => "\n\nAz önce aynen şunu yazdın: \""@ + birlestir(
            ts.deep_view(),
            " / "@,
        ) + "\". Aynısını ya da benzerini yazma; başka bir açıdan gir ya da konuyu değiştir."@,
    }
}

pub fn talimata_ekle(talimat: &str, ek: &TalimatEki) -> (r: String)
    ensures
        r@ == talimat@ + ek_metni(*ek),
{
    let mut v: Vec<char> = Vec::new();
    ekle_metin(&mut v, talimat);
    match ek {
        TalimatEki::RuhHali(r) => {
            ekle_metin(&mut v, "\n\nŞU ANKİ RUH HALİN: ");
            ekle_metin(&mut v, r.as_str());
            ekle_metin(&mut v, " — bunu ilan etme, üslubuna ve kelime seçimine yedir.");
        },
        TalimatEki::Bulgu(b) => {
            ekle_metin(
                &mut v,
                "\n\nİNTERNETTEN ŞİMDİ ÇEKTİKLERİN (istendiği için baktın; kendi ağzınla anlat, liste yapma, \"kaynak\" deme):\n",
            );
            ekle_metin(&mut v, b.as_str());
        },
        TalimatEki::Hedef(h) => {
            ekle_metin(&mut v, "\n\nBirden çok kişi yazdı; sen ");
            ekle_metin(&mut v, h.as_str());
            ekle_metin(&mut v, " adlı kişiye dönmeyi seçtin. Cevabın doğrudan ona seslensin.");
        },
        TalimatEki::SoruYok => {
            ekle_metin(&mut v, "\n\nBu sefer soru sorma; düz laf et ya da sus.");
        },
        TalimatEki::Tekrar(ts) => {
            ekle_metin(&mut v, "\n\nAz önce aynen şunu yazdın: \"");
            let j = birlestirilmis(ts, " / ");
            ekle_metin(&mut v, j.as_str());
            ekle_metin(
                &mut v,
                "\". Aynısını ya da benzerini yazma; başka bir açıdan gir ya da konuyu değiştir.",
            );
        },
    }
    crate::metin::metne(&v)
}

/// Turun ilk talimatı: hack talimatının metni, boş değilse ruh hali, varsa bulgular.
pub open spec fn ilk_talimat_spec(taban: Seq<char>, ruh_hali: Seq<char>, bulgu: Option<Seq<char>>) -> Seq<char> {
    let t1 = if ruh_hali.len() > 0 {
        taban + "\n\nŞU ANKİ RUH HALİN: "@ + ruh_hali + " — bunu ilan etme, üslubuna ve kelime seçimine yedir."@
    } else {
        taban
    };
    match bulgu {
        Some(b) => t1 + "\n\nİNTERNETTEN ŞİMDİ ÇEKTİKLERİN (istendiği için baktın; kendi ağzınla anlat, liste yapma, \"kaynak\" deme):\n"@
            + b,
        None => t1,
    }
}

pub fn ilk_talimat(taban: &str, ruh_hali: &str, bulgu: Option<String>) -> (r: String)
    ensures
        r@ == ilk_talimat_spec(
            taban@,
            ruh_hali@,
            match bulgu {
                Some(b) => Some(b@),
                None => None,
            },
        ),
{
    let t1 = if karakterler(ruh_hali).len() > 0 {
        talimata_ekle(taban, &TalimatEki::RuhHali(ruh_hali.to_owned()))
    } else {
        taban.to_owned()
    };
    match bulgu {
        Some(b) => talimata_ekle(t1.as_str(), &TalimatEki::Bulgu(b)),
        None => t1,
    }
}

// ---------- kime dönülür ----------

/// Bekleyenlerin adları.
pub open spec fn bekleyen_adlari(q: Seq<(String, u64)>) -> Seq<Seq<char>> {
    q.map_values(|p: (String, u64)| p.0@)
}

/// Bekleyenler arasında en az iki farklı kişi var mı.
pub open spec fn farkli_konusan_spec(q: Seq<(String, u64)>) -> bool {
    exists|i: int, j: int|
        0 <= i < q.len() && 0 <= j < q.len() && #[trigger] bekleyen_adlari(q)[i]
            != #[trigger] bekleyen_adlari(q)[j]
}

pub fn farkli_konusan_var(bekleyenler: &VecDeque<(String, u64)>) -> (r: bool)
    ensures
        r == farkli_konusan_spec(bekleyenler@),
{
    let ghost q = bekleyenler@;
    let ghost a = bekleyen_adlari(q);
    if bekleyenler.len() == 0 {
        return false;
    }
    let ilk = karakterler(bekleyenler[0].0.as_str());
    let mut i: usize = 1;
    while i < bekleyenler.len()
        invariant
            1 <= i <= q.len(),
            q == bekleyenler@,
            a == bekleyen_adlari(q),
            ilk@ == a[0],
            forall|k: int| 0 <= k < i ==> #[trigger] a[k] == a[0],
        decreases q.len() - i,
    {
        let x = karakterler(bekleyenler[i].0.as_str());
        if !crate::metin::ayni_dizi(&x, &ilk) {
            assert(a[i as int] != a[0]);
            return true;
        }
        i += 1;
    }
    proof {
        if farkli_konusan_spec(q) {
            let (x, y) = choose|x: int, y: int|
                0 <= x < q.len() && 0 <= y < q.len() && #[trigger] bekleyen_adlari(q)[x]
                    != #[trigger] bekleyen_adlari(q)[y];
            assert(a[x] == a[0] && a[y] == a[0]);
        }
    }
    false
}

/// ASCII büyük harf küçültülür, diğer karakterler olduğu gibi kalır.
pub open spec fn ascii_kucuk(c: char) -> char {
    if 'A' <= c <= 'Z' {
        ((c as u32) + 32) as char
    } else {
        c
    }
}

/// İki metin ASCII harflerde büyük/küçük gözetmeden aynı mı (`eq_ignore_ascii_case`).
pub open spec fn ascii_esit(a: Seq<char>, b: Seq<char>) -> bool {
    a.len() == b.len() && forall|i: int| 0 <= i < a.len() ==> ascii_kucuk(#[trigger] a[i]) == ascii_kucuk(b[i])
}

fn ascii_kucult(c: char) -> (r: char)
    ensures
        r == ascii_kucuk(c),
{
    if 'A' <= c && c <= 'Z' {
        let b = (c as u8) + 32;
        b as char
    } else {
        c
    }
}

pub fn ascii_esit_mi(a: &str, b: &str) -> (r: bool)
    ensures
        r == ascii_esit(a@, b@),
{
    let x = karakterler(a);
    let y = karakterler(b);
    if x.len() != y.len() {
        return false;
    }
    let mut i: usize = 0;
    while i < x.len()
        invariant
            i <= x@.len() == y@.len(),
            x@ == a@,
            y@ == b@,
            forall|k: int| 0 <= k < i ==> ascii_kucuk(#[trigger] x@[k]) == ascii_kucuk(y@[k]),
        decreases x@.len() - i,
    {
        if ascii_kucult(x[i]) != ascii_kucult(y[i]) {
            return false;
        }
        i += 1;
    }
    true
}

/// Seçilen kişinin bekleyenler arasındaki son mesajı.
pub open spec fn hedef_mesaji_spec(q: Seq<(String, u64)>, hedef: Seq<char>) -> Option<u64>
    decreases q.len(),
{
    if q.len() == 0 {
        None
    } else if ascii_esit(q.last().0@, hedef) {
        Some(q.last().1)
    } else {
        hedef_mesaji_spec(q.drop_last(), hedef)
    }
}

pub fn hedef_mesaji(bekleyenler: &VecDeque<(String, u64)>, hedef: &str) -> (r: Option<u64>)
    ensures
        r == hedef_mesaji_spec(bekleyenler@, hedef@),
{
    let ghost q = bekleyenler@;
    let mut j = bekleyenler.len();
    assert(q.take(j as int) =~= q);
    while j > 0
        invariant
            j <= q.len(),
            q == bekleyenler@,
            hedef_mesaji_spec(q, hedef@) == hedef_mesaji_spec(q.take(j as int), hedef@),
        decreases j,
    {
        assert(q.take(j as int).last() == q[j - 1]);
        if ascii_esit_mi(bekleyenler[j - 1].0.as_str(), hedef) {
            return Some(bekleyenler[j - 1].1);
        }
        assert(q.take(j as int).drop_last() =~= q.take(j - 1));
        j -= 1;
    }
    None
}

// ---------- turun sonu ----------

/// Cevap gittikten sonra: cevap geçmişe bot mesajı olarak girer, cevap sayacı artar, hack
/// şakası bir tur ilerler, bekleyenler sıfırlanır; kanalın son etkinlik anı `simdi` olur.
pub fn cevabi_kaydet(d: &mut Durum, kanal: u64, cevap: &str, simdi: u64)
    requires
        old(d).sohbetler@.contains_key(kanal) ==> old(d).sohbetler@[kanal].sayac < u32::MAX,
    ensures
        !old(d).sohbetler@.contains_key(kanal) ==> final(d).sohbetler@ == old(d).sohbetler@,
        old(d).sohbetler@.contains_key(kanal) ==> {
            let o = old(d).sohbetler@[kanal];
            let s = final(d).sohbetler@[kanal];
            &&& final(d).sohbetler@ == old(d).sohbetler@.insert(kanal, s)
            &&& gecmis_modeli(s.gecmis@) == gecmis_modeli(o.gecmis@).push((Rol::Asistan, cevap@))
            &&& s.gecmis@.drop_last() == o.gecmis@
            &&& s.gecmis@.last().resim is None
            &&& s.sayac == o.sayac + 1
            &&& s.hackli == (if o.hackli > 0 { o.hackli - 1 } else { 0 })
            &&& s.son_gelenler@.len() == 0
            &&& s.gelen == o.gelen && s.son_mesaj == o.son_mesaj
            &&& s.son_etiketlendi == o.son_etiketlendi && s.ruh_hali == o.ruh_hali
        },
        final(d).son_aktivite@ == old(d).son_aktivite@.insert(kanal, simdi),
        final(d).kanal_gecmisi@ == old(d).kanal_gecmisi@,
        final(d).hafiza@ == old(d).hafiza@,
        final(d).bot_adi == old(d).bot_adi,
        final(d).profil == old(d).profil,
        final(d).haber_bekleyen@ == old(d).haber_bekleyen@,
        final(d).son_kanal == old(d).son_kanal,
        ek_alanlar_ayni(*final(d), *old(d)),
{
    match d.sohbetler.remove(&kanal) {
        Some(mut s) => {
            let ghost g0 = s.gecmis@;
            s.gecmis.push(asistan(cevap));
            assert(s.gecmis@.drop_last() =~= g0);
            assert(gecmis_modeli(s.gecmis@) =~= gecmis_modeli(g0).push((Rol::Asistan, cevap@)));
            s.sayac = s.sayac + 1;
            s.hackli = s.hackli.saturating_sub(1);
            s.son_gelenler.clear();
            d.sohbetler.insert(kanal, s);
        },
        None => {},
    }
    d.son_aktivite.insert(kanal, simdi);
}

/// Model sustuysa geçmişe ve sayaca bir şey yazılmaz; hack şakası yine de ilerler ki
/// takılı kalmasın.
pub fn susunca(d: &mut Durum, kanal: u64)
    ensures
        !old(d).sohbetler@.contains_key(kanal) ==> final(d).sohbetler@ == old(d).sohbetler@,
        old(d).sohbetler@.contains_key(kanal) ==> {
            let o = old(d).sohbetler@[kanal];
            final(d).sohbetler@ == old(d).sohbetler@.insert(
                kanal,
                crate::sohbet::Sohbet {
                    hackli: (if o.hackli > 0 { (o.hackli - 1) as u32 } else { 0 }),
                    ..o
                },
            )
        },
        final(d).son_aktivite@ == old(d).son_aktivite@,
        final(d).kanal_gecmisi@ == old(d).kanal_gecmisi@,
        final(d).hafiza@ == old(d).hafiza@,
        final(d).bot_adi == old(d).bot_adi,
        final(d).haber_bekleyen@ == old(d).haber_bekleyen@,
        ek_alanlar_ayni(*final(d), *old(d)),
{
    match d.sohbetler.remove(&kanal) {
        Some(mut s) => {
            s.hackli = s.hackli.saturating_sub(1);
            d.sohbetler.insert(kanal, s);
        },
        None => {},
    }
}

} // verus!
