//! Kurulum: ortam değerlerinden sağlayıcı, model ve kısıtların seçilmesi; debug satırı.
use vstd::prelude::*;
use std::collections::HashSet;
use crate::ayarlar::{MISTRAL_ADRES, MISTRAL_MODEL, OPENROUTER_ADRES, OPENROUTER_MODEL};
use crate::metin::{ayir, ayir_araliklari, ayni_dizi, karakterler, kirp, kirp_sinir, metin_yap};
use crate::yardimci::{birlestirilmis, ekle_metin, kucuk_harf_metni, kucuk_harfe_cevir};

verus! {

broadcast use {vstd::string::group_string_axioms, vstd::std_specs::hash::group_hash_axioms};

// ---------- sayı ----------

/// Rakam dizisinin değeri.
pub open spec fn rakamlar_degeri(s: Seq<char>) -> int
    decreases s.len(),
{
    if s.len() == 0 {
        0
    } else {
        rakamlar_degeri(s.drop_last()) * 10 + ((s.last() as int) - ('0' as int))
    }
}

pub open spec fn hepsi_rakam(s: Seq<char>) -> bool {
    forall|i: int| 0 <= i < s.len() ==> '0' <= #[trigger] s[i] <= '9'
}

/// `u64::from_str`: isteğe bağlı "+" ve en az bir rakam; değer `u64`'e sığmalı.
pub open spec fn sayi_spec(s: Seq<char>) -> Option<u64> {
    let d = if s.len() > 0 && s[0] == '+' {
        s.drop_first()
    } else {
        s
    };
    if d.len() > 0 && hepsi_rakam(d) && rakamlar_degeri(d) <= u64::MAX {
        Some(rakamlar_degeri(d) as u64)
    } else {
        None
    }
}

proof fn lemma_rakamlar_negatif_degil(s: Seq<char>)
    requires
        hepsi_rakam(s),
    ensures
        rakamlar_degeri(s) >= 0,
    decreases s.len(),
{
    if s.len() > 0 {
        assert(hepsi_rakam(s.drop_last())) by {
            assert forall|i: int| 0 <= i < s.drop_last().len() implies '0' <= #[trigger] s.drop_last()[i] <= '9' by {
                assert(s.drop_last()[i] == s[i]);
            }
        }
        lemma_rakamlar_negatif_degil(s.drop_last());
        assert('0' <= s[s.len() - 1] <= '9');
    }
}

/// `v[a..b]` ondalık sayı olarak.
pub fn sayi_coz(v: &Vec<char>, a: usize, b: usize) -> (r: Option<u64>)
    requires
        a <= b <= v@.len(),
    ensures
        r == sayi_spec(v@.subrange(a as int, b as int)),
{
    let ghost s = v@.subrange(a as int, b as int);
    let mut i = a;
    if i < b && v[i] == '+' {
        i += 1;
    }
    let ghost d = v@.subrange(i as int, b as int);
    assert(d == if s.len() > 0 && s[0] == '+' {
        s.drop_first()
    } else {
        s
    }) by {
        if s.len() > 0 && s[0] == '+' {
            assert(d =~= s.drop_first());
        } else {
            assert(d =~= s);
        }
    }
    if i == b {
        return None;
    }
    let bas = i;
    let mut deger: u64 = 0;
    while i < b
        invariant
            bas <= i <= b <= v@.len(),
            s == v@.subrange(a as int, b as int),
            d == v@.subrange(bas as int, b as int),
            d.len() > 0,
            sayi_spec(s) == (if d.len() > 0 && hepsi_rakam(d) && rakamlar_degeri(d) <= u64::MAX {
                Some(rakamlar_degeri(d) as u64)
            } else {
                None
            }),
            hepsi_rakam(v@.subrange(bas as int, i as int)),
            deger == rakamlar_degeri(v@.subrange(bas as int, i as int)),
        decreases b - i,
    {
        let c = v[i];
        let ghost once = v@.subrange(bas as int, i as int);
        let ghost sonra = v@.subrange(bas as int, i + 1);
        assert(sonra.drop_last() =~= once);
        assert(sonra.last() == c);
        assert(d.take(i - bas) =~= once);
        assert(d[i - bas] == c);
        if c < '0' || c > '9' {
            assert(!hepsi_rakam(d)) by {
                assert(d[i - bas] == c);
            }
            return None;
        }
        let rakam: u64 = (c as u32 - '0' as u32) as u64;
        assert(rakam == (c as int) - ('0' as int));
        if deger > (u64::MAX - rakam) / 10 {
            proof {
                assert(deger * 10 + rakam > u64::MAX) by (nonlinear_arith)
                    requires
                        deger > (u64::MAX - rakam) / 10,
                        rakam <= 9,
                ;
                lemma_uzantida_buyur(d, (i - bas) as int);
            }
            return None;
        }
        assert(deger * 10 + rakam <= u64::MAX) by (nonlinear_arith)
            requires
                deger <= (u64::MAX - rakam) / 10,
                rakam <= 9,
        ;
        deger = deger * 10 + rakam;
        assert(hepsi_rakam(sonra)) by {
            assert forall|k: int| 0 <= k < sonra.len() implies '0' <= #[trigger] sonra[k] <= '9' by {
                if k < once.len() {
                    assert(sonra[k] == once[k]);
                }
            }
        }
        i += 1;
    }
    assert(v@.subrange(bas as int, b as int) == d);
    Some(deger)
}

/// Rakam dizisinin bir önekinin değeri sığmıyorsa bütününki de sığmaz (ya da dizi rakam
/// değildir).
proof fn lemma_uzantida_buyur(d: Seq<char>, k: int)
    requires
        0 <= k < d.len(),
        hepsi_rakam(d.take(k)),
        '0' <= d[k] <= '9',
        rakamlar_degeri(d.take(k)) * 10 + ((d[k] as int) - ('0' as int)) > u64::MAX,
    ensures
        !(hepsi_rakam(d) && rakamlar_degeri(d) <= u64::MAX),
    decreases d.len() - k,
{
    if hepsi_rakam(d) {
        lemma_onek_degeri(d, k + 1);
        assert(d.take(k + 1).drop_last() =~= d.take(k));
    }
}

/// Rakam dizisinin değeri öneklerinin değerinden küçük olmaz.
proof fn lemma_onek_degeri(d: Seq<char>, k: int)
    requires
        0 <= k <= d.len(),
        hepsi_rakam(d),
    ensures
        rakamlar_degeri(d) >= rakamlar_degeri(d.take(k)),
    decreases d.len() - k,
{
    if k < d.len() {
        lemma_onek_degeri(d, k + 1);
        assert(d.take(k + 1).drop_last() =~= d.take(k));
        assert(hepsi_rakam(d.take(k))) by {
            assert forall|i: int| 0 <= i < d.take(k).len() implies '0' <= #[trigger] d.take(k)[i] <= '9' by {
                assert(d.take(k)[i] == d[i]);
            }
        }
        lemma_rakamlar_negatif_degil(d.take(k));
        assert(rakamlar_degeri(d.take(k + 1)) == rakamlar_degeri(d.take(k)) * 10 + ((d[k] as int) - ('0' as int)));
        assert(rakamlar_degeri(d.take(k + 1)) >= rakamlar_degeri(d.take(k))) by (nonlinear_arith)
            requires
                rakamlar_degeri(d.take(k + 1)) == rakamlar_degeri(d.take(k)) * 10 + ((d[k] as int) - ('0' as int)),
                rakamlar_degeri(d.take(k)) >= 0,
                '0' <= d[k] <= '9',
        ;
    } else {
        assert(d.take(k) =~= d);
    }
}

// ---------- ayarlar ----------

/// Ortam değişkenlerinin ham değerleri (tanımsız ya da okunamayan: yok).
pub struct OrtamDegerleri {
    pub saglayici: Option<String>,
    pub openrouter_key: Option<String>,
    pub mistral_key: Option<String>,
    pub model: Option<String>,
    pub api_adres: Option<String>,
    pub resim_analizi: Option<String>,
    pub haber_kanali: Option<String>,
    pub guild_id: Option<String>,
    pub kanallar: Option<String>,
    pub firecrawl_key: Option<String>,
    pub debug_kanali: Option<String>,
}

/// Kurulumun sonucu.
pub struct Yapilandirma {
    pub api_adres: String,
    pub anahtar: String,
    pub model: String,
    pub resim_analizi: bool,
    pub haber_kanali: Option<u64>,
    pub guild_id: Option<u64>,
    pub izinli_kanallar: Option<HashSet<u64>>,
    pub firecrawl: Option<String>,
    pub debug_kanali: Option<u64>,
}

/// Kurulum hataları: gereken ayar yok ya da sayı olması gereken ayar sayı değil (ayarın
/// adıyla).
#[derive(Debug)]
pub enum KurulumHatasi {
    AyarYok(String),
    GecersizSayi(String),
}

pub open spec fn gorunum(o: Option<String>) -> Option<Seq<char>> {
    match o {
        Some(s) => Some(s@),
        None => None,
    }
}

/// Ayar: tanımlı ve kırpılmış hâli boş değilse kırpılmış değeri.
pub open spec fn ayar_spec(o: Option<Seq<char>>) -> Option<Seq<char>> {
    match o {
        Some(v) => if kirp(v).len() > 0 {
            Some(kirp(v))
        } else {
            None
        },
        None => None,
    }
}

fn ayar_oku(o: &Option<String>) -> (r: Option<String>)
    ensures
        gorunum(r) == ayar_spec(gorunum(*o)),
{
    match o {
        Some(v) => {
            let c = karakterler(v.as_str());
            let n = c.len();
            assert(c@.subrange(0, n as int) =~= c@);
            let (a, b) = kirp_sinir(&c, 0, n);
            if a < b {
                Some(metin_yap(&c, a, b))
            } else {
                None
            }
        },
        None => None,
    }
}

/// Sayı ayarı: tanımlı değilse yok; tanımlıysa sayı olmalı.
pub open spec fn sayi_ayari_spec(o: Option<Seq<char>>) -> Option<Option<u64>> {
    match ayar_spec(o) {
        None => Some(None),
        Some(v) => match sayi_spec(v) {
            Some(n) => Some(Some(n)),
            None => None,
        },
    }
}

fn sayi_ayari(o: &Option<String>) -> (r: Option<Option<u64>>)
    ensures
        r == sayi_ayari_spec(gorunum(*o)),
{
    match ayar_oku(o) {
        None => Some(None),
        Some(v) => {
            let c = karakterler(v.as_str());
            assert(c@.subrange(0, c@.len() as int) =~= c@);
            match sayi_coz(&c, 0, c.len()) {
                Some(n) => Some(Some(n)),
                None => None,
            }
        },
    }
}

/// Virgülle ayrılmış kanal listesi: parçalar kırpılır, boşlar atlanır; hepsi sayı olmalı.
pub open spec fn kanal_parcalari(s: Seq<char>) -> Seq<Seq<char>> {
    ayir(s, ',').map_values(|p: Seq<char>| kirp(p)).filter(|p: Seq<char>| p.len() > 0)
}

pub open spec fn kanal_listesi_spec(s: Seq<char>) -> Option<Set<u64>> {
    let ps = kanal_parcalari(s);
    if forall|i: int| 0 <= i < ps.len() ==> (#[trigger] sayi_spec(ps[i])) is Some {
        Some(Set::new(|n: u64| exists|i: int| 0 <= i < ps.len() && sayi_spec(#[trigger] ps[i]) == Some(n)))
    } else {
        None
    }
}

fn kanal_listesi(s: &str) -> (r: Option<HashSet<u64>>)
    ensures
        match r {
            Some(h) => kanal_listesi_spec(s@) == Some(h@),
            None => kanal_listesi_spec(s@) is None,
        },
{
    let v = karakterler(s);
    let ar = ayir_araliklari(&v, ',');
    let ghost parcalar = ayir(v@, ',');
    let ghost kirpik = parcalar.map_values(|p: Seq<char>| kirp(p));
    let ghost f = |p: Seq<char>| p.len() > 0;
    let ghost ps = kanal_parcalari(v@);
    let mut kume: HashSet<u64> = HashSet::new();
    let mut i: usize = 0;
    assert(kirpik.take(0).filter(f) =~= Seq::<Seq<char>>::empty()) by {
        reveal(Seq::filter);
    }
    while i < ar.len()
        invariant
            i <= ar@.len() == parcalar.len(),
            v@ == s@,
            parcalar == ayir(v@, ','),
            kirpik == parcalar.map_values(|p: Seq<char>| kirp(p)),
            f == (|p: Seq<char>| p.len() > 0),
            ps == kirpik.filter(f),
            forall|x: int|
                #![trigger ar@[x]]
                0 <= x < ar@.len() ==> ar@[x].0 <= ar@[x].1 <= v@.len() && parcalar[x] == v@.subrange(
                    ar@[x].0 as int,
                    ar@[x].1 as int,
                ),
            forall|j: int| 0 <= j < kirpik.take(i as int).filter(f).len() ==> (#[trigger] sayi_spec(
                kirpik.take(i as int).filter(f)[j],
            )) is Some,
            forall|n: u64| #[trigger] kume@.contains(n) <==> exists|j: int|
                0 <= j < kirpik.take(i as int).filter(f).len() && sayi_spec(
                    #[trigger] kirpik.take(i as int).filter(f)[j],
                ) == Some(n),
        decreases ar@.len() - i,
    {
        let (x, y) = ar[i];
        let (a, b) = kirp_sinir(&v, x, y);
        let ghost onceki = kirpik.take(i as int).filter(f);
        proof {
            assert(kirpik.take(i + 1) =~= kirpik.take(i as int).push(kirpik[i as int]));
            kirpik.take(i as int).lemma_filter_push(kirpik[i as int], f);
            assert(kirpik[i as int] == v@.subrange(a as int, b as int));
        }
        if a < b {
            match sayi_coz(&v, a, b) {
                Some(n) => {
                    kume.insert(n);
                    proof {
                        let sonra = kirpik.take(i + 1).filter(f);
                        assert(sonra == onceki.push(kirpik[i as int]));
                        assert forall|m: u64| #[trigger] kume@.contains(m) <==> exists|j: int|
                            0 <= j < sonra.len() && sayi_spec(#[trigger] sonra[j]) == Some(m) by {
                            if kume@.contains(m) && m != n {
                                let j = choose|j: int| 0 <= j < onceki.len() && sayi_spec(#[trigger] onceki[j]) == Some(m);
                                assert(sonra[j] == onceki[j]);
                            }
                            if m == n {
                                assert(sonra[onceki.len() as int] == kirpik[i as int]);
                            }
                            if exists|j: int| 0 <= j < sonra.len() && sayi_spec(#[trigger] sonra[j]) == Some(m) {
                                let j = choose|j: int| 0 <= j < sonra.len() && sayi_spec(#[trigger] sonra[j]) == Some(m);
                                if j < onceki.len() {
                                    assert(sonra[j] == onceki[j]);
                                }
                            }
                        }
                        assert forall|j: int| 0 <= j < sonra.len() implies (#[trigger] sayi_spec(sonra[j])) is Some by {
                            if j < onceki.len() {
                                assert(sonra[j] == onceki[j]);
                            }
                        }
                    }
                },
                None => {
                    proof {
                        let tum = kirpik.filter(f);
                        assert(kirpik =~= kirpik.take(i + 1) + kirpik.skip(i + 1));
                        Seq::filter_distributes_over_add(kirpik.take(i + 1), kirpik.skip(i + 1), f);
                        let sonra = kirpik.take(i + 1).filter(f);
                        assert(sonra == onceki.push(kirpik[i as int]));
                        assert(tum[onceki.len() as int] == kirpik[i as int]);
                        assert(sayi_spec(tum[onceki.len() as int]) is None);
                    }
                    return None;
                },
            }
        } else {
            assert(kirpik.take(i + 1).filter(f) == onceki);
        }
        i += 1;
    }
    assert(kirpik.take(i as int) =~= kirpik);
    proof {
        let hedef = Set::new(|n: u64| exists|i: int| 0 <= i < ps.len() && sayi_spec(#[trigger] ps[i]) == Some(n));
        assert(kume@ =~= hedef);
    }
    Some(kume)
}

/// Mistral mı seçilir: açıkça istendiyse ya da yalnız Mistral anahtarı varsa.
pub open spec fn mistral_secilir(o: OrtamDegerleri) -> bool {
    let s = match o.saglayici {
        Some(v) => v@,
        None => seq![],
    };
    kucuk_harf_metni(s) == "mistral"@ || (ayar_spec(gorunum(o.openrouter_key)) is None && ayar_spec(
        gorunum(o.mistral_key),
    ) is Some)
}

/// Görsel analizi kapatan değerler.
pub open spec fn resim_kapali(v: Seq<char>) -> bool {
    v == "kapali"@ || v == "kapalı"@ || v == "off"@ || v == "hayir"@ || v == "hayır"@ || v == "0"@
}

pub open spec fn resim_analizi_spec(o: Option<Seq<char>>) -> bool {
    let v = match o {
        Some(x) => kirp(x),
        None => seq![],
    };
    !resim_kapali(v)
}

/// Kurulumun sonucu ortam değerleriyle uyumlu mu.
pub open spec fn kurulum_spec(o: OrtamDegerleri, r: Result<Yapilandirma, KurulumHatasi>) -> bool {
    let mistral = mistral_secilir(o);
    let anahtar = if mistral {
        ayar_spec(gorunum(o.mistral_key))
    } else {
        ayar_spec(gorunum(o.openrouter_key))
    };
    let haber = sayi_ayari_spec(gorunum(o.haber_kanali));
    let guild = sayi_ayari_spec(gorunum(o.guild_id));
    let kanallar = match ayar_spec(gorunum(o.kanallar)) {
        None => Some(None),
        Some(k) => match kanal_listesi_spec(k) {
            Some(s) => Some(Some(s)),
            None => None,
        },
    };
    if anahtar is None {
        r matches Err(KurulumHatasi::AyarYok(ad)) && ad@ == (if mistral {
            "MISTRAL_KEY"@
        } else {
            "OPENROUTER_KEY"@
        })
    } else if haber is None {
        r matches Err(KurulumHatasi::GecersizSayi(ad)) && ad@ == "HABER_KANALI"@
    } else if guild is None {
        r matches Err(KurulumHatasi::GecersizSayi(ad)) && ad@ == "GUILD_ID"@
    } else if kanallar is None {
        r matches Err(KurulumHatasi::GecersizSayi(ad)) && ad@ == "KANALLAR"@
    } else {
        r matches Ok(y) && {
            &&& y.anahtar@ == anahtar->0
            &&& y.api_adres@ == match ayar_spec(gorunum(o.api_adres)) {
                Some(a) => a,
                None => if mistral {
                    MISTRAL_ADRES@
                } else {
                    OPENROUTER_ADRES@
                },
            }
            &&& y.model@ == match ayar_spec(gorunum(o.model)) {
                Some(m) => m,
                None => if mistral {
                    MISTRAL_MODEL@
                } else {
                    OPENROUTER_MODEL@
                },
            }
            &&& y.resim_analizi == resim_analizi_spec(gorunum(o.resim_analizi))
            &&& y.haber_kanali == haber->0
            &&& y.guild_id == guild->0
            &&& match y.izinli_kanallar {
                Some(h) => kanallar->0 == Some(h@),
                None => kanallar->0 is None,
            }
            &&& gorunum(y.firecrawl) == ayar_spec(gorunum(o.firecrawl_key))
            &&& y.debug_kanali == match ayar_spec(gorunum(o.debug_kanali)) {
                Some(v) => sayi_spec(v),
                None => None,
            }
        }
    }
}

fn esit(v: &Vec<char>, s: &str) -> (r: bool)
    ensures
        r == (v@ == s@),
{
    ayni_dizi(v, &karakterler(s))
}

/// Sağlayıcı, anahtar, model, adres ve kısıtlar ortam değerlerinden seçilir.
pub fn kur(o: &OrtamDegerleri) -> (r: Result<Yapilandirma, KurulumHatasi>)
    ensures
        kurulum_spec(*o, r),
{
    let s = match &o.saglayici {
        Some(v) => kucuk_harfe_cevir(v.as_str()),
        None => kucuk_harfe_cevir(""),
    };
    assert(o.saglayici is None ==> ""@ =~= Seq::<char>::empty()) by {
        reveal_strlit("");
    }
    let sv = karakterler(s.as_str());
    let openrouter = ayar_oku(&o.openrouter_key);
    let mistral_anahtari = ayar_oku(&o.mistral_key);
    let mistral = esit(&sv, "mistral") || (openrouter.is_none() && mistral_anahtari.is_some());
    let anahtar = if mistral {
        mistral_anahtari
    } else {
        openrouter
    };
    let anahtar = match anahtar {
        Some(a) => a,
        None => {
            return Err(KurulumHatasi::AyarYok(
                if mistral {
                    "MISTRAL_KEY".to_owned()
                } else {
                    "OPENROUTER_KEY".to_owned()
                },
            ));
        },
    };
    let model = match ayar_oku(&o.model) {
        Some(m) => m,
        None => if mistral {
            MISTRAL_MODEL.to_owned()
        } else {
            OPENROUTER_MODEL.to_owned()
        },
    };
    let api_adres = match ayar_oku(&o.api_adres) {
        Some(a) => a,
        None => if mistral {
            MISTRAL_ADRES.to_owned()
        } else {
            OPENROUTER_ADRES.to_owned()
        },
    };
    let rv: Vec<char> = match &o.resim_analizi {
        Some(x) => {
            let c = karakterler(x.as_str());
            let n = c.len();
            assert(c@.subrange(0, n as int) =~= c@);
            let (a, b) = kirp_sinir(&c, 0, n);
            crate::metin::kopya(&c, a, b)
        },
        None => Vec::new(),
    };
    let resim_analizi = !(esit(&rv, "kapali") || esit(&rv, "kapalı") || esit(&rv, "off") || esit(
        &rv,
        "hayir",
    ) || esit(&rv, "hayır") || esit(&rv, "0"));
    let haber_kanali = match sayi_ayari(&o.haber_kanali) {
        Some(h) => h,
        None => return Err(KurulumHatasi::GecersizSayi("HABER_KANALI".to_owned())),
    };
    let guild_id = match sayi_ayari(&o.guild_id) {
        Some(g) => g,
        None => return Err(KurulumHatasi::GecersizSayi("GUILD_ID".to_owned())),
    };
    let izinli_kanallar = match ayar_oku(&o.kanallar) {
        None => None,
        Some(k) => match kanal_listesi(k.as_str()) {
            Some(h) => Some(h),
            None => return Err(KurulumHatasi::GecersizSayi("KANALLAR".to_owned())),
        },
    };
    let firecrawl = ayar_oku(&o.firecrawl_key);
    let debug_kanali = match ayar_oku(&o.debug_kanali) {
        Some(d) => {
            let c = karakterler(d.as_str());
            assert(c@.subrange(0, c@.len() as int) =~= c@);
            sayi_coz(&c, 0, c.len())
        },
        None => None,
    };
    Ok(Yapilandirma {
        api_adres,
        anahtar,
        model,
        resim_analizi,
        haber_kanali,
        guild_id,
        izinli_kanallar,
        firecrawl,
        debug_kanali,
    })
}

/// Diskte seçilmiş model varsa (kırpılmış, boş değil) o, yoksa ortamın modeli.
pub fn secili_model(dosya: &str, ortam_modeli: String) -> (r: String)
    ensures
        r@ == (if kirp(dosya@).len() > 0 {
            kirp(dosya@)
        } else {
            ortam_modeli@
        }),
{
    match ayar_oku(&Some(dosya.to_owned())) {
        Some(m) => m,
        None => ortam_modeli,
    }
}

// ---------- debug ----------

/// Debug satırı: "⚙ " önekli, en çok 300 karakter.
pub open spec fn debug_satiri_spec(metin: Seq<char>) -> Seq<char> {
    let s = "⚙ "@ + metin;
    if s.len() > 300 {
        s.take(300)
    } else {
        s
    }
}

pub fn debug_satiri(metin: &str) -> (r: String)
    ensures
        r@ == debug_satiri_spec(metin@),
{
    let mut v: Vec<char> = Vec::new();
    ekle_metin(&mut v, "⚙ ");
    ekle_metin(&mut v, metin);
    let n: usize = if v.len() > 300 {
        300
    } else {
        v.len()
    };
    assert(v@.subrange(0, n as int) =~= debug_satiri_spec(metin@));
    metin_yap(&v, 0, n)
}

/// Debug satırının gideceği kanal: ayrı debug kanalı varsa o.
pub fn debug_hedefi(debug_kanali: Option<u64>, kanal: u64) -> (r: u64)
    ensures
        r == match debug_kanali {
            Some(k) => k,
            None => kanal,
        },
{
    match debug_kanali {
        Some(k) => k,
        None => kanal,
    }
}

/// Turun izleri tek satırda: debug açıksa ve iz varsa " · " ile birleşir.
pub fn iz_satiri(acik: bool, iz: &Vec<String>) -> (r: Option<String>)
    ensures
        match r {
            Some(s) => acik && iz@.len() > 0 && s@ == crate::metin::birlestir(iz.deep_view(), " · "@),
            None => !(acik && iz@.len() > 0),
        },
{
    if acik && iz.len() > 0 {
        Some(birlestirilmis(iz, " · "))
    } else {
        None
    }
}

} // verus!
