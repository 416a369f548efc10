//! Akış (stream) görünümü: cevap yazılırken Discord'daki mesajların ne olacağı.
use vstd::prelude::*;
use crate::ayarlar::{MESAJ_SINIRI, YARIM_SATIR_ESIGI};
use crate::bolme::{bol, parcalar};
use crate::metin::{daralt, karakterler, kirp, kirp_sinir, metin_yap, metne, son_konum, son_konum_bul};
use crate::protokol::{cevap_parcala, cevap_parcala_spec};
use crate::yardimci::{dusunce_sayaci, dusunce_sayaci_spec, ekle, spoiler, spoiler_spec, tek_satir};

verus! {

broadcast use vstd::string::group_string_axioms;

/// Düşünme kipi: modelin düşüncesi nasıl gösterilir.
#[derive(Clone, Copy, Debug, PartialEq, Eq, Structural)]
pub enum DusunmeKip {
    /// Düşünürken "Düşünüyorum...", düşünce hem spoiler hem kod bloğu olarak görünür.
    Goster,
    /// Düşünürken canlı kelime sayacı; düşünce mesajda görünmez, buton ardında durur.
    Gizle,
    /// Arka planda düşünür, hiç iz bırakmaz.
    Sessiz,
    /// İstekler düşünme kapalı gider.
    Kapali,
}

pub open spec fn arg_ile_spec(s: Seq<char>) -> Option<DusunmeKip> {
    if s == "göster"@ || s == "goster"@ || s == "aç"@ {
        Some(DusunmeKip::Goster)
    } else if s == "gizle"@ {
        Some(DusunmeKip::Gizle)
    } else if s == "sessiz"@ {
        Some(DusunmeKip::Sessiz)
    } else if s == "kapat"@ || s == "kapalı"@ || s == "kapali"@ {
        Some(DusunmeKip::Kapali)
    } else {
        None
    }
}

pub open spec fn dosya_degeri_spec(k: DusunmeKip) -> Seq<char> {
    match k {
        DusunmeKip::Goster => "goster"@,
        DusunmeKip::Gizle => "gizle"@,
        DusunmeKip::Sessiz => "sessiz"@,
        DusunmeKip::Kapali => "kapali"@,
    }
}

fn esit(a: &str, b: &str) -> (r: bool)
    ensures
        r == (a@ == b@),
{
    let x = karakterler(a);
    let y = karakterler(b);
    if x.len() != y.len() {
        return false;
    }
    let mut i: usize = 0;
    while i < x.len()
        invariant
            i <= x@.len() == y@.len(),
            x@ == a@,
            y@ == b@,
            forall|t: int| 0 <= t < i ==> x@[t] == y@[t],
        decreases x@.len() - i,
    {
        if x[i] != y[i] {
            assert(x@[i as int] != y@[i as int]);
            return false;
        }
        i += 1;
    }
    assert(x@ =~= y@);
    true
}

impl DusunmeKip {
    /// Komut argümanından kip ("göster"/"aç", "gizle", "sessiz", "kapat"/"kapalı");
    /// dosyada saklanan biçim de okunur.
    pub fn arg_ile(s: &str) -> (r: Option<DusunmeKip>)
        ensures
            r == arg_ile_spec(s@),
    {
        if esit(s, "göster") || esit(s, "goster") || esit(s, "aç") {
            Some(DusunmeKip::Goster)
        } else if esit(s, "gizle") {
            Some(DusunmeKip::Gizle)
        } else if esit(s, "sessiz") {
            Some(DusunmeKip::Sessiz)
        } else if esit(s, "kapat") || esit(s, "kapalı") || esit(s, "kapali") {
            Some(DusunmeKip::Kapali)
        } else {
            None
        }
    }

    /// Kipin dosyada saklanan biçimi.
    pub fn dosya_degeri(&self) -> (r: &'static str)
        ensures
            r@ == dosya_degeri_spec(*self),
    {
        match self {
            DusunmeKip::Goster => "goster",
            DusunmeKip::Gizle => "gizle",
            DusunmeKip::Sessiz => "sessiz",
            DusunmeKip::Kapali => "kapali",
        }
    }
}

/// Saklanan kip geri okununca aynı kip çıkar.
pub proof fn kip_dosyadan_geri_okunur(k: DusunmeKip)
    ensures
        arg_ile_spec(dosya_degeri_spec(k)) == Some(k),
{
    reveal_strlit("göster");
    reveal_strlit("goster");
    reveal_strlit("aç");
    reveal_strlit("gizle");
    reveal_strlit("sessiz");
    reveal_strlit("kapat");
    reveal_strlit("kapalı");
    reveal_strlit("kapali");
    match k {
        DusunmeKip::Goster => {},
        DusunmeKip::Gizle => {
            assert("gizle"@.len() == 5);
        },
        DusunmeKip::Sessiz => {
            assert("sessiz"@ != "göster"@) by {
                assert("sessiz"@[0] == 's');
                assert("göster"@[0] == 'g');
            }
            assert("sessiz"@ != "goster"@) by {
                assert("sessiz"@[0] == 's');
                assert("goster"@[0] == 'g');
            }
        },
        DusunmeKip::Kapali => {},
    }
    assert("göster"@[0] == 'g');
    assert("goster"@[0] == 'g');
    assert("sessiz"@[0] == 's');
    assert("kapalı"@[5] == 'ı');
    assert("kapali"@[0] == 'k');
    assert("kapali"@[5] == 'i');
}

// ---------- akış kesiti ----------

/// Son satır sonuna kadarki tamamlanmış kısım.
pub open spec fn akis_tam(cevap: Seq<char>) -> Seq<char> {
    match son_konum(cevap, '\n') {
        Some(i) => cevap.take(i),
        None => seq![],
    }
}

/// Son satır sonundan sonraki yarım satır.
pub open spec fn akis_yarim(cevap: Seq<char>) -> Seq<char> {
    match son_konum(cevap, '\n') {
        Some(i) => cevap.skip(i + 1),
        None => cevap,
    }
}

/// Akış sürerken görünen kısım: tamamlanmış satırlar, son yarım satır ancak eşiği geçtiyse.
pub open spec fn akis_kesiti_spec(cevap: Seq<char>, bitti: bool) -> Seq<char> {
    if bitti || kirp(akis_yarim(cevap)).len() >= YARIM_SATIR_ESIGI {
        cevap
    } else {
        akis_tam(cevap)
    }
}

/// Akış sürerken cevabın görünen kısmı: "tep" yarım hâlde mesaj olup bir sonraki
/// düzenlemede silinmesin diye kısa yarım satır bekletilir.
pub fn akis_kesiti(cevap: &str, bitti: bool) -> (r: &str)
    ensures
        r@ == akis_kesiti_spec(cevap@, bitti),
{
    if bitti {
        return cevap;
    }
    let v = karakterler(cevap);
    let n = v.len();
    let (tam_son, yarim_bas) = match son_konum_bul(&v, '\n') {
        Some(i) => (i, i + 1),
        None => (0, 0),
    };
    let (a, b) = kirp_sinir(&v, yarim_bas, n);
    proof {
        match son_konum(v@, '\n') {
            Some(k) => {
                assert(tam_son == k);
                assert(yarim_bas == k + 1);
            },
            None => {
                assert(tam_son == 0 && yarim_bas == 0);
                assert(v@.skip(0) =~= v@);
            },
        }
        crate::metin::lemma_son_konum_sinir(v@, '\n');
        assert(v@.subrange(yarim_bas as int, n as int) =~= v@.skip(yarim_bas as int));
        assert(v@.subrange(0, tam_son as int) =~= v@.take(tam_son as int));
        if son_konum(v@, '\n') is None {
            assert(v@.take(0) =~= Seq::<char>::empty());
        }
    }
    assert(v@ == cevap@);
    assert(kirp(akis_yarim(cevap@)).len() == b - a);
    if b - a >= YARIM_SATIR_ESIGI {
        cevap
    } else {
        assert(akis_tam(cevap@) == v@.subrange(0, tam_son as int));
        cevap.substring_char(0, tam_son)
    }
}

// ---------- yerleşim ----------

/// Kod bloğu biçimi: her parça "```\n...\n```".
pub open spec fn kod_blogu(p: Seq<char>) -> Seq<char> {
    "```\n"@ + p + "\n```"@
}

pub open spec fn kod_bloklari_spec(metin: Seq<char>) -> Seq<Seq<char>> {
    parcalar(metin, (MESAJ_SINIRI - 10) as nat).map_values(|p: Seq<char>| kod_blogu(p))
}

/// Düşüncenin kod bloğu biçimi; mesaj sınırını aşarsa birden çok blok.
pub fn kod_bloklari(metin: &str) -> (r: Vec<String>)
    ensures
        r.deep_view() == kod_bloklari_spec(metin@),
{
    let p = bol(metin, MESAJ_SINIRI - 10);
    let ac = karakterler("```\n");
    let kapa = karakterler("\n```");
    let mut r: Vec<String> = Vec::new();
    let mut i: usize = 0;
    while i < p.len()
        invariant
            i <= p@.len(),
            p.deep_view() == parcalar(metin@, (MESAJ_SINIRI - 10) as nat),
            ac@ == "```\n"@,
            kapa@ == "\n```"@,
            r.deep_view() == p.deep_view().take(i as int).map_values(
                |p: Seq<char>| kod_blogu(p),
            ),
        decreases p@.len() - i,
    {
        let mut s: Vec<char> = Vec::new();
        ekle(&mut s, &ac);
        ekle(&mut s, &karakterler(p[i].as_str()));
        ekle(&mut s, &kapa);
        let ghost once = r.deep_view();
        r.push(metne(&s));
        assert(r.deep_view() =~= once.push(kod_blogu(p[i as int]@)));
        assert(p.deep_view().take(i + 1) =~= p.deep_view().take(i as int).push(p[i as int]@));
        i += 1;
    }
    assert(p.deep_view().take(i as int) =~= p.deep_view());
    r
}

/// Düşünce blokları (yalnız göster kipinde: önce spoiler, sonra kod blokları) ardından
/// satır mesajları.
pub open spec fn akis_yerlesim_spec(kip: DusunmeKip, dusunce: Seq<char>, satirlar: Seq<Seq<char>>) -> Seq<Seq<char>> {
    let d = daralt(dusunce);
    let dusunce_bloklari = if kip == DusunmeKip::Goster && d.len() > 0 {
        parcalar(d, (MESAJ_SINIRI - 4) as nat).map_values(|p: Seq<char>| spoiler_spec(p))
            + kod_bloklari_spec(d)
    } else {
        seq![]
    };
    dusunce_bloklari + satirlar
}

fn ekle_hepsi(v: &mut Vec<String>, w: Vec<String>)
    ensures
        final(v).deep_view() == old(v).deep_view() + w.deep_view(),
{
    let ghost once = v.deep_view();
    let mut i: usize = 0;
    while i < w.len()
        invariant
            i <= w@.len(),
            v.deep_view() == once + w.deep_view().take(i as int),
        decreases w@.len() - i,
    {
        let ghost o = v.deep_view();
        v.push(w[i].clone());
        assert(v.deep_view() =~= o.push(w[i as int]@));
        assert(w.deep_view().take(i + 1) =~= w.deep_view().take(i as int).push(w[i as int]@));
        i += 1;
    }
    assert(w.deep_view().take(i as int) =~= w.deep_view());
}

/// Düşünce blokları + satır mesajları.
pub fn akis_yerlesim(kip: DusunmeKip, dusunce: &str, satirlar: &Vec<String>) -> (r: Vec<String>)
    ensures
        r.deep_view() == akis_yerlesim_spec(kip, dusunce@, satirlar.deep_view()),
{
    let d = tek_satir(dusunce);
    let mut v: Vec<String> = Vec::new();
    if kip == DusunmeKip::Goster && d.as_str().unicode_len() > 0 {
        let p = bol(d.as_str(), MESAJ_SINIRI - 4);
        let mut i: usize = 0;
        while i < p.len()
            invariant
                i <= p@.len(),
                v.deep_view() == p.deep_view().take(i as int).map_values(
                    |p: Seq<char>| spoiler_spec(p),
                ),
            decreases p@.len() - i,
        {
            let ghost once = v.deep_view();
            v.push(spoiler(p[i].as_str()));
            assert(v.deep_view() =~= once.push(spoiler_spec(p[i as int]@)));
            assert(p.deep_view().take(i + 1) =~= p.deep_view().take(i as int).push(
                p[i as int]@,
            ));
            i += 1;
        }
        assert(p.deep_view().take(i as int) =~= p.deep_view());
        let k = kod_bloklari(d.as_str());
        ekle_hepsi(&mut v, k);
    }
    let kopya = satirlar.clone();
    assert(kopya.deep_view() =~= satirlar.deep_view());
    ekle_hepsi(&mut v, kopya);
    assert(v.deep_view() =~= akis_yerlesim_spec(kip, dusunce@, satirlar.deep_view()));
    v
}

/// Akışın o anki durumunun Discord mesajlarına dökümü: cevap henüz görünmüyorsa ve model
/// düşünüyorsa yer tutucu (gizlede kelime sayacı, göstergede "Düşünüyorum...", sessiz ve
/// kapalıda hiçbir şey); değilse düşünce blokları ve cevabın satırları.
pub open spec fn akis_gorunum_spec(kip: DusunmeKip, dusunce: Seq<char>, cevap: Seq<char>, bitti: bool) -> Seq<Seq<char>> {
    let kesit = akis_kesiti_spec(cevap, bitti);
    if kirp(kesit).len() == 0 && kirp(dusunce).len() > 0 {
        match kip {
            DusunmeKip::Gizle => seq![dusunce_sayaci_spec(dusunce)],
            DusunmeKip::Goster => seq!["Düşünüyorum..."@],
            _ => seq![],
        }
    } else {
        akis_yerlesim_spec(kip, dusunce, cevap_parcala_spec(kesit).satirlar)
    }
}

pub fn bos_mu_kirpik(s: &str) -> (r: bool)
    ensures
        r == (kirp(s@).len() == 0),
{
    let v = karakterler(s);
    let n = v.len();
    assert(v@.subrange(0, n as int) =~= v@);
    let (a, b) = kirp_sinir(&v, 0, n);
    a == b
}

pub fn akis_gorunum(kip: DusunmeKip, dusunce: &str, cevap: &str, bitti: bool) -> (r: Vec<String>)
    ensures
        r.deep_view() == akis_gorunum_spec(kip, dusunce@, cevap@, bitti),
{
    let kesit = akis_kesiti(cevap, bitti);
    if bos_mu_kirpik(kesit) && !bos_mu_kirpik(dusunce) {
        return match kip {
            DusunmeKip::Gizle => {
                let r = vec![dusunce_sayaci(dusunce)];
                assert(r.deep_view() =~= seq![dusunce_sayaci_spec(dusunce@)]);
                r
            },
            DusunmeKip::Goster => {
                let r = vec!["Düşünüyorum...".to_owned()];
                assert(r.deep_view() =~= seq!["Düşünüyorum..."@]);
                r
            },
            _ => {
                let r: Vec<String> = Vec::new();
                assert(r.deep_view() =~= Seq::<Seq<char>>::empty());
                r
            },
        };
    }
    let c = cevap_parcala(kesit);
    akis_yerlesim(kip, dusunce, &c.satirlar)
}

/// Butonla açılan düşünce: tek mesaja sığacak kod bloğu; sığmazsa kısaltılıp not düşülür.
pub open spec fn dusunce_gosterim_spec(metin: Seq<char>) -> Seq<char> {
    let not = "\n_(düşünce uzun, kısaltıldı)_"@;
    let sinir = MESAJ_SINIRI - 12 - not.len();
    let govde = if metin.len() > sinir {
        metin.take(sinir)
    } else {
        metin
    };
    kod_blogu(govde) + if metin.len() > sinir {
        not
    } else {
        seq![]
    }
}

pub fn dusunce_gosterim(metin: &str) -> (r: String)
    ensures
        r@ == dusunce_gosterim_spec(metin@),
        r@.len() <= MESAJ_SINIRI,
{
    let not = karakterler("\n_(düşünce uzun, kısaltıldı)_");
    proof {
        reveal_strlit("\n_(düşünce uzun, kısaltıldı)_");
        reveal_strlit("```\n");
        reveal_strlit("\n```");
    }
    let sinir = MESAJ_SINIRI - 12 - not.len();
    let v = karakterler(metin);
    let uzun = v.len() > sinir;
    let son = if uzun {
        sinir
    } else {
        v.len()
    };
    let mut s = karakterler("```\n");
    let govde = metin_yap(&v, 0, son);
    assert(v@.subrange(0, son as int) =~= if v@.len() > sinir {
        v@.take(sinir as int)
    } else {
        v@
    });
    ekle(&mut s, &karakterler(govde.as_str()));
    ekle(&mut s, &karakterler("\n```"));
    if uzun {
        ekle(&mut s, &not);
    } else {
        assert(s@ + Seq::<char>::empty() =~= s@);
    }
    metne(&s)
}

} // verus!
