//! Sohbet durumu: hafıza penceresi, kanal geçmişi, açık sohbetler.
use vstd::prelude::*;
use std::collections::HashMap;
use std::collections::HashSet;
use std::collections::VecDeque;
use crate::ayarlar::{HAFIZA_BOYU, KANAL_GECMIS, SOHBET_TOHUM};
use crate::metin::{
    ayir, ayir_araliklari, ayni_dizi, basla, basliyor, birlestir, karakterler, kirp, kirp_sinir,
    kopya, lemma_birlestir_adim, metin_yap, metne, sag_kirp, sag_sinir,
};
use crate::protokol::{tepki_govdesi, tepki_govdesi_spec};
use crate::yardimci::{ekle, kucuk_harf_metni, kucuk_harfe_cevir};

verus! {

broadcast use {vstd::string::group_string_axioms, vstd::std_specs::hash::group_hash_axioms};

/// Mesajın kimden geldiği.
#[derive(Clone, Copy, Debug, PartialEq, Eq, Structural)]
pub enum Rol {
    Kullanici,
    Asistan,
}

/// Sohbet geçmişinin bir mesajı; kullanıcı mesajı bir görsel bağlantısı taşıyabilir.
#[derive(Debug)]
pub struct Mesaj {
    pub role: Rol,
    pub content: String,
    pub resim: Option<String>,
}

impl Mesaj {
    pub open spec fn icerik(&self) -> Seq<char> {
        self.content@
    }
}

/// Kullanıcı mesajı.
pub fn kullanici(icerik: &str) -> (m: Mesaj)
    ensures
        m.role == Rol::Kullanici,
        m.content@ == icerik@,
        m.resim is None,
{
    Mesaj { role: Rol::Kullanici, content: icerik.to_owned(), resim: None }
}

/// Görselli kullanıcı mesajı.
pub fn kullanici_resimli(icerik: &str, url: &str) -> (m: Mesaj)
    ensures
        m.role == Rol::Kullanici,
        m.content@ == icerik@,
        m.resim matches Some(r) && r@ == url@,
{
    Mesaj { role: Rol::Kullanici, content: icerik.to_owned(), resim: Some(url.to_owned()) }
}

/// Botun kendi mesajı.
pub fn asistan(icerik: &str) -> (m: Mesaj)
    ensures
        m.role == Rol::Asistan,
        m.content@ == icerik@,
        m.resim is None,
{
    Mesaj { role: Rol::Asistan, content: icerik.to_owned(), resim: None }
}

// ---------- döküm ----------

/// Bir mesajın dökümdeki satırları: botunkilerin her satırına ad öneki konur.
pub open spec fn dokum_satirlari(m: Mesaj, bot_adi: Seq<char>) -> Seq<Seq<char>> {
    ayir(m.content@, '\n').map_values(
        |l: Seq<char>|
            if m.role == Rol::Asistan {
                bot_adi + ": "@ + l
            } else {
                l
            },
    )
}

/// Eleştirmenin/günlükçünün okuduğu düz döküm.
pub open spec fn dokum_spec(gecmis: Seq<Mesaj>, bot_adi: Seq<char>) -> Seq<char> {
    birlestir(gecmis.map_values(|m: Mesaj| dokum_satirlari(m, bot_adi)).flatten(), seq!['\n'])
}

/// Sohbeti düz dökümüne çevirir. Bot cevabı çok satırlı olabilir: önek her satıra konur,
/// yoksa alt satırlar gruptaki insanlara aitmiş gibi okunur.
pub fn dokum(gecmis: &[Mesaj], bot_adi: &str) -> (r: String)
    ensures
        r@ == dokum_spec(gecmis@, bot_adi@),
{
    let ghost hepsi = gecmis@.map_values(|m: Mesaj| dokum_satirlari(m, bot_adi@));
    let onek = {
        let mut o = karakterler(bot_adi);
        ekle(&mut o, &karakterler(": "));
        o
    };
    let mut s: Vec<char> = Vec::new();
    let ghost mut yapilan: Seq<Seq<char>> = seq![];
    let mut ilk = true;
    let mut i: usize = 0;
    while i < gecmis.len()
        invariant
            i <= gecmis@.len() == hepsi.len(),
            hepsi == gecmis@.map_values(|m: Mesaj| dokum_satirlari(m, bot_adi@)),
            onek@ == bot_adi@ + ": "@,
            yapilan == hepsi.take(i as int).flatten(),
            s@ == birlestir(yapilan, seq!['\n']),
            ilk == (yapilan.len() == 0),
        decreases gecmis@.len() - i,
    {
        let m = &gecmis[i];
        let v = karakterler(m.content.as_str());
        let ar = ayir_araliklari(&v, '\n');
        let ghost satirlar = dokum_satirlari(*m, bot_adi@);
        assert(satirlar == hepsi[i as int]);
        let ghost once = yapilan;
        let mut k: usize = 0;
        while k < ar.len()
            invariant
                k <= ar@.len() == satirlar.len(),
                satirlar == dokum_satirlari(*m, bot_adi@),
                onek@ == bot_adi@ + ": "@,
                v@ == m.content@,
                forall|t: int|
                    #![trigger ar@[t]]
                    0 <= t < ar@.len() ==> ar@[t].0 <= ar@[t].1 <= v@.len() && ayir(v@, '\n')[t]
                        == v@.subrange(ar@[t].0 as int, ar@[t].1 as int),
                yapilan == once + satirlar.take(k as int),
                s@ == birlestir(yapilan, seq!['\n']),
                ilk == (yapilan.len() == 0),
            decreases ar@.len() - k,
        {
            let (a, b) = ar[k];
            let mut satir: Vec<char> = Vec::new();
            if m.role == Rol::Asistan {
                ekle(&mut satir, &onek);
            }
            let parca = metin_yap(&v, a, b);
            ekle(&mut satir, &karakterler(parca.as_str()));
            assert(satir@ == satirlar[k as int]);
            proof {
                lemma_birlestir_adim(yapilan.push(satir@), seq!['\n'], yapilan.len() as int);
                assert(yapilan.push(satir@).take(yapilan.len() + 1 as int) =~= yapilan.push(satir@));
                assert(yapilan.push(satir@).take(yapilan.len() as int) =~= yapilan);
            }
            if !ilk {
                s.push('\n');
            }
            ilk = false;
            ekle(&mut s, &satir);
            proof {
                assert(satirlar.take(k + 1) =~= satirlar.take(k as int).push(satirlar[k as int]));
                yapilan = yapilan.push(satir@);
            }
            k += 1;
        }
        proof {
            assert(satirlar.take(k as int) =~= satirlar);
            assert(hepsi.take(i + 1) =~= hepsi.take(i as int).push(hepsi[i as int]));
            hepsi.take(i as int).lemma_flatten_push(hepsi[i as int]);
        }
        i += 1;
    }
    assert(hepsi.take(i as int) =~= hepsi);
    metne(&s)
}


// ---------- sohbet ve durum ----------

/// Bir kanaldaki açık sohbet.
#[derive(Debug)]
pub struct Sohbet {
    pub gecmis: Vec<Mesaj>,
    /// Botun bu sohbette verdiği cevap sayısı.
    pub sayac: u32,
    /// Sohbete gelen kullanıcı mesajı sayısı.
    pub gelen: u32,
    /// Hack şakasının kalan tur sayısı.
    pub hackli: u32,
    pub son_mesaj: Option<u64>,
    pub son_etiketlendi: bool,
    /// Cevap beklerken yazanlar: ad ve mesaj kimliği.
    pub son_gelenler: VecDeque<(String, u64)>,
    pub ruh_hali: String,
}

impl Default for Sohbet {
    fn default() -> (r: Self)
        ensures
            r.gecmis@.len() == 0,
            r.sayac == 0,
            r.gelen == 0,
            r.hackli == 0,
            r.son_mesaj is None,
            !r.son_etiketlendi,
            r.son_gelenler@.len() == 0,
            r.ruh_hali@.len() == 0,
    {
        Sohbet {
            gecmis: Vec::new(),
            sayac: 0,
            gelen: 0,
            hackli: 0,
            son_mesaj: None,
            son_etiketlendi: false,
            son_gelenler: VecDeque::new(),
            ruh_hali: String::new(),
        }
    }
}

/// Botun paylaşılan durumu (kanallar `u64` kimliğiyle, zamanlar saniye cinsinden).
pub struct Durum {
    pub bot_adi: String,
    pub profil: String,
    /// Ham bağlam penceresi: "ad: metin" satırları, en eskisi başta.
    pub hafiza: VecDeque<String>,
    /// Kanal başına son satırlar.
    pub kanal_gecmisi: HashMap<u64, VecDeque<String>>,
    pub sohbetler: HashMap<u64, Sohbet>,
    pub son_aktivite: HashMap<u64, u64>,
    /// Haber atılan kanalda yorumun beklendiği son an.
    pub haber_bekleyen: HashMap<u64, u64>,
    pub son_kanal: Option<u64>,
    /// Kanal başına son isteklilik değerlendirmesinin anı.
    pub son_degerlendirme: HashMap<u64, u64>,
    /// Uykudayken etiketlendiği mesajlar: kanal ve "ad: metin".
    pub bekleyen_etiketler: Vec<(u64, String)>,
    /// Botun son gönderdiği satırlar.
    pub kendi_mesajlarim: VecDeque<String>,
    /// Şu an cevap üretilen kanallar.
    pub mesgul: HashSet<u64>,
    pub favori_adi: Option<String>,
    /// Discord hesabının kullanıcı adı (botun kendi adından ayrı).
    pub kullanici_adi: String,
    pub huy: String,
    pub dizin: String,
    pub gundem: String,
    pub kendim: String,
    pub duzeltmeler: String,
    /// Küçük harfli ad ve kişinin kimliği (aynı ad için sonraki kayıt geçerlidir).
    pub ad_kimlikleri: Vec<(String, u64)>,
    /// Kimlik başına Discord kullanıcı adı.
    pub kullanici_adlari: HashMap<u64, String>,
}

impl Default for Durum {
    fn default() -> (r: Self)
        ensures
            r.bot_adi@.len() == 0,
            r.profil@.len() == 0,
            r.hafiza@.len() == 0,
            r.kanal_gecmisi@ == Map::<u64, VecDeque<String>>::empty(),
            r.sohbetler@ == Map::<u64, Sohbet>::empty(),
            r.son_aktivite@ == Map::<u64, u64>::empty(),
            r.haber_bekleyen@ == Map::<u64, u64>::empty(),
            r.son_kanal is None,
            r.son_degerlendirme@ == Map::<u64, u64>::empty(),
            r.bekleyen_etiketler@.len() == 0,
            r.kendi_mesajlarim@.len() == 0,
            r.mesgul@ == Set::<u64>::empty(),
            r.favori_adi is None,
            r.kullanici_adi@.len() == 0,
            r.huy@.len() == 0,
            r.dizin@.len() == 0,
            r.gundem@.len() == 0,
            r.kendim@.len() == 0,
            r.duzeltmeler@.len() == 0,
            ad_haritasi(r.ad_kimlikleri@) == Map::<Seq<char>, u64>::empty(),
            r.kullanici_adlari@ == Map::<u64, String>::empty(),
    {
        Durum {
            bot_adi: String::new(),
            profil: String::new(),
            hafiza: VecDeque::new(),
            kanal_gecmisi: HashMap::new(),
            sohbetler: HashMap::new(),
            son_aktivite: HashMap::new(),
            haber_bekleyen: HashMap::new(),
            son_kanal: None,
            son_degerlendirme: HashMap::new(),
            bekleyen_etiketler: Vec::new(),
            kendi_mesajlarim: VecDeque::new(),
            mesgul: HashSet::new(),
            favori_adi: None,
            kullanici_adi: String::new(),
            huy: String::new(),
            dizin: String::new(),
            gundem: String::new(),
            kendim: String::new(),
            duzeltmeler: String::new(),
            ad_kimlikleri: Vec::new(),
            kullanici_adlari: HashMap::new(),
        }
    }
}

/// İki durumda sohbet mekanizmasının dokunmadığı alanlar aynı.
pub open spec fn ek_alanlar_ayni(a: Durum, b: Durum) -> bool {
    &&& a.ad_kimlikleri@ == b.ad_kimlikleri@
    &&& a.kullanici_adlari@ == b.kullanici_adlari@
    &&& a.son_degerlendirme@ == b.son_degerlendirme@
    &&& a.bekleyen_etiketler@ == b.bekleyen_etiketler@
    &&& a.kendi_mesajlarim@ == b.kendi_mesajlarim@
    &&& a.mesgul@ == b.mesgul@
    &&& a.favori_adi == b.favori_adi
    &&& a.kullanici_adi@ == b.kullanici_adi@
    &&& a.huy@ == b.huy@
    &&& a.dizin@ == b.dizin@
    &&& a.gundem@ == b.gundem@
    &&& a.kendim@ == b.kendim@
    &&& a.duzeltmeler@ == b.duzeltmeler@
}

// ---------- adlar ----------

/// Ad listesinin haritası: aynı ad için sonraki kayıt geçerlidir.
pub open spec fn ad_haritasi(s: Seq<(String, u64)>) -> Map<Seq<char>, u64>
    decreases s.len(),
{
    if s.len() == 0 {
        Map::empty()
    } else {
        ad_haritasi(s.drop_last()).insert(s.last().0@, s.last().1)
    }
}

/// Adın listede geçtiği yer haritada da vardır; hiç geçmiyorsa yoktur.
pub proof fn lemma_ad_haritasi_anahtar(s: Seq<(String, u64)>, ad: Seq<char>)
    ensures
        ad_haritasi(s).dom().contains(ad) <==> exists|i: int| 0 <= i < s.len() && (#[trigger] s[i]).0@ == ad,
    decreases s.len(),
{
    if s.len() > 0 {
        lemma_ad_haritasi_anahtar(s.drop_last(), ad);
        if ad_haritasi(s.drop_last()).dom().contains(ad) {
            let i = choose|i: int| 0 <= i < s.drop_last().len() && (#[trigger] s.drop_last()[i]).0@ == ad;
            assert(s[i] == s.drop_last()[i]);
        }
        if exists|i: int| 0 <= i < s.len() && (#[trigger] s[i]).0@ == ad {
            let i = choose|i: int| 0 <= i < s.len() && (#[trigger] s[i]).0@ == ad;
            if i < s.len() - 1 {
                assert(s.drop_last()[i] == s[i]);
            }
        }
    }
}

/// Adın son geçtiği yerdeki değeri değiştirmek haritada o adı günceller.
proof fn lemma_ad_haritasi_guncelle(s: Seq<(String, u64)>, i: int, x: (String, u64))
    requires
        0 <= i < s.len(),
        s[i].0@ == x.0@,
        forall|j: int| i < j < s.len() ==> (#[trigger] s[j]).0@ != x.0@,
    ensures
        ad_haritasi(s.update(i, x)) == ad_haritasi(s).insert(x.0@, x.1),
    decreases s.len(),
{
    let t = s.update(i, x);
    if i == s.len() - 1 {
        assert(t.drop_last() =~= s.drop_last());
        assert(ad_haritasi(t) =~= ad_haritasi(s).insert(x.0@, x.1));
    } else {
        assert(t.drop_last() =~= s.drop_last().update(i, x));
        assert forall|j: int| i < j < s.drop_last().len() implies (#[trigger] s.drop_last()[j]).0@ != x.0@ by {
            assert(s.drop_last()[j] == s[j]);
        }
        lemma_ad_haritasi_guncelle(s.drop_last(), i, x);
        assert(s.last().0@ != x.0@);
        assert(ad_haritasi(t) =~= ad_haritasi(s).insert(x.0@, x.1));
    }
}

/// Adın son geçtiği yer (sondan aranır).
fn ad_yeri(adlar: &Vec<(String, u64)>, ad: &str) -> (r: Option<usize>)
    ensures
        match r {
            Some(i) => i < adlar@.len() && adlar@[i as int].0@ == ad@ && forall|j: int|
                i < j < adlar@.len() ==> (#[trigger] adlar@[j]).0@ != ad@,
            None => forall|j: int| 0 <= j < adlar@.len() ==> (#[trigger] adlar@[j]).0@ != ad@,
        },
{
    let a = karakterler(ad);
    let mut i = adlar.len();
    while i > 0
        invariant
            i <= adlar@.len(),
            a@ == ad@,
            forall|j: int| i <= j < adlar@.len() ==> (#[trigger] adlar@[j]).0@ != ad@,
        decreases i,
    {
        if ayni_dizi(&karakterler(adlar[i - 1].0.as_str()), &a) {
            return Some(i - 1);
        }
        i -= 1;
    }
    None
}

/// Adın son geçtiği yerdeki kimlik haritadaki kimliktir.
proof fn lemma_ad_haritasi_son(s: Seq<(String, u64)>, i: int)
    requires
        0 <= i < s.len(),
        forall|j: int| i < j < s.len() ==> (#[trigger] s[j]).0@ != s[i].0@,
    ensures
        ad_haritasi(s).dom().contains(s[i].0@),
        ad_haritasi(s)[s[i].0@] == s[i].1,
    decreases s.len(),
{
    if i < s.len() - 1 {
        assert forall|j: int| i < j < s.drop_last().len() implies (#[trigger] s.drop_last()[j]).0@
            != s.drop_last()[i].0@ by {
            assert(s.drop_last()[j] == s[j]);
        }
        lemma_ad_haritasi_son(s.drop_last(), i);
        assert(s.last().0@ != s[i].0@);
    }
}

/// Adın kimliği: kayıtlıysa haritadaki kimlik.
pub fn ad_kimligi(adlar: &Vec<(String, u64)>, ad: &str) -> (r: Option<u64>)
    ensures
        match r {
            Some(id) => ad_haritasi(adlar@).dom().contains(ad@) && ad_haritasi(adlar@)[ad@] == id,
            None => !ad_haritasi(adlar@).dom().contains(ad@),
        },
{
    proof {
        lemma_ad_haritasi_anahtar(adlar@, ad@);
    }
    match ad_yeri(adlar, ad) {
        Some(i) => {
            proof {
                lemma_ad_haritasi_son(adlar@, i as int);
            }
            Some(adlar[i].1)
        },
        None => None,
    }
}

/// Ad kaydedilir; ad varsa kimliği güncellenir.
pub fn ad_kaydet(adlar: &mut Vec<(String, u64)>, ad: &str, id: u64)
    ensures
        ad_haritasi(final(adlar)@) == ad_haritasi(old(adlar)@).insert(ad@, id),
{
    match ad_yeri(adlar, ad) {
        Some(i) => {
            let x = (ad.to_owned(), id);
            let ghost s0 = adlar@;
            adlar.set(i, x);
            proof {
                lemma_ad_haritasi_guncelle(s0, i as int, x);
            }
        },
        None => {
            let ghost s0 = adlar@;
            adlar.push((ad.to_owned(), id));
            assert(adlar@.drop_last() =~= s0);
        },
    }
}

/// Ad daha önce kaydedilmemişse kaydedilir; kaydedilmişse kimliğine dokunulmaz.
pub fn ad_yoksa_kaydet(adlar: &mut Vec<(String, u64)>, ad: &str, id: u64)
    ensures
        ad_haritasi(final(adlar)@) == if ad_haritasi(old(adlar)@).dom().contains(ad@) {
            ad_haritasi(old(adlar)@)
        } else {
            ad_haritasi(old(adlar)@).insert(ad@, id)
        },
{
    proof {
        lemma_ad_haritasi_anahtar(adlar@, ad@);
    }
    match ad_yeri(adlar, ad) {
        Some(_) => {},
        None => {
            let ghost s0 = adlar@;
            adlar.push((ad.to_owned(), id));
            assert(adlar@.drop_last() =~= s0);
        },
    }
}

/// Metinlerin karakter dizileri.
pub open spec fn metinler(q: Seq<String>) -> Seq<Seq<char>> {
    q.map_values(|s: String| s@)
}

/// Hafıza penceresinin satırları.
pub open spec fn hafiza_satirlari(d: Durum) -> Seq<Seq<char>> {
    metinler(d.hafiza@)
}

/// Kanalın geçmiş satırları (hiç yoksa boş).
pub open spec fn kanal_satirlari(d: Durum, kanal: u64) -> Seq<Seq<char>> {
    if d.kanal_gecmisi@.contains_key(kanal) {
        metinler(d.kanal_gecmisi@[kanal]@)
    } else {
        seq![]
    }
}

/// Son `n` eleman.
pub open spec fn son_n<T>(s: Seq<T>, n: nat) -> Seq<T> {
    if s.len() > n {
        s.skip(s.len() - n)
    } else {
        s
    }
}

/// Hafızaya "ad: metin" satırı eklenir; pencere aşılırsa en eski satır düşer.
pub fn hatirla(d: &mut Durum, isim: &str, metin: &str)
    ensures
        hafiza_satirlari(*final(d)) == {
            let h = hafiza_satirlari(*old(d)).push(isim@ + ": "@ + metin@);
            if h.len() > HAFIZA_BOYU {
                h.drop_first()
            } else {
                h
            }
        },
        hafiza_satirlari(*old(d)).len() <= HAFIZA_BOYU ==> hafiza_satirlari(*final(d)).len()
            <= HAFIZA_BOYU,
        final(d).bot_adi == old(d).bot_adi,
        final(d).profil == old(d).profil,
        final(d).kanal_gecmisi@ == old(d).kanal_gecmisi@,
        final(d).sohbetler@ == old(d).sohbetler@,
        final(d).son_aktivite@ == old(d).son_aktivite@,
        final(d).haber_bekleyen@ == old(d).haber_bekleyen@,
        final(d).son_kanal == old(d).son_kanal,
        ek_alanlar_ayni(*final(d), *old(d)),
{
    let mut v = karakterler(isim);
    ekle(&mut v, &karakterler(": "));
    ekle(&mut v, &karakterler(metin));
    let satir = metne(&v);
    let ghost once = d.hafiza@;
    d.hafiza.push_back(satir);
    assert(metinler(d.hafiza@) =~= metinler(once).push(isim@ + ": "@ + metin@));
    if d.hafiza.len() > HAFIZA_BOYU {
        let ghost ara = d.hafiza@;
        let _ = d.hafiza.pop_front();
        assert(metinler(d.hafiza@) =~= metinler(ara).drop_first());
    }
}

/// Kuyruğun `bas`tan sonraki satırları, satır sonlarıyla birleşik.
pub fn satirlari_birlestir(q: &VecDeque<String>, bas: usize) -> (r: String)
    requires
        bas <= q@.len(),
    ensures
        r@ == birlestir(metinler(q@).skip(bas as int), seq!['\n']),
{
    let ghost xs = metinler(q@).skip(bas as int);
    let n = q.len();
    let mut s: Vec<char> = Vec::new();
    let mut k: usize = 0;
    assert(xs.len() == n - bas);
    while k < n - bas
        invariant
            n == q@.len(),
            xs.len() == n - bas,
            k <= n - bas,
            bas <= n,
            xs == metinler(q@).skip(bas as int),
            s@ == birlestir(xs.take(k as int), seq!['\n']),
        decreases n - bas - k,
    {
        proof {
            lemma_birlestir_adim(xs, seq!['\n'], k as int);
        }
        if k > 0 {
            s.push('\n');
        }
        ekle(&mut s, &karakterler(q[bas + k].as_str()));
        k += 1;
    }
    assert(xs.take(k as int) =~= xs);
    metne(&s)
}

/// Hafızanın son `n` satırı, satır sonlarıyla birleşik.
pub fn son_mesajlar(d: &Durum, n: usize) -> (r: String)
    ensures
        r@ == birlestir(son_n(hafiza_satirlari(*d), n as nat), seq!['\n']),
{
    let uzunluk = d.hafiza.len();
    let atla = if uzunluk > n {
        uzunluk - n
    } else {
        0
    };
    assert(metinler(d.hafiza@).skip(0) =~= metinler(d.hafiza@));
    satirlari_birlestir(&d.hafiza, atla)
}

/// Kanal geçmişine satırlar eklenir, sınırı aşan en eskiler düşer; dosyaya yazılacak
/// içerik (bütün geçmiş, satır satır) döner. Eklenecek satır yoksa hiçbir şey değişmez.
pub fn kanal_not_coklu(d: &mut Durum, kanal: u64, satirlar: Vec<String>) -> (r: Option<String>)
    ensures
        satirlar@.len() == 0 ==> r is None && final(d).kanal_gecmisi@ == old(d).kanal_gecmisi@,
        satirlar@.len() > 0 ==> {
            let yeni = son_n(kanal_satirlari(*old(d), kanal) + metinler(satirlar@), KANAL_GECMIS as nat);
            &&& final(d).kanal_gecmisi@.dom() == old(d).kanal_gecmisi@.dom().insert(kanal)
            &&& forall|k: u64| k != kanal && #[trigger] old(d).kanal_gecmisi@.contains_key(k)
                ==> final(d).kanal_gecmisi@[k] == old(d).kanal_gecmisi@[k]
            &&& kanal_satirlari(*final(d), kanal) == yeni
            &&& r matches Some(icerik) && icerik@ == birlestir(yeni, seq!['\n'])
        },
        final(d).bot_adi == old(d).bot_adi,
        final(d).profil == old(d).profil,
        final(d).hafiza@ == old(d).hafiza@,
        final(d).sohbetler@ == old(d).sohbetler@,
        final(d).son_aktivite@ == old(d).son_aktivite@,
        final(d).haber_bekleyen@ == old(d).haber_bekleyen@,
        final(d).son_kanal == old(d).son_kanal,
        ek_alanlar_ayni(*final(d), *old(d)),
{
    if satirlar.len() == 0 {
        return None;
    }
    let mut g: VecDeque<String> = match d.kanal_gecmisi.remove(&kanal) {
        Some(g) => g,
        None => VecDeque::new(),
    };
    let ghost once = metinler(g@);
    assert(once == kanal_satirlari(*old(d), kanal));
    let mut i: usize = 0;
    while i < satirlar.len()
        invariant
            i <= satirlar@.len(),
            metinler(g@) == once + metinler(satirlar@).take(i as int),
        decreases satirlar@.len() - i,
    {
        let ghost o = g@;
        g.push_back(satirlar[i].clone());
        assert(metinler(g@) =~= metinler(o).push(satirlar@[i as int]@));
        assert(metinler(satirlar@).take(i + 1) =~= metinler(satirlar@).take(i as int).push(
            satirlar@[i as int]@,
        ));
        i += 1;
    }
    assert(metinler(satirlar@).take(i as int) =~= metinler(satirlar@));
    let ghost tam = metinler(g@);
    assert(tam.skip(0) =~= tam);
    while g.len() > KANAL_GECMIS
        invariant
            tam.len() >= metinler(g@).len(),
            metinler(g@).len() == tam.len() || metinler(g@).len() >= KANAL_GECMIS,
            metinler(g@) == tam.skip(tam.len() - metinler(g@).len()),
        decreases g@.len(),
    {
        let ghost o = g@;
        let _ = g.pop_front();
        assert(metinler(g@) =~= metinler(o).drop_first());
        assert(tam.skip(tam.len() - metinler(g@).len()) =~= tam.skip(tam.len() - metinler(o).len()).drop_first());
    }
    assert(metinler(g@) =~= son_n(tam, KANAL_GECMIS as nat));
    assert(metinler(g@).skip(0) =~= metinler(g@));
    let icerik = satirlari_birlestir(&g, 0);
    d.kanal_gecmisi.insert(kanal, g);
    assert(d.kanal_gecmisi@.dom() =~= old(d).kanal_gecmisi@.dom().insert(kanal));
    Some(icerik)
}

/// Tek satırlık kanal notu.
pub fn kanal_not(d: &mut Durum, kanal: u64, satir: String) -> (r: String)
    ensures
        kanal_satirlari(*final(d), kanal) == son_n(
            kanal_satirlari(*old(d), kanal).push(satir@),
            KANAL_GECMIS as nat,
        ),
        r@ == birlestir(kanal_satirlari(*final(d), kanal), seq!['\n']),
        final(d).hafiza@ == old(d).hafiza@,
        final(d).sohbetler@ == old(d).sohbetler@,
        final(d).bot_adi == old(d).bot_adi,
        final(d).profil == old(d).profil,
        final(d).son_aktivite@ == old(d).son_aktivite@,
        final(d).haber_bekleyen@ == old(d).haber_bekleyen@,
        final(d).son_kanal == old(d).son_kanal,
        ek_alanlar_ayni(*final(d), *old(d)),
{
    let ghost s = satir@;
    let v = vec![satir];
    assert(metinler(v@) =~= seq![s]);
    assert(kanal_satirlari(*old(d), kanal) + seq![s] =~= kanal_satirlari(*old(d), kanal).push(s));
    match kanal_not_coklu(d, kanal, v) {
        Some(icerik) => icerik,
        None => String::new(),
    }
}


// ---------- botun son satırları ----------

/// Kanal geçmişinin sonundan, önekli (botun) satırların öneksiz hâlleri, en yenisi başta,
/// en çok `n` tane; `tepkisiz` ise tepki satırları sayılmaz.
pub open spec fn son_bot_satirlari(g: Seq<Seq<char>>, onek: Seq<char>, n: nat, tepkisiz: bool) -> Seq<Seq<char>>
    decreases g.len(),
{
    if g.len() == 0 || n == 0 {
        seq![]
    } else {
        let l = g.last();
        if basla(l, onek) && (!tepkisiz || tepki_govdesi_spec(l.skip(onek.len() as int)) is None) {
            seq![l.skip(onek.len() as int)] + son_bot_satirlari(g.drop_last(), onek, (n - 1) as nat, tepkisiz)
        } else {
            son_bot_satirlari(g.drop_last(), onek, n, tepkisiz)
        }
    }
}

/// Satır (sondaki boşluklar atılınca) soru işaretiyle bitiyor mu.
pub open spec fn soruyla_biter(l: Seq<char>) -> bool {
    sag_kirp(l).len() > 0 && sag_kirp(l).last() == '?'
}

/// Son dört bot satırından (tepki satırları sayılmaz) en az ikisi soruyla bittiyse bot üst
/// üste soru sormuş demektir.
pub open spec fn soru_fazla_spec(g: Seq<Seq<char>>, bot_adi: Seq<char>) -> bool {
    son_bot_satirlari(g, bot_adi + ": "@, 4, true).filter(|l: Seq<char>| soruyla_biter(l)).len() >= 2
}

/// Botun son beş satırından biri (kırpılmış, küçük harfli) aynı mı.
pub open spec fn tekrar_spec(g: Seq<Seq<char>>, bot_adi: Seq<char>, cevap: Seq<char>) -> bool {
    let son = son_bot_satirlari(g, bot_adi + ": "@, 5, false);
    exists|i: int| 0 <= i < son.len() && kucuk_harf_metni(kirp(#[trigger] son[i])) == kucuk_harf_metni(kirp(cevap))
}

/// Bot satırlarını sondan tarar; her birinde `f` ile bir sayım yapılır.
fn bot_onek(d: &Durum) -> (r: Vec<char>)
    ensures
        r@ == d.bot_adi@ + ": "@,
{
    let mut o = karakterler(d.bot_adi.as_str());
    ekle(&mut o, &karakterler(": "));
    o
}

/// Satırın önekten sonrası.
fn onek_sonrasi(l: &String, onek: &Vec<char>) -> (r: Option<String>)
    ensures
        basla(l@, onek@) ==> (r matches Some(x) && x@ == l@.skip(onek@.len() as int)),
        !basla(l@, onek@) ==> r is None,
{
    let v = karakterler(l.as_str());
    assert(v@.skip(0) =~= v@);
    if basliyor(&v, 0, onek) {
        let x = metin_yap(&v, onek.len(), v.len());
        assert(v@.subrange(onek@.len() as int, v@.len() as int) =~= v@.skip(onek@.len() as int));
        Some(x)
    } else {
        None
    }
}

fn soruyla_bitiyor(s: &String) -> (r: bool)
    ensures
        r == soruyla_biter(s@),
{
    let v = karakterler(s.as_str());
    let n = v.len();
    let b = sag_sinir(&v, 0, n);
    assert(v@.subrange(0, n as int) =~= v@);
    b > 0 && v[b - 1] == '?'
}

/// Bot son turlarda üst üste soru sormuş mu.
pub fn soru_fazla_mi(d: &Durum, kanal: u64) -> (r: bool)
    ensures
        r == soru_fazla_spec(kanal_satirlari(*d, kanal), d.bot_adi@),
{
    let onek = bot_onek(d);
    let ghost g = kanal_satirlari(*d, kanal);
    let ghost pred = |l: Seq<char>| soruyla_biter(l);
    match d.kanal_gecmisi.get(&kanal) {
        None => {
            assert(son_bot_satirlari(g, onek@, 4, true) =~= Seq::<Seq<char>>::empty());
            reveal(Seq::filter);
            false
        },
        Some(q) => {
            let mut j = q.len();
            let mut alinan: usize = 0;
            let mut soru: usize = 0;
            let ghost mut toplanan: Seq<Seq<char>> = seq![];
            assert(g.take(j as int) =~= g);
            while j > 0 && alinan < 4
                invariant
                    j <= q@.len(),
                    g == metinler(q@),
                    onek@ == d.bot_adi@ + ": "@,
                    alinan == toplanan.len() <= 4,
                    soru == toplanan.filter(pred).len(),
                    pred == (|l: Seq<char>| soruyla_biter(l)),
                    son_bot_satirlari(g, onek@, 4, true) == toplanan + son_bot_satirlari(
                        g.take(j as int),
                        onek@,
                        (4 - alinan) as nat,
                        true,
                    ),
                decreases j,
            {
                let l = &q[j - 1];
                proof {
                    assert(g.take(j as int).drop_last() =~= g.take(j - 1));
                    assert(g.take(j as int).last() == l@);
                }
                match onek_sonrasi(l, &onek) {
                    Some(x) => {
                        if tepki_govdesi(x.as_str()).is_none() {
                            let sonu_soru = soruyla_bitiyor(&x);
                            proof {
                                reveal(Seq::filter);
                                assert(toplanan.push(x@).drop_last() =~= toplanan);
                                assert(toplanan + (seq![x@] + son_bot_satirlari(g.take(j - 1), onek@, (4 - alinan - 1) as nat, true))
                                    =~= toplanan.push(x@) + son_bot_satirlari(g.take(j - 1), onek@, (4 - alinan - 1) as nat, true));
                                toplanan = toplanan.push(x@);
                            }
                            if sonu_soru {
                                soru += 1;
                            }
                            alinan += 1;
                        }
                    },
                    None => {},
                }
                j -= 1;
            }
            proof {
                if j == 0 {
                    assert(g.take(0) =~= Seq::<Seq<char>>::empty());
                }
                assert(toplanan + Seq::<Seq<char>>::empty() =~= toplanan);
            }
            soru >= 2
        },
    }
}


fn kirpik_kucuk(s: &str) -> (r: Vec<char>)
    ensures
        r@ == kucuk_harf_metni(kirp(s@)),
{
    let v = karakterler(s);
    let n = v.len();
    assert(v@.subrange(0, n as int) =~= v@);
    let (a, b) = kirp_sinir(&v, 0, n);
    let k = metin_yap(&v, a, b);
    let kk = kucuk_harfe_cevir(k.as_str());
    karakterler(kk.as_str())
}

/// Cevap botun bu kanaldaki son beş satırından biriyle aynı mı (kırpılmış, küçük harfle).
pub fn tekrar_mi(d: &Durum, kanal: u64, cevap: &str) -> (r: bool)
    ensures
        r == tekrar_spec(kanal_satirlari(*d, kanal), d.bot_adi@, cevap@),
{
    let onek = bot_onek(d);
    let hedef = kirpik_kucuk(cevap);
    let ghost g = kanal_satirlari(*d, kanal);
    match d.kanal_gecmisi.get(&kanal) {
        None => {
            assert(son_bot_satirlari(g, onek@, 5, false) =~= Seq::<Seq<char>>::empty());
            false
        },
        Some(q) => {
            let mut j = q.len();
            let mut alinan: usize = 0;
            let ghost mut toplanan: Seq<Seq<char>> = seq![];
            assert(g.take(j as int) =~= g);
            while j > 0 && alinan < 5
                invariant
                    j <= q@.len(),
                    g == metinler(q@),
                    onek@ == d.bot_adi@ + ": "@,
                    hedef@ == kucuk_harf_metni(kirp(cevap@)),
                    g == kanal_satirlari(*d, kanal),
                    alinan == toplanan.len() <= 5,
                    forall|i: int|
                        0 <= i < toplanan.len() ==> kucuk_harf_metni(kirp(#[trigger] toplanan[i]))
                            != hedef@,
                    son_bot_satirlari(g, onek@, 5, false) == toplanan + son_bot_satirlari(
                        g.take(j as int),
                        onek@,
                        (5 - alinan) as nat,
                        false,
                    ),
                decreases j,
            {
                let l = &q[j - 1];
                proof {
                    assert(g.take(j as int).drop_last() =~= g.take(j - 1));
                    assert(g.take(j as int).last() == l@);
                }
                match onek_sonrasi(l, &onek) {
                    Some(x) => {
                        let xk = kirpik_kucuk(x.as_str());
                        proof {
                            assert(toplanan + (seq![x@] + son_bot_satirlari(g.take(j - 1), onek@, (5 - alinan - 1) as nat, false))
                                =~= toplanan.push(x@) + son_bot_satirlari(g.take(j - 1), onek@, (5 - alinan - 1) as nat, false));
                        }
                        if ayni_dizi(&xk, &hedef) {
                            proof {
                                let son = son_bot_satirlari(g, onek@, 5, false);
                                assert(son_bot_satirlari(g.take(j as int), onek@, (5 - alinan) as nat, false)
                                    == seq![x@] + son_bot_satirlari(g.take(j - 1), onek@, (5 - alinan - 1) as nat, false));
                                assert(son[toplanan.len() as int] == x@);
                                assert(kucuk_harf_metni(kirp(son[toplanan.len() as int])) == kucuk_harf_metni(kirp(cevap@)));
                                assert(onek@ == d.bot_adi@ + ": "@);
                                let son2 = son_bot_satirlari(g, d.bot_adi@ + ": "@, 5, false);
                                assert(son2 == son);
                                assert(0 <= toplanan.len() < son2.len());
                                assert(tekrar_spec(g, d.bot_adi@, cevap@));
                            }
                            return true;
                        }
                        proof {
                            toplanan = toplanan.push(x@);
                        }
                        alinan += 1;
                    },
                    None => {},
                }
                j -= 1;
            }
            proof {
                if j == 0 {
                    assert(g.take(0) =~= Seq::<Seq<char>>::empty());
                }
                assert(son_bot_satirlari(g, onek@, 5, false) =~= toplanan);
            }
            false
        },
    }
}

/// Cevap üretilmeye başladığından beri sohbete yeni kullanıcı mesajı geldi mi.
pub fn yeni_mesaj_var(d: &Durum, kanal: u64, uretilen_gelen: u32) -> (r: bool)
    ensures
        r == (d.sohbetler@.contains_key(kanal) && d.sohbetler@[kanal].gelen > uretilen_gelen),
{
    match d.sohbetler.get(&kanal) {
        Some(s) => s.gelen > uretilen_gelen,
        None => false,
    }
}

/// Sohbeti kapatır: kanalın haber yorumu beklentisi de silinir; kapanan sohbet döner.
pub fn sohbet_bitir(d: &mut Durum, kanal: u64) -> (r: Option<Sohbet>)
    ensures
        final(d).sohbetler@ == old(d).sohbetler@.remove(kanal),
        final(d).haber_bekleyen@ == old(d).haber_bekleyen@.remove(kanal),
        match r {
            Some(s) => old(d).sohbetler@.contains_key(kanal) && s == old(d).sohbetler@[kanal],
            None => !old(d).sohbetler@.contains_key(kanal),
        },
        final(d).bot_adi == old(d).bot_adi,
        final(d).hafiza@ == old(d).hafiza@,
        final(d).kanal_gecmisi@ == old(d).kanal_gecmisi@,
        final(d).son_aktivite@ == old(d).son_aktivite@,
        final(d).son_kanal == old(d).son_kanal,
        ek_alanlar_ayni(*final(d), *old(d)),
{
    let _ = d.haber_bekleyen.remove(&kanal);
    d.sohbetler.remove(&kanal)
}

/// Kapatılan sohbete artık yeni mesaj sayılmaz.
pub proof fn bitmis_sohbette_yeni_mesaj_yok(once: Durum, sonra: Durum, kanal: u64, uretilen_gelen: u32)
    requires
        sonra.sohbetler@ == once.sohbetler@.remove(kanal),
    ensures
        !(sonra.sohbetler@.contains_key(kanal) && sonra.sohbetler@[kanal].gelen > uretilen_gelen),
{
}

/// Kanal boş bir sohbet açmaya uygunsa (son kanal biliniyor, orada açık sohbet yok, grup
/// profili var) kanal ve hafızanın son 40 satırı.
pub fn bos_kanal(d: &Durum) -> (r: Option<(u64, String)>)
    ensures
        match r {
            Some((k, s)) => d.son_kanal == Some(k) && !d.sohbetler@.contains_key(k)
                && d.profil@.len() > 0 && s@ == birlestir(son_n(hafiza_satirlari(*d), 40), seq!['\n']),
            None => d.son_kanal is None || d.sohbetler@.contains_key(d.son_kanal->0)
                || d.profil@.len() == 0,
        },
{
    let k = match d.son_kanal {
        Some(k) => k,
        None => return None,
    };
    if d.sohbetler.contains_key(&k) || d.profil.as_str().is_empty() {
        return None;
    }
    Some((k, son_mesajlar(d, 40)))
}


// ---------- sohbet açma ----------

/// Mesajların rol ve içerikleri.
pub open spec fn gecmis_modeli(v: Seq<Mesaj>) -> Seq<(Rol, Seq<char>)> {
    v.map_values(|m: Mesaj| (m.role, m.content@))
}

/// Kanalın son satırlarından tohum: botun önekli satırları onun mesajı olur.
pub open spec fn tohum(g: Seq<Seq<char>>, onek: Seq<char>) -> Seq<(Rol, Seq<char>)> {
    son_n(g, SOHBET_TOHUM as nat).map_values(
        |l: Seq<char>|
            if basla(l, onek) {
                (Rol::Asistan, l.skip(onek.len() as int))
            } else {
                (Rol::Kullanici, l)
            },
    )
}

/// Sondaki bot mesajları bloğunun başladığı konum.
pub open spec fn asistan_blogu_basi(g: Seq<(Rol, Seq<char>)>) -> nat
    decreases g.len(),
{
    if g.len() > 0 && g.last().0 == Rol::Asistan {
        asistan_blogu_basi(g.drop_last())
    } else {
        g.len()
    }
}

proof fn lemma_asistan_blogu_basi(g: Seq<(Rol, Seq<char>)>)
    ensures
        asistan_blogu_basi(g) <= g.len(),
        forall|t: int| asistan_blogu_basi(g) <= t < g.len() ==> (#[trigger] g[t]).0 == Rol::Asistan,
    decreases g.len(),
{
    if g.len() > 0 && g.last().0 == Rol::Asistan {
        lemma_asistan_blogu_basi(g.drop_last());
        assert forall|t: int| asistan_blogu_basi(g) <= t < g.len() implies (#[trigger] g[t]).0 == Rol::Asistan by {
            if t < g.len() - 1 {
                assert(g.drop_last()[t] == g[t]);
            }
        }
    }
}

/// Açılışın kırpılmış satırları.
pub open spec fn acilis_parcalari(a: Seq<char>) -> Seq<Seq<char>> {
    ayir(a, '\n').map_values(|p: Seq<char>| kirp(p))
}

/// Açılış zaten satır satır gönderilip kanal geçmişine düştü: tohumun sonundaki bot
/// bloğunda o satırlar temizlenir, açılış tek bot mesajı olarak eklenir.
pub open spec fn acilisi_ekle(g: Seq<(Rol, Seq<char>)>, a: Seq<char>) -> Seq<(Rol, Seq<char>)> {
    let j = asistan_blogu_basi(g) as int;
    g.take(j) + g.skip(j).filter(|m: (Rol, Seq<char>)| !acilis_parcalari(a).contains(kirp(m.1)))
        + seq![(Rol::Asistan, a)]
}

/// Yeni açılan sohbetin geçmişi.
pub open spec fn acilan_gecmis(g: Seq<Seq<char>>, bot_adi: Seq<char>, acilis: Option<Seq<char>>) -> Seq<(Rol, Seq<char>)> {
    let t = tohum(g, bot_adi + ": "@);
    match acilis {
        Some(a) => acilisi_ekle(t, a),
        None => t,
    }
}

fn parca_iceriyor(ps: &Vec<Vec<char>>, x: &Vec<char>) -> (r: bool)
    ensures
        r == ps@.map_values(|p: Vec<char>| p@).contains(x@),
{
    let ghost m = ps@.map_values(|p: Vec<char>| p@);
    let mut i: usize = 0;
    while i < ps.len()
        invariant
            i <= ps@.len(),
            m == ps@.map_values(|p: Vec<char>| p@),
            forall|t: int| 0 <= t < i ==> m[t] != x@,
        decreases ps@.len() - i,
    {
        if ayni_dizi(&ps[i], x) {
            assert(m[i as int] == x@);
            return true;
        }
        i += 1;
    }
    proof {
        if m.contains(x@) {
            let t = choose|t: int| 0 <= t < m.len() && m[t] == x@;
            assert(m[t] != x@);
        }
    }
    false
}

fn kirpik(s: &str) -> (r: Vec<char>)
    ensures
        r@ == kirp(s@),
{
    let v = karakterler(s);
    let n = v.len();
    assert(v@.subrange(0, n as int) =~= v@);
    let (a, b) = kirp_sinir(&v, 0, n);
    kopya(&v, a, b)
}

/// Kanalın son satırlarıyla sohbet açar (kanalda açık sohbet varsa ona dokunmaz); kanalın
/// son etkinlik anı `simdi` olur.
pub fn sohbet_baslat(d: &mut Durum, kanal: u64, acilis: Option<String>, simdi: u64)
    ensures
        old(d).sohbetler@.contains_key(kanal) ==> final(d).sohbetler@ == old(d).sohbetler@,
        !old(d).sohbetler@.contains_key(kanal) ==> {
            let s = final(d).sohbetler@[kanal];
            &&& final(d).sohbetler@ == old(d).sohbetler@.insert(kanal, s)
            &&& gecmis_modeli(s.gecmis@) == acilan_gecmis(
                kanal_satirlari(*old(d), kanal),
                old(d).bot_adi@,
                match acilis {
                    Some(a) => Some(a@),
                    None => None,
                },
            )
            &&& forall|t: int| 0 <= t < s.gecmis@.len() ==> (#[trigger] s.gecmis@[t]).resim is None
            &&& s.sayac == (if acilis is Some {
                1u32
            } else {
                0u32
            })
            &&& s.gelen == 0 && s.hackli == 0 && s.son_mesaj is None && !s.son_etiketlendi
            &&& s.son_gelenler@.len() == 0 && s.ruh_hali@.len() == 0
        },
        final(d).son_aktivite@ == old(d).son_aktivite@.insert(kanal, simdi),
        final(d).bot_adi == old(d).bot_adi,
        final(d).profil == old(d).profil,
        final(d).hafiza@ == old(d).hafiza@,
        final(d).kanal_gecmisi@ == old(d).kanal_gecmisi@,
        final(d).haber_bekleyen@ == old(d).haber_bekleyen@,
        final(d).son_kanal == old(d).son_kanal,
        ek_alanlar_ayni(*final(d), *old(d)),
{
    d.son_aktivite.insert(kanal, simdi);
    if d.sohbetler.contains_key(&kanal) {
        return;
    }
    let onek = bot_onek(d);
    let ghost g = kanal_satirlari(*d, kanal);
    let ghost t = tohum(g, onek@);
    // tohum
    let mut ts: Vec<(Rol, String)> = Vec::new();
    match d.kanal_gecmisi.get(&kanal) {
        None => {
            assert(t =~= Seq::<(Rol, Seq<char>)>::empty());
        },
        Some(q) => {
            let n = q.len();
            let atla = if n > SOHBET_TOHUM {
                n - SOHBET_TOHUM
            } else {
                0
            };
            let ghost son = son_n(g, SOHBET_TOHUM as nat);
            assert(son =~= g.skip(atla as int));
            assert(t.len() == n - atla);
            let mut i = atla;
            while i < n
                invariant
                    atla <= i <= n == q@.len(),
                    g == metinler(q@),
                    son == g.skip(atla as int),
                    g.len() == n,
                    t == tohum(g, onek@),
                    t.len() == n - atla,
                    ts@.map_values(|p: (Rol, String)| (p.0, p.1@)) == t.take(i - atla),
                decreases n - i,
            {
                let l = &q[i];
                let ghost once = ts@.map_values(|p: (Rol, String)| (p.0, p.1@));
                assert(g[i as int] == l@);
                assert(son[i - atla] == l@);
                assert(t.take(i + 1 - atla) =~= t.take(i - atla).push(t[i - atla]));
                match onek_sonrasi(l, &onek) {
                    Some(x) => ts.push((Rol::Asistan, x)),
                    None => ts.push((Rol::Kullanici, l.clone())),
                }
                assert(ts@.map_values(|p: (Rol, String)| (p.0, p.1@)) =~= t.take(i + 1 - atla));
                i += 1;
            }
            assert(t.take(n - atla) =~= t);
        },
    }
    let ghost tm = ts@.map_values(|p: (Rol, String)| (p.0, p.1@));
    assert(tm == t);
    let mut gecmis: Vec<Mesaj> = Vec::new();
    let mut sayac: u32 = 0;
    match acilis {
        None => {
            let mut i: usize = 0;
            while i < ts.len()
                invariant
                    i <= ts@.len(),
                    tm == ts@.map_values(|p: (Rol, String)| (p.0, p.1@)),
                    gecmis_modeli(gecmis@) == tm.take(i as int),
                    forall|k: int| 0 <= k < gecmis@.len() ==> (#[trigger] gecmis@[k]).resim is None,
                decreases ts@.len() - i,
            {
                let m = if ts[i].0 == Rol::Asistan {
                    asistan(ts[i].1.as_str())
                } else {
                    kullanici(ts[i].1.as_str())
                };
                assert(tm[i as int] == (m.role, m.content@));
                assert(tm.take(i + 1) =~= tm.take(i as int).push(tm[i as int]));
                gecmis.push(m);
                assert(gecmis_modeli(gecmis@) =~= tm.take(i + 1));
                i += 1;
            }
            assert(tm.take(i as int) =~= tm);
        },
        Some(a) => {
            // açılışın kırpılmış satırları
            let av = karakterler(a.as_str());
            let ar = ayir_araliklari(&av, '\n');
            let ghost ap = acilis_parcalari(a@);
            let mut ps: Vec<Vec<char>> = Vec::new();
            let mut k: usize = 0;
            while k < ar.len()
                invariant
                    k <= ar@.len() == ayir(av@, '\n').len(),
                    av@ == a@,
                    ap == acilis_parcalari(a@),
                    forall|x: int|
                        #![trigger ar@[x]]
                        0 <= x < ar@.len() ==> ar@[x].0 <= ar@[x].1 <= av@.len() && ayir(av@, '\n')[x]
                            == av@.subrange(ar@[x].0 as int, ar@[x].1 as int),
                    ps@.map_values(|p: Vec<char>| p@) == ap.take(k as int),
                decreases ar@.len() - k,
            {
                let (x, y) = ar[k];
                let (b, e) = kirp_sinir(&av, x, y);
                assert(ap[k as int] == av@.subrange(b as int, e as int));
                assert(ap.take(k + 1) =~= ap.take(k as int).push(ap[k as int]));
                ps.push(kopya(&av, b, e));
                assert(ps@.map_values(|p: Vec<char>| p@) =~= ap.take(k + 1));
                k += 1;
            }
            assert(ap.take(k as int) =~= ap);
            // sondaki bot bloğunun başı
            let mut j = ts.len();
            proof {
                lemma_asistan_blogu_basi(tm);
                assert(tm.take(j as int) =~= tm);
            }
            while j > 0 && ts[j - 1].0 == Rol::Asistan
                invariant
                    j <= ts@.len(),
                    tm == ts@.map_values(|p: (Rol, String)| (p.0, p.1@)),
                    asistan_blogu_basi(tm) == asistan_blogu_basi(tm.take(j as int)),
                decreases j,
            {
                assert(tm.take(j as int).drop_last() =~= tm.take(j - 1));
                j -= 1;
            }
            assert(asistan_blogu_basi(tm.take(j as int)) == j);
            let ghost pred = |m: (Rol, Seq<char>)| !acilis_parcalari(a@).contains(kirp(m.1));
            let mut i: usize = 0;
            while i < ts.len()
                invariant
                    i <= ts@.len(),
                    j <= ts@.len(),
                    j == asistan_blogu_basi(tm),
                    tm == ts@.map_values(|p: (Rol, String)| (p.0, p.1@)),
                    ps@.map_values(|p: Vec<char>| p@) == acilis_parcalari(a@),
                    pred == (|m: (Rol, Seq<char>)| !acilis_parcalari(a@).contains(kirp(m.1))),
                    i <= j ==> gecmis_modeli(gecmis@) == tm.take(i as int),
                    i > j ==> gecmis_modeli(gecmis@) == tm.take(j as int) + tm.subrange(
                        j as int,
                        i as int,
                    ).filter(pred),
                    forall|k: int| 0 <= k < gecmis@.len() ==> (#[trigger] gecmis@[k]).resim is None,
                decreases ts@.len() - i,
            {
                let ghost once = gecmis_modeli(gecmis@);
                if i < j {
                    let m = if ts[i].0 == Rol::Asistan {
                        asistan(ts[i].1.as_str())
                    } else {
                        kullanici(ts[i].1.as_str())
                    };
                    assert(tm[i as int] == (m.role, m.content@));
                    assert(tm.take(i + 1) =~= tm.take(i as int).push(tm[i as int]));
                    gecmis.push(m);
                    assert(gecmis_modeli(gecmis@) =~= tm.take(i + 1));
                    proof {
                        if i + 1 == j {
                            reveal(Seq::filter);
                            assert(tm.subrange(j as int, j as int) =~= Seq::<(Rol, Seq<char>)>::empty());
                        }
                    }
                } else {
                    let kv = kirpik(ts[i].1.as_str());
                    let var = parca_iceriyor(&ps, &kv);
                    let ghost alt = tm.subrange(j as int, i as int);
                    proof {
                        reveal(Seq::filter);
                        assert(tm.subrange(j as int, i + 1) =~= alt.push(tm[i as int]));
                        alt.lemma_filter_push(tm[i as int], pred);
                        assert(tm[i as int].1 == ts@[i as int].1@);
                        assert(pred(tm[i as int]) == !var);
                        if i == j {
                            assert(alt =~= Seq::<(Rol, Seq<char>)>::empty());
                            assert(alt.filter(pred) =~= Seq::<(Rol, Seq<char>)>::empty());
                            assert(tm.take(j as int) + alt.filter(pred) =~= tm.take(j as int));
                        }
                        assert(once == tm.take(j as int) + alt.filter(pred));
                    }
                    if !var {
                        gecmis.push(asistan(ts[i].1.as_str()));
                        proof {
                            lemma_asistan_blogu_basi(tm);
                            assert(tm[i as int].0 == Rol::Asistan);
                        }
                        assert(gecmis_modeli(gecmis@) =~= once.push(tm[i as int]));
                        assert(once.push(tm[i as int]) =~= tm.take(j as int) + alt.filter(pred).push(tm[i as int]));
                    }
                }
                i += 1;
            }
            proof {
                if ts@.len() <= j {
                    reveal(Seq::filter);
                    assert(tm.subrange(j as int, j as int) =~= Seq::<(Rol, Seq<char>)>::empty());
                }
                assert(tm.subrange(j as int, tm.len() as int) =~= tm.skip(j as int));
                assert(tm.take(tm.len() as int) =~= tm);
            }
            gecmis.push(asistan(a.as_str()));
            sayac = 1;
        },
    }
    let s = Sohbet {
        gecmis,
        sayac,
        gelen: 0,
        hackli: 0,
        son_mesaj: None,
        son_etiketlendi: false,
        son_gelenler: VecDeque::new(),
        ruh_hali: String::new(),
    };
    d.sohbetler.insert(kanal, s);
}

} // verus!
