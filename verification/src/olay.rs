//! Discord olaylarının kararları: hangi sunucuyla ilgilenilir, sunucu ilk gelişinde taranır,
//! yeni üyeye selam verilir, düşünce düğmesine ne gösterilir.
use vstd::prelude::*;
use std::collections::{HashMap, HashSet};
use vstd::std_specs::hash::spec_hash_keys_iter;
use vstd::std_specs::iter::IteratorSpec;
use crate::akis::{dusunce_gosterim, dusunce_gosterim_spec};
use crate::metin::{
    ayni_dizi, birlestir, bul_konum, ilk_konum, karakterler, kirp, kirp_sinir, kopya, metin_yap, metne,
};
use crate::sohbet::Durum;
use crate::yardimci::{birlestirilmis, ekle_metin, ondalik, ondalik_yaz_u64};

verus! {

broadcast use {vstd::string::group_string_axioms, vstd::std_specs::hash::group_hash_axioms};

/// Bir sunucu kimliği ayarlandıysa yalnız o sunucunun olaylarıyla ilgilenilir.
pub fn sunucu_izinli(ayarli: Option<u64>, sunucu: u64) -> (r: bool)
    ensures
        r == (ayarli is None || ayarli == Some(sunucu)),
{
    match ayarli {
        Some(g) => g == sunucu,
        None => true,
    }
}

/// Gelen mesajla ilgilenilir mi: botların, webhook'ların ve özel mesajların (sunucusuz)
/// mesajları hiç işlenmez, bot-bot döngüsü kurulamaz; bir sunucu ayarlıysa yalnız o
/// sunucunun, bir kanal listesi ayarlıysa yalnız o kanalların mesajları işlenir.
pub fn mesaj_kabul(
    yazar_bot: bool,
    webhook: bool,
    sunucu: Option<u64>,
    kanal: u64,
    ayarli_sunucu: Option<u64>,
    izinli_kanallar: &Option<HashSet<u64>>,
) -> (r: bool)
    ensures
        r == (!yazar_bot && !webhook && sunucu is Some && (ayarli_sunucu is None || sunucu == ayarli_sunucu)
            && match izinli_kanallar {
            Some(k) => k@.contains(kanal),
            None => true,
        }),
{
    if yazar_bot || webhook || sunucu.is_none() {
        return false;
    }
    if let Some(g) = ayarli_sunucu {
        if sunucu != Some(g) {
            return false;
        }
    }
    match izinli_kanallar {
        Some(k) => k.contains(&kanal),
        None => true,
    }
}

/// Bağlanınca botun adı: seçtiği bir isim varsa o, yoksa Discord kullanıcı adı.
pub fn bot_adi(secilen: Option<&str>, kullanici: &str) -> (r: String)
    ensures
        r@ == match secilen {
            Some(i) => i@,
            None => kullanici@,
        },
{
    match secilen {
        Some(i) => i.to_owned(),
        None => kullanici.to_owned(),
    }
}

/// Kimliklerin her biri bir satırda, ondalık.
pub open spec fn kimlik_satirlari(ks: Seq<u64>) -> Seq<Seq<char>> {
    ks.map_values(|k: u64| ondalik(k as nat))
}

/// Taranan sunucuların kimlikleri (sırası belirsiz, tekrarsız).
fn kimlikler(s: &HashSet<u64>) -> (r: Vec<u64>)
    ensures
        r@.to_set() == s@,
        r@.no_duplicates(),
        r@.len() == s@.len(),
{
    let mut r: Vec<u64> = Vec::new();
    for k in it: s.iter()
        invariant
            r@ == it.seq().take(it.index() as int).map_values(|x: &u64| *x),
    {
        r.push(*k);
    }
    proof {
        let ks = spec_hash_keys_iter(s).remaining();
        assert(r@ =~= ks.unref());
    }
    r
}

/// Sunucu geldi: taranan sunucular arasına girer. İlk gelişiyse taranacaktır ve taranan
/// listesinin yeni metni döner (kimlikler satır satır, sırası belirsiz); daha önce
/// taranmışsa bir şey dönmez.
pub fn sunucu_geldi(taranan: &mut HashSet<u64>, sunucu: u64) -> (r: Option<String>)
    ensures
        final(taranan)@ == old(taranan)@.insert(sunucu),
        r is Some <==> !old(taranan)@.contains(sunucu),
        r matches Some(t) ==> exists|ks: Seq<u64>|
            #![trigger kimlik_satirlari(ks)]
            ks.to_set() == final(taranan)@ && ks.no_duplicates() && t@ == birlestir(
                kimlik_satirlari(ks),
                "\n"@,
            ),
{
    let yeni = taranan.insert(sunucu);
    if !yeni {
        return None;
    }
    let ks = kimlikler(taranan);
    let mut satirlar: Vec<String> = Vec::new();
    let mut i: usize = 0;
    while i < ks.len()
        invariant
            i <= ks@.len(),
            satirlar.deep_view() == kimlik_satirlari(ks@).take(i as int),
        decreases ks@.len() - i,
    {
        let v = ondalik_yaz_u64(ks[i]);
        let ghost s0 = satirlar.deep_view();
        satirlar.push(crate::metin::metne(&v));
        assert(satirlar.deep_view() =~= s0.push(ondalik(ks@[i as int] as nat)));
        assert(kimlik_satirlari(ks@).take(i + 1) =~= kimlik_satirlari(ks@).take(i as int).push(
            ondalik(ks@[i as int] as nat),
        ));
        i += 1;
    }
    assert(kimlik_satirlari(ks@).take(i as int) =~= kimlik_satirlari(ks@));
    let t = birlestirilmis(&satirlar, "\n");
    Some(t)
}

/// Sürüm duyurusunun açıklaması.
pub fn duyuru_aciklamasi(model: &str, kip: &str) -> (r: String)
    ensures
        r@ == "model "@ + model@ + " · düşünme "@ + kip@,
{
    let mut v: Vec<char> = Vec::new();
    ekle_metin(&mut v, "model ");
    ekle_metin(&mut v, model);
    ekle_metin(&mut v, " · düşünme ");
    ekle_metin(&mut v, kip);
    crate::metin::metne(&v)
}

/// Favori dışında bütün alanlar aynı.
pub open spec fn favori_disinda_ayni(a: Durum, b: Durum) -> bool {
    &&& a.bot_adi@ == b.bot_adi@
    &&& a.profil@ == b.profil@
    &&& a.hafiza@ == b.hafiza@
    &&& a.kanal_gecmisi@ == b.kanal_gecmisi@
    &&& a.sohbetler@ == b.sohbetler@
    &&& a.son_aktivite@ == b.son_aktivite@
    &&& a.haber_bekleyen@ == b.haber_bekleyen@
    &&& a.son_kanal == b.son_kanal
    &&& a.son_degerlendirme@ == b.son_degerlendirme@
    &&& a.bekleyen_etiketler@ == b.bekleyen_etiketler@
    &&& a.kendi_mesajlarim@ == b.kendi_mesajlarim@
    &&& a.mesgul@ == b.mesgul@
    &&& a.kullanici_adi@ == b.kullanici_adi@
    &&& a.huy@ == b.huy@
    &&& a.dizin@ == b.dizin@
    &&& a.gundem@ == b.gundem@
    &&& a.kendim@ == b.kendim@
    &&& a.duzeltmeler@ == b.duzeltmeler@
}

/// Yeni üye: selam sunucunun sistem kanalına, yoksa varsayılan kanala gider; ikisi de
/// yoksa hiçbir şey olmaz. Üye favori kişiyse adı hatırlanır. Kanalda zaten açık bir
/// sohbet varsa selam verilmez; verilecekse kanal ve modele giden "ad sunucuya yeni
/// katıldı." döner.
pub fn hos_geldin(
    d: &mut Durum,
    sistem_kanali: Option<u64>,
    varsayilan: Option<u64>,
    favori_mi: bool,
    isim: &str,
) -> (r: Option<(u64, String)>)
    ensures
        favori_disinda_ayni(*final(d), *old(d)),
        ({
            let kanal = match sistem_kanali {
                Some(k) => Some(k),
                None => varsayilan,
            };
            &&& kanal is Some && favori_mi ==> (final(d).favori_adi matches Some(f) && f@ == isim@)
            &&& !(kanal is Some && favori_mi) ==> final(d).favori_adi == old(d).favori_adi
            &&& match r {
                None => kanal is None || old(d).sohbetler@.contains_key(kanal->0),
                Some((k, m)) => kanal == Some(k) && !old(d).sohbetler@.contains_key(k) && m@ == isim@
                    + " sunucuya yeni katıldı."@,
            }
        }),
{
    let kanal = match sistem_kanali {
        Some(k) => k,
        None => match varsayilan {
            Some(k) => k,
            None => return None,
        },
    };
    if favori_mi {
        d.favori_adi = Some(isim.to_owned());
    }
    if d.sohbetler.contains_key(&kanal) {
        return None;
    }
    let mut v: Vec<char> = Vec::new();
    ekle_metin(&mut v, isim);
    ekle_metin(&mut v, " sunucuya yeni katıldı.");
    Some((kanal, crate::metin::metne(&v)))
}

/// Düşünce düğmesi: mesajın düşüncesi depoda varsa kod bloğu olarak gösterilir, yoksa
/// bulunamadığı söylenir.
pub fn dusunce_yaniti(depo: &HashMap<u64, String>, mesaj: u64) -> (r: String)
    ensures
        r@ == if depo@.contains_key(mesaj) {
            dusunce_gosterim_spec(depo@[mesaj]@)
        } else {
            "düşünce bulunamadı (bot yeniden başlamış olabilir)"@
        },
{
    match depo.get(&mesaj) {
        Some(d) => dusunce_gosterim(d.as_str()),
        None => "düşünce bulunamadı (bot yeniden başlamış olabilir)".to_owned(),
    }
}

// ---------- terminal tezgâhı ----------

/// Terminalden sohbet tezgâhının bir satırı.
pub enum TezgahGirdisi {
    /// "!quit": çıkılır.
    Cik,
    /// Boş satır: atlanır.
    Bos,
    /// Konuşanın adı ve mesajı.
    Mesaj(String, String),
}

/// Tezgâh satırı "ad: metin" biçimindedir; iki nokta yoksa (ya da ad boşsa) konuşan
/// "misafir" sayılır; ad ve metin kırpılır.
pub open spec fn tezgah_spec(satir: Seq<char>) -> Option<(Seq<char>, Seq<char>)> {
    let t = kirp(satir);
    if t.len() == 0 || t == "!quit"@ {
        None
    } else {
        match ilk_konum(t, ':') {
            Some(i) => if kirp(t.take(i)).len() > 0 {
                Some((kirp(t.take(i)), kirp(t.skip(i + 1))))
            } else {
                Some(("misafir"@, kirp(t.skip(i + 1))))
            },
            None => Some(("misafir"@, t)),
        }
    }
}

pub fn tezgah_girdisi(satir: &str) -> (r: TezgahGirdisi)
    ensures
        match r {
            TezgahGirdisi::Cik => kirp(satir@) == "!quit"@,
            TezgahGirdisi::Bos => kirp(satir@).len() == 0,
            TezgahGirdisi::Mesaj(ad, m) => tezgah_spec(satir@) == Some((ad@, m@)),
        },
{
    let v = karakterler(satir);
    let (a, b) = kirp_sinir(&v, 0, v.len());
    assert(v@.subrange(0, v@.len() as int) =~= v@);
    let t = kopya(&v, a, b);
    if t.len() == 0 {
        return TezgahGirdisi::Bos;
    }
    if ayni_dizi(&t, &karakterler("!quit")) {
        return TezgahGirdisi::Cik;
    }
    let iki_nokta = vec![':'];
    assert(iki_nokta@ =~= seq![':']);
    assert(t@.skip(0) =~= t@);
    match bul_konum(&t, 0, &iki_nokta) {
        Some(i) => {
            let (c, d) = kirp_sinir(&t, 0, i);
            let (e, f) = kirp_sinir(&t, i + 1, t.len());
            assert(t@.subrange(0, i as int) =~= t@.take(i as int));
            assert(t@.subrange(i + 1, t@.len() as int) =~= t@.skip(i + 1));
            let m = metin_yap(&t, e, f);
            if c < d {
                TezgahGirdisi::Mesaj(metin_yap(&t, c, d), m)
            } else {
                TezgahGirdisi::Mesaj("misafir".to_owned(), m)
            }
        },
        None => TezgahGirdisi::Mesaj("misafir".to_owned(), metne(&t)),
    }
}

} // verus!
