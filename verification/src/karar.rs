//! Gelen mesajın kararları: kayda geçen metin, etiket, süren diyalog, isteklilik ve
//! mesajın sohbete işlenmesi.
use vstd::prelude::*;
use std::collections::HashMap;
use crate::akis::bos_mu_kirpik;
use crate::ayarlar::{DEGERLENDIRME_ARALIGI, HAFIZA_BOYU, ISTEK_ESIGI, SOHBET_BOYU};
use crate::metin::{ayni_dizi, bul, bul_konum, icerir, iceriyor, karakterler, kirp, metin_yap, metne};
use crate::sohbet::{
    ad_haritasi, ad_kaydet, hafiza_satirlari, hatirla, acilan_gecmis, ek_alanlar_ayni, gecmis_modeli, kanal_not, kanal_satirlari, kullanici,
    kullanici_resimli, sohbet_baslat, son_n, Durum, Mesaj, Rol,
};
use crate::yardimci::{ekle_metin, kucuk_harf_metni, kucuk_harfe_cevir, kucult, kucult_spec};

verus! {

broadcast use {vstd::string::group_string_axioms, vstd::std_specs::hash::group_hash_axioms};

// ---------- kayda geçen metin ----------

/// Gelen mesajın kayda geçen metni: görsel varsa metnin içinde işaretlenir; ne metin ne
/// görsel varsa mesaj işlenmez.
pub open spec fn mesaj_metni_spec(ham: Seq<char>, resimli: bool) -> Option<Seq<char>> {
    if !resimli {
        if kirp(ham).len() == 0 {
            None
        } else {
            Some(ham)
        }
    } else if kirp(ham).len() == 0 {
        Some("[resim attı]"@)
    } else {
        Some("[resim] "@ + ham)
    }
}

pub fn mesaj_metni(ham: &str, resimli: bool) -> (r: Option<String>)
    ensures
        match r {
            Some(m) => mesaj_metni_spec(ham@, resimli) == Some(m@),
            None => mesaj_metni_spec(ham@, resimli) is None,
        },
{
    let bos = bos_mu_kirpik(ham);
    if !resimli {
        if bos {
            None
        } else {
            Some(ham.to_owned())
        }
    } else if bos {
        Some("[resim attı]".to_owned())
    } else {
        let mut v: Vec<char> = Vec::new();
        ekle_metin(&mut v, "[resim] ");
        ekle_metin(&mut v, ham);
        Some(metne(&v))
    }
}

// ---------- etiket ----------

/// Ad boş değil ve mesajda büyük/küçük harf gözetmeden geçiyor.
pub open spec fn ad_geciyor(metin: Seq<char>, ad: Seq<char>) -> bool {
    ad.len() > 0 && icerir(kucuk_harf_metni(metin), kucuk_harf_metni(ad))
}

fn ad_geciyor_mu(m: &Vec<char>, metin: &str, ad: &str) -> (r: bool)
    requires
        m@ == kucuk_harf_metni(metin@),
    ensures
        r == ad_geciyor(metin@, ad@),
{
    let a = karakterler(ad);
    if a.len() == 0 {
        return false;
    }
    let ak = kucuk_harfe_cevir(ad);
    iceriyor(m, &karakterler(ak.as_str()))
}

/// Bot etiketlendi mi: bahsedildi, mesajına yanıt verildi ya da adı (ya da hesap adı) geçti.
pub fn etiketlendi_mi(
    bahsedildi: bool,
    bota_yanit: bool,
    metin: &str,
    bot_adi: &str,
    kullanici_adi: &str,
) -> (r: bool)
    ensures
        r == (bahsedildi || bota_yanit || ad_geciyor(metin@, bot_adi@) || ad_geciyor(
            metin@,
            kullanici_adi@,
        )),
{
    if bahsedildi || bota_yanit {
        return true;
    }
    let mk = kucuk_harfe_cevir(metin);
    let m = karakterler(mk.as_str());
    ad_geciyor_mu(&m, metin, bot_adi) || ad_geciyor_mu(&m, metin, kullanici_adi)
}

// ---------- süren diyalog ----------

/// Geçmişteki son kullanıcı mesajının konumu.
pub open spec fn son_kullanici(g: Seq<Mesaj>) -> Option<int>
    decreases g.len(),
{
    if g.len() == 0 {
        None
    } else if g.last().role == Rol::Kullanici {
        Some(g.len() - 1)
    } else {
        son_kullanici(g.drop_last())
    }
}

proof fn lemma_son_kullanici(g: Seq<Mesaj>)
    ensures
        son_kullanici(g) matches Some(i) ==> 0 <= i < g.len() && g[i].role == Rol::Kullanici,
    decreases g.len(),
{
    if g.len() > 0 && g.last().role != Rol::Kullanici {
        lemma_son_kullanici(g.drop_last());
    }
}

fn son_kullanici_bul(g: &Vec<Mesaj>) -> (r: Option<usize>)
    ensures
        match r {
            Some(i) => son_kullanici(g@) == Some(i as int) && i < g@.len(),
            None => son_kullanici(g@) is None,
        },
{
    let mut j = g.len();
    assert(g@.take(j as int) =~= g@);
    while j > 0
        invariant
            j <= g@.len(),
            son_kullanici(g@) == son_kullanici(g@.take(j as int)),
        decreases j,
    {
        if g[j - 1].role == Rol::Kullanici {
            assert(g@.take(j as int).last() == g@[j - 1]);
            return Some(j - 1);
        }
        assert(g@.take(j as int).drop_last() =~= g@.take(j - 1));
        j -= 1;
    }
    None
}

/// "ad: metin" satırının ad kısmı (ilk ": "den öncesi).
pub open spec fn konusan(icerik: Seq<char>) -> Option<Seq<char>> {
    match bul(icerik, ": "@) {
        Some(k) => Some(icerik.take(k)),
        None => None,
    }
}

/// "ad: metin" satırının metin kısmı; ayraç yoksa satırın tamamı.
pub open spec fn konusulan(icerik: Seq<char>) -> Seq<char> {
    match bul(icerik, ": "@) {
        Some(k) => icerik.skip(k + 2),
        None => icerik,
    }
}

fn ayrac_bul(v: &Vec<char>) -> (r: Option<usize>)
    ensures
        match r {
            Some(k) => bul(v@, ": "@) == Some(k as int) && k + 2 <= v@.len(),
            None => bul(v@, ": "@) is None,
        },
{
    let p = karakterler(": ");
    proof {
        reveal_strlit(": ");
    }
    assert(v@.skip(0) =~= v@);
    bul_konum(v, 0, &p)
}

/// Açık sohbette son kullanıcı mesajını yazan, şimdi yazanla aynı kişi mi (küçük harfle).
pub open spec fn diyalog_suruyor(d: Durum, kanal: u64, isim: Seq<char>) -> bool {
    &&& d.sohbetler@.contains_key(kanal)
    &&& son_kullanici(d.sohbetler@[kanal].gecmis@) matches Some(i)
    &&& konusan(d.sohbetler@[kanal].gecmis@[i].content@) matches Some(ad)
    &&& kucult_spec(ad) == kucult_spec(isim)
}

pub fn devam_eden_diyalog(d: &Durum, kanal: u64, isim: &str) -> (r: bool)
    ensures
        r == diyalog_suruyor(*d, kanal, isim@),
{
    let s = match d.sohbetler.get(&kanal) {
        Some(s) => s,
        None => return false,
    };
    let i = match son_kullanici_bul(&s.gecmis) {
        Some(i) => i,
        None => return false,
    };
    let v = karakterler(s.gecmis[i].content.as_str());
    assert(*s == d.sohbetler@[kanal]);
    assert(son_kullanici(d.sohbetler@[kanal].gecmis@) == Some(i as int));
    assert(v@ == d.sohbetler@[kanal].gecmis@[i as int].content@);
    let k = match ayrac_bul(&v) {
        Some(k) => k,
        None => return false,
    };
    let ad = metin_yap(&v, 0, k);
    assert(v@.subrange(0, k as int) =~= v@.take(k as int));
    let a = kucult(ad.as_str());
    let b = kucult(isim);
    ayni_dizi(&karakterler(a.as_str()), &karakterler(b.as_str()))
}

// ---------- isteklilik ----------

/// Kanalda isteklilik değerlendirmesi yapılabilir mi: hiç yapılmadıysa ya da son
/// değerlendirmenin üstünden yeterince zaman geçtiyse. Yapılabiliyorsa an kaydedilir.
pub fn degerlendirme_uygun(son: &mut HashMap<u64, u64>, kanal: u64, simdi: u64) -> (r: bool)
    ensures
        r == (!old(son)@.contains_key(kanal) || old(son)@[kanal] + DEGERLENDIRME_ARALIGI <= simdi),
        r ==> final(son)@ == old(son)@.insert(kanal, simdi),
        !r ==> final(son)@ == old(son)@,
{
    let uygun = match son.get(&kanal) {
        None => true,
        Some(t) => *t <= simdi && simdi - *t >= DEGERLENDIRME_ARALIGI,
    };
    if uygun {
        son.insert(kanal, simdi);
    }
    uygun
}

/// Gelişim evresinin verdiği cesaret.
#[derive(Clone, Copy, Debug, PartialEq, Eq, Structural)]
pub enum Cesaret {
    Dusuk,
    Olagan,
    Yuksek,
}

/// Sohbete katılma eşiği: çekingen evrede bir artar, rahat evrede bir azalır, yoldayken
/// iki artar.
pub open spec fn isteklilik_esigi_spec(cesaret: Cesaret, yolda: bool) -> int {
    ISTEK_ESIGI + match cesaret {
        Cesaret::Dusuk => 1int,
        Cesaret::Olagan => 0int,
        Cesaret::Yuksek => -1int,
    } + if yolda {
        2int
    } else {
        0int
    }
}

pub fn isteklilik_esigi(cesaret: Cesaret, yolda: bool) -> (r: i32)
    ensures
        r == isteklilik_esigi_spec(cesaret, yolda),
        r >= 0,
{
    let mut esik: i32 = ISTEK_ESIGI;
    match cesaret {
        Cesaret::Dusuk => esik += 1,
        Cesaret::Olagan => {},
        Cesaret::Yuksek => esik -= 1,
    }
    if yolda {
        esik += 2;
    }
    esik
}

/// Katılma kararı: puan geldiyse eşikle kıyaslanır, gelmediyse yedek zar geçerlidir.
pub open spec fn isteklilik_karari_spec(puan: Option<u8>, esik: int, zar: bool) -> bool {
    match puan {
        Some(p) => p as int >= esik,
        None => zar,
    }
}

pub fn isteklilik_karari(puan: Option<u8>, esik: i32, zar: bool) -> (r: bool)
    ensures
        r == match puan {
            Some(p) => p as int >= esik as int,
            None => zar,
        },
        r == isteklilik_karari_spec(puan, esik as int, zar),
{
    match puan {
        Some(p) => (p as i32) >= esik,
        None => zar,
    }
}

/// Sohbete katılma kararı: etiketlendiyse ya da diyalog sürüyorsa doğrudan; değilse
/// isteklilik değerlendirildiyse onun sonucu, değerlendirilmediyse katılmaz.
pub open spec fn katilim_spec(etiketlendi: bool, diyalog: bool, degerlendirme: Option<bool>) -> bool {
    etiketlendi || diyalog || degerlendirme == Some(true)
}

pub fn katilim(etiketlendi: bool, diyalog: bool, degerlendirme: Option<bool>) -> (r: bool)
    ensures
        r == katilim_spec(etiketlendi, diyalog, degerlendirme),
{
    if etiketlendi || diyalog {
        return true;
    }
    match degerlendirme {
        Some(k) => k,
        None => false,
    }
}

// ---------- uyku ve haber beklentisi ----------

/// Uykudayken etiketlendiği mesaj uyanınca dönülmek üzere saklanır; en çok yirmi tane,
/// taşarsa en eskisi düşer.
pub fn etiketi_beklet(bekleyen: &mut Vec<(u64, String)>, kanal: u64, satir: String)
    ensures
        ({
            let eklenmis = old(bekleyen)@.push((kanal, satir));
            final(bekleyen)@ == if eklenmis.len() > 20 {
                eklenmis.drop_first()
            } else {
                eklenmis
            }
        }),
{
    bekleyen.push((kanal, satir));
    if bekleyen.len() > 20 {
        bekleyen.remove(0);
    }
}

/// Haber atılan kanalda yorum bekleme süresi dolduysa sohbet kapanır, beklenti silinir.
pub fn haber_beklentisi_doldu(d: &mut Durum, kanal: u64, simdi: u64) -> (r: bool)
    ensures
        r == (old(d).haber_bekleyen@.contains_key(kanal) && old(d).haber_bekleyen@[kanal] < simdi),
        r ==> final(d).sohbetler@ == old(d).sohbetler@.remove(kanal)
            && final(d).haber_bekleyen@ == old(d).haber_bekleyen@.remove(kanal),
        !r ==> final(d).sohbetler@ == old(d).sohbetler@ && final(d).haber_bekleyen@ == old(
            d,
        ).haber_bekleyen@,
        final(d).bot_adi == old(d).bot_adi,
        final(d).profil == old(d).profil,
        final(d).hafiza@ == old(d).hafiza@,
        final(d).kanal_gecmisi@ == old(d).kanal_gecmisi@,
        final(d).son_aktivite@ == old(d).son_aktivite@,
        final(d).son_kanal == old(d).son_kanal,
        ek_alanlar_ayni(*final(d), *old(d)),
{
    let doldu = match d.haber_bekleyen.get(&kanal) {
        Some(t) => *t < simdi,
        None => false,
    };
    if doldu {
        let _ = d.sohbetler.remove(&kanal);
        let _ = d.haber_bekleyen.remove(&kanal);
    }
    doldu
}

// ---------- mesajın sohbete işlenmesi ----------

/// Mesaj işlenmeden önceki sohbet geçmişi: açık sohbetinki, yoksa yeni açılacak olanınki.
pub open spec fn onceki_gecmis(d: Durum, kanal: u64) -> Seq<(Rol, Seq<char>)> {
    if d.sohbetler@.contains_key(kanal) {
        gecmis_modeli(d.sohbetler@[kanal].gecmis@)
    } else {
        acilan_gecmis(kanal_satirlari(d, kanal), d.bot_adi@, None)
    }
}

/// Sohbete yeni kullanıcı satırı eklenir; sınırı aşan en eski mesajlar düşer.
pub open spec fn kullanici_eklenmis(g: Seq<(Rol, Seq<char>)>, satir: Seq<char>) -> Seq<(Rol, Seq<char>)> {
    son_n(g.push((Rol::Kullanici, satir)), SOHBET_BOYU as nat)
}

/// Bekleyen yazarların görünümü: ad ve mesaj kimliği.
pub open spec fn gelenler_modeli(q: Seq<(String, u64)>) -> Seq<(Seq<char>, u64)> {
    q.map_values(|p: (String, u64)| (p.0@, p.1))
}

/// Sona eklenmiş dizi sınırı aşıyorsa baştan bir eleman düşer.
pub open spec fn ilk_dusmus<T>(e: Seq<T>, sinir: nat) -> Seq<T> {
    if e.len() > sinir {
        e.drop_first()
    } else {
        e
    }
}

/// Seçenekli metnin görünümü.
pub open spec fn secenek_gorunum(o: Option<String>) -> Option<Seq<char>> {
    match o {
        Some(x) => Some(x@),
        None => None,
    }
}

/// "ad: metin" satırı.
pub fn ad_satiri(isim: &str, metin: &str) -> (r: String)
    ensures
        r@ == isim@ + ": "@ + metin@,
{
    let mut v: Vec<char> = Vec::new();
    ekle_metin(&mut v, isim);
    ekle_metin(&mut v, ": ");
    ekle_metin(&mut v, metin);
    metne(&v)
}

/// Mesaj sohbete işlenir (3. faz): katılma kararı verildiyse ve sohbet kapalıysa açılır;
/// açık sohbete mesaj girer (eski görseller düşer, yalnız bu mesajınki kalır), sayaçlar
/// ilerler; satır kanal notuna da düşer. Cevap verilecek mi ve kanal dosyasının yeni
/// içeriği döner.
pub fn mesaji_isle(
    d: &mut Durum,
    kanal: u64,
    isim: &str,
    metin: &str,
    resim: Option<String>,
    mesaj_id: u64,
    etiketlendi: bool,
    katil: bool,
    simdi: u64,
) -> (r: (bool, String))
    requires
        old(d).sohbetler@.contains_key(kanal) ==> old(d).sohbetler@[kanal].gelen < u32::MAX,
    ensures
        r.0 == katil,
        ({
            let satir = isim@ + ": "@ + metin@;
            let acik = old(d).sohbetler@.contains_key(kanal) || katil;
            &&& !acik ==> final(d).sohbetler@ == old(d).sohbetler@ && final(d).son_aktivite@ == old(
                d,
            ).son_aktivite@
            &&& acik ==> {
                let s = final(d).sohbetler@[kanal];
                let var = old(d).sohbetler@.contains_key(kanal);
                let o = old(d).sohbetler@[kanal];
                &&& final(d).sohbetler@ == old(d).sohbetler@.insert(kanal, s)
                &&& gecmis_modeli(s.gecmis@) == kullanici_eklenmis(onceki_gecmis(*old(d), kanal), satir)
                &&& s.gecmis@.len() > 0
                &&& secenek_gorunum(s.gecmis@.last().resim) == secenek_gorunum(resim)
                &&& forall|k: int| 0 <= k < s.gecmis@.len() - 1 ==> (#[trigger] s.gecmis@[k]).resim is None
                &&& s.son_mesaj == Some(mesaj_id)
                &&& s.son_etiketlendi == etiketlendi
                &&& s.gelen == (if var { o.gelen + 1 } else { 1 })
                &&& s.sayac == (if var { o.sayac } else { 0 })
                &&& s.hackli == (if var { o.hackli } else { 0 })
                &&& s.ruh_hali@ == (if var { o.ruh_hali@ } else { seq![] })
                &&& gelenler_modeli(s.son_gelenler@) == ilk_dusmus(
                    (if var {
                        gelenler_modeli(o.son_gelenler@)
                    } else {
                        seq![]
                    }).push((isim@, mesaj_id)),
                    20,
                )
                &&& final(d).son_aktivite@ == old(d).son_aktivite@.insert(kanal, simdi)
            }
            &&& kanal_satirlari(*final(d), kanal) == son_n(
                kanal_satirlari(*old(d), kanal).push(satir),
                crate::ayarlar::KANAL_GECMIS as nat,
            )
            &&& r.1@ == crate::metin::birlestir(kanal_satirlari(*final(d), kanal), seq!['\n'])
        }),
        final(d).bot_adi == old(d).bot_adi,
        final(d).profil == old(d).profil,
        final(d).hafiza@ == old(d).hafiza@,
        final(d).haber_bekleyen@ == old(d).haber_bekleyen@,
        final(d).son_kanal == old(d).son_kanal,
        ek_alanlar_ayni(*final(d), *old(d)),
{
    let satir = ad_satiri(isim, metin);
    let var = d.sohbetler.contains_key(&kanal);
    if !var && katil {
        sohbet_baslat(d, kanal, None, simdi);
    }
    let ghost orta = *d;
    assert(var ==> orta.sohbetler@ == old(d).sohbetler@);
    if var || katil {
        let ghost g0 = onceki_gecmis(*old(d), kanal);
        let mut s = d.sohbetler.remove(&kanal).unwrap();
        assert(gecmis_modeli(s.gecmis@) == g0);
        let n = s.gecmis.len();
        let atla: usize = if n >= SOHBET_BOYU {
            n - (SOHBET_BOYU - 1)
        } else {
            0
        };
        let mut yeni: Vec<Mesaj> = Vec::new();
        let mut i = atla;
        while i < n
            invariant
                atla <= i <= n == s.gecmis@.len(),
                gecmis_modeli(yeni@) == gecmis_modeli(s.gecmis@).subrange(atla as int, i as int),
                forall|k: int| 0 <= k < yeni@.len() ==> (#[trigger] yeni@[k]).resim is None,
            decreases n - i,
        {
            let m = Mesaj { role: s.gecmis[i].role, content: s.gecmis[i].content.clone(), resim: None };
            proof {
                assert(gecmis_modeli(s.gecmis@)[i as int] == (m.role, m.content@));
                assert(gecmis_modeli(s.gecmis@).subrange(atla as int, i + 1) =~= gecmis_modeli(
                    s.gecmis@,
                ).subrange(atla as int, i as int).push((m.role, m.content@)));
            }
            yeni.push(m);
            assert(gecmis_modeli(yeni@) =~= gecmis_modeli(s.gecmis@).subrange(atla as int, i + 1));
            i += 1;
        }
        let m = match &resim {
            Some(url) => kullanici_resimli(satir.as_str(), url.as_str()),
            None => kullanici(satir.as_str()),
        };
        let ghost onceki_yeni = yeni@;
        yeni.push(m);
        proof {
            let gp = g0.push((Rol::Kullanici, satir@));
            assert(gecmis_modeli(yeni@) =~= gecmis_modeli(onceki_yeni).push((Rol::Kullanici, satir@)));
            if n + 1 > SOHBET_BOYU {
                assert(gp.skip(n + 1 - SOHBET_BOYU) =~= g0.subrange(atla as int, n as int).push(
                    (Rol::Kullanici, satir@),
                ));
            } else {
                assert(g0.subrange(0, n as int) =~= g0);
                assert(gp =~= g0.subrange(atla as int, n as int).push((Rol::Kullanici, satir@)));
            }
            assert forall|k: int| 0 <= k < yeni@.len() - 1 implies (#[trigger] yeni@[k]).resim is None by {
                assert(yeni@[k] == onceki_yeni[k]);
            }
        }
        s.gecmis = yeni;
        s.son_mesaj = Some(mesaj_id);
        s.son_etiketlendi = etiketlendi;
        s.gelen = s.gelen + 1;
        let ghost gelenler0 = s.son_gelenler@;
        assert(var ==> gelenler_modeli(gelenler0) == gelenler_modeli(old(d).sohbetler@[kanal].son_gelenler@));
        assert(!var ==> gelenler0.len() == 0);
        let ad = isim.to_owned();
        s.son_gelenler.push_back((ad, mesaj_id));
        if s.son_gelenler.len() > 20 {
            let _ = s.son_gelenler.pop_front();
        }
        proof {
            let e = gelenler_modeli(gelenler0).push((isim@, mesaj_id));
            if gelenler0.len() + 1 > 20 {
                assert(gelenler_modeli(s.son_gelenler@) =~= e.drop_first());
            } else {
                assert(gelenler_modeli(s.son_gelenler@) =~= e);
            }
        }
        d.sohbetler.insert(kanal, s);
        d.son_aktivite.insert(kanal, simdi);
    }
    let icerik = kanal_not(d, kanal, satir);
    (katil, icerik)
}

// ---------- mesajın kaydı ----------

/// Gelen mesajın kaydı (1. faz): "ad: metin" hafızaya girer; yazarın küçük harfli adı
/// kimliğine bağlanır (aynı ad için eski kayıt ezilir); kimliğin Discord kullanıcı adı
/// yazılır; son kanal bu kanal olur; yazar favori kişiyse adı hatırlanır.
pub fn mesaji_kaydet(
    d: &mut Durum,
    kanal: u64,
    isim: &str,
    metin: &str,
    yazar: u64,
    kullanici_adi: &str,
    favori_mi: bool,
)
    ensures
        hafiza_satirlari(*final(d)) == {
            let h = hafiza_satirlari(*old(d)).push(isim@ + ": "@ + metin@);
            if h.len() > HAFIZA_BOYU {
                h.drop_first()
            } else {
                h
            }
        },
        ad_haritasi(final(d).ad_kimlikleri@) == ad_haritasi(old(d).ad_kimlikleri@).insert(
            kucuk_harf_metni(isim@),
            yazar,
        ),
        final(d).kullanici_adlari@ == old(d).kullanici_adlari@.insert(yazar, final(d).kullanici_adlari@[yazar]),
        final(d).kullanici_adlari@[yazar]@ == kullanici_adi@,
        final(d).son_kanal == Some(kanal),
        favori_mi ==> (final(d).favori_adi matches Some(f) && f@ == isim@),
        !favori_mi ==> final(d).favori_adi == old(d).favori_adi,
        final(d).bot_adi == old(d).bot_adi,
        final(d).profil == old(d).profil,
        final(d).kanal_gecmisi@ == old(d).kanal_gecmisi@,
        final(d).sohbetler@ == old(d).sohbetler@,
        final(d).son_aktivite@ == old(d).son_aktivite@,
        final(d).haber_bekleyen@ == old(d).haber_bekleyen@,
        final(d).son_degerlendirme@ == old(d).son_degerlendirme@,
        final(d).bekleyen_etiketler@ == old(d).bekleyen_etiketler@,
        final(d).kendi_mesajlarim@ == old(d).kendi_mesajlarim@,
        final(d).mesgul@ == old(d).mesgul@,
        final(d).kullanici_adi@ == old(d).kullanici_adi@,
{
    hatirla(d, isim, metin);
    let kucuk = kucuk_harfe_cevir(isim);
    ad_kaydet(&mut d.ad_kimlikleri, kucuk.as_str(), yazar);
    let _ = d.kullanici_adlari.insert(yazar, kullanici_adi.to_owned());
    d.son_kanal = Some(kanal);
    if favori_mi {
        d.favori_adi = Some(isim.to_owned());
    }
}

} // verus!
