//! Model isteğinin sistem mesajı: sabit (kişilik ve bilinenler) ve değişken (getirilenler,
//! an, görev) bölümler; sohbetin katılımcıları; gönderilen mesajın kaydı.
use vstd::prelude::*;
use crate::ayarlar::KANAL_GECMIS;
use crate::karar::{konusan, konusulan, ad_satiri};
use crate::metin::{birlestir, bul_konum, degistir, degistirilmis, karakterler, kirp, kirp_sinir, metin_yap, metne};
use crate::sohbet::{kanal_not, kanal_satirlari, metinler, son_n, Durum, Mesaj, Rol};
use crate::yardimci::{ekle, ekle_metin, onbellek_destekler};

verus! {

broadcast use {vstd::string::group_string_axioms, vstd::std_specs::hash::group_hash_axioms};

// ---------- sistem metni ----------

/// İçerik (kırpılmış) boş değilse metne başlığıyla bir bölüm eklenir; bölümler arasında
/// boş satır olur.
pub open spec fn bolum(s: Seq<char>, baslik: Seq<char>, icerik: Seq<char>) -> Seq<char> {
    if kirp(icerik).len() == 0 {
        s
    } else {
        (if s.len() > 0 {
            s + "\n\n"@
        } else {
            s
        }) + baslik + seq!['\n'] + kirp(icerik)
    }
}

fn bolum_ekle(s: &mut Vec<char>, baslik: &str, icerik: &str)
    ensures
        final(s)@ == bolum(old(s)@, baslik@, icerik@),
{
    let v = karakterler(icerik);
    let n = v.len();
    assert(v@.subrange(0, n as int) =~= v@);
    let (a, b) = kirp_sinir(&v, 0, n);
    if a == b {
        return;
    }
    if s.len() > 0 {
        ekle_metin(s, "\n\n");
    }
    ekle_metin(s, baslik);
    s.push('\n');
    let k = crate::metin::kopya(&v, a, b);
    ekle(s, &k);
}

/// Değişmeyen parçalar: kişilik şablonu, favori satırı şablonu, gelişim evresinin metni.
pub struct SistemParcalari {
    /// `{ad}` ve `{favori_satiri}` yer tutucularını taşıyan kişilik metni.
    pub kisilik: String,
    /// `{favori}` yer tutucusunu taşıyan satır.
    pub favori_satiri: String,
    pub evre_metni: String,
    /// Uyku ve yolculuk durumunun anlık metni.
    pub an_metni: String,
}

/// Sabit bölüm: kişilik (ad ve favori satırı yerleştirilmiş), evre, huy, grup profili,
/// hafıza dizini, gündem, son hal, notlar.
pub open spec fn sabit_spec(d: Durum, p: SistemParcalari) -> Seq<char> {
    let favori = match d.favori_adi {
        Some(f) => degistir(p.favori_satiri@, "{favori}"@, f@),
        None => seq![],
    };
    let k = degistir(degistir(p.kisilik@, "{ad}"@, d.bot_adi@), "{favori_satiri}"@, favori);
    let s1 = bolum(k, "GELİŞİM EVREN"@, p.evre_metni@);
    let s2 = bolum(s1, "HUYUN (hocanın son notu, buna göre davran)"@, d.huy@);
    let s3 = bolum(s2, "BU GRUP HAKKINDA BİLDİKLERİN"@, d.profil@);
    let s4 = bolum(
        s3,
        "HAFIZA DİZİNİ (kimi ve neyi biliyorsun; ayrıntı gerekince getiriliyor)"@,
        d.dizin@,
    );
    let s5 = bolum(s4, "GÜNDEM (internette gezerken okudukların ve düşündüklerin)"@, d.gundem@);
    let s6 = bolum(s5, "SENİN SON HALİN"@, d.kendim@);
    bolum(s6, "KENDİNE NOTLAR (eleştirmenin son sohbetten çıkardığı dersler)"@, d.duzeltmeler@)
}

/// Değişken bölüm: hafızadan getirilenler, şu an, görev.
pub open spec fn degisken_spec(p: SistemParcalari, talimat: Seq<char>, getirilen: Seq<char>) -> Seq<char> {
    let s1 = bolum(seq![], "BU SOHBET İÇİN HAFIZADAN GETİRİLENLER"@, getirilen);
    let s2 = bolum(s1, "ŞU AN"@, p.an_metni@);
    bolum(s2, "ŞU ANKİ GÖREVİN"@, talimat)
}

fn yerlestir(metin: &str, yer: &str, deger: &str) -> (r: Vec<char>)
    ensures
        r@ == degistir(metin@, yer@, deger@),
{
    let v = karakterler(metin);
    let a = karakterler(yer);
    let b = karakterler(deger);
    degistirilmis(&v, &a, &b)
}

/// Her cevabın sistem mesajı iki parça: sabit (önbellek buradan kazanır) ve değişken.
pub fn sistem_metni(d: &Durum, p: &SistemParcalari, talimat: &str, getirilen: &str) -> (r: (String, String))
    ensures
        r.0@ == sabit_spec(*d, *p),
        r.1@ == degisken_spec(*p, talimat@, getirilen@),
{
    let favori: Vec<char> = match &d.favori_adi {
        Some(f) => yerlestir(p.favori_satiri.as_str(), "{favori}", f.as_str()),
        None => Vec::new(),
    };
    let k1 = yerlestir(p.kisilik.as_str(), "{ad}", d.bot_adi.as_str());
    let mut sabit = degistirilmis(&k1, &karakterler("{favori_satiri}"), &favori);
    bolum_ekle(&mut sabit, "GELİŞİM EVREN", p.evre_metni.as_str());
    bolum_ekle(&mut sabit, "HUYUN (hocanın son notu, buna göre davran)", d.huy.as_str());
    bolum_ekle(&mut sabit, "BU GRUP HAKKINDA BİLDİKLERİN", d.profil.as_str());
    bolum_ekle(
        &mut sabit,
        "HAFIZA DİZİNİ (kimi ve neyi biliyorsun; ayrıntı gerekince getiriliyor)",
        d.dizin.as_str(),
    );
    bolum_ekle(
        &mut sabit,
        "GÜNDEM (internette gezerken okudukların ve düşündüklerin)",
        d.gundem.as_str(),
    );
    bolum_ekle(&mut sabit, "SENİN SON HALİN", d.kendim.as_str());
    bolum_ekle(
        &mut sabit,
        "KENDİNE NOTLAR (eleştirmenin son sohbetten çıkardığı dersler)",
        d.duzeltmeler.as_str(),
    );
    let mut degisken: Vec<char> = Vec::new();
    bolum_ekle(&mut degisken, "BU SOHBET İÇİN HAFIZADAN GETİRİLENLER", getirilen);
    bolum_ekle(&mut degisken, "ŞU AN", p.an_metni.as_str());
    bolum_ekle(&mut degisken, "ŞU ANKİ GÖREVİN", talimat);
    (metne(&sabit), metne(&degisken))
}

/// Sistem mesajının biçimi: değişken bölüm boşsa düz metin; değilse iki metin bloğu,
/// sabit blok yalnız OpenRouter'a giderken önbellek işaretli.
pub enum SistemMesaji {
    Duz(String),
    Bloklu { sabit: String, onbellek: bool, degisken: String },
}

pub fn sistem_json(sabit: &str, degisken: &str, api_adres: &str) -> (r: SistemMesaji)
    ensures
        match r {
            SistemMesaji::Duz(s) => degisken@.len() == 0 && s@ == sabit@,
            SistemMesaji::Bloklu { sabit: s, onbellek, degisken: g } => degisken@.len() > 0
                && s@ == sabit@ && g@ == degisken@ && onbellek == crate::metin::icerir(
                api_adres@,
                "openrouter.ai"@,
            ),
        },
{
    if degisken.unicode_len() == 0 {
        return SistemMesaji::Duz(sabit.to_owned());
    }
    SistemMesaji::Bloklu {
        sabit: sabit.to_owned(),
        onbellek: onbellek_destekler(api_adres),
        degisken: degisken.to_owned(),
    }
}

// ---------- geçmiş mesajları ----------

/// Bir geçmiş mesajının içeriği: düz metin ya da metin ile görsel bağlantısı.
pub enum MesajIcerigi {
    Duz(String),
    Resimli { metin: String, url: String },
}

/// Bir geçmiş mesajının modele giden biçimi.
pub struct MesajJson {
    pub role: &'static str,
    pub content: MesajIcerigi,
}

/// Kullanıcı mesajı "user", botunki "assistant"; görsel bağlantısı varsa içerik metin ve
/// görsel parçalarından oluşur.
pub fn mesaj_json(m: &Mesaj) -> (r: MesajJson)
    ensures
        r.role@ == (if m.role == Rol::Kullanici {
            "user"@
        } else {
            "assistant"@
        }),
        match m.resim {
            None => r.content matches MesajIcerigi::Duz(s) && s@ == m.content@,
            Some(u) => r.content matches MesajIcerigi::Resimli { metin, url } && metin@ == m.content@
                && url@ == u@,
        },
{
    let role = match m.role {
        Rol::Kullanici => "user",
        Rol::Asistan => "assistant",
    };
    let content = match &m.resim {
        None => MesajIcerigi::Duz(m.content.clone()),
        Some(u) => MesajIcerigi::Resimli { metin: m.content.clone(), url: u.clone() },
    };
    MesajJson { role, content }
}

// ---------- katılımcılar ----------

/// Sohbetin kullanıcı mesajlarından katılımcı adları (ilk görülüş sırasıyla, tekrarsız)
/// ve metinleri ("ad: " öneki atılmış; önek yoksa mesajın tamamı).
pub open spec fn katilimcilar_spec(g: Seq<Mesaj>) -> (Seq<Seq<char>>, Seq<Seq<char>>)
    decreases g.len(),
{
    if g.len() == 0 {
        (seq![], seq![])
    } else {
        let (k, m) = katilimcilar_spec(g.drop_last());
        let son = g.last();
        if son.role != Rol::Kullanici {
            (k, m)
        } else {
            match konusan(son.content@) {
                Some(ad) => (if k.contains(ad) {
                    k
                } else {
                    k.push(ad)
                }, m.push(konusulan(son.content@))),
                None => (k, m.push(son.content@)),
            }
        }
    }
}

pub fn katilimcilar(gecmis: &Vec<Mesaj>) -> (r: (Vec<String>, Vec<String>))
    ensures
        r.0.deep_view() == katilimcilar_spec(gecmis@).0,
        r.1.deep_view() == katilimcilar_spec(gecmis@).1,
{
    let mut kisiler: Vec<String> = Vec::new();
    let mut metinler_: Vec<String> = Vec::new();
    let mut i: usize = 0;
    let p = karakterler(": ");
    proof {
        reveal_strlit(": ");
    }
    assert(p@.len() == 2);
    while i < gecmis.len()
        invariant
            i <= gecmis@.len(),
            p@ == ": "@,
            p@.len() == 2,
            kisiler.deep_view() == katilimcilar_spec(gecmis@.take(i as int)).0,
            metinler_.deep_view() == katilimcilar_spec(gecmis@.take(i as int)).1,
        decreases gecmis@.len() - i,
    {
        assert(gecmis@.take(i + 1).drop_last() =~= gecmis@.take(i as int));
        assert(gecmis@.take(i + 1).last() == gecmis@[i as int]);
        if gecmis[i].role == Rol::Kullanici {
            let v = karakterler(gecmis[i].content.as_str());
            assert(v@.skip(0) =~= v@);
            let bulunan = bul_konum(&v, 0, &p);
            match bulunan {
                Some(k) => {
                    let n = v.len();
                    assert(k + p@.len() <= v@.len());
                    let ad = metin_yap(&v, 0, k);
                    assert(v@.subrange(0, k as int) =~= v@.take(k as int));
                    let metin = metin_yap(&v, k + 2, n);
                    assert(v@.subrange(k + 2, n as int) =~= v@.skip(k + 2));
                    if !kisi_var(&kisiler, &ad) {
                        let ghost k0 = kisiler.deep_view();
                        kisiler.push(ad);
                        assert(kisiler.deep_view() =~= k0.push(v@.take(k as int)));
                    }
                    let ghost m0 = metinler_.deep_view();
                    metinler_.push(metin);
                    assert(metinler_.deep_view() =~= m0.push(v@.skip(k + 2)));
                },
                None => {
                    let ghost m0 = metinler_.deep_view();
                    metinler_.push(gecmis[i].content.clone());
                    assert(metinler_.deep_view() =~= m0.push(gecmis@[i as int].content@));
                },
            }
        }
        i += 1;
    }
    assert(gecmis@.take(i as int) =~= gecmis@);
    (kisiler, metinler_)
}

fn kisi_var(kisiler: &Vec<String>, ad: &String) -> (r: bool)
    ensures
        r == kisiler.deep_view().contains(ad@),
{
    let ghost ks = kisiler.deep_view();
    let a = karakterler(ad.as_str());
    let mut i: usize = 0;
    while i < kisiler.len()
        invariant
            i <= kisiler@.len(),
            ks == kisiler.deep_view(),
            a@ == ad@,
            forall|t: int| 0 <= t < i ==> ks[t] != ad@,
        decreases kisiler@.len() - i,
    {
        if crate::metin::ayni_dizi(&karakterler(kisiler[i].as_str()), &a) {
            assert(ks[i as int] == ad@);
            return true;
        }
        i += 1;
    }
    proof {
        if ks.contains(ad@) {
            let t = choose|t: int| 0 <= t < ks.len() && ks[t] == ad@;
            assert(ks[t] != ad@);
        }
    }
    false
}

// ---------- gönderilenin kaydı ----------

/// Akışsız gönderilen mesaj kayda geçer: botun kendi mesajlarına (taşarsa en eskisi
/// düşer) ve "ad: metin" olarak kanal notuna. Kanal dosyasının yeni içeriği döner.
pub fn gonderileni_kaydet(d: &mut Durum, kanal: u64, metin: &str) -> (r: String)
    ensures
        ({
            let e = metinler(old(d).kendi_mesajlarim@).push(metin@);
            metinler(final(d).kendi_mesajlarim@) == if e.len() > 50 {
                e.drop_first()
            } else {
                e
            }
        }),
        kanal_satirlari(*final(d), kanal) == son_n(
            kanal_satirlari(*old(d), kanal).push(old(d).bot_adi@ + ": "@ + metin@),
            KANAL_GECMIS as nat,
        ),
        r@ == birlestir(kanal_satirlari(*final(d), kanal), seq!['\n']),
        final(d).sohbetler@ == old(d).sohbetler@,
        final(d).hafiza@ == old(d).hafiza@,
        final(d).bot_adi == old(d).bot_adi,
{
    let ghost e0 = d.kendi_mesajlarim@;
    d.kendi_mesajlarim.push_back(metin.to_owned());
    assert(metinler(d.kendi_mesajlarim@) =~= metinler(e0).push(metin@));
    if d.kendi_mesajlarim.len() > 50 {
        let ghost e1 = d.kendi_mesajlarim@;
        let _ = d.kendi_mesajlarim.pop_front();
        assert(metinler(d.kendi_mesajlarim@) =~= metinler(e1).drop_first());
    }
    let satir = ad_satiri(d.bot_adi.as_str(), metin);
    kanal_not(d, kanal, satir)
}

} // verus!
